//! What holds of the queue operations whatever the message and whatever the
//! reply.

use vstd::prelude::*;
use crate::error::Failure;
use crate::json::Json;
use crate::queue::Queue;
use crate::queue::message::{MessageIdsView, MessageView};
use crate::queue::queue_info::{AlertType, AlertView, Direction, PushView, QueueInfoView, QueueType, SubscriberView};
use crate::reply::{all_reserved, ids_in, message_in, messages_in, queue_in, refusal, reservation_in, status_in, token_in};

verus! {

/// The names of a message's members differ from one another.
pub proof fn message_keys_differ()
    ensures
        "body"@ != "delay"@,
        "body"@ != "id"@,
        "body"@ != "reserved_count"@,
        "body"@ != "reservation_id"@,
        "delay"@ != "id"@,
        "delay"@ != "reserved_count"@,
        "delay"@ != "reservation_id"@,
        "id"@ != "reserved_count"@,
        "id"@ != "reservation_id"@,
        "reserved_count"@ != "reservation_id"@,
{
    reveal_strlit("body");
    reveal_strlit("delay");
    reveal_strlit("id");
    reveal_strlit("reserved_count");
    reveal_strlit("reservation_id");
    assert("body"@.len() == 4);
    assert("delay"@.len() == 5);
    assert("id"@.len() == 2);
    assert("reserved_count"@.len() == 14);
    assert("reservation_id"@.len() == 14);
    assert("reserved_count"@[6] == 'e');
    assert("reservation_id"@[6] == 'a');
}

/// A message survives the wire: reading the JSON object of a message gives
/// that message back, with its body and every other member.
pub proof fn message_round_trip(message: MessageView)
    ensures
        MessageView::from_json(message.to_json()) == Some(message),
{
    message_keys_differ();
    let json = message.to_json();
    assert(json.text_at("body"@) == Some(message.body));
    assert(json.optional_u32_at("delay"@) == Some(message.delay));
    assert(json.optional_text_at("id"@) == Some(message.id));
    assert(json.optional_u32_at("reserved_count"@) == Some(message.reserved_count));
    assert(json.optional_text_at("reservation_id"@) == Some(message.reservation_id));
}

/// A push keeps the order. The request lists one JSON object for each
/// message, in the order given. A reply that is accepted holds one
/// identifier for each message, and the identifiers come out in the order
/// in which the reply lists them.
pub proof fn push_keeps_order(queue: Queue, messages: Seq<MessageView>, reply: Json)
    ensures
        queue.push_call(messages).body == crate::json::rendered(
            Json::envelope("messages"@, MessageView::list_to_json(messages)),
        ),
        ({
            &&& MessageView::list_to_json(messages) matches Json::Array(items)
            &&& items.len() == messages.len()
            &&& forall|i: int|
                0 <= i < messages.len() ==> #[trigger] items[i] == messages[i].to_json()
        }),
        ids_in(reply, messages.len()) matches Ok(ids) ==> {
            &&& ids.len() == messages.len()
            &&& reply.member("ids"@) matches Json::Array(listed)
            &&& listed.len() == messages.len()
            &&& forall|i: int|
                0 <= i < messages.len() ==> #[trigger] listed[i] == Json::Text(ids[i])
        },
{
}

/// A lookup gives back what was pushed. A reply that is accepted holds a
/// message with the identifier that was asked for. Where the service
/// answers with the object of a message that was pushed, under the
/// identifier that it gave to the message, the reply is accepted and reads
/// as that message: its body is the one that was sent.
pub proof fn lookup_returns_what_was_pushed(message: MessageView, id: Seq<char>, reply: Json)
    ensures
        message_in(reply, id) matches Ok(found) ==> found.id == Some(id),
        message_in(
            Json::envelope("message"@, (MessageView { id: Some(id), ..message }).to_json()),
            id,
        ) == Ok::<MessageView, Failure>(MessageView { id: Some(id), ..message }),
{
    let stored = MessageView { id: Some(id), ..message };
    message_round_trip(stored);
    let answer = Json::envelope("message"@, stored.to_json());
    assert(answer.member("message"@) == stored.to_json());
}

/// A reply carries the words of the service. Where the `msg` member of a
/// reply is a string, its status text is exactly that text, and so is the
/// text of the protocol error of every operation that does not find what
/// it asked for: so for a push answered without `ids`, and for a touch
/// answered without a token.
pub proof fn refusal_carries_the_words_of_the_service(
    reply: Json,
    words: Seq<char>,
    sent: nat,
    id: Seq<char>,
    held: Seq<char>,
    count: u8,
    delete: bool,
)
    requires
        reply.member("msg"@) == Json::Text(words),
    ensures
        status_in(reply) == words,
        refusal(reply) == Failure::Protocol(words),
        ids_in(reply, sent) is Err ==> ids_in(reply, sent) == Err::<Seq<Seq<char>>, Failure>(
            Failure::Protocol(words),
        ),
        !reply.has_member("ids"@) ==> ids_in(reply, sent) is Err,
        token_in(reply, held) is Err ==> token_in(reply, held) == Err::<Seq<char>, Failure>(
            Failure::Protocol(words),
        ),
        token_in(reply, held) is Ok <==> reply.member("reservation_id"@) is Text
            && reply.member("reservation_id"@)->Text_0 != held,
        message_in(reply, id) matches Err(failure) ==> failure == Failure::Protocol(words),
        messages_in(reply, count) matches Err(failure) ==> failure == Failure::Protocol(words),
        reservation_in(reply, count, delete) matches Err(failure) ==> failure == Failure::Protocol(
            words,
        ),
        queue_in(reply) matches Err(failure) ==> failure == Failure::Protocol(words),
{
}

/// A reservation that is accepted holds reserved messages only: each
/// carries its identifier and the token of its reservation.
pub proof fn reserved_messages_carry_both_identifiers(reply: Json, count: u8)
    ensures
        reservation_in(reply, count, false) matches Ok(messages) ==> {
            &&& messages.len() <= count
            &&& all_reserved(messages)
        },
{
}

/// A touch that is accepted hands out a new token: it differs from the one
/// under which the reservation was held, and it is the one that the reply
/// names.
pub proof fn touch_hands_out_a_new_token(reply: Json, held: Seq<char>)
    ensures
        token_in(reply, held) matches Ok(token) ==> {
            &&& token != held
            &&& reply.member("reservation_id"@) == Json::Text(token)
        },
{
}

/// Without the token of a reservation there is no call. A message that
/// lacks `reservation_id`, as every message does that was made here and
/// never reserved, gives no request to delete, release or touch it, alone
/// or among others: the failure is found before anything is sent.
pub proof fn unreserved_message_gives_no_request(
    queue: Queue,
    message: MessageView,
    seconds: u32,
    others: Seq<MessageView>,
    at: int,
)
    requires
        message.reservation_id is None,
        0 <= at < others.len(),
        others[at] == message,
    ensures
        ({
            &&& queue.delete_call(message) matches Err(failure)
            &&& failure.is_local()
        }),
        ({
            &&& queue.release_call(message, seconds) matches Err(failure)
            &&& failure.is_local()
        }),
        ({
            &&& queue.touch_call(message, seconds) matches Err(failure)
            &&& failure.is_local()
        }),
        ({
            &&& queue.delete_all_call(others) matches Err(failure)
            &&& failure.is_local()
        }),
{
    lemma_incomplete_batch_fails(others, at);
}

/// A batch with a message that lacks an identifier has no identifiers, and
/// the failure names an identifier that is missing.
pub proof fn lemma_incomplete_batch_fails(messages: Seq<MessageView>, at: int)
    requires
        0 <= at < messages.len(),
        MessageIdsView::of(messages[at]) is Err,
    ensures
        ({
            &&& MessageIdsView::of_all(messages) matches Err(failure)
            &&& failure.is_local()
        }),
    decreases messages.len(),
{
    if at < messages.len() - 1 {
        lemma_incomplete_batch_fails(messages.drop_last(), at);
    } else {
        lemma_batch_failure_is_local(messages.drop_last());
    }
}

/// Where a batch has no identifiers, the failure names an identifier that
/// is missing.
pub proof fn lemma_batch_failure_is_local(messages: Seq<MessageView>)
    ensures
        MessageIdsView::of_all(messages) matches Err(failure) ==> failure.is_local(),
    decreases messages.len(),
{
    if messages.len() > 0 {
        lemma_batch_failure_is_local(messages.drop_last());
    }
}

/// A peek only asks: its request is a `Get`, the method that leaves the
/// service as it is, and it has no body.
pub proof fn peek_only_reads(queue: Queue, count: u8)
    ensures
        queue.peek_call(count).method.is_read_only(),
        queue.peek_call(count).body.len() == 0,
{
}

/// The words of the three kinds differ, so each word reads as its kind.
pub proof fn words_round_trip(queue_type: QueueType, direction: Direction, alert_type: AlertType)
    ensures
        QueueType::from_word(queue_type.word()) == Some(queue_type),
        Direction::from_word(direction.word()) == Some(direction),
        AlertType::from_word(alert_type.word()) == Some(alert_type),
{
    reveal_strlit("pull");
    reveal_strlit("unicast");
    reveal_strlit("multicast");
    reveal_strlit("asc");
    reveal_strlit("desc");
    reveal_strlit("fixed");
    reveal_strlit("progressive");
    assert("pull"@.len() == 4);
    assert("unicast"@.len() == 7);
    assert("multicast"@.len() == 9);
    assert("asc"@.len() == 3);
    assert("desc"@.len() == 4);
    assert("fixed"@.len() == 5);
    assert("progressive"@.len() == 11);
}

/// Headers survive the wire: reading the JSON object of the headers gives
/// them back.
pub proof fn headers_round_trip(headers: Map<Seq<char>, Seq<char>>)
    ensures
        Json::from_texts(headers).texts_by_key() == Some(headers),
{
    let fields = headers.map_values(|text: Seq<char>| Json::Text(text));
    assert(fields.map_values(|member: Json| member->Text_0) =~= headers);
}

/// A subscriber survives the wire.
pub proof fn subscriber_round_trip(subscriber: SubscriberView)
    ensures
        SubscriberView::from_json(subscriber.to_json()) == Some(subscriber),
{
    reveal_strlit("name");
    reveal_strlit("url");
    reveal_strlit("headers");
    assert("name"@.len() == 4);
    assert("url"@.len() == 3);
    assert("headers"@.len() == 7);
    if subscriber.headers is Some {
        headers_round_trip(subscriber.headers->0);
    }
    let json = subscriber.to_json();
    assert(json.text_at("name"@) == Some(subscriber.name));
    assert(json.text_at("url"@) == Some(subscriber.url));
}

/// A list of subscribers survives the wire, in its order.
pub proof fn subscribers_round_trip(subscribers: Seq<SubscriberView>)
    ensures
        SubscriberView::list_from_json(SubscriberView::list_to_json(subscribers)) == Some(
            subscribers,
        ),
{
    let items = subscribers.map_values(|subscriber: SubscriberView| subscriber.to_json());
    assert forall|i: int| 0 <= i < items.len() implies (#[trigger] SubscriberView::from_json(
        items[i],
    )) == Some(subscribers[i]) by {
        subscriber_round_trip(subscribers[i]);
    }
    assert(Seq::new(items.len(), |i: int| SubscriberView::from_json(items[i])->0) =~= subscribers);
}

/// The delivery settings of a push queue survive the wire.
pub proof fn push_round_trip(push: PushView)
    ensures
        PushView::from_json(push.to_json()) == Some(push),
{
    reveal_strlit("retries_delay");
    reveal_strlit("retries");
    reveal_strlit("subscribers");
    reveal_strlit("error_queue");
    assert("retries_delay"@.len() == 13);
    assert("retries"@.len() == 7);
    assert("subscribers"@.len() == 11);
    assert("error_queue"@.len() == 11);
    assert("subscribers"@[0] == 's');
    assert("error_queue"@[0] == 'e');
    subscribers_round_trip(push.subscribers);
    let json = push.to_json();
    assert(json.u32_at("retries_delay"@) == Some(push.retries_delay));
    assert(json.u32_at("retries"@) == Some(push.retries));
    assert(json.member("subscribers"@) == SubscriberView::list_to_json(push.subscribers));
    assert(json.text_at("error_queue"@) == Some(push.error_queue));
}

/// An alert survives the wire.
pub proof fn alert_round_trip(alert: AlertView)
    ensures
        AlertView::from_json(alert.to_json()) == Some(alert),
{
    reveal_strlit("type");
    reveal_strlit("trigger");
    reveal_strlit("queue");
    reveal_strlit("snooze");
    reveal_strlit("direction");
    assert("type"@.len() == 4);
    assert("trigger"@.len() == 7);
    assert("queue"@.len() == 5);
    assert("snooze"@.len() == 6);
    assert("direction"@.len() == 9);
    words_round_trip(QueueType::Pull, Direction::Asc, alert.alert_type);
    if alert.direction is Some {
        words_round_trip(QueueType::Pull, alert.direction->0, alert.alert_type);
    }
    let json = alert.to_json();
    assert(json.member("type"@) == Json::Text(alert.alert_type.word()));
    assert(json.u32_at("trigger"@) == Some(alert.trigger));
    assert(json.text_at("queue"@) == Some(alert.queue));
    assert(json.optional_u32_at("snooze"@) == Some(alert.snooze));
}

/// A list of alerts survives the wire, in its order.
pub proof fn alerts_round_trip(alerts: Seq<AlertView>)
    ensures
        AlertView::list_from_json(AlertView::list_to_json(alerts)) == Some(alerts),
{
    let items = alerts.map_values(|alert: AlertView| alert.to_json());
    assert forall|i: int| 0 <= i < items.len() implies (#[trigger] AlertView::from_json(items[i]))
        == Some(alerts[i]) by {
        alert_round_trip(alerts[i]);
    }
    assert(Seq::new(items.len(), |i: int| AlertView::from_json(items[i])->0) =~= alerts);
}

/// The names of a queue's settings differ from one another.
pub proof fn settings_keys_differ()
    ensures
        "name"@ != "project_id"@,
        "name"@ != "message_timeout"@,
        "name"@ != "message_expiration"@,
        "name"@ != "size"@,
        "name"@ != "total_messages"@,
        "name"@ != "push"@,
        "name"@ != "alerts"@,
        "name"@ != "type"@,
        "project_id"@ != "message_timeout"@,
        "project_id"@ != "message_expiration"@,
        "project_id"@ != "size"@,
        "project_id"@ != "total_messages"@,
        "project_id"@ != "push"@,
        "project_id"@ != "alerts"@,
        "project_id"@ != "type"@,
        "message_timeout"@ != "message_expiration"@,
        "message_timeout"@ != "size"@,
        "message_timeout"@ != "total_messages"@,
        "message_timeout"@ != "push"@,
        "message_timeout"@ != "alerts"@,
        "message_timeout"@ != "type"@,
        "message_expiration"@ != "size"@,
        "message_expiration"@ != "total_messages"@,
        "message_expiration"@ != "push"@,
        "message_expiration"@ != "alerts"@,
        "message_expiration"@ != "type"@,
        "size"@ != "total_messages"@,
        "size"@ != "push"@,
        "size"@ != "alerts"@,
        "size"@ != "type"@,
        "total_messages"@ != "push"@,
        "total_messages"@ != "alerts"@,
        "total_messages"@ != "type"@,
        "push"@ != "alerts"@,
        "push"@ != "type"@,
        "alerts"@ != "type"@,
{
    reveal_strlit("name");
    reveal_strlit("project_id");
    reveal_strlit("message_timeout");
    reveal_strlit("message_expiration");
    reveal_strlit("size");
    reveal_strlit("total_messages");
    reveal_strlit("push");
    reveal_strlit("alerts");
    reveal_strlit("type");
    assert("name"@.len() == 4 && "name"@[0] == 'n');
    assert("project_id"@.len() == 10);
    assert("message_timeout"@.len() == 15);
    assert("message_expiration"@.len() == 18);
    assert("size"@.len() == 4 && "size"@[0] == 's');
    assert("total_messages"@.len() == 14);
    assert("push"@.len() == 4 && "push"@[0] == 'p');
    assert("alerts"@.len() == 6);
    assert("type"@.len() == 4 && "type"@[0] == 't');
}

/// The settings of a queue survive the wire: reading the JSON object of
/// the settings gives them back, with the delivery settings, the
/// subscribers and the alerts.
pub proof fn settings_round_trip(settings: QueueInfoView)
    ensures
        QueueInfoView::from_json(settings.to_json()) == Some(settings),
{
    settings_keys_differ();
    if settings.push is Some {
        push_round_trip(settings.push->0);
    }
    if settings.alerts is Some {
        alerts_round_trip(settings.alerts->0);
    }
    if settings.queue_type is Some {
        words_round_trip(settings.queue_type->0, Direction::Asc, AlertType::Fixed);
    }
    let json = settings.to_json();
    assert(json.text_at("name"@) == Some(settings.name));
    assert(json.optional_text_at("project_id"@) == Some(settings.project_id));
    assert(json.optional_u32_at("message_timeout"@) == Some(settings.message_timeout));
    assert(json.optional_u32_at("message_expiration"@) == Some(settings.message_expiration));
    assert(json.optional_usize_at("size"@) == Some(settings.size));
    assert(json.optional_usize_at("total_messages"@) == Some(settings.total_messages));
    assert(json.member("push"@) == match settings.push {
        Some(push) => push.to_json(),
        None => Json::Null,
    });
    assert(json.member("alerts"@) == match settings.alerts {
        Some(alerts) => AlertView::list_to_json(alerts),
        None => Json::Null,
    });
    assert(json.member("type"@) == match settings.queue_type {
        Some(kind) => Json::Text(kind.word()),
        None => Json::Null,
    });
}

} // verus!
