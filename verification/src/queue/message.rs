//! Messages and what travels with them: the wire form of a queue item, the
//! parameters of a reservation, and the pair of identifiers that names a
//! reserved message.

use vstd::prelude::*;
use vstd::string::StringExecFns;
use crate::error::{Failure, QueueError};
use crate::json::{Json, json_of, jsons_of};
use crate::json::{as_items, empty_object, from_bool, from_items, read_optional_text, read_optional_u32, read_text, put_optional_text, put_optional_u32, put_text, put_u32, set_member};

verus! {

/// A queue item. A message made here holds a body and perhaps a delay; the
/// other members are set by the service and arrive with its replies.
#[derive(Debug, Clone, PartialEq, Eq)]
pub struct Message {
    pub body: String,
    /// Seconds until the message becomes visible after it was pushed.
    pub delay: Option<u32>,
    /// The service's identifier of the message.
    pub id: Option<String>,
    /// How often the message has been reserved.
    pub reserved_count: Option<u32>,
    /// The token of the reservation that currently holds the message.
    pub reservation_id: Option<String>,
}

/// The mathematical content of a `Message`.
pub struct MessageView {
    pub body: Seq<char>,
    pub delay: Option<u32>,
    pub id: Option<Seq<char>>,
    pub reserved_count: Option<u32>,
    pub reservation_id: Option<Seq<char>>,
}

impl View for Message {
    type V = MessageView;

    open spec fn view(&self) -> MessageView {
        MessageView {
            body: self.body@,
            delay: self.delay,
            id: self.id.deep_view(),
            reserved_count: self.reserved_count,
            reservation_id: self.reservation_id.deep_view(),
        }
    }
}

/// The contents of a sequence of messages.
pub open spec fn message_views(messages: Seq<Message>) -> Seq<MessageView> {
    messages.map_values(|message: Message| message@)
}

/// A number as a JSON member, if there is one.
pub open spec fn natural_member(n: Option<u32>) -> Option<Json> {
    match n {
        Some(inner) => Some(Json::Natural(inner as nat)),
        None => None,
    }
}

/// A text as a JSON member, if there is one.
pub open spec fn text_member(text: Option<Seq<char>>) -> Option<Json> {
    match text {
        Some(inner) => Some(Json::Text(inner)),
        None => None,
    }
}

impl MessageView {
    /// The message that holds a body and nothing else.
    pub open spec fn plain(body: Seq<char>) -> MessageView {
        MessageView { body, delay: None, id: None, reserved_count: None, reservation_id: None }
    }

    /// Not yet pushed: the message holds nothing that only the service sets.
    pub open spec fn is_unpushed(self) -> bool {
        self.id is None && self.reserved_count is None && self.reservation_id is None
    }

    /// Known to the service: the message carries its identifier.
    pub open spec fn is_fetched(self) -> bool {
        self.id is Some
    }

    /// Reserved: the message carries its identifier and the token of its
    /// reservation.
    pub open spec fn is_reserved(self) -> bool {
        self.id is Some && self.reservation_id is Some
    }

    /// The JSON object of the message: `body`, and each other member that
    /// is present.
    pub open spec fn to_json(self) -> Json {
        Json::empty_object().with("body"@, Json::Text(self.body)).with_optional(
            "delay"@,
            natural_member(self.delay),
        ).with_optional("id"@, text_member(self.id)).with_optional(
            "reserved_count"@,
            natural_member(self.reserved_count),
        ).with_optional("reservation_id"@, text_member(self.reservation_id))
    }

    /// The message that a JSON object describes. `body` must be a string;
    /// each other member is either missing, null, or of its kind (a string
    /// for the identifiers, an unsigned 32-bit number for the counts).
    /// Members of other names are passed over.
    pub open spec fn from_json(json: Json) -> Option<MessageView> {
        match (
            json.text_at("body"@),
            json.optional_u32_at("delay"@),
            json.optional_text_at("id"@),
            json.optional_u32_at("reserved_count"@),
            json.optional_text_at("reservation_id"@),
        ) {
            (Some(body), Some(delay), Some(id), Some(reserved_count), Some(reservation_id)) => Some(
                MessageView { body, delay, id, reserved_count, reservation_id },
            ),
            _ => None,
        }
    }

    /// The messages that a JSON array describes, if each item describes one.
    pub open spec fn list_from_json(json: Json) -> Option<Seq<MessageView>> {
        match json {
            Json::Array(items) => if forall|i: int|
                0 <= i < items.len() ==> (#[trigger] MessageView::from_json(items[i])) is Some {
                Some(Seq::new(items.len(), |i: int| MessageView::from_json(items[i])->0))
            } else {
                None
            },
            _ => None,
        }
    }

    /// The JSON array of the messages' objects, in their order.
    pub open spec fn list_to_json(messages: Seq<MessageView>) -> Json {
        Json::Array(messages.map_values(|message: MessageView| message.to_json()))
    }
}

impl Message {
    /// A message with a body that becomes visible `delay` seconds after it
    /// was pushed.
    pub fn new(body: &str, delay: u32) -> (message: Message)
        ensures
            message@.body == body@,
            message@.delay == Some(delay),
            message@.is_unpushed(),
    {
        Message {
            body: String::from_str(body),
            delay: Some(delay),
            id: None,
            reserved_count: None,
            reservation_id: None,
        }
    }

    /// A message with a body that is visible as soon as it is pushed.
    pub fn with_body(body: &str) -> (message: Message)
        ensures
            message@.body == body@,
            message@.delay is None,
            message@.is_unpushed(),
    {
        Message {
            body: String::from_str(body),
            delay: None,
            id: None,
            reserved_count: None,
            reservation_id: None,
        }
    }

    /// Builds the JSON object of the message.
    pub fn to_json(&self) -> (value: serde_json::Value)
        ensures
            json_of(value) == self@.to_json(),
    {
        let mut value = empty_object();
        put_text(&mut value, "body", &self.body);
        put_optional_u32(&mut value, "delay", self.delay);
        put_optional_text(&mut value, "id", &self.id);
        put_optional_u32(&mut value, "reserved_count", self.reserved_count);
        put_optional_text(&mut value, "reservation_id", &self.reservation_id);
        value
    }

    /// Reads a message from a JSON value.
    pub fn from_json(value: &serde_json::Value) -> (found: Option<Message>)
        ensures
            found matches Some(message) ==> MessageView::from_json(json_of(*value)) == Some(
                message@,
            ),
            found is None ==> MessageView::from_json(json_of(*value)) is None,
    {
        let body = match read_text(value, "body") {
            Some(body) => body,
            None => return None,
        };
        let delay = match read_optional_u32(value, "delay") {
            Some(delay) => delay,
            None => return None,
        };
        let id = match read_optional_text(value, "id") {
            Some(id) => id,
            None => return None,
        };
        let reserved_count = match read_optional_u32(value, "reserved_count") {
            Some(reserved_count) => reserved_count,
            None => return None,
        };
        let reservation_id = match read_optional_text(value, "reservation_id") {
            Some(reservation_id) => reservation_id,
            None => return None,
        };
        Some(Message { body, delay, id, reserved_count, reservation_id })
    }

    /// Builds the JSON array of the messages' objects.
    pub fn list_to_json(messages: &Vec<Message>) -> (value: serde_json::Value)
        ensures
            json_of(value) == MessageView::list_to_json(message_views(messages@)),
    {
        let mut items: Vec<serde_json::Value> = Vec::new();
        let mut i: usize = 0;
        while i < messages.len()
            invariant
                i <= messages.len(),
                items.len() == i,
                forall|k: int| 0 <= k < i ==> json_of(#[trigger] items[k]) == messages[k]@.to_json(),
            decreases messages.len() - i,
        {
            items.push(messages[i].to_json());
            i = i + 1;
        }
        let value = from_items(items);
        assert(jsons_of(items@) =~= message_views(messages@).map_values(
            |message: MessageView| message.to_json(),
        ));
        value
    }

    /// Reads the messages of a JSON array.
    pub fn list_from_json(value: &serde_json::Value) -> (found: Option<Vec<Message>>)
        ensures
            found matches Some(messages) ==> MessageView::list_from_json(json_of(*value)) == Some(
                message_views(messages@),
            ),
            found is None ==> MessageView::list_from_json(json_of(*value)) is None,
    {
        let items = match as_items(value) {
            Some(items) => items,
            None => return None,
        };
        let mut messages: Vec<Message> = Vec::new();
        let mut i: usize = 0;
        while i < items.len()
            invariant
                i <= items.len(),
                messages.len() == i,
                json_of(*value) == Json::Array(jsons_of(items@)),
                forall|k: int|
                    0 <= k < i ==> MessageView::from_json(json_of(#[trigger] items[k])) == Some(
                        messages[k]@,
                    ),
            decreases items.len() - i,
        {
            match Message::from_json(&items[i]) {
                Some(message) => {
                    messages.push(message);
                },
                None => {
                    assert(MessageView::from_json(jsons_of(items@)[i as int]) is None);
                    return None;
                },
            }
            i = i + 1;
        }
        proof {
            let jsons = jsons_of(items@);
            assert forall|k: int| 0 <= k < jsons.len() implies (#[trigger] MessageView::from_json(
                jsons[k],
            )) is Some by {
                assert(MessageView::from_json(json_of(items[k])) is Some);
            }
            assert(message_views(messages@) =~= Seq::new(
                jsons.len(),
                |k: int| MessageView::from_json(jsons[k])->0,
            ));
        }
        Some(messages)
    }
}

/// The parameters of a reservation. They are sent, never received.
#[derive(Debug, Clone, Copy, PartialEq, Eq)]
pub struct ReservationConfig {
    n: u8,
    timeout: u32,
    wait: u32,
    delete: bool,
}

/// The mathematical content of a `ReservationConfig`.
pub struct ReservationView {
    /// How many messages to reserve at most.
    pub n: u8,
    /// Seconds for which the service holds each message for the caller.
    pub timeout: u32,
    /// Seconds for which the service may wait for messages to arrive.
    pub wait: u32,
    /// Whether the service deletes the messages that it hands out.
    pub delete: bool,
}

impl View for ReservationConfig {
    type V = ReservationView;

    closed spec fn view(&self) -> ReservationView {
        ReservationView { n: self.n, timeout: self.timeout, wait: self.wait, delete: self.delete }
    }
}

impl ReservationView {
    /// The JSON object of the parameters.
    pub open spec fn to_json(self) -> Json {
        Json::empty_object().with("n"@, Json::Natural(self.n as nat)).with(
            "timeout"@,
            Json::Natural(self.timeout as nat),
        ).with("wait"@, Json::Natural(self.wait as nat)).with("delete"@, Json::Bool(self.delete))
    }
}

impl ReservationConfig {
    pub fn new(n: u8, timeout: u32, wait: u32, delete: bool) -> (config: ReservationConfig)
        ensures
            config@ == (ReservationView { n, timeout, wait, delete }),
    {
        ReservationConfig { n, timeout, wait, delete }
    }

    /// How many messages the reservation asks for at most.
    pub fn count(&self) -> (n: u8)
        ensures
            n == self@.n,
    {
        self.n
    }

    /// Whether the service deletes the messages that it hands out.
    pub fn deletes(&self) -> (delete: bool)
        ensures
            delete == self@.delete,
    {
        self.delete
    }

    /// Builds the JSON object of the parameters.
    pub fn to_json(&self) -> (value: serde_json::Value)
        ensures
            json_of(value) == self@.to_json(),
    {
        let mut value = empty_object();
        put_u32(&mut value, "n", self.n as u32);
        put_u32(&mut value, "timeout", self.timeout);
        put_u32(&mut value, "wait", self.wait);
        set_member(&mut value, "delete", from_bool(self.delete));
        value
    }
}

/// The two identifiers that name a reserved message.
#[derive(Debug, Clone, PartialEq, Eq)]
pub struct MessageIds {
    pub id: String,
    pub reservation_id: String,
}

/// The mathematical content of a `MessageIds`.
pub struct MessageIdsView {
    pub id: Seq<char>,
    pub reservation_id: Seq<char>,
}

impl View for MessageIds {
    type V = MessageIdsView;

    open spec fn view(&self) -> MessageIdsView {
        MessageIdsView { id: self.id@, reservation_id: self.reservation_id@ }
    }
}

impl MessageIdsView {
    /// The JSON object of the pair.
    pub open spec fn to_json(self) -> Json {
        Json::empty_object().with("id"@, Json::Text(self.id)).with(
            "reservation_id"@,
            Json::Text(self.reservation_id),
        )
    }

    /// The identifiers of a message, or what is missing: the `id` is looked
    /// for first.
    pub open spec fn of(message: MessageView) -> Result<MessageIdsView, Failure> {
        match (message.id, message.reservation_id) {
            (None, _) => Err(Failure::MissingMessageId),
            (Some(_), None) => Err(Failure::MissingReservationId),
            (Some(id), Some(reservation_id)) => Ok(MessageIdsView { id, reservation_id }),
        }
    }

    /// The identifiers of the messages, or what is missing in the first
    /// message that lacks one.
    pub open spec fn of_all(messages: Seq<MessageView>) -> Result<Seq<MessageIdsView>, Failure>
        decreases messages.len(),
    {
        if messages.len() == 0 {
            Ok(Seq::empty())
        } else {
            match MessageIdsView::of_all(messages.drop_last()) {
                Err(failure) => Err(failure),
                Ok(front) => match MessageIdsView::of(messages.last()) {
                    Err(failure) => Err(failure),
                    Ok(ids) => Ok(front.push(ids)),
                },
            }
        }
    }

    /// The JSON array of the pairs' objects, in their order.
    pub open spec fn list_to_json(pairs: Seq<MessageIdsView>) -> Json {
        Json::Array(pairs.map_values(|ids: MessageIdsView| ids.to_json()))
    }
}

/// The contents of a sequence of identifier pairs.
pub open spec fn ids_views(pairs: Seq<MessageIds>) -> Seq<MessageIdsView> {
    pairs.map_values(|ids: MessageIds| ids@)
}

impl MessageIds {
    pub fn new(id: String, reservation_id: String) -> (ids: MessageIds)
        ensures
            ids@ == (MessageIdsView { id: id@, reservation_id: reservation_id@ }),
    {
        MessageIds { id, reservation_id }
    }

    /// The identifiers of a message. A message without `id` or without
    /// `reservation_id` has none: the error names the one that is missing,
    /// the `id` first.
    pub fn of(message: &Message) -> (outcome: Result<MessageIds, QueueError>)
        ensures
            match MessageIdsView::of(message@) {
                Ok(ids) => outcome matches Ok(found) && found@ == ids,
                Err(failure) => outcome matches Err(error) && error@ == failure,
            },
    {
        let id = match &message.id {
            Some(id) => id.clone(),
            None => return Err(QueueError::MissingMessageId),
        };
        let reservation_id = match &message.reservation_id {
            Some(reservation_id) => reservation_id.clone(),
            None => return Err(QueueError::MissingReservationId),
        };
        Ok(MessageIds { id, reservation_id })
    }

    /// The identifiers of each message, or the error of the first message
    /// that lacks one.
    pub fn of_all(messages: &Vec<Message>) -> (outcome: Result<Vec<MessageIds>, QueueError>)
        ensures
            match MessageIdsView::of_all(message_views(messages@)) {
                Ok(pairs) => outcome matches Ok(found) && ids_views(found@) == pairs,
                Err(failure) => outcome matches Err(error) && error@ == failure,
            },
    {
        let mut found: Vec<MessageIds> = Vec::new();
        let mut i: usize = 0;
        proof {
            assert(message_views(messages@).take(0).len() == 0);
            assert(ids_views(found@) =~= Seq::empty());
        }
        while i < messages.len()
            invariant
                i <= messages.len(),
                MessageIdsView::of_all(message_views(messages@).take(i as int)) == Ok::<
                    Seq<MessageIdsView>,
                    Failure,
                >(ids_views(found@)),
            decreases messages.len() - i,
        {
            let ghost views = message_views(messages@);
            proof {
                assert(views.take(i + 1).drop_last() =~= views.take(i as int));
                assert(views.take(i + 1).last() == messages[i as int]@);
            }
            match MessageIds::of(&messages[i]) {
                Ok(ids) => {
                    let ghost before = found@;
                    let ghost pair = ids@;
                    found.push(ids);
                    proof {
                        assert(ids_views(found@) =~= ids_views(before).push(pair));
                    }
                },
                Err(error) => {
                    proof {
                        lemma_of_all_prefix_fails(views, i + 1);
                    }
                    return Err(error);
                },
            }
            i = i + 1;
        }
        proof {
            assert(message_views(messages@).take(i as int) =~= message_views(messages@));
        }
        Ok(found)
    }

    /// Builds the JSON object of the pair.
    pub fn to_json(&self) -> (value: serde_json::Value)
        ensures
            json_of(value) == self@.to_json(),
    {
        let mut value = empty_object();
        put_text(&mut value, "id", &self.id);
        put_text(&mut value, "reservation_id", &self.reservation_id);
        value
    }

    /// Builds the JSON array of the pairs' objects.
    pub fn list_to_json(pairs: &Vec<MessageIds>) -> (value: serde_json::Value)
        ensures
            json_of(value) == MessageIdsView::list_to_json(ids_views(pairs@)),
    {
        let mut items: Vec<serde_json::Value> = Vec::new();
        let mut i: usize = 0;
        while i < pairs.len()
            invariant
                i <= pairs.len(),
                items.len() == i,
                forall|k: int| 0 <= k < i ==> json_of(#[trigger] items[k]) == pairs[k]@.to_json(),
            decreases pairs.len() - i,
        {
            items.push(pairs[i].to_json());
            i = i + 1;
        }
        let value = from_items(items);
        assert(jsons_of(items@) =~= ids_views(pairs@).map_values(
            |ids: MessageIdsView| ids.to_json(),
        ));
        value
    }
}

/// Once a prefix of the messages lacks an identifier, so does the whole, and
/// with the same failure.
pub proof fn lemma_of_all_prefix_fails(messages: Seq<MessageView>, n: int)
    requires
        0 <= n <= messages.len(),
        MessageIdsView::of_all(messages.take(n)) is Err,
    ensures
        MessageIdsView::of_all(messages) == MessageIdsView::of_all(messages.take(n)),
    decreases messages.len(),
{
    if n < messages.len() {
        assert(messages.drop_last().take(n) =~= messages.take(n));
        lemma_of_all_prefix_fails(messages.drop_last(), n);
    } else {
        assert(messages.take(n) =~= messages);
    }
}

} // verus!
