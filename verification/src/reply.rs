//! What the service's replies mean.
//!
//! A reply is a JSON object. An operation looks for the member that it
//! asked for; where that member is missing or not of the expected shape, the
//! reply is a refusal, and the text of its `msg` member, word for word, is
//! the error.

use vstd::prelude::*;
use crate::error::{Failure, QueueError};
use crate::json::{Json, json_of, parsed, rendered};
use crate::json::{member_or, member_text, null, parse, read_text, read_texts};
use crate::queue::message::{Message, MessageView, message_views};
use crate::queue::queue_info::{PushStatus, PushStatusView, QueueInfo, QueueInfoView, info_views, status_views};

verus! {

/// The status text of a reply: the text of its `msg` member, as the service
/// wrote it. Where `msg` is missing or no string, the text is what JSON
/// prints for it.
pub open spec fn status_in(reply: Json) -> Seq<char> {
    match reply.member("msg"@) {
        Json::Text(words) => words,
        other => rendered(other),
    }
}

/// The failure that a reply stands for when it lacks what was asked for:
/// a protocol error that carries the service's status text.
pub open spec fn refusal(reply: Json) -> Failure {
    Failure::Protocol(status_in(reply))
}

/// The identifiers that answer a push of `sent` messages: the texts of the
/// array `ids`, one for each message.
pub open spec fn ids_in(reply: Json, sent: nat) -> Result<Seq<Seq<char>>, Failure> {
    match reply.member("ids"@).texts() {
        Some(ids) => if ids.len() == sent {
            Ok(ids)
        } else {
            Err(refusal(reply))
        },
        None => Err(refusal(reply)),
    }
}

/// The message that answers the lookup of `id`: the member `message`,
/// which must carry that identifier.
pub open spec fn message_in(reply: Json, id: Seq<char>) -> Result<MessageView, Failure> {
    match MessageView::from_json(reply.member("message"@)) {
        Some(message) => if message.id == Some(id) {
            Ok(message)
        } else {
            Err(refusal(reply))
        },
        None => Err(refusal(reply)),
    }
}

/// Whether each of the messages carries its identifier.
pub open spec fn all_fetched(messages: Seq<MessageView>) -> bool {
    forall|i: int| 0 <= i < messages.len() ==> (#[trigger] messages[i]).is_fetched()
}

/// Whether each of the messages carries its identifier and the token of its
/// reservation.
pub open spec fn all_reserved(messages: Seq<MessageView>) -> bool {
    forall|i: int| 0 <= i < messages.len() ==> (#[trigger] messages[i]).is_reserved()
}

/// The messages that answer a peek at up to `count` messages: the array
/// `messages`, no longer than was asked for, each with its identifier.
pub open spec fn messages_in(reply: Json, count: u8) -> Result<Seq<MessageView>, Failure> {
    match MessageView::list_from_json(reply.member("messages"@)) {
        Some(messages) => if messages.len() <= count && all_fetched(messages) {
            Ok(messages)
        } else {
            Err(refusal(reply))
        },
        None => Err(refusal(reply)),
    }
}

/// What a reservation of up to `count` messages asks of the messages that
/// answer it: no more than it asked for, each with its identifier, and each
/// with the token of its reservation unless the service was told to delete
/// what it hands out.
pub open spec fn answers(count: u8, delete: bool, messages: Seq<MessageView>) -> bool {
    &&& messages.len() <= count
    &&& all_fetched(messages)
    &&& delete || all_reserved(messages)
}

/// The messages that answer a reservation: the array `messages`, as
/// `answers` asks. An empty array is an answer.
pub open spec fn reservation_in(reply: Json, count: u8, delete: bool) -> Result<
    Seq<MessageView>,
    Failure,
> {
    match MessageView::list_from_json(reply.member("messages"@)) {
        Some(messages) => if answers(count, delete, messages) {
            Ok(messages)
        } else {
            Err(refusal(reply))
        },
        None => Err(refusal(reply)),
    }
}

/// The token that answers the touch of a reservation held under `held`: the
/// text of the member `reservation_id`, which must be a new token.
pub open spec fn token_in(reply: Json, held: Seq<char>) -> Result<Seq<char>, Failure> {
    match reply.text_at("reservation_id"@) {
        Some(token) => if token != held {
            Ok(token)
        } else {
            Err(refusal(reply))
        },
        None => Err(refusal(reply)),
    }
}

/// The settings that answer a question about a queue: the member `queue`.
pub open spec fn queue_in(reply: Json) -> Result<QueueInfoView, Failure> {
    match QueueInfoView::from_json(reply.member("queue"@)) {
        Some(info) => Ok(info),
        None => Err(refusal(reply)),
    }
}

/// The settings that answer a listing of queues: the array `queues`.
pub open spec fn queues_in(reply: Json) -> Result<Seq<QueueInfoView>, Failure> {
    match QueueInfoView::list_from_json(reply.member("queues"@)) {
        Some(infos) => Ok(infos),
        None => Err(refusal(reply)),
    }
}

/// The delivery statuses of a pushed message: the array `subscribers`, one
/// item for each subscriber that the service has tried so far.
pub open spec fn statuses_in(reply: Json) -> Result<Seq<PushStatusView>, Failure> {
    match PushStatusView::list_from_json(reply.member("subscribers"@)) {
        Some(statuses) => Ok(statuses),
        None => Err(refusal(reply)),
    }
}

/// The last of the items, if there is one.
pub open spec fn last_of<T>(items: Seq<T>) -> Option<T> {
    if items.len() == 0 {
        None
    } else {
        Some(items.last())
    }
}

/// What the bytes of a reply mean to an operation that reads its replies
/// with `read`: bytes that are no JSON document are malformed.
pub open spec fn on_bytes<T>(bytes: Seq<u8>, read: spec_fn(Json) -> Result<T, Failure>) -> Result<
    T,
    Failure,
> {
    match parsed(bytes) {
        Some(reply) => read(reply),
        None => Err(Failure::Malformed),
    }
}

/// Reads a reply from the bytes that the service sent.
pub fn read_reply(bytes: &[u8]) -> (outcome: Result<serde_json::Value, QueueError>)
    ensures
        match parsed(bytes@) {
            Some(reply) => outcome matches Ok(value) && json_of(value) == reply,
            None => outcome matches Err(error) && error@ == Failure::Malformed,
        },
{
    match parse(bytes) {
        Ok(value) => Ok(value),
        Err(_) => Err(QueueError::Malformed),
    }
}

/// The status text of a reply.
pub fn read_status(reply: &serde_json::Value) -> (text: String)
    ensures
        text@ == status_in(json_of(*reply)),
{
    match read_text(reply, "msg") {
        Some(words) => words,
        None => member_text(reply, "msg"),
    }
}

/// The error that a reply stands for when it lacks what was asked for: it
/// carries the status text.
pub fn read_refusal(reply: &serde_json::Value) -> (error: QueueError)
    ensures
        error@ == refusal(json_of(*reply)),
{
    QueueError::Protocol(read_status(reply))
}

/// Reads the identifiers that answer a push of `sent` messages.
pub fn read_ids(reply: &serde_json::Value, sent: usize) -> (outcome: Result<Vec<String>, QueueError>)
    ensures
        match ids_in(json_of(*reply), sent as nat) {
            Ok(ids) => outcome matches Ok(found) && found.deep_view() == ids,
            Err(failure) => outcome matches Err(error) && error@ == failure,
        },
{
    let nothing = null();
    match read_texts(member_or(reply, "ids", &nothing)) {
        Some(ids) => {
            if ids.len() == sent {
                Ok(ids)
            } else {
                Err(read_refusal(reply))
            }
        },
        None => Err(read_refusal(reply)),
    }
}

/// Reads the message that answers the lookup of `id`.
pub fn read_message(reply: &serde_json::Value, id: &String) -> (outcome: Result<
    Message,
    QueueError,
>)
    ensures
        match message_in(json_of(*reply), id@) {
            Ok(message) => outcome matches Ok(found) && found@ == message,
            Err(failure) => outcome matches Err(error) && error@ == failure,
        },
{
    let nothing = null();
    match Message::from_json(member_or(reply, "message", &nothing)) {
        Some(message) => {
            let same = match &message.id {
                Some(found) => *found == *id,
                None => false,
            };
            if same {
                Ok(message)
            } else {
                Err(read_refusal(reply))
            }
        },
        None => Err(read_refusal(reply)),
    }
}

/// Whether each of the messages carries its identifier.
pub fn check_fetched(messages: &Vec<Message>) -> (fetched: bool)
    ensures
        fetched == all_fetched(message_views(messages@)),
{
    let mut i: usize = 0;
    while i < messages.len()
        invariant
            i <= messages.len(),
            forall|k: int| 0 <= k < i ==> (#[trigger] message_views(messages@)[k]).is_fetched(),
        decreases messages.len() - i,
    {
        if messages[i].id.is_none() {
            assert(!message_views(messages@)[i as int].is_fetched());
            return false;
        }
        i = i + 1;
    }
    true
}

/// Whether each of the messages carries its identifier and the token of its
/// reservation.
pub fn check_reserved(messages: &Vec<Message>) -> (reserved: bool)
    ensures
        reserved == all_reserved(message_views(messages@)),
{
    let mut i: usize = 0;
    while i < messages.len()
        invariant
            i <= messages.len(),
            forall|k: int| 0 <= k < i ==> (#[trigger] message_views(messages@)[k]).is_reserved(),
        decreases messages.len() - i,
    {
        if messages[i].id.is_none() || messages[i].reservation_id.is_none() {
            assert(!message_views(messages@)[i as int].is_reserved());
            return false;
        }
        i = i + 1;
    }
    true
}

/// Reads the messages that answer a peek at up to `count` messages.
pub fn read_messages(reply: &serde_json::Value, count: u8) -> (outcome: Result<
    Vec<Message>,
    QueueError,
>)
    ensures
        match messages_in(json_of(*reply), count) {
            Ok(messages) => outcome matches Ok(found) && message_views(found@) == messages,
            Err(failure) => outcome matches Err(error) && error@ == failure,
        },
{
    let nothing = null();
    match Message::list_from_json(member_or(reply, "messages", &nothing)) {
        Some(messages) => {
            if messages.len() <= count as usize && check_fetched(&messages) {
                Ok(messages)
            } else {
                Err(read_refusal(reply))
            }
        },
        None => Err(read_refusal(reply)),
    }
}

/// Reads the messages that answer a reservation of up to `count` messages.
pub fn read_reservation(reply: &serde_json::Value, count: u8, delete: bool) -> (outcome: Result<
    Vec<Message>,
    QueueError,
>)
    ensures
        match reservation_in(json_of(*reply), count, delete) {
            Ok(messages) => outcome matches Ok(found) && message_views(found@) == messages,
            Err(failure) => outcome matches Err(error) && error@ == failure,
        },
{
    let nothing = null();
    match Message::list_from_json(member_or(reply, "messages", &nothing)) {
        Some(messages) => {
            if messages.len() <= count as usize && check_fetched(&messages) && (delete
                || check_reserved(&messages)) {
                Ok(messages)
            } else {
                Err(read_refusal(reply))
            }
        },
        None => Err(read_refusal(reply)),
    }
}

/// Reads the token that answers the touch of a reservation held under
/// `held`.
pub fn read_token(reply: &serde_json::Value, held: &String) -> (outcome: Result<String, QueueError>)
    ensures
        match token_in(json_of(*reply), held@) {
            Ok(token) => outcome matches Ok(found) && found@ == token,
            Err(failure) => outcome matches Err(error) && error@ == failure,
        },
{
    match read_text(reply, "reservation_id") {
        Some(token) => {
            if token == *held {
                Err(read_refusal(reply))
            } else {
                Ok(token)
            }
        },
        None => Err(read_refusal(reply)),
    }
}

/// The content of a message, if there is one.
pub open spec fn view_of(message: Option<Message>) -> Option<MessageView> {
    match message {
        Some(inner) => Some(inner@),
        None => None,
    }
}

/// Reads the status text from the bytes of a reply.
pub fn read_status_reply(bytes: &[u8]) -> (outcome: Result<String, QueueError>)
    ensures
        match on_bytes(bytes@, |reply: Json| Ok(status_in(reply))) {
            Ok(status) => outcome matches Ok(found) && found@ == status,
            Err(failure) => outcome matches Err(error) && error@ == failure,
        },
{
    let reply = read_reply(bytes)?;
    Ok(read_status(&reply))
}

/// Reads the settings that answer a question about a queue.
pub fn read_queue(reply: &serde_json::Value) -> (outcome: Result<QueueInfo, QueueError>)
    ensures
        match queue_in(json_of(*reply)) {
            Ok(info) => outcome matches Ok(found) && found@ == info,
            Err(failure) => outcome matches Err(error) && error@ == failure,
        },
{
    let nothing = null();
    match QueueInfo::from_json(member_or(reply, "queue", &nothing)) {
        Some(info) => Ok(info),
        None => Err(read_refusal(reply)),
    }
}

/// Reads the settings that answer a listing of queues.
pub fn read_queues(reply: &serde_json::Value) -> (outcome: Result<Vec<QueueInfo>, QueueError>)
    ensures
        match queues_in(json_of(*reply)) {
            Ok(infos) => outcome matches Ok(found) && info_views(found@) == infos,
            Err(failure) => outcome matches Err(error) && error@ == failure,
        },
{
    let nothing = null();
    match QueueInfo::list_from_json(member_or(reply, "queues", &nothing)) {
        Some(infos) => Ok(infos),
        None => Err(read_refusal(reply)),
    }
}

/// Reads the delivery statuses of a pushed message.
pub fn read_statuses(reply: &serde_json::Value) -> (outcome: Result<Vec<PushStatus>, QueueError>)
    ensures
        match statuses_in(json_of(*reply)) {
            Ok(statuses) => outcome matches Ok(found) && status_views(found@) == statuses,
            Err(failure) => outcome matches Err(error) && error@ == failure,
        },
{
    let nothing = null();
    match PushStatus::list_from_json(member_or(reply, "subscribers", &nothing)) {
        Some(statuses) => Ok(statuses),
        None => Err(read_refusal(reply)),
    }
}

} // verus!
