//! The operations on one queue.
//!
//! Each operation comes in two halves. The first builds the `Request`; where
//! the operation needs identifiers that the message does not carry, it
//! builds none and says what is missing. The second reads the bytes of the
//! service's reply.

pub mod message;
pub mod queue_info;

use vstd::prelude::*;
use vstd::string::StringExecFns;
use crate::Client;
use crate::error::{Failure, QueueError};
use crate::json::{Json, rendered};
use crate::json::{empty_object, envelope, put_text, put_u32, render};
use crate::queue::message::{Message, MessageIds, MessageIdsView, MessageView, ReservationConfig, ReservationView, message_views};
use crate::queue::queue_info::{PushStatus, QueueInfo, QueueInfoView, QueueSubscriber, SubscriberView, status_views, subscriber_views};
use crate::reply::{all_fetched, all_reserved, answers, ids_in, last_of, message_in, messages_in, on_bytes, queue_in, reservation_in, status_in, statuses_in, token_in, view_of};
use crate::reply::{read_ids, read_message, read_messages, read_queue, read_reply, read_reservation, read_status_reply, read_statuses, read_token};
use crate::request::{Method, Request, RequestView};
use crate::text::{decimal, decimal_text};

verus! {

/// Seconds for which a reservation holds a message unless the caller says
/// otherwise.
pub const DEFAULT_TIMEOUT: u32 = 60;

/// The handle of one queue of a project.
#[derive(Debug, Clone, PartialEq, Eq)]
pub struct Queue<'a> {
    pub client: &'a Client,
    pub name: String,
}

/// The body of a release: the token of the reservation and the delay.
pub open spec fn release_body(reservation_id: Seq<char>, delay: u32) -> Json {
    Json::empty_object().with("reservation_id"@, Json::Text(reservation_id)).with(
        "delay"@,
        Json::Natural(delay as nat),
    )
}

/// The body of a touch: the token of the reservation and the new timeout.
pub open spec fn touch_body(reservation_id: Seq<char>, timeout: u32) -> Json {
    Json::empty_object().with("reservation_id"@, Json::Text(reservation_id)).with(
        "timeout"@,
        Json::Natural(timeout as nat),
    )
}

/// The body of the deletion of one message: the token of its reservation.
pub open spec fn delete_body(reservation_id: Seq<char>) -> Json {
    Json::empty_object().with("reservation_id"@, Json::Text(reservation_id))
}

impl<'a> Queue<'a> {
    /// The path of the queue.
    pub open spec fn path(&self) -> Seq<char> {
        self.client.base_path@ + "queues/"@ + self.name@
    }

    /// The path of the queue's messages.
    pub open spec fn messages_path(&self) -> Seq<char> {
        self.path() + "/messages"@
    }

    /// The path of the message with that identifier.
    pub open spec fn message_path(&self, id: Seq<char>) -> Seq<char> {
        self.path() + "/messages/"@ + id
    }

    /// The call that pushes the messages: their JSON objects, in the order
    /// given, as the array `messages`.
    pub open spec fn push_call(&self, messages: Seq<MessageView>) -> RequestView {
        RequestView {
            method: Method::Post,
            path: self.messages_path(),
            body: rendered(Json::envelope("messages"@, MessageView::list_to_json(messages))),
        }
    }

    /// The call that reserves messages.
    pub open spec fn reservation_call(&self, config: ReservationView) -> RequestView {
        RequestView {
            method: Method::Post,
            path: self.path() + "/reservations"@,
            body: rendered(config.to_json()),
        }
    }

    /// The call that looks up the message with that identifier.
    pub open spec fn get_call(&self, id: Seq<char>) -> RequestView {
        RequestView { method: Method::Get, path: self.message_path(id), body: Seq::empty() }
    }

    /// The call that shows up to `count` of the next visible messages.
    pub open spec fn peek_call(&self, count: u8) -> RequestView {
        RequestView {
            method: Method::Get,
            path: self.messages_path() + "?n="@ + decimal(count as nat),
            body: Seq::empty(),
        }
    }

    /// The call that releases a reserved message, or the identifier that
    /// the message lacks.
    pub open spec fn release_call(&self, message: MessageView, delay: u32) -> Result<
        RequestView,
        Failure,
    > {
        match MessageIdsView::of(message) {
            Ok(ids) => Ok(
                RequestView {
                    method: Method::Post,
                    path: self.message_path(ids.id) + "/release"@,
                    body: rendered(release_body(ids.reservation_id, delay)),
                },
            ),
            Err(failure) => Err(failure),
        }
    }

    /// The call that extends the reservation of a message, or the
    /// identifier that the message lacks.
    pub open spec fn touch_call(&self, message: MessageView, timeout: u32) -> Result<
        RequestView,
        Failure,
    > {
        match MessageIdsView::of(message) {
            Ok(ids) => Ok(
                RequestView {
                    method: Method::Post,
                    path: self.message_path(ids.id) + "/touch"@,
                    body: rendered(touch_body(ids.reservation_id, timeout)),
                },
            ),
            Err(failure) => Err(failure),
        }
    }

    /// The call that deletes a reserved message, or the identifier that the
    /// message lacks.
    pub open spec fn delete_call(&self, message: MessageView) -> Result<RequestView, Failure> {
        match MessageIdsView::of(message) {
            Ok(ids) => Ok(
                RequestView {
                    method: Method::Delete,
                    path: self.message_path(ids.id),
                    body: rendered(delete_body(ids.reservation_id)),
                },
            ),
            Err(failure) => Err(failure),
        }
    }

    /// The call that deletes the reserved messages in one go, or the
    /// identifier that the first incomplete message lacks.
    pub open spec fn delete_all_call(&self, messages: Seq<MessageView>) -> Result<
        RequestView,
        Failure,
    > {
        match MessageIdsView::of_all(messages) {
            Ok(pairs) => Ok(
                RequestView {
                    method: Method::Delete,
                    path: self.messages_path(),
                    body: rendered(Json::envelope("ids"@, MessageIdsView::list_to_json(pairs))),
                },
            ),
            Err(failure) => Err(failure),
        }
    }

    /// The call that deletes every message of the queue.
    pub open spec fn clear_call(&self) -> RequestView {
        RequestView {
            method: Method::Delete,
            path: self.messages_path(),
            body: rendered(Json::empty_object()),
        }
    }

    /// The call that deletes the queue.
    pub open spec fn delete_queue_call(&self) -> RequestView {
        RequestView { method: Method::Delete, path: self.path(), body: Seq::empty() }
    }

    /// The call that asks for the queue's settings and counters.
    pub open spec fn info_call(&self) -> RequestView {
        RequestView { method: Method::Get, path: self.path(), body: Seq::empty() }
    }

    /// The call that changes the queue's settings.
    pub open spec fn update_call(&self, config: QueueInfoView) -> RequestView {
        RequestView {
            method: Method::Patch,
            path: self.path(),
            body: rendered(Json::envelope("queue"@, config.to_json())),
        }
    }

    /// A call on the queue's list of subscribers: `Post` adds the given
    /// ones, `Put` puts them in place of the list, `Delete` takes them out.
    pub open spec fn subscribers_call(
        &self,
        method: Method,
        subscribers: Seq<SubscriberView>,
    ) -> RequestView {
        RequestView {
            method,
            path: self.path() + "/subscribers"@,
            body: rendered(
                Json::envelope("subscribers"@, SubscriberView::list_to_json(subscribers)),
            ),
        }
    }

    /// The call that asks how the delivery of a pushed message went.
    pub open spec fn push_statuses_call(&self, message_id: Seq<char>) -> RequestView {
        RequestView {
            method: Method::Get,
            path: self.message_path(message_id) + "/subscribers"@,
            body: Seq::empty(),
        }
    }

    /// Builds the queue's path followed by `rest`.
    fn path_with(&self, rest: &str) -> (path: String)
        ensures
            path@ == self.path() + rest@,
    {
        let mut path = self.client.base_path.clone();
        path.append("queues/");
        path.append(self.name.as_str());
        path.append(rest);
        path
    }

    /// Builds the path of the message with that identifier, followed by
    /// `rest`.
    fn message_path_with(&self, id: &String, rest: &str) -> (path: String)
        ensures
            path@ == self.message_path(id@) + rest@,
    {
        let mut path = self.path_with("/messages/");
        path.append(id.as_str());
        path.append(rest);
        path
    }

    /// The request that pushes the messages, in the order given.
    pub fn push_messages_request(&self, messages: &Vec<Message>) -> (request: Request)
        ensures
            request@ == self.push_call(message_views(messages@)),
    {
        let body = envelope("messages", Message::list_to_json(messages));
        Request { method: Method::Post, path: self.path_with("/messages"), body: render(&body) }
    }

    /// Reads the reply to a push of `sent` messages: one identifier for each
    /// message, in the order in which the reply lists them.
    pub fn push_messages_response(sent: usize, bytes: &[u8]) -> (outcome: Result<
        Vec<String>,
        QueueError,
    >)
        ensures
            match on_bytes(bytes@, |reply: Json| ids_in(reply, sent as nat)) {
                Ok(ids) => outcome matches Ok(found) && found.deep_view() == ids,
                Err(failure) => outcome matches Err(error) && error@ == failure,
            },
            outcome matches Ok(found) ==> found.len() == sent,
    {
        let reply = read_reply(bytes)?;
        read_ids(&reply, sent)
    }

    /// The request that pushes one message.
    pub fn push_message_request(&self, message: Message) -> (request: Request)
        ensures
            request@ == self.push_call(seq![message@]),
    {
        let messages = vec![message];
        assert(message_views(messages@) =~= seq![message@]);
        self.push_messages_request(&messages)
    }

    /// Reads the reply to a push of one message: its identifier.
    pub fn push_message_response(bytes: &[u8]) -> (outcome: Result<String, QueueError>)
        ensures
            match on_bytes(bytes@, |reply: Json| ids_in(reply, 1)) {
                Ok(ids) => outcome matches Ok(found) && found@ == ids[0],
                Err(failure) => outcome matches Err(error) && error@ == failure,
            },
    {
        let mut ids = Queue::push_messages_response(1, bytes)?;
        match ids.pop() {
            Some(id) => Ok(id),
            None => Err(QueueError::Malformed),
        }
    }

    /// The request that pushes one message with that body.
    pub fn push_string_request(&self, body: &str) -> (request: Request)
        ensures
            request@ == self.push_call(seq![MessageView::plain(body@)]),
    {
        self.push_message_request(Message::with_body(body))
    }

    /// The request that pushes one message for each body, in the order
    /// given.
    pub fn push_strings_request(&self, bodies: Vec<&str>) -> (request: Request)
        ensures
            request@ == self.push_call(
                Seq::new(bodies.len() as nat, |i: int| MessageView::plain(bodies[i]@)),
            ),
    {
        let mut messages: Vec<Message> = Vec::new();
        let mut i: usize = 0;
        while i < bodies.len()
            invariant
                i <= bodies.len(),
                messages.len() == i,
                forall|k: int| 0 <= k < i ==> (#[trigger] messages[k])@ == MessageView::plain(bodies[k]@),
            decreases bodies.len() - i,
        {
            messages.push(Message::with_body(bodies[i]));
            i = i + 1;
        }
        assert(message_views(messages@) =~= Seq::new(
            bodies.len() as nat,
            |i: int| MessageView::plain(bodies[i]@),
        ));
        self.push_messages_request(&messages)
    }

    /// The request that looks up the message with that identifier.
    pub fn get_message_request(&self, id: &String) -> (request: Request)
        ensures
            request@ == self.get_call(id@),
    {
        let path = self.message_path_with(id, "");
        proof {
            reveal_strlit("");
            assert(self.message_path(id@) + ""@ =~= self.message_path(id@));
        }
        Request { method: Method::Get, path, body: String::new() }
    }

    /// Reads the reply to the lookup of `id`: the message, which carries
    /// that identifier.
    pub fn get_message_response(id: &String, bytes: &[u8]) -> (outcome: Result<Message, QueueError>)
        ensures
            match on_bytes(bytes@, |reply: Json| message_in(reply, id@)) {
                Ok(message) => outcome matches Ok(found) && found@ == message,
                Err(failure) => outcome matches Err(error) && error@ == failure,
            },
            outcome matches Ok(found) ==> found@.id == Some(id@),
    {
        let reply = read_reply(bytes)?;
        read_message(&reply, id)
    }

    /// The request that reserves up to `count` messages for `timeout`
    /// seconds, waiting up to `wait` seconds for messages to arrive. With
    /// `delete` the service deletes what it hands out.
    pub fn long_poll_request(&self, count: u8, timeout: u32, wait: u32, delete: bool) -> (request:
        Request)
        ensures
            request@ == self.reservation_call(ReservationView { n: count, timeout, wait, delete }),
    {
        let config = ReservationConfig::new(count, timeout, wait, delete);
        let body = config.to_json();
        Request { method: Method::Post, path: self.path_with("/reservations"), body: render(&body) }
    }

    /// Reads the reply to a reservation of up to `count` messages. No
    /// message at all is a success. Each message carries its identifier,
    /// and, unless the service was told to delete, the token of its
    /// reservation.
    pub fn long_poll_response(count: u8, delete: bool, bytes: &[u8]) -> (outcome: Result<
        Vec<Message>,
        QueueError,
    >)
        ensures
            match on_bytes(bytes@, |reply: Json| reservation_in(reply, count, delete)) {
                Ok(messages) => outcome matches Ok(found) && message_views(found@) == messages,
                Err(failure) => outcome matches Err(error) && error@ == failure,
            },
            outcome matches Ok(found) ==> answers(count, delete, message_views(found@)),
    {
        let reply = read_reply(bytes)?;
        read_reservation(&reply, count, delete)
    }

    /// The request that reserves up to `count` messages for `timeout`
    /// seconds without waiting.
    pub fn reserve_messages_with_timeout_request(&self, count: u8, timeout: u32) -> (request:
        Request)
        ensures
            request@ == self.reservation_call(
                ReservationView { n: count, timeout, wait: 0, delete: false },
            ),
    {
        self.long_poll_request(count, timeout, 0, false)
    }

    /// The request that reserves one message for `timeout` seconds.
    pub fn reserve_message_with_timeout_request(&self, timeout: u32) -> (request: Request)
        ensures
            request@ == self.reservation_call(
                ReservationView { n: 1, timeout, wait: 0, delete: false },
            ),
    {
        self.reserve_messages_with_timeout_request(1, timeout)
    }

    /// The request that reserves up to `count` messages for the default
    /// time.
    pub fn reserve_messages_request(&self, count: u8) -> (request: Request)
        ensures
            request@ == self.reservation_call(
                ReservationView { n: count, timeout: DEFAULT_TIMEOUT, wait: 0, delete: false },
            ),
    {
        self.reserve_messages_with_timeout_request(count, DEFAULT_TIMEOUT)
    }

    /// The request that reserves one message for the default time.
    pub fn reserve_message_request(&self) -> (request: Request)
        ensures
            request@ == self.reservation_call(
                ReservationView { n: 1, timeout: DEFAULT_TIMEOUT, wait: 0, delete: false },
            ),
    {
        self.reserve_message_with_timeout_request(DEFAULT_TIMEOUT)
    }

    /// Reads the reply to a reservation of up to `count` messages: each
    /// message is reserved.
    pub fn reserve_messages_response(count: u8, bytes: &[u8]) -> (outcome: Result<
        Vec<Message>,
        QueueError,
    >)
        ensures
            match on_bytes(bytes@, |reply: Json| reservation_in(reply, count, false)) {
                Ok(messages) => outcome matches Ok(found) && message_views(found@) == messages,
                Err(failure) => outcome matches Err(error) && error@ == failure,
            },
            outcome matches Ok(found) ==> found.len() <= count && all_reserved(
                message_views(found@),
            ),
    {
        Queue::long_poll_response(count, false, bytes)
    }

    /// Reads the reply to a reservation of one message: the message, which
    /// is reserved, or nothing where none was visible.
    pub fn reserve_message_response(bytes: &[u8]) -> (outcome: Result<Option<Message>, QueueError>)
        ensures
            match on_bytes(bytes@, |reply: Json| reservation_in(reply, 1, false)) {
                Ok(messages) => outcome matches Ok(found) && view_of(found) == last_of(messages),
                Err(failure) => outcome matches Err(error) && error@ == failure,
            },
            outcome matches Ok(Some(message)) ==> message@.is_reserved(),
    {
        let mut messages = Queue::long_poll_response(1, false, bytes)?;
        let ghost views = message_views(messages@);
        let last = messages.pop();
        proof {
            if views.len() > 0 {
                assert(views.last().is_reserved());
            }
        }
        Ok(last)
    }

    /// The request that takes up to `count` messages off the queue: the
    /// service deletes what it hands out.
    pub fn pop_messages_request(&self, count: u8) -> (request: Request)
        ensures
            request@ == self.reservation_call(
                ReservationView { n: count, timeout: 0, wait: 0, delete: true },
            ),
    {
        self.long_poll_request(count, 0, 0, true)
    }

    /// The request that takes one message off the queue.
    pub fn pop_message_request(&self) -> (request: Request)
        ensures
            request@ == self.reservation_call(
                ReservationView { n: 1, timeout: 0, wait: 0, delete: true },
            ),
    {
        self.pop_messages_request(1)
    }

    /// Reads the reply to a pop of up to `count` messages.
    pub fn pop_messages_response(count: u8, bytes: &[u8]) -> (outcome: Result<
        Vec<Message>,
        QueueError,
    >)
        ensures
            match on_bytes(bytes@, |reply: Json| reservation_in(reply, count, true)) {
                Ok(messages) => outcome matches Ok(found) && message_views(found@) == messages,
                Err(failure) => outcome matches Err(error) && error@ == failure,
            },
            outcome matches Ok(found) ==> found.len() <= count && all_fetched(
                message_views(found@),
            ),
    {
        Queue::long_poll_response(count, true, bytes)
    }

    /// Reads the reply to a pop of one message: the message, or nothing
    /// where none was visible.
    pub fn pop_message_response(bytes: &[u8]) -> (outcome: Result<Option<Message>, QueueError>)
        ensures
            match on_bytes(bytes@, |reply: Json| reservation_in(reply, 1, true)) {
                Ok(messages) => outcome matches Ok(found) && view_of(found) == last_of(messages),
                Err(failure) => outcome matches Err(error) && error@ == failure,
            },
            outcome matches Ok(Some(message)) ==> message@.is_fetched(),
    {
        let mut messages = Queue::long_poll_response(1, true, bytes)?;
        let ghost views = message_views(messages@);
        let last = messages.pop();
        proof {
            if views.len() > 0 {
                assert(views.last().is_fetched());
            }
        }
        Ok(last)
    }

    /// The request that shows up to `count` of the next visible messages.
    pub fn peek_messages_request(&self, count: u8) -> (request: Request)
        ensures
            request@ == self.peek_call(count),
    {
        let mut path = self.path_with("/messages");
        path.append("?n=");
        path.append(decimal_text(count as u64).as_str());
        Request { method: Method::Get, path, body: String::new() }
    }

    /// Reads the reply to a peek at up to `count` messages: the messages,
    /// each with its identifier.
    pub fn peek_messages_response(count: u8, bytes: &[u8]) -> (outcome: Result<
        Vec<Message>,
        QueueError,
    >)
        ensures
            match on_bytes(bytes@, |reply: Json| messages_in(reply, count)) {
                Ok(messages) => outcome matches Ok(found) && message_views(found@) == messages,
                Err(failure) => outcome matches Err(error) && error@ == failure,
            },
            outcome matches Ok(found) ==> found.len() <= count && all_fetched(
                message_views(found@),
            ),
    {
        let reply = read_reply(bytes)?;
        read_messages(&reply, count)
    }

    /// The request that ends the reservation of a message and makes it
    /// visible again after `delay` seconds. A message that lacks an
    /// identifier gives no request.
    pub fn release_message_request(&self, message: Message, delay: u32) -> (outcome: Result<
        Request,
        QueueError,
    >)
        ensures
            match self.release_call(message@, delay) {
                Ok(call) => outcome matches Ok(request) && request@ == call,
                Err(failure) => outcome matches Err(error) && error@ == failure,
            },
    {
        let ids = MessageIds::of(&message)?;
        let mut body = empty_object();
        put_text(&mut body, "reservation_id", &ids.reservation_id);
        put_u32(&mut body, "delay", delay);
        Ok(
            Request {
                method: Method::Post,
                path: self.message_path_with(&ids.id, "/release"),
                body: render(&body),
            },
        )
    }

    /// Reads the reply to a release: the service's status text. The text
    /// says whether the message was released; a refusal, as for a token
    /// that no longer holds, comes back as text too and is not turned into
    /// a success or an error here.
    pub fn release_message_response(bytes: &[u8]) -> (outcome: Result<String, QueueError>)
        ensures
            match on_bytes(bytes@, |reply: Json| Ok(status_in(reply))) {
                Ok(status) => outcome matches Ok(found) && found@ == status,
                Err(failure) => outcome matches Err(error) && error@ == failure,
            },
    {
        read_status_reply(bytes)
    }

    /// The request that deletes a reserved message. A message that lacks an
    /// identifier gives no request.
    pub fn delete_message_request(&self, message: Message) -> (outcome: Result<Request, QueueError>)
        ensures
            match self.delete_call(message@) {
                Ok(call) => outcome matches Ok(request) && request@ == call,
                Err(failure) => outcome matches Err(error) && error@ == failure,
            },
    {
        let ids = MessageIds::of(&message)?;
        let mut body = empty_object();
        put_text(&mut body, "reservation_id", &ids.reservation_id);
        let path = self.message_path_with(&ids.id, "");
        proof {
            reveal_strlit("");
            assert(self.message_path(ids.id@) + ""@ =~= self.message_path(ids.id@));
        }
        Ok(Request { method: Method::Delete, path, body: render(&body) })
    }

    /// Reads the reply to the deletion of a message: the service's status
    /// text. The text says whether the message was deleted; a refusal, as
    /// for a token that no longer holds, comes back as text too.
    pub fn delete_message_response(bytes: &[u8]) -> (outcome: Result<String, QueueError>)
        ensures
            match on_bytes(bytes@, |reply: Json| Ok(status_in(reply))) {
                Ok(status) => outcome matches Ok(found) && found@ == status,
                Err(failure) => outcome matches Err(error) && error@ == failure,
            },
    {
        read_status_reply(bytes)
    }

    /// The request that deletes the reserved messages in one go. If a
    /// message lacks an identifier, there is no request.
    pub fn delete_messages_request(&self, messages: Vec<Message>) -> (outcome: Result<
        Request,
        QueueError,
    >)
        ensures
            match self.delete_all_call(message_views(messages@)) {
                Ok(call) => outcome matches Ok(request) && request@ == call,
                Err(failure) => outcome matches Err(error) && error@ == failure,
            },
    {
        let pairs = MessageIds::of_all(&messages)?;
        let body = envelope("ids", MessageIds::list_to_json(&pairs));
        Ok(Request { method: Method::Delete, path: self.path_with("/messages"), body: render(&body) })
    }

    /// Reads the reply to the deletion of several messages: the service's
    /// status text, one for all of them. Which of the messages a refusal
    /// is about the reply does not say.
    pub fn delete_messages_response(bytes: &[u8]) -> (outcome: Result<String, QueueError>)
        ensures
            match on_bytes(bytes@, |reply: Json| Ok(status_in(reply))) {
                Ok(status) => outcome matches Ok(found) && found@ == status,
                Err(failure) => outcome matches Err(error) && error@ == failure,
            },
    {
        read_status_reply(bytes)
    }

    /// The request that extends the reservation of a message to `timeout`
    /// seconds from now. A message that lacks an identifier gives no
    /// request.
    pub fn touch_message_with_timeout_request(&self, message: Message, timeout: u32) -> (outcome:
        Result<Request, QueueError>)
        ensures
            match self.touch_call(message@, timeout) {
                Ok(call) => outcome matches Ok(request) && request@ == call,
                Err(failure) => outcome matches Err(error) && error@ == failure,
            },
    {
        let ids = MessageIds::of(&message)?;
        let mut body = empty_object();
        put_text(&mut body, "reservation_id", &ids.reservation_id);
        put_u32(&mut body, "timeout", timeout);
        Ok(
            Request {
                method: Method::Post,
                path: self.message_path_with(&ids.id, "/touch"),
                body: render(&body),
            },
        )
    }

    /// The request that extends the reservation of a message by the
    /// default time.
    pub fn touch_message_request(&self, message: Message) -> (outcome: Result<Request, QueueError>)
        ensures
            match self.touch_call(message@, DEFAULT_TIMEOUT) {
                Ok(call) => outcome matches Ok(request) && request@ == call,
                Err(failure) => outcome matches Err(error) && error@ == failure,
            },
    {
        self.touch_message_with_timeout_request(message, DEFAULT_TIMEOUT)
    }

    /// Reads the reply to the touch of a reservation held under `held`: the
    /// token that replaces it. The old token no longer holds the message,
    /// so a reply that hands the old token back is refused.
    pub fn touch_message_with_timeout_response(held: &String, bytes: &[u8]) -> (outcome: Result<
        String,
        QueueError,
    >)
        ensures
            match on_bytes(bytes@, |reply: Json| token_in(reply, held@)) {
                Ok(token) => outcome matches Ok(found) && found@ == token,
                Err(failure) => outcome matches Err(error) && error@ == failure,
            },
            outcome matches Ok(found) ==> found@ != held@,
    {
        let reply = read_reply(bytes)?;
        read_token(&reply, held)
    }

    /// The request that deletes every message of the queue, reserved or
    /// not.
    pub fn clear_request(&self) -> (request: Request)
        ensures
            request@ == self.clear_call(),
    {
        let body = empty_object();
        Request { method: Method::Delete, path: self.path_with("/messages"), body: render(&body) }
    }

    /// Reads the reply to a clear: the service's status text.
    pub fn clear_response(bytes: &[u8]) -> (outcome: Result<String, QueueError>)
        ensures
            match on_bytes(bytes@, |reply: Json| Ok(status_in(reply))) {
                Ok(status) => outcome matches Ok(found) && found@ == status,
                Err(failure) => outcome matches Err(error) && error@ == failure,
            },
    {
        read_status_reply(bytes)
    }

    /// The request that deletes the queue.
    pub fn delete_request(&self) -> (request: Request)
        ensures
            request@ == self.delete_queue_call(),
    {
        let path = self.path_with("");
        proof {
            reveal_strlit("");
            assert(self.path() + ""@ =~= self.path());
        }
        Request { method: Method::Delete, path, body: String::new() }
    }

    /// The request that asks for the queue's settings and counters.
    pub fn info_request(&self) -> (request: Request)
        ensures
            request@ == self.info_call(),
    {
        let path = self.path_with("");
        proof {
            reveal_strlit("");
            assert(self.path() + ""@ =~= self.path());
        }
        Request { method: Method::Get, path, body: String::new() }
    }

    /// Reads the reply to a question about the queue: its settings and
    /// counters.
    pub fn info_response(bytes: &[u8]) -> (outcome: Result<QueueInfo, QueueError>)
        ensures
            match on_bytes(bytes@, |reply: Json| queue_in(reply)) {
                Ok(info) => outcome matches Ok(found) && found@ == info,
                Err(failure) => outcome matches Err(error) && error@ == failure,
            },
    {
        let reply = read_reply(bytes)?;
        read_queue(&reply)
    }

    /// The request that changes the queue's settings to those of `config`.
    pub fn update_request(&self, config: &QueueInfo) -> (request: Request)
        ensures
            request@ == self.update_call(config@),
    {
        let body = envelope("queue", config.to_json());
        let path = self.path_with("");
        proof {
            reveal_strlit("");
            assert(self.path() + ""@ =~= self.path());
        }
        Request { method: Method::Patch, path, body: render(&body) }
    }

    /// Reads the reply to a change of settings: the settings as they are
    /// now.
    pub fn update_response(bytes: &[u8]) -> (outcome: Result<QueueInfo, QueueError>)
        ensures
            match on_bytes(bytes@, |reply: Json| queue_in(reply)) {
                Ok(info) => outcome matches Ok(found) && found@ == info,
                Err(failure) => outcome matches Err(error) && error@ == failure,
            },
    {
        let reply = read_reply(bytes)?;
        read_queue(&reply)
    }

    /// Builds a call on the queue's list of subscribers.
    fn subscribers_request(&self, method: Method, subscribers: &Vec<QueueSubscriber>) -> (request:
        Request)
        ensures
            request@ == self.subscribers_call(method, subscriber_views(subscribers@)),
    {
        let body = envelope("subscribers", QueueSubscriber::list_to_json(subscribers));
        Request { method, path: self.path_with("/subscribers"), body: render(&body) }
    }

    /// The request that adds the subscribers to those that the queue has.
    pub fn add_subscribers_request(&self, subscribers: Vec<QueueSubscriber>) -> (request: Request)
        ensures
            request@ == self.subscribers_call(Method::Post, subscriber_views(subscribers@)),
    {
        self.subscribers_request(Method::Post, &subscribers)
    }

    /// Reads the reply to an addition of subscribers: the service's status
    /// text.
    pub fn add_subscribers_response(bytes: &[u8]) -> (outcome: Result<String, QueueError>)
        ensures
            match on_bytes(bytes@, |reply: Json| Ok(status_in(reply))) {
                Ok(status) => outcome matches Ok(found) && found@ == status,
                Err(failure) => outcome matches Err(error) && error@ == failure,
            },
    {
        read_status_reply(bytes)
    }

    /// The request that puts the subscribers in place of those that the
    /// queue has.
    pub fn replace_subscribers_request(&self, subscribers: Vec<QueueSubscriber>) -> (request:
        Request)
        ensures
            request@ == self.subscribers_call(Method::Put, subscriber_views(subscribers@)),
    {
        self.subscribers_request(Method::Put, &subscribers)
    }

    /// Reads the reply to a replacement of subscribers: the service's
    /// status text.
    pub fn replace_subscribers_response(bytes: &[u8]) -> (outcome: Result<String, QueueError>)
        ensures
            match on_bytes(bytes@, |reply: Json| Ok(status_in(reply))) {
                Ok(status) => outcome matches Ok(found) && found@ == status,
                Err(failure) => outcome matches Err(error) && error@ == failure,
            },
    {
        read_status_reply(bytes)
    }

    /// The request that takes the subscribers out of the queue's list.
    pub fn remove_subscribers_request(&self, subscribers: Vec<QueueSubscriber>) -> (request:
        Request)
        ensures
            request@ == self.subscribers_call(Method::Delete, subscriber_views(subscribers@)),
    {
        self.subscribers_request(Method::Delete, &subscribers)
    }

    /// Reads the reply to a removal of subscribers: the service's status
    /// text. Where the service refuses to leave a push queue without
    /// subscribers, this text says so.
    pub fn remove_subscribers_response(bytes: &[u8]) -> (outcome: Result<String, QueueError>)
        ensures
            match on_bytes(bytes@, |reply: Json| Ok(status_in(reply))) {
                Ok(status) => outcome matches Ok(found) && found@ == status,
                Err(failure) => outcome matches Err(error) && error@ == failure,
            },
    {
        read_status_reply(bytes)
    }

    /// The request that asks how the delivery of a pushed message went.
    pub fn get_push_statuses_request(&self, message_id: &String) -> (request: Request)
        ensures
            request@ == self.push_statuses_call(message_id@),
    {
        Request {
            method: Method::Get,
            path: self.message_path_with(message_id, "/subscribers"),
            body: String::new(),
        }
    }

    /// Reads the reply to a question about a delivery: one status for each
    /// subscriber that the reply lists, in its order. The list may be short
    /// or empty while the delivery is under way.
    pub fn get_push_statuses_response(bytes: &[u8]) -> (outcome: Result<Vec<PushStatus>, QueueError>)
        ensures
            match on_bytes(bytes@, |reply: Json| statuses_in(reply)) {
                Ok(statuses) => outcome matches Ok(found) && status_views(found@) == statuses,
                Err(failure) => outcome matches Err(error) && error@ == failure,
            },
    {
        let reply = read_reply(bytes)?;
        read_statuses(&reply)
    }
}

} // verus!
