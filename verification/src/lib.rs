//! Client-side rules of a reservation-based message queue service.
//!
//! The crate builds the requests of the queue protocol and interprets the
//! service's replies. Sending and receiving is left to the caller: every
//! operation is a function that makes a `Request`, and a second one that
//! reads the bytes of the reply.

pub mod error;
pub mod json;
pub mod laws;
pub mod queue;
pub mod reply;
pub mod request;
pub mod text;

use vstd::prelude::*;
use vstd::string::StringExecFns;
use crate::error::QueueError;
use crate::json::{Json, rendered};
use crate::json::{envelope, render};
use crate::queue::Queue;
use crate::queue::queue_info::{QueueInfo, QueueInfoView, QueueType, info_views};
use crate::reply::{on_bytes, queue_in, queues_in};
use crate::reply::{read_queue, read_queues, read_reply};
use crate::request::{Method, Request, RequestView};
use crate::text::{decimal, decimal_text};

verus! {

/// How many queues a page of the queue list holds unless the caller says
/// otherwise.
pub const PER_PAGE: u8 = 30;

/// A project of the queue service and the token that opens it.
#[derive(Debug, Clone, PartialEq, Eq)]
pub struct Client {
    /// The path that every call of the project starts with. It ends in `/`.
    pub base_path: String,
    /// The token that opens the project.
    pub token: String,
}

impl Client {
    /// The path that every call of a project starts with.
    pub open spec fn base_path_of(host: Seq<char>, project_id: Seq<char>) -> Seq<char> {
        "https://"@ + host + "/3/projects/"@ + project_id + "/"@
    }

    /// The client of a project on a host.
    pub fn new(host: String, project_id: String, token: String) -> (client: Client)
        ensures
            client.base_path@ == Client::base_path_of(host@, project_id@),
            client.token@ == token@,
    {
        let mut base_path = String::from_str("https://");
        base_path.append(host.as_str());
        base_path.append("/3/projects/");
        base_path.append(project_id.as_str());
        base_path.append("/");
        Client { base_path, token }
    }

    /// The value of the `Authorization` header that each call carries.
    pub fn authorization(&self) -> (header: String)
        ensures
            header@ == "OAuth "@ + self.token@,
    {
        let mut header = String::from_str("OAuth ");
        header.append(self.token.as_str());
        header
    }

    /// The handle of the queue of that name.
    pub fn queue(&self, name: String) -> (queue: Queue<'_>)
        ensures
            queue.client == self,
            queue.name == name,
    {
        Queue { client: self, name }
    }

    /// The call that makes the queue of that name with the given settings,
    /// or puts the settings in place of those it has.
    pub open spec fn create_call(&self, name: Seq<char>, config: QueueInfoView) -> RequestView {
        RequestView {
            method: Method::Put,
            path: self.base_path@ + "queues/"@ + name,
            body: rendered(Json::envelope("queue"@, config.to_json())),
        }
    }

    /// The call that lists up to `per_page` queues whose names start with
    /// `prefix`, after the queue named `prev`.
    pub open spec fn list_call(
        &self,
        prefix: Seq<char>,
        prev: Seq<char>,
        per_page: u8,
    ) -> RequestView {
        RequestView {
            method: Method::Get,
            path: self.base_path@ + "queues?prefix="@ + prefix + "&prev="@ + prev + "&per_page="@
                + decimal(per_page as nat),
            body: Seq::empty(),
        }
    }

    /// The settings of a pull queue of that name, everything else left to
    /// the service.
    pub open spec fn plain_settings(name: Seq<char>) -> QueueInfoView {
        QueueInfoView {
            name,
            project_id: None,
            message_timeout: None,
            message_expiration: None,
            size: None,
            total_messages: None,
            push: None,
            alerts: None,
            queue_type: Some(QueueType::Pull),
        }
    }

    /// The request that makes a pull queue of that name.
    pub fn create_queue_request(&self, name: &String) -> (request: Request)
        ensures
            request@ == self.create_call(name@, Client::plain_settings(name@)),
    {
        let config = QueueInfo::new(name.clone());
        self.create_queue_with_config_request(name, &config)
    }

    /// The request that makes the queue of that name with the given
    /// settings.
    pub fn create_queue_with_config_request(&self, name: &String, config: &QueueInfo) -> (request:
        Request)
        ensures
            request@ == self.create_call(name@, config@),
    {
        let mut path = self.base_path.clone();
        path.append("queues/");
        path.append(name.as_str());
        let body = envelope("queue", config.to_json());
        Request { method: Method::Put, path, body: render(&body) }
    }

    /// Reads the reply to the making of a queue: its settings.
    pub fn create_queue_response(bytes: &[u8]) -> (outcome: Result<QueueInfo, QueueError>)
        ensures
            match on_bytes(bytes@, |reply: Json| queue_in(reply)) {
                Ok(info) => outcome matches Ok(found) && found@ == info,
                Err(failure) => outcome matches Err(error) && error@ == failure,
            },
    {
        let reply = read_reply(bytes)?;
        read_queue(&reply)
    }

    /// The request that lists up to `per_page` queues whose names start
    /// with `prefix`, after the queue named `prev`.
    pub fn queue_list_request(&self, prefix: &str, prev: &str, per_page: u8) -> (request: Request)
        ensures
            request@ == self.list_call(prefix@, prev@, per_page),
    {
        let mut path = self.base_path.clone();
        path.append("queues?prefix=");
        path.append(prefix);
        path.append("&prev=");
        path.append(prev);
        path.append("&per_page=");
        path.append(decimal_text(per_page as u64).as_str());
        Request { method: Method::Get, path, body: String::new() }
    }

    /// The request that lists up to `per_page` queues after the queue named
    /// `prev`.
    pub fn list_page_request(&self, prev: &str, per_page: u8) -> (request: Request)
        ensures
            request@ == self.list_call(Seq::empty(), prev@, per_page),
    {
        proof {
            reveal_strlit("");
            assert(""@ =~= Seq::<char>::empty());
        }
        self.queue_list_request("", prev, per_page)
    }

    /// The request that lists the first queues whose names start with
    /// `prefix`.
    pub fn filter_request(&self, prefix: &str) -> (request: Request)
        ensures
            request@ == self.list_call(prefix@, Seq::empty(), PER_PAGE),
    {
        proof {
            reveal_strlit("");
            assert(""@ =~= Seq::<char>::empty());
        }
        self.queue_list_request(prefix, "", PER_PAGE)
    }

    /// The request that lists the first queues of the project.
    pub fn list_request(&self) -> (request: Request)
        ensures
            request@ == self.list_call(Seq::empty(), Seq::empty(), PER_PAGE),
    {
        proof {
            reveal_strlit("");
            assert(""@ =~= Seq::<char>::empty());
        }
        self.queue_list_request("", "", PER_PAGE)
    }

    /// Reads the reply to a listing of queues: their settings, in the
    /// reply's order.
    pub fn queue_list_response(bytes: &[u8]) -> (outcome: Result<Vec<QueueInfo>, QueueError>)
        ensures
            match on_bytes(bytes@, |reply: Json| queues_in(reply)) {
                Ok(infos) => outcome matches Ok(found) && info_views(found@) == infos,
                Err(failure) => outcome matches Err(error) && error@ == failure,
            },
    {
        let reply = read_reply(bytes)?;
        read_queues(&reply)
    }
}

} // verus!
