//! Queue metadata: the settings and counters of a queue, the subscribers of
//! a push queue, alerts, and the delivery status of a pushed message.

use vstd::prelude::*;
use vstd::string::StringExecFns;
use crate::json::{Json, json_of, jsons_of};
use crate::json::{as_items, empty_object, from_items, from_text, is_null, member_or, null, put_optional_text, put_optional_u32, put_optional_usize, put_text, put_u32, read_optional_text, read_optional_u32, read_optional_usize, read_text, read_texts_by_key, read_u32, set_member};

verus! {

/// How a queue hands out its messages.
#[derive(Debug, Clone, Copy, PartialEq, Eq, Structural)]
pub enum QueueType {
    /// Messages wait until a client reserves them.
    Pull,
    /// The service delivers each message to one subscriber.
    Unicast,
    /// The service delivers each message to every subscriber.
    Multicast,
}

/// In which direction a queue's size must cross the trigger of an alert.
#[derive(Debug, Clone, Copy, PartialEq, Eq, Structural)]
pub enum Direction {
    Asc,
    Desc,
}

/// How often an alert fires.
#[derive(Debug, Clone, Copy, PartialEq, Eq, Structural)]
pub enum AlertType {
    Fixed,
    Progressive,
}

/// The extra HTTP headers that the service sends to a subscriber, by name.
#[derive(Debug, Clone, PartialEq, Eq)]
pub struct Headers {
    entries: Vec<(String, String)>,
}

/// The headers that a sequence of insertions leaves: a later value replaces
/// an earlier one of the same name.
pub open spec fn headers_of(entries: Seq<(Seq<char>, Seq<char>)>) -> Map<Seq<char>, Seq<char>>
    decreases entries.len(),
{
    if entries.len() == 0 {
        Map::empty()
    } else {
        headers_of(entries.drop_last()).insert(entries.last().0, entries.last().1)
    }
}

/// The contents of a sequence of pairs of strings.
pub open spec fn pair_views(entries: Seq<(String, String)>) -> Seq<(Seq<char>, Seq<char>)> {
    entries.map_values(|entry: (String, String)| (entry.0@, entry.1@))
}

impl View for Headers {
    type V = Map<Seq<char>, Seq<char>>;

    closed spec fn view(&self) -> Map<Seq<char>, Seq<char>> {
        headers_of(pair_views(self.entries@))
    }
}

impl Headers {
    /// No headers.
    pub fn new() -> (headers: Headers)
        ensures
            headers@ == Map::<Seq<char>, Seq<char>>::empty(),
    {
        let headers = Headers { entries: Vec::new() };
        assert(pair_views(headers.entries@).len() == 0);
        headers
    }

    /// Sets the header `name` to `value`, replacing the value it had.
    pub fn insert(&mut self, name: String, value: String)
        ensures
            final(self)@ == old(self)@.insert(name@, value@),
    {
        let ghost before = pair_views(self.entries@);
        let ghost entry = (name@, value@);
        self.entries.push((name, value));
        proof {
            let after = pair_views(self.entries@);
            assert(after.drop_last() =~= before);
            assert(after.last() == entry);
        }
    }

    /// The insertions that make up the headers, in their order.
    pub fn entries(&self) -> (entries: &Vec<(String, String)>)
        ensures
            headers_of(pair_views(entries@)) == self@,
    {
        &self.entries
    }
}

/// An endpoint to which a push queue delivers its messages.
#[derive(Debug, Clone, PartialEq, Eq)]
pub struct QueueSubscriber {
    name: String,
    url: String,
    headers: Option<Headers>,
}

/// The mathematical content of a `QueueSubscriber`.
pub struct SubscriberView {
    pub name: Seq<char>,
    pub url: Seq<char>,
    pub headers: Option<Map<Seq<char>, Seq<char>>>,
}

impl View for QueueSubscriber {
    type V = SubscriberView;

    closed spec fn view(&self) -> SubscriberView {
        SubscriberView {
            name: self.name@,
            url: self.url@,
            headers: match self.headers {
                Some(headers) => Some(headers@),
                None => None,
            },
        }
    }
}

impl QueueSubscriber {
    /// A subscriber without extra headers.
    pub fn new(name: &str, url: &str) -> (subscriber: QueueSubscriber)
        ensures
            subscriber@ == (SubscriberView { name: name@, url: url@, headers: None }),
    {
        QueueSubscriber { name: String::from_str(name), url: String::from_str(url), headers: None }
    }

    /// Sets the extra headers.
    pub fn headers(&mut self, headers: Headers)
        ensures
            final(self)@ == (SubscriberView { headers: Some(headers@), ..old(self)@ }),
    {
        self.headers = Some(headers);
    }
}

/// The delivery settings of a push queue.
#[derive(Debug, Clone, PartialEq, Eq)]
pub struct PushInfo {
    /// Seconds between two attempts to deliver a message.
    pub retries_delay: u32,
    /// How often the service tries to deliver a message.
    pub retries: u32,
    pub subscribers: Vec<QueueSubscriber>,
    /// The queue that takes the messages that could not be delivered.
    pub error_queue: String,
}

/// The mathematical content of a `PushInfo`.
pub struct PushView {
    pub retries_delay: u32,
    pub retries: u32,
    pub subscribers: Seq<SubscriberView>,
    pub error_queue: Seq<char>,
}

/// The contents of a sequence of subscribers.
pub open spec fn subscriber_views(subscribers: Seq<QueueSubscriber>) -> Seq<SubscriberView> {
    subscribers.map_values(|subscriber: QueueSubscriber| subscriber@)
}

impl View for PushInfo {
    type V = PushView;

    open spec fn view(&self) -> PushView {
        PushView {
            retries_delay: self.retries_delay,
            retries: self.retries,
            subscribers: subscriber_views(self.subscribers@),
            error_queue: self.error_queue@,
        }
    }
}

/// A rule that posts to another queue when this queue's size crosses a
/// threshold.
#[derive(Debug, Clone, PartialEq, Eq)]
pub struct Alert {
    pub alert_type: AlertType,
    pub trigger: u32,
    /// The queue that the alert is posted to.
    pub queue: String,
    /// Seconds during which the alert does not fire again.
    pub snooze: Option<u32>,
    pub direction: Option<Direction>,
}

/// The mathematical content of an `Alert`.
pub struct AlertView {
    pub alert_type: AlertType,
    pub trigger: u32,
    pub queue: Seq<char>,
    pub snooze: Option<u32>,
    pub direction: Option<Direction>,
}

impl View for Alert {
    type V = AlertView;

    open spec fn view(&self) -> AlertView {
        AlertView {
            alert_type: self.alert_type,
            trigger: self.trigger,
            queue: self.queue@,
            snooze: self.snooze,
            direction: self.direction,
        }
    }
}

/// The contents of a sequence of alerts.
pub open spec fn alert_views(alerts: Seq<Alert>) -> Seq<AlertView> {
    alerts.map_values(|alert: Alert| alert@)
}

impl Alert {
    /// An alert without snooze and direction.
    pub fn new(alert_type: AlertType, trigger: u32, queue: &str) -> (alert: Alert)
        ensures
            alert@ == (AlertView {
                alert_type,
                trigger,
                queue: queue@,
                snooze: None,
                direction: None,
            }),
    {
        Alert { alert_type, trigger, queue: String::from_str(queue), snooze: None, direction: None }
    }

    /// Sets the snooze time and hands the alert back for a further setting.
    pub fn snooze(&mut self, snooze: u32) -> (alert: &mut Alert)
        ensures
            *alert == (Alert { snooze: Some(snooze), ..*old(self) }),
            *final(self) == *final(alert),
    {
        self.snooze = Some(snooze);
        self
    }

    /// Sets the direction and hands the alert back for a further setting.
    pub fn direction(&mut self, direction: Direction) -> (alert: &mut Alert)
        ensures
            *alert == (Alert { direction: Some(direction), ..*old(self) }),
            *final(self) == *final(alert),
    {
        self.direction = Some(direction);
        self
    }
}

/// The settings and counters of a queue.
#[derive(Debug, Clone, PartialEq, Eq)]
pub struct QueueInfo {
    pub name: String,
    pub project_id: Option<String>,
    /// Seconds for which a reservation holds unless the call says otherwise.
    pub message_timeout: Option<u32>,
    /// Seconds after which the service drops a message.
    pub message_expiration: Option<u32>,
    /// How many messages the queue holds.
    pub size: Option<usize>,
    /// How many messages the queue has taken since it was made.
    pub total_messages: Option<usize>,
    pub push: Option<PushInfo>,
    pub alerts: Option<Vec<Alert>>,
    pub queue_type: Option<QueueType>,
}

/// The mathematical content of a `QueueInfo`.
pub struct QueueInfoView {
    pub name: Seq<char>,
    pub project_id: Option<Seq<char>>,
    pub message_timeout: Option<u32>,
    pub message_expiration: Option<u32>,
    pub size: Option<usize>,
    pub total_messages: Option<usize>,
    pub push: Option<PushView>,
    pub alerts: Option<Seq<AlertView>>,
    pub queue_type: Option<QueueType>,
}

impl View for QueueInfo {
    type V = QueueInfoView;

    open spec fn view(&self) -> QueueInfoView {
        QueueInfoView {
            name: self.name@,
            project_id: self.project_id.deep_view(),
            message_timeout: self.message_timeout,
            message_expiration: self.message_expiration,
            size: self.size,
            total_messages: self.total_messages,
            push: match self.push {
                Some(push) => Some(push@),
                None => None,
            },
            alerts: match self.alerts {
                Some(alerts) => Some(alert_views(alerts@)),
                None => None,
            },
            queue_type: self.queue_type,
        }
    }
}

impl QueueInfo {
    /// The settings of a pull queue of that name, everything else left to
    /// the service.
    pub fn new(name: String) -> (info: QueueInfo)
        ensures
            info@ == (QueueInfoView {
                name: name@,
                project_id: None,
                message_timeout: None,
                message_expiration: None,
                size: None,
                total_messages: None,
                push: None,
                alerts: None,
                queue_type: Some(QueueType::Pull),
            }),
    {
        QueueInfo {
            name,
            project_id: None,
            message_timeout: None,
            message_expiration: None,
            queue_type: Some(QueueType::Pull),
            size: None,
            total_messages: None,
            push: None,
            alerts: None,
        }
    }

    /// Sets the name and hands the settings back for a further setting.
    pub fn name(&mut self, name: String) -> (info: &mut QueueInfo)
        ensures
            *info == (QueueInfo { name, ..*old(self) }),
            *final(self) == *final(info),
    {
        self.name = name;
        self
    }

    /// Sets the default reservation time.
    pub fn message_timeout(&mut self, message_timeout: u32) -> (info: &mut QueueInfo)
        ensures
            *info == (QueueInfo { message_timeout: Some(message_timeout), ..*old(self) }),
            *final(self) == *final(info),
    {
        self.message_timeout = Some(message_timeout);
        self
    }

    /// Sets the time after which messages expire.
    pub fn message_expiration(&mut self, message_expiration: u32) -> (info: &mut QueueInfo)
        ensures
            *info == (QueueInfo { message_expiration: Some(message_expiration), ..*old(self) }),
            *final(self) == *final(info),
    {
        self.message_expiration = Some(message_expiration);
        self
    }

    /// Sets the kind of queue.
    pub fn queue_type(&mut self, queue_type: QueueType) -> (info: &mut QueueInfo)
        ensures
            *info == (QueueInfo { queue_type: Some(queue_type), ..*old(self) }),
            *final(self) == *final(info),
    {
        self.queue_type = Some(queue_type);
        self
    }

    /// Sets the delivery settings.
    pub fn push(&mut self, push: PushInfo) -> (info: &mut QueueInfo)
        ensures
            *info == (QueueInfo { push: Some(push), ..*old(self) }),
            *final(self) == *final(info),
    {
        self.push = Some(push);
        self
    }

    /// Sets the alerts.
    pub fn alerts(&mut self, alerts: Vec<Alert>) -> (info: &mut QueueInfo)
        ensures
            *info == (QueueInfo { alerts: Some(alerts), ..*old(self) }),
            *final(self) == *final(info),
    {
        self.alerts = Some(alerts);
        self
    }
}

/// What became of the delivery of one pushed message to one subscriber.
#[derive(Debug, Clone, PartialEq, Eq)]
pub struct PushStatus {
    pub subscriber_name: String,
    pub retries_remaining: u32,
    pub tries: u32,
    /// The HTTP status of the subscriber's last answer.
    pub status_code: Option<u32>,
    pub url: String,
    pub msg: Option<String>,
}

/// The mathematical content of a `PushStatus`.
pub struct PushStatusView {
    pub subscriber_name: Seq<char>,
    pub retries_remaining: u32,
    pub tries: u32,
    pub status_code: Option<u32>,
    pub url: Seq<char>,
    pub msg: Option<Seq<char>>,
}

impl View for PushStatus {
    type V = PushStatusView;

    open spec fn view(&self) -> PushStatusView {
        PushStatusView {
            subscriber_name: self.subscriber_name@,
            retries_remaining: self.retries_remaining,
            tries: self.tries,
            status_code: self.status_code,
            url: self.url@,
            msg: self.msg.deep_view(),
        }
    }
}

impl QueueType {
    /// The word that stands for the kind on the wire.
    pub open spec fn word(self) -> Seq<char> {
        match self {
            QueueType::Pull => "pull"@,
            QueueType::Unicast => "unicast"@,
            QueueType::Multicast => "multicast"@,
        }
    }

    /// The kind that a word stands for.
    pub open spec fn from_word(word: Seq<char>) -> Option<QueueType> {
        if word == "pull"@ {
            Some(QueueType::Pull)
        } else if word == "unicast"@ {
            Some(QueueType::Unicast)
        } else if word == "multicast"@ {
            Some(QueueType::Multicast)
        } else {
            None
        }
    }

    /// The word that stands for the kind on the wire.
    pub fn as_word(&self) -> (word: &'static str)
        ensures
            word@ == self.word(),
    {
        match self {
            QueueType::Pull => "pull",
            QueueType::Unicast => "unicast",
            QueueType::Multicast => "multicast",
        }
    }

    /// Reads the kind that a word stands for.
    pub fn read_word(word: &String) -> (found: Option<QueueType>)
        ensures
            found == QueueType::from_word(word@),
    {
        if *word == String::from_str("pull") {
            Some(QueueType::Pull)
        } else if *word == String::from_str("unicast") {
            Some(QueueType::Unicast)
        } else if *word == String::from_str("multicast") {
            Some(QueueType::Multicast)
        } else {
            None
        }
    }
}

impl Direction {
    /// The word that stands for the direction on the wire.
    pub open spec fn word(self) -> Seq<char> {
        match self {
            Direction::Asc => "asc"@,
            Direction::Desc => "desc"@,
        }
    }

    /// The direction that a word stands for.
    pub open spec fn from_word(word: Seq<char>) -> Option<Direction> {
        if word == "asc"@ {
            Some(Direction::Asc)
        } else if word == "desc"@ {
            Some(Direction::Desc)
        } else {
            None
        }
    }

    /// The word that stands for the direction on the wire.
    pub fn as_word(&self) -> (word: &'static str)
        ensures
            word@ == self.word(),
    {
        match self {
            Direction::Asc => "asc",
            Direction::Desc => "desc",
        }
    }

    /// Reads the direction that a word stands for.
    pub fn read_word(word: &String) -> (found: Option<Direction>)
        ensures
            found == Direction::from_word(word@),
    {
        if *word == String::from_str("asc") {
            Some(Direction::Asc)
        } else if *word == String::from_str("desc") {
            Some(Direction::Desc)
        } else {
            None
        }
    }
}

impl AlertType {
    /// The word that stands for the kind of alert on the wire.
    pub open spec fn word(self) -> Seq<char> {
        match self {
            AlertType::Fixed => "fixed"@,
            AlertType::Progressive => "progressive"@,
        }
    }

    /// The kind of alert that a word stands for.
    pub open spec fn from_word(word: Seq<char>) -> Option<AlertType> {
        if word == "fixed"@ {
            Some(AlertType::Fixed)
        } else if word == "progressive"@ {
            Some(AlertType::Progressive)
        } else {
            None
        }
    }

    /// The word that stands for the kind of alert on the wire.
    pub fn as_word(&self) -> (word: &'static str)
        ensures
            word@ == self.word(),
    {
        match self {
            AlertType::Fixed => "fixed",
            AlertType::Progressive => "progressive",
        }
    }

    /// Reads the kind of alert that a word stands for.
    pub fn read_word(word: &String) -> (found: Option<AlertType>)
        ensures
            found == AlertType::from_word(word@),
    {
        if *word == String::from_str("fixed") {
            Some(AlertType::Fixed)
        } else if *word == String::from_str("progressive") {
            Some(AlertType::Progressive)
        } else {
            None
        }
    }
}

/// An optional part as a JSON member: the part written with `write`, if
/// there is one.
pub open spec fn optional_member<T>(part: Option<T>, write: spec_fn(T) -> Json) -> Option<Json> {
    match part {
        Some(inner) => Some(write(inner)),
        None => None,
    }
}

/// An optional part read from a JSON member: null reads as no part,
/// anything else must read with `read`. The outer `None` reports a member
/// that does not.
pub open spec fn optional_part<T>(member: Json, read: spec_fn(Json) -> Option<T>) -> Option<
    Option<T>,
> {
    match member {
        Json::Null => Some(None),
        _ => match read(member) {
            Some(part) => Some(Some(part)),
            None => None,
        },
    }
}

/// A word read from a JSON string.
pub open spec fn word_part<T>(member: Json, read: spec_fn(Seq<char>) -> Option<T>) -> Option<T> {
    match member {
        Json::Text(word) => read(word),
        _ => None,
    }
}

impl SubscriberView {
    /// The JSON object of the subscriber.
    pub open spec fn to_json(self) -> Json {
        Json::empty_object().with("name"@, Json::Text(self.name)).with(
            "url"@,
            Json::Text(self.url),
        ).with_optional(
            "headers"@,
            optional_member(self.headers, |headers: Map<Seq<char>, Seq<char>>| Json::from_texts(headers)),
        )
    }

    /// The subscriber that a JSON object describes.
    pub open spec fn from_json(json: Json) -> Option<SubscriberView> {
        match (
            json.text_at("name"@),
            json.text_at("url"@),
            optional_part(json.member("headers"@), |member: Json| member.texts_by_key()),
        ) {
            (Some(name), Some(url), Some(headers)) => Some(SubscriberView { name, url, headers }),
            _ => None,
        }
    }
}

impl SubscriberView {
    /// The JSON array of the subscribers' objects, in their order.
    pub open spec fn list_to_json(subscribers: Seq<SubscriberView>) -> Json {
        Json::list_from(subscribers, |subscriber: SubscriberView| subscriber.to_json())
    }

    /// The subscribers that a JSON array describes, if each item describes
    /// one.
    pub open spec fn list_from_json(json: Json) -> Option<Seq<SubscriberView>> {
        match json {
            Json::Array(items) => if forall|i: int|
                0 <= i < items.len() ==> (#[trigger] SubscriberView::from_json(items[i])) is Some {
                Some(Seq::new(items.len(), |i: int| SubscriberView::from_json(items[i])->0))
            } else {
                None
            },
            _ => None,
        }
    }
}

impl PushView {
    /// The JSON object of the delivery settings.
    pub open spec fn to_json(self) -> Json {
        Json::empty_object().with("retries_delay"@, Json::Natural(self.retries_delay as nat)).with(
            "retries"@,
            Json::Natural(self.retries as nat),
        ).with(
            "subscribers"@,
            SubscriberView::list_to_json(self.subscribers),
        ).with("error_queue"@, Json::Text(self.error_queue))
    }

    /// The delivery settings that a JSON object describes.
    pub open spec fn from_json(json: Json) -> Option<PushView> {
        match (
            json.u32_at("retries_delay"@),
            json.u32_at("retries"@),
            SubscriberView::list_from_json(json.member("subscribers"@)),
            json.text_at("error_queue"@),
        ) {
            (Some(retries_delay), Some(retries), Some(subscribers), Some(error_queue)) => Some(
                PushView { retries_delay, retries, subscribers, error_queue },
            ),
            _ => None,
        }
    }
}

impl AlertView {
    /// The JSON object of the alert.
    pub open spec fn to_json(self) -> Json {
        Json::empty_object().with("type"@, Json::Text(self.alert_type.word())).with(
            "trigger"@,
            Json::Natural(self.trigger as nat),
        ).with("queue"@, Json::Text(self.queue)).with_optional(
            "snooze"@,
            optional_member(self.snooze, |snooze: u32| Json::Natural(snooze as nat)),
        ).with_optional(
            "direction"@,
            optional_member(self.direction, |direction: Direction| Json::Text(direction.word())),
        )
    }

    /// The alert that a JSON object describes.
    pub open spec fn from_json(json: Json) -> Option<AlertView> {
        match (
            word_part(json.member("type"@), |word: Seq<char>| AlertType::from_word(word)),
            json.u32_at("trigger"@),
            json.text_at("queue"@),
            json.optional_u32_at("snooze"@),
            optional_part(
                json.member("direction"@),
                |member: Json| word_part(member, |word: Seq<char>| Direction::from_word(word)),
            ),
        ) {
            (Some(alert_type), Some(trigger), Some(queue), Some(snooze), Some(direction)) => Some(
                AlertView { alert_type, trigger, queue, snooze, direction },
            ),
            _ => None,
        }
    }
}

impl AlertView {
    /// The JSON array of the alerts' objects, in their order.
    pub open spec fn list_to_json(alerts: Seq<AlertView>) -> Json {
        Json::list_from(alerts, |alert: AlertView| alert.to_json())
    }

    /// The alerts that a JSON array describes, if each item describes one.
    pub open spec fn list_from_json(json: Json) -> Option<Seq<AlertView>> {
        match json {
            Json::Array(items) => if forall|i: int|
                0 <= i < items.len() ==> (#[trigger] AlertView::from_json(items[i])) is Some {
                Some(Seq::new(items.len(), |i: int| AlertView::from_json(items[i])->0))
            } else {
                None
            },
            _ => None,
        }
    }
}

impl QueueInfoView {
    /// The queue settings that a JSON array describes, if each item
    /// describes some.
    pub open spec fn list_from_json(json: Json) -> Option<Seq<QueueInfoView>> {
        match json {
            Json::Array(items) => if forall|i: int|
                0 <= i < items.len() ==> (#[trigger] QueueInfoView::from_json(items[i])) is Some {
                Some(Seq::new(items.len(), |i: int| QueueInfoView::from_json(items[i])->0))
            } else {
                None
            },
            _ => None,
        }
    }
}

impl PushStatusView {
    /// The delivery statuses that a JSON array describes, if each item
    /// describes one.
    pub open spec fn list_from_json(json: Json) -> Option<Seq<PushStatusView>> {
        match json {
            Json::Array(items) => if forall|i: int|
                0 <= i < items.len() ==> (#[trigger] PushStatusView::from_json(items[i])) is Some {
                Some(Seq::new(items.len(), |i: int| PushStatusView::from_json(items[i])->0))
            } else {
                None
            },
            _ => None,
        }
    }
}

impl QueueInfoView {
    /// The JSON object of the settings: `name`, and each other member that
    /// is present.
    pub open spec fn to_json(self) -> Json {
        Json::empty_object().with("name"@, Json::Text(self.name)).with_optional(
            "project_id"@,
            optional_member(self.project_id, |text: Seq<char>| Json::Text(text)),
        ).with_optional(
            "message_timeout"@,
            optional_member(self.message_timeout, |n: u32| Json::Natural(n as nat)),
        ).with_optional(
            "message_expiration"@,
            optional_member(self.message_expiration, |n: u32| Json::Natural(n as nat)),
        ).with_optional(
            "size"@,
            optional_member(self.size, |n: usize| Json::Natural(n as nat)),
        ).with_optional(
            "total_messages"@,
            optional_member(self.total_messages, |n: usize| Json::Natural(n as nat)),
        ).with_optional(
            "push"@,
            optional_member(self.push, |push: PushView| push.to_json()),
        ).with_optional(
            "alerts"@,
            optional_member(self.alerts, |alerts: Seq<AlertView>| AlertView::list_to_json(alerts)),
        ).with_optional(
            "type"@,
            optional_member(self.queue_type, |kind: QueueType| Json::Text(kind.word())),
        )
    }

    /// The settings that a JSON object describes. `name` must be a string;
    /// each other member is missing, null, or of its kind.
    pub open spec fn from_json(json: Json) -> Option<QueueInfoView> {
        match (
            json.text_at("name"@),
            json.optional_text_at("project_id"@),
            json.optional_u32_at("message_timeout"@),
            json.optional_u32_at("message_expiration"@),
            json.optional_usize_at("size"@),
            json.optional_usize_at("total_messages"@),
            optional_part(json.member("push"@), |member: Json| PushView::from_json(member)),
            optional_part(json.member("alerts"@), |member: Json| AlertView::list_from_json(member)),
            optional_part(
                json.member("type"@),
                |member: Json| word_part(member, |word: Seq<char>| QueueType::from_word(word)),
            ),
        ) {
            (
                Some(name),
                Some(project_id),
                Some(message_timeout),
                Some(message_expiration),
                Some(size),
                Some(total_messages),
                Some(push),
                Some(alerts),
                Some(queue_type),
            ) => Some(
                QueueInfoView {
                    name,
                    project_id,
                    message_timeout,
                    message_expiration,
                    size,
                    total_messages,
                    push,
                    alerts,
                    queue_type,
                },
            ),
            _ => None,
        }
    }
}

impl PushStatusView {
    /// The delivery status that a JSON object describes.
    pub open spec fn from_json(json: Json) -> Option<PushStatusView> {
        match (
            json.text_at("subscriber_name"@),
            json.u32_at("retries_remaining"@),
            json.u32_at("tries"@),
            json.optional_u32_at("status_code"@),
            json.text_at("url"@),
            json.optional_text_at("msg"@),
        ) {
            (
                Some(subscriber_name),
                Some(retries_remaining),
                Some(tries),
                Some(status_code),
                Some(url),
                Some(msg),
            ) => Some(
                PushStatusView { subscriber_name, retries_remaining, tries, status_code, url, msg },
            ),
            _ => None,
        }
    }
}

/// The contents of a sequence of delivery statuses.
pub open spec fn status_views(statuses: Seq<PushStatus>) -> Seq<PushStatusView> {
    statuses.map_values(|status: PushStatus| status@)
}

/// The contents of a sequence of queue settings.
pub open spec fn info_views(infos: Seq<QueueInfo>) -> Seq<QueueInfoView> {
    infos.map_values(|info: QueueInfo| info@)
}

/// What a sequence of insertions leaves: a name is set when an insertion
/// names it, and where no name occurs twice each insertion's value stands.
pub proof fn lemma_headers_of(entries: Seq<(Seq<char>, Seq<char>)>)
    ensures
        forall|name: Seq<char>| #[trigger]
            headers_of(entries).contains_key(name) <==> exists|i: int|
                0 <= i < entries.len() && (#[trigger] entries[i]).0 == name,
        (forall|i: int, j: int|
            0 <= i < j < entries.len() ==> (#[trigger] entries[i]).0 != (#[trigger] entries[j]).0)
            ==> forall|i: int|
            0 <= i < entries.len() ==> headers_of(entries)[(#[trigger] entries[i]).0] == entries[i].1,
    decreases entries.len(),
{
    if entries.len() > 0 {
        let front = entries.drop_last();
        lemma_headers_of(front);
        assert forall|name: Seq<char>| #[trigger]
            headers_of(entries).contains_key(name) <==> exists|i: int|
                0 <= i < entries.len() && (#[trigger] entries[i]).0 == name by {
            if headers_of(entries).contains_key(name) {
                if name == entries.last().0 {
                    assert(entries[entries.len() - 1].0 == name);
                } else {
                    assert(headers_of(front).contains_key(name));
                    let i = choose|i: int| 0 <= i < front.len() && (#[trigger] front[i]).0 == name;
                    assert(entries[i].0 == name);
                }
            }
            if exists|i: int| 0 <= i < entries.len() && (#[trigger] entries[i]).0 == name {
                let i = choose|i: int| 0 <= i < entries.len() && (#[trigger] entries[i]).0 == name;
                if i < front.len() {
                    assert(front[i].0 == name);
                    assert(headers_of(front).contains_key(name));
                } else {
                    assert(entries.last().0 == name);
                }
                assert(headers_of(entries).contains_key(name));
            }
        }
        if forall|i: int, j: int|
            0 <= i < j < entries.len() ==> (#[trigger] entries[i]).0 != (#[trigger] entries[j]).0 {
            assert forall|i: int, j: int| 0 <= i < j < front.len() implies (#[trigger] front[i]).0 != (
            #[trigger] front[j]).0 by {
                assert(entries[i].0 != entries[j].0);
            }
            assert forall|i: int| 0 <= i < entries.len() implies headers_of(entries)[(
            #[trigger] entries[i]).0] == entries[i].1 by {
                if i < front.len() {
                    assert(entries[i].0 != entries[entries.len() - 1].0);
                    assert(front[i] == entries[i]);
                }
            }
        }
    }
}

impl Headers {
    /// Builds the JSON object of the headers: each value as a string under
    /// its name.
    pub fn to_json(&self) -> (value: serde_json::Value)
        ensures
            json_of(value) == Json::from_texts(self@),
    {
        let mut value = empty_object();
        let mut i: usize = 0;
        let ghost entries = pair_views(self.entries@);
        proof {
            assert(entries.take(0).len() == 0);
            assert(Json::from_texts(headers_of(entries.take(0))) == Json::empty_object()) by {
                assert(Map::<Seq<char>, Seq<char>>::empty().map_values(
                    |text: Seq<char>| Json::Text(text),
                ) =~= Map::<Seq<char>, Json>::empty());
            }
        }
        while i < self.entries.len()
            invariant
                i <= self.entries.len(),
                entries == pair_views(self.entries@),
                json_of(value) == Json::from_texts(headers_of(entries.take(i as int))),
            decreases self.entries.len() - i,
        {
            proof {
                let front = headers_of(entries.take(i as int));
                let entry = entries[i as int];
                assert(entries.take(i + 1).drop_last() =~= entries.take(i as int));
                assert(entries.take(i + 1).last() == entry);
                assert(front.insert(entry.0, entry.1).map_values(|text: Seq<char>| Json::Text(text))
                    =~= front.map_values(|text: Seq<char>| Json::Text(text)).insert(
                    entry.0,
                    Json::Text(entry.1),
                ));
            }
            set_member(&mut value, self.entries[i].0.as_str(), from_text(self.entries[i].1.clone()));
            i = i + 1;
        }
        proof {
            assert(entries.take(i as int) =~= entries);
        }
        value
    }

    /// Reads the headers of a JSON object whose members are all strings.
    pub fn from_json(value: &serde_json::Value) -> (found: Option<Headers>)
        ensures
            match json_of(*value).texts_by_key() {
                Some(texts) => found matches Some(headers) && headers@ == texts,
                None => found is None,
            },
    {
        match read_texts_by_key(value) {
            Some(entries) => {
                proof {
                    let texts = json_of(*value).texts_by_key()->0;
                    let views = pair_views(entries@);
                    lemma_headers_of(views);
                    assert forall|i: int, j: int| 0 <= i < j < views.len() implies (
                    #[trigger] views[i]).0 != (#[trigger] views[j]).0 by {
                        assert(entries[i].0@ != entries[j].0@);
                    }
                    assert forall|name: Seq<char>|
                        headers_of(views).contains_key(name) == texts.contains_key(name) by {
                        if headers_of(views).contains_key(name) {
                            let i = choose|i: int|
                                0 <= i < views.len() && (#[trigger] views[i]).0 == name;
                            assert(texts.contains_key(entries[i].0@));
                        }
                        if texts.contains_key(name) {
                            let i = choose|i: int|
                                0 <= i < entries.len() && (#[trigger] entries[i]).0@ == name;
                            assert(views[i].0 == name);
                        }
                    }
                    assert forall|name: Seq<char>| headers_of(views).contains_key(name) implies (
                    #[trigger] headers_of(views)[name]) == texts[name] by {
                        let i = choose|i: int|
                            0 <= i < views.len() && (#[trigger] views[i]).0 == name;
                        assert(texts[entries[i].0@] == entries[i].1@);
                        assert(headers_of(views)[views[i].0] == views[i].1);
                    }
                    assert(headers_of(views) =~= texts);
                }
                Some(Headers { entries })
            },
            None => None,
        }
    }
}

impl QueueSubscriber {
    /// Builds the JSON object of the subscriber.
    pub fn to_json(&self) -> (value: serde_json::Value)
        ensures
            json_of(value) == self@.to_json(),
    {
        let mut value = empty_object();
        put_text(&mut value, "name", &self.name);
        put_text(&mut value, "url", &self.url);
        match &self.headers {
            Some(headers) => set_member(&mut value, "headers", headers.to_json()),
            None => {},
        }
        value
    }

    /// Reads a subscriber from a JSON value.
    pub fn from_json(value: &serde_json::Value) -> (found: Option<QueueSubscriber>)
        ensures
            found matches Some(subscriber) ==> SubscriberView::from_json(json_of(*value)) == Some(
                subscriber@,
            ),
            found is None ==> SubscriberView::from_json(json_of(*value)) is None,
    {
        let name = match read_text(value, "name") {
            Some(name) => name,
            None => return None,
        };
        let url = match read_text(value, "url") {
            Some(url) => url,
            None => return None,
        };
        let nothing = null();
        let member = member_or(value, "headers", &nothing);
        let headers = if is_null(member) {
            None
        } else {
            match Headers::from_json(member) {
                Some(headers) => Some(headers),
                None => return None,
            }
        };
        Some(QueueSubscriber { name, url, headers })
    }

    /// Builds the JSON array of the subscribers' objects.
    pub fn list_to_json(subscribers: &Vec<QueueSubscriber>) -> (value: serde_json::Value)
        ensures
            json_of(value) == SubscriberView::list_to_json(subscriber_views(subscribers@)),
    {
        let mut items: Vec<serde_json::Value> = Vec::new();
        let mut i: usize = 0;
        while i < subscribers.len()
            invariant
                i <= subscribers.len(),
                items.len() == i,
                forall|k: int|
                    0 <= k < i ==> json_of(#[trigger] items[k]) == subscribers[k]@.to_json(),
            decreases subscribers.len() - i,
        {
            items.push(subscribers[i].to_json());
            i = i + 1;
        }
        let value = from_items(items);
        assert(jsons_of(items@) =~= subscriber_views(subscribers@).map_values(
            |subscriber: SubscriberView| subscriber.to_json(),
        ));
        value
    }

    /// Reads the subscribers of a JSON array.
    pub fn list_from_json(value: &serde_json::Value) -> (found: Option<Vec<QueueSubscriber>>)
        ensures
            found matches Some(subscribers) ==> SubscriberView::list_from_json(json_of(*value))
                == Some(subscriber_views(subscribers@)),
            found is None ==> SubscriberView::list_from_json(json_of(*value)) is None,
    {
        let items = match as_items(value) {
            Some(items) => items,
            None => return None,
        };
        let mut subscribers: Vec<QueueSubscriber> = Vec::new();
        let mut i: usize = 0;
        while i < items.len()
            invariant
                i <= items.len(),
                subscribers.len() == i,
                json_of(*value) == Json::Array(jsons_of(items@)),
                forall|k: int|
                    0 <= k < i ==> SubscriberView::from_json(json_of(#[trigger] items[k])) == Some(
                        subscribers[k]@,
                    ),
            decreases items.len() - i,
        {
            match QueueSubscriber::from_json(&items[i]) {
                Some(subscriber) => {
                    subscribers.push(subscriber);
                },
                None => {
                    assert(SubscriberView::from_json(jsons_of(items@)[i as int]) is None);
                    return None;
                },
            }
            i = i + 1;
        }
        proof {
            let jsons = jsons_of(items@);
            assert forall|k: int| 0 <= k < jsons.len() implies (#[trigger] SubscriberView::from_json(
                jsons[k],
            )) is Some by {
                assert(SubscriberView::from_json(json_of(items[k])) is Some);
            }
            assert(subscriber_views(subscribers@) =~= Seq::new(
                jsons.len(),
                |k: int| SubscriberView::from_json(jsons[k])->0,
            ));
        }
        Some(subscribers)
    }
}

impl PushInfo {
    /// Builds the JSON object of the delivery settings.
    pub fn to_json(&self) -> (value: serde_json::Value)
        ensures
            json_of(value) == self@.to_json(),
    {
        let mut value = empty_object();
        put_u32(&mut value, "retries_delay", self.retries_delay);
        put_u32(&mut value, "retries", self.retries);
        set_member(&mut value, "subscribers", QueueSubscriber::list_to_json(&self.subscribers));
        put_text(&mut value, "error_queue", &self.error_queue);
        value
    }

    /// Reads the delivery settings from a JSON value.
    pub fn from_json(value: &serde_json::Value) -> (found: Option<PushInfo>)
        ensures
            found matches Some(push) ==> PushView::from_json(json_of(*value)) == Some(push@),
            found is None ==> PushView::from_json(json_of(*value)) is None,
    {
        let retries_delay = match read_u32(value, "retries_delay") {
            Some(retries_delay) => retries_delay,
            None => return None,
        };
        let retries = match read_u32(value, "retries") {
            Some(retries) => retries,
            None => return None,
        };
        let nothing = null();
        let subscribers = match QueueSubscriber::list_from_json(
            member_or(value, "subscribers", &nothing),
        ) {
            Some(subscribers) => subscribers,
            None => return None,
        };
        let error_queue = match read_text(value, "error_queue") {
            Some(error_queue) => error_queue,
            None => return None,
        };
        Some(PushInfo { retries_delay, retries, subscribers, error_queue })
    }
}

impl Alert {
    /// Builds the JSON object of the alert.
    pub fn to_json(&self) -> (value: serde_json::Value)
        ensures
            json_of(value) == self@.to_json(),
    {
        let mut value = empty_object();
        put_text(&mut value, "type", &String::from_str(self.alert_type.as_word()));
        put_u32(&mut value, "trigger", self.trigger);
        put_text(&mut value, "queue", &self.queue);
        put_optional_u32(&mut value, "snooze", self.snooze);
        match self.direction {
            Some(direction) => put_text(
                &mut value,
                "direction",
                &String::from_str(direction.as_word()),
            ),
            None => {},
        }
        value
    }

    /// Reads an alert from a JSON value.
    pub fn from_json(value: &serde_json::Value) -> (found: Option<Alert>)
        ensures
            found matches Some(alert) ==> AlertView::from_json(json_of(*value)) == Some(alert@),
            found is None ==> AlertView::from_json(json_of(*value)) is None,
    {
        let alert_type = match read_text(value, "type") {
            Some(word) => match AlertType::read_word(&word) {
                Some(alert_type) => alert_type,
                None => return None,
            },
            None => return None,
        };
        let trigger = match read_u32(value, "trigger") {
            Some(trigger) => trigger,
            None => return None,
        };
        let queue = match read_text(value, "queue") {
            Some(queue) => queue,
            None => return None,
        };
        let snooze = match read_optional_u32(value, "snooze") {
            Some(snooze) => snooze,
            None => return None,
        };
        let direction = match read_optional_text(value, "direction") {
            Some(Some(word)) => match Direction::read_word(&word) {
                Some(direction) => Some(direction),
                None => return None,
            },
            Some(None) => None,
            None => return None,
        };
        Some(Alert { alert_type, trigger, queue, snooze, direction })
    }

    /// Builds the JSON array of the alerts' objects.
    pub fn list_to_json(alerts: &Vec<Alert>) -> (value: serde_json::Value)
        ensures
            json_of(value) == AlertView::list_to_json(alert_views(alerts@)),
    {
        let mut items: Vec<serde_json::Value> = Vec::new();
        let mut i: usize = 0;
        while i < alerts.len()
            invariant
                i <= alerts.len(),
                items.len() == i,
                forall|k: int| 0 <= k < i ==> json_of(#[trigger] items[k]) == alerts[k]@.to_json(),
            decreases alerts.len() - i,
        {
            items.push(alerts[i].to_json());
            i = i + 1;
        }
        let value = from_items(items);
        assert(jsons_of(items@) =~= alert_views(alerts@).map_values(
            |alert: AlertView| alert.to_json(),
        ));
        value
    }

    /// Reads the alerts of a JSON array.
    pub fn list_from_json(value: &serde_json::Value) -> (found: Option<Vec<Alert>>)
        ensures
            found matches Some(alerts) ==> AlertView::list_from_json(json_of(*value)) == Some(
                alert_views(alerts@),
            ),
            found is None ==> AlertView::list_from_json(json_of(*value)) is None,
    {
        let items = match as_items(value) {
            Some(items) => items,
            None => return None,
        };
        let mut alerts: Vec<Alert> = Vec::new();
        let mut i: usize = 0;
        while i < items.len()
            invariant
                i <= items.len(),
                alerts.len() == i,
                json_of(*value) == Json::Array(jsons_of(items@)),
                forall|k: int|
                    0 <= k < i ==> AlertView::from_json(json_of(#[trigger] items[k])) == Some(
                        alerts[k]@,
                    ),
            decreases items.len() - i,
        {
            match Alert::from_json(&items[i]) {
                Some(alert) => {
                    alerts.push(alert);
                },
                None => {
                    assert(AlertView::from_json(jsons_of(items@)[i as int]) is None);
                    return None;
                },
            }
            i = i + 1;
        }
        proof {
            let jsons = jsons_of(items@);
            assert forall|k: int| 0 <= k < jsons.len() implies (#[trigger] AlertView::from_json(
                jsons[k],
            )) is Some by {
                assert(AlertView::from_json(json_of(items[k])) is Some);
            }
            assert(alert_views(alerts@) =~= Seq::new(
                jsons.len(),
                |k: int| AlertView::from_json(jsons[k])->0,
            ));
        }
        Some(alerts)
    }
}

impl QueueInfo {
    /// Builds the JSON object of the settings.
    pub fn to_json(&self) -> (value: serde_json::Value)
        ensures
            json_of(value) == self@.to_json(),
    {
        let mut value = empty_object();
        put_text(&mut value, "name", &self.name);
        put_optional_text(&mut value, "project_id", &self.project_id);
        put_optional_u32(&mut value, "message_timeout", self.message_timeout);
        put_optional_u32(&mut value, "message_expiration", self.message_expiration);
        put_optional_usize(&mut value, "size", self.size);
        put_optional_usize(&mut value, "total_messages", self.total_messages);
        match &self.push {
            Some(push) => set_member(&mut value, "push", push.to_json()),
            None => {},
        }
        match &self.alerts {
            Some(alerts) => set_member(&mut value, "alerts", Alert::list_to_json(alerts)),
            None => {},
        }
        match self.queue_type {
            Some(kind) => put_text(&mut value, "type", &String::from_str(kind.as_word())),
            None => {},
        }
        value
    }

    /// Reads the settings from a JSON value.
    pub fn from_json(value: &serde_json::Value) -> (found: Option<QueueInfo>)
        ensures
            found matches Some(info) ==> QueueInfoView::from_json(json_of(*value)) == Some(info@),
            found is None ==> QueueInfoView::from_json(json_of(*value)) is None,
    {
        let name = match read_text(value, "name") {
            Some(name) => name,
            None => return None,
        };
        let project_id = match read_optional_text(value, "project_id") {
            Some(project_id) => project_id,
            None => return None,
        };
        let message_timeout = match read_optional_u32(value, "message_timeout") {
            Some(message_timeout) => message_timeout,
            None => return None,
        };
        let message_expiration = match read_optional_u32(value, "message_expiration") {
            Some(message_expiration) => message_expiration,
            None => return None,
        };
        let size = match read_optional_usize(value, "size") {
            Some(size) => size,
            None => return None,
        };
        let total_messages = match read_optional_usize(value, "total_messages") {
            Some(total_messages) => total_messages,
            None => return None,
        };
        let nothing = null();
        let push_member = member_or(value, "push", &nothing);
        let push = if is_null(push_member) {
            None
        } else {
            match PushInfo::from_json(push_member) {
                Some(push) => Some(push),
                None => return None,
            }
        };
        let alerts_member = member_or(value, "alerts", &nothing);
        let alerts = if is_null(alerts_member) {
            None
        } else {
            match Alert::list_from_json(alerts_member) {
                Some(alerts) => Some(alerts),
                None => return None,
            }
        };
        let queue_type = match read_optional_text(value, "type") {
            Some(Some(word)) => match QueueType::read_word(&word) {
                Some(kind) => Some(kind),
                None => return None,
            },
            Some(None) => None,
            None => return None,
        };
        Some(
            QueueInfo {
                name,
                project_id,
                message_timeout,
                message_expiration,
                size,
                total_messages,
                push,
                alerts,
                queue_type,
            },
        )
    }

    /// Reads the queue settings of a JSON array.
    pub fn list_from_json(value: &serde_json::Value) -> (found: Option<Vec<QueueInfo>>)
        ensures
            found matches Some(infos) ==> QueueInfoView::list_from_json(json_of(*value)) == Some(
                info_views(infos@),
            ),
            found is None ==> QueueInfoView::list_from_json(json_of(*value)) is None,
    {
        let items = match as_items(value) {
            Some(items) => items,
            None => return None,
        };
        let mut infos: Vec<QueueInfo> = Vec::new();
        let mut i: usize = 0;
        while i < items.len()
            invariant
                i <= items.len(),
                infos.len() == i,
                json_of(*value) == Json::Array(jsons_of(items@)),
                forall|k: int|
                    0 <= k < i ==> QueueInfoView::from_json(json_of(#[trigger] items[k])) == Some(
                        infos[k]@,
                    ),
            decreases items.len() - i,
        {
            match QueueInfo::from_json(&items[i]) {
                Some(info) => {
                    infos.push(info);
                },
                None => {
                    assert(QueueInfoView::from_json(jsons_of(items@)[i as int]) is None);
                    return None;
                },
            }
            i = i + 1;
        }
        proof {
            let jsons = jsons_of(items@);
            assert forall|k: int| 0 <= k < jsons.len() implies (#[trigger] QueueInfoView::from_json(
                jsons[k],
            )) is Some by {
                assert(QueueInfoView::from_json(json_of(items[k])) is Some);
            }
            assert(info_views(infos@) =~= Seq::new(
                jsons.len(),
                |k: int| QueueInfoView::from_json(jsons[k])->0,
            ));
        }
        Some(infos)
    }
}

impl PushStatus {
    /// Reads a delivery status from a JSON value.
    pub fn from_json(value: &serde_json::Value) -> (found: Option<PushStatus>)
        ensures
            found matches Some(status) ==> PushStatusView::from_json(json_of(*value)) == Some(
                status@,
            ),
            found is None ==> PushStatusView::from_json(json_of(*value)) is None,
    {
        let subscriber_name = match read_text(value, "subscriber_name") {
            Some(subscriber_name) => subscriber_name,
            None => return None,
        };
        let retries_remaining = match read_u32(value, "retries_remaining") {
            Some(retries_remaining) => retries_remaining,
            None => return None,
        };
        let tries = match read_u32(value, "tries") {
            Some(tries) => tries,
            None => return None,
        };
        let status_code = match read_optional_u32(value, "status_code") {
            Some(status_code) => status_code,
            None => return None,
        };
        let url = match read_text(value, "url") {
            Some(url) => url,
            None => return None,
        };
        let msg = match read_optional_text(value, "msg") {
            Some(msg) => msg,
            None => return None,
        };
        Some(PushStatus { subscriber_name, retries_remaining, tries, status_code, url, msg })
    }

    /// Reads the delivery statuses of a JSON array.
    pub fn list_from_json(value: &serde_json::Value) -> (found: Option<Vec<PushStatus>>)
        ensures
            found matches Some(statuses) ==> PushStatusView::list_from_json(json_of(*value))
                == Some(status_views(statuses@)),
            found is None ==> PushStatusView::list_from_json(json_of(*value)) is None,
    {
        let items = match as_items(value) {
            Some(items) => items,
            None => return None,
        };
        let mut statuses: Vec<PushStatus> = Vec::new();
        let mut i: usize = 0;
        while i < items.len()
            invariant
                i <= items.len(),
                statuses.len() == i,
                json_of(*value) == Json::Array(jsons_of(items@)),
                forall|k: int|
                    0 <= k < i ==> PushStatusView::from_json(json_of(#[trigger] items[k])) == Some(
                        statuses[k]@,
                    ),
            decreases items.len() - i,
        {
            match PushStatus::from_json(&items[i]) {
                Some(status) => {
                    statuses.push(status);
                },
                None => {
                    assert(PushStatusView::from_json(jsons_of(items@)[i as int]) is None);
                    return None;
                },
            }
            i = i + 1;
        }
        proof {
            let jsons = jsons_of(items@);
            assert forall|k: int| 0 <= k < jsons.len() implies (
            #[trigger] PushStatusView::from_json(jsons[k])) is Some by {
                assert(PushStatusView::from_json(json_of(items[k])) is Some);
            }
            assert(status_views(statuses@) =~= Seq::new(
                jsons.len(),
                |k: int| PushStatusView::from_json(jsons[k])->0,
            ));
        }
        Some(statuses)
    }
}

} // verus!
