//! The exact requests that the library builds, and how it reads replies
//! that are well formed, refused, or broken.

use iron_mq_rust::error::QueueError;
use iron_mq_rust::json::{read_optional_text, read_optional_u32, read_optional_usize, read_text, read_texts, read_u32};
use iron_mq_rust::queue::message::{Message, MessageIds, ReservationConfig};
use iron_mq_rust::queue::queue_info::{
    Alert, AlertType, Direction, Headers, PushInfo, PushStatus, QueueInfo, QueueSubscriber,
    QueueType,
};
use iron_mq_rust::queue::Queue;
use iron_mq_rust::reply::{read_ids, read_message, read_refusal, read_reply, read_status};
use iron_mq_rust::request::{Method, Request};
use iron_mq_rust::text::decimal_text;
use iron_mq_rust::{Client, PER_PAGE};
use serde_json::Value;

fn client() -> Client {
    Client::new("mq.example.com".to_string(), "acme".to_string(), "t0k".to_string())
}

fn json(text: &str) -> Value {
    serde_json::from_str(text).unwrap()
}

fn reserved(body: &str, id: &str, reservation_id: &str) -> Message {
    Message {
        body: body.to_string(),
        delay: None,
        id: Some(id.to_string()),
        reserved_count: Some(1),
        reservation_id: Some(reservation_id.to_string()),
    }
}

fn refused(words: &str) -> QueueError {
    QueueError::Protocol(words.to_string())
}

#[test]
fn client_builds_base_path_and_authorization() {
    let client = client();
    assert_eq!(client.base_path, "https://mq.example.com/3/projects/acme/");
    assert_eq!(client.authorization(), "OAuth t0k");
    assert_eq!(client.queue("jobs".to_string()).name, "jobs");
    assert_eq!(PER_PAGE, 30);
}

#[test]
fn push_request_lists_messages_in_order() {
    let client = client();
    let queue = client.queue("jobs".to_string());
    let request =
        queue.push_messages_request(&vec![Message::new("first", 60), Message::with_body("second")]);
    assert_eq!(
        request,
        Request {
            method: Method::Post,
            path: "https://mq.example.com/3/projects/acme/queues/jobs/messages".to_string(),
            body: "{\"messages\":[{\"body\":\"first\",\"delay\":60},{\"body\":\"second\"}]}"
                .to_string(),
        }
    );
}

#[test]
fn push_request_of_no_message_holds_an_empty_list() {
    let client = client();
    let request = client.queue("jobs".to_string()).push_messages_request(&Vec::new());
    assert_eq!(request.body, "{\"messages\":[]}");
}

#[test]
fn push_message_and_push_string_wrap_one_message() {
    let client = client();
    let queue = client.queue("jobs".to_string());
    let request = queue.push_message_request(Message::new("only", 5));
    assert_eq!(request.method, Method::Post);
    assert_eq!(request.body, "{\"messages\":[{\"body\":\"only\",\"delay\":5}]}");
    let request = queue.push_string_request("plain");
    assert_eq!(request.body, "{\"messages\":[{\"body\":\"plain\"}]}");
    let request = queue.push_strings_request(vec!["One", "Two", "Three"]);
    assert_eq!(
        request.body,
        "{\"messages\":[{\"body\":\"One\"},{\"body\":\"Two\"},{\"body\":\"Three\"}]}"
    );
}

#[test]
fn message_object_holds_every_member_that_is_present() {
    let message = Message {
        body: "b".to_string(),
        delay: Some(1),
        id: Some("i".to_string()),
        reserved_count: Some(2),
        reservation_id: Some("r".to_string()),
    };
    assert_eq!(
        message.to_json().to_string(),
        "{\"body\":\"b\",\"delay\":1,\"id\":\"i\",\"reservation_id\":\"r\",\"reserved_count\":2}"
    );
    assert_eq!(Message::from_json(&message.to_json()), Some(message));
}

#[test]
fn message_text_is_escaped_as_json() {
    let client = client();
    let request = client.queue("jobs".to_string()).push_string_request("say \"hi\"\n\\");
    assert_eq!(request.body, "{\"messages\":[{\"body\":\"say \\\"hi\\\"\\n\\\\\"}]}");
    let reply = json(&request.body);
    let read = Message::list_from_json(&reply["messages"]).unwrap();
    assert_eq!(read, vec![Message::with_body("say \"hi\"\n\\")]);
}

#[test]
fn message_constructors_set_body_and_delay_only() {
    assert_eq!(
        Message::new("b", 0),
        Message {
            body: "b".to_string(),
            delay: Some(0),
            id: None,
            reserved_count: None,
            reservation_id: None
        }
    );
    assert_eq!(
        Message::with_body(""),
        Message {
            body: String::new(),
            delay: None,
            id: None,
            reserved_count: None,
            reservation_id: None
        }
    );
}

#[test]
fn long_poll_request_sends_the_four_parameters() {
    let client = client();
    let queue = client.queue("jobs".to_string());
    let request = queue.long_poll_request(3, 30, 10, true);
    assert_eq!(request.method, Method::Post);
    assert_eq!(request.path, "https://mq.example.com/3/projects/acme/queues/jobs/reservations");
    assert_eq!(request.body, "{\"delete\":true,\"n\":3,\"timeout\":30,\"wait\":10}");
    let request = queue.long_poll_request(255, 4294967295, 0, false);
    assert_eq!(request.body, "{\"delete\":false,\"n\":255,\"timeout\":4294967295,\"wait\":0}");
}

#[test]
fn reservation_requests_fill_in_their_defaults() {
    let client = client();
    let queue = client.queue("jobs".to_string());
    assert_eq!(
        queue.reserve_messages_with_timeout_request(4, 90).body,
        "{\"delete\":false,\"n\":4,\"timeout\":90,\"wait\":0}"
    );
    assert_eq!(
        queue.reserve_message_with_timeout_request(90).body,
        "{\"delete\":false,\"n\":1,\"timeout\":90,\"wait\":0}"
    );
    assert_eq!(
        queue.reserve_messages_request(4).body,
        "{\"delete\":false,\"n\":4,\"timeout\":60,\"wait\":0}"
    );
    assert_eq!(
        queue.reserve_message_request().body,
        "{\"delete\":false,\"n\":1,\"timeout\":60,\"wait\":0}"
    );
    assert_eq!(
        queue.pop_messages_request(4).body,
        "{\"delete\":true,\"n\":4,\"timeout\":0,\"wait\":0}"
    );
    assert_eq!(
        queue.pop_message_request().body,
        "{\"delete\":true,\"n\":1,\"timeout\":0,\"wait\":0}"
    );
    assert_eq!(queue.pop_message_request().path, queue.long_poll_request(1, 0, 0, true).path);
}

#[test]
fn reservation_config_keeps_its_parameters() {
    let config = ReservationConfig::new(7, 60, 5, true);
    assert_eq!(config.count(), 7);
    assert!(config.deletes());
    assert_eq!(config.to_json().to_string(), "{\"delete\":true,\"n\":7,\"timeout\":60,\"wait\":5}");
    assert!(!ReservationConfig::new(0, 0, 0, false).deletes());
}

#[test]
fn get_and_peek_are_gets_without_body() {
    let client = client();
    let queue = client.queue("jobs".to_string());
    assert_eq!(
        queue.get_message_request(&"m-1".to_string()),
        Request {
            method: Method::Get,
            path: "https://mq.example.com/3/projects/acme/queues/jobs/messages/m-1".to_string(),
            body: String::new(),
        }
    );
    assert_eq!(
        queue.peek_messages_request(3),
        Request {
            method: Method::Get,
            path: "https://mq.example.com/3/projects/acme/queues/jobs/messages?n=3".to_string(),
            body: String::new(),
        }
    );
    assert!(queue.peek_messages_request(0).path.ends_with("/messages?n=0"));
    assert!(queue.peek_messages_request(100).path.ends_with("/messages?n=100"));
    assert!(queue.peek_messages_request(255).path.ends_with("/messages?n=255"));
    assert_eq!(queue.peek_messages_request(3), queue.peek_messages_request(3));
}

#[test]
fn release_touch_and_delete_present_the_reservation() {
    let client = client();
    let queue = client.queue("jobs".to_string());
    let message = reserved("b", "m-1", "r-1");
    assert_eq!(
        queue.release_message_request(message.clone(), 70),
        Ok(Request {
            method: Method::Post,
            path: "https://mq.example.com/3/projects/acme/queues/jobs/messages/m-1/release"
                .to_string(),
            body: "{\"delay\":70,\"reservation_id\":\"r-1\"}".to_string(),
        })
    );
    assert_eq!(
        queue.touch_message_with_timeout_request(message.clone(), 120),
        Ok(Request {
            method: Method::Post,
            path: "https://mq.example.com/3/projects/acme/queues/jobs/messages/m-1/touch"
                .to_string(),
            body: "{\"reservation_id\":\"r-1\",\"timeout\":120}".to_string(),
        })
    );
    assert_eq!(
        queue.touch_message_request(message.clone()).unwrap().body,
        "{\"reservation_id\":\"r-1\",\"timeout\":60}"
    );
    assert_eq!(
        queue.delete_message_request(message),
        Ok(Request {
            method: Method::Delete,
            path: "https://mq.example.com/3/projects/acme/queues/jobs/messages/m-1".to_string(),
            body: "{\"reservation_id\":\"r-1\"}".to_string(),
        })
    );
}

#[test]
fn delete_messages_request_lists_both_identifiers() {
    let client = client();
    let queue = client.queue("jobs".to_string());
    let request = queue
        .delete_messages_request(vec![reserved("a", "m-1", "r-1"), reserved("b", "m-2", "r-2")])
        .unwrap();
    assert_eq!(request.method, Method::Delete);
    assert_eq!(request.path, "https://mq.example.com/3/projects/acme/queues/jobs/messages");
    assert_eq!(
        request.body,
        "{\"ids\":[{\"id\":\"m-1\",\"reservation_id\":\"r-1\"},{\"id\":\"m-2\",\"reservation_id\":\"r-2\"}]}"
    );
    assert_eq!(queue.delete_messages_request(Vec::new()).unwrap().body, "{\"ids\":[]}");
}

#[test]
fn clear_and_delete_address_the_queue() {
    let client = client();
    let queue = client.queue("jobs".to_string());
    assert_eq!(
        queue.clear_request(),
        Request {
            method: Method::Delete,
            path: "https://mq.example.com/3/projects/acme/queues/jobs/messages".to_string(),
            body: "{}".to_string(),
        }
    );
    assert_eq!(
        queue.delete_request(),
        Request {
            method: Method::Delete,
            path: "https://mq.example.com/3/projects/acme/queues/jobs".to_string(),
            body: String::new(),
        }
    );
    assert_eq!(
        queue.info_request(),
        Request {
            method: Method::Get,
            path: "https://mq.example.com/3/projects/acme/queues/jobs".to_string(),
            body: String::new(),
        }
    );
}

#[test]
fn message_without_identifiers_gives_no_request() {
    let client = client();
    let queue = client.queue("jobs".to_string());
    for message in [Message::with_body("fresh"), Message::new("fresh", 3)] {
        assert_eq!(
            queue.delete_message_request(message.clone()),
            Err(QueueError::MissingMessageId)
        );
        assert_eq!(
            queue.release_message_request(message.clone(), 0),
            Err(QueueError::MissingMessageId)
        );
        assert_eq!(
            queue.touch_message_with_timeout_request(message.clone(), 60),
            Err(QueueError::MissingMessageId)
        );
        assert_eq!(queue.touch_message_request(message.clone()), Err(QueueError::MissingMessageId));
        assert_eq!(
            queue.delete_messages_request(vec![message]),
            Err(QueueError::MissingMessageId)
        );
    }
}

#[test]
fn message_without_reservation_gives_no_request() {
    let client = client();
    let queue = client.queue("jobs".to_string());
    let visible = Message { reservation_id: None, ..reserved("b", "m-1", "r-1") };
    assert_eq!(
        queue.delete_message_request(visible.clone()),
        Err(QueueError::MissingReservationId)
    );
    assert_eq!(
        queue.release_message_request(visible.clone(), 0),
        Err(QueueError::MissingReservationId)
    );
    assert_eq!(
        queue.touch_message_request(visible.clone()),
        Err(QueueError::MissingReservationId)
    );
    let without_id = Message { id: None, ..reserved("b", "m-1", "r-1") };
    assert_eq!(queue.delete_message_request(without_id.clone()), Err(QueueError::MissingMessageId));
    assert_eq!(
        queue.delete_messages_request(vec![reserved("a", "m-0", "r-0"), visible, without_id]),
        Err(QueueError::MissingReservationId)
    );
}

#[test]
fn message_ids_are_taken_from_a_reserved_message() {
    assert_eq!(
        MessageIds::of(&reserved("b", "m-1", "r-1")),
        Ok(MessageIds::new("m-1".to_string(), "r-1".to_string()))
    );
    assert_eq!(MessageIds::of(&Message::with_body("b")), Err(QueueError::MissingMessageId));
    assert_eq!(
        MessageIds::of_all(&vec![reserved("a", "m-1", "r-1"), reserved("b", "m-2", "r-2")]),
        Ok(vec![
            MessageIds { id: "m-1".to_string(), reservation_id: "r-1".to_string() },
            MessageIds { id: "m-2".to_string(), reservation_id: "r-2".to_string() },
        ])
    );
    assert_eq!(MessageIds::of_all(&Vec::new()), Ok(Vec::new()));
    assert_eq!(
        MessageIds::new("m".to_string(), "r".to_string()).to_json().to_string(),
        "{\"id\":\"m\",\"reservation_id\":\"r\"}"
    );
}

#[test]
fn errors_describe_themselves() {
    assert_eq!(QueueError::MissingMessageId.message(), "Missed message id");
    assert_eq!(QueueError::MissingReservationId.message(), "Missed reservation id");
    assert_eq!(QueueError::Malformed.message(), "Reply is not JSON");
    assert_eq!(refused("Queue not found").message(), "Queue not found");
    assert!(QueueError::MissingMessageId.is_local());
    assert!(QueueError::MissingReservationId.is_local());
    assert!(!QueueError::Malformed.is_local());
    assert!(!refused("null").is_local());
}

#[test]
fn bytes_that_are_no_json_are_malformed() {
    for bytes in [&b"not json"[..], &b""[..], &b"{\"ids\":"[..], &b"{} trailing"[..]] {
        assert_eq!(Queue::push_messages_response(1, bytes), Err(QueueError::Malformed));
        assert_eq!(Queue::push_message_response(bytes), Err(QueueError::Malformed));
        assert_eq!(
            Queue::get_message_response(&"m".to_string(), bytes),
            Err(QueueError::Malformed)
        );
        assert_eq!(Queue::long_poll_response(1, false, bytes), Err(QueueError::Malformed));
        assert_eq!(Queue::reserve_messages_response(1, bytes), Err(QueueError::Malformed));
        assert_eq!(Queue::reserve_message_response(bytes), Err(QueueError::Malformed));
        assert_eq!(Queue::pop_messages_response(1, bytes), Err(QueueError::Malformed));
        assert_eq!(Queue::pop_message_response(bytes), Err(QueueError::Malformed));
        assert_eq!(Queue::peek_messages_response(1, bytes), Err(QueueError::Malformed));
        assert_eq!(Queue::release_message_response(bytes), Err(QueueError::Malformed));
        assert_eq!(Queue::delete_message_response(bytes), Err(QueueError::Malformed));
        assert_eq!(Queue::delete_messages_response(bytes), Err(QueueError::Malformed));
        assert_eq!(
            Queue::touch_message_with_timeout_response(&"r".to_string(), bytes),
            Err(QueueError::Malformed)
        );
        assert_eq!(Queue::clear_response(bytes), Err(QueueError::Malformed));
        assert_eq!(Queue::info_response(bytes), Err(QueueError::Malformed));
        assert_eq!(Queue::update_response(bytes), Err(QueueError::Malformed));
        assert_eq!(Queue::add_subscribers_response(bytes), Err(QueueError::Malformed));
        assert_eq!(Queue::replace_subscribers_response(bytes), Err(QueueError::Malformed));
        assert_eq!(Queue::remove_subscribers_response(bytes), Err(QueueError::Malformed));
        assert_eq!(Queue::get_push_statuses_response(bytes), Err(QueueError::Malformed));
        assert_eq!(Client::create_queue_response(bytes), Err(QueueError::Malformed));
        assert_eq!(Client::queue_list_response(bytes), Err(QueueError::Malformed));
        assert!(matches!(read_reply(bytes), Err(QueueError::Malformed)));
    }
}

#[test]
fn push_reply_gives_the_ids_in_its_order() {
    let bytes = b"{\"ids\":[\"c\",\"a\",\"b\"],\"msg\":\"Messages put on queue.\"}";
    assert_eq!(
        Queue::push_messages_response(3, bytes),
        Ok(vec!["c".to_string(), "a".to_string(), "b".to_string()])
    );
    assert_eq!(Queue::push_messages_response(0, b"{\"ids\":[]}"), Ok(Vec::new()));
    assert_eq!(Queue::push_message_response(b"{\"ids\":[\"only\"]}"), Ok("only".to_string()));
    assert_eq!(
        read_ids(&json("{\"ids\":[\"x\",\"y\"]}"), 2),
        Ok(vec!["x".to_string(), "y".to_string()])
    );
}

#[test]
fn push_reply_without_one_id_for_each_message_is_refused() {
    let refusal = refused("Queue not found");
    assert_eq!(
        Queue::push_messages_response(1, b"{\"msg\":\"Queue not found\"}"),
        Err(refusal.clone())
    );
    assert_eq!(
        Queue::push_message_response(b"{\"msg\":\"Queue not found\"}"),
        Err(refusal.clone())
    );
    assert_eq!(
        Queue::push_messages_response(2, b"{\"ids\":[\"a\"],\"msg\":\"short\"}"),
        Err(refused("short"))
    );
    assert_eq!(
        Queue::push_messages_response(1, b"{\"ids\":[\"a\",\"b\"],\"msg\":\"long\"}"),
        Err(refused("long"))
    );
    assert_eq!(
        Queue::push_messages_response(1, b"{\"msg\":\"a \\\"b\\\"\\n\"}"),
        Err(refused("a \"b\"\n"))
    );
    assert_eq!(Queue::push_messages_response(1, b"{\"msg\":\"\"}"), Err(refused("")));
    assert_eq!(Queue::push_message_response(b"{\"ids\":[]}"), Err(refused("null")));
    assert_eq!(Queue::push_messages_response(1, b"{\"ids\":[7]}"), Err(refused("null")));
    assert_eq!(Queue::push_messages_response(1, b"{\"ids\":\"a\"}"), Err(refused("null")));
    assert_eq!(Queue::push_messages_response(1, b"{\"ids\":null}"), Err(refused("null")));
    assert_eq!(Queue::push_messages_response(1, b"[\"a\"]"), Err(refused("null")));
    assert_eq!(Queue::push_messages_response(1, b"{\"msg\":{\"code\":3}}"), Err(refused("{\"code\":3}")));
}

#[test]
fn lookup_reply_gives_the_message() {
    let bytes =
        b"{\"message\":{\"id\":\"m-1\",\"body\":\"hello\",\"reserved_count\":2,\"push_status\":{}}}";
    assert_eq!(
        Queue::get_message_response(&"m-1".to_string(), bytes),
        Ok(Message {
            body: "hello".to_string(),
            delay: None,
            id: Some("m-1".to_string()),
            reserved_count: Some(2),
            reservation_id: None,
        })
    );
    let bytes =
        b"{\"message\":{\"id\":\"m-1\",\"body\":\"\",\"delay\":null,\"reservation_id\":null}}";
    assert_eq!(
        Queue::get_message_response(&"m-1".to_string(), bytes),
        Ok(Message {
            body: String::new(),
            delay: None,
            id: Some("m-1".to_string()),
            reserved_count: None,
            reservation_id: None,
        })
    );
    assert!(read_message(
        &json("{\"message\":{\"id\":\"m\",\"body\":\"b\",\"delay\":4294967295}}"),
        &"m".to_string()
    )
    .is_ok());
}

#[test]
fn lookup_reply_without_a_proper_message_is_refused() {
    let refusal = Err(refused("Message not found"));
    for text in [
        "{\"msg\":\"Message not found\"}",
        "{\"message\":null,\"msg\":\"Message not found\"}",
        "{\"message\":{\"id\":\"m\"},\"msg\":\"Message not found\"}",
        "{\"message\":{\"body\":\"b\"},\"msg\":\"Message not found\"}",
        "{\"message\":{\"id\":\"m\",\"body\":7},\"msg\":\"Message not found\"}",
        "{\"message\":{\"id\":7,\"body\":\"b\"},\"msg\":\"Message not found\"}",
        "{\"message\":{\"id\":\"m\",\"body\":\"b\",\"delay\":4294967296},\"msg\":\"Message not found\"}",
        "{\"message\":{\"id\":\"m\",\"body\":\"b\",\"delay\":-1},\"msg\":\"Message not found\"}",
        "{\"message\":{\"id\":\"m\",\"body\":\"b\",\"delay\":1.5},\"msg\":\"Message not found\"}",
        "{\"message\":{\"id\":\"m\",\"body\":\"b\",\"delay\":\"1\"},\"msg\":\"Message not found\"}",
        "{\"message\":{\"id\":\"m\",\"body\":\"b\",\"reserved_count\":true},\"msg\":\"Message not found\"}",
        "{\"message\":[\"b\"],\"msg\":\"Message not found\"}",
        "{\"message\":\"b\",\"msg\":\"Message not found\"}",
    ] {
        assert_eq!(
            Queue::get_message_response(&"m".to_string(), text.as_bytes()),
            refusal,
            "{}",
            text
        );
    }
}

#[test]
fn lookup_reply_for_another_message_is_refused() {
    let bytes = b"{\"message\":{\"id\":\"m-2\",\"body\":\"other\"},\"msg\":\"odd\"}";
    assert_eq!(
        Queue::get_message_response(&"m-1".to_string(), bytes),
        Err(refused("odd"))
    );
    assert_eq!(
        Queue::get_message_response(&"m-2".to_string(), bytes).map(|found| found.body),
        Ok("other".to_string())
    );
}

#[test]
fn reservation_reply_gives_reserved_messages() {
    let bytes = b"{\"messages\":[{\"id\":\"m-1\",\"body\":\"One\",\"reserved_count\":1,\"reservation_id\":\"r-1\"},{\"id\":\"m-2\",\"body\":\"Two\",\"reserved_count\":3,\"reservation_id\":\"r-2\"}]}";
    let expected = vec![
        Message { reserved_count: Some(1), ..reserved("One", "m-1", "r-1") },
        Message { reserved_count: Some(3), ..reserved("Two", "m-2", "r-2") },
    ];
    assert_eq!(Queue::long_poll_response(2, false, bytes), Ok(expected.clone()));
    assert_eq!(Queue::reserve_messages_response(255, bytes), Ok(expected.clone()));
    assert_eq!(Queue::pop_messages_response(2, bytes), Ok(expected.clone()));
    let bytes = b"{\"messages\":[{\"id\":\"m-1\",\"body\":\"One\",\"reserved_count\":1,\"reservation_id\":\"r-1\"}]}";
    assert_eq!(Queue::reserve_message_response(bytes), Ok(Some(expected[0].clone())));
    assert_eq!(Queue::pop_message_response(bytes), Ok(Some(expected[0].clone())));
}

#[test]
fn reservation_reply_without_messages_is_a_success() {
    assert_eq!(Queue::long_poll_response(5, false, b"{\"messages\":[]}"), Ok(Vec::new()));
    assert_eq!(Queue::long_poll_response(0, false, b"{\"messages\":[]}"), Ok(Vec::new()));
    assert_eq!(Queue::reserve_messages_response(5, b"{\"messages\":[]}"), Ok(Vec::new()));
    assert_eq!(Queue::pop_messages_response(5, b"{\"messages\":[]}"), Ok(Vec::new()));
    assert_eq!(Queue::reserve_message_response(b"{\"messages\":[]}"), Ok(None));
    assert_eq!(Queue::pop_message_response(b"{\"messages\":[]}"), Ok(None));
    assert_eq!(Queue::peek_messages_response(0, b"{\"messages\":[]}"), Ok(Vec::new()));
}

#[test]
fn reservation_reply_must_carry_the_tokens() {
    let bytes = b"{\"messages\":[{\"id\":\"m-1\",\"body\":\"One\"}],\"msg\":\"odd\"}";
    let popped = Message { id: Some("m-1".to_string()), ..Message::with_body("One") };
    assert_eq!(Queue::long_poll_response(1, false, bytes), Err(refused("odd")));
    assert_eq!(Queue::reserve_messages_response(1, bytes), Err(refused("odd")));
    assert_eq!(Queue::reserve_message_response(bytes), Err(refused("odd")));
    assert_eq!(Queue::long_poll_response(1, true, bytes), Ok(vec![popped.clone()]));
    assert_eq!(Queue::pop_messages_response(1, bytes), Ok(vec![popped.clone()]));
    assert_eq!(Queue::pop_message_response(bytes), Ok(Some(popped.clone())));
    assert_eq!(Queue::peek_messages_response(1, bytes), Ok(vec![popped]));
    let bytes = b"{\"messages\":[{\"body\":\"One\",\"reservation_id\":\"r\"}],\"msg\":\"odd\"}";
    assert_eq!(Queue::long_poll_response(1, false, bytes), Err(refused("odd")));
    assert_eq!(Queue::long_poll_response(1, true, bytes), Err(refused("odd")));
    assert_eq!(Queue::peek_messages_response(1, bytes), Err(refused("odd")));
}

#[test]
fn reservation_reply_with_more_than_was_asked_for_is_refused() {
    let bytes = b"{\"messages\":[{\"id\":\"a\",\"body\":\"One\",\"reservation_id\":\"r\"},{\"id\":\"b\",\"body\":\"Two\",\"reservation_id\":\"s\"}]}";
    assert_eq!(Queue::long_poll_response(1, false, bytes), Err(refused("null")));
    assert_eq!(Queue::pop_messages_response(1, bytes), Err(refused("null")));
    assert_eq!(Queue::reserve_message_response(bytes), Err(refused("null")));
    assert_eq!(Queue::peek_messages_response(1, bytes), Err(refused("null")));
    assert_eq!(Queue::peek_messages_response(2, bytes).map(|found| found.len()), Ok(2));
    assert_eq!(Queue::long_poll_response(2, false, bytes).map(|found| found.len()), Ok(2));
    assert_eq!(Queue::long_poll_response(3, false, bytes).map(|found| found.len()), Ok(2));
}

#[test]
fn reply_without_messages_member_is_refused() {
    let bytes = b"{\"msg\":\"Queue not found\"}";
    let refusal = refused("Queue not found");
    assert_eq!(Queue::long_poll_response(1, false, bytes), Err(refusal.clone()));
    assert_eq!(Queue::pop_message_response(bytes), Err(refusal.clone()));
    assert_eq!(Queue::peek_messages_response(1, bytes), Err(refusal.clone()));
    assert_eq!(
        Queue::peek_messages_response(1, b"{\"messages\":[{\"id\":\"a\"}],\"msg\":\"Queue not found\"}"),
        Err(refusal.clone())
    );
    assert_eq!(
        Queue::peek_messages_response(1, b"{\"messages\":{},\"msg\":\"Queue not found\"}"),
        Err(refusal)
    );
}

#[test]
fn touch_reply_gives_the_new_token() {
    let held = "r-1".to_string();
    assert_eq!(
        Queue::touch_message_with_timeout_response(
            &held,
            b"{\"reservation_id\":\"r-2\",\"msg\":\"Touched\"}"
        ),
        Ok("r-2".to_string())
    );
    assert_eq!(
        Queue::touch_message_with_timeout_response(
            &held,
            b"{\"msg\":\"Reservation has timed out\"}"
        ),
        Err(refused("Reservation has timed out"))
    );
    assert_eq!(
        Queue::touch_message_with_timeout_response(&held, b"{\"reservation_id\":5}"),
        Err(refused("null"))
    );
}

#[test]
fn refusal_carries_the_words_of_the_service() {
    let held = "r-1".to_string();
    let words = "Reservation \"r-1\" has timed out";
    let bytes = b"{\"msg\":\"Reservation \\\"r-1\\\" has timed out\"}";
    assert_eq!(Queue::touch_message_with_timeout_response(&held, bytes), Err(refused(words)));
    assert_eq!(Queue::push_messages_response(1, bytes), Err(refused(words)));
    assert_eq!(Queue::get_message_response(&"m".to_string(), bytes), Err(refused(words)));
    assert_eq!(Queue::long_poll_response(1, false, bytes), Err(refused(words)));
    assert_eq!(Queue::peek_messages_response(1, bytes), Err(refused(words)));
    assert_eq!(Queue::info_response(bytes), Err(refused(words)));
    assert_eq!(read_refusal(&json("{\"msg\":\"plain\"}")), refused("plain"));
    assert_eq!(read_refusal(&json("{\"msg\":17}")), refused("17"));
    assert_eq!(read_refusal(&json("{\"msg\":null}")), refused("null"));
    assert_eq!(read_refusal(&json("{}")), refused("null"));
    assert_eq!(read_refusal(&json("{\"msg\":[\"a\"]}")), refused("[\"a\"]"));
    assert_eq!(refused(words).message(), words);
}

#[test]
fn touch_reply_with_the_old_token_is_refused() {
    let held = "r-1".to_string();
    assert_eq!(
        Queue::touch_message_with_timeout_response(
            &held,
            b"{\"reservation_id\":\"r-1\",\"msg\":\"Touched\"}"
        ),
        Err(refused("Touched"))
    );
    assert_eq!(
        Queue::touch_message_with_timeout_response(
            &"r-0".to_string(),
            b"{\"reservation_id\":\"r-1\",\"msg\":\"Touched\"}"
        ),
        Ok("r-1".to_string())
    );
}

#[test]
fn status_reply_gives_the_words_of_the_service() {
    assert_eq!(Queue::delete_message_response(b"{\"msg\":\"Deleted\"}"), Ok("Deleted".to_string()));
    assert_eq!(Queue::delete_messages_response(b"{\"msg\":\"Deleted\"}"), Ok("Deleted".to_string()));
    assert_eq!(Queue::release_message_response(b"{\"msg\":\"Released\"}"), Ok("Released".to_string()));
    assert_eq!(Queue::clear_response(b"{\"msg\":\"Cleared\"}"), Ok("Cleared".to_string()));
    assert_eq!(Queue::add_subscribers_response(b"{\"msg\":\"Updated\"}"), Ok("Updated".to_string()));
    assert_eq!(Queue::replace_subscribers_response(b"{\"msg\":\"Updated\"}"), Ok("Updated".to_string()));
    assert_eq!(Queue::remove_subscribers_response(b"{\"msg\":\"Updated\"}"), Ok("Updated".to_string()));
    assert_eq!(
        Queue::delete_message_response(b"{\"msg\":\"Reservation has timed out\"}"),
        Ok("Reservation has timed out".to_string())
    );
    assert_eq!(read_status(&json("{\"msg\":\"a \\\"b\\\"\"}")), "a \"b\"");
    assert_eq!(read_status(&json("{\"msg\":\"\"}")), "");
}

#[test]
fn status_that_is_no_string_is_given_as_json_prints_it() {
    assert_eq!(Queue::delete_message_response(b"{}"), Ok("null".to_string()));
    assert_eq!(Queue::delete_message_response(b"[1,2]"), Ok("null".to_string()));
    assert_eq!(Queue::delete_message_response(b"{\"msg\":null}"), Ok("null".to_string()));
    assert_eq!(Queue::delete_message_response(b"{\"msg\":12}"), Ok("12".to_string()));
    assert_eq!(Queue::clear_response(b"{\"msg\":[\"a\",true]}"), Ok("[\"a\",true]".to_string()));
    assert_eq!(read_status(&json("{\"msg\":{\"code\":3}}")), "{\"code\":3}");
}

#[test]
fn subscriber_requests_differ_in_their_method() {
    let client = client();
    let queue = client.queue("jobs".to_string());
    let mut first = QueueSubscriber::new("subscriber1", "http://one.example.com");
    let mut headers = Headers::new();
    headers.insert("Content-Type".to_string(), "application/json".to_string());
    first.headers(headers);
    let subscribers = vec![first, QueueSubscriber::new("subscriber2", "http://two.example.com")];
    let body = "{\"subscribers\":[{\"headers\":{\"Content-Type\":\"application/json\"},\"name\":\"subscriber1\",\"url\":\"http://one.example.com\"},{\"name\":\"subscriber2\",\"url\":\"http://two.example.com\"}]}";
    let path = "https://mq.example.com/3/projects/acme/queues/jobs/subscribers";
    assert_eq!(
        queue.add_subscribers_request(subscribers.clone()),
        Request { method: Method::Post, path: path.to_string(), body: body.to_string() }
    );
    assert_eq!(
        queue.replace_subscribers_request(subscribers.clone()),
        Request { method: Method::Put, path: path.to_string(), body: body.to_string() }
    );
    assert_eq!(
        queue.remove_subscribers_request(subscribers),
        Request { method: Method::Delete, path: path.to_string(), body: body.to_string() }
    );
    assert_eq!(queue.replace_subscribers_request(Vec::new()).body, "{\"subscribers\":[]}");
}

#[test]
fn later_header_replaces_an_earlier_one_of_the_same_name() {
    let mut headers = Headers::new();
    assert_eq!(headers.to_json().to_string(), "{}");
    headers.insert("b".to_string(), "1".to_string());
    headers.insert("a".to_string(), "2".to_string());
    headers.insert("b".to_string(), "3".to_string());
    assert_eq!(headers.to_json().to_string(), "{\"a\":\"2\",\"b\":\"3\"}");
    assert_eq!(headers.entries().len(), 3);
    let read = Headers::from_json(&headers.to_json()).unwrap();
    assert_eq!(read.to_json(), headers.to_json());
    assert_eq!(read.entries().len(), 2);
    assert_eq!(Headers::from_json(&json("{\"a\":1}")), None);
    assert_eq!(Headers::from_json(&json("[]")), None);
    assert_eq!(Headers::from_json(&json("{}")), Some(Headers::new()));
}

#[test]
fn push_statuses_are_asked_for_by_message() {
    let client = client();
    let queue = client.queue("jobs".to_string());
    assert_eq!(
        queue.get_push_statuses_request(&"m-1".to_string()),
        Request {
            method: Method::Get,
            path: "https://mq.example.com/3/projects/acme/queues/jobs/messages/m-1/subscribers"
                .to_string(),
            body: String::new(),
        }
    );
    let bytes = b"{\"subscribers\":[{\"subscriber_name\":\"s1\",\"retries_remaining\":2,\"tries\":1,\"status_code\":503,\"url\":\"http://one\",\"msg\":\"down\"},{\"subscriber_name\":\"s2\",\"retries_remaining\":3,\"tries\":0,\"url\":\"http://two\"}]}";
    assert_eq!(
        Queue::get_push_statuses_response(bytes),
        Ok(vec![
            PushStatus {
                subscriber_name: "s1".to_string(),
                retries_remaining: 2,
                tries: 1,
                status_code: Some(503),
                url: "http://one".to_string(),
                msg: Some("down".to_string()),
            },
            PushStatus {
                subscriber_name: "s2".to_string(),
                retries_remaining: 3,
                tries: 0,
                status_code: None,
                url: "http://two".to_string(),
                msg: None,
            },
        ])
    );
    assert_eq!(Queue::get_push_statuses_response(b"{\"subscribers\":[]}"), Ok(Vec::new()));
    assert_eq!(
        Queue::get_push_statuses_response(b"{\"subscribers\":[{\"subscriber_name\":\"s1\"}],\"msg\":\"odd\"}"),
        Err(refused("odd"))
    );
    assert_eq!(
        Queue::get_push_statuses_response(b"{\"msg\":\"Message not found\"}"),
        Err(refused("Message not found"))
    );
}

#[test]
fn queue_settings_are_built_step_by_step() {
    let mut info = QueueInfo::new("jobs".to_string());
    assert_eq!(
        info,
        QueueInfo {
            name: "jobs".to_string(),
            project_id: None,
            message_timeout: None,
            message_expiration: None,
            size: None,
            total_messages: None,
            push: None,
            alerts: None,
            queue_type: Some(QueueType::Pull),
        }
    );
    let mut alert = Alert::new(AlertType::Progressive, 5, "alerts");
    assert_eq!(
        alert,
        Alert {
            alert_type: AlertType::Progressive,
            trigger: 5,
            queue: "alerts".to_string(),
            snooze: None,
            direction: None,
        }
    );
    alert.direction(Direction::Asc).snooze(9);
    assert_eq!(alert.direction, Some(Direction::Asc));
    assert_eq!(alert.snooze, Some(9));
    let push = PushInfo {
        retries_delay: 3000,
        retries: 10,
        subscribers: vec![QueueSubscriber::new("s", "http://s")],
        error_queue: "errors".to_string(),
    };
    info.name("work".to_string())
        .message_timeout(120)
        .message_expiration(5000)
        .queue_type(QueueType::Multicast)
        .push(push.clone())
        .alerts(vec![alert.clone()]);
    assert_eq!(info.name, "work");
    assert_eq!(info.message_timeout, Some(120));
    assert_eq!(info.message_expiration, Some(5000));
    assert_eq!(info.queue_type, Some(QueueType::Multicast));
    assert_eq!(info.push, Some(push));
    assert_eq!(info.alerts, Some(vec![alert]));
    assert_eq!(info.size, None);
    assert_eq!(
        info.to_json().to_string(),
        "{\"alerts\":[{\"direction\":\"asc\",\"queue\":\"alerts\",\"snooze\":9,\"trigger\":5,\"type\":\"progressive\"}],\"message_expiration\":5000,\"message_timeout\":120,\"name\":\"work\",\"push\":{\"error_queue\":\"errors\",\"retries\":10,\"retries_delay\":3000,\"subscribers\":[{\"name\":\"s\",\"url\":\"http://s\"}]},\"type\":\"multicast\"}"
    );
    assert_eq!(QueueInfo::from_json(&info.to_json()), Some(info));
}

#[test]
fn queue_requests_carry_the_settings() {
    let client = client();
    assert_eq!(
        client.create_queue_request(&"jobs".to_string()),
        Request {
            method: Method::Put,
            path: "https://mq.example.com/3/projects/acme/queues/jobs".to_string(),
            body: "{\"queue\":{\"name\":\"jobs\",\"type\":\"pull\"}}".to_string(),
        }
    );
    let mut config = QueueInfo::new("jobs".to_string());
    config.message_timeout(120).queue_type(QueueType::Unicast);
    assert_eq!(
        client.create_queue_with_config_request(&"other".to_string(), &config),
        Request {
            method: Method::Put,
            path: "https://mq.example.com/3/projects/acme/queues/other".to_string(),
            body: "{\"queue\":{\"message_timeout\":120,\"name\":\"jobs\",\"type\":\"unicast\"}}"
                .to_string(),
        }
    );
    assert_eq!(
        client.queue("jobs".to_string()).update_request(&config),
        Request {
            method: Method::Patch,
            path: "https://mq.example.com/3/projects/acme/queues/jobs".to_string(),
            body: "{\"queue\":{\"message_timeout\":120,\"name\":\"jobs\",\"type\":\"unicast\"}}"
                .to_string(),
        }
    );
}

#[test]
fn queue_list_requests_fill_in_their_defaults() {
    let client = client();
    assert_eq!(
        client.queue_list_request("pre", "last", 7),
        Request {
            method: Method::Get,
            path: "https://mq.example.com/3/projects/acme/queues?prefix=pre&prev=last&per_page=7"
                .to_string(),
            body: String::new(),
        }
    );
    assert_eq!(
        client.list_page_request("last", 255).path,
        "https://mq.example.com/3/projects/acme/queues?prefix=&prev=last&per_page=255"
    );
    assert_eq!(
        client.filter_request("pre").path,
        "https://mq.example.com/3/projects/acme/queues?prefix=pre&prev=&per_page=30"
    );
    assert_eq!(
        client.list_request().path,
        "https://mq.example.com/3/projects/acme/queues?prefix=&prev=&per_page=30"
    );
}

#[test]
fn queue_reply_gives_the_settings() {
    let bytes = b"{\"queue\":{\"name\":\"jobs\",\"project_id\":\"acme\",\"message_timeout\":60,\"message_expiration\":604800,\"size\":3,\"total_messages\":17,\"type\":\"multicast\",\"push\":{\"retries\":3,\"retries_delay\":60,\"error_queue\":\"\",\"subscribers\":[{\"name\":\"s\",\"url\":\"http://s\",\"headers\":{\"X\":\"1\"}}]},\"alerts\":[{\"type\":\"fixed\",\"trigger\":10,\"queue\":\"a\",\"direction\":\"desc\"}],\"rate_limit\":5}}";
    let mut subscriber = QueueSubscriber::new("s", "http://s");
    let mut headers = Headers::new();
    headers.insert("X".to_string(), "1".to_string());
    subscriber.headers(headers);
    let expected = QueueInfo {
        name: "jobs".to_string(),
        project_id: Some("acme".to_string()),
        message_timeout: Some(60),
        message_expiration: Some(604800),
        size: Some(3),
        total_messages: Some(17),
        push: Some(PushInfo {
            retries_delay: 60,
            retries: 3,
            subscribers: vec![subscriber],
            error_queue: String::new(),
        }),
        alerts: Some(vec![Alert {
            alert_type: AlertType::Fixed,
            trigger: 10,
            queue: "a".to_string(),
            snooze: None,
            direction: Some(Direction::Desc),
        }]),
        queue_type: Some(QueueType::Multicast),
    };
    assert_eq!(Queue::info_response(bytes), Ok(expected.clone()));
    assert_eq!(Queue::update_response(bytes), Ok(expected.clone()));
    assert_eq!(Client::create_queue_response(bytes), Ok(expected));
    let plain = Queue::info_response(b"{\"queue\":{\"name\":\"jobs\"}}").unwrap();
    assert_eq!(plain, QueueInfo { queue_type: None, ..QueueInfo::new("jobs".to_string()) });
}

#[test]
fn queue_reply_without_proper_settings_is_refused() {
    let refusal = Err(refused("Queue not found"));
    for text in [
        "{\"msg\":\"Queue not found\"}",
        "{\"queue\":{},\"msg\":\"Queue not found\"}",
        "{\"queue\":{\"name\":3},\"msg\":\"Queue not found\"}",
        "{\"queue\":{\"name\":\"q\",\"type\":\"push\"},\"msg\":\"Queue not found\"}",
        "{\"queue\":{\"name\":\"q\",\"type\":3},\"msg\":\"Queue not found\"}",
        "{\"queue\":{\"name\":\"q\",\"size\":-1},\"msg\":\"Queue not found\"}",
        "{\"queue\":{\"name\":\"q\",\"message_timeout\":\"60\"},\"msg\":\"Queue not found\"}",
        "{\"queue\":{\"name\":\"q\",\"push\":{\"retries\":3}},\"msg\":\"Queue not found\"}",
        "{\"queue\":{\"name\":\"q\",\"push\":{\"retries\":3,\"retries_delay\":60,\"error_queue\":\"\",\"subscribers\":[{\"name\":\"s\"}]}},\"msg\":\"Queue not found\"}",
        "{\"queue\":{\"name\":\"q\",\"push\":{\"retries\":3,\"retries_delay\":60,\"error_queue\":\"\",\"subscribers\":[{\"name\":\"s\",\"url\":\"u\",\"headers\":{\"X\":1}}]}},\"msg\":\"Queue not found\"}",
        "{\"queue\":{\"name\":\"q\",\"alerts\":[{\"type\":\"loud\",\"trigger\":1,\"queue\":\"a\"}]},\"msg\":\"Queue not found\"}",
        "{\"queue\":{\"name\":\"q\",\"alerts\":[{\"type\":\"fixed\",\"trigger\":1,\"queue\":\"a\",\"direction\":\"up\"}]},\"msg\":\"Queue not found\"}",
        "{\"queue\":{\"name\":\"q\",\"alerts\":{}},\"msg\":\"Queue not found\"}",
    ] {
        assert_eq!(Queue::info_response(text.as_bytes()), refusal, "{}", text);
        assert_eq!(Queue::update_response(text.as_bytes()), refusal, "{}", text);
        assert_eq!(Client::create_queue_response(text.as_bytes()), refusal, "{}", text);
    }
}

#[test]
fn queue_list_reply_gives_the_queues_in_its_order() {
    let found = Client::queue_list_response(b"{\"queues\":[{\"name\":\"b\"},{\"name\":\"a\"}]}").unwrap();
    let names: Vec<&str> = found.iter().map(|info| info.name.as_str()).collect();
    assert_eq!(names, vec!["b", "a"]);
    assert_eq!(Client::queue_list_response(b"{\"queues\":[]}"), Ok(Vec::new()));
    assert_eq!(
        Client::queue_list_response(b"{\"queues\":[{\"name\":\"b\"},{}],\"msg\":\"odd\"}"),
        Err(refused("odd"))
    );
    assert_eq!(Client::queue_list_response(b"{\"msg\":\"Invalid token\"}"), Err(refused("Invalid token")));
}

#[test]
fn words_stand_for_kinds() {
    assert_eq!(QueueType::Pull.as_word(), "pull");
    assert_eq!(QueueType::Unicast.as_word(), "unicast");
    assert_eq!(QueueType::Multicast.as_word(), "multicast");
    assert_eq!(Direction::Asc.as_word(), "asc");
    assert_eq!(Direction::Desc.as_word(), "desc");
    assert_eq!(AlertType::Fixed.as_word(), "fixed");
    assert_eq!(AlertType::Progressive.as_word(), "progressive");
    for kind in [QueueType::Pull, QueueType::Unicast, QueueType::Multicast] {
        assert_eq!(QueueType::read_word(&kind.as_word().to_string()), Some(kind));
    }
    for direction in [Direction::Asc, Direction::Desc] {
        assert_eq!(Direction::read_word(&direction.as_word().to_string()), Some(direction));
    }
    for kind in [AlertType::Fixed, AlertType::Progressive] {
        assert_eq!(AlertType::read_word(&kind.as_word().to_string()), Some(kind));
    }
    assert_eq!(QueueType::read_word(&"Pull".to_string()), None);
    assert_eq!(Direction::read_word(&String::new()), None);
    assert_eq!(AlertType::read_word(&"fixed ".to_string()), None);
}

#[test]
fn members_are_read_by_kind() {
    let value = json("{\"t\":\"x\",\"n\":7,\"big\":4294967296,\"huge\":18446744073709551615,\"neg\":-1,\"nil\":null,\"frac\":2.0}");
    assert_eq!(read_text(&value, "t"), Some("x".to_string()));
    assert_eq!(read_text(&value, "n"), None);
    assert_eq!(read_text(&value, "nil"), None);
    assert_eq!(read_text(&value, "absent"), None);
    assert_eq!(read_optional_text(&value, "t"), Some(Some("x".to_string())));
    assert_eq!(read_optional_text(&value, "nil"), Some(None));
    assert_eq!(read_optional_text(&value, "absent"), Some(None));
    assert_eq!(read_optional_text(&value, "n"), None);
    assert_eq!(read_u32(&value, "n"), Some(7));
    assert_eq!(read_u32(&value, "big"), None);
    assert_eq!(read_u32(&value, "neg"), None);
    assert_eq!(read_u32(&value, "frac"), None);
    assert_eq!(read_u32(&value, "nil"), None);
    assert_eq!(read_u32(&value, "absent"), None);
    assert_eq!(read_optional_u32(&value, "n"), Some(Some(7)));
    assert_eq!(read_optional_u32(&value, "nil"), Some(None));
    assert_eq!(read_optional_u32(&value, "absent"), Some(None));
    assert_eq!(read_optional_u32(&value, "big"), None);
    assert_eq!(read_optional_u32(&value, "t"), None);
    assert_eq!(read_optional_usize(&value, "big"), Some(Some(4294967296)));
    assert_eq!(read_optional_usize(&value, "huge"), Some(Some(18446744073709551615)));
    assert_eq!(read_optional_usize(&value, "neg"), None);
    assert_eq!(read_optional_usize(&value, "absent"), Some(None));
    assert_eq!(read_text(&json("[\"t\"]"), "t"), None);
    assert_eq!(read_texts(&json("[\"a\",\"b\"]")), Some(vec!["a".to_string(), "b".to_string()]));
    assert_eq!(read_texts(&json("[]")), Some(Vec::new()));
    assert_eq!(read_texts(&json("[\"a\",1]")), None);
    assert_eq!(read_texts(&json("{}")), None);
}

#[test]
fn numbers_are_written_in_decimal() {
    assert_eq!(decimal_text(0), "0");
    assert_eq!(decimal_text(7), "7");
    assert_eq!(decimal_text(10), "10");
    assert_eq!(decimal_text(255), "255");
    assert_eq!(decimal_text(1000), "1000");
    assert_eq!(decimal_text(4294967295), "4294967295");
    assert_eq!(decimal_text(18446744073709551615), "18446744073709551615");
    for n in 0..2000u64 {
        assert_eq!(decimal_text(n), n.to_string());
    }
}
