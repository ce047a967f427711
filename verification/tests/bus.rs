use manager_handlers::communication::multibus::{create_bus, Request, INITIAL_WORKERS};
use manager_handlers::communication::pub_sub::{
    dispatch, publish_result, reply_address, send_publish, setup_publishing, PublishIds,
    PUBLISH_ID_MODULUS,
};

#[test]
fn fresh_bus_has_all_workers_and_no_address() {
    let bus = create_bus();
    assert_eq!(bus.free_workers(), 10);
    assert_eq!(INITIAL_WORKERS, 10);
    assert!(!bus.has_address("anything"));
}

#[test]
fn sent_message_is_the_envelope_taken_next() {
    let mut bus = create_bus();
    bus.initialize("worker".to_string());
    assert!(bus.send_data("hello".to_string(), "worker".to_string(), "a".to_string(), "dispatch".to_string()));
    assert_eq!(bus.free_workers(), 9);
    let step = bus.request_data("worker");
    assert_eq!(
        step,
        Request::Ready(Some(r#"{"data":"hello","src":"a","type":"dispatch"}"#.to_string()))
    );
    assert_eq!(bus.free_workers(), 10);
    assert_eq!(bus.request_data("worker"), Request::Wait);
}

#[test]
fn messages_come_out_in_the_order_sent() {
    let mut bus = create_bus();
    bus.initialize("q".to_string());
    for i in 0..3 {
        assert!(bus.send_data(format!("m{}", i), "q".to_string(), "s".to_string(), "dispatch".to_string()));
    }
    for i in 0..3 {
        let expected = format!(r#"{{"data":"m{}","src":"s","type":"dispatch"}}"#, i);
        assert_eq!(bus.request_data("q"), Request::Ready(Some(expected)));
    }
    assert_eq!(bus.request_data("q"), Request::Wait);
}

#[test]
fn send_is_refused_without_a_free_worker() {
    let mut bus = create_bus();
    bus.initialize("q".to_string());
    for _ in 0..10 {
        assert!(bus.send_data("x".to_string(), "q".to_string(), "s".to_string(), "dispatch".to_string()));
    }
    assert_eq!(bus.free_workers(), 0);
    assert!(!bus.send_data("y".to_string(), "q".to_string(), "s".to_string(), "dispatch".to_string()));
    assert_eq!(bus.get_one_request("q").is_some(), true);
    assert_eq!(bus.free_workers(), 1);
    assert!(bus.send_data("y".to_string(), "q".to_string(), "s".to_string(), "dispatch".to_string()));
}

#[test]
fn taking_from_an_empty_or_unknown_address_frees_a_worker() {
    let mut bus = create_bus();
    assert_eq!(bus.get_one_request("ghost"), None);
    assert_eq!(bus.free_workers(), 11);
    assert!(bus.has_address("ghost"));
}

#[test]
fn initialize_empties_and_remove_forgets() {
    let mut bus = create_bus();
    bus.initialize("q".to_string());
    assert!(bus.send_data("x".to_string(), "q".to_string(), "s".to_string(), "dispatch".to_string()));
    bus.initialize("q".to_string());
    assert_eq!(bus.request_data("q"), Request::Wait);
    bus.remove("q");
    assert!(!bus.has_address("q"));
}

#[test]
fn escaping_survives_the_envelope() {
    let mut bus = create_bus();
    bus.initialize("q".to_string());
    assert!(bus.send_data("say \"hi\"\n".to_string(), "q".to_string(), "s".to_string(), "publish".to_string()));
    assert_eq!(
        bus.request_data("q"),
        Request::Ready(Some(r#"{"data":"say \"hi\"\n","src":"s","type":"publish"}"#.to_string()))
    );
}

#[test]
fn publish_numbers_count_up_and_wrap() {
    let mut ids = PublishIds::new();
    assert_eq!(ids.take(), 0);
    assert_eq!(ids.take(), 1);
    assert_eq!(ids.take(), 2);
    let mut last = 2;
    for _ in 3..PUBLISH_ID_MODULUS {
        last = ids.take();
    }
    assert_eq!(last, PUBLISH_ID_MODULUS - 1);
    assert_eq!(ids.take(), 0);
}

#[test]
fn reply_address_is_source_pub_number() {
    assert_eq!(reply_address("my_handler", 0), "my_handler_pub0");
    assert_eq!(reply_address("my_handler", 3571822), "my_handler_pub3571822");
    assert_ne!(reply_address("h", 1), reply_address("h", 11));
}

#[test]
fn dispatch_and_publish_envelopes() {
    let mut bus = create_bus();
    setup_publishing("other_handler".to_string(), &mut bus);
    assert!(dispatch("not important".to_string(), "other_handler".to_string(), "Hello 0".to_string(), &mut bus));
    assert!(send_publish("my_handler_pub0".to_string(), "other_handler".to_string(), "Hello".to_string(), &mut bus));
    assert_eq!(
        bus.get_one_request("other_handler"),
        Some(r#"{"data":"Hello 0","src":"not important","type":"dispatch"}"#.to_string())
    );
    assert_eq!(
        bus.get_one_request("other_handler"),
        Some(r#"{"data":"Hello","src":"my_handler_pub0","type":"publish"}"#.to_string())
    );
}

#[test]
fn publish_without_reply_gives_the_fixed_note() {
    assert_eq!(publish_result(Some("r".to_string())), "r");
    assert_eq!(publish_result(None), "Something wrong happened while waiting for response");
}

#[test]
fn opening_and_closing_a_reply_address_leaves_the_bus_as_it_was() {
    let mut bus = create_bus();
    bus.initialize("handler".to_string());
    assert!(bus.send_data("kept".to_string(), "handler".to_string(), "s".to_string(), "dispatch".to_string()));
    let workers = bus.free_workers();
    bus.initialize("handler_pub0".to_string());
    bus.remove("handler_pub0");
    assert!(!bus.has_address("handler_pub0"));
    assert_eq!(bus.free_workers(), workers);
    assert!(bus.get_one_request("handler").is_some());
    assert_eq!(bus.get_one_request("handler"), None);
}

#[test]
fn free_workers_and_waiting_messages_add_up_to_ten() {
    let mut bus = create_bus();
    bus.initialize("a".to_string());
    bus.initialize("b".to_string());
    let mut waiting = 0;
    for (i, address) in ["a", "b", "a"].iter().enumerate() {
        assert!(bus.send_data(format!("m{}", i), address.to_string(), "s".to_string(), "dispatch".to_string()));
        waiting += 1;
        assert_eq!(bus.free_workers() + waiting, 10);
    }
    for address in ["a", "b", "a"] {
        match bus.request_data(address) {
            Request::Ready(Some(_)) => waiting -= 1,
            other => panic!("expected a message, got {:?}", other),
        }
        assert_eq!(bus.free_workers() + waiting, 10);
    }
    assert_eq!(bus.request_data("a"), Request::Wait);
    assert_eq!(bus.free_workers(), 10);
}
