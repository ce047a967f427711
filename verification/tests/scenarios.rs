use manager_handlers::communication::multibus::{create_bus, MultiBus, Request};
use manager_handlers::communication::pub_sub::{
    dispatch, publish_result, reply_address, send_publish, setup_publishing, PublishIds,
};
use manager_handlers::manager::Config;
use manager_handlers::routes::files::handle_file_ending;
use manager_handlers::routes::general::{handle_common_ending, shutdown_reply, TaskOutcome};
use manager_handlers::routes::middleware::authorize_request;
use manager_handlers::states::{RequestRedis, SharedState};
use manager_handlers::traits::{
    decode_bus_message, job_from_redis, plan_dispatch_redis, plan_publish_redis,
    publish_response_data, reply_action, Job, RedisPublishPlan, ReplyAction,
};

/// Runs one publish from `src` to the handler `topic` over the bus, with the
/// handler answering through `respond`, and returns what the publish answers.
fn publish_over_bus(
    bus: &mut MultiBus,
    ids: &mut PublishIds,
    src: &str,
    topic: &str,
    message: &str,
    respond: &dyn Fn(&Job) -> Result<String, String>,
) -> String {
    let reply = reply_address(src, ids.take());
    bus.initialize(reply.clone());
    assert!(send_publish(reply.clone(), topic.to_string(), message.to_string(), bus));
    let text = match bus.request_data(topic) {
        Request::Ready(Some(text)) => text,
        other => panic!("nothing to take: {:?}", other),
    };
    let job = decode_bus_message(&text).expect("an envelope");
    let outcome = respond(&job);
    match reply_action(topic, job, outcome) {
        ReplyAction::ToBus { from, to, data } => assert!(dispatch(from, to, data, bus)),
        other => panic!("unexpected action {:?}", other),
    }
    let response = match bus.request_data(&reply) {
        Request::Ready(r) => r,
        Request::Wait => None,
    };
    bus.remove(&reply);
    publish_result(response)
}

#[test]
fn test_shutdown() {
    let config = Config::new("abc".to_string());
    assert_eq!(authorize_request("/shutdown", Some(&config), Some("ab".to_string())), Ok(()));
    assert_eq!(shutdown_reply().body, "{\"status\":\"Shutting down\"}");
}

#[test]
fn test_communication_handlers() {
    let mut bus = create_bus();
    let mut ids = PublishIds::new();
    setup_publishing("my_handler".to_string(), &mut bus);
    setup_publishing("other_handler".to_string(), &mut bus);
    let config = Config::new("abc".to_string());
    assert_eq!(authorize_request("/my_handler", Some(&config), Some("abc".to_string())), Ok(()));

    for i in 0..10 {
        assert!(dispatch("not important".to_string(), "other_handler".to_string(), format!("Hello {}", i), &mut bus));
        let text = bus.get_one_request("other_handler").unwrap();
        let job = decode_bus_message(&text).unwrap();
        assert_eq!(reply_action("other_handler", job, Ok("Hi back".to_string())), ReplyAction::Nothing);
    }
    let raw = publish_over_bus(&mut bus, &mut ids, "my_handler", "other_handler", "Hello", &|_| Ok("Hi back".to_string()));
    let response = publish_response_data(&raw).unwrap();
    let answer = format!("Processed data with response: {}", response);
    let reply = handle_common_ending(TaskOutcome::Finished(Ok(answer)));
    assert_eq!(reply.body, r#"{"message":"Processed data with response: \"Hi back\"","status":"Ok"}"#);
    assert_eq!(bus.free_workers(), 10);
}

enum Stored {
    Int(i32),
    Double(f64),
    Text(String),
    Function(Box<dyn Fn(String) -> String>),
}

#[test]
fn test_shared_data() {
    let mut state: SharedState<Stored> = SharedState::new();
    state.insert(&"counter".to_string(), Stored::Int(42));
    state.insert(&"double".to_string(), Stored::Double(52.5));
    state.insert(&"string".to_string(), Stored::Text("Hello".to_string()));
    state.insert(&"sync_func".to_string(), Stored::Function(Box::new(|input: String| input + " pesto")));
    state.insert(&"async_func".to_string(), Stored::Function(Box::new(|_: String| "Done".to_string())));

    let mut bus = create_bus();
    let mut ids = PublishIds::new();
    setup_publishing("other_handler".to_string(), &mut bus);
    setup_publishing("my_handler".to_string(), &mut bus);
    let respond = |job: &Job| -> Result<String, String> {
        let counter = match state.get(&"counter".to_string()) { Some(Stored::Int(v)) => *v, _ => panic!("Invalid conversion") };
        let double = match state.get(&"double".to_string()) { Some(Stored::Double(v)) => *v, _ => panic!("Invalid conversion") };
        let string = match state.get(&"string".to_string()) { Some(Stored::Text(v)) => v.clone(), _ => panic!("Invalid conversion") };
        let sync_value = match state.get(&"sync_func".to_string()) { Some(Stored::Function(f)) => f(job.data.clone()), _ => panic!("Invalid conversion") };
        let async_value = match state.get(&"async_func".to_string()) { Some(Stored::Function(f)) => f(job.data.clone()), _ => panic!("Invalid conversion") };
        Ok(format!(
            "{{\"async_func\":\"{}\",\"counter\":{},\"double\":{},\"string\":\"{}\",\"sync_func\":\"{}\"}}",
            async_value, counter, double, string, sync_value
        ))
    };
    let raw = publish_over_bus(&mut bus, &mut ids, "my_handler", "other_handler", "Important stuff", &respond);
    let response = publish_response_data(&raw).unwrap();
    let reply = handle_common_ending(TaskOutcome::Finished(Ok(response)));
    assert_eq!(
        reply.body,
        r#"{"message":"\"{\\\"async_func\\\":\\\"Done\\\",\\\"counter\\\":42,\\\"double\\\":52.5,\\\"string\\\":\\\"Hello\\\",\\\"sync_func\\\":\\\"Important stuff pesto\\\"}\"","status":"Ok"}"#
    );
}

#[test]
fn test_invalid_api() {
    let config = Config::new("abc".to_string());
    let verdict = authorize_request("/my_handler", Some(&config), Some("ab".to_string()));
    assert_eq!(verdict.err().unwrap().to_string(), "Invalid API Key");
}

#[test]
fn test_metadata() {
    let reply = handle_file_ending(TaskOutcome::Finished(Ok("metadata".to_string())));
    assert_eq!(reply.body, r#"{"message":"metadata","status":"Ok"}"#);
}

#[test]
fn test_redis() {
    let plan = plan_publish_redis(
        Some("redis://127.0.0.1/".to_string()),
        "redis_one",
        "redis_two".to_string(),
        "Important stuff".to_string(),
        Some(5),
    );
    let request = match plan {
        RedisPublishPlan::Send { request, .. } => request,
        other => panic!("unexpected plan {:?}", other),
    };
    let job = job_from_redis(request.clone());
    let answer = match reply_action("redis_two", job, Ok("Hi from two".to_string())) {
        ReplyAction::ToRedis { channel, data } => {
            assert_eq!(channel, request.reply_channel);
            data
        }
        other => panic!("unexpected action {:?}", other),
    };
    let (_, inner): (String, RequestRedis) = plan_dispatch_redis(Some("redis://127.0.0.1/".to_string()), answer).unwrap();
    assert_eq!(inner.message, "Hi from two");
    assert_eq!(inner.reply_channel, "");
    assert!(!inner.id.is_empty(), "expected an id field");
}
