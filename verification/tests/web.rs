use manager_handlers::manager::Config;
use manager_handlers::routes::files::{
    approximate_size, handle_file_ending, process_download_reply, upload_timeout_reply,
    DownloadOutcome,
};
use manager_handlers::routes::general::{
    handle_common_ending, handler_not_found, shutdown_reply, status_message, unauthorized, HttpReply, TaskOutcome,
};
use manager_handlers::routes::middleware::authorize_request;
use manager_handlers::security::cert::{check_client_name, is_allowed};

const ED25519_CERT: [u8; 268] = [0x30,0x82,0x01,0x08,0x30,0x81,0xbb,0x02,0x14,0x77,0xe5,0xf4,0xc0,0x34,0x88,0xa1,0x22,0x6c,0xf5,0xcd,0x45,0xf3,0xcd,0xf0,0x49,0x91,0xf8,0x15,0x43,0x30,0x05,0x06,0x03,0x2b,0x65,0x70,0x30,0x27,0x31,0x0b,0x30,0x09,0x06,0x03,0x55,0x04,0x06,0x13,0x02,0x44,0x45,0x31,0x18,0x30,0x16,0x06,0x03,0x55,0x04,0x03,0x0c,0x0f,0x77,0x77,0x77,0x2e,0x65,0x78,0x61,0x6d,0x70,0x6c,0x65,0x2e,0x63,0x6f,0x6d,0x30,0x1e,0x17,0x0d,0x32,0x31,0x30,0x37,0x32,0x37,0x31,0x32,0x33,0x37,0x31,0x34,0x5a,0x17,0x0d,0x32,0x33,0x30,0x36,0x32,0x37,0x31,0x32,0x33,0x37,0x31,0x34,0x5a,0x30,0x27,0x31,0x0b,0x30,0x09,0x06,0x03,0x55,0x04,0x06,0x13,0x02,0x44,0x45,0x31,0x18,0x30,0x16,0x06,0x03,0x55,0x04,0x03,0x0c,0x0f,0x77,0x77,0x77,0x2e,0x65,0x78,0x61,0x6d,0x70,0x6c,0x65,0x2e,0x63,0x6f,0x6d,0x30,0x2a,0x30,0x05,0x06,0x03,0x2b,0x65,0x70,0x03,0x21,0x00,0x3e,0xa4,0x05,0xd2,0xef,0x19,0xf5,0xe0,0xab,0xf3,0x3e,0x4d,0xf5,0x4e,0xe5,0x1d,0x05,0x44,0x79,0x3d,0x98,0xe2,0x67,0x25,0x37,0xf4,0xff,0xca,0xf8,0x60,0x98,0x4c,0x30,0x05,0x06,0x03,0x2b,0x65,0x70,0x03,0x41,0x00,0x20,0xdb,0x7a,0xe6,0xfa,0xc2,0x88,0xe9,0x59,0xf4,0x6a,0xca,0xb2,0xd7,0x2c,0x48,0x0d,0x55,0xbc,0x0f,0x27,0x57,0x32,0x52,0x68,0x3f,0xe8,0x01,0xaa,0x9e,0x83,0xd2,0x23,0xc3,0xb4,0x8c,0x17,0x93,0x70,0x6b,0xde,0x0d,0xc4,0xaa,0x36,0x71,0xc8,0x83,0x83,0xb1,0xe4,0x1a,0x6e,0x52,0x8b,0xd6,0xbc,0x02,0xa6,0x26,0xea,0x8d,0xd5,0x02];

#[test]
fn unknown_route_is_unauthorized() {
    assert_eq!(
        unauthorized(),
        HttpReply { status: 401, body: r#"{"message":"Unauthorized: Access is denied"}"#.to_string() }
    );
}

#[test]
fn task_endings_become_replies() {
    assert_eq!(
        handle_common_ending(TaskOutcome::Finished(Ok("done".to_string()))),
        HttpReply { status: 200, body: r#"{"message":"done","status":"Ok"}"#.to_string() }
    );
    assert_eq!(
        handle_common_ending(TaskOutcome::Finished(Err("bad".to_string()))),
        HttpReply { status: 500, body: r#"{"message":"bad","status":"Error"}"#.to_string() }
    );
    assert_eq!(
        handle_common_ending(TaskOutcome::Crashed("task panicked".to_string())),
        HttpReply { status: 500, body: r#"{"message":"task panicked","status":"Error"}"#.to_string() }
    );
    assert_eq!(
        handle_common_ending(TaskOutcome::ShutDown),
        HttpReply { status: 500, body: r#"{"message":"Service closed forcefully","status":"Error"}"#.to_string() }
    );
}

#[test]
fn download_errors_are_sent_as_json_strings() {
    assert_eq!(process_download_reply(DownloadOutcome::Ready), None);
    assert_eq!(
        process_download_reply(DownloadOutcome::HandlerFailed("nope".to_string())),
        Some(HttpReply {
            status: 500,
            body: r#""{\"message\":\"nope\",\"status\":\"Error\"}""#.to_string()
        })
    );
    assert_eq!(process_download_reply(DownloadOutcome::Crashed("c".to_string())).unwrap().status, 400);
    assert_eq!(
        process_download_reply(DownloadOutcome::ShutDown),
        Some(HttpReply {
            status: 503,
            body: r#""{\"message\":\"Service closed forcefully\",\"status\":\"Error\"}""#.to_string()
        })
    );
}

#[test]
fn upload_needs_its_size_header() {
    assert_eq!(approximate_size(Some("1024")), Ok(1024));
    assert_eq!(approximate_size(Some("+7")), Ok(7));
    assert_eq!(
        approximate_size(None),
        Err(HttpReply {
            status: 400,
            body: r#"{"message":"Upload request requires the Approximate-Size header","status":"Error"}"#.to_string()
        })
    );
    assert_eq!(
        upload_timeout_reply(),
        HttpReply { status: 408, body: r#"{"message":"Stream read timed out","status":"Error"}"#.to_string() }
    );
}

#[test]
fn status_bodies_escape_their_message() {
    assert_eq!(status_message("Ok", "a\"b".to_string()), r#"{"message":"a\"b","status":"Ok"}"#);
}

#[test]
fn api_key_is_checked_except_for_shutdown() {
    let config = Config::new("abc".to_string());
    assert_eq!(authorize_request("/shutdown", Some(&config), None), Ok(()));
    assert_eq!(authorize_request("/my_handler", Some(&config), Some("abc".to_string())), Ok(()));
    assert_eq!(
        authorize_request("/my_handler", Some(&config), Some("ab".to_string())),
        Err("Invalid API Key".to_string())
    );
    assert_eq!(
        authorize_request("/my_handler", Some(&config), None),
        Err("Missing API Key".to_string())
    );
    assert_eq!(
        authorize_request("/my_handler", Some(&config), Some(String::new())),
        Err("Invalid API Key".to_string())
    );
    assert_eq!(authorize_request("/my_handler", None, None), Ok(()));
    assert_eq!(authorize_request("/my_handler", Some(&config), Some("Bearer abc".to_string())), Ok(()));
    assert_eq!(
        authorize_request("/my_handler", Some(&config), Some("Bearer ab".to_string())),
        Err("Invalid API Key".to_string())
    );
    let open = Config::new(String::new());
    assert_eq!(authorize_request("/my_handler", Some(&open), None), Ok(()));
}

#[test]
fn unknown_handler_is_not_found() {
    assert_eq!(
        handler_not_found("invalid_handler"),
        HttpReply {
            status: 404,
            body: r#"{"message":"Handler not found: invalid_handler","status":"error"}"#.to_string()
        }
    );
}

#[test]
fn file_routes_answer_shutdown_with_503() {
    assert_eq!(
        handle_file_ending(TaskOutcome::ShutDown),
        HttpReply { status: 503, body: r#"{"message":"Service closed forcefully","status":"Error"}"#.to_string() }
    );
    assert_eq!(
        handle_file_ending(TaskOutcome::Finished(Ok("metadata".to_string()))),
        HttpReply { status: 200, body: r#"{"message":"metadata","status":"Ok"}"#.to_string() }
    );
    assert_eq!(handle_file_ending(TaskOutcome::Finished(Err("e".to_string()))).status, 500);
}

#[test]
fn client_certificate_name_must_be_allowed() {
    let allowed = vec!["client1".to_string(), "www.example.com".to_string()];
    assert_eq!(check_client_name(&ED25519_CERT, &allowed), Ok(()));
    let others = vec!["client1".to_string()];
    assert_eq!(
        check_client_name(&ED25519_CERT, &others),
        Err("Invalid client certificate subject".to_string())
    );
    assert_eq!(
        check_client_name(&[1, 2, 3], &allowed),
        Err("Failed to parse client certificate".to_string())
    );
    assert!(is_allowed(&allowed, "client1"));
    assert!(!is_allowed(&allowed, "client2"));
}

#[test]
fn download_error_bodies_escape_quotes_backslashes_and_control_characters() {
    let reply = process_download_reply(DownloadOutcome::HandlerFailed("a\u{1}\tb\u{1f}".to_string())).unwrap();
    assert_eq!(reply.status, 500);
    assert_eq!(reply.body, r#""{\"message\":\"a\\u0001\\tb\\u001f\",\"status\":\"Error\"}""#);
}
