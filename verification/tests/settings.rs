use manager_handlers::manager::{Manager, ServerPlan, TlsPlan, DEFAULT_KEEP_ALIVE_SECS};
use manager_handlers::states::SharedState;
use manager_handlers::text::{decimal_text, parse_usize_decimal, same_text};

#[test]
fn default_manager() {
    let m = Manager::new_default();
    assert_eq!(m.nr_requests, 1);
    assert_eq!(m.api_key, "");
    assert!(m.cert_path.is_none() && m.key_path.is_none() && m.ca_path.is_none());
    assert!(m.allowed_names.is_none() && m.keep_alive.is_none() && m.redis_url.is_none());
    assert!(!m.activate_debug && !m.ignore_server_init);
    assert!(!m.has_handler("x"));
}

#[test]
fn builders_set_one_setting_each() {
    let mut m = Manager::new_default();
    m.with_api_key("abc".to_string());
    m.with_max_requests(20);
    m.with_keep_alive(Some(30));
    m.with_activate_debug(true);
    m.with_redis_url("redis://127.0.0.1/".to_string());
    m.with_allowed_names(Some(vec!["c".to_string()]));
    m.with_tls(Some("cert.pem".to_string()), Some("key.pem".to_string()), None);
    m.with_ignore_server_init(true);
    assert_eq!(m.api_key, "abc");
    assert_eq!(m.nr_requests, 20);
    assert_eq!(m.keep_alive, Some(30));
    assert!(m.activate_debug);
    assert_eq!(m.redis_url, Some("redis://127.0.0.1/".to_string()));
    assert_eq!(m.allowed_names, Some(vec!["c".to_string()]));
    assert_eq!(m.cert_path, Some("cert.pem".to_string()));
    assert!(m.ignore_server_init);
    assert_eq!(m.server_plan(), None);
}

#[test]
fn handlers_register_with_their_replicas() {
    let mut m = Manager::new_default();
    m.add_handler("my_handler", 1);
    m.add_handler("other_handler", 5);
    assert!(m.has_handler("my_handler"));
    assert_eq!(m.replicas_of("other_handler"), Some(5));
    assert_eq!(m.replicas_of("nobody"), None);
}

#[test]
fn server_plan_defaults() {
    let m = Manager::new_default();
    assert_eq!(
        m.server_plan(),
        Some(ServerPlan {
            tls: TlsPlan::Plain,
            keep_alive_secs: DEFAULT_KEEP_ALIVE_SECS,
            log_level: "info".to_string(),
            max_requests: 1,
            api_key: String::new(),
            redis_url: String::new(),
        })
    );
    assert_eq!(DEFAULT_KEEP_ALIVE_SECS, 5);
}

#[test]
fn server_plan_tls_choices() {
    let mut m = Manager::new_default();
    m.with_tls(Some("c".to_string()), None, Some("ca".to_string()));
    assert_eq!(m.server_plan().unwrap().tls, TlsPlan::Plain);
    m.with_tls(Some("c".to_string()), Some("k".to_string()), None);
    assert_eq!(
        m.server_plan().unwrap().tls,
        TlsPlan::ServerOnly { cert_path: "c".to_string(), key_path: "k".to_string() }
    );
    m.with_tls(Some("c".to_string()), Some("k".to_string()), Some("ca".to_string()));
    m.with_allowed_names(Some(vec!["client1".to_string()]));
    m.with_activate_debug(true);
    m.with_redis_url("redis://r/".to_string());
    let plan = m.server_plan().unwrap();
    assert_eq!(
        plan.tls,
        TlsPlan::ClientAuth {
            cert_path: "c".to_string(),
            key_path: "k".to_string(),
            ca_path: "ca".to_string(),
            allowed_names: Some(vec!["client1".to_string()]),
        }
    );
    assert_eq!(plan.log_level, "debug");
    assert_eq!(plan.redis_url, "redis://r/");
}

#[test]
fn shared_state_reads_back_what_was_written() {
    let mut s: SharedState<i64> = SharedState::new();
    let counter = "counter".to_string();
    let other = "other".to_string();
    assert_eq!(s.get(&counter), None);
    s.insert(&counter, 42);
    s.insert(&other, 7);
    assert_eq!(s.get(&counter), Some(&42));
    s.insert(&counter, 43);
    assert_eq!(s.get(&counter), Some(&43));
    s.delete(&counter);
    assert_eq!(s.get(&counter), None);
    assert_eq!(s.get(&other), Some(&7));
}

#[test]
fn decimal_numerals() {
    assert_eq!(decimal_text(0), "0");
    assert_eq!(decimal_text(7), "7");
    assert_eq!(decimal_text(10), "10");
    assert_eq!(decimal_text(3571822), "3571822");
    assert_eq!(decimal_text(u32::MAX), "4294967295");
}

#[test]
fn usize_parsing_follows_std() {
    for s in ["0", "42", "+42", "007", "", "+", "-1", "1a", " 1", "18446744073709551615", "18446744073709551616", "99999999999999999999"] {
        assert_eq!(parse_usize_decimal(s), s.parse::<usize>().ok(), "on {:?}", s);
    }
}

#[test]
fn text_equality() {
    assert!(same_text("abc", "abc"));
    assert!(!same_text("abc", "ab"));
}
