use healthcheck::config::{
    CheckType, Config, ConfigError, Service, ServiceCertificate, ServiceHttp, ServiceTcpPing, State,
};
use healthcheck::registry::{Entry, Registry};
use healthcheck::text::{byte_rank, concat2, concat3, decimal_string, str_eq, Rank};

fn service(name: &str, enabled: bool) -> Service {
    Service {
        enabled,
        name: name.to_string(),
        description: String::new(),
        check_interval_success: None,
        check_interval_fail: None,
        notify_failures: None,
        rereport: None,
        check: CheckType::Http(ServiceHttp { url: "http://x.test/".to_string(), expected_status: None }),
    }
}

fn config(services: Registry<Service>) -> Config {
    Config {
        telegram_token: "token".to_string(),
        telegram_chat_id: -100,
        check_interval_success: 60_000,
        check_interval_fail: 5_000,
        notify_failures: 3,
        rereport: 5,
        services,
        web_port: None,
        api_bearer_token: Some("secret".to_string()),
    }
}

fn two_services() -> Registry<Service> {
    let mut table = Registry::new();
    table.insert("a".to_string(), service("Alpha", true));
    table.insert("b".to_string(), service("Beta", false));
    table
}

#[test]
fn default_state_is_unknown() {
    assert_eq!(State::default(), State::Unknown);
}

#[test]
fn clones_equal_what_they_were_made_from() {
    let failure = State::Failure("down".to_string());
    assert_eq!(failure.clone(), failure);
    assert_eq!(State::Success.clone(), State::Success);
    let mut s = service("Alpha", true);
    s.rereport = Some(4);
    s.check = CheckType::Certificate(ServiceCertificate {
        host: "h".to_string(),
        port: 443,
        days_before_expiry: Some(14),
    });
    assert_eq!(s.clone(), s);
    let mut t = service("Tcp", false);
    t.check = CheckType::TcpPing(ServiceTcpPing { host: "h".to_string(), port: 1, timeout_ms: Some(5) });
    assert_eq!(t.clone(), t);
    let c = config(two_services());
    assert_eq!(c.clone(), c);
}

#[test]
fn valid_configuration_passes() {
    assert_eq!(config(two_services()).validate(), Ok(()));
    assert_eq!(config(Registry::new()).validate(), Ok(()));
}

#[test]
fn zero_default_rereport_is_refused() {
    let mut c = config(two_services());
    c.rereport = 0;
    assert_eq!(c.validate(), Err(ConfigError::ZeroRereport));
}

#[test]
fn zero_rereport_of_a_service_is_refused() {
    let mut table = two_services();
    let mut bad = service("Gamma", false);
    bad.rereport = Some(0);
    table.insert("c".to_string(), bad);
    assert_eq!(config(table).validate(), Err(ConfigError::ServiceZeroRereport));
}

#[test]
fn identifier_used_twice_is_refused() {
    let mut table = two_services();
    table.entries.push(Entry { id: "a".to_string(), value: service("Again", true) });
    assert_eq!(config(table).validate(), Err(ConfigError::DuplicateService));
}

#[test]
fn first_fault_is_reported() {
    let mut table = two_services();
    let mut bad = service("Gamma", true);
    bad.rereport = Some(0);
    table.insert("c".to_string(), bad);
    table.entries.push(Entry { id: "c".to_string(), value: service("Again", true) });
    let mut c = config(table);
    assert_eq!(c.validate(), Err(ConfigError::DuplicateService));
    c.rereport = 0;
    assert_eq!(c.validate(), Err(ConfigError::ZeroRereport));
}

#[test]
fn errors_have_words() {
    assert_eq!(ConfigError::ZeroRereport.message(), "rereport must be greater than zero");
    assert_eq!(ConfigError::DuplicateService.message(), "two services share one identifier");
    assert_eq!(
        ConfigError::ServiceZeroRereport.message(),
        "rereport of a service must be greater than zero"
    );
}

#[test]
fn services_are_found_by_identifier() {
    let c = config(two_services());
    assert_eq!(c.service("a"), Some(&service("Alpha", true)));
    assert_eq!(c.service("b"), Some(&service("Beta", false)));
    assert_eq!(c.service("A"), None);
    assert_eq!(c.service(""), None);
    assert_eq!(c.service("ab"), None);
}

#[test]
fn registry_insert_replaces_the_value_under_a_known_identifier() {
    let mut table = two_services();
    assert_eq!(table.len(), 2);
    table.insert("a".to_string(), service("Other", false));
    assert_eq!(table.len(), 2);
    assert_eq!(table.get("a"), Some(&service("Other", false)));
    assert_eq!(table.get("b"), Some(&service("Beta", false)));
    assert_eq!(table.position("a"), Some(0));
    assert_eq!(table.position("b"), Some(1));
    assert_eq!(table.position("c"), None);
    assert!(table.contains("b"));
    assert!(!table.contains("c"));
    assert!(table.is_wf());
}

#[test]
fn registry_notices_an_identifier_stored_twice() {
    let mut table: Registry<u8> = Registry::new();
    assert!(table.is_wf());
    table.entries.push(Entry { id: "x".to_string(), value: 1 });
    table.entries.push(Entry { id: "y".to_string(), value: 2 });
    assert!(table.is_wf());
    table.entries.push(Entry { id: "x".to_string(), value: 3 });
    assert!(!table.is_wf());
}

#[test]
fn decimal_string_writes_numbers_in_full() {
    assert_eq!(decimal_string(0), "0");
    assert_eq!(decimal_string(7), "7");
    assert_eq!(decimal_string(10), "10");
    assert_eq!(decimal_string(503), "503");
    assert_eq!(decimal_string(1000), "1000");
    assert_eq!(decimal_string(9_876_543_210), "9876543210");
    assert_eq!(decimal_string(u64::MAX), "18446744073709551615");
}

#[test]
fn texts_are_joined_in_order() {
    assert_eq!(concat2("ab", "cd"), "abcd");
    assert_eq!(concat2("", ""), "");
    assert_eq!(concat3("a", "", "ç"), "aç");
}

#[test]
fn str_eq_compares_whole_texts() {
    assert!(str_eq("", ""));
    assert!(str_eq("Bearer ", "Bearer "));
    assert!(str_eq("héllo", "héllo"));
    assert!(!str_eq("a", "b"));
    assert!(!str_eq("a", "ab"));
    assert!(!str_eq("ab", "a"));
    assert!(!str_eq("A", "a"));
}

#[test]
fn byte_rank_orders_like_a_dictionary() {
    assert_eq!(byte_rank(b"", b""), Rank::Same);
    assert_eq!(byte_rank(b"", b"a"), Rank::Before);
    assert_eq!(byte_rank(b"a", b""), Rank::After);
    assert_eq!(byte_rank(b"abc", b"abd"), Rank::Before);
    assert_eq!(byte_rank(b"abd", b"abc"), Rank::After);
    assert_eq!(byte_rank(b"ab", b"abc"), Rank::Before);
    assert_eq!(byte_rank(b"b", b"abc"), Rank::After);
    assert_eq!(byte_rank(b"abc", b"abc"), Rank::Same);
    assert_eq!(byte_rank(&[255], &[0, 0]), Rank::After);
}
