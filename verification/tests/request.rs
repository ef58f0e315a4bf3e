use godaddy_dns_updater::gd_api::{Credentials, Record};

fn home() -> Record {
    Record {
        kind: "A".to_string(),
        ip: "1.2.3.4".to_string(),
        domain: "example.com".to_string(),
        name: "home".to_string(),
        ttl: 600,
    }
}

fn credentials() -> Credentials {
    Credentials { api_key: "key".to_string(), secret: "hidden".to_string() }
}

#[test]
fn endpoint_names_domain_kind_and_name() {
    assert_eq!(home().endpoint(), "https://api.godaddy.com/v1/domains/example.com/records/A/home");
}

#[test]
fn endpoint_of_an_empty_record() {
    let record = Record {
        kind: String::new(),
        ip: String::new(),
        domain: String::new(),
        name: String::new(),
        ttl: 0,
    };
    assert_eq!(record.endpoint(), "https://api.godaddy.com/v1/domains//records//");
}

#[test]
fn authorization_joins_key_and_secret() {
    assert_eq!(credentials().authorization(), "sso-key key:hidden");
    let empty = Credentials { api_key: String::new(), secret: String::new() };
    assert_eq!(empty.authorization(), "sso-key :");
}

#[test]
fn payload_is_the_compact_object() {
    assert_eq!(home().payload(), "{\"data\":\"1.2.3.4\",\"name\":\"home\",\"ttl\":600,\"type\":\"A\"}");
}

#[test]
fn payload_escapes_what_json_escapes() {
    let mut record = home();
    record.name = "ho\"me\\\n".to_string();
    record.ttl = u64::MAX;
    assert_eq!(
        record.payload(),
        "{\"data\":\"1.2.3.4\",\"name\":\"ho\\\"me\\\\\\n\",\"ttl\":18446744073709551615,\"type\":\"A\"}"
    );
}

#[test]
fn request_holds_url_headers_and_body() {
    let request = home().request(&credentials());
    assert_eq!(request.url, "https://api.godaddy.com/v1/domains/example.com/records/A/home");
    assert_eq!(request.authorization, "sso-key key:hidden");
    assert_eq!(request.content_type, "application/json");
    assert_eq!(request.body, "{\"data\":\"1.2.3.4\",\"name\":\"home\",\"ttl\":600,\"type\":\"A\"}");
    assert_eq!(request.content_length, 53);
}

#[test]
fn content_length_counts_bytes() {
    let mut record = home();
    record.name = "h\u{f6}me".to_string();
    let request = record.request(&credentials());
    assert_eq!(request.body, "{\"data\":\"1.2.3.4\",\"name\":\"h\u{f6}me\",\"ttl\":600,\"type\":\"A\"}");
    assert_eq!(request.content_length, 54);
    assert_eq!(request.content_length, request.body.len());
}
