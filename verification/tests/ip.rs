use godaddy_dns_updater::ip::{from_member, lookup_url, origin_of, IpError};

#[test]
fn lookup_url_is_the_service() {
    assert_eq!(lookup_url(), "http://httpbin.org/ip");
}

#[test]
fn origin_is_read_from_the_answer() {
    assert_eq!(origin_of("{\n  \"origin\": \"203.0.113.7\"\n}\n"), Ok("203.0.113.7".to_string()));
    assert_eq!(origin_of("{\"origin\":\"\",\"more\":1}"), Ok(String::new()));
}

#[test]
fn answer_that_is_not_json_gives_no_address() {
    assert_eq!(origin_of(""), Err(IpError::NotJson));
    assert_eq!(origin_of("<html></html>"), Err(IpError::NotJson));
}

#[test]
fn answer_without_a_string_origin_gives_no_address() {
    assert_eq!(origin_of("{}"), Err(IpError::NoOrigin));
    assert_eq!(origin_of("{\"origin\":7}"), Err(IpError::NoOrigin));
    assert_eq!(origin_of("{\"ip\":\"203.0.113.7\"}"), Err(IpError::NoOrigin));
    assert_eq!(origin_of("\"203.0.113.7\""), Err(IpError::NoOrigin));
}

#[test]
fn from_member_takes_the_address_or_fails() {
    assert_eq!(from_member(Some("203.0.113.7".to_string())), Ok("203.0.113.7".to_string()));
    assert_eq!(from_member(None), Err(IpError::NoOrigin));
}
