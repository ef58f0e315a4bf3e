use godaddy_dns_updater::gd_api::Record;
use std::collections::hash_map::DefaultHasher;
use std::hash::Hasher;

fn record(kind: &str, domain: &str, name: &str, ip: &str, ttl: u64) -> Record {
    Record {
        kind: kind.to_string(),
        ip: ip.to_string(),
        domain: domain.to_string(),
        name: name.to_string(),
        ttl,
    }
}

#[test]
fn fingerprint_is_the_same_on_every_call() {
    let home = record("A", "example.com", "home", "1.2.3.4", 600);
    assert_eq!(home.hash(), home.hash());
    assert_eq!(home.hash(), home.clone().hash());
}

#[test]
fn fingerprint_has_its_known_values() {
    assert_eq!(record("A", "example.com", "home", "1.2.3.4", 600).hash(), 9907924784220870877);
    assert_eq!(record("A", "example.com", "office", "1.2.3.4", 600).hash(), 657913901022039773);
    assert_eq!(record("CNAME", "example.com", "home", "1.2.3.4", 600).hash(), 4359251451598604210);
    assert_eq!(record("A", "example.org", "home", "1.2.3.4", 600).hash(), 7735055352726105727);
    assert_eq!(record("", "", "", "", 0).hash(), 2545130394888487330);
}

#[test]
fn fingerprint_is_what_a_fresh_hasher_gives_for_the_identity() {
    let mut hasher = DefaultHasher::new();
    for part in ["A", "example.com", "home"] {
        hasher.write(part.as_bytes());
        hasher.write_u8(0xff);
    }
    assert_eq!(record("A", "example.com", "home", "1.2.3.4", 600).hash(), hasher.finish());
}

#[test]
fn fingerprint_ignores_ip_and_ttl() {
    let base = record("A", "example.com", "home", "1.2.3.4", 600);
    assert_eq!(base.hash(), record("A", "example.com", "home", "5.6.7.8", 600).hash());
    assert_eq!(base.hash(), record("A", "example.com", "home", "1.2.3.4", 3600).hash());
    assert_eq!(base.hash(), record("A", "example.com", "home", "", 0).hash());
}

#[test]
fn fingerprint_changes_with_each_identity_field() {
    let base = record("A", "example.com", "home", "1.2.3.4", 600).hash();
    assert_ne!(base, record("AAAA", "example.com", "home", "1.2.3.4", 600).hash());
    assert_ne!(base, record("A", "example.org", "home", "1.2.3.4", 600).hash());
    assert_ne!(base, record("A", "example.com", "office", "1.2.3.4", 600).hash());
}

#[test]
fn fingerprint_depends_on_the_order_of_the_fields() {
    let one = record("home", "example.com", "A", "1.2.3.4", 600).hash();
    let other = record("A", "example.com", "home", "1.2.3.4", 600).hash();
    assert_ne!(one, other);
    let swapped = record("A", "home", "example.com", "1.2.3.4", 600).hash();
    assert_ne!(other, swapped);
}

#[test]
fn fingerprint_keeps_the_fields_apart() {
    let one = record("A", "ab", "c", "1.2.3.4", 600).hash();
    let other = record("A", "a", "bc", "1.2.3.4", 600).hash();
    assert_ne!(one, other);
}
