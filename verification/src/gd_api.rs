//! The DNS record that is kept up to date: its fingerprint, and the request
//! that sets it at the registrar.

use crate::json;
use crate::json::{json_text, Json, Members};
use std::collections::hash_map::DefaultHasher;
use std::hash::{Hash, Hasher};
use vstd::prelude::*;
use vstd::std_specs::hash::DefaultHasherAdditionalSpecFns;
use vstd::utf8::encode_utf8;

verus! {

/// The key pair that the registrar's API asks for.
#[derive(Debug, Clone, PartialEq, Eq)]
pub struct Credentials {
    pub api_key: String,
    pub secret: String,
}

/// The state that a DNS record should have.
///
/// `kind`, `domain` and `name` say which record it is; `ip` and `ttl` are what
/// it holds.
#[derive(Debug, Clone, PartialEq, Eq)]
pub struct Record {
    pub kind: String,
    pub ip: String,
    pub domain: String,
    pub name: String,
    pub ttl: u64,
}

/// The request that sets a record at the registrar: an HTTP `PUT` to `url`
/// with these three headers and this body.
#[derive(Debug, Clone, PartialEq, Eq)]
pub struct Request {
    pub url: String,
    pub authorization: String,
    pub content_type: String,
    pub content_length: usize,
    pub body: String,
}

/// A record as a mathematical value.
pub struct RecordView {
    pub kind: Seq<char>,
    pub ip: Seq<char>,
    pub domain: Seq<char>,
    pub name: Seq<char>,
    pub ttl: u64,
}

/// A request as a mathematical value.
pub struct RequestView {
    pub url: Seq<char>,
    pub authorization: Seq<char>,
    pub content_type: Seq<char>,
    pub content_length: usize,
    pub body: Seq<char>,
}

impl View for Record {
    type V = RecordView;

    open spec fn view(&self) -> RecordView {
        RecordView {
            kind: self.kind@,
            ip: self.ip@,
            domain: self.domain@,
            name: self.name@,
            ttl: self.ttl,
        }
    }
}

impl View for Request {
    type V = RequestView;

    open spec fn view(&self) -> RequestView {
        RequestView {
            url: self.url@,
            authorization: self.authorization@,
            content_type: self.content_type@,
            content_length: self.content_length,
            body: self.body@,
        }
    }
}

/// What `Hash::hash_slice` feeds a hasher for the three strings of a record's
/// identity, in the order kind, domain, name.
pub uninterp spec fn identity_writes(kind: Seq<char>, domain: Seq<char>, name: Seq<char>) -> Seq<
    Seq<u8>,
>;

/// The fingerprint of a record's identity: the digest of a `DefaultHasher`
/// that was made by `DefaultHasher::new` and fed the identity, nothing else.
pub open spec fn fingerprint(kind: Seq<char>, domain: Seq<char>, name: Seq<char>) -> u64 {
    DefaultHasher::spec_finish(Seq::<Seq<u8>>::empty() + identity_writes(kind, domain, name))
}

/// The value of the `Authorization` header for a key and its secret.
pub open spec fn authorization_of(api_key: Seq<char>, secret: Seq<char>) -> Seq<char> {
    "sso-key "@ + api_key + ":"@ + secret
}

impl RecordView {
    /// The fingerprint of the record's identity.
    pub open spec fn fingerprint(self) -> u64 {
        fingerprint(self.kind, self.domain, self.name)
    }

    /// Whether two records are one and the same record, whatever each holds.
    pub open spec fn same_identity(self, other: RecordView) -> bool {
        &&& self.kind == other.kind
        &&& self.domain == other.domain
        &&& self.name == other.name
    }

    /// The address of the record at the registrar's API.
    pub open spec fn endpoint(self) -> Seq<char> {
        "https://api.godaddy.com/v1/domains/"@ + self.domain + "/records/"@ + self.kind + "/"@
            + self.name
    }

    /// The JSON object that tells the registrar what the record holds.
    pub open spec fn payload(self) -> Json {
        Json::Object(
            Members::empty().insert("data"@, Json::Text(self.ip)).insert(
                "name"@,
                Json::Text(self.name),
            ).insert("ttl"@, Json::Unsigned(self.ttl)).insert("type"@, Json::Text(self.kind)),
        )
    }

    /// The request that sets the record, made with a key and its secret.
    pub open spec fn request(self, api_key: Seq<char>, secret: Seq<char>) -> RequestView {
        RequestView {
            url: self.endpoint(),
            authorization: authorization_of(api_key, secret),
            content_type: "application/json"@,
            content_length: encode_utf8(json_text(self.payload())).len() as usize,
            body: json_text(self.payload()),
        }
    }
}

/// Calls `Hash::hash_slice` on the strings `[kind, domain, name]`.
///
/// Trusted: what the call feeds the hasher depends on the three strings alone,
/// and comes after what the hasher was fed before.
#[verifier::external_body]
fn hash_identity(kind: &str, domain: &str, name: &str, state: &mut DefaultHasher)
    ensures
        final(state)@ == old(state)@ + identity_writes(kind@, domain@, name@),
{
    Hash::hash_slice(&[kind, domain, name], state)
}

impl Credentials {
    /// The value of the `Authorization` header: the scheme `sso-key`, then the
    /// key and the secret with a colon between them.
    pub fn authorization(&self) -> (header: String)
        ensures
            header@ == authorization_of(self.api_key@, self.secret@),
    {
        let mut header = String::from_str("sso-key ");
        header.append(self.api_key.as_str());
        header.append(":");
        header.append(self.secret.as_str());
        header
    }
}

impl Record {
    /// The fingerprint of the record's identity. `ip` and `ttl` have no part
    /// in it.
    pub fn hash(&self) -> (digest: u64)
        ensures
            digest == self@.fingerprint(),
    {
        let mut hasher = DefaultHasher::new();
        hash_identity(self.kind.as_str(), self.domain.as_str(), self.name.as_str(), &mut hasher);
        hasher.finish()
    }

    /// The address of the record at the registrar's API.
    pub fn endpoint(&self) -> (url: String)
        ensures
            url@ == self@.endpoint(),
    {
        let mut url = String::from_str("https://api.godaddy.com/v1/domains/");
        url.append(self.domain.as_str());
        url.append("/records/");
        url.append(self.kind.as_str());
        url.append("/");
        url.append(self.name.as_str());
        url
    }

    /// The body of the request: a JSON object with the members `data`, `name`,
    /// `ttl` and `type`, printed by `serde_json`.
    pub fn payload(&self) -> (body: String)
        ensures
            body@ == json_text(self@.payload()),
    {
        let mut members = json::no_members();
        json::put(&mut members, "data", json::text(self.ip.as_str()));
        json::put(&mut members, "name", json::text(self.name.as_str()));
        json::put(&mut members, "ttl", json::unsigned(self.ttl));
        json::put(&mut members, "type", json::text(self.kind.as_str()));
        let value = json::object(members);
        json::print(&value)
    }

    /// The request that sets the record at the registrar.
    pub fn request(&self, credentials: &Credentials) -> (request: Request)
        ensures
            request@ == self@.request(credentials.api_key@, credentials.secret@),
    {
        let body = self.payload();
        Request {
            url: self.endpoint(),
            authorization: credentials.authorization(),
            content_type: String::from_str("application/json"),
            content_length: body.as_str().len(),
            body,
        }
    }
}

/// The fingerprint depends on the identity alone: two records that are one
/// and the same record have one fingerprint, whatever `ip` and `ttl` each
/// holds, and however often it is taken.
pub proof fn fingerprint_ignores_value(first: RecordView, second: RecordView)
    requires
        first.same_identity(second),
    ensures
        first.fingerprint() == second.fingerprint(),
{
}

} // verus!
