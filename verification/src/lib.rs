//! Keeps one DNS record at a registrar in step with an IP address: the record's
//! fingerprint, the cache of what was last applied, and the rule that decides
//! whether the registrar has to be called at all.

pub mod cache;
pub mod gd_api;
pub mod ip;
pub mod json;
pub mod update;
