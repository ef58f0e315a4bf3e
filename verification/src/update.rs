//! One run of the updater: whether the registrar has to be called, with what,
//! and what the cache records afterwards.
//!
//! The registrar is called only for a record or an address that differs from
//! what the cache holds, and the cache takes the new state only once the call
//! has gone through. A call that failed leaves the cache as it was, so the
//! next run tries again.

use crate::cache::{
    after_read, after_write, read_result, Cache, CacheContent, CacheContentView, CacheError,
};
use crate::gd_api::{Credentials, Record, RecordView, Request, RequestView};
use vstd::prelude::*;

verus! {

/// What a run does next.
#[derive(Debug, Clone, PartialEq, Eq)]
pub enum Plan {
    /// The cache holds this record with this address: nothing is sent and the
    /// cache is not written.
    Unchanged,
    /// The registrar is to be sent `request`; once that has gone through, the
    /// cache is to record `next`.
    Update { request: Request, next: CacheContent },
}

/// A `Plan` as a mathematical value.
pub enum PlanView {
    Unchanged,
    Update { request: RequestView, next: CacheContentView },
}

impl View for Plan {
    type V = PlanView;

    open spec fn view(&self) -> PlanView {
        match self {
            Plan::Unchanged => PlanView::Unchanged,
            Plan::Update { request, next } => PlanView::Update { request: request@, next: next@ },
        }
    }
}

/// The rule of the cache: an update is needed unless the fingerprint and the
/// address are both the cached ones.
pub open spec fn update_needed(fingerprint: u64, ip: Seq<char>, cached: CacheContentView) -> bool {
    !(fingerprint == cached.hash && ip == cached.last_ip)
}

/// What the cache records once `record` has been applied.
pub open spec fn applied(record: RecordView) -> CacheContentView {
    CacheContentView { hash: record.fingerprint(), last_ip: record.ip }
}

/// What a run does for `record` when the cache holds `cached`.
pub open spec fn planned(
    record: RecordView,
    api_key: Seq<char>,
    secret: Seq<char>,
    cached: CacheContentView,
) -> PlanView {
    if update_needed(record.fingerprint(), record.ip, cached) {
        PlanView::Update { request: record.request(api_key, secret), next: applied(record) }
    } else {
        PlanView::Unchanged
    }
}

/// Whether the registrar has to be called: `false` only if `fingerprint` and
/// `ip` are both what the cache holds.
pub fn needs_update(fingerprint: u64, ip: &String, cached: &CacheContent) -> (needed: bool)
    ensures
        needed == update_needed(fingerprint, ip@, cached@),
{
    !(fingerprint == cached.hash && *ip == cached.last_ip)
}

/// Decides what to do for `record` against the content of the cache.
pub fn plan(record: &Record, credentials: &Credentials, cached: &CacheContent) -> (plan: Plan)
    ensures
        plan@ == planned(record@, credentials.api_key@, credentials.secret@, cached@),
{
    let fingerprint = record.hash();
    if needs_update(fingerprint, &record.ip, cached) {
        Plan::Update {
            request: record.request(credentials),
            next: CacheContent { hash: fingerprint, last_ip: record.ip.clone() },
        }
    } else {
        Plan::Unchanged
    }
}

/// Starts a run: reads the cache and decides what to do for `record`. A cache
/// that cannot be read ends the run with its error, and nothing is planned.
pub fn begin(cache: &mut Cache, record: &Record, credentials: &Credentials) -> (step: Result<
    Plan,
    CacheError,
>)
    ensures
        final(cache).path == old(cache).path,
        final(cache).image() == after_read(old(cache).image()),
        match step {
            Ok(plan) => read_result(old(cache).image()) matches Ok(cached) && plan@ == planned(
                record@,
                credentials.api_key@,
                credentials.secret@,
                cached,
            ),
            Err(error) => read_result(old(cache).image()) == Err::<CacheContentView, CacheError>(
                error,
            ),
        },
{
    match cache.read() {
        Ok(cached) => Ok(plan(record, credentials, &cached)),
        Err(error) => Err(error),
    }
}

/// Ends a run in which the registrar was called: the cache records `next` if
/// the call went through, and stays as it was if it failed.
pub fn settle(cache: &mut Cache, next: CacheContent, succeeded: bool)
    ensures
        final(cache).path == old(cache).path,
        final(cache).image() == if succeeded {
            after_write(old(cache).image(), next@)
        } else {
            old(cache).image()
        },
{
    if succeeded {
        cache.write(next);
    }
}

/// The decision over the four cases of "the fingerprint is the cached one" and
/// "the address is the cached one": no update in the case that both are, an
/// update in the other three.
pub proof fn decision_table(fingerprint: u64, ip: Seq<char>, cached: CacheContentView)
    ensures
        !update_needed(fingerprint, ip, cached) <==> (fingerprint == cached.hash && ip
            == cached.last_ip),
        fingerprint == cached.hash && ip == cached.last_ip ==> !update_needed(
            fingerprint,
            ip,
            cached,
        ),
        fingerprint == cached.hash && ip != cached.last_ip ==> update_needed(
            fingerprint,
            ip,
            cached,
        ),
        fingerprint != cached.hash && ip == cached.last_ip ==> update_needed(
            fingerprint,
            ip,
            cached,
        ),
        fingerprint != cached.hash && ip != cached.last_ip ==> update_needed(
            fingerprint,
            ip,
            cached,
        ),
{
}

/// Against a cache in which nothing is recorded, every record with an address
/// needs an update, and so does every record whose fingerprint is not zero.
/// What the update records is the record's fingerprint with its address.
pub proof fn first_run_updates(record: RecordView, api_key: Seq<char>, secret: Seq<char>)
    requires
        record.ip.len() > 0 || record.fingerprint() != 0,
    ensures
        planned(record, api_key, secret, CacheContentView::blank()) == (PlanView::Update {
            request: record.request(api_key, secret),
            next: applied(record),
        }),
{
}

/// Once an update has been recorded, a run for the same record with the same
/// address plans nothing, whatever else the two records hold.
pub proof fn applied_update_is_not_repeated(
    before: RecordView,
    after: RecordView,
    api_key: Seq<char>,
    secret: Seq<char>,
)
    requires
        before.same_identity(after),
        before.ip == after.ip,
    ensures
        planned(after, api_key, secret, applied(before)) == PlanView::Unchanged,
{
}

/// A changed address needs an update, and the update keeps the fingerprint of
/// a record whose identity has not changed.
pub proof fn changed_address_updates(
    before: RecordView,
    after: RecordView,
    api_key: Seq<char>,
    secret: Seq<char>,
)
    requires
        before.same_identity(after),
        before.ip != after.ip,
    ensures
        planned(after, api_key, secret, applied(before)) == (PlanView::Update {
            request: after.request(api_key, secret),
            next: applied(after),
        }),
        applied(after).hash == applied(before).hash,
        applied(after).last_ip == after.ip,
{
}

/// A record whose fingerprint is not the cached one needs an update, whether
/// or not the address has changed.
pub proof fn changed_fingerprint_updates(
    record: RecordView,
    api_key: Seq<char>,
    secret: Seq<char>,
    cached: CacheContentView,
)
    requires
        record.fingerprint() != cached.hash,
    ensures
        planned(record, api_key, secret, cached) == (PlanView::Update {
            request: record.request(api_key, secret),
            next: applied(record),
        }),
{
}

} // verus!
