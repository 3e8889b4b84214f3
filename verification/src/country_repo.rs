//! The currency resolver: maps a country name to its currency code,
//! consulting and populating the shared cache.
//!
//! Resolution has two verified steps around one upstream call. The server
//! first asks `resolve_begin` whether the (trimmed) name is already cached;
//! only on a miss does it issue the country lookup, and it then hands
//! whatever happened to `resolve_finish`, which applies the response
//! policy and caches a successful resolution.

use crate::cache::CurrencyCache;
use crate::error::AppError;
use crate::error::ErrorKind;
use crate::models::Country;
use crate::text::trim;
use crate::text::trimmed;
use vstd::prelude::*;
use vstd::string::StringExecFns;

verus! {

/// Whether resolving `name` against `cache` must go upstream: the trimmed
/// name is non-empty and has no cache entry.
pub open spec fn lookup_needed(cache: Map<Seq<char>, Seq<char>>, name: Seq<char>) -> bool {
    trimmed(name).len() > 0 && !cache.contains_key(trimmed(name))
}

/// The outcome of the validation and cache-check step.
#[derive(Debug, PartialEq)]
pub enum ResolveStart {
    /// The cache held a code for the trimmed name: resolution is complete
    /// and upstream is not consulted.
    Cached { code: String },
    /// The trimmed name must be looked up upstream.
    Lookup { name: String },
    /// The input was rejected before any network call.
    Invalid { error: AppError },
}

/// Validates `name` and consults the cache; no side effect.
pub fn resolve_begin(cache: &CurrencyCache, name: &str) -> (r: ResolveStart)
    requires
        cache.wf(),
    ensures
        match r {
            ResolveStart::Cached { code } => {
                &&& !lookup_needed(cache@, name@)
                &&& cache@.contains_key(trimmed(name@))
                &&& code@ == cache@[trimmed(name@)]
            },
            ResolveStart::Lookup { name: t } => {
                &&& lookup_needed(cache@, name@)
                &&& t@ == trimmed(name@)
            },
            ResolveStart::Invalid { error } => {
                &&& trimmed(name@).len() == 0
                &&& error.kind == ErrorKind::Validation
                &&& error.details@ == "empty country name"@
            },
        },
{
    let t = trim(name);
    if t.as_str().is_empty() {
        ResolveStart::Invalid { error: AppError::new(ErrorKind::Validation, "empty country name") }
    } else {
        match cache.get(t.as_str()) {
            Some(code) => ResolveStart::Cached { code: code.clone() },
            None => ResolveStart::Lookup { name: t },
        }
    }
}

/// The lookup request URL for a (trimmed) country name: an exact-name
/// query asking only for the name and currencies fields.
pub fn country_request_url(name: &str) -> (u: String)
    ensures
        u@ == "https://restcountries.com/v3.1/name/"@ + name@ + "?fields=name,currencies"@,
{
    let mut u = "https://restcountries.com/v3.1/name/".to_owned();
    u.append(name);
    u.append("?fields=name,currencies");
    u
}

/// Whether an upstream HTTP status is the success status.
pub fn status_is_ok(status: u16) -> (r: bool)
    ensures
        r == (status == 200),
{
    status == 200
}

/// What happened when the country lookup was issued; the transport layer
/// reports exactly one of these.
#[derive(Debug, PartialEq)]
pub enum LookupEvent {
    /// The request URL could not be formed from the name.
    InvalidUrl,
    /// The connection failed before a response arrived.
    TransportError,
    /// The service responded with a non-success status.
    BadStatus,
    /// The response body could not be read.
    BodyReadError,
    /// The body was not decodable as an array of country records.
    DecodeError,
    /// The decoded array of country records.
    Records { records: Vec<Country> },
}

/// Applies the response policy to what came back for `name` (already
/// trimmed, as `resolve_begin` handed it out). Exactly one record with at
/// least one currency resolves to that record's first currency code, which
/// is cached before returning; every other event is a normalized error and
/// leaves the cache unchanged.
pub fn resolve_finish(cache: &mut CurrencyCache, name: &str, event: LookupEvent) -> (r: Result<
    String,
    AppError,
>)
    requires
        old(cache).wf(),
    ensures
        final(cache).wf(),
        match event {
            LookupEvent::InvalidUrl => {
                &&& r matches Err(e) && e.kind == ErrorKind::Validation && e.details@
                    == "URL parsing error"@
                &&& final(cache)@ == old(cache)@
            },
            LookupEvent::TransportError => {
                &&& r matches Err(e) && e.kind == ErrorKind::UpstreamTransport && e.details@
                    == "http response error"@
                &&& final(cache)@ == old(cache)@
            },
            LookupEvent::BadStatus => {
                &&& r matches Err(e) && e.kind == ErrorKind::UpstreamStatus && e.details@
                    == "bad country name: "@ + name@
                &&& final(cache)@ == old(cache)@
            },
            LookupEvent::BodyReadError => {
                &&& r matches Err(e) && e.kind == ErrorKind::UpstreamFormat && e.details@
                    == "reading buffer error"@
                &&& final(cache)@ == old(cache)@
            },
            LookupEvent::DecodeError => {
                &&& r matches Err(e) && e.kind == ErrorKind::UpstreamFormat && e.details@
                    == "json deserialization error"@
                &&& final(cache)@ == old(cache)@
            },
            LookupEvent::Records { records } => {
                if records@.len() == 1 && records@[0].currencies@.len() > 0 {
                    &&& r matches Ok(code) && code@ == records@[0].currencies@[0].0@
                    &&& final(cache)@ == old(cache)@.insert(name@, records@[0].currencies@[0].0@)
                } else if records@.len() == 1 {
                    &&& r matches Err(e) && e.kind == ErrorKind::ResolutionAmbiguity && e.details@
                        == "no currency for country "@ + name@
                    &&& final(cache)@ == old(cache)@
                } else if records@.len() == 0 {
                    &&& r matches Err(e) && e.kind == ErrorKind::ResolutionAmbiguity && e.details@
                        == "could not fetch country "@ + name@
                    &&& final(cache)@ == old(cache)@
                } else {
                    &&& r matches Err(e) && e.kind == ErrorKind::ResolutionAmbiguity && e.details@
                        == "unexpected result when fetching country "@ + name@
                    &&& final(cache)@ == old(cache)@
                }
            },
        },
{
    match event {
        LookupEvent::InvalidUrl => Err(AppError::new(ErrorKind::Validation, "URL parsing error")),
        LookupEvent::TransportError => Err(
            AppError::new(ErrorKind::UpstreamTransport, "http response error"),
        ),
        LookupEvent::BadStatus => {
            let mut m = "bad country name: ".to_owned();
            m.append(name);
            Err(AppError::new(ErrorKind::UpstreamStatus, m.as_str()))
        },
        LookupEvent::BodyReadError => Err(
            AppError::new(ErrorKind::UpstreamFormat, "reading buffer error"),
        ),
        LookupEvent::DecodeError => Err(
            AppError::new(ErrorKind::UpstreamFormat, "json deserialization error"),
        ),
        LookupEvent::Records { records } => {
            if records.len() == 1 {
                let rec = &records[0];
                if rec.currencies.len() > 0 {
                    let code = rec.currencies[0].0.clone();
                    cache.insert(name, code.clone());
                    Ok(code)
                } else {
                    let mut m = "no currency for country ".to_owned();
                    m.append(name);
                    Err(AppError::new(ErrorKind::ResolutionAmbiguity, m.as_str()))
                }
            } else if records.len() == 0 {
                let mut m = "could not fetch country ".to_owned();
                m.append(name);
                Err(AppError::new(ErrorKind::ResolutionAmbiguity, m.as_str()))
            } else {
                let mut m = "unexpected result when fetching country ".to_owned();
                m.append(name);
                Err(AppError::new(ErrorKind::ResolutionAmbiguity, m.as_str()))
            }
        },
    }
}

/// Cache idempotence: once a resolution of `name` has stored `code` under
/// the trimmed name, resolving `name` again needs no upstream lookup and
/// finds that same code, whatever the cache held before.
pub proof fn lemma_second_resolution_cached(
    cache: Map<Seq<char>, Seq<char>>,
    name: Seq<char>,
    code: Seq<char>,
)
    ensures
        !lookup_needed(cache.insert(trimmed(name), code), name),
        cache.insert(trimmed(name), code)[trimmed(name)] == code,
{
}

/// Racing resolutions converge: two writers storing codes for the same
/// name leave the cache exactly as if the last writer alone had written,
/// with a single entry for that name.
pub proof fn lemma_racing_resolutions_converge(
    cache: Map<Seq<char>, Seq<char>>,
    name: Seq<char>,
    first: Seq<char>,
    second: Seq<char>,
)
    ensures
        cache.insert(name, first).insert(name, second) == cache.insert(name, second),
        cache.insert(name, first).insert(name, second).dom() == cache.dom().insert(name),
{
    assert(cache.insert(name, first).insert(name, second) =~= cache.insert(name, second));
    assert(cache.insert(name, first).insert(name, second).dom() =~= cache.dom().insert(name));
}

} // verus!
