//! `GET /blocks` and `POST /blocks/pull`: the cache, over HTTP.
//!
//! The listing walks `blocks/<name>/<version>/` in name order, so two calls on an unchanged
//! node answer identically; a pull consults the cache first, always, which is what lets a node
//! with a warm cache work offline.
use vstd::prelude::*;
use crate::api::error::{ApiError, Detail, Kind};
use crate::blocks::{parse, parse_spec, unresolvable_message, Entry, Unresolvable};

verus! {

/// What `POST /blocks/pull` takes.
#[derive(Debug, Clone, PartialEq, Eq)]
pub struct PullRequest {
    /// The reference to pull, `[registry/][namespace/]name:tag`. There is no implicit
    /// registry, for the same reason there is no implicit `latest`.
    pub reference: String,
}

/// A pull body that is not the JSON the endpoint takes, answered in the envelope.
pub fn bad_pull_body(rejection: &str) -> (e: ApiError)
    ensures
        e.error == Kind::BadRequest,
        e.detail is None,
        e.message@ == "this endpoint takes `{\"reference\": \"...\"}`: "@ + rejection@,
{
    let mut message = String::from_str("this endpoint takes `{\"reference\": \"...\"}`: ");
    message.append(rejection);
    ApiError::new(Kind::BadRequest, message)
}

/// A reference that did not resolve, or whose artifact was refused: the reason, carrying the
/// reference.
pub fn unresolvable_block(reference: &str, message: String) -> (e: ApiError)
    ensures
        e.error == Kind::Unresolvable,
        e.message == message,
        e.detail matches Some(Detail::Reference { block }) && block@ == reference@,
{
    ApiError::detailed(Kind::Unresolvable, message, Detail::Reference { block: String::from_str(reference) })
}

/// Why a reference names no cache entry, in the envelope.
pub fn unresolved(reference: &str, reason: &Unresolvable) -> (e: ApiError)
    ensures
        e.error == Kind::Unresolvable,
        e.message@ == unresolvable_message(*reason),
        e.detail matches Some(Detail::Reference { block }) && block@ == reference@,
{
    unresolvable_block(reference, reason.message())
}

/// The reference a cached entry answers to on this node: `name:version`, with no registry,
/// because the cache is keyed by name and version and a reference naming any registry
/// resolves there.
pub fn cached_reference(name: &str, version: &str) -> (reference: String)
    ensures
        reference@ == name@ + seq![':'] + version@,
{
    let mut reference = String::from_str(name);
    reference.push(':');
    reference.append(version);
    reference
}

/// What a cached entry is listed as, once its manifest has been read.
#[derive(Debug, Clone, PartialEq, Eq)]
pub struct CachedEntry {
    /// The block's name, which is the cache entry's directory.
    pub name: String,
    /// The version it is cached under, which is the reference's tag.
    pub version: String,
    /// A reference that resolves to this entry on this node.
    pub reference: String,
}

/// The entry a pulled reference landed in, as the listing would report it.
pub fn pulled_entry(reference: &str) -> (entry: Result<CachedEntry, Unresolvable>)
    ensures
        match parse_spec(reference@) {
            Ok((name, version)) => entry matches Ok(e) && e.name@ == name && e.version@ == version
                && e.reference@ == name + seq![':'] + version,
            Err(why) => entry == Err::<CachedEntry, Unresolvable>(why),
        },
{
    let Entry { name, version } = parse(reference)?;
    let reference = cached_reference(name.as_str(), version.as_str());
    Ok(CachedEntry { name, version, reference })
}

} // verus!
