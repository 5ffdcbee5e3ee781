//! `GET /blocks/available` and `GET /blocks/available/{reference}`: browsing a registry from
//! the node that would run the block, without installing anything.
//!
//! A registry cannot be enumerated from nothing, so the listing takes a `repository` and lists
//! its tags, as candidate references. Fetching and vetting is the registry client's; what is
//! decided here is what the request must carry and how its answer is spelled.
use vstd::prelude::*;
use crate::api::error::{ApiError, Detail, Kind};
use crate::text::{chars_of, trim, trim_chars};

verus! {

/// A candidate reference `GET /blocks/available` found, not yet inspected.
#[derive(Debug, Clone, PartialEq, Eq)]
pub struct AvailableTag {
    /// `<repository>:<tag>` — a reference the inspect and pull endpoints accept as-is.
    pub reference: String,
}

/// What `GET /blocks/available` takes.
#[derive(Debug, Clone, PartialEq, Eq)]
pub struct AvailableQuery {
    /// The repository to list tags for: `[registry/][namespace/]name`, no tag or digest.
    /// Required: a registry cannot be enumerated with nothing named.
    pub repository: Option<String>,
}

/// The sentence a listing with no repository is refused with.
pub open spec fn no_repository_message() -> Seq<char> {
    "`GET /blocks/available` takes `?repository=[registry/][namespace/]name`; a registry has no catalog this node promises to enumerate"@
}

impl AvailableQuery {
    /// The repository to list, or the refusal: absent and blank are both no repository.
    pub fn repository(&self) -> (repository: Result<String, ApiError>)
        ensures
            match self.repository {
                Some(r) => if trim(r@).len() > 0 {
                    repository matches Ok(named) && named == r
                } else {
                    repository matches Err(e) && e.error == Kind::BadRequest && e.detail is None
                        && e.message@ == no_repository_message()
                },
                None => repository matches Err(e) && e.error == Kind::BadRequest && e.detail is None
                    && e.message@ == no_repository_message(),
            },
    {
        if let Some(named) = &self.repository {
            let chars = chars_of(named.as_str());
            if trim_chars(&chars).len() > 0 {
                return Ok(named.clone());
            }
        }
        Err(ApiError::new(
            Kind::BadRequest,
            String::from_str(
                "`GET /blocks/available` takes `?repository=[registry/][namespace/]name`; a registry has no catalog this node promises to enumerate",
            ),
        ))
    }
}

/// `tags`, as references into `repository`: `<repository>:<tag>`, in the registry's order.
pub fn available_tags(repository: &str, tags: &Vec<String>) -> (listed: Vec<AvailableTag>)
    ensures
        listed@.len() == tags@.len(),
        forall|i: int| 0 <= i < tags@.len() ==> (#[trigger] listed@[i]).reference@ == repository@ + seq![':']
            + tags@[i]@,
{
    let mut listed: Vec<AvailableTag> = Vec::new();
    let mut i: usize = 0;
    while i < tags.len()
        invariant
            i <= tags@.len(),
            listed@.len() == i,
            forall|k: int| 0 <= k < i ==> (#[trigger] listed@[k]).reference@ == repository@ + seq![':'] + tags@[k]@,
        decreases tags@.len() - i,
    {
        let mut reference = String::from_str(repository);
        reference.push(':');
        reference.append(tags[i].as_str());
        listed.push(AvailableTag { reference });
        i = i + 1;
    }
    listed
}

/// A browse that did not resolve: `Kind::Unresolvable`, carrying what was asked about.
pub fn unresolvable(subject: &str, reason: String) -> (e: ApiError)
    ensures
        e.error == Kind::Unresolvable,
        e.message == reason,
        e.detail matches Some(Detail::Reference { block }) && block@ == subject@,
{
    ApiError::detailed(Kind::Unresolvable, reason, Detail::Reference { block: String::from_str(subject) })
}

} // verus!
