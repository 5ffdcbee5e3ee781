//! The one shape every failure answers in: a stable slug, a sentence for a person, and the
//! structure the slug promises.
//!
//! [`Kind`] is the machine-readable half and is what a client branches on; `message` is for a
//! person and is not to be parsed; `detail` carries whatever structure the slug promises.
//! The status is a property of the slug, not of each call site, so that two endpoints cannot
//! disagree about what "invalid" is worth.
use vstd::prelude::*;
use crate::boot::{failure_message, Failure};
use crate::text::copy_all;

verus! {

/// What went wrong, as a stable slug.
#[derive(Debug, Clone, Copy, PartialEq, Eq)]
pub enum Kind {
    /// No bearer token, or not this node's.
    Unauthorized,
    /// No such service, block or route on this node.
    NotFound,
    /// The request body is not what the endpoint takes.
    BadRequest,
    /// Understood and well-formed, but what it asks for cannot be granted.
    Invalid,
    /// A block reference did not resolve and could not be pulled.
    Unresolvable,
    /// The definition is valid and the service would not start.
    Unstartable,
    /// An overwrite that named no version to overwrite.
    PreconditionRequired,
    /// An overwrite whose `If-Match` is no longer the file on disk.
    Conflict,
    /// A delete refused because the service is running.
    Running,
    /// The node could not do it — a filesystem that refused, and the like.
    Internal,
}

/// The HTTP status each slug answers with.
pub open spec fn status_of(kind: Kind) -> u16 {
    match kind {
        Kind::Unauthorized => 401,
        Kind::NotFound => 404,
        Kind::BadRequest => 400,
        Kind::Invalid => 422,
        Kind::Unresolvable => 422,
        Kind::Unstartable => 422,
        Kind::PreconditionRequired => 428,
        Kind::Conflict => 412,
        Kind::Running => 409,
        Kind::Internal => 500,
    }
}

/// Each slug as a client reads it: snake case.
pub open spec fn slug_of(kind: Kind) -> Seq<char> {
    match kind {
        Kind::Unauthorized => "unauthorized"@,
        Kind::NotFound => "not_found"@,
        Kind::BadRequest => "bad_request"@,
        Kind::Invalid => "invalid"@,
        Kind::Unresolvable => "unresolvable"@,
        Kind::Unstartable => "unstartable"@,
        Kind::PreconditionRequired => "precondition_required"@,
        Kind::Conflict => "conflict"@,
        Kind::Running => "running"@,
        Kind::Internal => "internal"@,
    }
}

impl Kind {
    /// The status this slug answers with.
    ///
    /// 422 and not 400 for a request that was understood and could not be accepted; 428 and
    /// 412 as RFC 9110 defines them for a conditional write; 409 for an operation a resource's
    /// current state refuses.
    pub fn status(self) -> (status: u16)
        ensures
            status == status_of(self),
    {
        match self {
            Kind::Unauthorized => 401,
            Kind::NotFound => 404,
            Kind::BadRequest => 400,
            Kind::Invalid => 422,
            Kind::Unresolvable => 422,
            Kind::Unstartable => 422,
            Kind::PreconditionRequired => 428,
            Kind::Conflict => 412,
            Kind::Running => 409,
            Kind::Internal => 500,
        }
    }

    /// The slug, as the envelope spells it.
    pub fn slug(self) -> (slug: &'static str)
        ensures
            slug@ == slug_of(self),
    {
        match self {
            Kind::Unauthorized => "unauthorized",
            Kind::NotFound => "not_found",
            Kind::BadRequest => "bad_request",
            Kind::Invalid => "invalid",
            Kind::Unresolvable => "unresolvable",
            Kind::Unstartable => "unstartable",
            Kind::PreconditionRequired => "precondition_required",
            Kind::Conflict => "conflict",
            Kind::Running => "running",
            Kind::Internal => "internal",
        }
    }
}

/// The structure a slug carries, one variant per shape a client can rely on.
#[derive(Debug, Clone, PartialEq, Eq)]
pub enum Detail {
    /// A service file's validation errors, from the stage that found them: `1` for the file
    /// on its face, `2` for the file against the manifests it resolved to.
    Stage {
        /// Which validation stage.
        stage: u8,
        /// Every error that stage found, one per entry.
        errors: Vec<String>,
    },
    /// A file's parse errors, with no stage to name.
    Errors {
        /// Every error, one per entry.
        errors: Vec<String>,
    },
    /// A file whose stem and `name` disagree.
    Misnamed {
        /// What the file is called.
        stem: String,
        /// What it says it is.
        name: String,
    },
    /// A block an instance names that did not resolve.
    Block {
        /// The instance whose block it was.
        instance: String,
        /// The reference, as the file wrote it.
        block: String,
    },
    /// A reference that did not resolve, asked about directly.
    Reference {
        /// The reference.
        block: String,
    },
    /// An instance whose block asked for what this node does not have.
    Instance {
        /// The instance.
        instance: String,
    },
    /// The connections a service does declare, for a tap that named another.
    Connections {
        /// Each as `from.port -> to.port`.
        connections: Vec<String>,
    },
    /// An overwrite whose precondition is stale: what it expected, what is there, and how
    /// the two differ.
    Stale {
        /// The `If-Match` the request carried.
        expected: String,
        /// The entity tag of what is on disk.
        actual: String,
        /// The text on disk.
        current: String,
        /// A unified diff from what is on disk to what was proposed.
        diff: String,
    },
}

/// The body of every failure.
#[derive(Debug, Clone, PartialEq, Eq)]
pub struct ApiError {
    /// The stable slug a client branches on.
    pub error: Kind,
    /// One sentence for a person. Not to be parsed.
    pub message: String,
    /// Per-slug structure, absent when the slug carries none.
    pub detail: Option<Detail>,
}

impl ApiError {
    /// A failure with a slug and a sentence.
    pub fn new(error: Kind, message: String) -> (e: ApiError)
        ensures
            e.error == error,
            e.message == message,
            e.detail is None,
    {
        ApiError { error, message, detail: None }
    }

    /// The same, carrying structure.
    pub fn detailed(error: Kind, message: String, detail: Detail) -> (e: ApiError)
        ensures
            e.error == error,
            e.message == message,
            e.detail == Some(detail),
    {
        ApiError { error, message, detail: Some(detail) }
    }

    /// "This node has no service by that name."
    pub fn no_such_service(name: &str) -> (e: ApiError)
        ensures
            e.error == Kind::NotFound,
            e.message@ == "this node has no service called `"@ + name@ + "`"@,
            e.detail is None,
    {
        let mut message = String::from_str("this node has no service called `");
        message.append(name);
        message.append("`");
        ApiError::new(Kind::NotFound, message)
    }
}

/// The answer to a request that matched no route.
pub fn not_routed(method: &str, path: &str) -> (e: ApiError)
    ensures
        e.error == Kind::NotFound,
        e.message@ == "this node serves no "@ + method@ + " "@ + path@
            + "; GET /openapi.json lists what it does serve"@,
        e.detail is None,
{
    let mut message = String::from_str("this node serves no ");
    message.append(method);
    message.append(" ");
    message.append(path);
    message.append("; GET /openapi.json lists what it does serve");
    ApiError::new(Kind::NotFound, message)
}

/// The answer to a request whose path exists and whose method does not.
pub fn wrong_method(method: &str, path: &str) -> (e: ApiError)
    ensures
        e.error == Kind::BadRequest,
        e.message@ == method@ + " is not a method this node accepts on "@ + path@,
        e.detail is None,
{
    let mut message = String::from_str(method);
    message.append(" is not a method this node accepts on ");
    message.append(path);
    ApiError::new(Kind::BadRequest, message)
}

/// The slug a boot failure answers with: by what an operator does next — a definition to fix,
/// a block to publish, or a node that could not do its part.
pub open spec fn failure_kind(failure: Failure) -> Kind {
    match failure {
        Failure::Invalid(_) => Kind::Invalid,
        Failure::Unwireable(_) => Kind::Invalid,
        Failure::Misnamed { .. } => Kind::Invalid,
        Failure::Unresolvable { .. } => Kind::Unresolvable,
        Failure::Unpullable { .. } => Kind::Unresolvable,
        Failure::Unloadable { .. } => Kind::Unresolvable,
        Failure::Uncapable { .. } => Kind::Unresolvable,
        Failure::Unstartable(_) => Kind::Unstartable,
        Failure::Unreadable(_) => Kind::Internal,
    }
}

/// `detail` is the structure a boot failure's slug carries: the validation errors with their
/// stage, the stem and name, the instance and its block, or nothing.
pub open spec fn carries_failure(detail: Option<Detail>, failure: Failure) -> bool {
    match failure {
        Failure::Invalid(errors) => match detail {
            Some(Detail::Stage { stage, errors: listed }) => stage == 1 && listed@ == errors@,
            _ => false,
        },
        Failure::Unwireable(errors) => match detail {
            Some(Detail::Stage { stage, errors: listed }) => stage == 2 && listed@ == errors@,
            _ => false,
        },
        Failure::Misnamed { stem, name } => detail == Some(Detail::Misnamed { stem, name }),
        Failure::Unresolvable { id, reference, .. } => detail == Some(
            Detail::Block { instance: id, block: reference },
        ),
        Failure::Unpullable { id, reference, .. } => detail == Some(
            Detail::Block { instance: id, block: reference },
        ),
        Failure::Unloadable { id, reference, .. } => detail == Some(
            Detail::Block { instance: id, block: reference },
        ),
        Failure::Uncapable { id, .. } => detail == Some(Detail::Instance { instance: id }),
        Failure::Unstartable(_) => detail is None,
        Failure::Unreadable(_) => detail is None,
    }
}

/// A boot failure as an API failure.
///
/// The slug is chosen by what an operator does next, and `detail` carries the structured
/// report where there is one, so the validation classes survive the trip.
pub fn from_failure(failure: &Failure) -> (e: ApiError)
    ensures
        e.error == failure_kind(*failure),
        e.message@ == failure_message(*failure),
        carries_failure(e.detail, *failure),
{
    let message = failure.message();
    match failure {
        Failure::Invalid(errors) => ApiError::detailed(
            Kind::Invalid,
            message,
            Detail::Stage { stage: 1, errors: copy_all(errors) },
        ),
        Failure::Unwireable(errors) => ApiError::detailed(
            Kind::Invalid,
            message,
            Detail::Stage { stage: 2, errors: copy_all(errors) },
        ),
        Failure::Misnamed { stem, name } => ApiError::detailed(
            Kind::Invalid,
            message,
            Detail::Misnamed { stem: stem.clone(), name: name.clone() },
        ),
        Failure::Unresolvable { id, reference, .. } => ApiError::detailed(
            Kind::Unresolvable,
            message,
            Detail::Block { instance: id.clone(), block: reference.clone() },
        ),
        Failure::Unpullable { id, reference, .. } => ApiError::detailed(
            Kind::Unresolvable,
            message,
            Detail::Block { instance: id.clone(), block: reference.clone() },
        ),
        Failure::Unloadable { id, reference, .. } => ApiError::detailed(
            Kind::Unresolvable,
            message,
            Detail::Block { instance: id.clone(), block: reference.clone() },
        ),
        Failure::Uncapable { id, .. } => ApiError::detailed(
            Kind::Unresolvable,
            message,
            Detail::Instance { instance: id.clone() },
        ),
        Failure::Unstartable(_) => ApiError::new(Kind::Unstartable, message),
        Failure::Unreadable(_) => ApiError::new(Kind::Internal, message),
    }
}

} // verus!
