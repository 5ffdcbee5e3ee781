//! The service endpoints' decisions: entity tags, the overwrite precondition, and what a
//! service is reported as.
//!
//! Every handler re-reads the file — the API holds no state the files do not — so what is
//! decided here is decided from the file's text and the running graph's state, handed in.
use vstd::prelude::*;
use vstd::utf8::encode_utf8;
use crate::api::error::{carries_failure, failure_kind, from_failure, ApiError, Detail, Kind};
use crate::blocks::{sha256_hex, sha256_hex_of};
use crate::boot::{failure_message, label_spec, Failure, State};
use crate::text::{chars_of, trim, trim_chars};

verus! {

/// The header a client reads a definition's version from.
pub const ETAG: &'static str = "etag";

/// The header a client names the version it edited in.
pub const IF_MATCH: &'static str = "if-match";

/// RFC 9110's "any current representation".
pub const ANY: &'static str = "*";

/// A definition's entity tag: `"sha256:<lowercase hex>"`, strong and quoted.
pub open spec fn etag_of(definition: Seq<char>) -> Seq<char> {
    seq!['"'] + "sha256:"@ + sha256_hex_of(encode_utf8(definition)) + seq!['"']
}

/// A definition's entity tag, over the bytes of its text.
///
/// Strong, because for a file stored verbatim two definitions are equivalent only when they
/// are the same bytes.
pub fn etag(definition: &str) -> (tag: String)
    ensures
        tag@ == etag_of(definition@),
{
    let digest = sha256_hex(definition.as_bytes());
    let mut tag = String::new();
    tag.push('"');
    tag.append("sha256:");
    tag.append(digest.as_str());
    tag.push('"');
    tag
}

/// One member of an `If-Match` list matches `actual`: it is `*`, or it is that tag.
pub open spec fn member_matches(member: Seq<char>, actual: Seq<char>) -> bool {
    trim(member) == ANY@ || trim(member) == actual
}

/// Some member of a `,`-separated list matches, where `member` is the part of the current
/// member already read and `rest` what is left.
pub open spec fn members_match(rest: Seq<char>, member: Seq<char>, actual: Seq<char>) -> bool
    decreases rest.len(),
{
    if rest.len() == 0 {
        member_matches(member, actual)
    } else if rest[0] == ',' {
        member_matches(member, actual) || members_match(rest.drop_first(), Seq::empty(), actual)
    } else {
        members_match(rest.drop_first(), member.push(rest[0]), actual)
    }
}

/// Whether an `If-Match` value holds against `actual`: RFC 9110 spells it as a list, and any
/// member matching is a match.
pub open spec fn if_match_holds(condition: Seq<char>, actual: Seq<char>) -> bool {
    members_match(condition, Seq::empty(), actual)
}

/// Whether one member, trimmed, is `*` or `actual`.
fn member_is(member: &Vec<char>, actual: &Vec<char>) -> (matches: bool)
    ensures
        matches == member_matches(member@, actual@),
{
    let trimmed = trim_chars(member);
    let is_any = trimmed.len() == 1 && trimmed[0] == '*';
    proof {
        reveal_strlit("*");
        assert(ANY@ =~= seq!['*']);
        if is_any {
            assert(trimmed@ =~= ANY@);
        }
    }
    if is_any {
        return true;
    }
    if trimmed.len() != actual.len() {
        return false;
    }
    let mut i: usize = 0;
    while i < trimmed.len()
        invariant
            trimmed@ == trim(member@),
            trimmed@.len() == actual@.len(),
            !is_any,
            trimmed@ != ANY@,
            i <= trimmed@.len(),
            forall|j: int| 0 <= j < i ==> trimmed@[j] == actual@[j],
        decreases trimmed@.len() - i,
    {
        if trimmed[i] != actual[i] {
            return false;
        }
        i = i + 1;
    }
    assert(trimmed@ =~= actual@);
    true
}

/// Whether the `If-Match` value `condition` holds against the tag `actual`.
pub fn if_match(condition: &str, actual: &str) -> (holds: bool)
    ensures
        holds == if_match_holds(condition@, actual@),
{
    let chars = chars_of(condition);
    let wanted = chars_of(actual);
    let mut member: Vec<char> = Vec::new();
    let mut i: usize = 0;
    assert(chars@.subrange(0, chars@.len() as int) =~= chars@);
    assert(member@ =~= Seq::<char>::empty());
    while i < chars.len()
        invariant
            i <= chars@.len(),
            members_match(chars@.subrange(i as int, chars@.len() as int), member@, wanted@)
                == if_match_holds(condition@, actual@),
            chars@ == condition@,
            wanted@ == actual@,
        decreases chars@.len() - i,
    {
        let ghost rest = chars@.subrange(i as int, chars@.len() as int);
        assert(rest.drop_first() =~= chars@.subrange(i + 1, chars@.len() as int));
        if chars[i] == ',' {
            if member_is(&member, &wanted) {
                return true;
            }
            member = Vec::new();
            assert(member@ =~= Seq::<char>::empty());
        } else {
            member.push(chars[i]);
        }
        i = i + 1;
    }
    member_is(&member, &wanted)
}

/// What diffing `current` against `proposed` line by line gives, as a unified diff whose
/// headers are `old_label` and `new_label`.
pub uninterp spec fn unified_diff_of(current: Seq<char>, proposed: Seq<char>, old_label: Seq<char>, new_label: Seq<char>) -> Seq<char>;

/// `similar::TextDiff::from_lines(..).unified_diff().header(..)`, rendered.
///
/// Trusted for one thing: that the text is a function of the two texts and the two labels,
/// named [`unified_diff_of`]. No deadline is set, so nothing but the arguments decides it.
#[verifier::external_body]
fn unified_diff(current: &str, proposed: &str, old_label: &str, new_label: &str) -> (diff: String)
    ensures
        diff@ == unified_diff_of(current@, proposed@, old_label@, new_label@),
{
    similar::TextDiff::from_lines(current, proposed).unified_diff().header(old_label, new_label).to_string()
}

/// A unified diff from what is on disk to what was proposed, headed `current` and `proposed`.
pub fn diff(current: &str, proposed: &str) -> (diff: String)
    ensures
        diff@ == unified_diff_of(current@, proposed@, "current"@, "proposed"@),
{
    unified_diff(current, proposed, "current", "proposed")
}

/// `detail` is a stale precondition's: what was expected, what is there, and the diff.
pub open spec fn is_stale(detail: Option<Detail>, condition: Seq<char>, current: Seq<char>, proposed: Seq<char>) -> bool {
    match detail {
        Some(Detail::Stale { expected, actual, current: on_disk, diff }) => {
            &&& expected@ == condition
            &&& actual@ == etag_of(current)
            &&& on_disk@ == current
            &&& diff@ == unified_diff_of(current, proposed, "current"@, "proposed"@)
        },
        _ => false,
    }
}

/// What an overwrite's precondition answers, given the file on disk (`current`, `None` when
/// there is none) and the request's `If-Match` (`condition`).
///
/// Creating needs no precondition; overwriting does. `If-Match` against no file fails, `*`
/// included. A condition that matches no member is refused with what it expected, what is
/// there, and the diff between what is there and what was proposed.
pub open spec fn precondition_answer(
    name: Seq<char>,
    current: Option<Seq<char>>,
    condition: Option<Seq<char>>,
    proposed: Seq<char>,
    verdict: Result<(), ApiError>,
) -> bool {
    match (current, condition) {
        (None, None) => verdict is Ok,
        (None, Some(_)) => match verdict {
            Err(e) => e.error == Kind::Conflict && e.detail is None && e.message@ == "this node has no service called `"@
                + name + "` for `If-Match` to match"@,
            Ok(_) => false,
        },
        (Some(_), None) => match verdict {
            Err(e) => e.error == Kind::PreconditionRequired && e.detail is None && e.message@ == "`"@ + name
                + "` already exists: send `If-Match` with the `ETag` from `GET /services/"@ + name
                + "`, or `If-Match: *` to overwrite whatever is there"@,
            Ok(_) => false,
        },
        (Some(on_disk), Some(tag)) => if if_match_holds(tag, etag_of(on_disk)) {
            verdict is Ok
        } else {
            match verdict {
                Err(e) => e.error == Kind::Conflict && is_stale(e.detail, tag, on_disk, proposed) && e.message@ == "`"@
                    + name + "` has changed on disk since "@ + tag + " was read"@,
                Ok(_) => false,
            }
        },
    }
}

/// The view of an optional text.
pub open spec fn text_of(text: Option<&str>) -> Option<Seq<char>> {
    match text {
        Some(t) => Some(t@),
        None => None,
    }
}

/// RFC 9110's `If-Match`, over the definition on disk: `current` is the file's text when
/// there is a file, `condition` the header's value when the request carried one.
pub fn precondition(name: &str, current: Option<&str>, condition: Option<&str>, proposed: &str) -> (verdict: Result<(), ApiError>)
    ensures
        precondition_answer(name@, text_of(current), text_of(condition), proposed@, verdict),
{
    match (current, condition) {
        (None, None) => Ok(()),
        (None, Some(_)) => {
            let mut message = String::from_str("this node has no service called `");
            message.append(name);
            message.append("` for `If-Match` to match");
            Err(ApiError::new(Kind::Conflict, message))
        },
        (Some(_), None) => {
            let mut message = String::from_str("`");
            message.append(name);
            message.append("` already exists: send `If-Match` with the `ETag` from `GET /services/");
            message.append(name);
            message.append("`, or `If-Match: *` to overwrite whatever is there");
            Err(ApiError::new(Kind::PreconditionRequired, message))
        },
        (Some(on_disk), Some(tag)) => {
            let actual = etag(on_disk);
            if if_match(tag, actual.as_str()) {
                return Ok(());
            }
            let mut message = String::from_str("`");
            message.append(name);
            message.append("` has changed on disk since ");
            message.append(tag);
            message.append(" was read");
            let detail = Detail::Stale {
                expected: String::from_str(tag),
                actual,
                current: String::from_str(on_disk),
                diff: diff(on_disk, proposed),
            };
            Err(ApiError::detailed(Kind::Conflict, message, detail))
        },
    }
}

/// The failure behind an errored state, if it is one.
pub fn failure_of<S>(state: &State<S>) -> (failure: Option<&Failure>)
    ensures
        match *state {
            State::Errored(f) => failure == Some(&f),
            _ => failure is None,
        },
{
    match state {
        State::Errored(failure) => Some(failure),
        _ => None,
    }
}

/// `error` reports what `state` failed of, in the envelope every failure uses, and nothing
/// for a state that did not fail.
pub open spec fn reports<S>(error: Option<ApiError>, state: State<S>) -> bool {
    match state {
        State::Errored(f) => match error {
            Some(e) => e.error == failure_kind(f) && e.message@ == failure_message(f) && carries_failure(e.detail, f),
            None => false,
        },
        _ => error is None,
    }
}

/// One service, as the API reports it.
#[derive(Debug, Clone, PartialEq, Eq)]
pub struct ServiceSummary {
    /// The service's name, which is also its file's stem.
    pub name: String,
    /// `running`, `stopped` or `errored`.
    pub state: String,
    /// The file's `autostart` flag, verbatim: what tells "stopped and will come back after a
    /// reboot" from "stopped and never meant to run".
    pub autostart: bool,
    /// Why, when the state is `errored`. Absent otherwise.
    pub error: Option<ApiError>,
}

/// One service and its definition.
#[derive(Debug, Clone, PartialEq, Eq)]
pub struct ServiceDetail {
    /// The service's name.
    pub name: String,
    /// `running`, `stopped` or `errored`.
    pub state: String,
    /// The file's `autostart` flag, verbatim.
    pub autostart: bool,
    /// The file's text, exactly as it is on disk.
    pub definition: String,
    /// Why, when the state is `errored`.
    pub error: Option<ApiError>,
}

/// The failure behind `state`, as the API reports it.
fn error_of<S>(state: &State<S>) -> (error: Option<ApiError>)
    ensures
        reports(error, *state),
{
    match failure_of(state) {
        Some(failure) => Some(from_failure(failure)),
        None => None,
    }
}

/// A service in a listing: its name, its state's label, its file's flag, and why it failed.
pub fn summary<S>(name: &str, state: &State<S>, autostart: bool) -> (s: ServiceSummary)
    ensures
        s.name@ == name@,
        s.state@ == label_spec(*state),
        s.autostart == autostart,
        reports(s.error, *state),
{
    ServiceSummary {
        name: String::from_str(name),
        state: String::from_str(state.label()),
        autostart,
        error: error_of(state),
    }
}

/// A service and its definition. A file that exists and is in no state is one this node has
/// not loaded since it appeared — `stopped`, from a caller's point of view.
pub fn detail<S>(name: &str, state: Option<&State<S>>, autostart: bool, definition: String) -> (d: ServiceDetail)
    ensures
        d.name@ == name@,
        d.state@ == match state {
            Some(s) => label_spec(*s),
            None => "stopped"@,
        },
        d.autostart == autostart,
        d.definition == definition,
        match state {
            Some(s) => reports(d.error, *s),
            None => d.error is None,
        },
{
    let (label, error) = match state {
        Some(s) => (s.label(), error_of(s)),
        None => ("stopped", None),
    };
    ServiceDetail { name: String::from_str(name), state: String::from_str(label), autostart, definition, error }
}

/// Why a service is errored, for `GET /services/{s}/errors`: the failure, or `404` for a
/// service that has none — "no errors" and "no such service" are different answers, and an
/// empty success would make them one.
pub fn errors<S>(name: &str, state: Option<&State<S>>) -> (answer: Result<ApiError, ApiError>)
    ensures
        match state {
            None => answer matches Err(e) && e.error == Kind::NotFound && e.message@
                == "this node has no service called `"@ + name@ + "`"@,
            Some(s) => match *s {
                State::Errored(f) => match answer {
                    Ok(e) => e.error == failure_kind(f) && e.message@ == failure_message(f) && carries_failure(e.detail, f),
                    Err(_) => false,
                },
                _ => match answer {
                    Err(e) => e.error == Kind::NotFound && e.detail is None && e.message@ == "`"@ + name@ + "` is "@
                        + label_spec(*s) + ", and has no errors"@,
                    Ok(_) => false,
                },
            },
        },
{
    match state {
        None => Err(ApiError::no_such_service(name)),
        Some(s) => match failure_of(s) {
            Some(failure) => Ok(from_failure(failure)),
            None => {
                let mut message = String::from_str("`");
                message.append(name);
                message.append("` is ");
                message.append(s.label());
                message.append(", and has no errors");
                Err(ApiError::new(Kind::NotFound, message))
            },
        },
    }
}

/// Whether `DELETE /services/{s}` may remove the file: not while the service runs, and not a
/// file that is not there.
pub fn may_delete<S>(name: &str, state: Option<&State<S>>, exists: bool) -> (verdict: Result<(), ApiError>)
    ensures
        match state {
            Some(State::Running(_)) => match verdict {
                Err(e) => e.error == Kind::Running && e.detail is None && e.message@ == "`"@ + name@
                    + "` is running; `POST /services/"@ + name@ + "/stop` it first"@,
                Ok(_) => false,
            },
            _ => if exists {
                verdict is Ok
            } else {
                match verdict {
                    Err(e) => e.error == Kind::NotFound && e.detail is None && e.message@
                        == "this node has no service called `"@ + name@ + "`"@,
                    Ok(_) => false,
                }
            },
        },
{
    if let Some(State::Running(_)) = state {
        let mut message = String::from_str("`");
        message.append(name);
        message.append("` is running; `POST /services/");
        message.append(name);
        message.append("/stop` it first");
        return Err(ApiError::new(Kind::Running, message));
    }
    if !exists {
        return Err(ApiError::no_such_service(name));
    }
    Ok(())
}

/// What `POST /services/{s}/stop` answers, given the file's `autostart` flag for the service
/// when the node holds one (`None` when it holds no such service).
///
/// Stopping is not the file speaking, so it leaves `autostart` as the file says: the listing
/// still tells "stopped and will come back" from "stopped and never meant to run".
pub fn stopped(name: &str, autostart: Option<bool>) -> (answer: Result<ServiceSummary, ApiError>)
    ensures
        match autostart {
            None => answer matches Err(e) && e.error == Kind::NotFound && e.detail is None
                && e.message@ == "this node has no service called `"@ + name@ + "`"@,
            Some(flag) => answer matches Ok(s) && s.name@ == name@ && s.state@ == "stopped"@
                && s.autostart == flag && s.error is None,
        },
{
    match autostart {
        None => Err(ApiError::no_such_service(name)),
        Some(flag) => Ok(
            ServiceSummary {
                name: String::from_str(name),
                state: String::from_str("stopped"),
                autostart: flag,
                error: None,
            },
        ),
    }
}

/// A name that could never be a service file's stem, answered as a service this node does
/// not have: a distinct code would confirm which names are shaped like real ones.
pub fn bad_name(name: &str) -> (e: ApiError)
    ensures
        e.error == Kind::NotFound,
        e.message@ == "this node has no service called `"@ + name@ + "`"@,
        e.detail is None,
{
    ApiError::no_such_service(name)
}

} // verus!
