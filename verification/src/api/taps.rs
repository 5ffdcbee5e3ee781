//! Taps: watching one connection while it runs.
//!
//! A tap names a connection, and must name one its service's file declares: a tap on an edge
//! that does not exist would stream nothing forever, which is indistinguishable from a service
//! that is simply quiet. What it streams is what the connection's source endpoint emitted,
//! plus the expression failures that explain why a signal came out the way it did.
use vstd::prelude::*;
use crate::api::error::{ApiError, Detail, Kind};
use crate::observe::{Observation, Tap};
use crate::text::{chars_of, copy_all, slice_of, str_eq, string_of, trim, trim_chars};

verus! {

/// What `POST /taps` takes.
#[derive(Debug, Clone, PartialEq, Eq)]
pub struct TapRequest {
    /// The service the connection is in.
    pub service: String,
    /// The connection, as the service file spells it: `"t1.out -> t2.in"`.
    pub connection: String,
}

/// One connection a service file declares, endpoint by endpoint.
#[derive(Debug, Clone, PartialEq, Eq)]
pub struct Connection {
    /// The source instance.
    pub from_instance: String,
    /// The source's output port.
    pub from_port: String,
    /// The destination instance.
    pub to_instance: String,
    /// The destination's input port.
    pub to_port: String,
}

/// `s` has an arrow, `->`, starting at `i`.
pub open spec fn arrow_at(s: Seq<char>, i: int) -> bool {
    0 <= i && i + 1 < s.len() && s[i] == '-' && s[i + 1] == '>'
}

/// Where the first arrow in `s` starts, if there is one.
pub open spec fn find_arrow(s: Seq<char>) -> Option<int>
    decreases s.len(),
{
    if s.len() < 2 {
        None
    } else if s[0] == '-' && s[1] == '>' {
        Some(0)
    } else {
        match find_arrow(s.drop_first()) {
            Some(i) => Some(i + 1),
            None => None,
        }
    }
}

/// What [`find_arrow`] answers, without the recursion.
proof fn lemma_find_arrow(s: Seq<char>)
    ensures
        match find_arrow(s) {
            Some(i) => arrow_at(s, i) && forall|j: int| 0 <= j < i ==> !arrow_at(s, j),
            None => forall|j: int| !arrow_at(s, j),
        },
    decreases s.len(),
{
    if s.len() >= 2 && !(s[0] == '-' && s[1] == '>') {
        let rest = s.drop_first();
        lemma_find_arrow(rest);
        assert forall|j: int| 1 <= j implies arrow_at(s, j) == arrow_at(rest, j - 1) by {}
    }
}

/// The connection as the service file's own connections are spelled, so that a caller's
/// spacing around the arrow does not have to match: both sides trimmed and joined by ` -> `
/// when there is exactly one arrow, and otherwise the whole text trimmed.
pub open spec fn normalise_spec(connection: Seq<char>) -> Seq<char> {
    match find_arrow(connection) {
        Some(i) => {
            let rest = connection.subrange(i + 2, connection.len() as int);
            if find_arrow(rest) is None {
                trim(connection.subrange(0, i)) + " -> "@ + trim(rest)
            } else {
                trim(connection)
            }
        },
        None => trim(connection),
    }
}

/// Where the first arrow in `chars` starts.
fn first_arrow(chars: &Vec<char>) -> (at: Option<usize>)
    ensures
        match at {
            Some(i) => find_arrow(chars@) == Some(i as int) && i + 1 < chars@.len(),
            None => find_arrow(chars@) is None,
        },
{
    proof {
        lemma_find_arrow(chars@);
    }
    let mut i: usize = 0;
    while i < chars.len() && i + 1 < chars.len()
        invariant
            i <= chars@.len(),
            forall|j: int| 0 <= j < i ==> !arrow_at(chars@, j),
            match find_arrow(chars@) {
                Some(k) => arrow_at(chars@, k) && forall|j: int| 0 <= j < k ==> !arrow_at(chars@, j),
                None => forall|j: int| !arrow_at(chars@, j),
            },
        decreases chars@.len() - i,
    {
        if chars[i] == '-' && chars[i + 1] == '>' {
            assert(arrow_at(chars@, i as int));
            return Some(i);
        }
        i = i + 1;
    }
    assert forall|j: int| !arrow_at(chars@, j) by {
        if 0 <= j < i {
        }
    }
    None
}

/// The connection as the service file spells it (see [`normalise_spec`]).
pub fn normalise(connection: &str) -> (normal: String)
    ensures
        normal@ == normalise_spec(connection@),
{
    let chars = chars_of(connection);
    match first_arrow(&chars) {
        Some(at) => {
            let n = chars.len();
            assert(at + 1 < n);
            let rest = slice_of(&chars, at + 2, n);
            match first_arrow(&rest) {
                None => {
                    let from = trim_chars(&slice_of(&chars, 0, at));
                    let to = trim_chars(&rest);
                    let mut normal = string_of(&from, 0, from.len());
                    normal.append(" -> ");
                    let tail = string_of(&to, 0, to.len());
                    normal.append(tail.as_str());
                    assert(from@.subrange(0, from@.len() as int) =~= from@);
                    assert(to@.subrange(0, to@.len() as int) =~= to@);
                    normal
                },
                Some(_) => {
                    let whole = trim_chars(&chars);
                    assert(whole@.subrange(0, whole@.len() as int) =~= whole@);
                    string_of(&whole, 0, whole.len())
                },
            }
        },
        None => {
            let whole = trim_chars(&chars);
            assert(whole@.subrange(0, whole@.len() as int) =~= whole@);
            string_of(&whole, 0, whole.len())
        },
    }
}

/// A connection as a service file spells it: `from.port -> to.port`.
pub open spec fn render_spec(c: Connection) -> Seq<char> {
    c.from_instance@ + seq!['.'] + c.from_port@ + " -> "@ + c.to_instance@ + seq!['.'] + c.to_port@
}

/// A connection as a service file spells it.
pub fn render(c: &Connection) -> (text: String)
    ensures
        text@ == render_spec(*c),
{
    let mut text = c.from_instance.clone();
    text.push('.');
    text.append(c.from_port.as_str());
    text.append(" -> ");
    text.append(c.to_instance.as_str());
    text.push('.');
    text.append(c.to_port.as_str());
    text
}

/// Every connection, rendered.
fn rendered(connections: &Vec<Connection>) -> (texts: Vec<String>)
    ensures
        texts@.len() == connections@.len(),
        forall|i: int| 0 <= i < connections@.len() ==> (#[trigger] texts@[i])@ == render_spec(connections@[i]),
{
    let mut texts: Vec<String> = Vec::new();
    let mut i: usize = 0;
    while i < connections.len()
        invariant
            i <= connections@.len(),
            texts@.len() == i,
            forall|k: int| 0 <= k < i ==> (#[trigger] texts@[k])@ == render_spec(connections@[k]),
        decreases connections@.len() - i,
    {
        texts.push(render(&connections[i]));
        i = i + 1;
    }
    texts
}

/// The connection a tap request names, among those `service`'s file declares: the first whose
/// spelling is the request's, normalised. Refused with every connection the file does declare
/// when there is none.
pub fn named_connection(service: &str, requested: &str, connections: &Vec<Connection>) -> (found: Result<usize, ApiError>)
    ensures
        match found {
            Ok(i) => i < connections@.len() && render_spec(connections@[i as int]) == normalise_spec(requested@)
                && forall|j: int| 0 <= j < i ==> render_spec(#[trigger] connections@[j]) != normalise_spec(requested@),
            Err(e) => {
                &&& forall|j: int| 0 <= j < connections@.len() ==> render_spec(#[trigger] connections@[j]) != normalise_spec(requested@)
                &&& e.error == Kind::Invalid
                &&& e.message@ == "`"@ + service@ + "` declares no connection `"@ + requested@ + "`"@
                &&& match e.detail {
                    Some(Detail::Connections { connections: listed }) => listed@.len() == connections@.len()
                        && forall|j: int| 0 <= j < connections@.len() ==> (#[trigger] listed@[j])@ == render_spec(connections@[j]),
                    _ => false,
                }
            },
        },
{
    let wanted = normalise(requested);
    let texts = rendered(connections);
    let mut i: usize = 0;
    while i < texts.len()
        invariant
            i <= texts@.len(),
            texts@.len() == connections@.len(),
            wanted@ == normalise_spec(requested@),
            forall|k: int| 0 <= k < connections@.len() ==> (#[trigger] texts@[k])@ == render_spec(connections@[k]),
            forall|j: int| 0 <= j < i ==> render_spec(#[trigger] connections@[j]) != normalise_spec(requested@),
        decreases texts@.len() - i,
    {
        if str_eq(texts[i].as_str(), wanted.as_str()) {
            return Ok(i);
        }
        i = i + 1;
    }
    let mut message = String::from_str("`");
    message.append(service);
    message.append("` declares no connection `");
    message.append(requested);
    message.append("`");
    Err(ApiError::detailed(Kind::Invalid, message, Detail::Connections { connections: texts }))
}

/// A service file that does not parse has no connections to tap.
pub fn unparsable(service: &str, errors: &Vec<String>) -> (e: ApiError)
    ensures
        e.error == Kind::Invalid,
        e.message@ == "`"@ + service@ + "` does not parse, so it has no connections to tap"@,
        match e.detail {
            Some(Detail::Errors { errors: listed }) => listed@ == errors@,
            _ => false,
        },
{
    let mut message = String::from_str("`");
    message.append(service);
    message.append("` does not parse, so it has no connections to tap");
    ApiError::detailed(Kind::Invalid, message, Detail::Errors { errors: copy_all(errors) })
}

/// The answer for a tap id this node does not hold.
pub fn no_such_tap(id: &str) -> (e: ApiError)
    ensures
        e.error == Kind::NotFound,
        e.message@ == "this node holds no tap `"@ + id@ + "`"@,
        e.detail is None,
{
    let mut message = String::from_str("this node holds no tap `");
    message.append(id);
    message.append("`");
    ApiError::new(Kind::NotFound, message)
}

/// Whether an observation belongs on a tap's stream: from the tapped instance, and from the
/// tapped port — or from no port at all, because an expression failure is about the
/// instance's properties and is the thing a tap is most often opened to find.
pub open spec fn on_tap(tap: Tap, observation: Observation) -> bool {
    &&& observation.service@ == tap.service@
    &&& observation.instance@ == tap.instance@
    &&& match observation.port {
        Some(port) => port@ == tap.port@,
        None => true,
    }
}

/// Whether `observation` belongs on `tap`'s stream (see [`on_tap`]).
pub fn tap_passes(tap: &Tap, observation: &Observation) -> (passes: bool)
    ensures
        passes == on_tap(*tap, *observation),
{
    str_eq(observation.service.as_str(), tap.service.as_str()) && str_eq(observation.instance.as_str(), tap.instance.as_str())
        && match &observation.port {
        Some(port) => str_eq(port.as_str(), tap.port.as_str()),
        None => true,
    }
}

} // verus!
