//! The management API's judgement: what a request is answered, decided from plain values.
//!
//! The HTTP server around it is the program's; what is here is every decision a handler makes
//! that does not need a socket — which slug and status a failure answers with, whether a
//! bearer token is this node's, whether an overwrite's precondition holds, how a namespace
//! segment splits, which observations a stream passes, which paths are served, and how a
//! request is routed: every route behind the token, the API's description alone outside it.
pub mod error;
pub mod auth;
pub mod services;
pub mod state;
pub mod taps;
pub mod logs;
pub mod node;
pub mod available;
pub mod blocks;
pub mod openapi;
pub mod sse;

use vstd::prelude::*;
use crate::api::auth::{authorize, bearer_of, unauthorized_message};
use crate::api::error::{not_routed, wrong_method, ApiError, Kind};
use crate::api::openapi::described;
use crate::text::{chars_of, find, find_char, lemma_find, slice_of, str_eq};

verus! {

/// One guarded route: the methods it answers, and its path.
#[derive(Debug, Clone, PartialEq, Eq)]
pub struct Route {
    /// The methods it answers, upper case.
    pub methods: Vec<&'static str>,
    /// Its path, with its parameters in braces.
    pub path: &'static str,
}

/// What the router serves, behind the bearer check: the methods, then the path.
pub open spec fn served() -> Seq<(Seq<Seq<char>>, Seq<char>)> {
    seq![
        (seq!["GET"@], "/node"@),
        (seq!["GET"@], "/blocks"@),
        (seq!["POST"@], "/blocks/pull"@),
        (seq!["GET"@], "/blocks/available"@),
        (seq!["GET"@], "/blocks/available/{*reference}"@),
        (seq!["GET"@], "/services"@),
        (seq!["GET"@, "PUT"@, "DELETE"@], "/services/{service}"@),
        (seq!["GET"@], "/services/{service}/errors"@),
        (seq!["POST"@], "/services/{service}/start"@),
        (seq!["POST"@], "/services/{service}/stop"@),
        (seq!["POST"@], "/services/{service}/reload"@),
        (seq!["GET"@], "/services/{service}/state/{instance}"@),
        (seq!["GET"@], "/state/orphans"@),
        (seq!["DELETE"@], "/state/orphans/{namespace}"@),
        (seq!["GET"@, "POST"@], "/taps"@),
        (seq!["DELETE"@], "/taps/{tap}"@),
        (seq!["GET"@], "/taps/{tap}/stream"@),
        (seq!["GET"@], "/logs/stream"@),
    ]
}

/// A route's methods and path, as plain values.
pub open spec fn route_view(route: Route) -> (Seq<Seq<char>>, Seq<char>) {
    (route.methods@.map_values(|m: &'static str| m@), route.path@)
}

/// One route, built from its parts.
fn route(methods: Vec<&'static str>, path: &'static str) -> (route: Route)
    ensures
        route.methods == methods,
        route.path == path,
{
    Route { methods, path }
}

/// Every guarded route this node serves.
///
/// A table rather than a chain of registrations, so that what is served is enumerated from the
/// thing that serves it: a route added here is served, documented-or-caught, and guarded by
/// construction. `/openapi.json` is the one path outside it, served without a token.
pub fn routes() -> (routes: Vec<Route>)
    ensures
        routes@.map_values(|r: Route| route_view(r)) == served(),
{
    let routes = vec![
        route(vec!["GET"], "/node"),
        route(vec!["GET"], "/blocks"),
        route(vec!["POST"], "/blocks/pull"),
        route(vec!["GET"], "/blocks/available"),
        route(vec!["GET"], "/blocks/available/{*reference}"),
        route(vec!["GET"], "/services"),
        route(vec!["GET", "PUT", "DELETE"], "/services/{service}"),
        route(vec!["GET"], "/services/{service}/errors"),
        route(vec!["POST"], "/services/{service}/start"),
        route(vec!["POST"], "/services/{service}/stop"),
        route(vec!["POST"], "/services/{service}/reload"),
        route(vec!["GET"], "/services/{service}/state/{instance}"),
        route(vec!["GET"], "/state/orphans"),
        route(vec!["DELETE"], "/state/orphans/{namespace}"),
        route(vec!["GET", "POST"], "/taps"),
        route(vec!["DELETE"], "/taps/{tap}"),
        route(vec!["GET"], "/taps/{tap}/stream"),
        route(vec!["GET"], "/logs/stream"),
    ];
    proof {
            assert(route_view(routes@[0]).0 =~= served()[0].0);
            assert(route_view(routes@[1]).0 =~= served()[1].0);
            assert(route_view(routes@[2]).0 =~= served()[2].0);
            assert(route_view(routes@[3]).0 =~= served()[3].0);
            assert(route_view(routes@[4]).0 =~= served()[4].0);
            assert(route_view(routes@[5]).0 =~= served()[5].0);
            assert(route_view(routes@[6]).0 =~= served()[6].0);
            assert(route_view(routes@[7]).0 =~= served()[7].0);
            assert(route_view(routes@[8]).0 =~= served()[8].0);
            assert(route_view(routes@[9]).0 =~= served()[9].0);
            assert(route_view(routes@[10]).0 =~= served()[10].0);
            assert(route_view(routes@[11]).0 =~= served()[11].0);
            assert(route_view(routes@[12]).0 =~= served()[12].0);
            assert(route_view(routes@[13]).0 =~= served()[13].0);
            assert(route_view(routes@[14]).0 =~= served()[14].0);
            assert(route_view(routes@[15]).0 =~= served()[15].0);
            assert(route_view(routes@[16]).0 =~= served()[16].0);
            assert(route_view(routes@[17]).0 =~= served()[17].0);
    }
    assert(routes@.map_values(|r: Route| route_view(r)) =~= served());
    routes
}

// ── dispatch ────────────────────────────────────────────────────────────────────────────────

/// The one path served outside the table, to anyone: the API's own description.
pub const DOCUMENT_PATH: &'static str = "/openapi.json";

/// Where the segment `path` starts with ends: at its first `/`, or at its end.
pub open spec fn segment_end(path: Seq<char>) -> int {
    match find(path, '/') {
        Some(i) => i,
        None => path.len() as int,
    }
}

/// Whether a request path fits a route's path: its literal `char`s stand for themselves, a
/// `{name}` for one non-empty segment, and a trailing `{*name}` for the non-empty rest.
pub open spec fn fits(template: Seq<char>, path: Seq<char>) -> bool
    decreases template.len(),
{
    if template.len() == 0 {
        path.len() == 0
    } else if template[0] == '{' {
        if template.len() > 1 && template[1] == '*' {
            path.len() > 0
        } else {
            match find(template, '}') {
                Some(close) => {
                    proof {
                        lemma_find(template, '}');
                    }
                    segment_end(path) > 0 && fits(template.skip(close + 1), path.skip(segment_end(path)))
                },
                None => false,
            }
        }
    } else {
        path.len() > 0 && path[0] == template[0] && fits(template.drop_first(), path.drop_first())
    }
}

/// Whether `path` fits `template` (see [`fits`]).
fn fits_chars(template: &Vec<char>, path: &Vec<char>) -> (fit: bool)
    ensures
        fit == fits(template@, path@),
    decreases template@.len(),
{
    if template.len() == 0 {
        return path.len() == 0;
    }
    if template[0] == '{' {
        if template.len() > 1 && template[1] == '*' {
            return path.len() > 0;
        }
        match find_char(template, '}') {
            None => false,
            Some(close) => {
                proof {
                    lemma_find(template@, '}');
                    lemma_find(path@, '/');
                }
                let end = match find_char(path, '/') {
                    Some(i) => i,
                    None => path.len(),
                };
                if end == 0 {
                    return false;
                }
                let rest_template = slice_of(template, close + 1, template.len());
                let rest_path = slice_of(path, end, path.len());
                assert(rest_template@ =~= template@.skip(close + 1));
                assert(rest_path@ =~= path@.skip(end as int));
                fits_chars(&rest_template, &rest_path)
            },
        }
    } else {
        if path.len() == 0 || path[0] != template[0] {
            return false;
        }
        let rest_template = slice_of(template, 1, template.len());
        let rest_path = slice_of(path, 1, path.len());
        assert(rest_template@ =~= template@.drop_first());
        assert(rest_path@ =~= path@.drop_first());
        fits_chars(&rest_template, &rest_path)
    }
}

/// The first route, from the `k`th on, whose path `path` fits.
pub open spec fn first_fit(path: Seq<char>, k: int) -> Option<int>
    decreases served().len() - k,
{
    if k < 0 || k >= served().len() {
        None
    } else if fits(served()[k].1, path) {
        Some(k)
    } else {
        first_fit(path, k + 1)
    }
}

/// What the router does with a request, as plain values.
#[derive(Debug, Clone, Copy, PartialEq, Eq)]
pub enum Outcome {
    /// Serves the API's description.
    Document,
    /// Runs the handler of the route at that place in the table.
    Serve(usize),
    /// Refuses it: no token, or the wrong one.
    Unauthorized,
    /// Refuses it: the path is served, the method is not.
    WrongMethod,
    /// Refuses it: nothing is served at that path.
    NotRouted,
}

/// What the router does with `method` on `path`, the request presenting `presented` as its
/// bearer token, on a node whose token is `token`.
///
/// The description is served to anyone. Every other path is looked up in the table; a path it
/// does not hold is not routed, and a method its route does not answer is the wrong method —
/// both told before the token is looked at, as the router's guard runs only on a route that
/// matched. A matched route runs its handler only for this node's token.
pub open spec fn outcome_of(method: Seq<char>, path: Seq<char>, presented: Seq<char>, token: Seq<char>) -> Outcome {
    if path == DOCUMENT_PATH@ {
        if method == "GET"@ {
            Outcome::Document
        } else {
            Outcome::WrongMethod
        }
    } else {
        match first_fit(path, 0) {
            None => Outcome::NotRouted,
            Some(k) => if !served()[k].0.contains(method) {
                Outcome::WrongMethod
            } else if presented != token {
                Outcome::Unauthorized
            } else {
                Outcome::Serve(k as usize)
            },
        }
    }
}

/// What a request comes to.
#[derive(Debug, Clone, PartialEq, Eq)]
pub enum Dispatch {
    /// `GET /openapi.json`: the API's description.
    Document,
    /// The handler of the route at this place in [`routes`].
    Serve(usize),
    /// Refused, in the error envelope, before any handler ran.
    Refused(ApiError),
}

/// `dispatch` is what `outcome_of` says, with each refusal spelled as its answer is.
pub open spec fn dispatches(d: Dispatch, outcome: Outcome, method: Seq<char>, path: Seq<char>) -> bool {
    match outcome {
        Outcome::Document => d == Dispatch::Document,
        Outcome::Serve(k) => d matches Dispatch::Serve(i) && i == k,
        Outcome::Unauthorized => d matches Dispatch::Refused(e) && e.error == Kind::Unauthorized
            && e.message@ == unauthorized_message() && e.detail is None,
        Outcome::WrongMethod => d matches Dispatch::Refused(e) && e.error == Kind::BadRequest
            && e.message@ == method + " is not a method this node accepts on "@ + path && e.detail is None,
        Outcome::NotRouted => d matches Dispatch::Refused(e) && e.error == Kind::NotFound
            && e.message@ == "this node serves no "@ + method + " "@ + path
            + "; GET /openapi.json lists what it does serve"@ && e.detail is None,
    }
}

/// Whether `method` is one of `methods`.
fn answers(methods: &Vec<&'static str>, method: &str) -> (found: bool)
    ensures
        found == methods@.map_values(|m: &'static str| m@).contains(method@),
{
    let ghost names = methods@.map_values(|m: &'static str| m@);
    let mut i: usize = 0;
    while i < methods.len()
        invariant
            i <= methods@.len(),
            names == methods@.map_values(|m: &'static str| m@),
            forall|j: int| 0 <= j < i ==> names[j] != method@,
        decreases methods@.len() - i,
    {
        if str_eq(methods[i], method) {
            assert(names[i as int] == method@);
            return true;
        }
        i = i + 1;
    }
    assert forall|j: int| 0 <= j < names.len() implies names[j] != method@ by {}
    false
}

/// Routes a request: `method` on `path`, with the `Authorization` header's value when it has
/// one that is text, on a node whose token is `token`.
pub fn dispatch(method: &str, path: &str, authorization: Option<&str>, token: &str) -> (d: Dispatch)
    ensures
        dispatches(
            d,
            outcome_of(method@, path@, bearer_of(match authorization { Some(v) => Some(v@), None => None }), token@),
            method@,
            path@,
        ),
{
    if str_eq(path, DOCUMENT_PATH) {
        if str_eq(method, "GET") {
            return Dispatch::Document;
        }
        return Dispatch::Refused(wrong_method(method, path));
    }
    let table = routes();
    let chars = chars_of(path);
    let mut i: usize = 0;
    while i < table.len()
        invariant
            i <= table@.len(),
            table@.map_values(|r: Route| route_view(r)) == served(),
            chars@ == path@,
            path@ != DOCUMENT_PATH@,
            first_fit(path@, 0) == first_fit(path@, i as int),
        decreases table@.len() - i,
    {
        assert(route_view(table@[i as int]) == served()[i as int]);
        let template = chars_of(table[i].path);
        if fits_chars(&template, &chars) {
            proof {
                assert(template@ == served()[i as int].1);
                assert(first_fit(path@, i as int) == Some(i as int));
                assert(route_view(table@[i as int]).0 == served()[i as int].0);
                assert(table@[i as int].methods@.map_values(|m: &'static str| m@) =~= served()[i as int].0);
            }
            if !answers(&table[i].methods, method) {
                return Dispatch::Refused(wrong_method(method, path));
            }
            return match authorize(authorization, token) {
                Ok(()) => Dispatch::Serve(i),
                Err(e) => Dispatch::Refused(e),
            };
        }
        i = i + 1;
    }
    Dispatch::Refused(not_routed(method, path))
}

/// No handler runs without this node's token: a request is served only when it presents the
/// token, and the description is the one thing answered without one. Every route in the table
/// is behind the check: a request that reaches a route with a method it answers, and without
/// the token, is refused as unauthorized.
pub proof fn lemma_every_route_is_behind_the_token(
    method: Seq<char>,
    path: Seq<char>,
    presented: Seq<char>,
    token: Seq<char>,
)
    ensures
        outcome_of(method, path, presented, token) matches Outcome::Serve(_) ==> presented == token,
        outcome_of(method, path, presented, token) == Outcome::Document ==> path == DOCUMENT_PATH@,
        ({
            let k = first_fit(path, 0);
            &&& path != DOCUMENT_PATH@
            &&& k matches Some(k) && served()[k].0.contains(method)
            &&& presented != token
        }) ==> outcome_of(method, path, presented, token) == Outcome::Unauthorized,
{
}

/// No path from the `i`th on is listed again after it.
pub open spec fn listed_once_from(i: nat) -> bool
    decreases served().len() - i,
{
    if i >= served().len() {
        true
    } else {
        distinct_after(i, i + 1) && listed_once_from(i + 1)
    }
}

/// The `i`th path is none of those from the `j`th on.
pub open spec fn distinct_after(i: nat, j: nat) -> bool
    decreases served().len() - j,
{
    if j >= served().len() {
        true
    } else {
        served()[i as int].1 != served()[j as int].1 && distinct_after(i, j + 1)
    }
}

/// The table is a table: no path is listed twice, every method it names is one of `GET`,
/// `POST`, `PUT` and `DELETE`, and the description's path is not in it.
pub proof fn lemma_the_table_lists_each_path_once()
    ensures
        forall|i: int, j: int| 0 <= i < j < served().len() ==> served()[i].1 != served()[j].1,
        forall|i: int, m: int|
            0 <= i < served().len() && 0 <= m < served()[i].0.len() ==> {
                let method = #[trigger] served()[i].0[m];
                method == "GET"@ || method == "POST"@ || method == "PUT"@ || method == "DELETE"@
            },
        forall|i: int| 0 <= i < served().len() ==> served()[i].1 != DOCUMENT_PATH@,
{
    reveal_strlit("/node");
    reveal_strlit("/blocks");
    reveal_strlit("/blocks/pull");
    reveal_strlit("/blocks/available");
    reveal_strlit("/blocks/available/{*reference}");
    reveal_strlit("/services");
    reveal_strlit("/services/{service}");
    reveal_strlit("/services/{service}/errors");
    reveal_strlit("/services/{service}/start");
    reveal_strlit("/services/{service}/stop");
    reveal_strlit("/services/{service}/reload");
    reveal_strlit("/services/{service}/state/{instance}");
    reveal_strlit("/state/orphans");
    reveal_strlit("/state/orphans/{namespace}");
    reveal_strlit("/taps");
    reveal_strlit("/taps/{tap}");
    reveal_strlit("/taps/{tap}/stream");
    reveal_strlit("/logs/stream");
    reveal_strlit("GET");
    reveal_strlit("POST");
    reveal_strlit("PUT");
    reveal_strlit("DELETE");
    reveal_strlit("/openapi.json");
    assert(listed_once_from(0)) by {
        assert(served()[0].1.len() != served()[1].1.len());
        assert(served()[0].1.len() != served()[2].1.len());
        assert(served()[0].1.len() != served()[3].1.len());
        assert(served()[0].1.len() != served()[4].1.len());
        assert(served()[0].1.len() != served()[5].1.len());
        assert(served()[0].1.len() != served()[6].1.len());
        assert(served()[0].1.len() != served()[7].1.len());
        assert(served()[0].1.len() != served()[8].1.len());
        assert(served()[0].1.len() != served()[9].1.len());
        assert(served()[0].1.len() != served()[10].1.len());
        assert(served()[0].1.len() != served()[11].1.len());
        assert(served()[0].1.len() != served()[12].1.len());
        assert(served()[0].1.len() != served()[13].1.len());
        assert(served()[0].1[1] != served()[14].1[1]);
        assert(served()[0].1.len() != served()[15].1.len());
        assert(served()[0].1.len() != served()[16].1.len());
        assert(served()[0].1.len() != served()[17].1.len());
        assert(served()[1].1.len() != served()[2].1.len());
        assert(served()[1].1.len() != served()[3].1.len());
        assert(served()[1].1.len() != served()[4].1.len());
        assert(served()[1].1.len() != served()[5].1.len());
        assert(served()[1].1.len() != served()[6].1.len());
        assert(served()[1].1.len() != served()[7].1.len());
        assert(served()[1].1.len() != served()[8].1.len());
        assert(served()[1].1.len() != served()[9].1.len());
        assert(served()[1].1.len() != served()[10].1.len());
        assert(served()[1].1.len() != served()[11].1.len());
        assert(served()[1].1.len() != served()[12].1.len());
        assert(served()[1].1.len() != served()[13].1.len());
        assert(served()[1].1.len() != served()[14].1.len());
        assert(served()[1].1.len() != served()[15].1.len());
        assert(served()[1].1.len() != served()[16].1.len());
        assert(served()[1].1.len() != served()[17].1.len());
        assert(served()[2].1.len() != served()[3].1.len());
        assert(served()[2].1.len() != served()[4].1.len());
        assert(served()[2].1.len() != served()[5].1.len());
        assert(served()[2].1.len() != served()[6].1.len());
        assert(served()[2].1.len() != served()[7].1.len());
        assert(served()[2].1.len() != served()[8].1.len());
        assert(served()[2].1.len() != served()[9].1.len());
        assert(served()[2].1.len() != served()[10].1.len());
        assert(served()[2].1.len() != served()[11].1.len());
        assert(served()[2].1.len() != served()[12].1.len());
        assert(served()[2].1.len() != served()[13].1.len());
        assert(served()[2].1.len() != served()[14].1.len());
        assert(served()[2].1.len() != served()[15].1.len());
        assert(served()[2].1.len() != served()[16].1.len());
        assert(served()[2].1[1] != served()[17].1[1]);
        assert(served()[3].1.len() != served()[4].1.len());
        assert(served()[3].1.len() != served()[5].1.len());
        assert(served()[3].1.len() != served()[6].1.len());
        assert(served()[3].1.len() != served()[7].1.len());
        assert(served()[3].1.len() != served()[8].1.len());
        assert(served()[3].1.len() != served()[9].1.len());
        assert(served()[3].1.len() != served()[10].1.len());
        assert(served()[3].1.len() != served()[11].1.len());
        assert(served()[3].1.len() != served()[12].1.len());
        assert(served()[3].1.len() != served()[13].1.len());
        assert(served()[3].1.len() != served()[14].1.len());
        assert(served()[3].1.len() != served()[15].1.len());
        assert(served()[3].1.len() != served()[16].1.len());
        assert(served()[3].1.len() != served()[17].1.len());
        assert(served()[4].1.len() != served()[5].1.len());
        assert(served()[4].1.len() != served()[6].1.len());
        assert(served()[4].1.len() != served()[7].1.len());
        assert(served()[4].1.len() != served()[8].1.len());
        assert(served()[4].1.len() != served()[9].1.len());
        assert(served()[4].1.len() != served()[10].1.len());
        assert(served()[4].1.len() != served()[11].1.len());
        assert(served()[4].1.len() != served()[12].1.len());
        assert(served()[4].1.len() != served()[13].1.len());
        assert(served()[4].1.len() != served()[14].1.len());
        assert(served()[4].1.len() != served()[15].1.len());
        assert(served()[4].1.len() != served()[16].1.len());
        assert(served()[4].1.len() != served()[17].1.len());
        assert(served()[5].1.len() != served()[6].1.len());
        assert(served()[5].1.len() != served()[7].1.len());
        assert(served()[5].1.len() != served()[8].1.len());
        assert(served()[5].1.len() != served()[9].1.len());
        assert(served()[5].1.len() != served()[10].1.len());
        assert(served()[5].1.len() != served()[11].1.len());
        assert(served()[5].1.len() != served()[12].1.len());
        assert(served()[5].1.len() != served()[13].1.len());
        assert(served()[5].1.len() != served()[14].1.len());
        assert(served()[5].1.len() != served()[15].1.len());
        assert(served()[5].1.len() != served()[16].1.len());
        assert(served()[5].1.len() != served()[17].1.len());
        assert(served()[6].1.len() != served()[7].1.len());
        assert(served()[6].1.len() != served()[8].1.len());
        assert(served()[6].1.len() != served()[9].1.len());
        assert(served()[6].1.len() != served()[10].1.len());
        assert(served()[6].1.len() != served()[11].1.len());
        assert(served()[6].1.len() != served()[12].1.len());
        assert(served()[6].1.len() != served()[13].1.len());
        assert(served()[6].1.len() != served()[14].1.len());
        assert(served()[6].1.len() != served()[15].1.len());
        assert(served()[6].1.len() != served()[16].1.len());
        assert(served()[6].1.len() != served()[17].1.len());
        assert(served()[7].1.len() != served()[8].1.len());
        assert(served()[7].1.len() != served()[9].1.len());
        assert(served()[7].1[20] != served()[10].1[20]);
        assert(served()[7].1.len() != served()[11].1.len());
        assert(served()[7].1.len() != served()[12].1.len());
        assert(served()[7].1[2] != served()[13].1[2]);
        assert(served()[7].1.len() != served()[14].1.len());
        assert(served()[7].1.len() != served()[15].1.len());
        assert(served()[7].1.len() != served()[16].1.len());
        assert(served()[7].1.len() != served()[17].1.len());
        assert(served()[8].1.len() != served()[9].1.len());
        assert(served()[8].1.len() != served()[10].1.len());
        assert(served()[8].1.len() != served()[11].1.len());
        assert(served()[8].1.len() != served()[12].1.len());
        assert(served()[8].1.len() != served()[13].1.len());
        assert(served()[8].1.len() != served()[14].1.len());
        assert(served()[8].1.len() != served()[15].1.len());
        assert(served()[8].1.len() != served()[16].1.len());
        assert(served()[8].1.len() != served()[17].1.len());
        assert(served()[9].1.len() != served()[10].1.len());
        assert(served()[9].1.len() != served()[11].1.len());
        assert(served()[9].1.len() != served()[12].1.len());
        assert(served()[9].1.len() != served()[13].1.len());
        assert(served()[9].1.len() != served()[14].1.len());
        assert(served()[9].1.len() != served()[15].1.len());
        assert(served()[9].1.len() != served()[16].1.len());
        assert(served()[9].1.len() != served()[17].1.len());
        assert(served()[10].1.len() != served()[11].1.len());
        assert(served()[10].1.len() != served()[12].1.len());
        assert(served()[10].1[2] != served()[13].1[2]);
        assert(served()[10].1.len() != served()[14].1.len());
        assert(served()[10].1.len() != served()[15].1.len());
        assert(served()[10].1.len() != served()[16].1.len());
        assert(served()[10].1.len() != served()[17].1.len());
        assert(served()[11].1.len() != served()[12].1.len());
        assert(served()[11].1.len() != served()[13].1.len());
        assert(served()[11].1.len() != served()[14].1.len());
        assert(served()[11].1.len() != served()[15].1.len());
        assert(served()[11].1.len() != served()[16].1.len());
        assert(served()[11].1.len() != served()[17].1.len());
        assert(served()[12].1.len() != served()[13].1.len());
        assert(served()[12].1.len() != served()[14].1.len());
        assert(served()[12].1.len() != served()[15].1.len());
        assert(served()[12].1.len() != served()[16].1.len());
        assert(served()[12].1.len() != served()[17].1.len());
        assert(served()[13].1.len() != served()[14].1.len());
        assert(served()[13].1.len() != served()[15].1.len());
        assert(served()[13].1.len() != served()[16].1.len());
        assert(served()[13].1.len() != served()[17].1.len());
        assert(served()[14].1.len() != served()[15].1.len());
        assert(served()[14].1.len() != served()[16].1.len());
        assert(served()[14].1.len() != served()[17].1.len());
        assert(served()[15].1.len() != served()[16].1.len());
        assert(served()[15].1.len() != served()[17].1.len());
        assert(served()[16].1.len() != served()[17].1.len());
        reveal_with_fuel(listed_once_from, 19);
        reveal_with_fuel(distinct_after, 19);
    }
    assert(served()[0].1.len() != DOCUMENT_PATH@.len());
    assert(served()[1].1.len() != DOCUMENT_PATH@.len());
    assert(served()[2].1.len() != DOCUMENT_PATH@.len());
    assert(served()[3].1.len() != DOCUMENT_PATH@.len());
    assert(served()[4].1.len() != DOCUMENT_PATH@.len());
    assert(served()[5].1.len() != DOCUMENT_PATH@.len());
    assert(served()[6].1.len() != DOCUMENT_PATH@.len());
    assert(served()[7].1.len() != DOCUMENT_PATH@.len());
    assert(served()[8].1.len() != DOCUMENT_PATH@.len());
    assert(served()[9].1.len() != DOCUMENT_PATH@.len());
    assert(served()[10].1.len() != DOCUMENT_PATH@.len());
    assert(served()[11].1.len() != DOCUMENT_PATH@.len());
    assert(served()[12].1.len() != DOCUMENT_PATH@.len());
    assert(served()[13].1.len() != DOCUMENT_PATH@.len());
    assert(served()[14].1.len() != DOCUMENT_PATH@.len());
    assert(served()[15].1.len() != DOCUMENT_PATH@.len());
    assert(served()[16].1.len() != DOCUMENT_PATH@.len());
    assert(served()[17].1.len() != DOCUMENT_PATH@.len());
    lemma_listed_once(0);
}

/// What `distinct_after` says, without the recursion.
proof fn lemma_distinct_after(i: nat, j: nat)
    requires
        distinct_after(i, j),
    ensures
        forall|b: int| j <= b < served().len() ==> served()[i as int].1 != served()[b].1,
    decreases served().len() - j,
{
    if j < served().len() {
        lemma_distinct_after(i, j + 1);
    }
}

/// What `listed_once_from` says, without the recursion.
proof fn lemma_listed_once(i: nat)
    requires
        listed_once_from(i),
    ensures
        forall|a: int, b: int| i <= a < b < served().len() ==> served()[a].1 != served()[b].1,
    decreases served().len() - i,
{
    if i < served().len() {
        lemma_distinct_after(i, i + 1);
        lemma_listed_once(i + 1);
    }
}

/// Whether no request path can fit both `a` and `b`, as far as reading them side by side
/// from the left shows: a literal `char` where they differ, one ending where the other goes
/// on, or a placeholder, which takes a non-empty segment, against a `/`.
pub open spec fn apart(a: Seq<char>, b: Seq<char>) -> bool
    decreases a.len() + b.len(),
{
    if a.len() == 0 {
        b.len() > 0
    } else if b.len() == 0 {
        true
    } else if a[0] != '{' && b[0] != '{' {
        a[0] != b[0] || apart(a.drop_first(), b.drop_first())
    } else if a[0] == '{' && b[0] == '{' {
        if (a.len() > 1 && a[1] == '*') || (b.len() > 1 && b[1] == '*') {
            false
        } else {
            match (find(a, '}'), find(b, '}')) {
                (Some(ca), Some(cb)) => {
                    proof {
                        lemma_find(a, '}');
                        lemma_find(b, '}');
                    }
                    apart(a.skip(ca + 1), b.skip(cb + 1))
                },
                _ => true,
            }
        }
    } else if a[0] == '{' {
        !(a.len() > 1 && a[1] == '*') && b[0] == '/'
    } else {
        !(b.len() > 1 && b[1] == '*') && a[0] == '/'
    }
}

/// Two routes read apart fit no path in common.
pub proof fn lemma_apart_routes_share_no_path(a: Seq<char>, b: Seq<char>, path: Seq<char>)
    requires
        apart(a, b),
    ensures
        !(fits(a, path) && fits(b, path)),
    decreases a.len() + b.len(),
{
    lemma_find(path, '/');
    if a.len() == 0 || b.len() == 0 {
    } else if a[0] != '{' && b[0] != '{' {
        if a[0] == b[0] && path.len() > 0 {
            lemma_apart_routes_share_no_path(a.drop_first(), b.drop_first(), path.drop_first());
        }
    } else if a[0] == '{' && b[0] == '{' {
        lemma_find(a, '}');
        lemma_find(b, '}');
        match (find(a, '}'), find(b, '}')) {
            (Some(ca), Some(cb)) => {
                lemma_apart_routes_share_no_path(a.skip(ca + 1), b.skip(cb + 1), path.skip(segment_end(path)));
            },
            _ => {},
        }
    }
}

/// The routes from the `i`th on are pairwise apart.
pub open spec fn apart_from(i: nat) -> bool
    decreases served().len() - i,
{
    if i >= served().len() {
        true
    } else {
        apart_after(i, i + 1) && apart_from(i + 1)
    }
}

/// The `i`th route is apart from every route from the `j`th on.
pub open spec fn apart_after(i: nat, j: nat) -> bool
    decreases served().len() - j,
{
    if j >= served().len() {
        true
    } else {
        apart(served()[i as int].1, served()[j as int].1) && apart_after(i, j + 1)
    }
}

proof fn lemma_apart_after(i: nat, j: nat)
    requires
        apart_after(i, j),
    ensures
        forall|b: int| j <= b < served().len() ==> apart(served()[i as int].1, served()[b].1),
    decreases served().len() - j,
{
    if j < served().len() {
        lemma_apart_after(i, j + 1);
    }
}

proof fn lemma_apart_from(i: nat)
    requires
        apart_from(i),
    ensures
        forall|a: int, b: int| i <= a < b < served().len() ==> apart(served()[a].1, served()[b].1),
    decreases served().len() - i,
{
    if i < served().len() {
        lemma_apart_after(i, i + 1);
        lemma_apart_from(i + 1);
    }
}

/// The route at 0 is apart from every later one.
#[verifier::spinoff_prover]
#[verifier::rlimit(60)]
proof fn lemma_row_0_is_apart()
    ensures
        apart_after(0, 1),
{
    reveal_strlit("/node");
    reveal_strlit("/blocks");
    reveal_strlit("/blocks/pull");
    reveal_strlit("/blocks/available");
    reveal_strlit("/blocks/available/{*reference}");
    reveal_strlit("/services");
    reveal_strlit("/services/{service}");
    reveal_strlit("/services/{service}/errors");
    reveal_strlit("/services/{service}/start");
    reveal_strlit("/services/{service}/stop");
    reveal_strlit("/services/{service}/reload");
    reveal_strlit("/services/{service}/state/{instance}");
    reveal_strlit("/state/orphans");
    reveal_strlit("/state/orphans/{namespace}");
    reveal_strlit("/taps");
    reveal_strlit("/taps/{tap}");
    reveal_strlit("/taps/{tap}/stream");
    reveal_strlit("/logs/stream");
    assert(apart(served()[0].1, served()[1].1)) by {
        reveal_with_fuel(apart, 24);
        reveal_with_fuel(find, 12);
    }
    assert(apart(served()[0].1, served()[2].1)) by {
        reveal_with_fuel(apart, 24);
        reveal_with_fuel(find, 12);
    }
    assert(apart(served()[0].1, served()[3].1)) by {
        reveal_with_fuel(apart, 24);
        reveal_with_fuel(find, 12);
    }
    assert(apart(served()[0].1, served()[4].1)) by {
        reveal_with_fuel(apart, 24);
        reveal_with_fuel(find, 12);
    }
    assert(apart(served()[0].1, served()[5].1)) by {
        reveal_with_fuel(apart, 24);
        reveal_with_fuel(find, 12);
    }
    assert(apart(served()[0].1, served()[6].1)) by {
        reveal_with_fuel(apart, 24);
        reveal_with_fuel(find, 12);
    }
    assert(apart(served()[0].1, served()[7].1)) by {
        reveal_with_fuel(apart, 24);
        reveal_with_fuel(find, 12);
    }
    assert(apart(served()[0].1, served()[8].1)) by {
        reveal_with_fuel(apart, 24);
        reveal_with_fuel(find, 12);
    }
    assert(apart(served()[0].1, served()[9].1)) by {
        reveal_with_fuel(apart, 24);
        reveal_with_fuel(find, 12);
    }
    assert(apart(served()[0].1, served()[10].1)) by {
        reveal_with_fuel(apart, 24);
        reveal_with_fuel(find, 12);
    }
    assert(apart(served()[0].1, served()[11].1)) by {
        reveal_with_fuel(apart, 24);
        reveal_with_fuel(find, 12);
    }
    assert(apart(served()[0].1, served()[12].1)) by {
        reveal_with_fuel(apart, 24);
        reveal_with_fuel(find, 12);
    }
    assert(apart(served()[0].1, served()[13].1)) by {
        reveal_with_fuel(apart, 24);
        reveal_with_fuel(find, 12);
    }
    assert(apart(served()[0].1, served()[14].1)) by {
        reveal_with_fuel(apart, 24);
        reveal_with_fuel(find, 12);
    }
    assert(apart(served()[0].1, served()[15].1)) by {
        reveal_with_fuel(apart, 24);
        reveal_with_fuel(find, 12);
    }
    assert(apart(served()[0].1, served()[16].1)) by {
        reveal_with_fuel(apart, 24);
        reveal_with_fuel(find, 12);
    }
    assert(apart(served()[0].1, served()[17].1)) by {
        reveal_with_fuel(apart, 24);
        reveal_with_fuel(find, 12);
    }
    reveal_with_fuel(apart_after, 19);
}

/// The route at 1 is apart from every later one.
#[verifier::spinoff_prover]
#[verifier::rlimit(60)]
proof fn lemma_row_1_is_apart()
    ensures
        apart_after(1, 2),
{
    reveal_strlit("/node");
    reveal_strlit("/blocks");
    reveal_strlit("/blocks/pull");
    reveal_strlit("/blocks/available");
    reveal_strlit("/blocks/available/{*reference}");
    reveal_strlit("/services");
    reveal_strlit("/services/{service}");
    reveal_strlit("/services/{service}/errors");
    reveal_strlit("/services/{service}/start");
    reveal_strlit("/services/{service}/stop");
    reveal_strlit("/services/{service}/reload");
    reveal_strlit("/services/{service}/state/{instance}");
    reveal_strlit("/state/orphans");
    reveal_strlit("/state/orphans/{namespace}");
    reveal_strlit("/taps");
    reveal_strlit("/taps/{tap}");
    reveal_strlit("/taps/{tap}/stream");
    reveal_strlit("/logs/stream");
    assert(apart(served()[1].1, served()[2].1)) by {
        reveal_with_fuel(apart, 24);
        reveal_with_fuel(find, 12);
    }
    assert(apart(served()[1].1, served()[3].1)) by {
        reveal_with_fuel(apart, 24);
        reveal_with_fuel(find, 12);
    }
    assert(apart(served()[1].1, served()[4].1)) by {
        reveal_with_fuel(apart, 24);
        reveal_with_fuel(find, 12);
    }
    assert(apart(served()[1].1, served()[5].1)) by {
        reveal_with_fuel(apart, 24);
        reveal_with_fuel(find, 12);
    }
    assert(apart(served()[1].1, served()[6].1)) by {
        reveal_with_fuel(apart, 24);
        reveal_with_fuel(find, 12);
    }
    assert(apart(served()[1].1, served()[7].1)) by {
        reveal_with_fuel(apart, 24);
        reveal_with_fuel(find, 12);
    }
    assert(apart(served()[1].1, served()[8].1)) by {
        reveal_with_fuel(apart, 24);
        reveal_with_fuel(find, 12);
    }
    assert(apart(served()[1].1, served()[9].1)) by {
        reveal_with_fuel(apart, 24);
        reveal_with_fuel(find, 12);
    }
    assert(apart(served()[1].1, served()[10].1)) by {
        reveal_with_fuel(apart, 24);
        reveal_with_fuel(find, 12);
    }
    assert(apart(served()[1].1, served()[11].1)) by {
        reveal_with_fuel(apart, 24);
        reveal_with_fuel(find, 12);
    }
    assert(apart(served()[1].1, served()[12].1)) by {
        reveal_with_fuel(apart, 24);
        reveal_with_fuel(find, 12);
    }
    assert(apart(served()[1].1, served()[13].1)) by {
        reveal_with_fuel(apart, 24);
        reveal_with_fuel(find, 12);
    }
    assert(apart(served()[1].1, served()[14].1)) by {
        reveal_with_fuel(apart, 24);
        reveal_with_fuel(find, 12);
    }
    assert(apart(served()[1].1, served()[15].1)) by {
        reveal_with_fuel(apart, 24);
        reveal_with_fuel(find, 12);
    }
    assert(apart(served()[1].1, served()[16].1)) by {
        reveal_with_fuel(apart, 24);
        reveal_with_fuel(find, 12);
    }
    assert(apart(served()[1].1, served()[17].1)) by {
        reveal_with_fuel(apart, 24);
        reveal_with_fuel(find, 12);
    }
    reveal_with_fuel(apart_after, 19);
}

/// The route at 2 is apart from every later one.
#[verifier::spinoff_prover]
#[verifier::rlimit(60)]
proof fn lemma_row_2_is_apart()
    ensures
        apart_after(2, 3),
{
    reveal_strlit("/node");
    reveal_strlit("/blocks");
    reveal_strlit("/blocks/pull");
    reveal_strlit("/blocks/available");
    reveal_strlit("/blocks/available/{*reference}");
    reveal_strlit("/services");
    reveal_strlit("/services/{service}");
    reveal_strlit("/services/{service}/errors");
    reveal_strlit("/services/{service}/start");
    reveal_strlit("/services/{service}/stop");
    reveal_strlit("/services/{service}/reload");
    reveal_strlit("/services/{service}/state/{instance}");
    reveal_strlit("/state/orphans");
    reveal_strlit("/state/orphans/{namespace}");
    reveal_strlit("/taps");
    reveal_strlit("/taps/{tap}");
    reveal_strlit("/taps/{tap}/stream");
    reveal_strlit("/logs/stream");
    assert(apart(served()[2].1, served()[3].1)) by {
        reveal_with_fuel(apart, 24);
        reveal_with_fuel(find, 12);
    }
    assert(apart(served()[2].1, served()[4].1)) by {
        reveal_with_fuel(apart, 24);
        reveal_with_fuel(find, 12);
    }
    assert(apart(served()[2].1, served()[5].1)) by {
        reveal_with_fuel(apart, 24);
        reveal_with_fuel(find, 12);
    }
    assert(apart(served()[2].1, served()[6].1)) by {
        reveal_with_fuel(apart, 24);
        reveal_with_fuel(find, 12);
    }
    assert(apart(served()[2].1, served()[7].1)) by {
        reveal_with_fuel(apart, 24);
        reveal_with_fuel(find, 12);
    }
    assert(apart(served()[2].1, served()[8].1)) by {
        reveal_with_fuel(apart, 24);
        reveal_with_fuel(find, 12);
    }
    assert(apart(served()[2].1, served()[9].1)) by {
        reveal_with_fuel(apart, 24);
        reveal_with_fuel(find, 12);
    }
    assert(apart(served()[2].1, served()[10].1)) by {
        reveal_with_fuel(apart, 24);
        reveal_with_fuel(find, 12);
    }
    assert(apart(served()[2].1, served()[11].1)) by {
        reveal_with_fuel(apart, 24);
        reveal_with_fuel(find, 12);
    }
    assert(apart(served()[2].1, served()[12].1)) by {
        reveal_with_fuel(apart, 24);
        reveal_with_fuel(find, 12);
    }
    assert(apart(served()[2].1, served()[13].1)) by {
        reveal_with_fuel(apart, 24);
        reveal_with_fuel(find, 12);
    }
    assert(apart(served()[2].1, served()[14].1)) by {
        reveal_with_fuel(apart, 24);
        reveal_with_fuel(find, 12);
    }
    assert(apart(served()[2].1, served()[15].1)) by {
        reveal_with_fuel(apart, 24);
        reveal_with_fuel(find, 12);
    }
    assert(apart(served()[2].1, served()[16].1)) by {
        reveal_with_fuel(apart, 24);
        reveal_with_fuel(find, 12);
    }
    assert(apart(served()[2].1, served()[17].1)) by {
        reveal_with_fuel(apart, 24);
        reveal_with_fuel(find, 12);
    }
    reveal_with_fuel(apart_after, 19);
}

/// The route at 3 is apart from every later one.
#[verifier::spinoff_prover]
#[verifier::rlimit(60)]
proof fn lemma_row_3_is_apart()
    ensures
        apart_after(3, 4),
{
    reveal_strlit("/node");
    reveal_strlit("/blocks");
    reveal_strlit("/blocks/pull");
    reveal_strlit("/blocks/available");
    reveal_strlit("/blocks/available/{*reference}");
    reveal_strlit("/services");
    reveal_strlit("/services/{service}");
    reveal_strlit("/services/{service}/errors");
    reveal_strlit("/services/{service}/start");
    reveal_strlit("/services/{service}/stop");
    reveal_strlit("/services/{service}/reload");
    reveal_strlit("/services/{service}/state/{instance}");
    reveal_strlit("/state/orphans");
    reveal_strlit("/state/orphans/{namespace}");
    reveal_strlit("/taps");
    reveal_strlit("/taps/{tap}");
    reveal_strlit("/taps/{tap}/stream");
    reveal_strlit("/logs/stream");
    assert(apart(served()[3].1, served()[4].1)) by {
        reveal_with_fuel(apart, 24);
        reveal_with_fuel(find, 12);
    }
    assert(apart(served()[3].1, served()[5].1)) by {
        reveal_with_fuel(apart, 24);
        reveal_with_fuel(find, 12);
    }
    assert(apart(served()[3].1, served()[6].1)) by {
        reveal_with_fuel(apart, 24);
        reveal_with_fuel(find, 12);
    }
    assert(apart(served()[3].1, served()[7].1)) by {
        reveal_with_fuel(apart, 24);
        reveal_with_fuel(find, 12);
    }
    assert(apart(served()[3].1, served()[8].1)) by {
        reveal_with_fuel(apart, 24);
        reveal_with_fuel(find, 12);
    }
    assert(apart(served()[3].1, served()[9].1)) by {
        reveal_with_fuel(apart, 24);
        reveal_with_fuel(find, 12);
    }
    assert(apart(served()[3].1, served()[10].1)) by {
        reveal_with_fuel(apart, 24);
        reveal_with_fuel(find, 12);
    }
    assert(apart(served()[3].1, served()[11].1)) by {
        reveal_with_fuel(apart, 24);
        reveal_with_fuel(find, 12);
    }
    assert(apart(served()[3].1, served()[12].1)) by {
        reveal_with_fuel(apart, 24);
        reveal_with_fuel(find, 12);
    }
    assert(apart(served()[3].1, served()[13].1)) by {
        reveal_with_fuel(apart, 24);
        reveal_with_fuel(find, 12);
    }
    assert(apart(served()[3].1, served()[14].1)) by {
        reveal_with_fuel(apart, 24);
        reveal_with_fuel(find, 12);
    }
    assert(apart(served()[3].1, served()[15].1)) by {
        reveal_with_fuel(apart, 24);
        reveal_with_fuel(find, 12);
    }
    assert(apart(served()[3].1, served()[16].1)) by {
        reveal_with_fuel(apart, 24);
        reveal_with_fuel(find, 12);
    }
    assert(apart(served()[3].1, served()[17].1)) by {
        reveal_with_fuel(apart, 24);
        reveal_with_fuel(find, 12);
    }
    reveal_with_fuel(apart_after, 19);
}

/// The route at 4 is apart from every later one.
#[verifier::spinoff_prover]
#[verifier::rlimit(60)]
proof fn lemma_row_4_is_apart()
    ensures
        apart_after(4, 5),
{
    reveal_strlit("/node");
    reveal_strlit("/blocks");
    reveal_strlit("/blocks/pull");
    reveal_strlit("/blocks/available");
    reveal_strlit("/blocks/available/{*reference}");
    reveal_strlit("/services");
    reveal_strlit("/services/{service}");
    reveal_strlit("/services/{service}/errors");
    reveal_strlit("/services/{service}/start");
    reveal_strlit("/services/{service}/stop");
    reveal_strlit("/services/{service}/reload");
    reveal_strlit("/services/{service}/state/{instance}");
    reveal_strlit("/state/orphans");
    reveal_strlit("/state/orphans/{namespace}");
    reveal_strlit("/taps");
    reveal_strlit("/taps/{tap}");
    reveal_strlit("/taps/{tap}/stream");
    reveal_strlit("/logs/stream");
    assert(apart(served()[4].1, served()[5].1)) by {
        reveal_with_fuel(apart, 24);
        reveal_with_fuel(find, 12);
    }
    assert(apart(served()[4].1, served()[6].1)) by {
        reveal_with_fuel(apart, 24);
        reveal_with_fuel(find, 12);
    }
    assert(apart(served()[4].1, served()[7].1)) by {
        reveal_with_fuel(apart, 24);
        reveal_with_fuel(find, 12);
    }
    assert(apart(served()[4].1, served()[8].1)) by {
        reveal_with_fuel(apart, 24);
        reveal_with_fuel(find, 12);
    }
    assert(apart(served()[4].1, served()[9].1)) by {
        reveal_with_fuel(apart, 24);
        reveal_with_fuel(find, 12);
    }
    assert(apart(served()[4].1, served()[10].1)) by {
        reveal_with_fuel(apart, 24);
        reveal_with_fuel(find, 12);
    }
    assert(apart(served()[4].1, served()[11].1)) by {
        reveal_with_fuel(apart, 24);
        reveal_with_fuel(find, 12);
    }
    assert(apart(served()[4].1, served()[12].1)) by {
        reveal_with_fuel(apart, 24);
        reveal_with_fuel(find, 12);
    }
    assert(apart(served()[4].1, served()[13].1)) by {
        reveal_with_fuel(apart, 24);
        reveal_with_fuel(find, 12);
    }
    assert(apart(served()[4].1, served()[14].1)) by {
        reveal_with_fuel(apart, 24);
        reveal_with_fuel(find, 12);
    }
    assert(apart(served()[4].1, served()[15].1)) by {
        reveal_with_fuel(apart, 24);
        reveal_with_fuel(find, 12);
    }
    assert(apart(served()[4].1, served()[16].1)) by {
        reveal_with_fuel(apart, 24);
        reveal_with_fuel(find, 12);
    }
    assert(apart(served()[4].1, served()[17].1)) by {
        reveal_with_fuel(apart, 24);
        reveal_with_fuel(find, 12);
    }
    reveal_with_fuel(apart_after, 19);
}

/// The route at 5 is apart from every later one.
#[verifier::spinoff_prover]
#[verifier::rlimit(60)]
proof fn lemma_row_5_is_apart()
    ensures
        apart_after(5, 6),
{
    reveal_strlit("/node");
    reveal_strlit("/blocks");
    reveal_strlit("/blocks/pull");
    reveal_strlit("/blocks/available");
    reveal_strlit("/blocks/available/{*reference}");
    reveal_strlit("/services");
    reveal_strlit("/services/{service}");
    reveal_strlit("/services/{service}/errors");
    reveal_strlit("/services/{service}/start");
    reveal_strlit("/services/{service}/stop");
    reveal_strlit("/services/{service}/reload");
    reveal_strlit("/services/{service}/state/{instance}");
    reveal_strlit("/state/orphans");
    reveal_strlit("/state/orphans/{namespace}");
    reveal_strlit("/taps");
    reveal_strlit("/taps/{tap}");
    reveal_strlit("/taps/{tap}/stream");
    reveal_strlit("/logs/stream");
    assert(apart(served()[5].1, served()[6].1)) by {
        reveal_with_fuel(apart, 24);
        reveal_with_fuel(find, 12);
    }
    assert(apart(served()[5].1, served()[7].1)) by {
        reveal_with_fuel(apart, 24);
        reveal_with_fuel(find, 12);
    }
    assert(apart(served()[5].1, served()[8].1)) by {
        reveal_with_fuel(apart, 24);
        reveal_with_fuel(find, 12);
    }
    assert(apart(served()[5].1, served()[9].1)) by {
        reveal_with_fuel(apart, 24);
        reveal_with_fuel(find, 12);
    }
    assert(apart(served()[5].1, served()[10].1)) by {
        reveal_with_fuel(apart, 24);
        reveal_with_fuel(find, 12);
    }
    assert(apart(served()[5].1, served()[11].1)) by {
        reveal_with_fuel(apart, 24);
        reveal_with_fuel(find, 12);
    }
    assert(apart(served()[5].1, served()[12].1)) by {
        reveal_with_fuel(apart, 24);
        reveal_with_fuel(find, 12);
    }
    assert(apart(served()[5].1, served()[13].1)) by {
        reveal_with_fuel(apart, 24);
        reveal_with_fuel(find, 12);
    }
    assert(apart(served()[5].1, served()[14].1)) by {
        reveal_with_fuel(apart, 24);
        reveal_with_fuel(find, 12);
    }
    assert(apart(served()[5].1, served()[15].1)) by {
        reveal_with_fuel(apart, 24);
        reveal_with_fuel(find, 12);
    }
    assert(apart(served()[5].1, served()[16].1)) by {
        reveal_with_fuel(apart, 24);
        reveal_with_fuel(find, 12);
    }
    assert(apart(served()[5].1, served()[17].1)) by {
        reveal_with_fuel(apart, 24);
        reveal_with_fuel(find, 12);
    }
    reveal_with_fuel(apart_after, 19);
}

/// The route at 6 is apart from every later one.
#[verifier::spinoff_prover]
#[verifier::rlimit(60)]
proof fn lemma_row_6_is_apart()
    ensures
        apart_after(6, 7),
{
    reveal_strlit("/node");
    reveal_strlit("/blocks");
    reveal_strlit("/blocks/pull");
    reveal_strlit("/blocks/available");
    reveal_strlit("/blocks/available/{*reference}");
    reveal_strlit("/services");
    reveal_strlit("/services/{service}");
    reveal_strlit("/services/{service}/errors");
    reveal_strlit("/services/{service}/start");
    reveal_strlit("/services/{service}/stop");
    reveal_strlit("/services/{service}/reload");
    reveal_strlit("/services/{service}/state/{instance}");
    reveal_strlit("/state/orphans");
    reveal_strlit("/state/orphans/{namespace}");
    reveal_strlit("/taps");
    reveal_strlit("/taps/{tap}");
    reveal_strlit("/taps/{tap}/stream");
    reveal_strlit("/logs/stream");
    assert(apart(served()[6].1, served()[7].1)) by {
        reveal_with_fuel(apart, 24);
        reveal_with_fuel(find, 12);
    }
    assert(apart(served()[6].1, served()[8].1)) by {
        reveal_with_fuel(apart, 24);
        reveal_with_fuel(find, 12);
    }
    assert(apart(served()[6].1, served()[9].1)) by {
        reveal_with_fuel(apart, 24);
        reveal_with_fuel(find, 12);
    }
    assert(apart(served()[6].1, served()[10].1)) by {
        reveal_with_fuel(apart, 24);
        reveal_with_fuel(find, 12);
    }
    assert(apart(served()[6].1, served()[11].1)) by {
        reveal_with_fuel(apart, 24);
        reveal_with_fuel(find, 12);
    }
    assert(apart(served()[6].1, served()[12].1)) by {
        reveal_with_fuel(apart, 24);
        reveal_with_fuel(find, 12);
    }
    assert(apart(served()[6].1, served()[13].1)) by {
        reveal_with_fuel(apart, 24);
        reveal_with_fuel(find, 12);
    }
    assert(apart(served()[6].1, served()[14].1)) by {
        reveal_with_fuel(apart, 24);
        reveal_with_fuel(find, 12);
    }
    assert(apart(served()[6].1, served()[15].1)) by {
        reveal_with_fuel(apart, 24);
        reveal_with_fuel(find, 12);
    }
    assert(apart(served()[6].1, served()[16].1)) by {
        reveal_with_fuel(apart, 24);
        reveal_with_fuel(find, 12);
    }
    assert(apart(served()[6].1, served()[17].1)) by {
        reveal_with_fuel(apart, 24);
        reveal_with_fuel(find, 12);
    }
    reveal_with_fuel(apart_after, 19);
}

/// The route at 7 is apart from every later one.
#[verifier::spinoff_prover]
#[verifier::rlimit(60)]
proof fn lemma_row_7_is_apart()
    ensures
        apart_after(7, 8),
{
    reveal_strlit("/node");
    reveal_strlit("/blocks");
    reveal_strlit("/blocks/pull");
    reveal_strlit("/blocks/available");
    reveal_strlit("/blocks/available/{*reference}");
    reveal_strlit("/services");
    reveal_strlit("/services/{service}");
    reveal_strlit("/services/{service}/errors");
    reveal_strlit("/services/{service}/start");
    reveal_strlit("/services/{service}/stop");
    reveal_strlit("/services/{service}/reload");
    reveal_strlit("/services/{service}/state/{instance}");
    reveal_strlit("/state/orphans");
    reveal_strlit("/state/orphans/{namespace}");
    reveal_strlit("/taps");
    reveal_strlit("/taps/{tap}");
    reveal_strlit("/taps/{tap}/stream");
    reveal_strlit("/logs/stream");
    assert(apart(served()[7].1, served()[8].1)) by {
        reveal_with_fuel(apart, 24);
        reveal_with_fuel(find, 12);
    }
    assert(apart(served()[7].1, served()[9].1)) by {
        reveal_with_fuel(apart, 24);
        reveal_with_fuel(find, 12);
    }
    assert(apart(served()[7].1, served()[10].1)) by {
        reveal_with_fuel(apart, 24);
        reveal_with_fuel(find, 12);
    }
    assert(apart(served()[7].1, served()[11].1)) by {
        reveal_with_fuel(apart, 24);
        reveal_with_fuel(find, 12);
    }
    assert(apart(served()[7].1, served()[12].1)) by {
        reveal_with_fuel(apart, 24);
        reveal_with_fuel(find, 12);
    }
    assert(apart(served()[7].1, served()[13].1)) by {
        reveal_with_fuel(apart, 24);
        reveal_with_fuel(find, 12);
    }
    assert(apart(served()[7].1, served()[14].1)) by {
        reveal_with_fuel(apart, 24);
        reveal_with_fuel(find, 12);
    }
    assert(apart(served()[7].1, served()[15].1)) by {
        reveal_with_fuel(apart, 24);
        reveal_with_fuel(find, 12);
    }
    assert(apart(served()[7].1, served()[16].1)) by {
        reveal_with_fuel(apart, 24);
        reveal_with_fuel(find, 12);
    }
    assert(apart(served()[7].1, served()[17].1)) by {
        reveal_with_fuel(apart, 24);
        reveal_with_fuel(find, 12);
    }
    reveal_with_fuel(apart_after, 19);
}

/// The route at 8 is apart from every later one.
#[verifier::spinoff_prover]
#[verifier::rlimit(60)]
proof fn lemma_row_8_is_apart()
    ensures
        apart_after(8, 9),
{
    reveal_strlit("/node");
    reveal_strlit("/blocks");
    reveal_strlit("/blocks/pull");
    reveal_strlit("/blocks/available");
    reveal_strlit("/blocks/available/{*reference}");
    reveal_strlit("/services");
    reveal_strlit("/services/{service}");
    reveal_strlit("/services/{service}/errors");
    reveal_strlit("/services/{service}/start");
    reveal_strlit("/services/{service}/stop");
    reveal_strlit("/services/{service}/reload");
    reveal_strlit("/services/{service}/state/{instance}");
    reveal_strlit("/state/orphans");
    reveal_strlit("/state/orphans/{namespace}");
    reveal_strlit("/taps");
    reveal_strlit("/taps/{tap}");
    reveal_strlit("/taps/{tap}/stream");
    reveal_strlit("/logs/stream");
    assert(apart(served()[8].1, served()[9].1)) by {
        reveal_with_fuel(apart, 24);
        reveal_with_fuel(find, 12);
    }
    assert(apart(served()[8].1, served()[10].1)) by {
        reveal_with_fuel(apart, 24);
        reveal_with_fuel(find, 12);
    }
    assert(apart(served()[8].1, served()[11].1)) by {
        reveal_with_fuel(apart, 24);
        reveal_with_fuel(find, 12);
    }
    assert(apart(served()[8].1, served()[12].1)) by {
        reveal_with_fuel(apart, 24);
        reveal_with_fuel(find, 12);
    }
    assert(apart(served()[8].1, served()[13].1)) by {
        reveal_with_fuel(apart, 24);
        reveal_with_fuel(find, 12);
    }
    assert(apart(served()[8].1, served()[14].1)) by {
        reveal_with_fuel(apart, 24);
        reveal_with_fuel(find, 12);
    }
    assert(apart(served()[8].1, served()[15].1)) by {
        reveal_with_fuel(apart, 24);
        reveal_with_fuel(find, 12);
    }
    assert(apart(served()[8].1, served()[16].1)) by {
        reveal_with_fuel(apart, 24);
        reveal_with_fuel(find, 12);
    }
    assert(apart(served()[8].1, served()[17].1)) by {
        reveal_with_fuel(apart, 24);
        reveal_with_fuel(find, 12);
    }
    reveal_with_fuel(apart_after, 19);
}

/// The route at 9 is apart from every later one.
#[verifier::spinoff_prover]
#[verifier::rlimit(60)]
proof fn lemma_row_9_is_apart()
    ensures
        apart_after(9, 10),
{
    reveal_strlit("/node");
    reveal_strlit("/blocks");
    reveal_strlit("/blocks/pull");
    reveal_strlit("/blocks/available");
    reveal_strlit("/blocks/available/{*reference}");
    reveal_strlit("/services");
    reveal_strlit("/services/{service}");
    reveal_strlit("/services/{service}/errors");
    reveal_strlit("/services/{service}/start");
    reveal_strlit("/services/{service}/stop");
    reveal_strlit("/services/{service}/reload");
    reveal_strlit("/services/{service}/state/{instance}");
    reveal_strlit("/state/orphans");
    reveal_strlit("/state/orphans/{namespace}");
    reveal_strlit("/taps");
    reveal_strlit("/taps/{tap}");
    reveal_strlit("/taps/{tap}/stream");
    reveal_strlit("/logs/stream");
    assert(apart(served()[9].1, served()[10].1)) by {
        reveal_with_fuel(apart, 24);
        reveal_with_fuel(find, 12);
    }
    assert(apart(served()[9].1, served()[11].1)) by {
        reveal_with_fuel(apart, 24);
        reveal_with_fuel(find, 12);
    }
    assert(apart(served()[9].1, served()[12].1)) by {
        reveal_with_fuel(apart, 24);
        reveal_with_fuel(find, 12);
    }
    assert(apart(served()[9].1, served()[13].1)) by {
        reveal_with_fuel(apart, 24);
        reveal_with_fuel(find, 12);
    }
    assert(apart(served()[9].1, served()[14].1)) by {
        reveal_with_fuel(apart, 24);
        reveal_with_fuel(find, 12);
    }
    assert(apart(served()[9].1, served()[15].1)) by {
        reveal_with_fuel(apart, 24);
        reveal_with_fuel(find, 12);
    }
    assert(apart(served()[9].1, served()[16].1)) by {
        reveal_with_fuel(apart, 24);
        reveal_with_fuel(find, 12);
    }
    assert(apart(served()[9].1, served()[17].1)) by {
        reveal_with_fuel(apart, 24);
        reveal_with_fuel(find, 12);
    }
    reveal_with_fuel(apart_after, 19);
}

/// The route at 10 is apart from every later one.
#[verifier::spinoff_prover]
#[verifier::rlimit(60)]
proof fn lemma_row_10_is_apart()
    ensures
        apart_after(10, 11),
{
    reveal_strlit("/node");
    reveal_strlit("/blocks");
    reveal_strlit("/blocks/pull");
    reveal_strlit("/blocks/available");
    reveal_strlit("/blocks/available/{*reference}");
    reveal_strlit("/services");
    reveal_strlit("/services/{service}");
    reveal_strlit("/services/{service}/errors");
    reveal_strlit("/services/{service}/start");
    reveal_strlit("/services/{service}/stop");
    reveal_strlit("/services/{service}/reload");
    reveal_strlit("/services/{service}/state/{instance}");
    reveal_strlit("/state/orphans");
    reveal_strlit("/state/orphans/{namespace}");
    reveal_strlit("/taps");
    reveal_strlit("/taps/{tap}");
    reveal_strlit("/taps/{tap}/stream");
    reveal_strlit("/logs/stream");
    assert(apart(served()[10].1, served()[11].1)) by {
        reveal_with_fuel(apart, 24);
        reveal_with_fuel(find, 12);
    }
    assert(apart(served()[10].1, served()[12].1)) by {
        reveal_with_fuel(apart, 24);
        reveal_with_fuel(find, 12);
    }
    assert(apart(served()[10].1, served()[13].1)) by {
        reveal_with_fuel(apart, 24);
        reveal_with_fuel(find, 12);
    }
    assert(apart(served()[10].1, served()[14].1)) by {
        reveal_with_fuel(apart, 24);
        reveal_with_fuel(find, 12);
    }
    assert(apart(served()[10].1, served()[15].1)) by {
        reveal_with_fuel(apart, 24);
        reveal_with_fuel(find, 12);
    }
    assert(apart(served()[10].1, served()[16].1)) by {
        reveal_with_fuel(apart, 24);
        reveal_with_fuel(find, 12);
    }
    assert(apart(served()[10].1, served()[17].1)) by {
        reveal_with_fuel(apart, 24);
        reveal_with_fuel(find, 12);
    }
    reveal_with_fuel(apart_after, 19);
}

/// The route at 11 is apart from every later one.
#[verifier::spinoff_prover]
#[verifier::rlimit(60)]
proof fn lemma_row_11_is_apart()
    ensures
        apart_after(11, 12),
{
    reveal_strlit("/node");
    reveal_strlit("/blocks");
    reveal_strlit("/blocks/pull");
    reveal_strlit("/blocks/available");
    reveal_strlit("/blocks/available/{*reference}");
    reveal_strlit("/services");
    reveal_strlit("/services/{service}");
    reveal_strlit("/services/{service}/errors");
    reveal_strlit("/services/{service}/start");
    reveal_strlit("/services/{service}/stop");
    reveal_strlit("/services/{service}/reload");
    reveal_strlit("/services/{service}/state/{instance}");
    reveal_strlit("/state/orphans");
    reveal_strlit("/state/orphans/{namespace}");
    reveal_strlit("/taps");
    reveal_strlit("/taps/{tap}");
    reveal_strlit("/taps/{tap}/stream");
    reveal_strlit("/logs/stream");
    assert(apart(served()[11].1, served()[12].1)) by {
        reveal_with_fuel(apart, 24);
        reveal_with_fuel(find, 12);
    }
    assert(apart(served()[11].1, served()[13].1)) by {
        reveal_with_fuel(apart, 24);
        reveal_with_fuel(find, 12);
    }
    assert(apart(served()[11].1, served()[14].1)) by {
        reveal_with_fuel(apart, 24);
        reveal_with_fuel(find, 12);
    }
    assert(apart(served()[11].1, served()[15].1)) by {
        reveal_with_fuel(apart, 24);
        reveal_with_fuel(find, 12);
    }
    assert(apart(served()[11].1, served()[16].1)) by {
        reveal_with_fuel(apart, 24);
        reveal_with_fuel(find, 12);
    }
    assert(apart(served()[11].1, served()[17].1)) by {
        reveal_with_fuel(apart, 24);
        reveal_with_fuel(find, 12);
    }
    reveal_with_fuel(apart_after, 19);
}

/// The route at 12 is apart from every later one.
#[verifier::spinoff_prover]
#[verifier::rlimit(60)]
proof fn lemma_row_12_is_apart()
    ensures
        apart_after(12, 13),
{
    reveal_strlit("/node");
    reveal_strlit("/blocks");
    reveal_strlit("/blocks/pull");
    reveal_strlit("/blocks/available");
    reveal_strlit("/blocks/available/{*reference}");
    reveal_strlit("/services");
    reveal_strlit("/services/{service}");
    reveal_strlit("/services/{service}/errors");
    reveal_strlit("/services/{service}/start");
    reveal_strlit("/services/{service}/stop");
    reveal_strlit("/services/{service}/reload");
    reveal_strlit("/services/{service}/state/{instance}");
    reveal_strlit("/state/orphans");
    reveal_strlit("/state/orphans/{namespace}");
    reveal_strlit("/taps");
    reveal_strlit("/taps/{tap}");
    reveal_strlit("/taps/{tap}/stream");
    reveal_strlit("/logs/stream");
    assert(apart(served()[12].1, served()[13].1)) by {
        reveal_with_fuel(apart, 24);
        reveal_with_fuel(find, 12);
    }
    assert(apart(served()[12].1, served()[14].1)) by {
        reveal_with_fuel(apart, 24);
        reveal_with_fuel(find, 12);
    }
    assert(apart(served()[12].1, served()[15].1)) by {
        reveal_with_fuel(apart, 24);
        reveal_with_fuel(find, 12);
    }
    assert(apart(served()[12].1, served()[16].1)) by {
        reveal_with_fuel(apart, 24);
        reveal_with_fuel(find, 12);
    }
    assert(apart(served()[12].1, served()[17].1)) by {
        reveal_with_fuel(apart, 24);
        reveal_with_fuel(find, 12);
    }
    reveal_with_fuel(apart_after, 19);
}

/// The route at 13 is apart from every later one.
#[verifier::spinoff_prover]
#[verifier::rlimit(60)]
proof fn lemma_row_13_is_apart()
    ensures
        apart_after(13, 14),
{
    reveal_strlit("/node");
    reveal_strlit("/blocks");
    reveal_strlit("/blocks/pull");
    reveal_strlit("/blocks/available");
    reveal_strlit("/blocks/available/{*reference}");
    reveal_strlit("/services");
    reveal_strlit("/services/{service}");
    reveal_strlit("/services/{service}/errors");
    reveal_strlit("/services/{service}/start");
    reveal_strlit("/services/{service}/stop");
    reveal_strlit("/services/{service}/reload");
    reveal_strlit("/services/{service}/state/{instance}");
    reveal_strlit("/state/orphans");
    reveal_strlit("/state/orphans/{namespace}");
    reveal_strlit("/taps");
    reveal_strlit("/taps/{tap}");
    reveal_strlit("/taps/{tap}/stream");
    reveal_strlit("/logs/stream");
    assert(apart(served()[13].1, served()[14].1)) by {
        reveal_with_fuel(apart, 24);
        reveal_with_fuel(find, 12);
    }
    assert(apart(served()[13].1, served()[15].1)) by {
        reveal_with_fuel(apart, 24);
        reveal_with_fuel(find, 12);
    }
    assert(apart(served()[13].1, served()[16].1)) by {
        reveal_with_fuel(apart, 24);
        reveal_with_fuel(find, 12);
    }
    assert(apart(served()[13].1, served()[17].1)) by {
        reveal_with_fuel(apart, 24);
        reveal_with_fuel(find, 12);
    }
    reveal_with_fuel(apart_after, 19);
}

/// The route at 14 is apart from every later one.
#[verifier::spinoff_prover]
#[verifier::rlimit(60)]
proof fn lemma_row_14_is_apart()
    ensures
        apart_after(14, 15),
{
    reveal_strlit("/node");
    reveal_strlit("/blocks");
    reveal_strlit("/blocks/pull");
    reveal_strlit("/blocks/available");
    reveal_strlit("/blocks/available/{*reference}");
    reveal_strlit("/services");
    reveal_strlit("/services/{service}");
    reveal_strlit("/services/{service}/errors");
    reveal_strlit("/services/{service}/start");
    reveal_strlit("/services/{service}/stop");
    reveal_strlit("/services/{service}/reload");
    reveal_strlit("/services/{service}/state/{instance}");
    reveal_strlit("/state/orphans");
    reveal_strlit("/state/orphans/{namespace}");
    reveal_strlit("/taps");
    reveal_strlit("/taps/{tap}");
    reveal_strlit("/taps/{tap}/stream");
    reveal_strlit("/logs/stream");
    assert(apart(served()[14].1, served()[15].1)) by {
        reveal_with_fuel(apart, 24);
        reveal_with_fuel(find, 12);
    }
    assert(apart(served()[14].1, served()[16].1)) by {
        reveal_with_fuel(apart, 24);
        reveal_with_fuel(find, 12);
    }
    assert(apart(served()[14].1, served()[17].1)) by {
        reveal_with_fuel(apart, 24);
        reveal_with_fuel(find, 12);
    }
    reveal_with_fuel(apart_after, 19);
}

/// The route at 15 is apart from every later one.
#[verifier::spinoff_prover]
#[verifier::rlimit(60)]
proof fn lemma_row_15_is_apart()
    ensures
        apart_after(15, 16),
{
    reveal_strlit("/node");
    reveal_strlit("/blocks");
    reveal_strlit("/blocks/pull");
    reveal_strlit("/blocks/available");
    reveal_strlit("/blocks/available/{*reference}");
    reveal_strlit("/services");
    reveal_strlit("/services/{service}");
    reveal_strlit("/services/{service}/errors");
    reveal_strlit("/services/{service}/start");
    reveal_strlit("/services/{service}/stop");
    reveal_strlit("/services/{service}/reload");
    reveal_strlit("/services/{service}/state/{instance}");
    reveal_strlit("/state/orphans");
    reveal_strlit("/state/orphans/{namespace}");
    reveal_strlit("/taps");
    reveal_strlit("/taps/{tap}");
    reveal_strlit("/taps/{tap}/stream");
    reveal_strlit("/logs/stream");
    assert(apart(served()[15].1, served()[16].1)) by {
        reveal_with_fuel(apart, 24);
        reveal_with_fuel(find, 12);
    }
    assert(apart(served()[15].1, served()[17].1)) by {
        reveal_with_fuel(apart, 24);
        reveal_with_fuel(find, 12);
    }
    reveal_with_fuel(apart_after, 19);
}

/// The route at 16 is apart from every later one.
#[verifier::spinoff_prover]
#[verifier::rlimit(60)]
proof fn lemma_row_16_is_apart()
    ensures
        apart_after(16, 17),
{
    reveal_strlit("/node");
    reveal_strlit("/blocks");
    reveal_strlit("/blocks/pull");
    reveal_strlit("/blocks/available");
    reveal_strlit("/blocks/available/{*reference}");
    reveal_strlit("/services");
    reveal_strlit("/services/{service}");
    reveal_strlit("/services/{service}/errors");
    reveal_strlit("/services/{service}/start");
    reveal_strlit("/services/{service}/stop");
    reveal_strlit("/services/{service}/reload");
    reveal_strlit("/services/{service}/state/{instance}");
    reveal_strlit("/state/orphans");
    reveal_strlit("/state/orphans/{namespace}");
    reveal_strlit("/taps");
    reveal_strlit("/taps/{tap}");
    reveal_strlit("/taps/{tap}/stream");
    reveal_strlit("/logs/stream");
    assert(apart(served()[16].1, served()[17].1)) by {
        reveal_with_fuel(apart, 24);
        reveal_with_fuel(find, 12);
    }
    reveal_with_fuel(apart_after, 19);
}

/// The description's path fits no route of the table.
proof fn lemma_the_document_fits_no_route()
    ensures
        forall|k: int| 0 <= k < served().len() ==> !fits(#[trigger] served()[k].1, DOCUMENT_PATH@),
{
    reveal_strlit("/node");
    reveal_strlit("/blocks");
    reveal_strlit("/blocks/pull");
    reveal_strlit("/blocks/available");
    reveal_strlit("/blocks/available/{*reference}");
    reveal_strlit("/services");
    reveal_strlit("/services/{service}");
    reveal_strlit("/services/{service}/errors");
    reveal_strlit("/services/{service}/start");
    reveal_strlit("/services/{service}/stop");
    reveal_strlit("/services/{service}/reload");
    reveal_strlit("/services/{service}/state/{instance}");
    reveal_strlit("/state/orphans");
    reveal_strlit("/state/orphans/{namespace}");
    reveal_strlit("/taps");
    reveal_strlit("/taps/{tap}");
    reveal_strlit("/taps/{tap}/stream");
    reveal_strlit("/logs/stream");
    reveal_strlit("/openapi.json");
    assert(!fits(served()[0].1, DOCUMENT_PATH@)) by {
        reveal_with_fuel(fits, 16);
    }
    assert(!fits(served()[1].1, DOCUMENT_PATH@)) by {
        reveal_with_fuel(fits, 16);
    }
    assert(!fits(served()[2].1, DOCUMENT_PATH@)) by {
        reveal_with_fuel(fits, 16);
    }
    assert(!fits(served()[3].1, DOCUMENT_PATH@)) by {
        reveal_with_fuel(fits, 16);
    }
    assert(!fits(served()[4].1, DOCUMENT_PATH@)) by {
        reveal_with_fuel(fits, 16);
    }
    assert(!fits(served()[5].1, DOCUMENT_PATH@)) by {
        reveal_with_fuel(fits, 16);
    }
    assert(!fits(served()[6].1, DOCUMENT_PATH@)) by {
        reveal_with_fuel(fits, 16);
    }
    assert(!fits(served()[7].1, DOCUMENT_PATH@)) by {
        reveal_with_fuel(fits, 16);
    }
    assert(!fits(served()[8].1, DOCUMENT_PATH@)) by {
        reveal_with_fuel(fits, 16);
    }
    assert(!fits(served()[9].1, DOCUMENT_PATH@)) by {
        reveal_with_fuel(fits, 16);
    }
    assert(!fits(served()[10].1, DOCUMENT_PATH@)) by {
        reveal_with_fuel(fits, 16);
    }
    assert(!fits(served()[11].1, DOCUMENT_PATH@)) by {
        reveal_with_fuel(fits, 16);
    }
    assert(!fits(served()[12].1, DOCUMENT_PATH@)) by {
        reveal_with_fuel(fits, 16);
    }
    assert(!fits(served()[13].1, DOCUMENT_PATH@)) by {
        reveal_with_fuel(fits, 16);
    }
    assert(!fits(served()[14].1, DOCUMENT_PATH@)) by {
        reveal_with_fuel(fits, 16);
    }
    assert(!fits(served()[15].1, DOCUMENT_PATH@)) by {
        reveal_with_fuel(fits, 16);
    }
    assert(!fits(served()[16].1, DOCUMENT_PATH@)) by {
        reveal_with_fuel(fits, 16);
    }
    assert(!fits(served()[17].1, DOCUMENT_PATH@)) by {
        reveal_with_fuel(fits, 16);
    }
}

/// No two routes of the table fit one path, and the description's path fits none of them.
pub proof fn lemma_no_path_fits_two_routes()
    ensures
        forall|a: int, b: int| 0 <= a < b < served().len() ==> apart(served()[a].1, served()[b].1),
        forall|k: int| 0 <= k < served().len() ==> !fits(#[trigger] served()[k].1, DOCUMENT_PATH@),
{
    lemma_row_0_is_apart();
    lemma_row_1_is_apart();
    lemma_row_2_is_apart();
    lemma_row_3_is_apart();
    lemma_row_4_is_apart();
    lemma_row_5_is_apart();
    lemma_row_6_is_apart();
    lemma_row_7_is_apart();
    lemma_row_8_is_apart();
    lemma_row_9_is_apart();
    lemma_row_10_is_apart();
    lemma_row_11_is_apart();
    lemma_row_12_is_apart();
    lemma_row_13_is_apart();
    lemma_row_14_is_apart();
    lemma_row_15_is_apart();
    lemma_row_16_is_apart();
    assert(apart_from(0)) by {
        reveal_with_fuel(apart_from, 19);
    }
    lemma_apart_from(0);
    lemma_the_document_fits_no_route();
}

/// The first route a path fits, from the `j`th on, is the one it fits, when it fits `k`.
proof fn lemma_first_fit_is_the_fit(path: Seq<char>, j: int, k: int)
    requires
        0 <= j <= k < served().len(),
        fits(served()[k].1, path),
        forall|a: int, b: int| 0 <= a < b < served().len() ==> apart(served()[a].1, served()[b].1),
    ensures
        first_fit(path, j) == Some(k),
    decreases k - j,
{
    if j < k {
        lemma_apart_routes_share_no_path(served()[j].1, served()[k].1, path);
        lemma_first_fit_is_the_fit(path, j + 1, k);
    }
}

/// Every route of the table is behind the token: a request with a method a route answers, on a
/// path that fits it, is served that route's handler with this node's token and refused as
/// unauthorized without it.
pub proof fn lemma_a_routed_request_needs_the_token(
    k: int,
    method: Seq<char>,
    path: Seq<char>,
    presented: Seq<char>,
    token: Seq<char>,
)
    requires
        0 <= k < served().len(),
        served()[k].0.contains(method),
        fits(served()[k].1, path),
    ensures
        presented == token ==> outcome_of(method, path, presented, token) == Outcome::Serve(k as usize),
        presented != token ==> outcome_of(method, path, presented, token) == Outcome::Unauthorized,
{
    lemma_no_path_fits_two_routes();
    lemma_first_fit_is_the_fit(path, 0, k);
    assert(path != DOCUMENT_PATH@);
}

/// `entry` is one of `table`'s.
pub open spec fn in_table(table: Seq<(Seq<Seq<char>>, Seq<char>)>, entry: (Seq<Seq<char>>, Seq<char>)) -> bool {
    exists|k: int| 0 <= k < table.len() && table[k] == entry
}

/// Every route served is documented, with the methods it answers, and every path documented
/// is served, with the methods the document describes: the document and the router agree
/// about what this node serves.
pub proof fn lemma_every_route_is_documented_and_every_documented_path_is_served()
    ensures
        served().len() == described().len(),
        forall|i: int| 0 <= i < served().len() ==> #[trigger] in_table(described(), served()[i]),
        forall|k: int| 0 <= k < described().len() ==> #[trigger] in_table(served(), described()[k]),
{
    assert forall|i: int| 0 <= i < served().len() implies #[trigger] in_table(described(), served()[i]) by {
            if i == 0 {
                assert(served()[0].0 =~= described()[5].0);
                assert(served()[0] == described()[5]);
            } else if i == 1 {
                assert(served()[1].0 =~= described()[0].0);
                assert(served()[1] == described()[0]);
            } else if i == 2 {
                assert(served()[2].0 =~= described()[3].0);
                assert(served()[2] == described()[3]);
            } else if i == 3 {
                assert(served()[3].0 =~= described()[1].0);
                assert(served()[3] == described()[1]);
            } else if i == 4 {
                assert(served()[4].0 =~= described()[2].0);
                assert(served()[4] == described()[2]);
            } else if i == 5 {
                assert(served()[5].0 =~= described()[6].0);
                assert(served()[5] == described()[6]);
            } else if i == 6 {
                assert(served()[6].0 =~= described()[7].0);
                assert(served()[6] == described()[7]);
            } else if i == 7 {
                assert(served()[7].0 =~= described()[8].0);
                assert(served()[7] == described()[8]);
            } else if i == 8 {
                assert(served()[8].0 =~= described()[10].0);
                assert(served()[8] == described()[10]);
            } else if i == 9 {
                assert(served()[9].0 =~= described()[12].0);
                assert(served()[9] == described()[12]);
            } else if i == 10 {
                assert(served()[10].0 =~= described()[9].0);
                assert(served()[10] == described()[9]);
            } else if i == 11 {
                assert(served()[11].0 =~= described()[11].0);
                assert(served()[11] == described()[11]);
            } else if i == 12 {
                assert(served()[12].0 =~= described()[13].0);
                assert(served()[12] == described()[13]);
            } else if i == 13 {
                assert(served()[13].0 =~= described()[14].0);
                assert(served()[13] == described()[14]);
            } else if i == 14 {
                assert(served()[14].0 =~= described()[15].0);
                assert(served()[14] == described()[15]);
            } else if i == 15 {
                assert(served()[15].0 =~= described()[16].0);
                assert(served()[15] == described()[16]);
            } else if i == 16 {
                assert(served()[16].0 =~= described()[17].0);
                assert(served()[16] == described()[17]);
            } else if i == 17 {
                assert(served()[17].0 =~= described()[4].0);
                assert(served()[17] == described()[4]);
            }
    }
    assert forall|k: int| 0 <= k < described().len() implies #[trigger] in_table(served(), described()[k]) by {
            if k == 0 {
                assert(described()[0].0 =~= served()[1].0);
                assert(described()[0] == served()[1]);
            } else if k == 1 {
                assert(described()[1].0 =~= served()[3].0);
                assert(described()[1] == served()[3]);
            } else if k == 2 {
                assert(described()[2].0 =~= served()[4].0);
                assert(described()[2] == served()[4]);
            } else if k == 3 {
                assert(described()[3].0 =~= served()[2].0);
                assert(described()[3] == served()[2]);
            } else if k == 4 {
                assert(described()[4].0 =~= served()[17].0);
                assert(described()[4] == served()[17]);
            } else if k == 5 {
                assert(described()[5].0 =~= served()[0].0);
                assert(described()[5] == served()[0]);
            } else if k == 6 {
                assert(described()[6].0 =~= served()[5].0);
                assert(described()[6] == served()[5]);
            } else if k == 7 {
                assert(described()[7].0 =~= served()[6].0);
                assert(described()[7] == served()[6]);
            } else if k == 8 {
                assert(described()[8].0 =~= served()[7].0);
                assert(described()[8] == served()[7]);
            } else if k == 9 {
                assert(described()[9].0 =~= served()[10].0);
                assert(described()[9] == served()[10]);
            } else if k == 10 {
                assert(described()[10].0 =~= served()[8].0);
                assert(described()[10] == served()[8]);
            } else if k == 11 {
                assert(described()[11].0 =~= served()[11].0);
                assert(described()[11] == served()[11]);
            } else if k == 12 {
                assert(described()[12].0 =~= served()[9].0);
                assert(described()[12] == served()[9]);
            } else if k == 13 {
                assert(described()[13].0 =~= served()[12].0);
                assert(described()[13] == served()[12]);
            } else if k == 14 {
                assert(described()[14].0 =~= served()[13].0);
                assert(described()[14] == served()[13]);
            } else if k == 15 {
                assert(described()[15].0 =~= served()[14].0);
                assert(described()[15] == served()[14]);
            } else if k == 16 {
                assert(described()[16].0 =~= served()[15].0);
                assert(described()[16] == served()[15]);
            } else if k == 17 {
                assert(described()[17].0 =~= served()[16].0);
                assert(described()[17] == served()[16]);
            }
    }
}

} // verus!
