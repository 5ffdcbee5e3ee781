use eio_daemon::api::auth::{authorize, constant_time_eq};
use eio_daemon::api::available::{available_tags, unresolvable, AvailableQuery};
use eio_daemon::api::blocks::{bad_pull_body, cached_reference, pulled_entry, unresolved};
use eio_daemon::api::error::{from_failure, not_routed, wrong_method, ApiError, Detail, Kind};
use eio_daemon::api::logs::LogFilter;
use eio_daemon::api::node::node_info;
use eio_daemon::api::openapi::{documented_paths, Document};
use eio_daemon::api::{dispatch, routes, Dispatch};
use eio_daemon::api::sse::{stream_step, Filter, Received, Step};
use eio_daemon::api::services::{bad_name, detail, diff, errors, etag, if_match, may_delete, precondition, stopped, summary};
use eio_daemon::api::state::{
    decode_namespace, declared, encode_namespace, entry, instance_known, orphans_of, reclaim_target, reclaimable,
    reclaimed, Held, ServiceFile,
};
use eio_daemon::api::taps::{named_connection, no_such_tap, normalise, render, tap_passes, unparsable, Connection};
use eio_daemon::blocks::Unresolvable;
use eio_daemon::boot::{Failure, State};
use eio_daemon::node::{Api, BlocksSection, BudgetsSection, ExecutorSection, File, KeyFile, LimitsSection};
use eio_daemon::observe::{observation, Tap, What};
use std::collections::BTreeSet;

fn s(text: &str) -> String {
    String::from(text)
}

#[test]
fn equality_is_equality_whatever_the_timing() {
    assert!(constant_time_eq(b"abc", b"abc"));
    assert!(!constant_time_eq(b"abc", b"abd"));
    assert!(!constant_time_eq(b"abc", b"abcd"), "a prefix is not a match");
    assert!(!constant_time_eq(b"", b"abc"));
    assert!(constant_time_eq(b"", b""));
}

#[test]
fn nothing_is_reachable_without_this_nodes_token() {
    for header in [None, Some(""), Some("not-the-token"), Some("Bearer not-the-token"), Some("Basic tok")] {
        let refused = authorize(header, "tok").unwrap_err();
        assert_eq!(refused.error, Kind::Unauthorized, "{header:?} was accepted");
        assert_eq!(refused.error.slug(), "unauthorized");
        assert_eq!(refused.error.status(), 401);
    }
    assert_eq!(authorize(Some("Bearer tok"), "tok"), Ok(()));
}

#[test]
fn each_slug_answers_with_one_status() {
    let cases = [
        (Kind::Unauthorized, 401, "unauthorized"),
        (Kind::NotFound, 404, "not_found"),
        (Kind::BadRequest, 400, "bad_request"),
        (Kind::Invalid, 422, "invalid"),
        (Kind::Unresolvable, 422, "unresolvable"),
        (Kind::Unstartable, 422, "unstartable"),
        (Kind::PreconditionRequired, 428, "precondition_required"),
        (Kind::Conflict, 412, "conflict"),
        (Kind::Running, 409, "running"),
        (Kind::Internal, 500, "internal"),
    ];
    for (kind, status, slug) in cases {
        assert_eq!(kind.status(), status);
        assert_eq!(kind.slug(), slug);
    }
}

#[test]
fn a_request_that_matches_no_route_still_answers_in_the_envelope() {
    let answer = not_routed("GET", "/nope");
    assert_eq!(answer.error, Kind::NotFound);
    assert_eq!(answer.message, "this node serves no GET /nope; GET /openapi.json lists what it does serve");
    let answer = wrong_method("PATCH", "/node");
    assert_eq!(answer.error, Kind::BadRequest);
    assert_eq!(answer.message, "PATCH is not a method this node accepts on /node");
}

#[test]
fn every_way_one_service_can_fail_is_its_own_class() {
    let invalid = from_failure(&Failure::Invalid(vec![s("a"), s("b")]));
    assert_eq!(invalid.error, Kind::Invalid);
    assert_eq!(invalid.message, "a; b");
    assert_eq!(invalid.detail, Some(Detail::Stage { stage: 1, errors: vec![s("a"), s("b")] }));

    let unwireable = from_failure(&Failure::Unwireable(vec![s("port")]));
    assert_eq!(unwireable.detail, Some(Detail::Stage { stage: 2, errors: vec![s("port")] }));

    let misnamed = from_failure(&Failure::Misnamed { stem: s("a"), name: s("b") });
    assert_eq!(misnamed.error, Kind::Invalid);
    assert_eq!(misnamed.detail, Some(Detail::Misnamed { stem: s("a"), name: s("b") }));

    for failure in [
        Failure::Unresolvable { id: s("t1"), reference: s("f"), reason: Unresolvable::Untagged },
        Failure::Unpullable { id: s("t1"), reference: s("f"), reason: s("offline") },
        Failure::Unloadable { id: s("t1"), reference: s("f"), error: s("bad") },
    ] {
        let answer = from_failure(&failure);
        assert_eq!(answer.error, Kind::Unresolvable);
        assert_eq!(answer.message, failure.message());
        assert_eq!(answer.detail, Some(Detail::Block { instance: s("t1"), block: s("f") }));
    }
    let uncapable = from_failure(&Failure::Uncapable { id: s("t1"), error: s("gpio") });
    assert_eq!(uncapable.error, Kind::Unresolvable);
    assert_eq!(uncapable.detail, Some(Detail::Instance { instance: s("t1") }));

    let unstartable = from_failure(&Failure::Unstartable(s("trap")));
    assert_eq!((unstartable.error, unstartable.detail), (Kind::Unstartable, None));
    let unreadable = from_failure(&Failure::Unreadable(s("denied")));
    assert_eq!((unreadable.error, unreadable.detail), (Kind::Internal, None));
}

#[test]
fn an_etag_is_the_quoted_sha256_of_the_definition() {
    assert_eq!(etag(""), "\"sha256:e3b0c44298fc1c149afbf4c8996fb92427ae41e4649b934ca495991b7852b855\"");
    assert_eq!(etag("abc"), "\"sha256:ba7816bf8f01cfea414140de5dae2223b00361a396177a9cb410ff61f20015ad\"");
}

#[test]
fn if_match_is_a_list_and_any_member_matches() {
    let tag = etag("name = \"k\"");
    assert!(if_match(&tag, &tag));
    assert!(if_match("*", &tag));
    assert!(if_match(&format!("\"other\", {tag}"), &tag));
    assert!(if_match(&format!("  {tag}  "), &tag), "members are trimmed");
    assert!(if_match("\"other\" , *", &tag));
    assert!(!if_match("\"other\"", &tag));
    assert!(!if_match("", &tag));
    assert!(!if_match("**", &tag));
}

#[test]
fn a_precondition_on_a_service_that_does_not_exist_creates_nothing() {
    assert_eq!(precondition("kitchen", None, None, "new"), Ok(()), "creating needs no precondition");
    let refused = precondition("kitchen", None, Some("*"), "new").unwrap_err();
    assert_eq!(refused.error, Kind::Conflict);
    assert_eq!(refused.message, "this node has no service called `kitchen` for `If-Match` to match");
}

#[test]
fn an_overwrite_with_no_precondition_is_refused() {
    let refused = precondition("kitchen", Some("old"), None, "new").unwrap_err();
    assert_eq!(refused.error, Kind::PreconditionRequired);
    assert_eq!(refused.error.status(), 428);
    assert_eq!(
        refused.message,
        "`kitchen` already exists: send `If-Match` with the `ETag` from `GET /services/kitchen`, or `If-Match: *` to overwrite whatever is there"
    );
}

#[test]
fn an_overwrite_names_the_version_it_replaces() {
    let current = "name = \"kitchen\"\n";
    assert_eq!(precondition("kitchen", Some(current), Some(&etag(current)), "new"), Ok(()));
    assert_eq!(precondition("kitchen", Some(current), Some("*"), "new"), Ok(()));
}

#[test]
fn a_stale_precondition_is_refused_with_a_diff() {
    let current = "a\nb\n";
    let proposed = "a\nc\n";
    let refused = precondition("kitchen", Some(current), Some("\"sha256:stale\""), proposed).unwrap_err();
    assert_eq!(refused.error, Kind::Conflict);
    assert_eq!(refused.error.status(), 412);
    assert_eq!(refused.message, "`kitchen` has changed on disk since \"sha256:stale\" was read");
    let Some(Detail::Stale { expected, actual, current: on_disk, diff: shown }) = refused.detail else {
        panic!("a stale precondition carries what it expected and what is there")
    };
    assert_eq!(expected, "\"sha256:stale\"");
    assert_eq!(actual, etag(current));
    assert_eq!(on_disk, current);
    assert_eq!(shown, diff(current, proposed));
    assert!(shown.contains("--- current") && shown.contains("+++ proposed"), "{shown}");
    assert!(shown.contains("-b") && shown.contains("+c"), "{shown}");
}

#[test]
fn a_service_is_reported_with_its_state_its_flag_and_why() {
    let running: State<()> = State::Running(());
    let listed = summary("kitchen", &running, true);
    assert_eq!((listed.name.as_str(), listed.state.as_str(), listed.autostart), ("kitchen", "running", true));
    assert_eq!(listed.error, None);

    let errored: State<()> = State::Errored(Failure::Unstartable(s("trap")));
    let listed = summary("kitchen", &errored, false);
    assert_eq!(listed.state, "errored");
    assert_eq!(listed.error.map(|e| e.error), Some(Kind::Unstartable));

    let fresh = detail::<()>("kitchen", None, false, s("name = \"kitchen\""));
    assert_eq!(fresh.state, "stopped", "a file not yet loaded is stopped to a caller");
    assert_eq!(fresh.definition, "name = \"kitchen\"");
}

#[test]
fn a_service_that_is_not_errored_has_no_errors_to_report() {
    let stopped: State<()> = State::Stopped;
    let refused = errors("kitchen", Some(&stopped)).unwrap_err();
    assert_eq!(refused.error, Kind::NotFound);
    assert_eq!(refused.message, "`kitchen` is stopped, and has no errors");
    let missing = errors::<()>("nope", None).unwrap_err();
    assert_eq!(missing.message, "this node has no service called `nope`");
    let errored: State<()> = State::Errored(Failure::Unstartable(s("trap")));
    assert_eq!(errors("kitchen", Some(&errored)).unwrap().error, Kind::Unstartable);
}

#[test]
fn deleting_a_running_service_is_refused_and_the_file_survives() {
    let running: State<()> = State::Running(());
    let refused = may_delete("kitchen", Some(&running), true).unwrap_err();
    assert_eq!(refused.error, Kind::Running);
    assert_eq!(refused.error.status(), 409);
    assert_eq!(refused.message, "`kitchen` is running; `POST /services/kitchen/stop` it first");
    let stopped: State<()> = State::Stopped;
    assert_eq!(may_delete("kitchen", Some(&stopped), true), Ok(()));
    assert_eq!(may_delete::<()>("kitchen", None, false).unwrap_err().error, Kind::NotFound);
}

#[test]
fn an_unknown_service_is_not_found_and_a_hostile_name_is_the_same_answer() {
    let hostile = bad_name("../../etc/passwd");
    assert_eq!(hostile.error, Kind::NotFound);
    assert_eq!(hostile.message, "this node has no service called `../../etc/passwd`");
    assert_eq!(ApiError::no_such_service("kitchen").message, "this node has no service called `kitchen`");
}

#[test]
fn a_namespace_decodes_to_the_pair_that_encoded_it() {
    assert_eq!(encode_namespace("kitchen", "b7k2"), "kitchen:b7k2");
    assert_eq!(decode_namespace("kitchen:b7k2"), Some((s("kitchen"), s("b7k2"))));
    for hostile in ["kitchen", ":b7k2", "kitchen:", "kitchen:b7:k2", "../x:y", "Kitchen:b", "a:b/c", "a:."] {
        assert_eq!(decode_namespace(hostile), None, "{hostile:?}");
    }
    let target = reclaim_target("no-separator").unwrap_err();
    assert_eq!(target.error, Kind::NotFound);
    assert_eq!(target.message, "`no-separator` is not a `service:instance` namespace");
    assert_eq!(reclaim_target("kitchen:b7k2"), Ok((s("kitchen"), s("b7k2"))));
}

#[test]
fn an_entry_is_reported_as_bytes_with_text_beside_it() {
    let e = entry(b"count".to_vec(), vec![0x01, 0x02], Some(s("2")));
    assert_eq!(e.key.as_deref(), Some("count"));
    assert_eq!(e.key_base64, "Y291bnQ=");
    assert_eq!(e.value.as_deref(), Some("2"));
    assert_eq!(e.value_base64, "AQI=");
    assert_eq!(e.size, 2);
    let opaque = entry(vec![0xff, 0xfe], b"foobar".to_vec(), None);
    assert_eq!(opaque.key, None, "a key that is not UTF-8 has no text");
    assert_eq!(opaque.key_base64, "//4=");
    assert_eq!(opaque.value_base64, "Zm9vYmFy");
    assert_eq!(entry(Vec::new(), b"fo".to_vec(), None).value_base64, "Zm8=");
}

#[test]
fn orphans_lists_undeclared_namespaces_and_not_a_stopped_services() {
    let declares = |ids: &[&str]| ServiceFile::Declares(ids.iter().map(|id| s(id)).collect());
    assert!(declared(&declares(&["t1"]), "t1"));
    assert!(!declared(&declares(&["t1"]), "t2"));
    assert!(!declared(&ServiceFile::Missing, "t1"));
    assert!(declared(&ServiceFile::Unparsable, "t1"), "a file mid-typo still declares");
    assert!(declared(&ServiceFile::Unreadable, "t1"));
    assert!(declared(&ServiceFile::NoName, "t1"));

    let held = vec![
        Held { service: s("kitchen"), instance: s("t1"), file: declares(&["t1"]), keys: 3 },
        Held { service: s("kitchen"), instance: s("t9"), file: declares(&["t1"]), keys: 2 },
        Held { service: s("gone"), instance: s("t1"), file: ServiceFile::Missing, keys: 1 },
    ];
    let orphans = orphans_of(&held);
    assert_eq!(orphans.len(), 2);
    assert_eq!((orphans[0].namespace.as_str(), orphans[0].keys), ("kitchen:t9", 2));
    assert_eq!((orphans[1].namespace.as_str(), orphans[1].keys), ("gone:t1", 1));
}

#[test]
fn delete_orphans_reclaims_an_orphan_and_refuses_a_declared_namespace() {
    let refused = reclaimable("kitchen:t1", "kitchen", "t1", &ServiceFile::Declares(vec![s("t1")])).unwrap_err();
    assert_eq!(refused.error, Kind::Invalid);
    assert_eq!(
        refused.message,
        "`kitchen:t1` is declared by service `kitchen`'s current file; it is live state, not an orphan, and this endpoint only reclaims orphans"
    );
    assert_eq!(reclaimable("gone:t1", "gone", "t1", &ServiceFile::Missing), Ok(()));
    assert_eq!(reclaimed("gone:t1", 3), Ok(()));
    let empty = reclaimed("gone:t1", 0).unwrap_err();
    assert_eq!(empty.error, Kind::NotFound);
    assert_eq!(empty.message, "this node's state store holds no namespace `gone:t1`");
}

#[test]
fn an_instances_state_is_readable_unless_the_file_says_there_is_no_such_instance() {
    assert_eq!(instance_known("kitchen", "t1", &ServiceFile::Declares(vec![s("t1")])), Ok(()));
    assert_eq!(instance_known("kitchen", "t1", &ServiceFile::Unparsable), Ok(()));
    let refused = instance_known("kitchen", "t9", &ServiceFile::Declares(vec![s("t1")])).unwrap_err();
    assert_eq!(refused.message, "service `kitchen` has no block instance `t9`");
}

fn connection(from: &str, from_port: &str, to: &str, to_port: &str) -> Connection {
    Connection { from_instance: s(from), from_port: s(from_port), to_instance: s(to), to_port: s(to_port) }
}

#[test]
fn a_tap_names_a_connection_the_service_actually_declares() {
    assert_eq!(normalise("t1.out->t2.in"), "t1.out -> t2.in");
    assert_eq!(normalise("  t1.out   ->  t2.in "), "t1.out -> t2.in");
    assert_eq!(normalise(" t1.out "), "t1.out");
    assert_eq!(normalise("a->b->c"), "a->b->c", "two arrows is not one connection");
    let connections = vec![connection("t1", "out", "t2", "in"), connection("t2", "out", "t3", "in")];
    assert_eq!(render(&connections[1]), "t2.out -> t3.in");
    assert_eq!(named_connection("kitchen", "t2.out->t3.in", &connections), Ok(1));
    let refused = named_connection("kitchen", "t9.out -> t2.in", &connections).unwrap_err();
    assert_eq!(refused.error, Kind::Invalid);
    assert_eq!(refused.message, "`kitchen` declares no connection `t9.out -> t2.in`");
    assert_eq!(refused.detail, Some(Detail::Connections { connections: vec![s("t1.out -> t2.in"), s("t2.out -> t3.in")] }));
    let broken = unparsable("kitchen", &vec![s("line 1")]);
    assert_eq!(broken.message, "`kitchen` does not parse, so it has no connections to tap");
    assert_eq!(broken.detail, Some(Detail::Errors { errors: vec![s("line 1")] }));
}

#[test]
fn a_tap_stream_is_guarded_and_refuses_an_unknown_id() {
    let refused = no_such_tap("t7");
    assert_eq!(refused.error, Kind::NotFound);
    assert_eq!(refused.message, "this node holds no tap `t7`");
}

#[test]
fn a_tap_streams_what_its_source_port_emits_and_the_expression_failures() {
    let tap = Tap { id: s("t1"), service: s("kitchen"), connection: s("a.out -> b.in"), instance: s("a"), port: s("out") };
    let signals = What::Signals { signals: vec![] };
    let on = observation("kitchen", "a", String::new(), Some(s("out")), signals.clone());
    let other_port = observation("kitchen", "a", String::new(), Some(s("alt")), signals.clone());
    let other_instance = observation("kitchen", "b", String::new(), Some(s("out")), signals.clone());
    let failure = observation(
        "kitchen",
        "a",
        String::new(),
        None,
        What::ExprFailure { code: s("type"), span: s("0..1"), message: s("no"), prop: 0, signal: None },
    );
    assert!(tap_passes(&tap, &on));
    assert!(!tap_passes(&tap, &other_port));
    assert!(!tap_passes(&tap, &other_instance));
    assert!(tap_passes(&tap, &failure), "an expression failure has no port and is the point of a tap");
}

#[test]
fn a_log_stream_carries_the_service_and_instance_and_filters_by_them() {
    let line = |service: &str, instance: &str| {
        observation(service, instance, String::new(), None, What::Log { level: s("info"), message: s("hi") })
    };
    let everything = LogFilter { service: None, instance: None };
    assert!(everything.passes(&line("kitchen", "t1")));
    let kitchen = LogFilter { service: Some(s("kitchen")), instance: None };
    assert!(kitchen.passes(&line("kitchen", "t1")));
    assert!(!kitchen.passes(&line("garage", "t1")));
    let one = LogFilter { service: Some(s("kitchen")), instance: Some(s("t1")) };
    assert!(one.passes(&line("kitchen", "t1")));
    assert!(!one.passes(&line("kitchen", "t2")));
    let not_a_log = observation("kitchen", "t1", String::new(), None, What::Lagged { missed: 1 });
    assert!(!everything.passes(&not_a_log), "only log lines ride the log stream");
}

#[test]
fn a_node_reports_what_a_service_can_be_built_against() {
    let file = File {
        id: s("n1"),
        name: Some(s("kitchen-pi")),
        api: Api::default(),
        limits: LimitsSection::default(),
        budgets: BudgetsSection::default(),
        executor: ExecutorSection::default(),
        blocks: BlocksSection::default(),
    };
    let node = file.into_node(s("/data"), s("t"), Vec::new(), true, KeyFile::Absent).expect("a node");
    let info = node_info(&node, "0.1.0", "1.0", &vec![s("state")]);
    assert_eq!(info.id, "n1");
    assert_eq!(info.name.as_deref(), Some("kitchen-pi"));
    assert_eq!((info.version.as_str(), info.abi.as_str()), ("0.1.0", "1.0"));
    assert_eq!(info.capabilities, vec![s("state")]);
    assert_eq!(info.limits.max_payload, node.limits.max_payload);
    assert_eq!(info.limits.max_batch, node.limits.max_batch);
    assert_eq!(info.budgets.fuel, node.budgets.fuel);
    assert_eq!(info.budgets.deadline_ms, node.budgets.deadline_ms);
    assert_eq!(info.budgets.expr_max_fuel, node.budgets.expr.max_fuel);
    assert!(!info.require_signed);
}

#[test]
fn a_browse_takes_a_repository_and_lists_its_tags_as_references() {
    let missing = AvailableQuery { repository: None }.repository().unwrap_err();
    assert_eq!(missing.error, Kind::BadRequest);
    assert_eq!(AvailableQuery { repository: Some(s("   ")) }.repository().unwrap_err().error, Kind::BadRequest);
    assert_eq!(AvailableQuery { repository: Some(s("ghcr.io/x/filter")) }.repository(), Ok(s("ghcr.io/x/filter")));
    let tags = available_tags("ghcr.io/x/filter", &vec![s("1.0.0"), s("1.1.0")]);
    let references: Vec<&str> = tags.iter().map(|tag| tag.reference.as_str()).collect();
    assert_eq!(references, vec!["ghcr.io/x/filter:1.0.0", "ghcr.io/x/filter:1.1.0"]);
    let refused = unresolvable("ghcr.io/x/filter", s("not a configured registry"));
    assert_eq!(refused.error, Kind::Unresolvable);
    assert_eq!(refused.detail, Some(Detail::Reference { block: s("ghcr.io/x/filter") }));
}

#[test]
fn a_pull_answers_in_the_envelope() {
    let bad = bad_pull_body("missing field `reference`");
    assert_eq!(bad.error, Kind::BadRequest);
    assert_eq!(bad.message, "this endpoint takes `{\"reference\": \"...\"}`: missing field `reference`");
    let refused = unresolved("filter", &Unresolvable::Untagged);
    assert_eq!(refused.error, Kind::Unresolvable);
    assert_eq!(refused.message, Unresolvable::Untagged.message());
    assert_eq!(refused.detail, Some(Detail::Reference { block: s("filter") }));
    assert_eq!(cached_reference("filter", "1.2.0"), "filter:1.2.0");
    let entry = pulled_entry("ghcr.io/x/filter:1.2.0").expect("a tagged reference");
    assert_eq!((entry.name.as_str(), entry.version.as_str(), entry.reference.as_str()), ("filter", "1.2.0", "filter:1.2.0"));
    assert_eq!(pulled_entry("filter").unwrap_err(), Unresolvable::Untagged);
}

#[test]
fn every_route_is_documented_and_every_documented_path_is_served() {
    let documented: BTreeSet<String> = documented_paths().into_iter().collect();
    let served: BTreeSet<String> = routes().into_iter().map(|route| String::from(route.path)).collect();
    assert_eq!(documented, served, "the OpenAPI document and the router disagree about what this node serves");
    for route in routes() {
        let item = Document::paths().into_iter().find(|item| item.path == route.path).expect("documented");
        assert_eq!(item.methods, route.methods, "{}", route.path);
    }
    assert_eq!(Document::tags().len(), 6);
}

#[test]
fn a_stream_sends_what_its_filter_admits_and_skips_the_rest() {
    let tap = Tap { id: s("t1"), service: s("kitchen"), connection: s("a.out -> b.in"), instance: s("a"), port: s("out") };
    let filter = Filter::Tap(tap);
    let signals = What::Signals { signals: vec![s("1")] };
    let on = observation("kitchen", "a", String::new(), Some(s("out")), signals.clone());
    let off = observation("kitchen", "b", String::new(), Some(s("out")), signals);
    assert_eq!(stream_step(&filter, Received::Observed(on.clone())), Step::Emit(on));
    assert_eq!(stream_step(&filter, Received::Observed(off)), Step::Skip);
}

#[test]
fn a_reader_that_fell_behind_is_told_how_many_it_missed() {
    let filter = Filter::Logs(LogFilter { service: None, instance: None });
    match stream_step(&filter, Received::Lagged(7)) {
        Step::Emit(report) => {
            assert_eq!(report.event, "lagged");
            assert_eq!(report.what, What::Lagged { missed: 7 });
            assert_eq!(report.service, "");
            assert_eq!(report.port, None);
        }
        other => panic!("expected a lag report, got {other:?}"),
    }
}

#[test]
fn a_stream_ends_when_the_bus_does() {
    let filter = Filter::Logs(LogFilter { service: Some(s("kitchen")), instance: None });
    assert_eq!(stream_step(&filter, Received::Closed), Step::End);
    let line = observation("kitchen", "t1", String::new(), None, What::Log { level: s("info"), message: s("hi") });
    assert_eq!(stream_step(&filter, Received::Observed(line.clone())), Step::Emit(line));
}

#[test]
fn stopping_keeps_the_files_autostart_flag() {
    let kept = stopped("kitchen", Some(true)).expect("the node holds it");
    assert_eq!(kept.name, "kitchen");
    assert_eq!(kept.state, "stopped");
    assert!(kept.autostart);
    assert_eq!(kept.error, None);
    let never = stopped("kitchen", Some(false)).expect("the node holds it");
    assert!(!never.autostart);
    let missing = stopped("attic", None).expect_err("no such service");
    assert_eq!(missing.error, Kind::NotFound);
    assert_eq!(missing.message, "this node has no service called `attic`");
}

fn filled(template: &str) -> String {
    let mut out = String::new();
    let mut inside = false;
    for c in template.chars() {
        match c {
            '{' => {
                inside = true;
                out.push('x');
            }
            '}' => inside = false,
            _ if inside => {}
            _ => out.push(c),
        }
    }
    out
}

#[test]
fn every_listed_route_is_refused_without_the_token_and_served_with_it() {
    for (k, route) in routes().iter().enumerate() {
        let path = filled(route.path);
        for method in &route.methods {
            match dispatch(method, &path, None, "secret") {
                Dispatch::Refused(e) => assert_eq!(e.error, Kind::Unauthorized, "{method} {path}"),
                other => panic!("{method} {path} without a token: {other:?}"),
            }
            match dispatch(method, &path, Some("Bearer wrong"), "secret") {
                Dispatch::Refused(e) => assert_eq!(e.error, Kind::Unauthorized, "{method} {path}"),
                other => panic!("{method} {path} with the wrong token: {other:?}"),
            }
            assert_eq!(dispatch(method, &path, Some("Bearer secret"), "secret"), Dispatch::Serve(k), "{method} {path}");
        }
    }
}

#[test]
fn the_description_is_served_to_anyone() {
    assert_eq!(dispatch("GET", "/openapi.json", None, "secret"), Dispatch::Document);
    match dispatch("POST", "/openapi.json", None, "secret") {
        Dispatch::Refused(e) => assert_eq!(e.error, Kind::BadRequest),
        other => panic!("{other:?}"),
    }
}

#[test]
fn an_unknown_path_and_a_wrong_method_are_told_before_the_token() {
    match dispatch("GET", "/nowhere", None, "secret") {
        Dispatch::Refused(e) => {
            assert_eq!(e.error, Kind::NotFound);
            assert_eq!(e.message, "this node serves no GET /nowhere; GET /openapi.json lists what it does serve");
        }
        other => panic!("{other:?}"),
    }
    match dispatch("PATCH", "/services/kitchen", None, "secret") {
        Dispatch::Refused(e) => {
            assert_eq!(e.error, Kind::BadRequest);
            assert_eq!(e.message, "PATCH is not a method this node accepts on /services/kitchen");
        }
        other => panic!("{other:?}"),
    }
    match dispatch("GET", "/services/", Some("Bearer secret"), "secret") {
        Dispatch::Refused(e) => assert_eq!(e.error, Kind::NotFound),
        other => panic!("an empty segment fills no placeholder: {other:?}"),
    }
    assert_eq!(
        dispatch("GET", "/blocks/available/ghcr.io/anyone/filter:1.2.0", Some("Bearer secret"), "secret"),
        Dispatch::Serve(4)
    );
}

#[test]
fn orphans_come_in_the_stores_order_once_each() {
    let gone = ServiceFile::Missing;
    let held = vec![
        Held { service: s("b"), instance: s("x"), file: gone.clone(), keys: 1 },
        Held { service: s("a"), instance: s("y"), file: ServiceFile::Declares(vec![s("y")]), keys: 2 },
        Held { service: s("a"), instance: s("z"), file: ServiceFile::Declares(vec![s("y")]), keys: 3 },
    ];
    let orphans = orphans_of(&held);
    assert_eq!(orphans.len(), 2);
    assert_eq!((orphans[0].service.as_str(), orphans[0].instance.as_str(), orphans[0].keys), ("b", "x", 1));
    assert_eq!((orphans[1].service.as_str(), orphans[1].instance.as_str(), orphans[1].keys), ("a", "z", 3));
}
