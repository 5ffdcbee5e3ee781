use eio_daemon::blocks::Unresolvable;
use eio_daemon::boot::{is_id, joined, service_files, service_path, service_stem, starts, Counts, Failure, Services, Start, State};

#[test]
fn a_name_that_is_no_service_name_names_no_path() {
    let services = "/data/services";
    assert_eq!(service_path(services, "kitchen"), Some(String::from("/data/services/kitchen.toml")));
    for hostile in ["../node", "..", ".", "../../etc/passwd", "kitchen/../../node", "a/b", ""] {
        assert_eq!(service_path(services, hostile), None, "{hostile:?} was turned into a path");
    }
}

#[test]
fn an_id_is_lowercase_digits_underscore_and_dash_starting_with_a_letter_or_digit() {
    for good in ["kitchen", "b7k2", "0", "a_b-c"] {
        assert!(is_id(good), "{good:?}");
    }
    for bad in ["", "-a", "_a", "Kitchen", "a.b", "a:b", "a b", "a/b"] {
        assert!(!is_id(bad), "{bad:?}");
    }
}

#[test]
fn only_toml_files_are_services() {
    assert_eq!(service_stem("alpha.toml"), Some(String::from("alpha")));
    assert_eq!(service_stem("alpha.toml.bak"), None);
    assert_eq!(service_stem("README"), None);
    assert_eq!(service_stem(".toml"), None, "a dotfile has no extension");
    let names = vec![
        String::from("beta.toml"),
        String::from("alpha.toml"),
        String::from("alpha.toml.bak"),
        String::from("README"),
    ];
    assert_eq!(
        service_files("/data/services", &names),
        vec![
            (String::from("alpha"), String::from("/data/services/alpha.toml")),
            (String::from("beta"), String::from("/data/services/beta.toml")),
        ],
        "keyed by stem, in name order"
    );
}

#[test]
fn a_service_starts_when_asked_or_when_its_file_says_so() {
    assert!(starts(Start::Always, false));
    assert!(starts(Start::Always, true));
    assert!(starts(Start::AsTheFileSays, true));
    assert!(!starts(Start::AsTheFileSays, false));
}

#[test]
fn every_service_is_counted_exactly_once() {
    let mut services: Services<u32> = Services::new();
    assert_eq!(services.counts(), Counts::default(), "a node with no services");
    assert!(services.set("alpha", State::Running(1)).is_none());
    services.set("beta", State::Stopped);
    services.set("gamma", State::Errored(Failure::Unstartable(String::from("no"))));
    assert_eq!(services.counts(), Counts { running: 1, stopped: 1, errored: 1 });

    let previous = services.set("alpha", State::Stopped);
    assert!(matches!(previous, Some(State::Running(1))), "a service is replaced, never doubled");
    assert_eq!(services.counts(), Counts { running: 0, stopped: 2, errored: 1 });
    assert!(matches!(services.get("alpha"), Some(State::Stopped)));
    assert!(services.get("delta").is_none());

    let names: Vec<&str> = services.iter().iter().map(|(name, _)| name.as_str()).collect();
    assert_eq!(names, vec!["alpha", "beta", "gamma"], "in name order");

    assert!(matches!(services.remove("beta"), Some(State::Stopped)));
    assert!(services.remove("beta").is_none());
    assert_eq!(services.counts(), Counts { running: 0, stopped: 1, errored: 1 });
}

#[test]
fn a_state_is_labelled_running_stopped_or_errored() {
    assert_eq!(State::Running(()).label(), "running");
    assert_eq!(State::<()>::Stopped.label(), "stopped");
    assert_eq!(State::<()>::Errored(Failure::Unreadable(String::new())).label(), "errored");
}

#[test]
fn errors_are_joined_on_one_line() {
    assert_eq!(joined(&vec![]), "");
    assert_eq!(joined(&vec![String::from("a")]), "a");
    assert_eq!(joined(&vec![String::from("a"), String::from("b"), String::from("c")]), "a; b; c");
}

#[test]
fn every_way_one_service_can_fail_reads_as_one_line() {
    let s = String::from;
    assert_eq!(Failure::Unreadable(s("denied")).message(), "denied");
    assert_eq!(Failure::Invalid(vec![s("x"), s("y")]).message(), "x; y");
    assert_eq!(
        Failure::Misnamed { stem: s("a"), name: s("b") }.message(),
        "this file is a.toml but declares name = \"b\"; a service file's stem must equal its name"
    );
    assert_eq!(
        Failure::Unresolvable { id: s("t1"), reference: s("filter"), reason: Unresolvable::Untagged }.message(),
        "block `filter` of instance t1: this reference has no version tag, and the cache is keyed by version"
    );
    assert_eq!(
        Failure::Unpullable { id: s("t1"), reference: s("f:1"), reason: s("offline") }.message(),
        "block `f:1` of instance t1: offline"
    );
    assert_eq!(
        Failure::Unloadable { id: s("t1"), reference: s("f:1"), error: s("bad") }.message(),
        "block `f:1` of instance t1: bad"
    );
    assert_eq!(Failure::Uncapable { id: s("t1"), error: s("gpio") }.message(), "instance t1: gpio");
    assert_eq!(Failure::Unwireable(vec![s("p")]).message(), "p");
    assert_eq!(Failure::Unstartable(s("trap")).message(), "trap");
}

use eio_daemon::blocks::Cache;
use eio_daemon::boot::{fetch, pulled, stored, FetchStep, Pulled, ResolveStep, Resolution};

#[test]
fn a_warm_cache_is_read_and_nothing_is_pulled() {
    assert_eq!(fetch("t1", "f:1", Ok(b"\0asm".to_vec())), FetchStep::Cached(b"\0asm".to_vec()));
}

#[test]
fn a_miss_is_pulled_and_a_reference_with_no_registry_is_the_miss_it_was() {
    let missing = Unresolvable::Missing { path: String::from("/b/f/1/block.wasm") };
    assert_eq!(fetch("t1", "f:1", Err(missing.clone())), FetchStep::Pull(missing.clone()));
    assert_eq!(pulled("t1", "f:1", missing.clone(), Pulled::Fetched(vec![1])), Ok(vec![1]));
    assert_eq!(
        pulled("t1", "f:1", missing.clone(), Pulled::Unregistered),
        Err(Failure::Unresolvable { id: String::from("t1"), reference: String::from("f:1"), reason: missing.clone() })
    );
    assert_eq!(
        pulled("t1", "r.io/f:1", missing, Pulled::Failed(String::from("offline"))),
        Err(Failure::Unpullable { id: String::from("t1"), reference: String::from("r.io/f:1"), reason: String::from("offline") })
    );
}

#[test]
fn a_cache_that_cannot_answer_refuses_and_one_that_cannot_keep_a_pull_does_too() {
    let unreadable = Unresolvable::Unreadable { path: String::from("/p"), error: String::from("denied") };
    assert_eq!(
        fetch("t1", "f:1", Err(unreadable.clone())),
        FetchStep::Refused(Failure::Unresolvable { id: String::from("t1"), reference: String::from("f:1"), reason: unreadable.clone() })
    );
    assert_eq!(stored("t1", "f:1", Ok(vec![2])), Ok(vec![2]));
    assert!(matches!(stored("t1", "f:1", Err(unreadable)), Err(Failure::Unresolvable { .. })));
}

#[test]
fn instances_naming_one_block_share_the_cache_entry_they_resolved_to() {
    let cache = Cache::new(String::from("/data/blocks"));
    let mut resolution = Resolution::new();
    let ResolveStep::Fetch(path) = resolution.next(&cache, "t1", "transform:1.0.0") else { panic!("a first fetch") };
    assert_eq!(path, "/data/blocks/transform/1.0.0/block.wasm");
    assert_eq!(resolution.fetched("t1", path), 0);
    assert_eq!(resolution.next(&cache, "t2", "ghcr.io/x/transform:1.0.0"), ResolveStep::Share(0), "spelled with its registry");
    assert!(matches!(resolution.next(&cache, "t3", "filter:2.0.0"), ResolveStep::Fetch(_)));
    assert!(matches!(resolution.next(&cache, "t4", "filter"), ResolveStep::Refuse(Failure::Unresolvable { .. })));
    assert_eq!(resolution.of("t1"), Some(0));
    assert_eq!(resolution.of("t2"), Some(0));
    assert_eq!(resolution.of("t3"), None, "not recorded until its fetch is");
}
