use eio_daemon::engine::{
    artifact, artifact_name, file_name, staging_name, Budgets, CoreFn, ExprLimits, Import, StateFn, CORE_COUNT, CORE_NAMESPACE,
    IMPORT_COUNT, STATE_NAMESPACE,
};

const CORE: [CoreFn; 7] = [
    CoreFn::Log,
    CoreFn::Emit,
    CoreFn::Prop,
    CoreFn::Error,
    CoreFn::TimeUnixMs,
    CoreFn::TimeMonoMs,
    CoreFn::Rand,
];
const STATE: [StateFn; 3] = [StateFn::Get, StateFn::Put, StateFn::Del];

#[test]
fn every_import_has_its_own_slot_and_resolves_from_its_name() {
    let imports: Vec<Import> =
        CORE.into_iter().map(Import::Core).chain(STATE.into_iter().map(Import::State)).collect();
    assert_eq!(imports.len(), IMPORT_COUNT);
    for (index, import) in imports.into_iter().enumerate() {
        assert_eq!(import.slot(), index, "{import:?}");
        let (namespace, name) = match import {
            Import::Core(function) => (CORE_NAMESPACE, function.name()),
            Import::State(function) => (STATE_NAMESPACE, function.name()),
        };
        assert_eq!(Import::from_name(namespace, name), Some(import));
    }
    assert_eq!(Import::from_name(CORE_NAMESPACE, "frobnicate"), None);
    assert_eq!(Import::from_name(CORE_NAMESPACE, "state_get"), None);
    assert_eq!(Import::from_name(STATE_NAMESPACE, "log"), None);
    assert_eq!(Import::from_name("eio:gpio", "gpio_read"), None);
}

#[test]
fn core_fn_names_match_the_shared_tables() {
    let names: Vec<&str> = CORE.into_iter().map(CoreFn::name).collect();
    assert_eq!(names, ["log", "emit", "prop", "error", "time_unix_ms", "time_mono_ms", "rand"]);
    assert_eq!(names.len(), CORE_COUNT);
    for function in CORE {
        assert_eq!(CoreFn::from_name(function.name()), Some(function));
    }
    assert_eq!(CoreFn::from_name("state_get"), None);
}

#[test]
fn state_fn_names_match_the_shared_tables() {
    let names: Vec<&str> = STATE.into_iter().map(StateFn::name).collect();
    assert_eq!(names, ["state_get", "state_put", "state_del"]);
    for function in STATE {
        assert_eq!(StateFn::from_name(function.name()), Some(function));
    }
    assert_eq!(StateFn::from_name("log"), None);
}

#[test]
fn the_default_budgets_are_the_stated_ones() {
    let budgets = Budgets::defaults();
    assert_eq!(budgets.fuel, 100_000_000);
    assert_eq!(budgets.deadline_ms, 1000);
    assert_eq!(budgets.expr, ExprLimits::defaults());
    assert_eq!(ExprLimits::defaults().max_fuel, 100_000);
    assert_eq!(ExprLimits::defaults().max_depth, 128);
    assert_eq!(ExprLimits::defaults().max_range, 65_536);
    assert_eq!(ExprLimits::defaults().max_value_bytes, 262_144);
    assert_eq!(Budgets::default(), budgets);
}

#[test]
fn a_deadline_is_counted_in_epoch_ticks() {
    let mut budgets = Budgets::defaults();
    assert_eq!(budgets.epoch_ticks(), 1000);
    budgets.deadline_ms = 0;
    assert_eq!(budgets.epoch_ticks(), 1, "a deadline of nothing still waits one tick");
}

#[test]
fn a_compiled_block_is_kept_under_its_content_and_engine() {
    assert_eq!(artifact_name("abc", "0123"), "abc.0123.cwasm");
    assert_eq!(staging_name(42, "abc.0123.cwasm"), ".42.abc.0123.cwasm.tmp");
    assert_eq!(file_name("/data/precompiled/abc.cwasm"), "abc.cwasm");
    assert_eq!(file_name("abc"), "abc");
}

#[test]
fn a_runtime_with_no_directory_writes_nothing() {
    assert_eq!(artifact(None, b"\0asm", "0123"), None);
    assert_eq!(
        artifact(Some("/data/precompiled"), b"abc", "0123"),
        Some(String::from(
            "/data/precompiled/ba7816bf8f01cfea414140de5dae2223b00361a396177a9cb410ff61f20015ad.0123.cwasm"
        )),
        "kept under its content and its engine"
    );
}
