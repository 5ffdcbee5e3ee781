//! What the engine binding decides without an engine: the budgets one guest entry runs under,
//! the host functions the dispatch table has slots for, and the names of the files a compiled
//! block is kept in.
use vstd::prelude::*;
use crate::blocks::last_component_start;
use crate::paths::SEPARATOR;
use crate::text::{chars_are, chars_of, decimal, lemma_rfind, push_decimal, rfind_char, slice_of, string_of};

verus! {

/// The namespace of the always-available host functions.
pub const CORE_NAMESPACE: &'static str = "eio:core";

/// The namespace of the state capability's host functions.
pub const STATE_NAMESPACE: &'static str = "eio:state";

/// What one property expression may consume (the expression budgets).
#[derive(Debug, Clone, Copy, PartialEq, Eq)]
pub struct ExprLimits {
    /// Evaluation steps one expression may take.
    pub max_fuel: u32,
    /// How deeply one expression may nest.
    pub max_depth: u32,
    /// The longest range one expression may build.
    pub max_range: u32,
    /// The largest value, in bytes, one expression may build.
    pub max_value_bytes: u32,
}

/// The reference expression budgets: what a node that states none runs its expressions under.
pub open spec fn default_expr_limits() -> ExprLimits {
    ExprLimits {
        max_fuel: ExprLimits::DEFAULT_MAX_FUEL,
        max_depth: ExprLimits::DEFAULT_MAX_DEPTH,
        max_range: ExprLimits::DEFAULT_MAX_RANGE,
        max_value_bytes: ExprLimits::DEFAULT_MAX_VALUE_BYTES,
    }
}

impl ExprLimits {
    /// The reference evaluation-step budget.
    pub const DEFAULT_MAX_FUEL: u32 = 100000;
    /// The reference nesting depth.
    pub const DEFAULT_MAX_DEPTH: u32 = 128;
    /// The reference range length.
    pub const DEFAULT_MAX_RANGE: u32 = 65536;
    /// The reference value size, in bytes.
    pub const DEFAULT_MAX_VALUE_BYTES: u32 = 262144;

    /// The reference budgets, as [`default_expr_limits`] states them.
    pub fn defaults() -> (limits: ExprLimits)
        ensures
            limits == default_expr_limits(),
    {
        ExprLimits {
            max_fuel: ExprLimits::DEFAULT_MAX_FUEL,
            max_depth: ExprLimits::DEFAULT_MAX_DEPTH,
            max_range: ExprLimits::DEFAULT_MAX_RANGE,
            max_value_bytes: ExprLimits::DEFAULT_MAX_VALUE_BYTES,
        }
    }
}

/// What one guest entry is allowed to consume, and what one expression is.
///
/// Host configuration, not ABI constants: every number here is stated by whoever builds a
/// runtime rather than defaulted silently below this type.
#[derive(Debug, Clone, Copy, PartialEq, Eq)]
pub struct Budgets {
    /// Fuel per guest entry: roughly one unit per WASM instruction executed.
    pub fuel: u64,
    /// Wall-clock time per guest entry, in milliseconds.
    pub deadline_ms: u64,
    /// What one property expression may consume.
    pub expr: ExprLimits,
}

/// How often, in milliseconds, the epoch ticker advances the engine's epoch: the resolution of
/// every wall-clock deadline.
pub const EPOCH_TICK_MS: u64 = 1;

impl Budgets {
    /// Enough fuel for a callback doing real work, and far too little for a spin.
    pub const DEFAULT_FUEL: u64 = 100_000_000;

    /// The wall-clock companion to [`Budgets::DEFAULT_FUEL`], in milliseconds: the backstop for
    /// a callback blocked in a host function, which fuel cannot see.
    pub const DEFAULT_DEADLINE_MS: u64 = 1000;

    /// The budgets a node that states nothing runs under.
    pub fn defaults() -> (budgets: Budgets)
        ensures
            budgets == (Budgets {
                fuel: Budgets::DEFAULT_FUEL,
                deadline_ms: Budgets::DEFAULT_DEADLINE_MS,
                expr: default_expr_limits(),
            }),
    {
        Budgets { fuel: Budgets::DEFAULT_FUEL, deadline_ms: Budgets::DEFAULT_DEADLINE_MS, expr: ExprLimits::defaults() }
    }

    /// The deadline in whole epoch ticks, rounded up and never zero.
    ///
    /// Zero would mean "already expired", which would kill every instance on its first call —
    /// so a deadline shorter than one tick is one tick.
    pub fn epoch_ticks(self) -> (ticks: u64)
        ensures
            ticks >= 1,
            ticks * EPOCH_TICK_MS >= self.deadline_ms,
            self.deadline_ms >= 1 ==> (ticks - 1) * EPOCH_TICK_MS < self.deadline_ms,
    {
        let ticks = self.deadline_ms / EPOCH_TICK_MS + if self.deadline_ms % EPOCH_TICK_MS == 0 { 0 } else { 1 };
        if ticks == 0 { 1 } else { ticks }
    }
}

impl Default for Budgets {
    fn default() -> (budgets: Budgets)
        ensures
            budgets == (Budgets {
                fuel: Budgets::DEFAULT_FUEL,
                deadline_ms: Budgets::DEFAULT_DEADLINE_MS,
                expr: default_expr_limits(),
            }),
    {
        Budgets::defaults()
    }
}

// ── the dispatch table ──────────────────────────────────────────────────────────────────────

/// The seven always-available host functions, in their table order.
#[derive(Debug, Clone, Copy, PartialEq, Eq)]
pub enum CoreFn {
    /// `log`
    Log,
    /// `emit`
    Emit,
    /// `prop`
    Prop,
    /// `error`
    Error,
    /// `time_unix_ms`
    TimeUnixMs,
    /// `time_mono_ms`
    TimeMonoMs,
    /// `rand`
    Rand,
}

/// The three state host functions, in their table order.
#[derive(Debug, Clone, Copy, PartialEq, Eq)]
pub enum StateFn {
    /// `state_get`
    Get,
    /// `state_put`
    Put,
    /// `state_del`
    Del,
}

/// One host function the dispatch table has a slot for.
#[derive(Debug, Clone, Copy, PartialEq, Eq)]
pub enum Import {
    /// An always-available function.
    Core(CoreFn),
    /// A state function.
    State(StateFn),
}

/// How many core functions there are.
pub const CORE_COUNT: usize = 7;

/// How many slots the table has.
pub const IMPORT_COUNT: usize = 10;

/// A core function's position in its table.
pub open spec fn core_index(f: CoreFn) -> nat {
    match f {
        CoreFn::Log => 0,
        CoreFn::Emit => 1,
        CoreFn::Prop => 2,
        CoreFn::Error => 3,
        CoreFn::TimeUnixMs => 4,
        CoreFn::TimeMonoMs => 5,
        CoreFn::Rand => 6,
    }
}

/// A state function's position in its table.
pub open spec fn state_index(f: StateFn) -> nat {
    match f {
        StateFn::Get => 0,
        StateFn::Put => 1,
        StateFn::Del => 2,
    }
}

/// The name a guest imports a core function as.
pub open spec fn core_name(f: CoreFn) -> Seq<char> {
    match f {
        CoreFn::Log => "log"@,
        CoreFn::Emit => "emit"@,
        CoreFn::Prop => "prop"@,
        CoreFn::Error => "error"@,
        CoreFn::TimeUnixMs => "time_unix_ms"@,
        CoreFn::TimeMonoMs => "time_mono_ms"@,
        CoreFn::Rand => "rand"@,
    }
}

/// The name a guest imports a state function as.
pub open spec fn state_name(f: StateFn) -> Seq<char> {
    match f {
        StateFn::Get => "state_get"@,
        StateFn::Put => "state_put"@,
        StateFn::Del => "state_del"@,
    }
}

/// The slot an import occupies.
pub open spec fn slot_of(import: Import) -> nat {
    match import {
        Import::Core(f) => core_index(f),
        Import::State(f) => CORE_COUNT as nat + state_index(f),
    }
}

/// The namespace and name an import is linked under.
pub open spec fn import_name(import: Import) -> (Seq<char>, Seq<char>) {
    match import {
        Import::Core(f) => (CORE_NAMESPACE@, core_name(f)),
        Import::State(f) => (STATE_NAMESPACE@, state_name(f)),
    }
}

impl CoreFn {
    /// The name the guest imports it as.
    pub fn name(self) -> (name: &'static str)
        ensures
            name@ == core_name(self),
    {
        match self {
            CoreFn::Log => "log",
            CoreFn::Emit => "emit",
            CoreFn::Prop => "prop",
            CoreFn::Error => "error",
            CoreFn::TimeUnixMs => "time_unix_ms",
            CoreFn::TimeMonoMs => "time_mono_ms",
            CoreFn::Rand => "rand",
        }
    }

    /// The function `name` denotes, if the core namespace has one.
    pub fn from_name(name: &str) -> (f: Option<CoreFn>)
        ensures
            match f {
                Some(f) => core_name(f) == name@,
                None => forall|g: CoreFn| core_name(g) != name@,
            },
    {
        let chars = chars_of(name);
        if chars_are(&chars, "log") {
            Some(CoreFn::Log)
        } else if chars_are(&chars, "emit") {
            Some(CoreFn::Emit)
        } else if chars_are(&chars, "prop") {
            Some(CoreFn::Prop)
        } else if chars_are(&chars, "error") {
            Some(CoreFn::Error)
        } else if chars_are(&chars, "time_unix_ms") {
            Some(CoreFn::TimeUnixMs)
        } else if chars_are(&chars, "time_mono_ms") {
            Some(CoreFn::TimeMonoMs)
        } else if chars_are(&chars, "rand") {
            Some(CoreFn::Rand)
        } else {
            None
        }
    }
}

impl StateFn {
    /// The name the guest imports it as.
    pub fn name(self) -> (name: &'static str)
        ensures
            name@ == state_name(self),
    {
        match self {
            StateFn::Get => "state_get",
            StateFn::Put => "state_put",
            StateFn::Del => "state_del",
        }
    }

    /// The function `name` denotes, if the state namespace has one.
    pub fn from_name(name: &str) -> (f: Option<StateFn>)
        ensures
            match f {
                Some(f) => state_name(f) == name@,
                None => forall|g: StateFn| state_name(g) != name@,
            },
    {
        let chars = chars_of(name);
        if chars_are(&chars, "state_get") {
            Some(StateFn::Get)
        } else if chars_are(&chars, "state_put") {
            Some(StateFn::Put)
        } else if chars_are(&chars, "state_del") {
            Some(StateFn::Del)
        } else {
            None
        }
    }
}

impl Import {
    /// Its slot in the dispatch table.
    pub fn slot(self) -> (slot: usize)
        ensures
            slot == slot_of(self),
            slot < IMPORT_COUNT,
    {
        match self {
            Import::Core(f) => match f {
                CoreFn::Log => 0,
                CoreFn::Emit => 1,
                CoreFn::Prop => 2,
                CoreFn::Error => 3,
                CoreFn::TimeUnixMs => 4,
                CoreFn::TimeMonoMs => 5,
                CoreFn::Rand => 6,
            },
            Import::State(f) => match f {
                StateFn::Get => 7,
                StateFn::Put => 8,
                StateFn::Del => 9,
            },
        }
    }

    /// The import `namespace`.`name` denotes, if this host implements it: the core namespace
    /// and the state namespace have slots, and nothing else does.
    pub fn from_name(namespace: &str, name: &str) -> (import: Option<Import>)
        ensures
            match import {
                Some(import) => import_name(import) == (namespace@, name@),
                None => forall|i: Import| import_name(i) != (namespace@, name@),
            },
    {
        let ns = chars_of(namespace);
        proof {
            reveal_strlit("eio:core");
            reveal_strlit("eio:state");
            assert(CORE_NAMESPACE@ != STATE_NAMESPACE@) by {
                assert(CORE_NAMESPACE@.len() != STATE_NAMESPACE@.len());
            }
        }
        if chars_are(&ns, CORE_NAMESPACE) {
            match CoreFn::from_name(name) {
                Some(f) => Some(Import::Core(f)),
                None => None,
            }
        } else if chars_are(&ns, STATE_NAMESPACE) {
            match StateFn::from_name(name) {
                Some(f) => Some(Import::State(f)),
                None => None,
            }
        } else {
            None
        }
    }
}

/// Every import has a slot of its own, and every slot is in the table.
pub proof fn lemma_every_import_has_its_own_slot(a: Import, b: Import)
    ensures
        slot_of(a) < IMPORT_COUNT,
        slot_of(a) == slot_of(b) ==> a == b,
{
}

/// Every import is found again from the namespace and name it is linked under.
pub proof fn lemma_an_import_resolves_from_its_name(a: Import, b: Import)
    ensures
        import_name(a) == import_name(b) ==> a == b,
{
    reveal_strlit("eio:core");
    reveal_strlit("eio:state");
    reveal_strlit("log");
    reveal_strlit("emit");
    reveal_strlit("prop");
    reveal_strlit("error");
    reveal_strlit("time_unix_ms");
    reveal_strlit("time_mono_ms");
    reveal_strlit("rand");
    reveal_strlit("state_get");
    reveal_strlit("state_put");
    reveal_strlit("state_del");
    if import_name(a) == import_name(b) {
        let (na, fa) = import_name(a);
        let (nb, fb) = import_name(b);
        assert(na.len() == nb.len() && fa.len() == fb.len());
        assert(na =~= nb);
        assert(fa =~= fb);
        match (a, b) {
            (Import::Core(x), Import::Core(y)) => {
                if x != y {
                    assert(core_name(x)[0] != core_name(y)[0] || core_name(x)[1] != core_name(y)[1]
                        || core_name(x)[5] != core_name(y)[5] || core_name(x).len() != core_name(y).len());
                }
            },
            (Import::State(x), Import::State(y)) => {
                if x != y {
                    assert(state_name(x)[6] != state_name(y)[6]);
                }
            },
            _ => {
                assert(na.len() != nb.len());
            },
        }
    }
}

// ── artifact file names ─────────────────────────────────────────────────────────────────────

/// The last name in a path, as a Unix `Path::file_name` reads it: trailing separators and `.`
/// components are not names, and a path that ends in `..` (or has no component) has none.
pub open spec fn file_name_spec(path: Seq<char>) -> Option<Seq<char>>
    decreases path.len(),
{
    if path.len() == 0 {
        None
    } else if path.last() == SEPARATOR {
        file_name_spec(path.drop_last())
    } else {
        let start = last_component_start(path);
        let last = path.skip(start);
        if last == seq!['.'] {
            if 0 <= start < path.len() {
                file_name_spec(path.take(start))
            } else {
                None
            }
        } else if last == seq!['.', '.'] {
            None
        } else {
            Some(last)
        }
    }
}

/// A path's file name, for building a sibling temporary out of (empty when it has none).
pub fn file_name(path: &str) -> (name: String)
    ensures
        name@ == match file_name_spec(path@) {
            Some(name) => name,
            None => Seq::empty(),
        },
{
    let chars = chars_of(path);
    let end = chars.len();
    assert(chars@.take(end as int) =~= path@);
    file_name_within(&chars, end)
}

/// [`file_name`] of `chars[..end]`.
fn file_name_within(chars: &Vec<char>, end: usize) -> (name: String)
    requires
        end <= chars@.len(),
    ensures
        name@ == match file_name_spec(chars@.take(end as int)) {
            Some(name) => name,
            None => Seq::empty(),
        },
    decreases end,
{
    let ghost path = chars@.take(end as int);
    if end == 0 {
        return String::new();
    }
    if chars[end - 1] == SEPARATOR {
        assert(path.drop_last() =~= chars@.take(end - 1));
        return file_name_within(chars, end - 1);
    }
    let prefix = slice_of(chars, 0, end);
    assert(prefix@ =~= path);
    proof {
        lemma_rfind(path, SEPARATOR);
    }
    let start = match rfind_char(&prefix, SEPARATOR) {
        Some(slash) => slash + 1,
        None => 0,
    };
    let last = slice_of(&prefix, start, end);
    assert(last@ =~= path.skip(start as int));
    proof {
        reveal_strlit(".");
        reveal_strlit("..");
        assert(".".view() =~= seq!['.']);
        assert("..".view() =~= seq!['.', '.']);
    }
    if chars_are(&last, ".") {
        assert(path.take(start as int) =~= chars@.take(start as int));
        return file_name_within(chars, start);
    }
    if chars_are(&last, "..") {
        return String::new();
    }
    assert(last@.subrange(0, last@.len() as int) =~= last@);
    string_of(&last, 0, last.len())
}

/// The name a half-written artifact is staged under before it is renamed into place:
/// `.<pid>.<name>.tmp`, so two daemons on one directory never overwrite each other's partial
/// writes.
pub fn staging_name(pid: u32, name: &str) -> (staging: String)
    ensures
        staging@ == seq!['.'] + decimal(pid as nat) + seq!['.'] + name@ + ".tmp"@,
{
    let mut staging = String::new();
    staging.push('.');
    push_decimal(&mut staging, pid as u64);
    staging.push('.');
    staging.append(name);
    staging.append(".tmp");
    assert(staging@ =~= seq!['.'] + decimal(pid as nat) + seq!['.'] + name@ + ".tmp"@);
    staging
}

/// The name a compiled block is kept under: `<content hash>.<engine key>.cwasm`.
pub fn artifact_name(content: &str, engine: &str) -> (name: String)
    ensures
        name@ == content@ + seq!['.'] + engine@ + ".cwasm"@,
{
    let mut name = String::from_str(content);
    name.push('.');
    name.append(engine);
    name.append(".cwasm");
    assert(name@ =~= content@ + seq!['.'] + engine@ + ".cwasm"@);
    name
}

/// Where an engine keyed `engine_key` keeps `wasm` compiled: `<sha256 of the module>.<engine
/// key>.cwasm` under `precompiled`, or nowhere for an engine that keeps no artifacts.
pub fn artifact(precompiled: Option<&str>, wasm: &[u8], engine_key: &str) -> (path: Option<String>)
    ensures
        match precompiled {
            Some(directory) => path matches Some(p) && p@ == crate::paths::join(
                directory@,
                crate::blocks::sha256_hex_of(wasm@) + seq!['.'] + engine_key@ + ".cwasm"@,
            ),
            None => path is None,
        },
{
    match precompiled {
        None => None,
        Some(directory) => {
            let content = crate::blocks::sha256_hex(wasm);
            let name = artifact_name(content.as_str(), engine_key);
            Some(crate::paths::path_join(directory, name.as_str()))
        },
    }
}

} // verus!
