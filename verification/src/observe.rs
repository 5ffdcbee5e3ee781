//! The observation bus, and the taps that read it.
//!
//! Each instance reports what it observed on an unbounded channel, and something has to read
//! it: in a node, that is the bus — one drain per instance, forwarding into a broadcast that
//! taps and the log stream subscribe to. The broadcast channel is the edge around this module;
//! what the bus *decides* is here.
//!
//! # Zero cost untapped
//!
//! With nothing listening, an observation is not even built: [`Bus::publishes`] answers no and
//! counts it as unwatched, and [`Bus::log`] and [`Bus::observe`] build nothing — not even the
//! timestamp — unless it answered yes.
use vstd::prelude::*;
use time::format_description::well_known::Rfc3339;
use time::OffsetDateTime;
use crate::names::{map_of, NameMap};
use crate::text::{decimal, push_decimal};

verus! {

/// `what` is a log line of `level` with `message`.
pub open spec fn is_log_of(what: What, level: Seq<char>, message: Seq<char>) -> bool {
    match what {
        What::Log { level: l, message: m } => l@ == level && m@ == message,
        _ => false,
    }
}


/// The SSE event name of a batch that travelled a tapped connection.
pub const SIGNALS: &'static str = "signals";
/// The SSE event name of a property expression that failed for a signal.
pub const EXPR_FAILURE: &'static str = "expr_failure";
/// The SSE event name of a batch routed and not delivered.
pub const DISCARDED: &'static str = "discarded";
/// The SSE event name of a log line.
pub const LOG: &'static str = "log";
/// The SSE event name of a report that a reader missed observations.
pub const LAGGED: &'static str = "lagged";

/// How many observations the bus holds for a reader that is behind.
pub const RING: usize = 1024;

/// The body of an [`Observation`], by event name.
#[derive(Debug, Clone, PartialEq, Eq)]
pub enum What {
    /// A batch that travelled the tapped connection, one canonical rendering per signal.
    Signals {
        /// One rendering per signal in the batch.
        signals: Vec<String>,
    },
    /// A property expression that failed for a signal.
    ExprFailure {
        /// The error code, which is what a caller branches on.
        code: String,
        /// Where in the property's source text, as `start..end` byte offsets.
        span: String,
        /// The message, for a person.
        message: String,
        /// Which property, by the index the descriptor numbers it with.
        prop: u32,
        /// Which signal of the batch, when the failure was per-signal.
        signal: Option<u32>,
    },
    /// A batch that was routed and not delivered.
    Discarded {
        /// Why.
        reason: String,
    },
    /// A log line, from the daemon or from a guest.
    Log {
        /// `trace`..`error`.
        level: String,
        /// The line.
        message: String,
    },
    /// The stream skipped observations because this reader was behind.
    Lagged {
        /// Exactly how many.
        missed: u64,
    },
}

/// The SSE event name each kind of observation is published as.
pub open spec fn event_of(what: What) -> Seq<char> {
    match what {
        What::Signals { .. } => SIGNALS@,
        What::ExprFailure { .. } => EXPR_FAILURE@,
        What::Discarded { .. } => DISCARDED@,
        What::Log { .. } => LOG@,
        What::Lagged { .. } => LAGGED@,
    }
}

impl What {
    /// The SSE event name this variant is published as: the one definition of the mapping.
    pub fn event(&self) -> (name: &'static str)
        ensures
            name@ == event_of(*self),
    {
        match self {
            What::Signals { .. } => SIGNALS,
            What::ExprFailure { .. } => EXPR_FAILURE,
            What::Discarded { .. } => DISCARDED,
            What::Log { .. } => LOG,
            What::Lagged { .. } => LAGGED,
        }
    }
}

/// Where an observation came from, and what it was.
#[derive(Debug, Clone, PartialEq, Eq)]
pub struct Observation {
    /// The service the instance belongs to.
    pub service: String,
    /// The instance's id.
    pub instance: String,
    /// The SSE event name this is published as: always `what`'s.
    pub event: &'static str,
    /// When this was observed, RFC 3339 with milliseconds — the daemon's clock.
    pub at: String,
    /// The output port, when the observation has one.
    pub port: Option<String>,
    /// What was seen.
    pub what: What,
}

/// An observation carries its own body's event name.
pub open spec fn well_named(observation: Observation) -> bool {
    observation.event@ == event_of(observation.what)
}

/// Builds an observation, naming its event after its body.
pub fn observation(service: &str, instance: &str, at: String, port: Option<String>, what: What) -> (o: Observation)
    ensures
        well_named(o),
        o.service@ == service@,
        o.instance@ == instance@,
        o.at == at,
        o.port == port,
        o.what == what,
{
    let event = what.event();
    Observation { service: String::from_str(service), instance: String::from_str(instance), event, at, port, what }
}

/// The observation a reader is handed in place of `missed` it fell behind on.
pub fn lagged(missed: u64) -> (o: Observation)
    ensures
        well_named(o),
        o.what == (What::Lagged { missed }),
        o.service@.len() == 0 && o.instance@.len() == 0 && o.at@.len() == 0,
        o.port is None,
{
    proof {
        reveal_strlit("");
    }
    observation("", "", String::new(), None, What::Lagged { missed })
}

/// `OffsetDateTime::now_utc().unix_timestamp_nanos()`: the wall clock, in UTC, as nanoseconds
/// since the Unix epoch. Which instant it is, is the time; stated is only what the crate's
/// source fixes of every instant: whole seconds that fit an `i64` (`unix_timestamp`), times a
/// billion, plus a nanosecond below a billion.
#[verifier::external_body]
fn utc_now_ns() -> (now: i128)
    ensures
        i64::MIN * 1_000_000_000 <= now < (i64::MAX + 1) * 1_000_000_000,
{
    OffsetDateTime::now_utc().unix_timestamp_nanos()
}

/// The RFC 3339 text `time` renders for the UTC instant `ns` nanoseconds after the Unix epoch,
/// or `None` where it renders none: an instant outside the dates it can represent, or one the
/// format cannot spell.
pub uninterp spec fn rfc3339_at(ns: int) -> Option<Seq<char>>;

/// `OffsetDateTime::from_unix_timestamp_nanos` then `format(&Rfc3339)`: the instant `ns`
/// nanoseconds after the Unix epoch, in UTC, as RFC 3339 text.
///
/// Trusted for one thing: that the text, or its absence, is a function of `ns` alone, named
/// [`rfc3339_at`]. The offset is always UTC, so neither the machine's time zone nor anything
/// else enters.
#[verifier::external_body]
fn rfc3339(ns: i128) -> (text: Option<String>)
    ensures
        text is Some <==> rfc3339_at(ns as int) is Some,
        text matches Some(t) ==> rfc3339_at(ns as int) == Some(t@),
{
    match OffsetDateTime::from_unix_timestamp_nanos(ns) {
        Ok(time) => time.format(&Rfc3339).ok(),
        Err(_) => None,
    }
}

/// `ns` rounded down to a whole millisecond.
pub open spec fn whole_ms_spec(ns: int) -> int {
    ns - ns % 1_000_000
}

/// `ns` rounded down to a whole millisecond, or `None` where that is below `i128::MIN`.
pub fn whole_ms(ns: i128) -> (truncated: Option<i128>)
    ensures
        match truncated {
            Some(t) => t == whole_ms_spec(ns as int),
            None => whole_ms_spec(ns as int) < i128::MIN,
        },
{
    if ns >= 0 {
        let r = ((ns as u128) % 1_000_000) as i128;
        proof {
            vstd::arithmetic::div_mod::lemma_fundamental_div_mod(ns as int, 1_000_000);
            vstd::arithmetic::div_mod::lemma_fundamental_div_mod_converse(
                ns as int,
                1_000_000,
                (ns as int) / 1_000_000,
                r as int,
            );
        }
        Some(ns - r)
    } else {
        let k = (-(ns + 1)) as u128;
        let q = (k % 1_000_000) as i128;
        let r = 999_999 - q;
        proof {
            let d = (k as int) / 1_000_000;
            vstd::arithmetic::div_mod::lemma_fundamental_div_mod(k as int, 1_000_000);
            assert(k as int == 1_000_000 * d + q);
            assert(ns as int == (-d - 1) * 1_000_000 + r) by (nonlinear_arith)
                requires
                    ns as int == -(k as int) - 1,
                    k as int == 1_000_000 * d + q,
                    r == 999_999 - q,
            ;
            vstd::arithmetic::div_mod::lemma_fundamental_div_mod_converse(
                ns as int,
                1_000_000,
                -d - 1,
                r as int,
            );
        }
        if ns < i128::MIN + r {
            None
        } else {
            Some(ns - r)
        }
    }
}

/// `ns` is an instant the clock can read: whole seconds that fit an `i64`.
pub open spec fn is_instant(ns: int) -> bool {
    i64::MIN * 1_000_000_000 <= ns < (i64::MAX + 1) * 1_000_000_000
}

/// The stamp for the instant `ns`: its RFC 3339 text rounded down to whole milliseconds, or
/// empty where there is none to give.
pub open spec fn stamp_spec(ns: int) -> Seq<char> {
    if whole_ms_spec(ns) < i128::MIN {
        Seq::empty()
    } else {
        match rfc3339_at(whole_ms_spec(ns)) {
            Some(text) => text,
            None => Seq::empty(),
        }
    }
}

/// The stamp an observation made at the instant `ns` nanoseconds after the Unix epoch
/// carries: RFC 3339 in UTC, rounded down to whole milliseconds, and empty where the instant
/// cannot be rendered.
pub fn stamp_of(ns: i128) -> (stamp: String)
    ensures
        stamp@ == stamp_spec(ns as int),
{
    match whole_ms(ns) {
        Some(t) => match rfc3339(t) {
            Some(text) => text,
            None => String::new(),
        },
        None => String::new(),
    }
}

/// `observation` is stamped with the clock's reading when it was built: the stamp of some
/// instant the clock can read.
pub open spec fn stamped_now(observation: Observation) -> bool {
    exists|now: int| is_instant(now) && observation.at@ == stamp_spec(now)
}

/// Now, as RFC 3339 in UTC, rounded down to whole milliseconds: the daemon's clock, which every
/// observation is stamped with when it is built — and only when it is built. Which instant
/// "now" is, is the machine's to say; the stamp is that instant's.
pub fn now_rfc3339() -> (stamp: String)
    ensures
        exists|now: int| is_instant(now) && stamp@ == stamp_spec(now),
{
    let now = utc_now_ns();
    stamp_of(now)
}

/// Why a routed batch was not delivered.
#[derive(Debug, Clone, Copy, PartialEq, Eq)]
pub enum DiscardReason {
    /// Emitted on a port nothing is wired to.
    Unrouted,
    /// A destination's queue was full and the connection drops rather than waits.
    Overflow,
    /// The instance's own mailbox was full for a self-connection.
    SelfFull,
    /// The destination is gone.
    Gone,
}

/// A discard reason, as the stream names it: a slug a client can branch on.
pub open spec fn reason_spec(reason: DiscardReason) -> Seq<char> {
    match reason {
        DiscardReason::Unrouted => "unrouted"@,
        DiscardReason::Overflow => "overflow"@,
        DiscardReason::SelfFull => "self_full"@,
        DiscardReason::Gone => "gone"@,
    }
}

/// A discard reason, as the stream names it.
pub fn reason_of(reason: DiscardReason) -> (slug: &'static str)
    ensures
        slug@ == reason_spec(reason),
{
    match reason {
        DiscardReason::Unrouted => "unrouted",
        DiscardReason::Overflow => "overflow",
        DiscardReason::SelfFull => "self_full",
        DiscardReason::Gone => "gone",
    }
}

/// The name of output port `port`: the descriptor's, else the error port's own name, else the
/// number itself.
pub open spec fn port_name_spec(outputs: Seq<String>, port: u32, err_port: u32, err_name: Seq<char>) -> Seq<char> {
    if (port as int) < outputs.len() {
        outputs[port as int]@
    } else if port == err_port {
        err_name
    } else {
        decimal(port as nat)
    }
}

/// Resolves an output port's index to its name, once, so no reader has to.
pub fn port_name(outputs: &Vec<String>, port: u32, err_port: u32, err_name: &str) -> (name: String)
    ensures
        name@ == port_name_spec(outputs@, port, err_port, err_name@),
{
    if (port as usize) < outputs.len() {
        outputs[port as usize].clone()
    } else if port == err_port {
        String::from_str(err_name)
    } else {
        let mut name = String::new();
        push_decimal(&mut name, port as u64);
        assert(name@ =~= decimal(port as nat));
        name
    }
}

/// A span of a property's source text, rendered `start..end`.
pub fn span_text(start: u64, end: u64) -> (span: String)
    ensures
        span@ == decimal(start as nat) + seq!['.', '.'] + decimal(end as nat),
{
    let mut span = String::new();
    push_decimal(&mut span, start);
    span.push('.');
    span.push('.');
    push_decimal(&mut span, end);
    assert(span@ =~= decimal(start as nat) + seq!['.', '.'] + decimal(end as nat));
    span
}

/// One registered tap.
#[derive(Debug, Clone, PartialEq, Eq)]
pub struct Tap {
    /// The handle a stream and a removal address it by.
    pub id: String,
    /// The service the tapped connection is in.
    pub service: String,
    /// The connection, as the service file spells it: `"from.port -> to.port"`.
    pub connection: String,
    /// The instance the observations come from — the connection's source.
    pub instance: String,
    /// The output port they come from.
    pub port: String,
}

/// A tap's id: `t` and its number.
pub open spec fn tap_id(number: u64) -> Seq<char> {
    seq!['t'] + decimal(number as nat)
}

/// What the bus has seen: drained, published, and dropped unwatched.
#[derive(Debug, Clone, Copy, PartialEq, Eq)]
pub struct Counts {
    /// Events taken off instance streams.
    pub drained: u64,
    /// Observations sent to subscribers.
    pub published: u64,
    /// Observations there was nobody to send.
    pub unwatched: u64,
}

/// What an instance's event stream carries, as far as the bus reads it.
#[derive(Debug, Clone, PartialEq, Eq)]
pub enum InstanceEvent {
    /// A batch emitted on an output port, one canonical rendering per signal.
    Emitted {
        /// The output port, by index.
        port: u32,
        /// The batch's signals, rendered.
        signals: Vec<String>,
    },
    /// A property expression that failed.
    Failure {
        /// The error code.
        code: String,
        /// Where in the property's source the failure is, as byte offsets.
        start: u64,
        /// Where it ends.
        end: u64,
        /// The message, for a person.
        message: String,
        /// Which property.
        prop: u32,
        /// Which signal of the batch, when the failure was per-signal.
        signal: Option<u32>,
    },
    /// A routed batch that was not delivered, and why.
    Discarded {
        /// The output port it was emitted on, by index.
        port: u32,
        /// Why it was not delivered.
        reason: DiscardReason,
    },
    /// A status, a detail, a refusal, a death or a stop: about the instance, not about what
    /// travelled a connection, so the log's rather than a stream's.
    Quiet,
}

/// `o` is what the bus publishes for `event` from `service`'s `instance`, whose output ports
/// are named `outputs` and whose error port is `err_port`, named `err_name`.
pub open spec fn observes(
    o: Observation,
    service: Seq<char>,
    instance: Seq<char>,
    outputs: Seq<String>,
    err_port: u32,
    err_name: Seq<char>,
    event: InstanceEvent,
) -> bool {
    &&& well_named(o)
    &&& o.service@ == service
    &&& o.instance@ == instance
    &&& match event {
        InstanceEvent::Emitted { port, signals } => {
            &&& o.port matches Some(p) && p@ == port_name_spec(outputs, port, err_port, err_name)
            &&& o.what == (What::Signals { signals })
        },
        InstanceEvent::Failure { code, start, end, message, prop, signal } => {
            &&& o.port is None
            &&& match o.what {
                What::ExprFailure { code: c, span, message: m, prop: p, signal: s } => c == code && span@ == decimal(
                    start as nat,
                ) + seq!['.', '.'] + decimal(end as nat) && m == message && p == prop && s == signal,
                _ => false,
            }
        },
        InstanceEvent::Discarded { port, reason } => {
            &&& o.port matches Some(p) && p@ == port_name_spec(outputs, port, err_port, err_name)
            &&& match o.what {
                What::Discarded { reason: r } => r@ == reason_spec(reason),
                _ => false,
            }
        },
        InstanceEvent::Quiet => false,
    }
}

/// The per-node bus every observation passes through.
#[derive(Debug)]
pub struct Bus {
    published: u64,
    unwatched: u64,
    drained: u64,
    taps: NameMap<Tap>,
    next_tap: u64,
}

impl Bus {
    /// Every tap is held under its own id.
    #[verifier::type_invariant]
    spec fn keyed_by_id(self) -> bool {
        forall|k: Seq<char>| #[trigger] self.taps.view().contains_key(k) ==> self.taps.view()[k].id@ == k
    }

    /// Observations sent to subscribers.
    pub closed spec fn published(&self) -> u64 {
        self.published
    }

    /// Observations there was nobody to send.
    pub closed spec fn unwatched(&self) -> u64 {
        self.unwatched
    }

    /// Events taken off instance streams.
    pub closed spec fn drained(&self) -> u64 {
        self.drained
    }

    /// The taps this node holds, by id.
    pub closed spec fn taps_view(&self) -> Map<Seq<char>, Tap> {
        self.taps.view()
    }

    /// The number the next tap is minted with.
    pub closed spec fn next_tap(&self) -> u64 {
        self.next_tap
    }

    /// A bus that has seen nothing and holds no taps.
    pub fn new() -> (bus: Bus)
        ensures
            bus.published() == 0 && bus.unwatched() == 0 && bus.drained() == 0,
            bus.taps_view() == Map::<Seq<char>, Tap>::empty(),
            bus.next_tap() == 1,
    {
        Bus { published: 0, unwatched: 0, drained: 0, taps: NameMap::new(), next_tap: 1 }
    }

    /// Whether an observation is worth building, given how many readers the broadcast has;
    /// counts it either way.
    ///
    /// With nothing listening the answer is no, and nothing is built, cloned or rendered.
    pub fn publishes(&mut self, receivers: usize) -> (send: bool)
        ensures
            send == (receivers > 0),
            send ==> final(self).published() == old(self).published().wrapping_add(1)
                && final(self).unwatched() == old(self).unwatched(),
            !send ==> final(self).unwatched() == old(self).unwatched().wrapping_add(1)
                && final(self).published() == old(self).published(),
            final(self).drained() == old(self).drained(),
            final(self).taps_view() == old(self).taps_view(),
            final(self).next_tap() == old(self).next_tap(),
    {
        proof {
            use_type_invariant(&*self);
        }
        if receivers == 0 {
            self.unwatched = self.unwatched.wrapping_add(1);
            false
        } else {
            self.published = self.published.wrapping_add(1);
            true
        }
    }

    /// Counts one event taken off an instance's stream, published or not.
    pub fn drain_one(&mut self)
        ensures
            final(self).drained() == old(self).drained().wrapping_add(1),
            final(self).published() == old(self).published(),
            final(self).unwatched() == old(self).unwatched(),
            final(self).taps_view() == old(self).taps_view(),
            final(self).next_tap() == old(self).next_tap(),
    {
        proof {
            use_type_invariant(&*self);
        }
        self.drained = self.drained.wrapping_add(1);
    }

    /// What the bus has seen.
    pub fn counts(&self) -> (counts: Counts)
        ensures
            counts == (Counts { drained: self.drained(), published: self.published(), unwatched: self.unwatched() }),
    {
        Counts { drained: self.drained, published: self.published, unwatched: self.unwatched }
    }

    /// A log line, as an observation to broadcast — or `None`, with nothing built, when
    /// nothing is listening.
    pub fn log(
        &mut self,
        receivers: usize,
        service: &str,
        instance: &str,
        level: &str,
        message: &str,
    ) -> (line: Option<Observation>)
        ensures
            line is Some == (receivers > 0),
            receivers > 0 ==> final(self).published() == old(self).published().wrapping_add(1)
                && final(self).unwatched() == old(self).unwatched(),
            receivers == 0 ==> final(self).unwatched() == old(self).unwatched().wrapping_add(1)
                && final(self).published() == old(self).published(),
            line matches Some(o) ==> (well_named(o) && o.service@ == service@ && o.instance@ == instance@
                && o.port is None && is_log_of(o.what, level@, message@) && stamped_now(o)),
            final(self).drained() == old(self).drained(),
            final(self).taps_view() == old(self).taps_view(),
            final(self).next_tap() == old(self).next_tap(),
    {
        if !self.publishes(receivers) {
            return None;
        }
        let what = What::Log { level: String::from_str(level), message: String::from_str(message) };
        Some(observation(service, instance, now_rfc3339(), None, what))
    }

    /// Registers a tap on `connection` in `service`, resolved to its source endpoint.
    pub fn tap(&mut self, service: &str, connection: &str, instance: &str, port: &str) -> (tap: Tap)
        ensures
            tap.id@ == tap_id(old(self).next_tap()),
            tap.service@ == service@ && tap.connection@ == connection@,
            tap.instance@ == instance@ && tap.port@ == port@,
            final(self).taps_view() == old(self).taps_view().insert(tap.id@, tap),
            final(self).next_tap() == old(self).next_tap().wrapping_add(1),
            final(self).published() == old(self).published(),
            final(self).unwatched() == old(self).unwatched(),
            final(self).drained() == old(self).drained(),
    {
        proof {
            use_type_invariant(&*self);
        }
        let mut id = String::new();
        id.push('t');
        push_decimal(&mut id, self.next_tap);
        assert(id@ =~= tap_id(self.next_tap));
        self.next_tap = self.next_tap.wrapping_add(1);
        let tap = Tap {
            id: id.clone(),
            service: String::from_str(service),
            connection: String::from_str(connection),
            instance: String::from_str(instance),
            port: String::from_str(port),
        };
        let registered = copy_tap(&tap);
        let mut taps = NameMap::new();
        std::mem::swap(&mut taps, &mut self.taps);
        taps.insert(id, registered);
        self.taps = taps;
        tap
    }

    /// The tap with that id.
    pub fn tap_of(&self, id: &str) -> (tap: Option<Tap>)
        ensures
            match tap {
                Some(t) => self.taps_view().contains_key(id@) && self.taps_view()[id@] == t,
                None => !self.taps_view().contains_key(id@),
            },
    {
        match self.taps.get(id) {
            Some(tap) => Some(copy_tap(tap)),
            None => None,
        }
    }

    /// Every tap this node holds, in id order.
    pub fn taps(&self) -> (taps: Vec<Tap>)
        ensures
            taps@.len() == self.taps_view().dom().len(),
            forall|i: int| 0 <= i < taps@.len() ==> self.taps_view().contains_key(#[trigger] taps@[i].id@)
                && self.taps_view()[taps@[i].id@] == taps@[i],
            forall|i: int, j: int| 0 <= i < j < taps@.len() ==> crate::names::lex_lt(taps@[i].id@, taps@[j].id@),
    {
        proof {
            use_type_invariant(self);
        }
        let entries = self.taps.entries();
        let mut taps: Vec<Tap> = Vec::new();
        let mut i: usize = 0;
        while i < entries.len()
            invariant
                i <= entries@.len(),
                taps@.len() == i,
                forall|k: int| 0 <= k < i ==> #[trigger] taps@[k] == entries@[k].1,
            decreases entries@.len() - i,
        {
            taps.push(copy_tap(&entries[i].1));
            i = i + 1;
        }
        proof {
            assert forall|k: int| 0 <= k < taps@.len() implies self.taps_view().contains_key(
                #[trigger] taps@[k].id@,
            ) && self.taps_view()[taps@[k].id@] == taps@[k] by {
                assert(self.taps_view()[entries@[k].0@] == entries@[k].1);
                assert(self.taps_view().contains_key(entries@[k].0@));
            }
            assert forall|a: int, b: int| 0 <= a < b < taps@.len() implies crate::names::lex_lt(
                taps@[a].id@,
                taps@[b].id@,
            ) by {
                assert(self.taps_view().contains_key(entries@[a].0@));
                assert(self.taps_view().contains_key(entries@[b].0@));
            }
        }
        taps
    }

    /// Removes a tap. `None` if there was no such one.
    pub fn untap(&mut self, id: &str) -> (removed: Option<Tap>)
        ensures
            final(self).taps_view() == old(self).taps_view().remove(id@),
            match removed {
                Some(t) => old(self).taps_view().contains_key(id@) && old(self).taps_view()[id@] == t,
                None => !old(self).taps_view().contains_key(id@),
            },
            final(self).next_tap() == old(self).next_tap(),
            final(self).published() == old(self).published(),
            final(self).unwatched() == old(self).unwatched(),
            final(self).drained() == old(self).drained(),
    {
        proof {
            use_type_invariant(&*self);
        }
        let mut taps = NameMap::new();
        std::mem::swap(&mut taps, &mut self.taps);
        let removed = taps.remove(id);
        self.taps = taps;
        removed
    }
}

impl Bus {
    /// Takes one event off an instance's stream and turns it into the observation to
    /// broadcast — or `None`, with nothing built, for an event no stream carries or when
    /// nothing is listening. Every event is counted as drained; a streamed one is counted as
    /// published or unwatched too.
    pub fn observe(
        &mut self,
        receivers: usize,
        service: &str,
        instance: &str,
        outputs: &Vec<String>,
        err_port: u32,
        err_name: &str,
        event: InstanceEvent,
    ) -> (observed: Option<Observation>)
        ensures
            final(self).drained() == old(self).drained().wrapping_add(1),
            event is Quiet ==> observed is None && final(self).published() == old(self).published()
                && final(self).unwatched() == old(self).unwatched(),
            !(event is Quiet) ==> {
                &&& observed is Some == (receivers > 0)
                &&& receivers > 0 ==> final(self).published() == old(self).published().wrapping_add(1)
                    && final(self).unwatched() == old(self).unwatched()
                &&& receivers == 0 ==> final(self).unwatched() == old(self).unwatched().wrapping_add(1)
                    && final(self).published() == old(self).published()
            },
            observed matches Some(o) ==> observes(o, service@, instance@, outputs@, err_port, err_name@, event),
            observed matches Some(o) ==> stamped_now(o),
            final(self).taps_view() == old(self).taps_view(),
            final(self).next_tap() == old(self).next_tap(),
    {
        self.drain_one();
        if let InstanceEvent::Quiet = event {
            return None;
        }
        if !self.publishes(receivers) {
            return None;
        }
        match event {
            InstanceEvent::Emitted { port, signals } => {
                let name = port_name(outputs, port, err_port, err_name);
                Some(observation(service, instance, now_rfc3339(), Some(name), What::Signals { signals }))
            },
            InstanceEvent::Failure { code, start, end, message, prop, signal } => {
                let what = What::ExprFailure { code, span: span_text(start, end), message, prop, signal };
                Some(observation(service, instance, now_rfc3339(), None, what))
            },
            InstanceEvent::Discarded { port, reason } => {
                let name = port_name(outputs, port, err_port, err_name);
                let what = What::Discarded { reason: String::from_str(reason_of(reason)) };
                Some(observation(service, instance, now_rfc3339(), Some(name), what))
            },
            InstanceEvent::Quiet => None,
        }
    }
}

impl Default for Bus {
    fn default() -> (bus: Bus)
        ensures
            bus.published() == 0 && bus.unwatched() == 0 && bus.drained() == 0,
            bus.taps_view() == Map::<Seq<char>, Tap>::empty(),
            bus.next_tap() == 1,
    {
        Bus::new()
    }
}

/// A copy of `tap`, field for field.
fn copy_tap(tap: &Tap) -> (copy: Tap)
    ensures
        copy == *tap,
{
    Tap {
        id: tap.id.clone(),
        service: tap.service.clone(),
        connection: tap.connection.clone(),
        instance: tap.instance.clone(),
        port: tap.port.clone(),
    }
}

} // verus!
