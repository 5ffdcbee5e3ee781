//! The pub/sub bridge: system blocks, wire topics, broker candidates, and the in-process broker.
//!
//! The bridge is a normative boundary: publish, subscribe, and a connection's lifecycle. What
//! is here is everything about it that is a decision rather than a socket — which names are
//! system blocks, what a topic is on the wire, how a candidate entry parses, which candidates a
//! pin leaves dialable, how the ranked walk over them goes, and what one publish on the
//! in-process broker comes to: its answer, which subscribers stay listed, and what it adds to
//! the drop count.
use vstd::prelude::*;
use crate::text::{
    chars_of, concat, decimal, digit, find, find_char, lemma_find, lemma_find_unique, lemma_rfind,
    lemma_rfind_unique, rfind, rfind_char, slice_of, str_eq, string_of,
};

verus! {

/// The topic namespace prefix every wire topic carries.
pub const NAMESPACE: &'static str = "eieio";

/// The registry name of the publisher system block.
pub const PUBLISHER: &'static str = "publisher";

/// The registry name of the subscriber system block.
pub const SUBSCRIBER: &'static str = "subscriber";

/// The one property both system blocks carry: the topic they publish or subscribe to.
pub const TOPIC_PROPERTY: &'static str = "topic";

/// The bus an executor answers with before anything wires a real one in.
pub const UNCONFIGURED_BUS: &'static str = "unconfigured";

/// How many batches a subscriber's queue holds before a publish to it is dropped rather than
/// waited on: a depth, not a promise.
pub const SUBSCRIBER_CAPACITY: usize = 64;

/// Which system block an instance is, once its `block` reference has resolved to one.
#[derive(Debug, Clone, Copy, PartialEq, Eq)]
pub enum SystemBlockKind {
    /// Publishes every batch delivered on `in` to its `topic` (no outputs).
    Publisher,
    /// Emits on `out` every batch published to its `topic` (no inputs).
    Subscriber,
}

/// The registry name of a system block kind.
pub open spec fn kind_name(kind: SystemBlockKind) -> Seq<char> {
    match kind {
        SystemBlockKind::Publisher => PUBLISHER@,
        SystemBlockKind::Subscriber => SUBSCRIBER@,
    }
}

/// Which kind a name names, if any.
pub open spec fn kind_of(name: Seq<char>) -> Option<SystemBlockKind> {
    if name == PUBLISHER@ {
        Some(SystemBlockKind::Publisher)
    } else if name == SUBSCRIBER@ {
        Some(SystemBlockKind::Subscriber)
    } else {
        None
    }
}

impl SystemBlockKind {
    /// Which kind `name` (a resolved block reference's name) names, or `None` for an ordinary
    /// block.
    pub fn of(name: &str) -> (kind: Option<SystemBlockKind>)
        ensures
            kind == kind_of(name@),
    {
        if str_eq(name, PUBLISHER) {
            Some(SystemBlockKind::Publisher)
        } else if str_eq(name, SUBSCRIBER) {
            Some(SystemBlockKind::Subscriber)
        } else {
            None
        }
    }

    /// The block's registry name — the inverse of [`of`](Self::of).
    pub fn name(self) -> (name: &'static str)
        ensures
            name@ == kind_name(self),
    {
        match self {
            SystemBlockKind::Publisher => PUBLISHER,
            SystemBlockKind::Subscriber => SUBSCRIBER,
        }
    }
}

/// `name` and `of` are inverse: every kind is found again by its own name, and a name that
/// finds a kind is that kind's name. The two registry names differ.
pub proof fn lemma_kind_names_round_trip(kind: SystemBlockKind, name: Seq<char>)
    ensures
        kind_of(kind_name(kind)) == Some(kind),
        kind_of(name) == Some(kind) ==> name == kind_name(kind),
{
    reveal_strlit("publisher");
    reveal_strlit("subscriber");
    assert(PUBLISHER@ != SUBSCRIBER@) by {
        assert(PUBLISHER@.len() != SUBSCRIBER@.len());
    }
}

/// The version every system block's manifest carries.
pub const SYSTEM_BLOCK_VERSION: &'static str = "1.0.0";

/// The name of the publisher's one input port.
pub const IN_PORT: &'static str = "in";

/// The name of the subscriber's one output port.
pub const OUT_PORT: &'static str = "out";

/// One property a system block declares. Every property of a system block is string-valued.
#[derive(Debug, Clone, PartialEq, Eq)]
pub struct SystemProperty {
    /// The property's name.
    pub name: String,
    /// What the property is for, in prose.
    pub description: String,
    /// The value used when a configuration supplies none.
    pub default: Option<String>,
    /// Whether a configuration must supply it.
    pub required: bool,
}

/// The manifest a system block presents, built in memory rather than read from a module.
///
/// It has no capabilities and no compiled targets: a host-native block imports nothing, there
/// being no guest to import into, and no compiled artifact exists for it.
#[derive(Debug, Clone, PartialEq, Eq)]
pub struct SystemManifest {
    /// The block's registry name.
    pub name: String,
    /// The block's version.
    pub version: String,
    /// The ABI version the block is built against: the one this host implements.
    pub abi: String,
    /// What the block does, in prose.
    pub description: String,
    /// The capabilities it imports: none.
    pub capabilities: Vec<String>,
    /// Its input ports, by name.
    pub inputs: Vec<String>,
    /// Its output ports, by name.
    pub outputs: Vec<String>,
    /// The properties it declares.
    pub properties: Vec<SystemProperty>,
    /// The targets a compiled artifact exists for: none.
    pub targets: Vec<String>,
}

/// The `topic` property both system blocks declare: required, with no default.
fn topic_property() -> (property: SystemProperty)
    ensures
        property.name@ == TOPIC_PROPERTY@,
        property.default is None,
        property.required,
{
    SystemProperty {
        name: String::from_str(TOPIC_PROPERTY),
        description: String::from_str(
            "The pub/sub topic this instance publishes or subscribes to, scoped under this \
             node's configured bus: the wire topic is `eieio/<bus>/<topic>`. Evaluated once, \
             at configure time \u{2014} it MUST be a signal-independent expression, because it \
             names a destination for the instance's whole life rather than a per-signal value.",
        ),
        default: None,
        required: true,
    }
}

/// The manifest `kind` presents on a host implementing ABI `abi`: its registry name at version
/// `1.0.0`, built against `abi`, one `topic` property that a configuration must supply, no
/// capabilities and no targets; a publisher has the one input `in` and no outputs, a subscriber
/// the one output `out` and no inputs.
pub fn manifest_for(kind: SystemBlockKind, abi: &str) -> (manifest: SystemManifest)
    ensures
        manifest.name@ == kind_name(kind),
        manifest.version@ == SYSTEM_BLOCK_VERSION@,
        manifest.abi@ == abi@,
        manifest.capabilities@.len() == 0,
        manifest.targets@.len() == 0,
        manifest.properties@.len() == 1,
        manifest.properties@[0].name@ == TOPIC_PROPERTY@,
        manifest.properties@[0].default is None,
        manifest.properties@[0].required,
        kind == SystemBlockKind::Publisher ==> manifest.inputs@.len() == 1
            && manifest.inputs@[0]@ == IN_PORT@ && manifest.outputs@.len() == 0,
        kind == SystemBlockKind::Subscriber ==> manifest.outputs@.len() == 1
            && manifest.outputs@[0]@ == OUT_PORT@ && manifest.inputs@.len() == 0,
{
    let mut properties: Vec<SystemProperty> = Vec::new();
    properties.push(topic_property());
    let mut ports: Vec<String> = Vec::new();
    match kind {
        SystemBlockKind::Publisher => {
            ports.push(String::from_str(IN_PORT));
            SystemManifest {
                name: String::from_str(kind.name()),
                version: String::from_str(SYSTEM_BLOCK_VERSION),
                abi: String::from_str(abi),
                description: String::from_str(
                    "Publishes every batch delivered on `in` to this node's configured pub/sub \
                     bus. Host-native: implemented by the router's bridge, not by WASM.",
                ),
                capabilities: Vec::new(),
                inputs: ports,
                outputs: Vec::new(),
                properties,
                targets: Vec::new(),
            }
        },
        SystemBlockKind::Subscriber => {
            ports.push(String::from_str(OUT_PORT));
            SystemManifest {
                name: String::from_str(kind.name()),
                version: String::from_str(SYSTEM_BLOCK_VERSION),
                abi: String::from_str(abi),
                description: String::from_str(
                    "Emits on `out` every batch published on this node's configured pub/sub bus \
                     on `topic`. Host-native: implemented by the router's bridge, not by WASM.",
                ),
                capabilities: Vec::new(),
                inputs: Vec::new(),
                outputs: ports,
                properties,
                targets: Vec::new(),
            }
        },
    }
}

/// The full wire topic: `eieio/<bus>/<topic>`.
pub open spec fn wire_topic_spec(bus: Seq<char>, topic: Seq<char>) -> Seq<char> {
    NAMESPACE@ + seq!['/'] + bus + seq!['/'] + topic
}

/// The full wire topic a `topic` property resolves to: `eieio/<bus>/<topic>`.
///
/// `bus` comes from this node's `pubsub.toml`, never from a block's configuration.
pub fn wire_topic(bus: &str, topic: &str) -> (wire: String)
    ensures
        wire@ == wire_topic_spec(bus@, topic@),
{
    let mut wire = concat(NAMESPACE, "/");
    wire.append(bus);
    wire.append("/");
    wire.append(topic);
    proof {
        reveal_strlit("/");
        assert("/"@ =~= seq!['/']);
        assert(wire@ =~= wire_topic_spec(bus@, topic@));
    }
    wire
}

/// What became of one publish.
///
/// Not an error: dropping is the normal answer to a bridge that cannot send right now.
#[derive(Debug, Clone, Copy, PartialEq, Eq)]
pub enum Delivery {
    /// Handed to the transport.
    Sent,
    /// Not handed to the transport at all: there was no connection to send it on.
    Dropped,
}

// ── in-process publish ──────────────────────────────────────────────────────────────────────

/// What one subscriber's bounded queue answered when a publish offered it the batch, without
/// waiting.
#[derive(Debug, Clone, Copy, PartialEq, Eq)]
pub enum Offer {
    /// The batch went into the queue.
    Taken,
    /// The queue was full: this subscriber loses this batch, and stays subscribed.
    Full,
    /// The receiving end is gone: nothing was listening any more.
    Closed,
}

/// What one publish on an in-process connection came to: the answer to the publisher, which
/// of the topic's subscribers stay on its list, and how many losses it adds to the broker's
/// drop count.
#[derive(Debug, Clone, PartialEq, Eq)]
pub struct Published {
    /// The answer the publisher gets.
    pub delivery: Delivery,
    /// One entry per subscriber offered the batch, in list order: whether it stays listed.
    pub keep: Vec<bool>,
    /// How many losses this publish adds to the broker's count.
    pub lost: u64,
}

/// How many of `offers` were refused by a full queue.
pub open spec fn full_count(offers: Seq<Offer>) -> nat
    decreases offers.len(),
{
    if offers.len() == 0 {
        0
    } else {
        full_count(offers.drop_last()) + if offers.last() == Offer::Full { 1nat } else { 0nat }
    }
}

/// What a publish comes to.
///
/// A connection that is down drops the publish and counts one loss, offering the batch to no
/// one (`offers` is then empty: nobody was asked). A live connection answers `Sent` whatever its
/// subscribers did: a full queue loses this batch, is counted and stays listed; a closed one is
/// taken off the list and not counted, since nothing was listening; nobody subscribed at all is
/// no loss.
pub open spec fn published_spec(connected: bool, offers: Seq<Offer>) -> (Delivery, Seq<bool>, nat) {
    if !connected {
        (Delivery::Dropped, Seq::<bool>::empty(), 1nat)
    } else {
        (
            Delivery::Sent,
            Seq::new(offers.len(), |i: int| offers[i] != Offer::Closed),
            full_count(offers),
        )
    }
}

proof fn lemma_full_count_bounded(offers: Seq<Offer>)
    ensures
        full_count(offers) <= offers.len(),
    decreases offers.len(),
{
    if offers.len() > 0 {
        lemma_full_count_bounded(offers.drop_last());
    }
}

/// Settles one publish on an in-process connection: `connected` is whether the connection was
/// up, and `offers` what each of the topic's subscribers answered, in list order, when a live
/// connection offered them the batch.
pub fn publish_outcome(connected: bool, offers: &Vec<Offer>) -> (published: Published)
    requires
        !connected ==> offers.len() == 0,
    ensures
        published.delivery == published_spec(connected, offers@).0,
        published.keep@ == published_spec(connected, offers@).1,
        published.lost == published_spec(connected, offers@).2,
{
    if !connected {
        return Published { delivery: Delivery::Dropped, keep: Vec::new(), lost: 1 };
    }
    let n = offers.len();
    let mut keep: Vec<bool> = Vec::new();
    let mut lost: u64 = 0;
    let mut i: usize = 0;
    while i < n
        invariant
            n == offers.len(),
            i <= n,
            keep@.len() == i,
            forall|k: int| 0 <= k < i ==> keep@[k] == (offers@[k] != Offer::Closed),
            lost == full_count(offers@.take(i as int)),
            lost <= i,
        decreases n - i,
    {
        proof {
            assert(offers@.take(i + 1).drop_last() =~= offers@.take(i as int));
            lemma_full_count_bounded(offers@.take(i as int));
        }
        let offer = offers[i];
        match offer {
            Offer::Full => {
                lost = lost + 1;
            },
            _ => {},
        }
        keep.push(!matches!(offer, Offer::Closed));
        i = i + 1;
    }
    proof {
        assert(offers@.take(n as int) =~= offers@);
        assert(keep@ =~= Seq::new(offers@.len(), |k: int| offers@[k] != Offer::Closed));
    }
    Published { delivery: Delivery::Sent, keep, lost }
}

/// A publish on a live connection is sent, whatever its subscribers did; one on a connection
/// that is down is dropped and counted: the answer depends on the connection alone.
pub proof fn lemma_sent_exactly_when_connected(connected: bool, offers: Seq<Offer>)
    ensures
        (published_spec(connected, offers).0 == Delivery::Sent) == connected,
        !connected ==> published_spec(connected, offers).2 == 1,
{
}

/// Publishing with nobody subscribed is not a loss; every loss on a live connection is a
/// subscriber whose queue was full, and such a subscriber stays listed, while one whose
/// receiving end is gone is taken off and not counted.
pub proof fn lemma_losses_are_full_queues(offers: Seq<Offer>)
    ensures
        offers.len() == 0 ==> published_spec(true, offers).2 == 0,
        published_spec(true, offers).2 <= offers.len(),
        forall|i: int|
            0 <= i < offers.len() ==> (#[trigger] published_spec(true, offers).1[i] == (offers[i]
                != Offer::Closed)),
        (forall|i: int| 0 <= i < offers.len() ==> offers[i] != Offer::Full) ==> published_spec(
            true,
            offers,
        ).2 == 0,
    decreases offers.len(),
{
    lemma_full_count_bounded(offers);
    if offers.len() > 0 {
        lemma_losses_are_full_queues(offers.drop_last());
        let d = offers.drop_last();
        assert(forall|i: int| 0 <= i < d.len() ==> d[i] == offers[i]);
    }
}

// ── broker candidates ───────────────────────────────────────────────────────────────────────

/// One entry from `pubsub.toml`'s ranked `candidates` list: `<node-id>@<host>:<port>`.
#[derive(Debug, Clone, PartialEq, Eq)]
pub struct Candidate {
    /// The candidate's own node id — what `pinned` in `pubsub.toml` names.
    pub id: String,
    /// The host or IP a client dials to reach this candidate.
    pub host: String,
    /// The port a client dials to reach this candidate.
    pub port: u16,
}

/// Why a `candidates` entry is not `<id>@<host>:<port>`.
#[derive(Debug, Clone, Copy, PartialEq, Eq)]
pub enum CandidateError {
    /// There is no `@`.
    NoAt,
    /// There is no `:` after the `@`.
    NoColon,
    /// Nothing names an id before the `@`.
    EmptyId,
    /// Nothing names a host between the `@` and the last `:`.
    EmptyHost,
    /// What follows the last `:` is not a port.
    BadPort,
}

/// Whether `c` is an ASCII decimal digit.
pub open spec fn is_digit(c: char) -> bool {
    '0' <= c && c <= '9'
}

/// Whether every `char` of `text` is a decimal digit.
pub open spec fn all_digits(text: Seq<char>) -> bool {
    forall|i: int| 0 <= i < text.len() ==> is_digit(#[trigger] text[i])
}

/// The number a run of decimal digits spells.
pub open spec fn digits_value(digits: Seq<char>) -> nat
    decreases digits.len(),
{
    if digits.len() == 0 {
        0
    } else {
        digits_value(digits.drop_last()) * 10 + ((digits.last() as u32) - ('0' as u32)) as nat
    }
}

/// A `u16` as Rust's `str::parse` reads one: an optional `+`, then one or more ASCII digits,
/// with a value no greater than `u16::MAX`.
pub open spec fn parse_u16_spec(text: Seq<char>) -> Option<u16> {
    let digits = if text.len() > 0 && text[0] == '+' { text.skip(1) } else { text };
    if digits.len() > 0 && all_digits(digits) && digits_value(digits) <= u16::MAX as nat {
        Some(digits_value(digits) as u16)
    } else {
        None
    }
}

/// The digits after the first `k` are worth at least as much as those first `k`.
pub proof fn lemma_digits_value_grows(digits: Seq<char>, k: int)
    requires
        0 <= k <= digits.len(),
        forall|i: int| 0 <= i < digits.len() ==> is_digit(#[trigger] digits[i]),
    ensures
        digits_value(digits.take(k)) <= digits_value(digits),
    decreases digits.len(),
{
    if k < digits.len() {
        let shorter = digits.drop_last();
        assert forall|i: int| 0 <= i < shorter.len() implies is_digit(#[trigger] shorter[i]) by {
            assert(shorter[i] == digits[i]);
        }
        lemma_digits_value_grows(shorter, k);
        assert(shorter.take(k) =~= digits.take(k));
    } else {
        assert(digits.take(k) =~= digits);
    }
}

/// Parses a port as [`parse_u16_spec`] reads one.
pub fn parse_u16(text: &Vec<char>) -> (port: Option<u16>)
    ensures
        port == parse_u16_spec(text@),
{
    let start: usize = if text.len() > 0 && text[0] == '+' { 1 } else { 0 };
    let ghost digits = if text@.len() > 0 && text@[0] == '+' { text@.skip(1) } else { text@ };
    assert(digits =~= text@.skip(start as int));
    if start >= text.len() {
        return None;
    }
    let mut value: u32 = 0;
    let mut i = start;
    while i < text.len()
        invariant
            start <= i <= text@.len(),
            digits =~= text@.skip(start as int),
            digits == (if text@.len() > 0 && text@[0] == '+' { text@.skip(1) } else { text@ }),
            value as nat == digits_value(digits.take(i - start)),
            value <= u16::MAX,
            forall|j: int| 0 <= j < i - start ==> is_digit(#[trigger] digits[j]),
        decreases text@.len() - i,
    {
        let c = text[i];
        if !('0' <= c && c <= '9') {
            assert(digits[i - start] == c);
            assert(!is_digit(digits[i - start]));
            assert(!all_digits(digits));
            return None;
        }
        let d = (c as u32) - ('0' as u32);
        assert(digits.take(i - start + 1).drop_last() =~= digits.take(i - start));
        let next = value * 10 + d;
        if next > 65535 {
            proof {
                assert(digits_value(digits.take(i - start + 1)) == next);
                let k = i - start + 1;
                if all_digits(digits) {
                    lemma_digits_value_grows(digits, k);
                    assert(digits_value(digits) > u16::MAX as nat);
                }
            }
            return None;
        }
        value = next;
        i = i + 1;
    }
    assert(digits.take(i - start) =~= digits);
    Some(value as u16)
}

/// What [`Candidate::parse`] answers for `raw`: its id, host and port, or which way it is
/// not `<id>@<host>:<port>`.
///
/// The id is everything before the first `@`; the host runs to the last `:` after it, so an
/// IPv6 literal would need brackets this format does not accept.
pub open spec fn candidate_spec(raw: Seq<char>) -> Result<(Seq<char>, Seq<char>, u16), CandidateError> {
    match find(raw, '@') {
        None => Err(CandidateError::NoAt),
        Some(at) => {
            let id = raw.take(at);
            let address = raw.skip(at + 1);
            match rfind(address, ':') {
                None => Err(CandidateError::NoColon),
                Some(colon) => {
                    let host = address.take(colon);
                    let port = address.skip(colon + 1);
                    if id.len() == 0 {
                        Err(CandidateError::EmptyId)
                    } else if host.len() == 0 {
                        Err(CandidateError::EmptyHost)
                    } else {
                        match parse_u16_spec(port) {
                            Some(port) => Ok((id, host, port)),
                            None => Err(CandidateError::BadPort),
                        }
                    }
                },
            }
        },
    }
}

impl Candidate {
    /// Parses one `pubsub.toml` `candidates` entry: `<id>@<host>:<port>`, as in
    /// `n7k2p4qv@10.0.0.5:1883`.
    pub fn parse(raw: &str) -> (candidate: Result<Candidate, CandidateError>)
        ensures
            match candidate {
                Ok(c) => candidate_spec(raw@) == Ok::<(Seq<char>, Seq<char>, u16), CandidateError>(
                    (c.id@, c.host@, c.port),
                ),
                Err(e) => candidate_spec(raw@) == Err::<(Seq<char>, Seq<char>, u16), CandidateError>(e),
            },
    {
        let chars = chars_of(raw);
        proof {
            lemma_find(chars@, '@');
        }
        let at = match find_char(&chars, '@') {
            Some(at) => at,
            None => {
                return Err(CandidateError::NoAt);
            },
        };
        assert(find(chars@, '@') == Some(at as int));
        let n = chars.len();
        assert(at < n);
        let address = slice_of(&chars, at + 1, n);
        assert(address@ == raw@.skip(at + 1));
        proof {
            lemma_rfind(address@, ':');
        }
        let colon = match rfind_char(&address, ':') {
            Some(colon) => colon,
            None => {
                return Err(CandidateError::NoColon);
            },
        };
        if at == 0 {
            return Err(CandidateError::EmptyId);
        }
        if colon == 0 {
            return Err(CandidateError::EmptyHost);
        }
        let port_text = slice_of(&address, colon + 1, address.len());
        assert(port_text@ == address@.skip(colon + 1));
        let port = match parse_u16(&port_text) {
            Some(port) => port,
            None => {
                return Err(CandidateError::BadPort);
            },
        };
        let id = string_of(&chars, 0, at);
        let host = string_of(&address, 0, colon);
        assert(id@ == raw@.take(at as int));
        assert(host@ == address@.take(colon as int));
        Ok(Candidate { id, host, port })
    }
}

/// A candidate entry as it is written: `<id>@<host>:<port>`, the port in decimal.
pub open spec fn candidate_text(id: Seq<char>, host: Seq<char>, port: u16) -> Seq<char> {
    id + seq!['@'] + host + seq![':'] + decimal(port as nat)
}

/// Every `char` of a decimal rendering is a digit, there is at least one, and the digits are
/// worth the number they render.
pub proof fn lemma_decimal_reads_back(n: nat)
    ensures
        decimal(n).len() > 0,
        all_digits(decimal(n)),
        digits_value(decimal(n)) == n,
    decreases n,
{
    if n < 10 {
        let s = decimal(n);
        assert(s.drop_last() =~= Seq::<char>::empty());
        assert(digits_value(Seq::<char>::empty()) == 0);
        assert((digit(n) as u32) == ('0' as u32) + n);
        assert(s.last() == digit(n));
        assert(digits_value(s) == digits_value(s.drop_last()) * 10 + n);
    } else {
        lemma_decimal_reads_back(n / 10);
        let s = decimal(n);
        let d = (n % 10) as nat;
        assert(s.drop_last() =~= decimal(n / 10));
        assert((digit(d) as u32) == ('0' as u32) + d);
        assert forall|i: int| 0 <= i < s.len() implies is_digit(#[trigger] s[i]) by {
            if i < s.len() - 1 {
                assert(s[i] == decimal(n / 10)[i]);
            }
        }
        assert(s.last() == digit(d));
        assert(n == (n / 10) * 10 + d) by (nonlinear_arith)
            requires
                d == n % 10,
        ;
        assert(digits_value(s) == digits_value(decimal(n / 10)) * 10 + d);
    }
}

/// A candidate written from an id with no `@` in it, any host, and a port parses back to the
/// same three: what `parse` reads is what `<id>@<host>:<port>` wrote.
pub proof fn lemma_a_written_candidate_parses_back(id: Seq<char>, host: Seq<char>, port: u16)
    requires
        id.len() > 0,
        forall|i: int| 0 <= i < id.len() ==> id[i] != '@',
        host.len() > 0,
    ensures
        candidate_spec(candidate_text(id, host, port)) == Ok::<(Seq<char>, Seq<char>, u16), CandidateError>(
            (id, host, port),
        ),
{
    let digits = decimal(port as nat);
    lemma_decimal_reads_back(port as nat);
    let raw = candidate_text(id, host, port);
    let at = id.len() as int;
    assert(raw[at] == '@');
    assert forall|j: int| 0 <= j < at implies raw[j] != '@' by {
        assert(raw[j] == id[j]);
    }
    lemma_find_unique(raw, '@', at);
    assert(raw.take(at) =~= id);
    let address = raw.skip(at + 1);
    assert(address =~= host + seq![':'] + digits);
    let colon = host.len() as int;
    assert(address[colon] == ':');
    assert forall|j: int| colon < j < address.len() implies address[j] != ':' by {
        assert(address[j] == digits[j - colon - 1]);
        assert(is_digit(digits[j - colon - 1]));
    }
    lemma_rfind_unique(address, ':', colon);
    assert(address.take(colon) =~= host);
    assert(address.skip(colon + 1) =~= digits);
    assert(is_digit(digits[0]));
    assert(digits[0] != '+');
}

/// The candidates a walk may dial: all of them, or only those whose id is the pin.
pub open spec fn dialable_spec(candidates: Seq<Candidate>, pinned: Option<Seq<char>>) -> Seq<Candidate>
    decreases candidates.len(),
{
    if candidates.len() == 0 {
        Seq::empty()
    } else {
        let rest = dialable_spec(candidates.drop_last(), pinned);
        match pinned {
            Some(id) => if candidates.last().id@ == id {
                rest.push(candidates.last())
            } else {
                rest
            },
            None => rest.push(candidates.last()),
        }
    }
}

/// Whether a candidate carries the id `id`.
pub open spec fn carries_id(id: Seq<char>) -> spec_fn(Candidate) -> bool {
    |c: Candidate| c.id@ == id
}

/// With no pin, every candidate is dialable, in rank order, each once; with a pin, exactly
/// the candidates carrying the pinned id are, still in rank order.
pub proof fn lemma_the_walk_keeps_rank_order(candidates: Seq<Candidate>, pinned: Option<Seq<char>>)
    ensures
        pinned is None ==> dialable_spec(candidates, pinned) == candidates,
        pinned matches Some(id) ==> dialable_spec(candidates, pinned) == candidates.filter(carries_id(id)),
    decreases candidates.len(),
{
    reveal(Seq::filter);
    if candidates.len() > 0 {
        lemma_the_walk_keeps_rank_order(candidates.drop_last(), pinned);
        if pinned is None {
            assert(candidates.drop_last().push(candidates.last()) =~= candidates);
        }
    }
}

/// Applies a pin once, up front, as a filter over `candidates` in rank order: while a pin is
/// present, no other candidate is ever considered.
pub fn dialable(candidates: &Vec<Candidate>, pinned: Option<&str>) -> (walk: Vec<Candidate>)
    ensures
        walk@ == dialable_spec(candidates@, match pinned { Some(id) => Some(id@), None => None }),
        pinned is None ==> walk@ == candidates@,
        pinned matches Some(id) ==> walk@ == candidates@.filter(carries_id(id@)),
{
    let ghost pin = match pinned { Some(id) => Some(id@), None => None };
    let mut walk: Vec<Candidate> = Vec::new();
    let mut i: usize = 0;
    while i < candidates.len()
        invariant
            i <= candidates@.len(),
            pin == match pinned { Some(id) => Some(id@), None => None::<Seq<char>> },
            walk@ == dialable_spec(candidates@.take(i as int), pin),
        decreases candidates@.len() - i,
    {
        let candidate = &candidates[i];
        let keep = match pinned {
            Some(id) => str_eq(candidate.id.as_str(), id),
            None => true,
        };
        assert(candidates@.take(i + 1).drop_last() =~= candidates@.take(i as int));
        if keep {
            walk.push(copy_candidate(candidate));
        }
        i = i + 1;
    }
    assert(candidates@.take(candidates@.len() as int) =~= candidates@);
    proof {
        lemma_the_walk_keeps_rank_order(candidates@, pin);
    }
    walk
}

/// A copy of `candidate`, field for field.
fn copy_candidate(candidate: &Candidate) -> (copy: Candidate)
    ensures
        copy == *candidate,
{
    Candidate { id: candidate.id.clone(), host: candidate.host.clone(), port: candidate.port }
}

// ── the candidate walk ──────────────────────────────────────────────────────────────────────

/// What dialing one candidate came to.
#[derive(Debug, Clone, Copy, PartialEq, Eq)]
pub enum DialOutcome {
    /// It answered, and the connection is up.
    Answered,
    /// Nothing usable answered: refused, timed out, or never reached.
    Unreachable,
    /// A broker was there and ended the connection during the handshake — the shape a wrong
    /// or missing bus key takes. Counted apart from "nothing reachable".
    Rejected,
}

/// What the walk is waiting to hear about.
#[derive(Debug, Clone, Copy, PartialEq, Eq)]
pub enum WalkEvent {
    /// The dial the walk asked for came to this.
    Dialed(DialOutcome),
    /// The live connection ended.
    Ended,
    /// The retry interval has passed.
    Waited,
}

/// What the walk asks its driver to do next.
#[derive(Debug, Clone, Copy, PartialEq, Eq)]
pub enum WalkAction {
    /// Dial the candidate at this rank.
    Dial(usize),
    /// Reinstate every subscription on the fresh connection to the candidate at this rank,
    /// mark the bridge connected, and drive the connection until it ends.
    Drive(usize),
    /// Nothing in the walk answered: wait out the retry interval, dropping every publish.
    Sleep,
    /// There is nothing to dial at all — an empty list, or a pin naming none of them — so
    /// every publish drops until the configuration changes.
    Stop,
}

/// Where the walk is.
#[derive(Debug, Clone, Copy, PartialEq, Eq)]
pub enum WalkState {
    /// Dialing the candidate at this rank.
    Dialing(usize),
    /// Connected to the candidate at this rank.
    Connected(usize),
    /// Waiting out the retry interval after a pass where nothing answered.
    Waiting,
    /// Nothing to dial.
    Idle,
}

/// The ranked-candidate walk: dial in rank order and stay on the first that answers; when a
/// connection ends, restart from the top rather than falling through to the next, so a
/// higher-ranked candidate that comes back is preferred again at once.
#[derive(Debug, Clone, Copy, PartialEq, Eq)]
pub struct Walk {
    /// How many candidates the walk has, after any pin.
    pub count: usize,
    /// Where it is.
    pub state: WalkState,
    /// How many candidates have answered and then refused the handshake.
    pub rejected: u64,
}

/// The walk is somewhere it can be: every rank it names is one of its candidates, and it is
/// idle exactly when it has none.
pub open spec fn walk_wf(walk: Walk) -> bool {
    match walk.state {
        WalkState::Dialing(i) => i < walk.count,
        WalkState::Connected(i) => i < walk.count,
        WalkState::Waiting => walk.count > 0,
        WalkState::Idle => walk.count == 0,
    }
}

/// Whether the walk, where it is, is waiting for `event`: a dial's outcome while dialing, the
/// end of a connection while connected, the interval while waiting, and nothing while idle.
pub open spec fn expects(state: WalkState, event: WalkEvent) -> bool {
    match (state, event) {
        (WalkState::Dialing(_), WalkEvent::Dialed(_)) => true,
        (WalkState::Connected(_), WalkEvent::Ended) => true,
        (WalkState::Waiting, WalkEvent::Waited) => true,
        _ => false,
    }
}

/// Where the walk goes on `event`, and what it asks for.
pub open spec fn walk_step(walk: Walk, event: WalkEvent) -> (Walk, WalkAction) {
    match (walk.state, event) {
        (WalkState::Dialing(i), WalkEvent::Dialed(DialOutcome::Answered)) => (
            Walk { state: WalkState::Connected(i), ..walk },
            WalkAction::Drive(i),
        ),
        (WalkState::Dialing(i), WalkEvent::Dialed(outcome)) => {
            let rejected = if outcome == DialOutcome::Rejected {
                walk.rejected.wrapping_add(1)
            } else {
                walk.rejected
            };
            if i + 1 < walk.count {
                (Walk { state: WalkState::Dialing((i + 1) as usize), rejected, ..walk }, WalkAction::Dial((i + 1) as usize))
            } else {
                (Walk { state: WalkState::Waiting, rejected, ..walk }, WalkAction::Sleep)
            }
        },
        (WalkState::Connected(_), WalkEvent::Ended) => (Walk { state: WalkState::Dialing(0), ..walk }, WalkAction::Dial(0)),
        (WalkState::Waiting, WalkEvent::Waited) => (Walk { state: WalkState::Dialing(0), ..walk }, WalkAction::Dial(0)),
        _ => (walk, WalkAction::Stop),
    }
}

impl Walk {
    /// A walk over `count` candidates, and its first request: the top-ranked candidate, or
    /// stopping when there is none.
    pub fn start(count: usize) -> (started: (Walk, WalkAction))
        ensures
            walk_wf(started.0),
            started.0.count == count,
            started.0.rejected == 0,
            count == 0 ==> started.0.state == WalkState::Idle && started.1 == WalkAction::Stop,
            count > 0 ==> started.0.state == WalkState::Dialing(0) && started.1 == WalkAction::Dial(0),
            walk_asks_from_where_it_is(started.0, started.1),
    {
        if count == 0 {
            (Walk { count, state: WalkState::Idle, rejected: 0 }, WalkAction::Stop)
        } else {
            (Walk { count, state: WalkState::Dialing(0), rejected: 0 }, WalkAction::Dial(0))
        }
    }

    /// Takes `event` and says what to do next (see [`walk_step`]).
    pub fn step(&mut self, event: WalkEvent) -> (action: WalkAction)
        requires
            walk_wf(*old(self)),
            expects(old(self).state, event),
        ensures
            walk_wf(*final(self)),
            (*final(self), action) == walk_step(*old(self), event),
            walk_asks_from_where_it_is(*final(self), action),
            walk_answers(*old(self), event, *final(self), action),
    {
        match (self.state, event) {
            (WalkState::Dialing(i), WalkEvent::Dialed(DialOutcome::Answered)) => {
                self.state = WalkState::Connected(i);
                WalkAction::Drive(i)
            },
            (WalkState::Dialing(i), WalkEvent::Dialed(outcome)) => {
                if let DialOutcome::Rejected = outcome {
                    self.rejected = self.rejected.wrapping_add(1);
                }
                if i + 1 < self.count {
                    self.state = WalkState::Dialing(i + 1);
                    WalkAction::Dial(i + 1)
                } else {
                    self.state = WalkState::Waiting;
                    WalkAction::Sleep
                }
            },
            (WalkState::Connected(_), WalkEvent::Ended) => {
                self.state = WalkState::Dialing(0);
                WalkAction::Dial(0)
            },
            (_, _) => {
                self.state = WalkState::Dialing(0);
                WalkAction::Dial(0)
            },
        }
    }
}

/// The walk is at the rank it asks about: dialing the rank it asks to dial, connected to the
/// rank it asks to drive, waiting when it asks to sleep, and idle when it stops.
pub open spec fn walk_asks_from_where_it_is(walk: Walk, action: WalkAction) -> bool {
    match action {
        WalkAction::Dial(k) => walk.state == WalkState::Dialing(k),
        WalkAction::Drive(k) => walk.state == WalkState::Connected(k),
        WalkAction::Sleep => walk.state == WalkState::Waiting,
        WalkAction::Stop => walk.state == WalkState::Idle,
    }
}

/// What the walk does with `event`, from `before`, read off the ranks: an answer is driven at
/// the rank that was dialed; anything else moves to the next rank down, or to sleeping after
/// the last; a lost connection and a finished wait both go back to the top rank; a refusal
/// during the handshake is counted, and nothing else is; the number of candidates never
/// changes.
pub open spec fn walk_answers(before: Walk, event: WalkEvent, after: Walk, action: WalkAction) -> bool {
    &&& after.count == before.count
    &&& (before.state matches WalkState::Dialing(i) ==> match event {
        WalkEvent::Dialed(DialOutcome::Answered) => action == WalkAction::Drive(i),
        WalkEvent::Dialed(_) => if i + 1 < before.count {
            action == WalkAction::Dial((i + 1) as usize)
        } else {
            action == WalkAction::Sleep
        },
        _ => true,
    })
    &&& (before.state is Connected && event == WalkEvent::Ended ==> action == WalkAction::Dial(0))
    &&& (before.state is Waiting && event == WalkEvent::Waited ==> action == WalkAction::Dial(0))
    &&& (before.state is Dialing && event is Dialed ==> after.rejected == if event == WalkEvent::Dialed(
        DialOutcome::Rejected,
    ) {
        before.rejected.wrapping_add(1)
    } else {
        before.rejected
    })
    &&& (!(before.state is Dialing) ==> after.rejected == before.rejected)
}

/// Every step of the walk leaves it at the rank it asks about and answers its event as the
/// ranks say: in particular, once a connection is lost the walk is dialing the top rank
/// again, so an answer there is driven as the top rank and a miss there moves to the second.
pub proof fn lemma_the_walk_is_where_it_asks(walk: Walk, event: WalkEvent)
    requires
        walk_wf(walk),
        expects(walk.state, event),
    ensures
        walk_asks_from_where_it_is(walk_step(walk, event).0, walk_step(walk, event).1),
        walk_answers(walk, event, walk_step(walk, event).0, walk_step(walk, event).1),
        walk_wf(walk_step(walk, event).0),
{
}

/// After a lost connection, the next dial is the top rank's: an answer there is driven as the
/// top rank, and a miss moves to the second rank, or to sleeping when there is none.
pub proof fn lemma_after_a_loss_the_top_rank_is_dialed_next(walk: Walk, outcome: DialOutcome)
    requires
        walk_wf(walk),
        walk.state is Connected,
    ensures
        ({
            let redial = walk_step(walk, WalkEvent::Ended).0;
            let next = walk_step(redial, WalkEvent::Dialed(outcome)).1;
            next == match outcome {
                DialOutcome::Answered => WalkAction::Drive(0),
                _ => if walk.count > 1 {
                    WalkAction::Dial(1)
                } else {
                    WalkAction::Sleep
                },
            }
        }),
{
    lemma_the_walk_is_where_it_asks(walk, WalkEvent::Ended);
    let redial = walk_step(walk, WalkEvent::Ended).0;
    lemma_the_walk_is_where_it_asks(redial, WalkEvent::Dialed(outcome));
}

/// A lost connection restarts the walk from the top-ranked candidate, whichever one it was
/// on; a pass in which nothing answered waits, then restarts from the top too; and a refusal
/// during the handshake is counted, while a candidate that was simply not there is not.
pub proof fn lemma_a_lost_connection_restarts_the_walk_from_the_top(walk: Walk, outcome: DialOutcome)
    requires
        walk_wf(walk),
    ensures
        walk.state is Connected ==> walk_step(walk, WalkEvent::Ended).1 == WalkAction::Dial(0),
        walk.state is Waiting ==> walk_step(walk, WalkEvent::Waited).1 == WalkAction::Dial(0),
        walk.state matches WalkState::Dialing(i) ==> walk_step(walk, WalkEvent::Dialed(outcome)).1 == match outcome {
            DialOutcome::Answered => WalkAction::Drive(i),
            _ => if i + 1 < walk.count {
                WalkAction::Dial((i + 1) as usize)
            } else {
                WalkAction::Sleep
            },
        },
        walk.state is Dialing ==> walk_step(walk, WalkEvent::Dialed(outcome)).0.rejected == if outcome
            == DialOutcome::Rejected {
            walk.rejected.wrapping_add(1)
        } else {
            walk.rejected
        },
{
}

} // verus!
