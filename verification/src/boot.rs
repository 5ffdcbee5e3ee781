//! The boot sequence's decisions: which files are services, where a service's file is, what
//! a service is after it is loaded, and the node's table of services.
//!
//! One service's failure is that service's: nothing here returns an error to a caller that
//! would stop a node — a failure is a [`State::Errored`] with a [`Failure`] saying why, and
//! the node comes up regardless.
use vstd::prelude::*;
use crate::blocks::{cache_path_spec, unresolvable_message, Cache, Unresolvable};
use crate::names::{map_of, sorted, NameMap};
use crate::paths::{join, path_join};
use crate::text::{chars_are, chars_of, lemma_rfind, rfind, rfind_char, string_of};

verus! {

// ── service names ───────────────────────────────────────────────────────────────────────────

/// Whether `c` may start a service id: a lowercase ASCII letter or a digit.
pub open spec fn is_id_start(c: char) -> bool {
    ('a' <= c && c <= 'z') || ('0' <= c && c <= '9')
}

/// Whether `c` may continue a service id: a start character, `_` or `-`.
pub open spec fn is_id_continue(c: char) -> bool {
    is_id_start(c) || c == '_' || c == '-'
}

/// The service id pattern, `[a-z0-9][a-z0-9_-]*`: what a service's name and a block instance's
/// id both follow. It admits no `/`, no `.` and no `:`.
pub open spec fn is_id_spec(text: Seq<char>) -> bool {
    &&& text.len() > 0
    &&& is_id_start(text[0])
    &&& forall|i: int| 1 <= i < text.len() ==> is_id_continue(#[trigger] text[i])
}

/// Whether `text` is a service id (see [`is_id_spec`]).
pub fn is_id(text: &str) -> (id: bool)
    ensures
        id == is_id_spec(text@),
{
    let chars = chars_of(text);
    if chars.len() == 0 {
        return false;
    }
    let first = chars[0];
    if !(('a' <= first && first <= 'z') || ('0' <= first && first <= '9')) {
        return false;
    }
    let mut i: usize = 1;
    while i < chars.len()
        invariant
            chars@ == text@,
            1 <= i <= chars@.len(),
            forall|j: int| 1 <= j < i ==> is_id_continue(#[trigger] chars@[j]),
        decreases chars@.len() - i,
    {
        let c = chars[i];
        if !(('a' <= c && c <= 'z') || ('0' <= c && c <= '9') || c == '_' || c == '-') {
            assert(!is_id_continue(chars@[i as int]));
            return false;
        }
        i = i + 1;
    }
    true
}

/// Where `name`'s definition lives under `services`, if `name` is one a service may have.
pub open spec fn service_path_spec(services: Seq<char>, name: Seq<char>) -> Option<Seq<char>> {
    if is_id_spec(name) {
        Some(join(services, name + ".toml"@))
    } else {
        None
    }
}

/// Where `name`'s definition lives, if `name` is one a service may have.
///
/// `None` for anything else, and that check is load-bearing: the name comes from a URL path
/// and is about to be joined onto a directory. An id admits no `/`, no `.` and no `..`, so a
/// name that passes cannot leave `services/`.
pub fn service_path(services: &str, name: &str) -> (path: Option<String>)
    ensures
        match path {
            Some(p) => service_path_spec(services@, name@) == Some(p@),
            None => service_path_spec(services@, name@) is None,
        },
{
    if !is_id(name) {
        return None;
    }
    let mut file = String::from_str(name);
    file.append(".toml");
    Some(path_join(services, file.as_str()))
}

/// A file name's stem and extension, as a Unix `Path` splits them: at the last `.`, unless
/// that `.` is the first character or the name is `..`.
pub open spec fn split_extension(name: Seq<char>) -> (Seq<char>, Option<Seq<char>>) {
    if name == seq!['.', '.'] {
        (name, None)
    } else {
        match rfind(name, '.') {
            None => (name, None),
            Some(dot) => if dot == 0 {
                (name, None)
            } else {
                (name.take(dot), Some(name.skip(dot + 1)))
            },
        }
    }
}

/// The service a file in `services/` is, if it is one: its stem, when its extension is
/// `toml`.
pub open spec fn toml_stem(name: Seq<char>) -> Option<Seq<char>> {
    match split_extension(name) {
        (stem, Some(extension)) => if extension == "toml"@ {
            Some(stem)
        } else {
            None
        },
        _ => None,
    }
}

/// The stem of `name` when it is a `<name>.toml`, and `None` for anything else — an editor's
/// swap file and a `kitchen.toml.bak` are not services.
pub fn service_stem(name: &str) -> (stem: Option<String>)
    ensures
        match stem {
            Some(s) => toml_stem(name@) == Some(s@),
            None => toml_stem(name@) is None,
        },
{
    let chars = chars_of(name);
    proof {
        reveal_strlit("..");
        assert("..".view() =~= seq!['.', '.']);
        lemma_rfind(chars@, '.');
    }
    if chars_are(&chars, "..") {
        return None;
    }
    let dot = match rfind_char(&chars, '.') {
        Some(dot) => dot,
        None => {
            return None;
        },
    };
    if dot == 0 {
        return None;
    }
    let extension = string_of(&chars, dot + 1, chars.len());
    assert(extension@ == name@.skip(dot + 1));
    if !crate::text::str_eq(extension.as_str(), "toml") {
        return None;
    }
    let stem = string_of(&chars, 0, dot);
    assert(stem@ == name@.take(dot as int));
    Some(stem)
}

/// The services a directory listing holds: every `<stem>.toml`, keyed by stem, with the path
/// it was found at.
pub open spec fn service_files_spec(directory: Seq<char>, names: Seq<String>) -> Map<Seq<char>, Seq<char>>
    decreases names.len(),
{
    if names.len() == 0 {
        Map::empty()
    } else {
        let rest = service_files_spec(directory, names.drop_last());
        match toml_stem(names.last()@) {
            Some(stem) => rest.insert(stem, join(directory, names.last()@)),
            None => rest,
        }
    }
}

/// Every `<name>.toml` in `names` (a directory's listing), as `(stem, path)`, in stem order.
///
/// Anything else is skipped rather than refused, and the order is the stems', so a node's
/// boot log reads the same twice.
pub fn service_files(directory: &str, names: &Vec<String>) -> (files: Vec<(String, String)>)
    ensures
        sorted(files@),
        map_of(files@).map_values(|path: String| path@) == service_files_spec(directory@, names@),
{
    let mut found: NameMap<String> = NameMap::new();
    let mut i: usize = 0;
    while i < names.len()
        invariant
            i <= names@.len(),
            found.view().map_values(|path: String| path@) == service_files_spec(directory@, names@.take(i as int)),
        decreases names@.len() - i,
    {
        let name = names[i].as_str();
        assert(names@.take(i + 1).drop_last() =~= names@.take(i as int));
        assert(names@.take(i + 1).last() == names@[i as int]);
        match service_stem(name) {
            Some(stem) => {
                let path = path_join(directory, name);
                let ghost before = found.view();
                let ghost (stem_view, path_view) = (stem@, path@);
                found.insert(stem, path);
                proof {
                    assert(found.view().map_values(|p: String| p@) =~= before.map_values(|p: String| p@).insert(
                        stem_view,
                        path_view,
                    ));
                }
            },
            None => {},
        }
        i = i + 1;
    }
    assert(names@.take(names@.len() as int) =~= names@);
    let listing = found.entries();
    let mut files: Vec<(String, String)> = Vec::new();
    let mut j: usize = 0;
    while j < listing.len()
        invariant
            j <= listing@.len(),
            files@.len() == j,
            forall|k: int| 0 <= k < j ==> #[trigger] files@[k].0@ == listing@[k].0@ && files@[k].1@ == listing@[k].1@,
        decreases listing@.len() - j,
    {
        files.push((listing[j].0.clone(), listing[j].1.clone()));
        j = j + 1;
    }
    proof {
        assert forall|a: int, b: int| 0 <= a < b < files@.len() implies crate::names::lex_lt(
            files@[a].0@,
            files@[b].0@,
        ) by {
            assert(files@[a].0@ == listing@[a].0@ && files@[b].0@ == listing@[b].0@);
        }
        lemma_same_keys_same_map(files@, listing@);
    }
    files
}

/// Two listings with the same keys and the same texts stand for the same map of texts.
proof fn lemma_same_keys_same_map(a: Seq<(String, String)>, b: Seq<(String, String)>)
    requires
        a.len() == b.len(),
        forall|k: int| 0 <= k < a.len() ==> #[trigger] a[k].0@ == b[k].0@ && a[k].1@ == b[k].1@,
    ensures
        map_of(a).map_values(|p: String| p@) == map_of(b).map_values(|p: String| p@),
    decreases a.len(),
{
    if a.len() > 0 {
        lemma_same_keys_same_map(a.drop_last(), b.drop_last());
        assert(a.last().0@ == b.last().0@ && a.last().1@ == b.last().1@);
        assert(map_of(a) == map_of(a.drop_last()).insert(a.last().0@, a.last().1));
        assert(map_of(b) == map_of(b.drop_last()).insert(b.last().0@, b.last().1));
        assert(map_of(a).map_values(|p: String| p@) =~= map_of(a.drop_last()).map_values(|p: String| p@).insert(
            a.last().0@,
            a.last().1@,
        ));
        assert(map_of(b).map_values(|p: String| p@) =~= map_of(b.drop_last()).map_values(|p: String| p@).insert(
            b.last().0@,
            b.last().1@,
        ));
    } else {
        assert(map_of(a).map_values(|p: String| p@) =~= map_of(b).map_values(|p: String| p@));
    }
}

// ── what a service is ───────────────────────────────────────────────────────────────────────

/// Why a service is not running.
///
/// One variant per thing an operator would do differently.
#[allow(inconsistent_fields)]
#[derive(Debug, Clone, PartialEq, Eq)]
pub enum Failure {
    /// The file could not be read.
    Unreadable(String),
    /// The file is wrong on its face: every such error it has, not the first.
    Invalid(Vec<String>),
    /// The file's stem and its `name` disagree.
    Misnamed {
        /// What the file is called.
        stem: String,
        /// What it says it is.
        name: String,
    },
    /// A block reference did not resolve against the cache.
    Unresolvable {
        /// The instance whose `block` it was.
        id: String,
        /// The reference, as the file wrote it.
        reference: String,
        /// Which way it failed.
        reason: Unresolvable,
    },
    /// A block was not cached, and pulling it did not work either.
    Unpullable {
        /// The instance whose `block` it was.
        id: String,
        /// The reference, as the file wrote it.
        reference: String,
        /// Which way the pull failed.
        reason: String,
    },
    /// A cached block is not loadable.
    Unloadable {
        /// The instance whose `block` it was.
        id: String,
        /// The reference, as the file wrote it.
        reference: String,
        /// What validation said.
        error: String,
    },
    /// A block needs a capability this node does not implement.
    Uncapable {
        /// The instance whose block asked.
        id: String,
        /// What validation said, which names the capabilities.
        error: String,
    },
    /// The file disagrees with the manifests it resolved to.
    Unwireable(Vec<String>),
    /// The graph would not come up.
    Unstartable(String),
}

/// Every error on one line, `; ` between them.
pub open spec fn joined_spec(errors: Seq<String>) -> Seq<char>
    decreases errors.len(),
{
    if errors.len() == 0 {
        Seq::empty()
    } else if errors.len() == 1 {
        errors[0]@
    } else {
        joined_spec(errors.drop_last()) + seq![';', ' '] + errors.last()@
    }
}

/// Every error on one line, for the log. The API renders them separately.
pub fn joined(errors: &Vec<String>) -> (line: String)
    ensures
        line@ == joined_spec(errors@),
{
    let mut line = String::new();
    let mut i: usize = 0;
    while i < errors.len()
        invariant
            i <= errors@.len(),
            line@ == joined_spec(errors@.subrange(0, i as int)),
        decreases errors@.len() - i,
    {
        if i > 0 {
            line.push(';');
            line.push(' ');
        }
        line.append(errors[i].as_str());
        proof {
            let next = errors@.subrange(0, i + 1);
            assert(next.drop_last() =~= errors@.subrange(0, i as int));
            if i == 0 {
                assert(line@ =~= joined_spec(next));
            } else {
                assert(line@ =~= joined_spec(next));
            }
        }
        i = i + 1;
    }
    assert(errors@.subrange(0, errors@.len() as int) =~= errors@);
    line
}

/// What an operator is told of a failure, on one line.
pub open spec fn failure_message(failure: Failure) -> Seq<char> {
    match failure {
        Failure::Unreadable(error) => error@,
        Failure::Invalid(errors) => joined_spec(errors@),
        Failure::Misnamed { stem, name } => "this file is "@ + stem@ + ".toml but declares name = \""@ + name@
            + "\"; a service file's stem must equal its name"@,
        Failure::Unresolvable { id, reference, reason } => "block `"@ + reference@ + "` of instance "@ + id@ + ": "@
            + unresolvable_message(reason),
        Failure::Unpullable { id, reference, reason } => "block `"@ + reference@ + "` of instance "@ + id@ + ": "@
            + reason@,
        Failure::Unloadable { id, reference, error } => "block `"@ + reference@ + "` of instance "@ + id@ + ": "@
            + error@,
        Failure::Uncapable { id, error } => "instance "@ + id@ + ": "@ + error@,
        Failure::Unwireable(errors) => joined_spec(errors@),
        Failure::Unstartable(error) => error@,
    }
}

/// `block `<reference>` of instance <id>: `, the head every per-block failure shares.
fn block_head(reference: &String, id: &String) -> (head: String)
    ensures
        head@ == "block `"@ + reference@ + "` of instance "@ + id@ + ": "@,
{
    let mut head = String::from_str("block `");
    head.append(reference.as_str());
    head.append("` of instance ");
    head.append(id.as_str());
    head.append(": ");
    head
}

impl Failure {
    /// What an operator is told: the whole failure on one line.
    pub fn message(&self) -> (message: String)
        ensures
            message@ == failure_message(*self),
    {
        match self {
            Failure::Unreadable(error) => error.clone(),
            Failure::Invalid(errors) => joined(errors),
            Failure::Misnamed { stem, name } => {
                let mut message = String::from_str("this file is ");
                message.append(stem.as_str());
                message.append(".toml but declares name = \"");
                message.append(name.as_str());
                message.append("\"; a service file's stem must equal its name");
                message
            },
            Failure::Unresolvable { id, reference, reason } => {
                let mut message = block_head(reference, id);
                let why = reason.message();
                message.append(why.as_str());
                message
            },
            Failure::Unpullable { id, reference, reason } => {
                let mut message = block_head(reference, id);
                message.append(reason.as_str());
                message
            },
            Failure::Unloadable { id, reference, error } => {
                let mut message = block_head(reference, id);
                message.append(error.as_str());
                message
            },
            Failure::Uncapable { id, error } => {
                let mut message = String::from_str("instance ");
                message.append(id.as_str());
                message.append(": ");
                message.append(error.as_str());
                message
            },
            Failure::Unwireable(errors) => joined(errors),
            Failure::Unstartable(error) => error.clone(),
        }
    }
}

/// What a service is after boot. `S` is what a running service is held as.
#[derive(Debug)]
pub enum State<S> {
    /// Started, and running.
    Running(S),
    /// Valid, and not marked `autostart`.
    Stopped,
    /// Not running, and why.
    Errored(Failure),
}

/// The one-word status an operator and the API see for a state.
pub open spec fn label_spec<S>(state: State<S>) -> Seq<char> {
    match state {
        State::Running(_) => "running"@,
        State::Stopped => "stopped"@,
        State::Errored(_) => "errored"@,
    }
}

impl<S> State<S> {
    /// The one-word status an operator and the API see.
    pub fn label(&self) -> (label: &'static str)
        ensures
            label@ == label_spec(*self),
    {
        match self {
            State::Running(_) => "running",
            State::Stopped => "stopped",
            State::Errored(_) => "errored",
        }
    }
}

/// Whether a validated service is started, or asked to say what the file wants.
#[derive(Debug, Clone, Copy, PartialEq, Eq)]
pub enum Start {
    /// Start it if the file says `autostart`, and otherwise leave it stopped.
    AsTheFileSays,
    /// Start it whatever the file says.
    Always,
}

/// Whether a validated service is started: always when asked to be, and otherwise when its
/// file says `autostart`.
pub fn starts(start: Start, autostart: bool) -> (started: bool)
    ensures
        started == (start == Start::Always || autostart),
{
    match start {
        Start::Always => true,
        Start::AsTheFileSays => autostart,
    }
}

/// How a node's services came up.
#[derive(Debug, Default, Clone, Copy, PartialEq, Eq)]
pub struct Counts {
    /// Started at boot.
    pub running: usize,
    /// Valid, awaiting a start.
    pub stopped: usize,
    /// Not running, with a [`Failure`] to say why.
    pub errored: usize,
}

/// How many of `states` have the label `label`.
pub open spec fn count_labelled<S>(states: Seq<(String, State<S>)>, label: Seq<char>) -> nat
    decreases states.len(),
{
    if states.len() == 0 {
        0
    } else {
        count_labelled(states.drop_last(), label) + if label_spec(states.last().1) == label { 1nat } else { 0nat }
    }
}

/// Every service this node has, by name.
///
/// Keyed by the file's stem, which is the service's `name` — so a service that failed before
/// its name could be read is still keyed by the name it will have once it is fixed.
#[derive(Debug)]
pub struct Services<S> {
    services: NameMap<State<S>>,
}

impl<S> Services<S> {
    /// What each name is.
    pub closed spec fn view(&self) -> Map<Seq<char>, State<S>> {
        self.services.view()
    }

    /// The services in name order.
    pub closed spec fn listing(&self) -> Seq<(String, State<S>)> {
        self.services.listing()
    }

    /// A node with no services.
    pub fn new() -> (services: Services<S>)
        ensures
            services.view() == Map::<Seq<char>, State<S>>::empty(),
    {
        Services { services: NameMap::new() }
    }

    /// How many services are running, stopped and errored. Every service is exactly one.
    pub fn counts(&self) -> (counts: Counts)
        ensures
            counts.running == count_labelled(self.listing(), "running"@),
            counts.stopped == count_labelled(self.listing(), "stopped"@),
            counts.errored == count_labelled(self.listing(), "errored"@),
            counts.running + counts.stopped + counts.errored == self.view().dom().len(),
    {
        let listing = self.services.entries();
        let mut counts = Counts { running: 0, stopped: 0, errored: 0 };
        let mut i: usize = 0;
        proof {
            reveal_strlit("running");
            reveal_strlit("stopped");
            reveal_strlit("errored");
        }
        while i < listing.len()
            invariant
                i <= listing@.len(),
                counts.running == count_labelled(listing@.take(i as int), "running"@),
                counts.stopped == count_labelled(listing@.take(i as int), "stopped"@),
                counts.errored == count_labelled(listing@.take(i as int), "errored"@),
                counts.running + counts.stopped + counts.errored == i,
                "running"@.len() == 7 && "stopped"@.len() == 7 && "errored"@.len() == 7,
                "running"@[0] == 'r' && "stopped"@[0] == 's' && "errored"@[0] == 'e',
            decreases listing@.len() - i,
        {
            assert(listing@.take(i + 1).drop_last() =~= listing@.take(i as int));
            match &listing[i].1 {
                State::Running(_) => counts.running = counts.running + 1,
                State::Stopped => counts.stopped = counts.stopped + 1,
                State::Errored(_) => counts.errored = counts.errored + 1,
            }
            i = i + 1;
        }
        assert(listing@.take(listing@.len() as int) =~= listing@);
        counts
    }

    /// The state of one service, by name.
    pub fn get(&self, name: &str) -> (state: Option<&State<S>>)
        ensures
            match state {
                Some(s) => self.view().contains_key(name@) && self.view()[name@] == *s,
                None => !self.view().contains_key(name@),
            },
    {
        self.services.get(name)
    }

    /// Every service and its state, in name order.
    pub fn iter(&self) -> (entries: &Vec<(String, State<S>)>)
        ensures
            entries@ == self.listing(),
            sorted(entries@),
            map_of(entries@) == self.view(),
    {
        self.services.entries()
    }

    /// Puts `state` in `name`'s place, and hands back whatever was there for the caller to
    /// retire: a service is replaced, never doubled.
    pub fn set(&mut self, name: &str, state: State<S>) -> (previous: Option<State<S>>)
        ensures
            final(self).view() == old(self).view().insert(name@, state),
            match previous {
                Some(p) => old(self).view().contains_key(name@) && old(self).view()[name@] == p,
                None => !old(self).view().contains_key(name@),
            },
    {
        self.services.insert(String::from_str(name), state)
    }

    /// Forgets `name`, and hands back what it was.
    pub fn remove(&mut self, name: &str) -> (removed: Option<State<S>>)
        ensures
            final(self).view() == old(self).view().remove(name@),
            match removed {
                Some(p) => old(self).view().contains_key(name@) && old(self).view()[name@] == p,
                None => !old(self).view().contains_key(name@),
            },
    {
        self.services.remove(name)
    }
}

/// A service that is set is found again with the state it was given, every other service is
/// untouched, and there is still one state per name.
pub proof fn lemma_set_then_get<S>(before: Map<Seq<char>, State<S>>, name: Seq<char>, state: State<S>, other: Seq<char>)
    requires
        before.dom().finite(),
    ensures
        before.insert(name, state)[name] == state,
        other != name ==> before.insert(name, state).contains_key(other) == before.contains_key(other),
        other != name && before.contains_key(other) ==> before.insert(name, state)[other] == before[other],
        before.insert(name, state).dom().len() == if before.contains_key(name) {
            before.dom().len()
        } else {
            before.dom().len() + 1
        },
{
    if !before.contains_key(name) {
        assert(before.insert(name, state).dom() =~= before.dom().insert(name));
    } else {
        assert(before.insert(name, state).dom() =~= before.dom());
    }
}

// ── resolving a service's blocks ────────────────────────────────────────────────────────────

/// What asking the registry for a missing block came to.
#[derive(Debug, Clone, PartialEq, Eq)]
pub enum Pulled {
    /// The block's bytes, digest-verified and signature-checked.
    Fetched(Vec<u8>),
    /// The reference names no registry to pull from.
    Unregistered,
    /// The pull failed: a network, a policy, or a digest that did not match.
    Failed(String),
}

/// Where fetching a block stands once the cache has been read.
#[derive(Debug, Clone, PartialEq, Eq)]
pub enum FetchStep {
    /// The cache had it: these are the bytes, and no request is made.
    Cached(Vec<u8>),
    /// The cache has no such entry: ask the registry, and keep this miss to report if the
    /// reference names none.
    Pull(Unresolvable),
    /// The cache could not answer, and nothing else will.
    Refused(Failure),
}

/// The cache is consulted first, always: a node whose blocks are cached issues no request and
/// cannot be delayed or refused by a registry that is not there. Only a miss reaches the
/// network.
pub fn fetch(id: &str, reference: &str, read: Result<Vec<u8>, Unresolvable>) -> (step: FetchStep)
    ensures
        match read {
            Ok(wasm) => step == FetchStep::Cached(wasm),
            Err(Unresolvable::Missing { path }) => step == FetchStep::Pull(Unresolvable::Missing { path }),
            Err(reason) => match step {
                FetchStep::Refused(Failure::Unresolvable { id: i, reference: r, reason: why }) => i@ == id@
                    && r@ == reference@ && why == reason,
                _ => false,
            },
        },
{
    match read {
        Ok(wasm) => FetchStep::Cached(wasm),
        Err(Unresolvable::Missing { path }) => FetchStep::Pull(Unresolvable::Missing { path }),
        Err(reason) => FetchStep::Refused(
            Failure::Unresolvable { id: String::from_str(id), reference: String::from_str(reference), reason },
        ),
    }
}

/// What a pull after a miss comes to: bytes to store in the cache, the miss itself for a
/// reference that names no registry — which tells the operator where to put a block rather than
/// which host was not consulted — or the pull's own failure.
pub fn pulled(id: &str, reference: &str, missing: Unresolvable, pull: Pulled) -> (fetched: Result<Vec<u8>, Failure>)
    ensures
        match pull {
            Pulled::Fetched(wasm) => fetched == Ok::<Vec<u8>, Failure>(wasm),
            Pulled::Unregistered => match fetched {
                Err(Failure::Unresolvable { id: i, reference: r, reason }) => i@ == id@ && r@ == reference@
                    && reason == missing,
                _ => false,
            },
            Pulled::Failed(why) => match fetched {
                Err(Failure::Unpullable { id: i, reference: r, reason }) => i@ == id@ && r@ == reference@
                    && reason == why,
                _ => false,
            },
        },
{
    match pull {
        Pulled::Fetched(wasm) => Ok(wasm),
        Pulled::Unregistered => Err(
            Failure::Unresolvable { id: String::from_str(id), reference: String::from_str(reference), reason: missing },
        ),
        Pulled::Failed(reason) => Err(
            Failure::Unpullable { id: String::from_str(id), reference: String::from_str(reference), reason },
        ),
    }
}

/// A pulled block that the cache would not keep is unresolvable, for the reason the cache gave.
pub fn stored(id: &str, reference: &str, store: Result<Vec<u8>, Unresolvable>) -> (fetched: Result<Vec<u8>, Failure>)
    ensures
        match store {
            Ok(wasm) => fetched == Ok::<Vec<u8>, Failure>(wasm),
            Err(reason) => match fetched {
                Err(Failure::Unresolvable { id: i, reference: r, reason: why }) => i@ == id@ && r@ == reference@
                    && why == reason,
                _ => false,
            },
        },
{
    match store {
        Ok(wasm) => Ok(wasm),
        Err(reason) => Err(
            Failure::Unresolvable { id: String::from_str(id), reference: String::from_str(reference), reason },
        ),
    }
}

/// What resolving one instance's block asks for next.
#[derive(Debug, Clone, PartialEq, Eq)]
pub enum ResolveStep {
    /// The service already has this cache entry, at this index: the instance shares it.
    Share(usize),
    /// A cache entry the service does not have yet: fetch and validate the block at this
    /// path, then record it.
    Fetch(String),
    /// The reference names no cache entry.
    Refuse(Failure),
}

/// Every block a service names, resolved so far: one entry per distinct cache path, in the
/// order they were first named, and which entry each instance uses. Two instances naming one
/// block — however they spell its registry — share one entry, read and validated once.
#[derive(Debug, Clone, PartialEq, Eq)]
pub struct Resolution {
    paths: Vec<String>,
    by_id: Vec<(String, usize)>,
}

impl Resolution {
    /// The distinct cache paths, in the order they were first named.
    pub closed spec fn paths(&self) -> Seq<Seq<char>> {
        self.paths@.map_values(|p: String| p@)
    }

    /// Which entry each instance resolved to, in the order they were resolved.
    pub closed spec fn uses(&self) -> Seq<(Seq<char>, nat)> {
        self.by_id@.map_values(|u: (String, usize)| (u.0@, u.1 as nat))
    }

    /// Every entry an instance uses is one there is, and no path is held twice.
    pub closed spec fn wf(&self) -> bool {
        &&& forall|k: int| 0 <= k < self.by_id@.len() ==> (#[trigger] self.by_id@[k]).1 < self.paths@.len()
        &&& forall|a: int, b: int| 0 <= a < b < self.paths@.len() ==> (#[trigger] self.paths@[a])@ != (
            #[trigger] self.paths@[b])@
    }

    /// Nothing resolved yet.
    pub fn new() -> (resolution: Resolution)
        ensures
            resolution.wf(),
            resolution.paths() == Seq::<Seq<char>>::empty(),
            resolution.uses() == Seq::<(Seq<char>, nat)>::empty(),
    {
        let resolution = Resolution { paths: Vec::new(), by_id: Vec::new() };
        assert(resolution.paths() =~= Seq::<Seq<char>>::empty());
        assert(resolution.uses() =~= Seq::<(Seq<char>, nat)>::empty());
        resolution
    }

    /// The next instance, `id`, naming `reference`: where its block is in `cache`, and whether
    /// the service already has that entry — in which case the instance is recorded as sharing
    /// it.
    pub fn next(&mut self, cache: &Cache, id: &str, reference: &str) -> (step: ResolveStep)
        requires
            old(self).wf(),
        ensures
            final(self).wf(),
            final(self).paths() == old(self).paths(),
            match cache_path_spec(cache.root(), reference@) {
                Err(reason) => final(self).uses() == old(self).uses() && match step {
                    ResolveStep::Refuse(Failure::Unresolvable { id: i, reference: r, reason: why }) => i@ == id@
                        && r@ == reference@ && why == reason,
                    _ => false,
                },
                Ok(path) => if old(self).paths().contains(path) {
                    exists|k: int| 0 <= k < old(self).paths().len() && old(self).paths()[k] == path && step
                        == ResolveStep::Share(k as usize) && final(self).uses() == old(self).uses().push((id@, k as nat))
                } else {
                    final(self).uses() == old(self).uses() && (step matches ResolveStep::Fetch(p) && p@ == path)
                },
            },
    {
        let path = match cache.path(reference) {
            Ok(path) => path,
            Err(reason) => {
                return ResolveStep::Refuse(
                    Failure::Unresolvable { id: String::from_str(id), reference: String::from_str(reference), reason },
                );
            },
        };
        let mut k: usize = 0;
        while k < self.paths.len()
            invariant
                *self == *old(self),
                old(self).wf(),
                cache_path_spec(cache.root(), reference@) == Ok::<Seq<char>, Unresolvable>(path@),
                k <= self.paths@.len(),
                forall|j: int| 0 <= j < k ==> (#[trigger] self.paths@[j])@ != path@,
            decreases self.paths@.len() - k,
        {
            if crate::text::str_eq(self.paths[k].as_str(), path.as_str()) {
                let ghost before = self.uses();
                self.by_id.push((String::from_str(id), k));
                proof {
                    assert(self.paths()[k as int] == path@);
                    assert(self.uses() =~= before.push((id@, k as nat)));
                    assert(old(self).paths()[k as int] == path@);
                    assert(old(self).paths().contains(path@));
                    assert(cache_path_spec(cache.root(), reference@) == Ok::<Seq<char>, Unresolvable>(path@));
                }
                return ResolveStep::Share(k);
            }
            k = k + 1;
        }
        proof {
            if self.paths().contains(path@) {
                let j = choose|j: int| 0 <= j < self.paths().len() && self.paths()[j] == path@;
                assert(self.paths@[j]@ == path@);
            }
        }
        ResolveStep::Fetch(path)
    }

    /// Records that `id`'s block, at `path` — a path [`Resolution::next`] asked to fetch —
    /// was fetched and validated, as a new entry; answers its index.
    pub fn fetched(&mut self, id: &str, path: String) -> (index: usize)
        requires
            old(self).wf(),
            !old(self).paths().contains(path@),
        ensures
            final(self).wf(),
            index == old(self).paths().len(),
            final(self).paths() == old(self).paths().push(path@),
            final(self).uses() == old(self).uses().push((id@, index as nat)),
    {
        let ghost paths_before = self.paths();
        let ghost uses_before = self.uses();
        let index = self.paths.len();
        proof {
            assert forall|a: int| 0 <= a < self.paths@.len() implies self.paths@[a]@ != path@ by {
                assert(self.paths()[a] == self.paths@[a]@);
            }
        }
        self.paths.push(path);
        self.by_id.push((String::from_str(id), index));
        assert(self.paths() =~= paths_before.push(self.paths@[index as int]@));
        assert(self.uses() =~= uses_before.push((id@, index as nat)));
        index
    }

    /// Which entry instance `id` uses, if it has been resolved.
    pub fn of(&self, id: &str) -> (index: Option<usize>)
        ensures
            match index {
                Some(k) => exists|j: int| 0 <= j < self.uses().len() && #[trigger] self.uses()[j] == (id@, k as nat),
                None => forall|j: int| 0 <= j < self.uses().len() ==> (#[trigger] self.uses()[j]).0 != id@,
            },
    {
        let mut j: usize = 0;
        while j < self.by_id.len()
            invariant
                j <= self.by_id@.len(),
                forall|m: int| 0 <= m < j ==> (#[trigger] self.uses()[m]).0 != id@,
            decreases self.by_id@.len() - j,
        {
            if crate::text::str_eq(self.by_id[j].0.as_str(), id) {
                assert(self.uses()[j as int] == (id@, self.by_id@[j as int].1 as nat));
                return Some(self.by_id[j].1);
            }
            j = j + 1;
        }
        None
    }
}

/// Two instances whose references name one cache path share one entry: once the first one's
/// fetch is recorded by [`Resolution::fetched`], the paths hold it at the index it was given,
/// so [`Resolution::next`] answers the second with [`ResolveStep::Share`] of that index rather
/// than a second fetch.
pub proof fn lemma_instances_naming_one_block_share_its_entry(
    root: Seq<char>,
    first: Seq<char>,
    second: Seq<char>,
    paths: Seq<Seq<char>>,
)
    requires
        cache_path_spec(root, first) is Ok,
        cache_path_spec(root, second) == cache_path_spec(root, first),
        !paths.contains(cache_path_spec(root, first)->Ok_0),
    ensures
        paths.push(cache_path_spec(root, first)->Ok_0).contains(cache_path_spec(root, second)->Ok_0),
        paths.push(cache_path_spec(root, first)->Ok_0)[paths.len() as int] == cache_path_spec(root, second)->Ok_0,
{
    let p = cache_path_spec(root, first)->Ok_0;
    assert(paths.push(p)[paths.len() as int] == p);
}

} // verus!
