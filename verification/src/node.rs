//! The node: what `node.toml` says, and the directory it says it about.
//!
//! A node's configuration is a file on the node. Every field is optional except the id, and
//! the defaults are real values rather than an absence: a node that stated nothing still runs
//! under budgets and limits. Reading the file, writing it once and provisioning the directory
//! tree are the edge around this module; what the file *means* — the defaults, the checks the
//! types could not make, the credentials and the signing policy it names — is here.
use vstd::prelude::*;
use crate::engine::{Budgets, ExprLimits};
use crate::paths::{join, path_join};
use crate::text::{hex, lemma_hex_shape, render_hex};
use p256::pkcs8::DecodePublicKey;

verus! {

/// The default management API address: loopback, and a port nothing else in the platform had
/// claimed.
pub const DEFAULT_LISTEN: &'static str = "127.0.0.1:7373";

/// The largest payload one instance may emit or be delivered, in bytes.
pub const DEFAULT_MAX_PAYLOAD: u32 = 65536;

/// The largest number of signals in one batch.
pub const DEFAULT_MAX_BATCH: u32 = 1024;

/// What this daemon bounds one callback's emissions at: nothing. `None` is the statement
/// rather than the absence of one.
pub const MAX_EMISSION_BYTES: Option<u32> = None;

/// How many work items one instance's mailbox holds.
pub const DEFAULT_MAILBOX: usize = 64;

/// How many random bytes a node id is minted from. Hex-encoded, so the id is twice this long.
pub const ID_BYTES: usize = 8;

/// How many random bytes the API token is minted from.
pub const TOKEN_BYTES: usize = 32;

/// Where a node looks for the key it verifies signatures with, relative to its data directory.
pub const DEFAULT_KEY: &'static str = "auth/cosign.pub";

/// The provisioned `node.toml`, up to the id.
pub const TEMPLATE_HEAD: &'static str = "\
# This node, as it describes itself.
#
# Written once, when the daemon found a data directory with no node.toml in it. It is
# yours from here: nothing rewrites or reformats this file.

# The node's identity. Opaque, and stable for the life of the node -- the Designer keys a
# node by this, so that renaming one or giving it a new address is not a migration.
id = \"";

/// The provisioned `node.toml`, after the id.
pub const TEMPLATE_TAIL: &'static str = "\"

# An optional label for people. Nothing resolves by it.
# name = \"kitchen-pi\"

[api]
# Where the management API listens.
#
# Loopback, because the API deploys arbitrary WASM to this node and transport security is
# still an open question. Set it to 0.0.0.0:7373 to let the Designer and
# other machines reach this node -- deliberately, on a network you trust.
listen = \"127.0.0.1:7373\"

[limits]
# The largest payload and batch any block instance may emit or be delivered.
# The ABI gives these no floor, so they are stated rather than assumed.
max_payload = 65536
max_batch = 1024

[budgets]
# What one guest callback may consume before it is killed.
#
# `fuel` is roughly one unit per WASM instruction. `deadline_ms` is the backstop for a
# callback that is blocked rather than busy, which fuel cannot see.
fuel = 100000000
deadline_ms = 1000

[budgets.expr]
# What one property expression may consume. Expressions are pure and
# terminating by construction; these bound how much work a terminating one may do.
max_fuel = 100000
max_depth = 128
max_range = 65536
max_value_bytes = 262144

[executor]
# How many work items one block instance's mailbox holds before its senders feel it.
# A depth of one is legal and means every sender waits for the previous item.
mailbox = 64

[blocks]
# Whether a block this node cannot verify a signature for may run. A
# present signature is checked either way -- this decides what is acceptable, not
# whether to look. Turning it on without a key at the path below refuses every pull.
require_signed = false
# The public key signatures are verified against: PEM, as `cosign public-key` writes
# it. Relative paths are resolved against this data directory.
key = \"auth/cosign.pub\"
";

/// The `node.toml` a fresh node is provisioned with: a commented document with the id as its
/// one substitution.
pub fn template(id: &str) -> (text: String)
    ensures
        text@ == TEMPLATE_HEAD@ + id@ + TEMPLATE_TAIL@,
{
    let mut text = String::from_str(TEMPLATE_HEAD);
    text.append(id);
    text.append(TEMPLATE_TAIL);
    text
}

// ── node.toml, as written ───────────────────────────────────────────────────────────────────

/// `[api]`.
#[derive(Debug, Clone, PartialEq, Eq)]
pub struct Api {
    /// Where the management API listens.
    pub listen: String,
}

impl Default for Api {
    fn default() -> (api: Api)
        ensures
            api.listen@ == DEFAULT_LISTEN@,
    {
        Api { listen: String::from_str(DEFAULT_LISTEN) }
    }
}

/// `[limits]`.
#[derive(Debug, Clone, Copy, PartialEq, Eq)]
pub struct LimitsSection {
    /// The largest payload, in bytes.
    pub max_payload: u32,
    /// The largest number of signals in one batch.
    pub max_batch: u32,
}

impl Default for LimitsSection {
    fn default() -> (section: LimitsSection)
        ensures
            section == (LimitsSection { max_payload: DEFAULT_MAX_PAYLOAD, max_batch: DEFAULT_MAX_BATCH }),
    {
        LimitsSection { max_payload: DEFAULT_MAX_PAYLOAD, max_batch: DEFAULT_MAX_BATCH }
    }
}

/// `[budgets.expr]`.
#[derive(Debug, Clone, Copy, PartialEq, Eq)]
pub struct ExprSection {
    /// Evaluation steps one expression may take.
    pub max_fuel: u32,
    /// How deeply one expression may nest.
    pub max_depth: u32,
    /// The longest range one expression may build.
    pub max_range: u32,
    /// The largest value, in bytes, one expression may build.
    pub max_value_bytes: u32,
}

impl Default for ExprSection {
    fn default() -> (section: ExprSection)
        ensures
            section == (ExprSection {
                max_fuel: ExprLimits::DEFAULT_MAX_FUEL,
                max_depth: ExprLimits::DEFAULT_MAX_DEPTH,
                max_range: ExprLimits::DEFAULT_MAX_RANGE,
                max_value_bytes: ExprLimits::DEFAULT_MAX_VALUE_BYTES,
            }),
    {
        ExprSection {
            max_fuel: ExprLimits::DEFAULT_MAX_FUEL,
            max_depth: ExprLimits::DEFAULT_MAX_DEPTH,
            max_range: ExprLimits::DEFAULT_MAX_RANGE,
            max_value_bytes: ExprLimits::DEFAULT_MAX_VALUE_BYTES,
        }
    }
}

/// `[budgets]`.
#[derive(Debug, Clone, Copy, PartialEq, Eq)]
pub struct BudgetsSection {
    /// Fuel per guest entry.
    pub fuel: u64,
    /// Wall-clock time per guest entry, in milliseconds.
    pub deadline_ms: u64,
    /// `[budgets.expr]`.
    pub expr: ExprSection,
}

impl Default for BudgetsSection {
    fn default() -> (section: BudgetsSection)
        ensures
            section.fuel == Budgets::DEFAULT_FUEL,
            section.deadline_ms == Budgets::DEFAULT_DEADLINE_MS,
            section.expr == (ExprSection {
                max_fuel: ExprLimits::DEFAULT_MAX_FUEL,
                max_depth: ExprLimits::DEFAULT_MAX_DEPTH,
                max_range: ExprLimits::DEFAULT_MAX_RANGE,
                max_value_bytes: ExprLimits::DEFAULT_MAX_VALUE_BYTES,
            }),
    {
        BudgetsSection {
            fuel: Budgets::DEFAULT_FUEL,
            deadline_ms: Budgets::DEFAULT_DEADLINE_MS,
            expr: ExprSection::default(),
        }
    }
}

/// `[executor]`.
#[derive(Debug, Clone, Copy, PartialEq, Eq)]
pub struct ExecutorSection {
    /// How many work items one instance's mailbox holds.
    pub mailbox: usize,
}

impl Default for ExecutorSection {
    fn default() -> (section: ExecutorSection)
        ensures
            section.mailbox == DEFAULT_MAILBOX,
    {
        ExecutorSection { mailbox: DEFAULT_MAILBOX }
    }
}

/// `[blocks]`.
#[derive(Debug, Clone, PartialEq, Eq)]
pub struct BlocksSection {
    /// Whether a block this node cannot verify a signature for is refused.
    pub require_signed: bool,
    /// Where the signature key is, relative to the data directory unless absolute.
    pub key: String,
}

impl Default for BlocksSection {
    fn default() -> (section: BlocksSection)
        ensures
            !section.require_signed,
            section.key@ == DEFAULT_KEY@,
    {
        // Not a recommendation: what a node that has never been given a key can do.
        BlocksSection { require_signed: false, key: String::from_str(DEFAULT_KEY) }
    }
}

/// `node.toml`, exactly as written: every section the file omits is that section's default.
#[derive(Debug, Clone, PartialEq, Eq)]
pub struct File {
    /// The node's identity.
    pub id: String,
    /// A label for people.
    pub name: Option<String>,
    /// `[api]`.
    pub api: Api,
    /// `[limits]`.
    pub limits: LimitsSection,
    /// `[budgets]`.
    pub budgets: BudgetsSection,
    /// `[executor]`.
    pub executor: ExecutorSection,
    /// `[blocks]`.
    pub blocks: BlocksSection,
}

// ── what the file means ─────────────────────────────────────────────────────────────────────

/// What every instance reports as its limits.
#[derive(Debug, Clone, Copy, PartialEq, Eq)]
pub struct Limits {
    /// The largest payload, in bytes.
    pub max_payload: u32,
    /// The largest number of signals in one batch.
    pub max_batch: u32,
    /// The bound on one callback's emissions, if this host states one.
    pub max_emission_bytes: Option<u32>,
}

/// A credential for one private OCI registry.
#[derive(Debug, Clone, PartialEq, Eq)]
pub enum Credential {
    /// A bearer token.
    Bearer(String),
    /// A username and password.
    Basic {
        /// The username.
        username: String,
        /// The password.
        password: String,
    },
}

/// One host's entry in `auth/registries.toml`.
#[derive(Debug, Clone, PartialEq, Eq)]
pub struct RegistryEntry {
    /// A bearer token, for a registry that takes one.
    pub token: Option<String>,
    /// A username, for a registry that takes a login.
    pub username: Option<String>,
    /// A password, for a registry that takes a login.
    pub password: Option<String>,
}

/// Which way a registry entry names no single credential.
#[derive(Debug, Clone, Copy, PartialEq, Eq)]
pub enum Ambiguity {
    /// A `username` and no `password`.
    NoPassword,
    /// A `password` and no `username`.
    NoUsername,
    /// Neither a `token` nor a `username` and `password`.
    Neither,
    /// Both a `token` and a `username`/`password`: a registry takes one or the other.
    Both,
}

/// A registry entry that names no single credential, and the host it is for.
#[derive(Debug, Clone, PartialEq, Eq)]
pub struct RegistryError {
    /// The host whose entry it is.
    pub host: String,
    /// Which way it is ambiguous.
    pub ambiguity: Ambiguity,
}

/// The credential an entry names, or which way it is ambiguous.
pub open spec fn credential_spec(entry: RegistryEntry) -> Result<Credential, Ambiguity> {
    match (entry.token, entry.username, entry.password) {
        (Some(token), None, None) => Ok(Credential::Bearer(token)),
        (None, Some(username), Some(password)) => Ok(Credential::Basic { username, password }),
        (None, Some(_), None) => Err(Ambiguity::NoPassword),
        (None, None, Some(_)) => Err(Ambiguity::NoUsername),
        (None, None, None) => Err(Ambiguity::Neither),
        (Some(_), _, _) => Err(Ambiguity::Both),
    }
}

impl RegistryEntry {
    /// Turns one entry into the credential it names, or says which way it is ambiguous.
    pub fn credential(self, host: &str) -> (credential: Result<Credential, RegistryError>)
        ensures
            match credential {
                Ok(c) => credential_spec(self) == Ok::<Credential, Ambiguity>(c),
                Err(e) => credential_spec(self) == Err::<Credential, Ambiguity>(e.ambiguity)
                    && e.host@ == host@,
            },
    {
        let fail = |ambiguity: Ambiguity| -> (e: RegistryError)
            ensures
                e.ambiguity == ambiguity,
                e.host@ == host@,
        { RegistryError { host: String::from_str(host), ambiguity } };
        match (self.token, self.username, self.password) {
            (Some(token), None, None) => Ok(Credential::Bearer(token)),
            (None, Some(username), Some(password)) => Ok(Credential::Basic { username, password }),
            (None, Some(_), None) => Err(fail(Ambiguity::NoPassword)),
            (None, None, Some(_)) => Err(fail(Ambiguity::NoUsername)),
            (None, None, None) => Err(fail(Ambiguity::Neither)),
            (Some(_), _, _) => Err(fail(Ambiguity::Both)),
        }
    }
}

/// Every host's credential, in the file's order, or the first entry that names none.
pub open spec fn credentials_spec(entries: Seq<(String, RegistryEntry)>) -> Result<Seq<(String, Credential)>, (Seq<char>, Ambiguity)>
    decreases entries.len(),
{
    if entries.len() == 0 {
        Ok(Seq::empty())
    } else {
        match credentials_spec(entries.drop_last()) {
            Err(e) => Err(e),
            Ok(done) => match credential_spec(entries.last().1) {
                Ok(c) => Ok(done.push((entries.last().0, c))),
                Err(a) => Err((entries.last().0@, a)),
            },
        }
    }
}

/// Turns `auth/registries.toml`'s entries, keyed by host, into credentials keyed the same
/// way — refusing the whole file at the first entry that names no single credential.
pub fn load_registries(entries: Vec<(String, RegistryEntry)>) -> (credentials: Result<Vec<(String, Credential)>, RegistryError>)
    ensures
        match credentials {
            Ok(c) => credentials_spec(entries@) == Ok::<Seq<(String, Credential)>, (Seq<char>, Ambiguity)>(c@),
            Err(e) => credentials_spec(entries@) == Err::<Seq<(String, Credential)>, (Seq<char>, Ambiguity)>((e.host@, e.ambiguity)),
        },
{
    let ghost all = entries@;
    let count = entries.len();
    assert(all.len() == count);
    let mut done: Vec<(String, Credential)> = Vec::new();
    let mut pending = entries;
    // Consumed front to back: `rest` holds what is still to be read, last entry first.
    let mut rest: Vec<(String, RegistryEntry)> = Vec::new();
    while pending.len() > 0
        invariant
            all.len() == count,
            pending@.len() + rest@.len() == all.len(),
            forall|j: int| 0 <= j < pending@.len() ==> pending@[j] == all[j],
            forall|j: int| 0 <= j < rest@.len() ==> rest@[j] == all[all.len() - 1 - j],
        decreases pending@.len(),
    {
        let last = pending.pop().unwrap();
        rest.push(last);
    }
    let mut i: usize = 0;
    while rest.len() > 0
        invariant
            all == entries@,
            all.len() == count,
            i + rest@.len() == all.len(),
            forall|j: int| 0 <= j < rest@.len() ==> rest@[j] == all[all.len() - 1 - j],
            credentials_spec(all.take(i as int)) == Ok::<Seq<(String, Credential)>, (Seq<char>, Ambiguity)>(done@),
        decreases rest@.len(),
    {
        let (host, entry) = rest.pop().unwrap();
        assert((host, entry) == all[i as int]);
        assert(all.take(i + 1).drop_last() =~= all.take(i as int));
        assert(all.take(i + 1).last() == all[i as int]);
        let ghost entry_copy = entry;
        match entry.credential(host.as_str()) {
            Ok(c) => {
                done.push((host, c));
            },
            Err(e) => {
                proof {
                    lemma_credentials_stop_at_the_first_error(all, i as int);
                }
                return Err(e);
            },
        }
        i = i + 1;
    }
    assert(all.take(i as int) =~= all);
    Ok(done)
}

/// Once one entry fails, every longer prefix fails with it.
proof fn lemma_credentials_stop_at_the_first_error(all: Seq<(String, RegistryEntry)>, i: int)
    requires
        0 <= i < all.len(),
        credentials_spec(all.take(i)) is Ok,
        credential_spec(all[i].1) is Err,
    ensures
        credentials_spec(all) == Err::<Seq<(String, Credential)>, (Seq<char>, Ambiguity)>(
            (all[i].0@, credential_spec(all[i].1)->Err_0),
        ),
    decreases all.len() - i,
{
    assert(all.take(i + 1).drop_last() =~= all.take(i));
    if i + 1 < all.len() {
        lemma_credentials_error_persists(all, i + 1);
    } else {
        assert(all.take(i + 1) =~= all);
    }
}

/// A prefix that fails stays failed, with the same error, however far it is extended.
proof fn lemma_credentials_error_persists(all: Seq<(String, RegistryEntry)>, k: int)
    requires
        0 <= k <= all.len(),
        credentials_spec(all.take(k)) is Err,
    ensures
        credentials_spec(all) == credentials_spec(all.take(k)),
    decreases all.len() - k,
{
    if k < all.len() {
        assert(all.take(k + 1).drop_last() =~= all.take(k));
        lemma_credentials_error_persists(all, k + 1);
    } else {
        assert(all.take(k) =~= all);
    }
}

/// What this node will accept a block on the strength of.
#[derive(Debug, Clone, PartialEq, Eq)]
pub struct Signing {
    /// Whether a block this node cannot verify a signature for is refused.
    pub require_signed: bool,
    /// The verifying key, as the PEM it was read from, when there is one at `key_path`.
    pub key: Option<String>,
    /// Where the key was looked for, so a refusal can name it.
    pub key_path: String,
}

/// What reading the signing key's file came to.
#[derive(Debug, Clone, PartialEq, Eq)]
pub enum KeyFile {
    /// Nothing is there.
    Absent,
    /// The file's text.
    Text(String),
    /// Something is there and could not be read; what the filesystem said.
    Unreadable(String),
}

/// Whether `pem` is a PEM-encoded public key on the curve signatures are made with.
pub uninterp spec fn is_public_key_pem(pem: Seq<char>) -> bool;

/// `p256::ecdsa::VerifyingKey::from_public_key_pem` (through `pkcs8`'s `DecodePublicKey`):
/// believed to accept exactly the texts [`is_public_key_pem`] names, a function of the text
/// alone.
#[verifier::external_body]
fn verifies_as_public_key(pem: &str) -> (key: bool)
    ensures
        key == is_public_key_pem(pem@),
{
    <p256::ecdsa::VerifyingKey as DecodePublicKey>::from_public_key_pem(pem).is_ok()
}

impl BlocksSection {
    /// Where the key this section names is, under `root`.
    pub fn key_path(&self, root: &str) -> (path: String)
        ensures
            path@ == join(root@, self.key@),
    {
        path_join(root, self.key.as_str())
    }
}

/// Why a `node.toml` does not describe a node that could run.
#[derive(Debug, Clone, PartialEq, Eq)]
pub enum NodeError {
    /// `id` is empty: an empty id identifies nothing.
    EmptyId,
    /// `[executor] mailbox` is zero: a mailbox with no room would refuse every delivery.
    NoMailbox,
    /// `[api] listen` is not an address.
    BadListen(String),
    /// `[blocks] key` points at a file that is not a PEM public key.
    NotAKey(String),
    /// `[blocks] key` points at a file that could not be read.
    UnreadableKey {
        /// Where.
        path: String,
        /// What the filesystem said.
        error: String,
    },
}

/// A node: its identity, its budgets, and where its files are.
#[derive(Debug, Clone, PartialEq, Eq)]
pub struct Node {
    /// The node's identity — opaque, stable, minted on first boot.
    pub id: String,
    /// A label for people. Nothing resolves by it.
    pub name: Option<String>,
    /// Where the management API listens.
    pub listen: String,
    /// What every instance on this node reports as its limits.
    pub limits: Limits,
    /// What one guest entry and one expression may consume.
    pub budgets: Budgets,
    /// The depth of every instance's mailbox.
    pub mailbox: usize,
    /// What this node will accept a block on the strength of.
    pub signing: Signing,
    /// Credentials for private OCI registries, keyed by host.
    pub credentials: Vec<(String, Credential)>,
    /// The management API's bearer token.
    pub token: String,
    /// The data directory this node was opened on.
    pub root: String,
}

impl File {
    /// Turns the file into the node it describes, checking what the types could not: an id
    /// that names something, a mailbox with room, an address that parses, and a key file that
    /// is a key if it is there at all.
    ///
    /// `listen_parses` is whether `[api] listen` parses as a socket address, and `key_file` is
    /// what reading `self.blocks.key_path(root)` came to — both read at the edge.
    pub fn into_node(
        self,
        root: String,
        token: String,
        credentials: Vec<(String, Credential)>,
        listen_parses: bool,
        key_file: KeyFile,
    ) -> (node: Result<Node, NodeError>)
        ensures
            match node {
                Ok(node) => {
                    &&& self.id@.len() > 0
                    &&& self.executor.mailbox > 0
                    &&& listen_parses
                    &&& node.id == self.id
                    &&& node.name == self.name
                    &&& node.listen == self.api.listen
                    &&& node.limits == (Limits {
                        max_payload: self.limits.max_payload,
                        max_batch: self.limits.max_batch,
                        max_emission_bytes: MAX_EMISSION_BYTES,
                    })
                    &&& node.budgets == (Budgets {
                        fuel: self.budgets.fuel,
                        deadline_ms: self.budgets.deadline_ms,
                        expr: ExprLimits {
                            max_fuel: self.budgets.expr.max_fuel,
                            max_depth: self.budgets.expr.max_depth,
                            max_range: self.budgets.expr.max_range,
                            max_value_bytes: self.budgets.expr.max_value_bytes,
                        },
                    })
                    &&& node.mailbox == self.executor.mailbox
                    &&& node.signing.require_signed == self.blocks.require_signed
                    &&& node.signing.key_path@ == join(root@, self.blocks.key@)
                    &&& match key_file {
                        KeyFile::Absent => node.signing.key is None,
                        KeyFile::Text(pem) => is_public_key_pem(pem@) && node.signing.key == Some(pem),
                        KeyFile::Unreadable(_) => false,
                    }
                    &&& node.credentials == credentials
                    &&& node.token == token
                    &&& node.root() == root@
                },
                Err(NodeError::EmptyId) => self.id@.len() == 0,
                Err(NodeError::NoMailbox) => self.id@.len() > 0 && self.executor.mailbox == 0,
                Err(NodeError::BadListen(listen)) => self.id@.len() > 0 && self.executor.mailbox > 0
                    && !listen_parses && listen == self.api.listen,
                Err(NodeError::NotAKey(path)) => self.id@.len() > 0 && self.executor.mailbox > 0
                    && listen_parses && path@ == join(root@, self.blocks.key@)
                    && (key_file matches KeyFile::Text(pem) && !is_public_key_pem(pem@)),
                Err(NodeError::UnreadableKey { path, error }) => self.id@.len() > 0
                    && self.executor.mailbox > 0 && listen_parses
                    && path@ == join(root@, self.blocks.key@)
                    && key_file == KeyFile::Unreadable(error),
            },
    {
        if self.id.as_str().is_empty() {
            return Err(NodeError::EmptyId);
        }
        if self.executor.mailbox == 0 {
            return Err(NodeError::NoMailbox);
        }
        if !listen_parses {
            return Err(NodeError::BadListen(self.api.listen));
        }
        let key_path = self.blocks.key_path(root.as_str());
        let key = match key_file {
            KeyFile::Absent => None,
            KeyFile::Text(pem) => {
                if !verifies_as_public_key(pem.as_str()) {
                    return Err(NodeError::NotAKey(key_path));
                }
                Some(pem)
            },
            KeyFile::Unreadable(error) => {
                return Err(NodeError::UnreadableKey { path: key_path, error });
            },
        };
        let expr = ExprLimits {
            max_fuel: self.budgets.expr.max_fuel,
            max_depth: self.budgets.expr.max_depth,
            max_range: self.budgets.expr.max_range,
            max_value_bytes: self.budgets.expr.max_value_bytes,
        };
        Ok(
            Node {
                id: self.id,
                name: self.name,
                listen: self.api.listen,
                limits: Limits {
                    max_payload: self.limits.max_payload,
                    max_batch: self.limits.max_batch,
                    max_emission_bytes: MAX_EMISSION_BYTES,
                },
                budgets: Budgets { fuel: self.budgets.fuel, deadline_ms: self.budgets.deadline_ms, expr },
                mailbox: self.executor.mailbox,
                signing: Signing { require_signed: self.blocks.require_signed, key, key_path },
                credentials,
                token,
                root,
            },
        )
    }
}

impl Node {
    /// The data directory this node was opened on.
    pub open spec fn root(&self) -> Seq<char> {
        self.root@
    }

    /// Where this node's files are.
    pub fn layout(&self) -> (layout: Layout<'_>)
        ensures
            layout.root@ == self.root(),
    {
        Layout { root: self.root.as_str() }
    }
}

// ── the directory tree ──────────────────────────────────────────────────────────────────────

/// The paths of a node's tree, named once so nothing spells one twice.
#[derive(Debug, Clone, Copy)]
pub struct Layout<'a> {
    /// The data directory.
    pub root: &'a str,
}

impl<'a> Layout<'a> {
    /// The tree under `root`.
    pub fn new(root: &'a str) -> (layout: Layout<'a>)
        ensures
            layout.root@ == root@,
    {
        Layout { root }
    }

    /// The data directory itself.
    pub fn root(&self) -> (root: &'a str)
        ensures
            root@ == self.root@,
    {
        self.root
    }

    /// `node.toml`.
    pub fn node_toml(&self) -> (path: String)
        ensures
            path@ == join(self.root@, "node.toml"@),
    {
        path_join(self.root, "node.toml")
    }

    /// `services/`: one service definition per file, named for the service.
    pub fn services(&self) -> (path: String)
        ensures
            path@ == join(self.root@, "services"@),
    {
        path_join(self.root, "services")
    }

    /// `pubsub.toml`: bus name, broker candidates, optional pin.
    pub fn pubsub(&self) -> (path: String)
        ensures
            path@ == join(self.root@, "pubsub.toml"@),
    {
        path_join(self.root, "pubsub.toml")
    }

    /// `blocks/`: the pull cache, `<name>/<version>/block.wasm`.
    pub fn blocks(&self) -> (path: String)
        ensures
            path@ == join(self.root@, "blocks"@),
    {
        path_join(self.root, "blocks")
    }

    /// `precompiled/`: compiled blocks, keyed by content and engine.
    pub fn precompiled(&self) -> (path: String)
        ensures
            path@ == join(self.root@, "precompiled"@),
    {
        path_join(self.root, "precompiled")
    }

    /// `state/`: what backs the state capability.
    pub fn state(&self) -> (path: String)
        ensures
            path@ == join(self.root@, "state"@),
    {
        path_join(self.root, "state")
    }

    /// `state/state.redb`: the store itself.
    pub fn state_store(&self) -> (path: String)
        ensures
            path@ == join(join(self.root@, "state"@), "state.redb"@),
    {
        let state = self.state();
        path_join(state.as_str(), "state.redb")
    }

    /// `auth/`: token material, created owner-only.
    pub fn auth(&self) -> (path: String)
        ensures
            path@ == join(self.root@, "auth"@),
    {
        path_join(self.root, "auth")
    }

    /// `auth/token`: the management API's bearer token.
    pub fn token(&self) -> (path: String)
        ensures
            path@ == join(join(self.root@, "auth"@), "token"@),
    {
        let auth = self.auth();
        path_join(auth.as_str(), "token")
    }

    /// `auth/registries.toml`: OCI registry credentials, keyed by host.
    pub fn registries(&self) -> (path: String)
        ensures
            path@ == join(join(self.root@, "auth"@), "registries.toml"@),
    {
        let auth = self.auth();
        path_join(auth.as_str(), "registries.toml")
    }
}

// ── minted identities ───────────────────────────────────────────────────────────────────────

/// The system had no randomness to mint from.
#[derive(Debug, Clone, Copy, PartialEq, Eq)]
pub struct EntropyError;

/// `getrandom::fill`: fills `bytes` from the operating system's entropy source, or fails.
/// What the bytes are is chance; that there are as many as there were is all this states.
#[verifier::external_body]
pub(crate) fn fill_random(bytes: &mut Vec<u8>) -> (filled: Result<(), EntropyError>)
    ensures
        final(bytes)@.len() == old(bytes)@.len(),
{
    getrandom::fill(bytes.as_mut_slice()).map_err(|_| EntropyError)
}

/// `count` random bytes as lowercase hex: twice as many digits, each `0-9` or `a-f`.
pub fn mint_hex(count: usize) -> (minted: Result<String, EntropyError>)
    ensures
        minted matches Ok(text) ==> exists|bytes: Seq<u8>| bytes.len() == count && text@ == hex(bytes),
{
    let mut bytes: Vec<u8> = Vec::new();
    let mut i: usize = 0;
    while i < count
        invariant
            i <= count,
            bytes@.len() == i,
        decreases count - i,
    {
        bytes.push(0);
        i = i + 1;
    }
    fill_random(&mut bytes)?;
    let text = render_hex(bytes.as_slice());
    Ok(text)
}

/// Mints a node id: hex over random bytes, opaque by construction and safe in a path and in a
/// URL.
pub fn mint_id() -> (id: Result<String, EntropyError>)
    ensures
        id matches Ok(id) ==> exists|bytes: Seq<u8>| bytes.len() == ID_BYTES && id@ == hex(bytes),
{
    mint_hex(ID_BYTES)
}

/// Mints the management API's token: four times the id's randomness.
pub fn mint_token() -> (token: Result<String, EntropyError>)
    ensures
        token matches Ok(token) ==> exists|bytes: Seq<u8>| bytes.len() == TOKEN_BYTES && token@ == hex(bytes),
{
    mint_hex(TOKEN_BYTES)
}

/// The API token `auth/token` holds: its text without surrounding white space, so a file an
/// editor saved with a trailing newline still holds the same token.
pub fn token_of(text: &str) -> (token: String)
    ensures
        token@ == crate::text::trim(text@),
{
    let chars = crate::text::chars_of(text);
    let trimmed = crate::text::trim_chars(&chars);
    assert(trimmed@.subrange(0, trimmed@.len() as int) =~= trimmed@);
    crate::text::string_of(&trimmed, 0, trimmed.len())
}

/// A minted id is opaque and stable in shape: twice as long as its randomness, and every
/// `char` a lowercase hex digit.
pub proof fn lemma_a_minted_id_is_lowercase_hex(bytes: Seq<u8>)
    ensures
        hex(bytes).len() == 2 * bytes.len(),
        forall|i: int| 0 <= i < hex(bytes).len() ==> crate::text::is_lower_hex_digit(#[trigger] hex(bytes)[i]),
{
    lemma_hex_shape(bytes);
}

} // verus!
