//! The block cache, read side: how a block reference names a cache entry.
//!
//! A service file names a block by a registry reference, and the cache is laid out as
//! `blocks/<name>/<version>/block.wasm`. This module is the mapping between the two.
//!
//! A reference is untrusted text, and it is turned into a path. So `name` and `version` are
//! checked to be single, ordinary path components before either is joined onto anything:
//! `block = "../../etc/shadow:1"` resolves to a refusal or to a path inside the cache, and
//! never to a read outside it (see [`lemma_a_reference_stays_in_the_cache`]).
use vstd::prelude::*;
use sha2::Digest;
use crate::paths::{join, lemma_join_keeps_base, path_join, SEPARATOR};
use crate::text::{hex, render_hex, chars_are, chars_of, contains_char, holds_char, lemma_rfind, lemma_rfind_unique, rfind, rfind_char, slice_of, string_of};

verus! {

/// The file a cache entry's module lives in.
pub const MODULE: &'static str = "block.wasm";

/// Why a block reference did not become bytes.
///
/// Distinct variants rather than one message: "cached under another version" and "this is not
/// a reference at all" are different things for a person to do next.
#[derive(Debug, Clone, PartialEq, Eq)]
pub enum Unresolvable {
    /// The reference carries no tag, so it names no cache entry.
    Untagged,
    /// The reference is digest-pinned. Resolving one is the pull half's.
    Digest,
    /// The reference is empty, or its name or version is not a single path component.
    Malformed,
    /// Nothing is cached under that name and version.
    Missing {
        /// Where the cache was looked at, for an operator who wants to put a block there.
        path: String,
    },
    /// Something is cached there and could not be read.
    Unreadable {
        /// Where it is.
        path: String,
        /// What the filesystem said.
        error: String,
    },
}

/// The SHA-256 digest of `bytes`, as FIPS 180-4 defines it.
pub uninterp spec fn sha256_of(bytes: Seq<u8>) -> Seq<u8>;

/// `sha2::Sha256::digest`: the 32-byte SHA-256 digest of `bytes`.
///
/// Trusted for two things only: that the digest is a function of the bytes alone, named
/// [`sha256_of`], and that it is 32 bytes long, which is the output size `Sha256` declares.
#[verifier::external_body]
fn sha256(bytes: &[u8]) -> (digest: Vec<u8>)
    ensures
        digest@ == sha256_of(bytes@),
        digest@.len() == 32,
{
    sha2::Sha256::digest(bytes).to_vec()
}

/// Content identified by content: the SHA-256 of `bytes`, in lowercase hex.
pub open spec fn sha256_hex_of(bytes: Seq<u8>) -> Seq<char> {
    hex(sha256_of(bytes))
}

/// The SHA-256 of `bytes`, in lowercase hex: the one way this node names a hash.
pub fn sha256_hex(bytes: &[u8]) -> (digest: String)
    ensures
        digest@ == sha256_hex_of(bytes@),
{
    let digest = sha256(bytes);
    render_hex(digest.as_slice())
}

/// What a person is told when a reference did not resolve.
pub open spec fn unresolvable_message(reason: Unresolvable) -> Seq<char> {
    match reason {
        Unresolvable::Untagged => "this reference has no version tag, and the cache is keyed by version"@,
        Unresolvable::Digest => "digest-pinned references are not resolvable from the cache yet"@,
        Unresolvable::Malformed => "this is not a block reference"@,
        Unresolvable::Missing { path } => "no block is cached at "@ + path@,
        Unresolvable::Unreadable { path, error } => "reading "@ + path@ + ": "@ + error@,
    }
}

impl Unresolvable {
    /// What a person is told: one sentence, naming the path where there is one.
    pub fn message(&self) -> (message: String)
        ensures
            message@ == unresolvable_message(*self),
    {
        match self {
            Unresolvable::Untagged => String::from_str(
                "this reference has no version tag, and the cache is keyed by version",
            ),
            Unresolvable::Digest => String::from_str(
                "digest-pinned references are not resolvable from the cache yet",
            ),
            Unresolvable::Malformed => String::from_str("this is not a block reference"),
            Unresolvable::Missing { path } => {
                let mut message = String::from_str("no block is cached at ");
                message.append(path.as_str());
                message
            },
            Unresolvable::Unreadable { path, error } => {
                let mut message = String::from_str("reading ");
                message.append(path.as_str());
                message.append(": ");
                message.append(error.as_str());
                message
            },
        }
    }
}

/// One name-and-version pair, as a reference resolves to.
#[derive(Debug, Clone, PartialEq, Eq)]
pub struct Entry {
    /// The block's name: the reference's last path component, up to its tag.
    pub name: String,
    /// The tag, which is the version the cache keys the block by.
    pub version: String,
}

/// The node's block cache, rooted at the node's `blocks/`.
#[derive(Debug, Clone)]
pub struct Cache {
    root: String,
}

/// Whether `text` is one ordinary path component, safe to join onto the cache root: not empty,
/// not `.` or `..`, and holding neither a separator nor a NUL.
pub open spec fn is_component(text: Seq<char>) -> bool {
    &&& text.len() > 0
    &&& text != seq!['.']
    &&& text != seq!['.', '.']
    &&& !holds_char(text, SEPARATOR)
    &&& !holds_char(text, '\0')
}

/// Where a reference's last path component begins: just past its last `/`, or at its start.
pub open spec fn last_component_start(reference: Seq<char>) -> int {
    match rfind(reference, SEPARATOR) {
        Some(slash) => slash + 1,
        None => 0,
    }
}

/// The name and version a reference keys its cache entry by, or why it keys none.
///
/// `[registry/][namespace/]...name:version`. The registry and namespace are where a pull goes
/// and say nothing about where a pulled block sits, so only the last path component is read;
/// its last `:` separates the name from the tag (a `:` before the last `/` is a registry's
/// port, not a tag).
pub open spec fn parse_spec(reference: Seq<char>) -> Result<(Seq<char>, Seq<char>), Unresolvable> {
    if reference.len() == 0 {
        Err(Unresolvable::Malformed)
    } else if holds_char(reference, '@') {
        Err(Unresolvable::Digest)
    } else {
        let last = reference.skip(last_component_start(reference));
        match rfind(last, ':') {
            None => Err(Unresolvable::Untagged),
            Some(colon) => {
                let name = last.take(colon);
                let version = last.skip(colon + 1);
                if is_component(name) && is_component(version) {
                    Ok((name, version))
                } else {
                    Err(Unresolvable::Malformed)
                }
            },
        }
    }
}

/// The cache path of the entry `name`/`version` under `root`.
pub open spec fn entry_path(root: Seq<char>, name: Seq<char>, version: Seq<char>) -> Seq<char> {
    join(join(join(root, name), version), MODULE@)
}

/// Where `reference`'s module sits under `root`, or why it sits nowhere.
pub open spec fn cache_path_spec(root: Seq<char>, reference: Seq<char>) -> Result<Seq<char>, Unresolvable> {
    match parse_spec(reference) {
        Ok((name, version)) => Ok(entry_path(root, name, version)),
        Err(why) => Err(why),
    }
}

/// Whether `text` is one ordinary path component (see [`is_component`]).
pub fn is_component_chars(text: &Vec<char>) -> (ordinary: bool)
    ensures
        ordinary == is_component(text@),
{
    if text.len() == 0 {
        return false;
    }
    proof {
        reveal_strlit(".");
        reveal_strlit("..");
        assert(".".view() =~= seq!['.']);
        assert("..".view() =~= seq!['.', '.']);
    }
    if chars_are(text, ".") || chars_are(text, "..") {
        return false;
    }
    proof {
        assert(text@ != seq!['.']);
        assert(text@ != seq!['.', '.']);
    }
    !contains_char(text, SEPARATOR) && !contains_char(text, '\0')
}

/// Splits a reference into the name and version that key its cache entry (see [`parse_spec`]).
pub fn parse(reference: &str) -> (entry: Result<Entry, Unresolvable>)
    ensures
        match entry {
            Ok(entry) => parse_spec(reference@) == Ok::<(Seq<char>, Seq<char>), Unresolvable>(
                (entry.name@, entry.version@),
            ),
            Err(why) => parse_spec(reference@) == Err::<(Seq<char>, Seq<char>), Unresolvable>(why),
        },
{
    let chars = chars_of(reference);
    if chars.len() == 0 {
        return Err(Unresolvable::Malformed);
    }
    if contains_char(&chars, '@') {
        return Err(Unresolvable::Digest);
    }
    proof {
        lemma_rfind(chars@, SEPARATOR);
    }
    let start = match rfind_char(&chars, SEPARATOR) {
        Some(slash) => slash + 1,
        None => 0,
    };
    let last = slice_of(&chars, start, chars.len());
    assert(last@ == reference@.skip(last_component_start(reference@)));
    proof {
        lemma_rfind(last@, ':');
    }
    let colon = match rfind_char(&last, ':') {
        Some(colon) => colon,
        None => {
            return Err(Unresolvable::Untagged);
        },
    };
    let name = slice_of(&last, 0, colon);
    let version = slice_of(&last, colon + 1, last.len());
    assert(name@ == last@.take(colon as int));
    assert(version@ == last@.skip(colon + 1));
    if !is_component_chars(&name) || !is_component_chars(&version) {
        return Err(Unresolvable::Malformed);
    }
    assert(name@.subrange(0, name@.len() as int) =~= name@);
    assert(version@.subrange(0, version@.len() as int) =~= version@);
    Ok(
        Entry {
            name: string_of(&name, 0, name.len()),
            version: string_of(&version, 0, version.len()),
        },
    )
}

impl Cache {
    /// The cache under `root`, which is the node's `blocks/`.
    pub fn new(root: String) -> (cache: Cache)
        ensures
            cache.root() == root@,
    {
        Cache { root }
    }

    /// The directory this cache is rooted at.
    pub closed spec fn root(&self) -> Seq<char> {
        self.root@
    }

    /// The directory this cache is rooted at.
    pub fn root_dir(&self) -> (root: &str)
        ensures
            root@ == self.root(),
    {
        self.root.as_str()
    }

    /// Where `reference`'s module sits, whether or not it is there.
    ///
    /// Two references naming one entry — `filter:1.2.0` and `ghcr.io/anyone/filter:1.2.0` —
    /// answer the same path, which is what makes the path and not the reference the thing to
    /// compare them by.
    pub fn path(&self, reference: &str) -> (path: Result<String, Unresolvable>)
        ensures
            match path {
                Ok(path) => cache_path_spec(self.root(), reference@) == Ok::<Seq<char>, Unresolvable>(path@),
                Err(why) => cache_path_spec(self.root(), reference@) == Err::<Seq<char>, Unresolvable>(why),
            },
    {
        let entry = parse(reference)?;
        let with_name = path_join(self.root.as_str(), entry.name.as_str());
        let with_version = path_join(with_name.as_str(), entry.version.as_str());
        let path = path_join(with_version.as_str(), MODULE);
        Ok(path)
    }
}

/// A reference resolves to a refusal, or to `root`, a separator-free name, a separator-free
/// version and `block.wasm` — nothing a reference can say reaches outside the cache.
pub proof fn lemma_a_reference_stays_in_the_cache(root: Seq<char>, reference: Seq<char>)
    ensures
        cache_path_spec(root, reference) is Ok ==> {
            let path = cache_path_spec(root, reference)->Ok_0;
            exists|name: Seq<char>, version: Seq<char>|
                {
                    &&& is_component(name)
                    &&& is_component(version)
                    &&& path == entry_path(root, name, version)
                    &&& path.len() >= root.len()
                    &&& path.take(root.len() as int) == root
                }
        },
{
    reveal_strlit("block.wasm");
    if let Ok((name, version)) = parse_spec(reference) {
        lemma_join_keeps_base(root, name);
        let a = join(root, name);
        lemma_join_keeps_base(a, version);
        let b = join(a, version);
        lemma_join_keeps_base(b, MODULE@);
        assert(entry_path(root, name, version).take(root.len() as int) =~= root);
    }
}

/// The registry and namespace in front of a reference's last component say where a pull goes,
/// and nothing about where the block sits: the two references resolve alike.
pub proof fn lemma_the_namespace_names_no_directory(prefix: Seq<char>, last: Seq<char>)
    requires
        !holds_char(prefix, '@'),
        !holds_char(last, SEPARATOR),
        last.len() > 0,
    ensures
        parse_spec(prefix + seq![SEPARATOR] + last) == parse_spec(last),
{
    let whole = prefix + seq![SEPARATOR] + last;
    let slash = prefix.len() as int;
    assert(whole[slash] == SEPARATOR);
    assert forall|j: int| slash < j < whole.len() implies whole[j] != SEPARATOR by {
        assert(whole[j] == last[j - slash - 1]);
    }
    lemma_rfind_unique(whole, SEPARATOR, slash);
    lemma_rfind(last, SEPARATOR);
    assert(whole.skip(slash + 1) =~= last);
    assert(last.skip(last_component_start(last)) =~= last);
    if holds_char(last, '@') {
        let i = choose|i: int| 0 <= i < last.len() && last[i] == '@';
        assert(whole[i + slash + 1] == '@');
    } else {
        assert forall|i: int| 0 <= i < whole.len() implies whole[i] != '@' by {
            if i < slash {
                assert(whole[i] == prefix[i]);
            } else if i > slash {
                assert(whole[i] == last[i - slash - 1]);
            } else {
                assert(whole[i] == SEPARATOR);
            }
        }
    }
}

} // verus!
