//! Inspecting one instance's `eio:state`, and the namespaces nothing declares any more.
//!
//! A node's state store is keyed `(service, instance)`, because an instance id means nothing
//! outside its service. Keys and values are opaque bytes, so both are reported base64, with a
//! UTF-8 key and a rendered value offered beside them where the bytes admit one — never
//! instead of them.
//!
//! A namespace is addressed in a URL as `service:instance`. `:` is outside the id alphabet on
//! both sides, so splitting at the first one is unambiguous, and both halves are checked to be
//! ids before either is trusted with a filesystem lookup (see
//! [`lemma_a_namespace_decodes_to_what_encoded_it`]).
use vstd::prelude::*;
use base64::Engine;
use vstd::utf8::{decode_utf8, valid_utf8};
use crate::api::error::{ApiError, Kind};
use crate::boot::{is_id, is_id_spec};
use crate::text::{chars_of, find, find_char, lemma_find, lemma_find_unique, string_of};

verus! {

/// What one block instance has in `eio:state`.
#[derive(Debug, Clone, PartialEq, Eq)]
pub struct InstanceState {
    /// The service the instance belongs to.
    pub service: String,
    /// The instance's id, as its service file spells it.
    pub instance: String,
    /// Every key this instance has written, in key order.
    pub entries: Vec<Entry>,
}

/// One key and value.
#[derive(Debug, Clone, PartialEq, Eq)]
pub struct Entry {
    /// The key as UTF-8, when it is. Absent for a key that is not.
    pub key: Option<String>,
    /// The key's bytes, base64: the only rendering that is always exact.
    pub key_base64: String,
    /// The value in the canonical rendering of a value, when the bytes decode as one.
    pub value: Option<String>,
    /// The value's bytes, base64.
    pub value_base64: String,
    /// How many bytes the value is.
    pub size: usize,
}

/// A namespace nothing garbage-collects, left behind: a pair the store holds that no service
/// file on this node currently declares.
#[derive(Debug, Clone, PartialEq, Eq)]
pub struct Orphan {
    /// The service half of the namespace.
    pub service: String,
    /// The instance id that wrote this state.
    pub instance: String,
    /// The segment `DELETE /state/orphans/{namespace}` takes to reclaim exactly this one.
    pub namespace: String,
    /// How many keys this namespace holds.
    pub keys: usize,
}

/// The separator a namespace segment's two halves are joined with.
pub const NAMESPACE_SEPARATOR: char = ':';

/// The `{namespace}` path segment for a `(service, instance)` pair.
pub open spec fn encode_spec(service: Seq<char>, instance: Seq<char>) -> Seq<char> {
    service + seq![NAMESPACE_SEPARATOR] + instance
}

/// A namespace segment's `(service, instance)`: split at the first separator, both halves ids.
pub open spec fn decode_spec(namespace: Seq<char>) -> Option<(Seq<char>, Seq<char>)> {
    match find(namespace, NAMESPACE_SEPARATOR) {
        Some(at) => {
            let service = namespace.subrange(0, at);
            let instance = namespace.subrange(at + 1, namespace.len() as int);
            if is_id_spec(service) && is_id_spec(instance) {
                Some((service, instance))
            } else {
                None
            }
        },
        None => None,
    }
}

/// Composes the `{namespace}` path segment for a `(service, instance)` pair.
pub fn encode_namespace(service: &str, instance: &str) -> (namespace: String)
    ensures
        namespace@ == encode_spec(service@, instance@),
{
    let mut namespace = String::from_str(service);
    namespace.push(NAMESPACE_SEPARATOR);
    namespace.append(instance);
    namespace
}

/// The inverse of [`encode_namespace`], and the path's only line of defence: `None` for a
/// segment with no separator, an empty half, or a half that is not one valid id.
pub fn decode_namespace(namespace: &str) -> (pair: Option<(String, String)>)
    ensures
        match pair {
            Some((service, instance)) => decode_spec(namespace@) == Some((service@, instance@)),
            None => decode_spec(namespace@) is None,
        },
{
    let chars = chars_of(namespace);
    match find_char(&chars, NAMESPACE_SEPARATOR) {
        None => None,
        Some(at) => {
            proof {
                lemma_find(chars@, NAMESPACE_SEPARATOR);
            }
            let service = string_of(&chars, 0, at);
            let instance = string_of(&chars, at + 1, chars.len());
            if is_id(service.as_str()) && is_id(instance.as_str()) {
                Some((service, instance))
            } else {
                None
            }
        },
    }
}

/// A namespace segment decodes to exactly the pair that encoded it, whenever both halves are
/// ids; and whatever decodes, encodes back to the segment it came from.
pub proof fn lemma_a_namespace_decodes_to_what_encoded_it(service: Seq<char>, instance: Seq<char>, namespace: Seq<char>)
    ensures
        is_id_spec(service) && is_id_spec(instance) ==> decode_spec(encode_spec(service, instance)) == Some(
            (service, instance),
        ),
        decode_spec(namespace) matches Some((s, i)) ==> encode_spec(s, i) == namespace,
{
    let encoded = encode_spec(service, instance);
    if is_id_spec(service) && is_id_spec(instance) {
        assert forall|j: int| 0 <= j < service.len() implies encoded[j] != NAMESPACE_SEPARATOR by {
            assert(encoded[j] == service[j]);
            if j > 0 {
                assert(crate::boot::is_id_continue(service[j]));
            }
        }
        assert(encoded[service.len() as int] == NAMESPACE_SEPARATOR);
        lemma_find_unique(encoded, NAMESPACE_SEPARATOR, service.len() as int);
        assert(encoded.subrange(0, service.len() as int) =~= service);
        assert(encoded.subrange(service.len() as int + 1, encoded.len() as int) =~= instance);
    }
    lemma_find(namespace, NAMESPACE_SEPARATOR);
    if let Some(at) = find(namespace, NAMESPACE_SEPARATOR) {
        let s = namespace.subrange(0, at);
        let i = namespace.subrange(at + 1, namespace.len() as int);
        assert(encode_spec(s, i) =~= namespace);
    }
}

/// The character base64 writes for six bits `v`: `A`–`Z`, `a`–`z`, `0`–`9`, `+`, `/`.
pub open spec fn base64_digit(v: int) -> char {
    if v < 26 {
        (('A' as u32) + v) as char
    } else if v < 52 {
        (('a' as u32) + (v - 26)) as char
    } else if v < 62 {
        (('0' as u32) + (v - 52)) as char
    } else if v == 62 {
        '+'
    } else {
        '/'
    }
}

/// `bytes` in RFC 4648's standard base64, padded with `=`.
pub open spec fn base64_spec(bytes: Seq<u8>) -> Seq<char>
    decreases bytes.len(),
{
    if bytes.len() == 0 {
        Seq::empty()
    } else if bytes.len() == 1 {
        let b0 = bytes[0] as int;
        seq![base64_digit(b0 / 4), base64_digit((b0 % 4) * 16), '=', '=']
    } else if bytes.len() == 2 {
        let b0 = bytes[0] as int;
        let b1 = bytes[1] as int;
        seq![base64_digit(b0 / 4), base64_digit((b0 % 4) * 16 + b1 / 16), base64_digit((b1 % 16) * 4), '=']
    } else {
        let b0 = bytes[0] as int;
        let b1 = bytes[1] as int;
        let b2 = bytes[2] as int;
        seq![
            base64_digit(b0 / 4),
            base64_digit((b0 % 4) * 16 + b1 / 16),
            base64_digit((b1 % 16) * 4 + b2 / 64),
            base64_digit(b2 % 64),
        ] + base64_spec(bytes.subrange(3, bytes.len() as int))
    }
}

/// `base64::engine::general_purpose::STANDARD.encode`: RFC 4648's standard alphabet, padded.
///
/// Trusted to encode exactly as [`base64_spec`] states the standard; the buffer size it
/// computes first overflows, and panics, only for inputs far past what `requires` admits.
#[verifier::external_body]
fn base64(bytes: &[u8]) -> (text: String)
    requires
        bytes@.len() <= usize::MAX / 2,
    ensures
        text@ == base64_spec(bytes@),
{
    base64::engine::general_purpose::STANDARD.encode(bytes)
}

/// `std::str::from_utf8`: the text the bytes are, when they are UTF-8.
///
/// Trusted for what its documentation says: it fails exactly when the bytes are not valid
/// UTF-8, and otherwise the text's bytes are the input's.
#[verifier::external_body]
fn utf8_text(bytes: &[u8]) -> (text: Option<String>)
    ensures
        text is Some <==> valid_utf8(bytes@),
        text matches Some(t) ==> t@ == decode_utf8(bytes@),
{
    std::str::from_utf8(bytes).ok().map(String::from)
}

/// One stored pair, rendered: the key as text when it is UTF-8, both as base64, the value's
/// size, and `rendered` — the value's canonical rendering when its bytes decode as a value.
pub fn entry(key: Vec<u8>, value: Vec<u8>, rendered: Option<String>) -> (e: Entry)
    requires
        key@.len() <= usize::MAX / 2,
        value@.len() <= usize::MAX / 2,
    ensures
        e.key is Some <==> valid_utf8(key@),
        e.key matches Some(k) ==> k@ == decode_utf8(key@),
        e.key_base64@ == base64_spec(key@),
        e.value == rendered,
        e.value_base64@ == base64_spec(value@),
        e.size == value@.len(),
{
    Entry {
        key: utf8_text(key.as_slice()),
        key_base64: base64(key.as_slice()),
        value: rendered,
        value_base64: base64(value.as_slice()),
        size: value.len(),
    }
}

/// What this node's copy of a service's file says, as far as declaring instances goes.
#[derive(Debug, Clone, PartialEq, Eq)]
pub enum ServiceFile {
    /// The name is not one a service could have.
    NoName,
    /// There is no such file: the service was deleted, or renamed.
    Missing,
    /// The file is there and could not be read.
    Unreadable,
    /// The file is there and does not parse.
    Unparsable,
    /// The file parses, and declares these instance ids.
    Declares(Vec<String>),
}

/// Whether a service file currently declares `instance`.
///
/// Only a file that is not there declares nothing. One that cannot be read or parsed is
/// counted as declaring, rather than guessed at: an operator mid-typo should not be offered a
/// delete of live state the moment their editor saves.
pub open spec fn declared_spec(file: ServiceFile, instance: Seq<char>) -> bool {
    match file {
        ServiceFile::Missing => false,
        ServiceFile::Declares(ids) => exists|i: int| 0 <= i < ids@.len() && (#[trigger] ids@[i])@ == instance,
        _ => true,
    }
}

/// Whether `ids` holds `id`.
fn holds_id(ids: &Vec<String>, id: &str) -> (found: bool)
    ensures
        found == exists|i: int| 0 <= i < ids@.len() && (#[trigger] ids@[i])@ == id@,
{
    let mut i: usize = 0;
    while i < ids.len()
        invariant
            i <= ids@.len(),
            forall|j: int| 0 <= j < i ==> (#[trigger] ids@[j])@ != id@,
        decreases ids@.len() - i,
    {
        if crate::text::str_eq(ids[i].as_str(), id) {
            return true;
        }
        i = i + 1;
    }
    false
}

/// Whether `file` currently declares `instance` (see [`declared_spec`]).
pub fn declared(file: &ServiceFile, instance: &str) -> (yes: bool)
    ensures
        yes == declared_spec(*file, instance@),
{
    match file {
        ServiceFile::Missing => false,
        ServiceFile::Declares(ids) => holds_id(ids, instance),
        _ => true,
    }
}

/// Whether `GET /services/{s}/state/{i}` answers: it does unless the file parses and declares
/// no such instance. A file too broken to parse is answered anyway — the bytes are real
/// whatever the file says.
pub fn instance_known(service: &str, instance: &str, file: &ServiceFile) -> (verdict: Result<(), ApiError>)
    ensures
        match *file {
            ServiceFile::Declares(ids) => if exists|i: int| 0 <= i < ids@.len() && (#[trigger] ids@[i])@ == instance@ {
                verdict is Ok
            } else {
                match verdict {
                    Err(e) => e.error == Kind::NotFound && e.detail is None && e.message@ == "service `"@ + service@
                        + "` has no block instance `"@ + instance@ + "`"@,
                    Ok(_) => false,
                }
            },
            _ => verdict is Ok,
        },
{
    if let ServiceFile::Declares(ids) = file {
        if !holds_id(ids, instance) {
            let mut message = String::from_str("service `");
            message.append(service);
            message.append("` has no block instance `");
            message.append(instance);
            message.append("`");
            return Err(ApiError::new(Kind::NotFound, message));
        }
    }
    Ok(())
}

/// One namespace the store holds, with what its service's file says and how many keys it has.
#[derive(Debug, Clone, PartialEq, Eq)]
pub struct Held {
    /// The service half.
    pub service: String,
    /// The instance half.
    pub instance: String,
    /// The service's file, as it is now.
    pub file: ServiceFile,
    /// How many keys the namespace holds.
    pub keys: usize,
}

/// `orphan` is `held`, reported as an orphan.
pub open spec fn reports_orphan(orphan: Orphan, held: Held) -> bool {
    &&& orphan.service == held.service
    &&& orphan.instance == held.instance
    &&& orphan.namespace@ == encode_spec(held.service@, held.instance@)
    &&& orphan.keys == held.keys
}

/// Every orphan reported is one of `held`, undeclared.
pub open spec fn each_reports_an_orphan(orphans: Seq<Orphan>, held: Seq<Held>) -> bool {
    forall|k: int| 0 <= k < orphans.len() ==> #[trigger] reports_one_of(orphans[k], held)
}

/// `orphan` reports one of `held`, undeclared.
pub open spec fn reports_one_of(orphan: Orphan, held: Seq<Held>) -> bool {
    exists|j: int| #![trigger held[j]] 0 <= j < held.len() && !declared_spec(held[j].file, held[j].instance@)
        && reports_orphan(orphan, held[j])
}

/// Every one of `held` that is undeclared is reported.
pub open spec fn every_orphan_reported(orphans: Seq<Orphan>, held: Seq<Held>) -> bool {
    forall|j: int| #![trigger held[j]] 0 <= j < held.len() && !declared_spec(held[j].file, held[j].instance@) ==> exists|k: int|
        #![trigger orphans[k]] 0 <= k < orphans.len() && reports_orphan(orphans[k], held[j])
}

/// Orphans each drawn from an undeclared entry of `held`, by the indices `from`, are each
/// one of `held`'s, undeclared.
proof fn lemma_sourced(orphans: Seq<Orphan>, held: Seq<Held>, from: Seq<int>)
    requires
        from.len() == orphans.len(),
        forall|k: int| #![trigger from[k]] 0 <= k < from.len() ==> 0 <= from[k] < held.len()
            && !declared_spec(held[from[k]].file, held[from[k]].instance@)
            && reports_orphan(orphans[k], held[from[k]]),
    ensures
        each_reports_an_orphan(orphans, held),
{
    assert forall|k: int| 0 <= k < orphans.len() implies #[trigger] reports_one_of(orphans[k], held) by {
        let j = from[k];
        assert(0 <= j < held.len() && !declared_spec(held[j].file, held[j].instance@) && reports_orphan(orphans[k], held[j]));
    }
}

/// An orphan as plain values: its service, instance, namespace segment and key count.
pub open spec fn orphan_view(orphan: Orphan) -> (Seq<char>, Seq<char>, Seq<char>, usize) {
    (orphan.service@, orphan.instance@, orphan.namespace@, orphan.keys)
}

/// The orphans among `held`: each held namespace whose instance its service's file does not
/// declare, once for each time the store holds it, in the store's order.
pub open spec fn orphans_spec(held: Seq<Held>) -> Seq<(Seq<char>, Seq<char>, Seq<char>, usize)>
    decreases held.len(),
{
    if held.len() == 0 {
        Seq::empty()
    } else {
        let rest = orphans_spec(held.drop_last());
        let h = held.last();
        if declared_spec(h.file, h.instance@) {
            rest
        } else {
            rest.push((h.service@, h.instance@, encode_spec(h.service@, h.instance@), h.keys))
        }
    }
}

/// Every held namespace whose instance no current service file declares, in the order the
/// store listed them. A namespace a stopped service declares is not one: stopping does not
/// undeclare an instance.
pub fn orphans_of(held: &Vec<Held>) -> (orphans: Vec<Orphan>)
    ensures
        orphans@.map_values(|o: Orphan| orphan_view(o)) == orphans_spec(held@),
        orphans@.len() <= held@.len(),
        each_reports_an_orphan(orphans@, held@),
        every_orphan_reported(orphans@, held@),
{
    let mut orphans: Vec<Orphan> = Vec::new();
    let ghost mut from: Seq<int> = Seq::empty();
    let mut i: usize = 0;
    while i < held.len()
        invariant
            i <= held@.len(),
            from.len() == orphans@.len(),
            orphans@.len() <= i,
            orphans@.map_values(|o: Orphan| orphan_view(o)) == orphans_spec(held@.take(i as int)),
            forall|k: int| #![trigger from[k]] 0 <= k < from.len() ==> 0 <= from[k] < i
                && !declared_spec(held@[from[k]].file, held@[from[k]].instance@)
                && reports_orphan(orphans@[k], held@[from[k]]),
            forall|j: int| 0 <= j < i && !declared_spec(held@[j].file, held@[j].instance@) ==> exists|k: int|
                #![trigger from[k]] 0 <= k < from.len() && from[k] == j,
        decreases held@.len() - i,
    {
        let one = &held[i];
        proof {
            assert(held@.take(i + 1).drop_last() =~= held@.take(i as int));
        }
        if !declared(&one.file, one.instance.as_str()) {
            let orphan = Orphan {
                service: one.service.clone(),
                instance: one.instance.clone(),
                namespace: encode_namespace(one.service.as_str(), one.instance.as_str()),
                keys: one.keys,
            };
            let ghost views_before = orphans@.map_values(|o: Orphan| orphan_view(o));
            orphans.push(orphan);
            proof {
                assert(orphans@.map_values(|o: Orphan| orphan_view(o)) =~= views_before.push(orphan_view(orphan)));
                let before = from;
                from = from.push(i as int);
                assert(from[before.len() as int] == i);
                assert forall|j: int| 0 <= j < i + 1 && !declared_spec(held@[j].file, held@[j].instance@) implies exists|k: int|
                    #![trigger from[k]] 0 <= k < from.len() && from[k] == j by {
                    if j < i {
                        let k = choose|k: int| #![trigger before[k]] 0 <= k < before.len() && before[k] == j;
                        assert(from[k] == j);
                    } else {
                        assert(from[before.len() as int] == j);
                    }
                }
            }
        }
        i = i + 1;
    }
    proof {
        assert(held@.take(held@.len() as int) =~= held@);
        lemma_sourced(orphans@, held@, from);
        assert forall|j: int| #![trigger held@[j]] 0 <= j < held@.len() && !declared_spec(held@[j].file, held@[j].instance@) implies exists|k: int|
            #![trigger orphans@[k]] 0 <= k < orphans@.len() && reports_orphan(orphans@[k], held@[j]) by {
            let k = choose|k: int| #![trigger from[k]] 0 <= k < from.len() && from[k] == j;
            assert(reports_orphan(orphans@[k], held@[j]));
        }
    }
    orphans
}

/// The pair `DELETE /state/orphans/{namespace}` names, or its refusal: a segment that is not
/// a `service:instance` pair of ids names nothing.
pub fn reclaim_target(namespace: &str) -> (target: Result<(String, String), ApiError>)
    ensures
        match decode_spec(namespace@) {
            Some((s, i)) => target matches Ok((service, instance)) && service@ == s && instance@ == i,
            None => match target {
                Err(e) => e.error == Kind::NotFound && e.detail is None && e.message@ == "`"@ + namespace@
                    + "` is not a `service:instance` namespace"@,
                Ok(_) => false,
            },
        },
{
    match decode_namespace(namespace) {
        Some(pair) => Ok(pair),
        None => {
            let mut message = String::from_str("`");
            message.append(namespace);
            message.append("` is not a `service:instance` namespace");
            Err(ApiError::new(Kind::NotFound, message))
        },
    }
}

/// Whether a decoded namespace may be reclaimed: not while its service's file declares it —
/// that is live state, not an orphan.
pub fn reclaimable(namespace: &str, service: &str, instance: &str, file: &ServiceFile) -> (verdict: Result<(), ApiError>)
    ensures
        if declared_spec(*file, instance@) {
            match verdict {
                Err(e) => e.error == Kind::Invalid && e.detail is None && e.message@ == "`"@ + namespace@
                    + "` is declared by service `"@ + service@
                    + "`'s current file; it is live state, not an orphan, and this endpoint only reclaims orphans"@,
                Ok(_) => false,
            }
        } else {
            verdict is Ok
        },
{
    if declared(file, instance) {
        let mut message = String::from_str("`");
        message.append(namespace);
        message.append("` is declared by service `");
        message.append(service);
        message.append("`'s current file; it is live state, not an orphan, and this endpoint only reclaims orphans");
        return Err(ApiError::new(Kind::Invalid, message));
    }
    Ok(())
}

/// What a reclaim answers once the store has cleared `removed` keys: a namespace with no keys
/// was not one this store holds.
pub fn reclaimed(namespace: &str, removed: usize) -> (verdict: Result<(), ApiError>)
    ensures
        if removed == 0 {
            match verdict {
                Err(e) => e.error == Kind::NotFound && e.detail is None && e.message@
                    == "this node's state store holds no namespace `"@ + namespace@ + "`"@,
                Ok(_) => false,
            }
        } else {
            verdict is Ok
        },
{
    if removed == 0 {
        let mut message = String::from_str("this node's state store holds no namespace `");
        message.append(namespace);
        message.append("`");
        return Err(ApiError::new(Kind::NotFound, message));
    }
    Ok(())
}

} // verus!
