use eio_daemon::blocks::{parse, sha256_hex, Cache, Entry, Unresolvable};

fn entry(name: &str, version: &str) -> Result<Entry, Unresolvable> {
    Ok(Entry { name: String::from(name), version: String::from(version) })
}

#[test]
fn a_reference_names_an_entry_by_its_last_component_and_its_tag() {
    assert_eq!(parse("filter:1.2.0"), entry("filter", "1.2.0"));
    assert_eq!(
        parse("ghcr.io/tlugger/filter:1.2.0"),
        entry("filter", "1.2.0"),
        "the registry and namespace say where a pull goes, not where a block sits"
    );
    assert_eq!(parse("localhost:5000/filter:1.2.0"), entry("filter", "1.2.0"), "a port in the registry is not a tag");
}

#[test]
fn a_reference_without_a_tag_is_refused_rather_than_defaulted() {
    assert_eq!(parse("filter"), Err(Unresolvable::Untagged));
    assert_eq!(parse("ghcr.io/tlugger/filter"), Err(Unresolvable::Untagged), "a `/` before the name is not a tag either");
    assert_eq!(parse("localhost:5000/filter"), Err(Unresolvable::Untagged), "and neither is the registry's port");
}

#[test]
fn a_digest_pinned_reference_says_so_rather_than_failing_as_a_miss() {
    assert_eq!(parse("filter@sha256:0123456789abcdef"), Err(Unresolvable::Digest));
}

#[test]
fn a_reference_cannot_walk_out_of_the_cache() {
    assert_eq!(
        parse("../../etc/shadow:1"),
        entry("shadow", "1"),
        "the leading segments are a namespace, and a namespace names no directory here"
    );
    for reference in ["..:1", "filter:..", "filter:.", ".:1", "filter:", ":1.0.0", ""] {
        let parsed = parse(reference);
        assert!(
            matches!(parsed, Err(Unresolvable::Malformed | Unresolvable::Untagged)),
            "{reference:?} resolved to {parsed:?}"
        );
    }
    let cache = Cache::new(String::from("/data/blocks"));
    for reference in ["../../etc/shadow:1", "filter:../../..", "a/../../b:1", "..:.."] {
        match cache.path(reference) {
            Err(_) => {}
            Ok(path) => assert!(
                path.starts_with("/data/blocks/") && !path.split('/').any(|part| part == ".."),
                "{reference:?} escaped to {path}"
            ),
        }
    }
}

#[test]
fn a_cache_path_is_the_root_the_name_the_version_and_the_module() {
    let cache = Cache::new(String::from("/data/blocks"));
    assert_eq!(cache.path("ghcr.io/x/filter:1.2.0"), Ok(String::from("/data/blocks/filter/1.2.0/block.wasm")));
    assert_eq!(cache.path("filter"), Err(Unresolvable::Untagged));
}

#[test]
fn an_empty_reference_is_malformed() {
    assert_eq!(parse(""), Err(Unresolvable::Malformed));
}

#[test]
fn each_way_a_reference_fails_reads_as_one_sentence() {
    assert_eq!(
        Unresolvable::Untagged.message(),
        "this reference has no version tag, and the cache is keyed by version"
    );
    assert_eq!(Unresolvable::Digest.message(), "digest-pinned references are not resolvable from the cache yet");
    assert_eq!(Unresolvable::Malformed.message(), "this is not a block reference");
    assert_eq!(
        Unresolvable::Missing { path: String::from("/b/f/1/block.wasm") }.message(),
        "no block is cached at /b/f/1/block.wasm"
    );
    assert_eq!(
        Unresolvable::Unreadable { path: String::from("/p"), error: String::from("denied") }.message(),
        "reading /p: denied"
    );
}

#[test]
fn sha256_hex_is_the_standard_digest_in_lowercase() {
    assert_eq!(sha256_hex(b""), "e3b0c44298fc1c149afbf4c8996fb92427ae41e4649b934ca495991b7852b855");
    assert_eq!(sha256_hex(b"abc"), "ba7816bf8f01cfea414140de5dae2223b00361a396177a9cb410ff61f20015ad");
}
