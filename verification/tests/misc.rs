use eio_daemon::cli::property;
use eio_daemon::core_fns::{clamp_ms, unix_ms_of, OsEntropy, SystemClock};
use eio_daemon::names::{compare_str, sort_names, NameMap, Order};
use eio_daemon::paths::path_join;
use eio_daemon::text::{render_hex, render_u64, strip_prefix};

#[test]
fn a_property_splits_at_the_first_equals() {
    assert_eq!(
        property("hot=(= $state \"on\")"),
        Ok((String::from("hot"), String::from("(= $state \"on\")"))),
        "an expression may contain any number of further `=`"
    );
    assert_eq!(
        property("empty="),
        Ok((String::from("empty"), String::new())),
        "an empty expression is a parse error later, with a span — not a CLI error here"
    );
    assert!(property("novalue").is_err());
    assert!(property("=novalue").is_err());
    assert_eq!(property("novalue"), Err(String::from("expected NAME=EXPRESSION")));
}

#[test]
fn a_clock_reading_saturates_and_a_clock_before_the_epoch_reads_the_epoch() {
    assert_eq!(clamp_ms(0), 0);
    assert_eq!(clamp_ms(i64::MAX as u128), i64::MAX);
    assert_eq!(clamp_ms(u128::MAX), i64::MAX);
    assert_eq!(unix_ms_of(None), 0);
    assert_eq!(unix_ms_of(Some(1_700_000_000_000)), 1_700_000_000_000);
    let clock = SystemClock::new();
    assert!(clock.unix_ms() > 1_600_000_000_000, "the machine's clock is past 2020");
    let first = clock.mono_ms();
    assert!(first >= 0 && clock.mono_ms() >= first, "monotonic");
}

#[test]
fn entropy_fills_what_it_is_given() {
    let mut buf = vec![0u8; 64];
    OsEntropy.fill(&mut buf).expect("the OS has randomness");
    assert_eq!(buf.len(), 64);
    assert!(buf.iter().any(|&b| b != 0), "64 zero bytes from a working source is not a thing");
}

#[test]
fn names_sort_byte_by_byte() {
    assert_eq!(compare_str("a", "b"), Order::Before);
    assert_eq!(compare_str("ab", "a"), Order::After);
    assert_eq!(compare_str("", ""), Order::Same);
    assert_eq!(compare_str("Z", "a"), Order::Before, "upper case sorts first, as bytes do");
    let sorted = sort_names(&vec![String::from("b"), String::from("a"), String::from("c"), String::from("a")]);
    assert_eq!(sorted, vec![String::from("a"), String::from("b"), String::from("c")]);
}

#[test]
fn a_name_map_is_a_map_kept_in_name_order() {
    let mut map: NameMap<u32> = NameMap::new();
    assert_eq!(map.insert(String::from("b"), 2), None);
    assert_eq!(map.insert(String::from("a"), 1), None);
    assert_eq!(map.insert(String::from("b"), 3), Some(2), "a write replaces and hands back");
    assert_eq!(map.get("b"), Some(&3));
    assert_eq!(map.get("z"), None);
    assert_eq!(map.len(), 2);
    let keys: Vec<&str> = map.entries().iter().map(|(k, _)| k.as_str()).collect();
    assert_eq!(keys, vec!["a", "b"]);
    assert_eq!(map.remove("a"), Some(1));
    assert_eq!(map.remove("a"), None);
    assert_eq!(map.len(), 1);
}

#[test]
fn a_path_is_joined_as_a_unix_path_is() {
    assert_eq!(path_join("/data", "blocks"), "/data/blocks");
    assert_eq!(path_join("/data/", "blocks"), "/data/blocks");
    assert_eq!(path_join("/data", "/etc/key"), "/etc/key", "an absolute tail replaces the base");
    assert_eq!(path_join("", "blocks"), "blocks");
}

#[test]
fn numbers_render_in_decimal_and_bytes_in_lowercase_hex() {
    assert_eq!(render_u64(0), "0");
    assert_eq!(render_u64(1883), "1883");
    assert_eq!(render_u64(u64::MAX), "18446744073709551615");
    assert_eq!(render_hex(&[0x00, 0xab, 0x0f, 0xff]), "00ab0fff");
    assert_eq!(strip_prefix("Bearer abc", "Bearer "), Some(String::from("abc")));
    assert_eq!(strip_prefix("Basic abc", "Bearer "), None);
}
