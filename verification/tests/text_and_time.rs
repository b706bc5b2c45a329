use hudi_write::ordered_set::OrderedSet;
use hudi_write::registry::Registry;
use hudi_write::text::{
    characters, contains, decimal_text, ends_with, list_text, same_text, starts_with_digit,
    text_at_most, text_less,
};
use hudi_write::text_map::TextMap;
use hudi_write::time::{
    millis_between, now, now_ms, reading_ms, saturating_difference, saturating_product, saturating_sum,
    Duration, Timestamp,
};

const WORDS: [&str; 9] = [
    "",
    "0",
    "20260824000000000",
    "20260824000000001",
    "2026082400000000",
    "Z",
    "a",
    "\u{e9}",
    "\u{10348}",
];

#[test]
fn text_order_is_that_of_strings() {
    for a in WORDS {
        assert!(!text_less(a, a));
        assert!(text_at_most(a, a));
        for b in WORDS {
            assert_eq!(text_less(a, b), a < b);
            assert_eq!(text_at_most(a, b), a <= b);
            assert_eq!(same_text(a, b), a == b);
            assert!(text_less(a, b) || text_less(b, a) || same_text(a, b));
            for c in WORDS {
                if text_less(a, b) && text_less(b, c) {
                    assert!(text_less(a, c));
                }
                if text_at_most(a, b) && text_at_most(b, c) {
                    assert!(text_at_most(a, c));
                }
            }
        }
    }
}

#[test]
fn parts_of_texts() {
    assert_eq!(characters("a\u{e9}"), vec!['a', '\u{e9}']);
    assert!(ends_with("1.commit.requested", ".requested"));
    assert!(ends_with("x", ""));
    assert!(!ends_with("requested", ".requested"));
    assert!(!ends_with("1.requested.tmp", ".requested"));
    assert!(contains("1.compaction.requested", ".compaction."));
    assert!(contains("x", ""));
    assert!(!contains("1.logcompaction.requested", ".compaction."));
    assert!(!contains("", "x"));
    assert!(starts_with_digit("0a"));
    assert!(!starts_with_digit(""));
    assert!(!starts_with_digit("a0"));
    assert!(!starts_with_digit("\u{0663}"));
}

#[test]
fn numbers_and_lists_in_words() {
    assert_eq!(decimal_text(0), "0");
    assert_eq!(decimal_text(1_090), "1090");
    assert_eq!(decimal_text(u128::MAX), u128::MAX.to_string());
    assert_eq!(list_text(&vec![]), "");
    assert_eq!(list_text(&vec!["a".to_string()]), "a");
    assert_eq!(
        list_text(&vec!["".to_string(), "b".to_string(), "c".to_string()]),
        ", b, c"
    );
}

#[test]
fn saturating_arithmetic() {
    assert_eq!(saturating_sum(2, 3), 5);
    assert_eq!(saturating_sum(i64::MAX, 1), i64::MAX);
    assert_eq!(saturating_sum(i64::MIN, -1), i64::MIN);
    assert_eq!(saturating_difference(2, 3), -1);
    assert_eq!(saturating_difference(i64::MIN, 1), i64::MIN);
    assert_eq!(saturating_difference(0, i64::MIN), i64::MAX);
    assert_eq!(saturating_product(-4, 5), -20);
    assert_eq!(saturating_product(i64::MAX, 2), i64::MAX);
    assert_eq!(saturating_product(i64::MIN, 2), i64::MIN);
    assert_eq!(saturating_product(i64::MIN, -1), i64::MAX);
    assert_eq!(saturating_product(0, i64::MIN), 0);
}

#[test]
fn durations() {
    let d = Duration::new(3, 456_789_012);
    assert_eq!(d.as_secs(), 3);
    assert_eq!(d.subsec_nanos(), 456_789_012);
    assert_eq!(d.as_millis(), 3_456);
    assert_eq!(d.millis_i64(), 3_456);
    assert!(!d.is_zero());
    assert!(Duration::from_millis(0).is_zero());
    assert!(Duration::from_millis(999).shorter_than(&Duration::from_secs(1)));
    assert!(!Duration::from_millis(1_000).shorter_than(&Duration::from_secs(1)));
    assert_eq!(Duration::from_millis(1_000), Duration::from_secs(1));
    assert_eq!(d.saturating_mul(0), Duration::from_secs(0));
    assert_eq!(
        Duration::new(1, 600_000_000).saturating_mul(10),
        Duration::from_secs(16)
    );
    let longest = Duration::new(u64::MAX, 999_999_999);
    assert_eq!(Duration::from_secs(u64::MAX).saturating_mul(10), longest);
    assert_eq!(longest.saturating_mul(1), longest);
    assert_eq!(Duration::from_secs(u64::MAX).millis_i64(), i64::MAX);
    assert_eq!(
        Duration::from_secs(u64::MAX).as_millis(),
        u64::MAX as u128 * 1_000
    );
}

#[test]
fn time_between_timestamps() {
    let at = |secs: i64, nanos: u32| Timestamp { secs, nanos };
    assert_eq!(millis_between(&at(10, 0), &at(12, 5_000_000)), 2_005);
    assert_eq!(millis_between(&at(12, 5_000_000), &at(10, 0)), -2_005);
    assert_eq!(millis_between(&at(10, 999_999), &at(11, 0)), 999);
    assert_eq!(millis_between(&at(11, 0), &at(10, 999_999)), -999);
    assert_eq!(millis_between(&at(-1, 500_000_000), &at(0, 0)), 500);
    assert_eq!(millis_between(&at(10, 1), &at(10, 0)), 0);
}

#[test]
fn chrono_agrees_on_the_time_between_timestamps() {
    let pairs = [
        ((10, 0), (12, 5_000_000)),
        ((12, 5_000_000), (10, 0)),
        ((10, 999_999), (11, 0)),
        ((11, 0), (10, 999_999)),
        ((-86_401, 500_000_000), (0, 0)),
        ((59, 1_500_000_000), (60, 0)),
        ((59, 1_500_000_000), (61, 0)),
        ((-1, 1_200_000_000), (0, 1)),
        ((59, 1_500_000_000), (59, 0)),
        ((119, 1_999_999_999), (0, 0)),
        ((60, 0), (59, 1_500_000_000)),
        ((61, 7), (59, 1_500_000_000)),
        ((0, 0), (59, 1_500_000_000)),
        ((59, 1_250_000_000), (119, 1_500_000_000)),
        ((119, 1_250_000_000), (59, 1_500_000_000)),
        ((86_400, 5), (86_399, 1_999_999_999)),
        ((-86_341, 1_500_000_000), (59, 1_000_000_000)),
    ];
    for ((secs_a, nanos_a), (secs_b, nanos_b)) in pairs {
        let a = chrono::DateTime::<chrono::Utc>::from_timestamp(secs_a, nanos_a).unwrap();
        let b = chrono::DateTime::<chrono::Utc>::from_timestamp(secs_b, nanos_b).unwrap();
        assert_eq!(
            millis_between(
                &Timestamp {
                    secs: secs_a,
                    nanos: nanos_a
                },
                &Timestamp {
                    secs: secs_b,
                    nanos: nanos_b
                }
            ),
            b.signed_duration_since(a).num_milliseconds() as i128
        );
    }
}

#[test]
fn the_clock_reads_the_time() {
    let before = std::time::SystemTime::now()
        .duration_since(std::time::UNIX_EPOCH)
        .unwrap()
        .as_millis() as i64;
    let millis = now_ms();
    let stamp = now();
    let after = std::time::SystemTime::now()
        .duration_since(std::time::UNIX_EPOCH)
        .unwrap()
        .as_millis() as i64;
    assert!(before <= millis && millis <= after);
    let stamp_ms = stamp.secs * 1_000 + (stamp.nanos / 1_000_000) as i64;
    assert!(before <= stamp_ms && stamp_ms <= after);
    assert!(stamp.nanos < 1_000_000_000);
    assert_eq!(reading_ms(&stamp), stamp_ms);
    assert_eq!(
        reading_ms(&Timestamp {
            secs: 7,
            nanos: 89_999_999
        }),
        7_089
    );
}

#[test]
fn a_text_map_keeps_the_latest_value() {
    let map = TextMap::new(vec![
        ("k".to_string(), "1".to_string()),
        ("l".to_string(), "2".to_string()),
        ("k".to_string(), "3".to_string()),
    ]);
    assert_eq!(map.get("k").unwrap(), "3");
    assert_eq!(map.get("l").unwrap(), "2");
    assert!(map.get("m").is_none());
}

#[test]
fn a_set_forgets_the_order_of_insertion() {
    let mut a: OrderedSet<String> = OrderedSet::new();
    let mut b: OrderedSet<String> = OrderedSet::new();
    for word in WORDS {
        a.insert(word.to_string());
    }
    for word in WORDS.iter().rev() {
        b.insert(word.to_string());
        b.insert(word.to_string());
    }
    assert_eq!(a, b);
    assert!(a.contains(&"Z".to_string()));
    assert!(!a.contains(&"ZZ".to_string()));
    let mut sorted: Vec<String> = WORDS.iter().map(|word| word.to_string()).collect();
    sorted.sort();
    assert_eq!(a.intersection(&b), sorted);
}

#[test]
fn shared_keys_come_in_order() {
    let pair = |a: &str, b: &str| (a.to_string(), b.to_string());
    let mut a: OrderedSet<(String, String)> = OrderedSet::new();
    let mut b: OrderedSet<(String, String)> = OrderedSet::new();
    for key in [pair("q", "1"), pair("p", "2"), pair("p", "1"), pair("", "9")] {
        a.insert(key);
    }
    for key in [pair("p", "2"), pair("q", "1"), pair("q", "2"), pair("p", "1")] {
        b.insert(key);
    }
    assert_eq!(
        a.intersection(&b),
        vec![pair("p", "1"), pair("p", "2"), pair("q", "1")]
    );
    assert_eq!(a.intersection(&b), b.intersection(&a));
    assert!(a.intersection(&OrderedSet::new()).is_empty());
}

#[test]
fn a_registry_holds_one_value_per_name() {
    let mut registry: Registry<u32> = Registry::new();
    assert!(registry.get("a").is_none());
    registry.insert("a".to_string(), 1);
    registry.insert("b".to_string(), 2);
    registry.insert("a".to_string(), 3);
    assert_eq!(registry.get("a"), Some(&3));
    assert_eq!(registry.get("b"), Some(&2));
    assert_eq!(registry.remove("a"), Some(3));
    assert_eq!(registry.remove("a"), None);
    assert!(registry.get("a").is_none());
    assert_eq!(registry.get("b"), Some(&2));
}
