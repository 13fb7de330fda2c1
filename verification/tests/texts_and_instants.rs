use taskd::calendar::{clock_text, date_text, rfc3339_of, CivilDate, Timestamp};
use taskd::artifact_records::ArtifactRecord;
use taskd::json::JsonValue;
use taskd::order::{place, Place};
use taskd::sorting::sort_by_key;
use taskd::tally::{count_texts, sum_counts};
use taskd::text::{
    concat3, concat5, decimal_text, is_blank, is_white_space, join_texts, pad_right,
    signed_text, trim_text, zero_padded_text,
};
use taskd::text_map::{overlay, same_env, EnvMap};

#[test]
fn numbers_are_written_in_decimal() {
    for n in [0u64, 1, 9, 10, 255, 1_000_000, u64::MAX] {
        assert_eq!(decimal_text(n), n.to_string());
    }
    for n in [0i64, -1, 42, i64::MIN, i64::MAX] {
        assert_eq!(signed_text(n), n.to_string());
    }
    assert_eq!(zero_padded_text(7, 4), "0007");
    assert_eq!(zero_padded_text(12345, 4), "12345");
}

#[test]
fn white_space_is_that_of_the_standard() {
    for code in 0u32..0x11_0000 {
        if let Some(c) = char::from_u32(code) {
            assert_eq!(is_white_space(c), c.is_whitespace(), "{code:x}");
        }
    }
    for text in ["", " ", " a b \n", "\u{2003}x\u{a0}", "\t\r\n", "abc"] {
        assert_eq!(trim_text(text), text.trim());
        assert_eq!(is_blank(text), text.trim().is_empty());
    }
}

#[test]
fn texts_are_put_together() {
    assert_eq!(concat3("a", "", "c"), "ac");
    assert_eq!(concat5("a", "b", "c", "d", "e"), "abcde");
    let parts = vec!["x".to_string(), "y".to_string(), "z".to_string()];
    assert_eq!(join_texts(&parts, ", "), "x, y, z");
    assert_eq!(join_texts(&vec![], ", "), "");
    assert_eq!(pad_right("ab", 4), format!("{:<4}", "ab"));
    assert_eq!(pad_right("abcde", 4), format!("{:<4}", "abcde"));
    assert_eq!(pad_right("\u{4e2d}", 3), format!("{:<3}", "\u{4e2d}"));
}

#[test]
fn texts_are_ordered_like_strings() {
    let samples = ["", "a", "ab", "b", "A", "\u{e9}", "\u{1f600}", "\u{ffff}", "a\u{0}"];
    for a in samples {
        for b in samples {
            let expected = if a < b {
                Place::Before
            } else if a == b {
                Place::Same
            } else {
                Place::After
            };
            assert_eq!(place(a, b), expected, "{a:?} {b:?}");
        }
    }
}

#[test]
fn maps_keep_their_keys_in_order() {
    let mut map = EnvMap::new();
    for key in ["b", "a", "c", "a"] {
        map.insert(key.to_string(), format!("{key}{}", map.len()));
    }
    let keys: Vec<&str> = (0..map.len()).map(|i| map.key(i).as_str()).collect();
    assert_eq!(keys, vec!["a", "b", "c"]);
    assert_eq!(map.get("a").map(|v| v.as_str()), Some("a3"));
    assert_eq!(map.value(1), "b0");
    let copy = map.clone();
    assert!(same_env(&map, &copy));
    assert_eq!(map.remove("b").as_deref(), Some("b0"));
    assert!(map.remove("b").is_none());
    assert!(!same_env(&map, &copy));
    let over = overlay(&copy, &map);
    assert!(same_env(&over, &copy));
}

#[test]
fn tallies_count_every_text_once() {
    let items: Vec<String> = ["x", "y", "x", "x"].iter().map(|t| t.to_string()).collect();
    let counts = count_texts(&items);
    assert_eq!(counts.get("x"), Some(&3));
    assert_eq!(counts.get("y"), Some(&1));
    assert_eq!(sum_counts(&counts, &items), 4);
}

#[test]
fn instants_are_shown_like_those_of_the_calendar() {
    for (secs, nanos) in [
        (0i64, 0u32),
        (1_773_223_201, 0),
        (1_773_223_201, 120_000_000),
        (-1, 999_999_999),
        (-62_135_596_801, 0),
        (253_402_300_800, 0),
        (8_210_266_876_799, 999_999_999),
        (-8_334_601_228_800, 0),
    ] {
        let mine = Timestamp::new(secs, nanos).expect("an instant");
        let theirs = chrono::DateTime::<chrono::Utc>::from_timestamp(secs, nanos).expect("instant");
        assert_eq!(rfc3339_of(&mine), theirs.to_rfc3339());
        assert_eq!(clock_text(&mine), theirs.format("%Y-%m-%d %H:%M:%S").to_string());
    }
    assert!(Timestamp::new(8_210_266_876_800, 0).is_none());
    assert!(Timestamp::new(-8_334_601_228_801, 0).is_none());
    assert!(Timestamp::new(0, 2_000_000_000).is_none());
    assert_eq!(
        chrono::DateTime::<chrono::Utc>::MIN_UTC.timestamp(),
        taskd::calendar::FIRST_SECOND
    );
    assert_eq!(
        chrono::DateTime::<chrono::Utc>::MAX_UTC.timestamp(),
        taskd::calendar::LAST_SECOND
    );
}

#[test]
fn instants_are_compared_and_advanced() {
    let early = Timestamp::new(10, 5).expect("an instant");
    let late = Timestamp::new(10, 6).expect("an instant");
    assert!(late.is_after(&early));
    assert!(!early.is_after(&late));
    assert!(!early.is_after(&early.clone()));
    let next = early.plus_day().expect("in range");
    assert_eq!((next.secs(), next.nanos()), (86_410, 5));
    assert!(Timestamp::new(8_210_266_876_799, 0).expect("last").plus_day().is_none());
}

#[test]
fn dates_are_written_like_those_of_the_calendar() {
    for (year, month, day) in
        [(2026, 3, 12), (1, 1, 1), (0, 12, 31), (-1, 2, 3), (9999, 12, 31), (10_000, 1, 1)]
    {
        let theirs = chrono::NaiveDate::from_ymd_opt(year, month, day).expect("a date");
        assert_eq!(date_text(CivilDate { year, month, day }), theirs.to_string());
    }
}

fn record(key: &str, summary: &str) -> ArtifactRecord {
    ArtifactRecord {
        schema_version: 1,
        artifact_id: "a".to_string(),
        artifact_date: "2026-03-12".to_string(),
        run_id: "r".to_string(),
        collector_id: key.to_string(),
        host: "h".to_string(),
        collected_at: Timestamp::new(0, 0).expect("an instant"),
        status: "ok".to_string(),
        summary: summary.to_string(),
        content_type: "text/plain".to_string(),
        payload: JsonValue::Null,
    }
}

#[test]
fn sorting_keeps_the_order_of_equal_keys() {
    let sorted = sort_by_key(vec![
        record("b", "first"),
        record("a", "second"),
        record("b", "third"),
        record("a", "fourth"),
    ]);
    let summaries: Vec<&str> = sorted.iter().map(|item| item.summary.as_str()).collect();
    assert_eq!(summaries, vec!["second", "fourth", "first", "third"]);
}
