use ocr_job_runtime::clock::{now_unix_timestamp_millis, unix_timestamp_millis_of};
use ocr_job_runtime::decimal::{i64_to_decimal, signed_to_decimal, unsigned_to_decimal};
use ocr_job_runtime::root_map::RootMap;
use ocr_job_runtime::scan::{
    ends_with, find_last, is_blank, replace_chars, strip_prefix, text_of_range, trim, trim_where,
};
use ocr_job_runtime::text::{chars_of, clone_opt_text, joined, str_eq, text_le, text_of};

#[test]
fn the_clock_reads_a_time_after_2020() {
    let now = now_unix_timestamp_millis();
    assert!(now > 1_577_836_800_000);
    let later = now_unix_timestamp_millis();
    assert!(later >= now - 60_000);
}

#[test]
fn a_timestamp_is_the_count_of_milliseconds_since_the_epoch() {
    assert_eq!(unix_timestamp_millis_of(Some(0)), 0);
    assert_eq!(unix_timestamp_millis_of(Some(1_700_000_000_123)), 1_700_000_000_123);
    assert_eq!(unix_timestamp_millis_of(Some(i64::MAX as u128)), i64::MAX);
}

#[test]
fn a_clock_before_the_epoch_gives_the_timestamp_zero() {
    assert_eq!(unix_timestamp_millis_of(None), 0);
}

#[test]
fn a_count_beyond_the_range_of_a_timestamp_keeps_its_low_64_bits() {
    assert_eq!(unix_timestamp_millis_of(Some(1u128 << 63)), i64::MIN);
    assert_eq!(unix_timestamp_millis_of(Some((1u128 << 64) + 7)), 7);
    assert_eq!(unix_timestamp_millis_of(Some(u128::MAX)), -1);
    assert_eq!(unix_timestamp_millis_of(Some(u64::MAX as u128 * 1000 + 999)), (u64::MAX as u128 * 1000 + 999) as i64);
}

#[test]
fn strings_and_characters_convert_both_ways() {
    assert_eq!(chars_of("añ日"), vec!['a', 'ñ', '日']);
    assert_eq!(chars_of(""), Vec::<char>::new());
    assert_eq!(text_of(&vec!['a', 'ñ', '日']), "añ日");
    assert_eq!(text_of(&Vec::new()), "");
    assert_eq!(text_of(&chars_of("round trip ✓")), "round trip ✓");
    assert_eq!(text_of_range(&chars_of("añ日本"), 1, 3), "ñ日");
    assert_eq!(text_of_range(&chars_of("abc"), 2, 2), "");
}

#[test]
fn string_equality() {
    assert!(str_eq("", ""));
    assert!(str_eq("job", "job"));
    assert!(!str_eq("job", "jobs"));
    assert!(!str_eq("job", "jab"));
    assert!(!str_eq("é", "e"));
    assert!(str_eq("日本", "日本"));
}

#[test]
fn concatenation_and_copies() {
    assert_eq!(joined("ab", "cd"), "abcd");
    assert_eq!(joined("", ""), "");
    assert_eq!(clone_opt_text(&Some("x".to_string())), Some("x".to_string()));
    assert_eq!(clone_opt_text(&None), None);
}

#[test]
fn string_order_is_that_of_the_standard_library() {
    let samples = ["", "a", "A", "ab", "b", "a b", "a-b", "a/b", "é", "e", "z", "日本", "日", "\u{10000}", "\u{ffff}", "aa"];
    for left in samples {
        for right in samples {
            assert_eq!(text_le(left, right), left <= right);
        }
    }
}

#[test]
fn trimming_removes_white_space_at_both_ends() {
    assert_eq!(trim("  a b  "), "a b");
    assert_eq!(trim("\t\r\nx\n"), "x");
    assert_eq!(trim("x"), "x");
    assert_eq!(trim(""), "");
    assert_eq!(trim("   "), "");
    assert_eq!(trim("\u{a0}\u{3000}é\u{2003}"), "é");
    assert_eq!(trim("_ _"), "_ _");
}

#[test]
fn trimming_agrees_with_the_standard_library() {
    let samples = ["", " ", "a", " a", "a ", " a ", "\u{85}a\u{2028}", "\u{200b}a", "a\u{feff}", "\u{1680}x\u{205f}"];
    for sample in samples {
        assert_eq!(trim(sample), sample.trim());
        assert_eq!(is_blank(sample), sample.trim().is_empty());
    }
}

#[test]
fn trimming_by_a_mask_removes_the_marked_ends() {
    let chars = chars_of("..ab.c.");
    let dots: Vec<bool> = chars.iter().map(|c| *c == '.').collect();
    assert_eq!(trim_where(&chars, &dots), "ab.c");
    assert_eq!(trim_where(&chars, &vec![false; 7]), "..ab.c.");
    assert_eq!(trim_where(&chars, &vec![true; 7]), "");
    assert_eq!(trim_where(&chars, &vec![true, false, true, true, true, false, true]), ".ab.c");
    assert_eq!(trim_where(&Vec::new(), &Vec::new()), "");
}

#[test]
fn suffixes_and_prefixes() {
    assert!(ends_with("notes.md", ".md"));
    assert!(ends_with("notes.md", ""));
    assert!(ends_with(".md", ".md"));
    assert!(!ends_with("md", ".md"));
    assert!(!ends_with("notes.mdx", ".md"));
    assert_eq!(strip_prefix("/data/input/a.png", "/data/input/"), Some("a.png".to_string()));
    assert_eq!(strip_prefix("/data/input/", "/data/input/"), Some(String::new()));
    assert_eq!(strip_prefix("/data/input", "/data/input/"), None);
    assert_eq!(strip_prefix("abc", ""), Some("abc".to_string()));
    assert_eq!(strip_prefix("xabc", "abc"), None);
}

#[test]
fn the_last_occurrence_of_a_character() {
    assert_eq!(find_last(&chars_of("a.b.c"), '.'), Some(3));
    assert_eq!(find_last(&chars_of(".abc"), '.'), Some(0));
    assert_eq!(find_last(&chars_of("abc"), '.'), None);
    assert_eq!(find_last(&chars_of(""), '.'), None);
    assert_eq!(find_last(&chars_of("é.日."), '.'), Some(3));
}

#[test]
fn characters_are_replaced_one_for_one() {
    assert_eq!(replace_chars("a/b\\c", "/\\", '_'), "a_b_c");
    assert_eq!(replace_chars("abc", "", '_'), "abc");
    assert_eq!(replace_chars("", "abc", '_'), "");
    assert_eq!(replace_chars("aaa", "a", 'b'), "bbb");
    assert_eq!(replace_chars("日本語", "本", '_'), "日_語");
}

#[test]
fn unsigned_numbers_in_decimal() {
    assert_eq!(unsigned_to_decimal(0), "0");
    assert_eq!(unsigned_to_decimal(7), "7");
    assert_eq!(unsigned_to_decimal(10), "10");
    assert_eq!(unsigned_to_decimal(1000), "1000");
    assert_eq!(unsigned_to_decimal(4294967295), "4294967295");
    assert_eq!(unsigned_to_decimal(u64::MAX), "18446744073709551615");
}

#[test]
fn signed_numbers_in_decimal() {
    assert_eq!(i64_to_decimal(0), "0");
    assert_eq!(i64_to_decimal(-1), "-1");
    assert_eq!(i64_to_decimal(1700000000123), "1700000000123");
    assert_eq!(i64_to_decimal(i64::MAX), "9223372036854775807");
    assert_eq!(i64_to_decimal(i64::MIN), "-9223372036854775808");
    assert_eq!(signed_to_decimal(-120), "-120");
    assert_eq!(signed_to_decimal(i128::MAX), i128::MAX.to_string());
    assert_eq!(signed_to_decimal(i128::MIN), i128::MIN.to_string());
}

#[test]
fn decimal_agrees_with_the_standard_library() {
    for value in [0i64, 1, 9, 10, 11, 99, 100, 101, 12345, -1, -9, -10, -99, -100, 1 << 40, -(1 << 50)] {
        assert_eq!(i64_to_decimal(value), value.to_string());
    }
    for value in 0..2000u64 {
        assert_eq!(unsigned_to_decimal(value), value.to_string());
    }
}

#[test]
fn a_root_map_holds_each_root_once() {
    let mut map: RootMap<u32> = RootMap::new();
    assert!(map.is_empty());
    assert_eq!(map.insert("/jobs/a".to_string(), 1), None);
    assert_eq!(map.insert("/jobs/b".to_string(), 2), None);
    assert_eq!(map.insert("/jobs/a".to_string(), 3), Some(1));
    assert!(!map.is_empty());
    assert!(map.contains_key("/jobs/a"));
    assert!(!map.contains_key("/jobs/c"));
    assert_eq!(map.get("/jobs/a"), Some(&3));
    assert_eq!(map.get("/jobs/b"), Some(&2));
    assert_eq!(map.get("/jobs/c"), None);
    assert_eq!(map.remove("/jobs/a"), Some(3));
    assert_eq!(map.remove("/jobs/a"), None);
    assert_eq!(map.get("/jobs/b"), Some(&2));
    assert_eq!(map.remove("/jobs/b"), Some(2));
    assert!(map.is_empty());
}
