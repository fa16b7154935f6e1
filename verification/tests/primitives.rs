use sisar::bursts::{BurstKey, BurstList, BurstPaths};
use sisar::float64::Float64;
use sisar::literal::writes_float;
use sisar::number::{decimal_i64, decimal_u64, parse_i64, parse_u32, parse_u64};
use sisar::order::{at_most, sort_texts};
use sisar::paths::{join, join2, parent};
use sisar::split::{lines, split_whitespace, trim};
use sisar::text::{
    contains, ends_with, first_bytes, is_whitespace, join_texts, opt_text_eq, replace_all, starts_with,
    strip_prefix, text_eq,
};
use sisar::time::{first_of_month, month_start, Timestamp};

fn texts(all: &[&str]) -> Vec<String> {
    all.iter().map(|s| s.to_string()).collect()
}

fn float(value: f64) -> Float64 {
    Float64 { bits: value.to_bits() }
}

#[test]
fn texts_are_compared_and_searched() {
    assert!(text_eq("añb", "añb"));
    assert!(!text_eq("añb", "anb"));
    assert!(opt_text_eq(&None, &None));
    assert!(!opt_text_eq(&None, &Some(String::new())));
    assert!(opt_text_eq(&Some("x".to_string()), &Some("x".to_string())));
    for (hay, needle) in [("banana", "nan"), ("banana", ""), ("", ""), ("ab", "abc"), ("ñu", "u")] {
        assert_eq!(contains(hay, needle), hay.contains(needle));
        assert_eq!(starts_with(hay, needle), hay.starts_with(needle));
        assert_eq!(ends_with(hay, needle), hay.ends_with(needle));
    }
    assert_eq!(strip_prefix("Bearer x", "Bearer ").as_deref(), Some("x"));
    assert_eq!(strip_prefix("bearer x", "Bearer "), None);
}

#[test]
fn texts_are_joined_and_replaced() {
    assert_eq!(join_texts(&texts(&["a", "b", "c"]), ", "), "a, b, c");
    assert_eq!(join_texts(&texts(&[]), ", "), "");
    assert_eq!(replace_all("a.SAFE.SAFE", ".SAFE", ".zip"), "a.zip.zip");
    assert_eq!(replace_all("aaa", "aa", "b"), "ba");
    assert_eq!(first_bytes("2024-01-02T03", 10).as_deref(), Some("2024-01-02"));
    assert_eq!(first_bytes("2024", 10), None);
    assert_eq!(first_bytes("ñandu", 1), None);
    assert_eq!(first_bytes("ñandu", 2).as_deref(), Some("ñ"));
}

#[test]
fn texts_are_split_as_std_splits_them() {
    for s in ["", "  ", " a  b\tc\n", "one", "\u{a0}x\u{2003}y", "a\r\nb\n\nc", "\n", "x\r", "x\r\n"] {
        assert_eq!(trim(s), s.trim());
        assert_eq!(split_whitespace(s), s.split_whitespace().collect::<Vec<_>>());
        assert_eq!(lines(s), s.lines().collect::<Vec<_>>());
    }
}

#[test]
fn numbers_are_printed_and_read() {
    for n in [0u64, 7, 10, 12345, u64::MAX] {
        assert_eq!(decimal_u64(n), format!("{}", n));
        assert_eq!(parse_u64(&decimal_u64(n)), Some(n));
    }
    for n in [0i64, -1, 42, i64::MAX, i64::MIN] {
        assert_eq!(decimal_i64(n), format!("{}", n));
        assert_eq!(parse_i64(&decimal_i64(n)), Some(n));
    }
    for s in ["", "+", "-", "+5", "-5", "--5", "5 ", "007", "4294967295", "4294967296",
        "18446744073709551616", "-9223372036854775809", "-0"]
    {
        assert_eq!(parse_u32(s), s.parse::<u32>().ok());
        assert_eq!(parse_u64(s), s.parse::<u64>().ok());
        assert_eq!(parse_i64(s), s.parse::<i64>().ok());
    }
}

#[test]
fn float_literals_are_recognised() {
    for s in ["", "1", "1.", ".5", ".", "1.5e3", "1e", "e3", "-1.5", "+2", "+-2", "inf", "-Infinity",
        "NaN", "nano", "1e+5", "1e-5", "1.2.3", " 1", "0x10", "1_0"]
    {
        assert_eq!(writes_float(s), s.parse::<f64>().is_ok(), "{}", s);
    }
}

#[test]
fn texts_are_sorted_as_std_sorts_them() {
    let mut all = texts(&["IW3", "IW1", "a", "", "Z", "IW10", "ñ", "IW1"]);
    let ours = sort_texts(all.iter().map(|s| s.to_string()).collect());
    all.sort();
    assert_eq!(ours, all);
    assert!(at_most("IW1", "IW2"));
    assert!(at_most("IW1", "IW1"));
    assert!(!at_most("IW2", "IW10"));
}

#[test]
fn paths_are_joined() {
    assert_eq!(join("/jobs", "a"), "/jobs/a");
    assert_eq!(join("/jobs/", "a"), "/jobs/a");
    assert_eq!(join("", "a"), "a");
    assert_eq!(join("/jobs", "/a"), "/a");
    assert_eq!(join("/jobs", ""), "/jobs/");
    assert_eq!(join2("/job", "series", "geo"), "/job/series/geo");
}

#[test]
fn floats_are_ordered_as_the_hardware_orders_them() {
    let all = [0.0, -0.0, 1.0, -1.0, 0.01, 0.1, 5e-324, -5e-324, f64::MAX, f64::MIN, f64::INFINITY,
        f64::NEG_INFINITY, f64::NAN, 89.99999999999999, 90.0, 90.00000000000001, -180.0, 180.0];
    for a in all {
        for b in all {
            assert_eq!(float(a).le(float(b)), a <= b);
            assert_eq!(float(a).lt(float(b)), a < b);
        }
        assert_eq!(float(a).nan(), a.is_nan());
        assert_eq!(float(a).is_latitude(), (-90.0..=90.0).contains(&a));
        assert_eq!(float(a).is_longitude(), (-180.0..=180.0).contains(&a));
    }
}

#[test]
fn gibibytes_become_bytes() {
    for gb in [0.0, -0.0, 1.0, 4.0, 16.0, 32.0, 0.5, 1.1, -2.5, 1e-10, 1e12, -1e30, f64::NAN,
        f64::INFINITY, f64::NEG_INFINITY, 8589934591.9, 5e-324]
    {
        let bytes = (gb * 1024.0 * 1024.0 * 1024.0) as i64;
        assert_eq!(float(gb).gibibytes_to_bytes(), bytes, "{}", gb);
    }
}

#[test]
fn times_are_ordered() {
    let a = Timestamp { secs: 5, nanos: 1 };
    assert!(a.before(&Timestamp { secs: 5, nanos: 2 }));
    assert!(a.before(&Timestamp { secs: 6, nanos: 0 }));
    assert!(!a.before(&Timestamp { secs: 5, nanos: 1 }));
    assert!(!a.before(&Timestamp { secs: -5, nanos: 9 }));
}

#[test]
fn burst_lists_hold_each_burst_once() {
    let key = |index: &str| BurstKey {
        granule: "S1".to_string(),
        subswath: "IW1".to_string(),
        polarization: "VV".to_string(),
        index: index.to_string(),
    };
    let paths = |name: &str| BurstPaths {
        data: format!("{}.tiff", name),
        metadata: format!("{}.xml", name),
    };
    let mut list = BurstList::new();
    assert!(list.get(&key("1")).is_none());
    list.insert(key("1"), paths("a"));
    list.insert(key("2"), paths("b"));
    list.insert(key("1"), paths("c"));
    assert_eq!(list.items.len(), 2);
    assert_eq!(list.get(&key("1")).map(|p| p.data.as_str()), Some("c.tiff"));
    assert_eq!(list.get(&key("2")).map(|p| p.metadata.as_str()), Some("b.xml"));
    assert!(!key("1").same(&key("2")));
}

#[test]
fn whitespace_is_the_unicode_property() {
    for c in '\0'..=char::MAX {
        assert_eq!(is_whitespace(c), c.is_whitespace(), "{:?}", c);
    }
}

fn std_parent(path: &str) -> String {
    match std::path::Path::new(path).parent() {
        Some(parent) => parent.to_str().unwrap().to_string(),
        None => ".".to_string(),
    }
}

#[test]
fn paths_lie_in_directories() {
    for path in ["/job/results/out.png", "/job/./out.png", "out.png", "../a.b/./..", "a/./b/."] {
        assert_eq!(parent(path), std_parent(path), "{:?}", path);
    }
    assert_eq!(parent("/job/results/out.png"), "/job/results");
    assert_eq!(parent("/job/./out.png"), "/job");
    assert_eq!(parent("/a/."), "/");
    assert_eq!(parent("./a"), ".");
    assert_eq!(parent("."), "");
    assert_eq!(parent("/"), ".");
    assert_eq!(parent(""), ".");
    let mut paths = vec![String::new()];
    let mut from = 0;
    for _ in 0..8 {
        let to = paths.len();
        for i in from..to {
            for c in ['/', '.', 'a'] {
                let longer = format!("{}{}", paths[i], c);
                paths.push(longer);
            }
        }
        from = to;
    }
    for path in &paths {
        assert_eq!(parent(path), std_parent(path), "{:?}", path);
    }
}

#[test]
fn months_begin_with_their_first_day() {
    assert_eq!(first_of_month(2024, 2), Some(Timestamp { secs: 1706745600, nanos: 0 }));
    assert_eq!(first_of_month(1969, 12), Some(Timestamp { secs: -2678400, nanos: 0 }));
    assert_eq!(first_of_month(2024, 13), None);
    let eve = Timestamp { secs: -1, nanos: 999_999_999 };
    assert_eq!(month_start(&eve), Some(Timestamp { secs: -2678400, nanos: 0 }));
    assert_eq!(month_start(&Timestamp { secs: 0, nanos: u32::MAX }), None);
}
