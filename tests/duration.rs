use dominion::config::format_duration;
use dominion::duration::Duration;
use dominion::text::{contains_text, push_decimal, split_once_char};

#[test]
fn format_duration_values() {
    assert_eq!(format_duration(&Duration::from_secs(0)), "");
    assert_eq!(format_duration(&Duration::from_secs(90)), "1m30s");
    assert_eq!(format_duration(&Duration::from_secs(600)), "10m");
    assert_eq!(format_duration(&Duration::new(0, 250_000_000)), "250ms");
    let all = 31_104_000 + 2_592_000 + 604_800 + 86_400 + 3_600 + 60 + 1;
    assert_eq!(
        format_duration(&Duration::new(all, 1_001_001)),
        "1y1mon1w1d1h1m1s1ms1us1ns"
    );
    assert_eq!(format_duration(&Duration::from_secs(2 * 86_400 + 5)), "2d5s");
}

#[test]
fn decimal_rendering() {
    let mut s = String::from("n=");
    push_decimal(&mut s, 0);
    push_decimal(&mut s, 1234567890);
    assert_eq!(s, "n=01234567890");
}

#[test]
fn text_search() {
    assert!(contains_text("application/json", "json"));
    assert!(!contains_text("text/html", "json"));
    assert!(contains_text("abc", ""));
    assert_eq!(split_once_char("a=b=c", '='), Some(("a".to_string(), "b=c".to_string())));
    assert_eq!(split_once_char("abc", '='), None);
}

