use dominion::diff::get_diff;
use dominion::discord::{
    changed_message, failed_message, own_messages, purge_anchor, startup_message, status_message,
    trim, TRIM_LIMIT,
};
use dominion::email::code_block;
use dominion::mail::{changed_content, changed_subject, failed_content, startup_content};
use dominion::notify::HeartbeatItem;

#[test]
fn unified_diff_of_one_changed_line() {
    assert_eq!(get_diff("a\nb\nc\n", "a\nB\nc\n"), "@@ -0,3 +0,3 @@\n a\n-b\n+B\n c\n");
}

#[test]
fn unified_diff_adds_missing_newlines() {
    assert_eq!(get_diff("x", "y"), "@@ -0,1 +0,1 @@\n-x\n+y\n");
    assert_eq!(get_diff("same\n", "same\n"), "");
}

#[test]
fn unified_diff_keeps_five_lines_of_context() {
    let old: String = (1..=20).map(|i| format!("{i}\n")).collect();
    let new = old.replace("10\n", "ten\n");
    let diff = get_diff(&old, &new);
    assert!(diff.starts_with("@@ -4,11 +4,11 @@\n 5\n"));
    assert!(diff.contains("-10\n+ten\n"));
}

#[test]
fn trim_cuts_by_bytes_at_char_boundaries() {
    assert_eq!(trim("abcdef", 3), ("abc", "\n(...)", true));
    assert_eq!(trim("abc", 3), ("abc", "", false));
    assert_eq!(trim("ééé", 2), ("é", "\n(...)", true));
    assert_eq!(trim("éa", 2), ("é", "\n(...)", true));
    assert_eq!(trim("éa", 3), ("éa", "", false));
    assert_eq!(trim("éa", 1), ("", "\n(...)", true));
}

#[test]
fn discord_texts() {
    assert_eq!(
        startup_message(&["https://a".to_string(), "https://b".to_string()]),
        "Started listening on the following URLs:\n- https://a\n- https://b"
    );
    assert_eq!(
        changed_message("https://a", "-x\n+y\n"),
        ("Found changes in https://a\n```patch\n-x\n+y\n```".to_string(), false)
    );
    let long = "d".repeat(TRIM_LIMIT + 1);
    let (text, cut) = changed_message("u", &long);
    assert!(cut);
    assert!(text.ends_with("d\n(...)```"));
    assert_eq!(
        failed_message("u", "why", Some(503), &Some("maintenance".to_string())),
        ("Failed to fetch u with status __503__ and body:\n```\nmaintenance\n```".to_string(), false)
    );
    let wide = "é".repeat(1000);
    let (text, cut) = failed_message("u", "r", Some(500), &Some(wide));
    assert!(cut);
    assert!(text.ends_with(&format!("{}\n(...)\n```", "é".repeat(900))));
    assert_eq!(
        failed_message("u", "timeout", None, &None),
        ("Failed to fetch u because of:\n```\ntimeout\n```".to_string(), false)
    );
}

#[test]
fn discord_status_message() {
    let items = vec![
        HeartbeatItem { url: "https://a".to_string(), last_update: None, last_change: None, last_failure: None },
        HeartbeatItem {
            url: "https://b".to_string(),
            last_update: Some(20),
            last_change: Some(10),
            last_failure: Some(15),
        },
    ];
    assert_eq!(
        status_message(&items, 30),
        "**Last updated <t:30:R>**\n\nhttps://a\nLast updated never\n\nhttps://b\nLast updated <t:20:R>, changed <t:10:R>, failed <t:15:R>\n"
    );
}

#[test]
fn purge_picks_own_messages() {
    assert_eq!(purge_anchor(Some(5), Some(9)), Some(5));
    assert_eq!(purge_anchor(None, Some(9)), Some(9));
    assert_eq!(purge_anchor(None, None), None);
    assert_eq!(own_messages(&vec![(1, 10), (2, 11), (1, 12)], 1), vec![10, 12]);
}

#[test]
fn mail_texts() {
    assert_eq!(
        startup_content(&["https://a".to_string()]),
        "<p>Started listening on the following URLs:</p><ol><li>https://a</li></ol>"
    );
    assert_eq!(
        changed_content("https://a"),
        "The following changes were found in <a target=\"_blank\" href=\"https://a\">https://a</a>"
    );
    assert_eq!(changed_subject("https://a"), "Changes in https://a");
    assert_eq!(failed_content("https://a", "boom"), "<p>Failed to fetch https://a</p><p>boom</p>");
}

#[test]
fn mail_code_block_of_replaced_line() {
    let block = code_block("x\n", "y y\n");
    let lines: Vec<(String, Option<usize>, Option<usize>, String)> = block
        .lines
        .into_iter()
        .map(|l| (l.kind, l.old_index, l.new_index, l.content))
        .collect();
    assert_eq!(
        lines,
        vec![
            ("summary".to_string(), None, None, "@@ -0,1 +0,1 @@".to_string()),
            ("deletion".to_string(), Some(0), None, "-x\n".to_string()),
            ("addition".to_string(), None, Some(0), "+y&nbsp;y\n".to_string()),
        ]
    );
}
