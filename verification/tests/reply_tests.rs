use select_bot::event::ComponentData;
use select_bot::reply::{failure_reply, provisional_reply, render_values, summary_text};
use select_bot::text::{starts_with_prefix, truncate_chars};

#[test]
fn failure_reply_is_fixed_and_ephemeral() {
    let reply = failure_reply();
    assert_eq!(reply.content.as_deref(), Some("This interaction failed"));
    assert!(reply.embed.is_none());
    assert!(reply.ephemeral);
}

#[test]
fn provisional_reply_is_fixed_and_ephemeral() {
    let reply = provisional_reply();
    assert_eq!(
        reply.content.as_deref(),
        Some("Sending a message with select menus...")
    );
    assert!(reply.embed.is_none());
    assert!(reply.ephemeral);
}

#[test]
fn short_input_is_not_truncated() {
    let out = truncate_chars("resolved: {}", 1000);
    assert_eq!(out, "resolved: {}");
}

#[test]
fn long_input_is_cut_to_the_limit() {
    let long = "a".repeat(1200);
    let out = truncate_chars(&long, 1000);
    assert_eq!(out.chars().count(), 1000);
    assert_eq!(out, "a".repeat(1000));
}

#[test]
fn truncation_counts_characters_not_bytes() {
    let input = "\u{1F415}\u{1F98A}\u{1F408}";
    let out = truncate_chars(input, 2);
    assert_eq!(out, "\u{1F415}\u{1F98A}");
}

#[test]
fn values_render_as_a_quoted_list() {
    assert_eq!(render_values(&Vec::new()), "[]");
    assert_eq!(render_values(&vec!["one".to_owned()]), "[\"one\"]");
    assert_eq!(
        render_values(&vec!["one".to_owned(), "two".to_owned()]),
        "[\"one\", \"two\"]"
    );
}

#[test]
fn summary_text_has_the_exact_expected_form() {
    let data = ComponentData {
        custom_id: "role-select".to_owned(),
        values: vec!["12".to_owned(), "34".to_owned()],
        resolved: "Some(records)".to_owned(),
    };
    let expected = "You interacted with a select menu!\n\
                    - Select menu ID: role-select\n\
                    - Selected Values: `[\"12\", \"34\"]`\n\
                    - Resolved data: `Some(records)`";
    assert_eq!(summary_text(&data), expected);
}

#[test]
fn summary_truncates_only_the_resolved_dump() {
    let data = ComponentData {
        custom_id: "user-select".to_owned(),
        values: vec!["1".to_owned()],
        resolved: "r".repeat(1100),
    };
    let text = summary_text(&data);
    let expected_tail = format!("- Resolved data: `{}`", "r".repeat(1000));
    assert!(text.ends_with(&expected_tail));
    assert!(text.contains("user-select"));
}

#[test]
fn prefix_test_matches_option_names() {
    assert!(starts_with_prefix("user-1", "user-"));
    assert!(starts_with_prefix("channel-2", "channel-"));
    assert!(!starts_with_prefix("user", "user-"));
    assert!(!starts_with_prefix("role-1", "user-"));
    assert!(starts_with_prefix("anything", ""));
}
