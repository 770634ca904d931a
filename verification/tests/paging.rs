use docnav::paging::{paginate_entries, paginate_text, Entry};

fn entry(ref_id: &str, display: &str) -> Entry {
    Entry { ref_id: ref_id.to_string(), display: display.to_string() }
}

#[test]
fn paging_text_paging_counts_unicode_characters() {
    let (page, next) = paginate_text("a界b", 1, 2);
    assert_eq!(page, "a界");
    assert_eq!(next, Some(2));

    let (page, next) = paginate_text("a界b", 2, 2);
    assert_eq!(page, "b");
    assert_eq!(next, None);
}

#[test]
fn paging_oversized_entry_keeps_full_ref_and_still_advances() {
    let entries = vec![entry("L1:very-long-reference", "very long display text"), entry("L2:next", "next")];

    let (page, next) = paginate_entries(&entries, 1, 5);
    assert_eq!(page.len(), 1);
    assert_eq!(page[0].ref_id, "L1:very-long-reference");
    assert_eq!(page[0].display, ".");
    assert_eq!(next, Some(2));
}

#[test]
fn paging_truncated_display_includes_ellipsis_marker() {
    let entries = vec![
        entry("R:longref1", "A very long display text that should be truncated"),
        entry("X", "next"),
    ];

    let (page, next) = paginate_entries(&entries, 1, 30);
    assert_eq!(page.len(), 1);
    assert_eq!(page[0].ref_id, "R:longref1");
    assert!(page[0].display.ends_with("..."), "truncated display must end with '...' marker, got: '{}'", page[0].display);
    assert_eq!(next, Some(2));

    let cost = page[0].ref_id.chars().count() + page[0].display.chars().count();
    assert!(cost <= 30, "truncated entry cost {cost} exceeds limit 30");
}

#[test]
fn paging_unicode_truncated_display_includes_marker() {
    let entries = vec![entry("R:longref1", "界世界世界世界世界世界世界世界世界世界世"), entry("X", "next")];

    let (page, next) = paginate_entries(&entries, 1, 25);
    assert_eq!(page.len(), 1);
    assert_eq!(page[0].ref_id, "R:longref1");
    assert!(page[0].display.ends_with("..."), "unicode truncated display must end with '...' marker");
    assert_eq!(next, Some(2));

    let cost = page[0].ref_id.chars().count() + page[0].display.chars().count();
    assert!(cost <= 25, "unicode truncated entry cost {cost} exceeds limit 25");
}

#[test]
fn paging_tiny_budget_no_room_for_marker_still_truncates() {
    let entries = vec![entry("R:longref1", "a very long display text"), entry("X", "next")];

    let (page, next) = paginate_entries(&entries, 1, 11);
    assert_eq!(page.len(), 1);
    assert_eq!(page[0].ref_id, "R:longref1");
    assert!(!page[0].display.is_empty(), "display should not be empty");

    let cost = page[0].ref_id.chars().count() + page[0].display.chars().count();
    assert!(cost <= 11, "tiny budget entry cost {cost} exceeds limit 11");
    assert_eq!(next, Some(2));
}

#[test]
fn tests_text_paging_counts_unicode_characters() {
    let (page, next) = paginate_text("a界b", 1, 2);
    assert_eq!(page, "a界");
    assert_eq!(next, Some(2));

    let (page, next) = paginate_text("a界b", 2, 2);
    assert_eq!(page, "b");
    assert_eq!(next, None);
}

#[test]
fn tests_oversized_entry_keeps_full_ref_and_still_advances() {
    let entries = vec![entry("L1:very-long-reference", "very long display text"), entry("L2:next", "next")];

    let (page, next) = paginate_entries(&entries, 1, 5);
    assert_eq!(page.len(), 1);
    assert_eq!(page[0].ref_id, "L1:very-long-reference");
    assert_eq!(page[0].display, ".");
    assert_eq!(next, Some(2));
}

#[test]
fn tests_truncated_display_includes_ellipsis_marker() {
    let entries = vec![
        entry("R:longref1", "A very long display text that should be truncated"),
        entry("X", "next"),
    ];

    let (page, next) = paginate_entries(&entries, 1, 30);
    assert_eq!(page.len(), 1);
    assert_eq!(page[0].ref_id, "R:longref1");
    assert!(page[0].display.ends_with("..."), "truncated display must end with '...' marker, got: '{}'", page[0].display);
    assert_eq!(next, Some(2));

    let cost = page[0].ref_id.chars().count() + page[0].display.chars().count();
    assert!(cost <= 30, "truncated entry cost {cost} exceeds limit 30");
}

#[test]
fn tests_unicode_truncated_display_includes_marker() {
    let entries = vec![entry("R:longref1", "界世界世界世界世界世界世界世界世界世界世"), entry("X", "next")];

    let (page, next) = paginate_entries(&entries, 1, 25);
    assert_eq!(page.len(), 1);
    assert_eq!(page[0].ref_id, "R:longref1");
    assert!(page[0].display.ends_with("..."), "unicode truncated display must end with '...' marker");
    assert_eq!(next, Some(2));

    let cost = page[0].ref_id.chars().count() + page[0].display.chars().count();
    assert!(cost <= 25, "unicode truncated entry cost {cost} exceeds limit 25");
}

#[test]
fn tests_tiny_budget_no_room_for_marker_still_truncates() {
    let entries = vec![entry("R:longref1", "a very long display text"), entry("X", "next")];

    let (page, next) = paginate_entries(&entries, 1, 11);
    assert_eq!(page.len(), 1);
    assert_eq!(page[0].ref_id, "R:longref1");
    assert!(!page[0].display.is_empty(), "display should not be empty");

    let cost = page[0].ref_id.chars().count() + page[0].display.chars().count();
    assert!(cost <= 11, "tiny budget entry cost {cost} exceeds limit 11");
    assert_eq!(next, Some(2));
}

#[test]
fn entries_page_through_in_order() {
    let entries = vec![entry("a", "1234"), entry("b", "1234"), entry("c", "1234"), entry("d", "12")];
    let (first, next) = paginate_entries(&entries, 1, 10);
    assert_eq!(first.iter().map(|e| e.ref_id.as_str()).collect::<Vec<_>>(), vec!["a", "b"]);
    assert_eq!(next, Some(2));
    let (second, next) = paginate_entries(&entries, 2, 10);
    assert_eq!(second.iter().map(|e| e.ref_id.as_str()).collect::<Vec<_>>(), vec!["c", "d"]);
    assert_eq!(next, None);
    let (third, next) = paginate_entries(&entries, 3, 10);
    assert!(third.is_empty());
    assert_eq!(next, None);
}

#[test]
fn text_pages_continue_where_previous_ended() {
    let content = "abcdefg";
    let (one, next) = paginate_text(content, 1, 3);
    let (two, _) = paginate_text(content, 2, 3);
    let (three, last) = paginate_text(content, 3, 3);
    assert_eq!(format!("{one}{two}{three}"), content);
    assert_eq!(next, Some(2));
    assert_eq!(last, None);
    assert_eq!(paginate_text(content, 4, 3), (String::new(), None));
}

#[test]
fn short_display_budget_without_room_for_marker_is_cut() {
    let entries = vec![entry("abcdef", "xyz12345")];
    let (page, _) = paginate_entries(&entries, 1, 8);
    assert_eq!(page[0].display, "xy");
    let (page, _) = paginate_entries(&entries, 1, 12);
    assert_eq!(page[0].display, "xyz...");
}
