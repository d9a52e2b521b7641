use timetable_links::format::format_duration;
use timetable_links::plan::{changelog_targets, get_change_ids, strategy_targets};
use timetable_links::results::{
    filter_denylisted, filter_old_links, finalize, merge_links, mentions_any_token,
    old_year_denylist, LinksPayload,
};
use timetable_links::text::{contains_text, ends_with_text, text_less};
use timetable_links::traversal::Mode;

fn strings(items: &[&str]) -> Vec<String> {
    items.iter().map(|s| s.to_string()).collect()
}

#[test]
fn change_ids_cover_fixed_range() {
    let ids = get_change_ids();
    assert_eq!(ids.len(), 401);
    assert_eq!(ids[0], 2115);
    assert_eq!(ids[1], 2400);
    assert_eq!(ids[400], 2799);
}

#[test]
fn duration_in_hours() {
    assert_eq!(format_duration(3725, 250), "1h 2m 5s");
}

#[test]
fn duration_in_minutes() {
    assert_eq!(format_duration(125, 999), "2m 5s");
}

#[test]
fn duration_in_seconds_pads_millis() {
    assert_eq!(format_duration(5, 7), "5.007s");
    assert_eq!(format_duration(0, 0), "0.000s");
    assert_eq!(format_duration(59, 120), "59.120s");
}

#[test]
fn duration_exact_hour_shows_zero_parts() {
    assert_eq!(format_duration(3600, 0), "1h 0m 0s");
}

#[test]
fn text_search_primitives() {
    assert!(contains_text("x_2023.pdf", "2023"));
    assert!(!contains_text("x_2024.pdf", "2023"));
    assert!(contains_text("abc", ""));
    assert!(!contains_text("ab", "abc"));
    assert!(ends_with_text("a/b.pdf", ".pdf"));
    assert!(!ends_with_text("a/b.pdf.html", ".pdf"));
    assert!(text_less("a", "b"));
    assert!(text_less("ab", "abc"));
    assert!(!text_less("abc", "abc"));
    assert!(!text_less("b", "abc"));
}

#[test]
fn merge_sorts_and_removes_duplicates() {
    let merged = merge_links(&strings(&["c.pdf", "a.pdf", "c.pdf", "b.pdf", "a.pdf"]));
    assert_eq!(merged, strings(&["a.pdf", "b.pdf", "c.pdf"]));
}

#[test]
fn merge_of_empty_is_empty() {
    assert!(merge_links(&Vec::new()).is_empty());
}

#[test]
fn merge_twice_equals_merge_once() {
    let input = strings(&["z.pdf", "x.pdf", "z.pdf", "y.pdf"]);
    let once = merge_links(&input);
    let twice = merge_links(&once);
    assert_eq!(once, twice);
}

#[test]
fn denylist_filter_removes_marked_links_only() {
    let links = strings(&["a_2022.pdf", "b_2024.pdf", "c_2023.pdf", "d.pdf"]);
    let tokens = strings(&["2022", "2023"]);
    assert_eq!(filter_denylisted(&links, &tokens), strings(&["b_2024.pdf", "d.pdf"]));
    assert!(mentions_any_token(&"c_2023.pdf".to_string(), &tokens));
    assert!(!mentions_any_token(&"c_2023.pdf".to_string(), &Vec::new()));
}

#[test]
fn old_links_are_filtered_in_order() {
    assert_eq!(old_year_denylist(), strings(&["2022", "2023"]));
    let payload = LinksPayload { list: strings(&["k_2025.pdf", "j_2022.pdf", "i_2024.pdf", "h_2023.pdf"]) };
    let filtered = filter_old_links(payload);
    assert_eq!(filtered.list, strings(&["k_2025.pdf", "i_2024.pdf"]));
}

#[test]
fn finalize_unions_dedups_and_filters() {
    let parts = vec![
        strings(&["b_2024.pdf", "a_2023.pdf"]),
        strings(&[]),
        strings(&["b_2024.pdf", "c_2025.pdf", "a_2022.pdf"]),
    ];
    let out = finalize(&parts, &strings(&["2022", "2023"]));
    assert_eq!(out.list, strings(&["b_2024.pdf", "c_2025.pdf"]));
}

#[test]
fn finalize_with_empty_denylist_keeps_everything_once() {
    let parts = vec![strings(&["b", "a"]), strings(&["a"])];
    let out = finalize(&parts, &Vec::new());
    assert_eq!(out.list, strings(&["a", "b"]));
}

#[test]
fn changelog_urls_append_id() {
    let targets = changelog_targets(&"https://example.org/changes/".to_string(), &vec![10, 2115, -3]);
    assert_eq!(targets.len(), 3);
    assert_eq!(targets[0].url, "https://example.org/changes/10");
    assert_eq!(targets[1].url, "https://example.org/changes/2115");
    assert_eq!(targets[2].url, "https://example.org/changes/-3");
    assert_eq!(targets[1].mode, Mode::ChangeLog(2115));
}

#[test]
fn three_strategies_are_planned() {
    let urls = strings(&["https://example.org/a", "https://example.org/b"]);
    let plan = strategy_targets(&urls, &"base/".to_string(), &vec![7]);
    assert_eq!(plan.len(), 3);
    assert_eq!(plan[0].len(), 1);
    assert_eq!(plan[0][0].url, "base/7");
    assert_eq!(plan[1][1].url, "https://example.org/b");
    assert_eq!(plan[1][0].mode, Mode::WithExpansion);
    assert_eq!(plan[2][0].mode, Mode::WithoutExpansion);
}
