use trust::date::CalendarDate;
use trust::naming::{clone_slug_of, derive_clone_name, derive_named_dir, looks_like_git_url};

fn march_fifth() -> CalendarDate {
    CalendarDate::new(2024, 3, 5).unwrap()
}

#[test]
fn clone_name_from_https_url() {
    let name = derive_clone_name(&march_fifth(), "https://github.com/acme/widgets.git");
    assert_eq!(name, "2024-03-05-acme-widgets");
}

#[test]
fn clone_name_without_slash_uses_placeholder_owner() {
    assert_eq!(derive_clone_name(&march_fifth(), "widgets"), "2024-03-05-user-widgets");
}

#[test]
fn clone_name_of_empty_url_uses_both_placeholders() {
    assert_eq!(derive_clone_name(&march_fifth(), ""), "2024-03-05-user-repo");
    assert_eq!(derive_clone_name(&march_fifth(), "///"), "2024-03-05-user-repo");
}

#[test]
fn clone_slug_skips_empty_segments() {
    assert_eq!(clone_slug_of("https://github.com/acme/widgets/"), "acme-widgets");
    assert_eq!(clone_slug_of("git@github.com:acme/widgets.git"), "git@github.com:acme-widgets");
}

#[test]
fn clone_slug_strips_every_trailing_git() {
    assert_eq!(clone_slug_of("a/b.git.git"), "a-b");
    assert_eq!(clone_slug_of("a/.gitx"), "a-.gitx");
}

#[test]
fn named_dir_is_dated() {
    assert_eq!(derive_named_dir(&march_fifth(), "feature-x"), "2024-03-05-feature-x");
}

#[test]
fn date_text_pads_and_signs() {
    assert_eq!(CalendarDate::new(999, 1, 2).unwrap().iso_text(), "0999-01-02");
    assert_eq!(CalendarDate::new(-44, 3, 15).unwrap().iso_text(), "-0044-03-15");
    assert_eq!(CalendarDate::new(12345, 12, 31).unwrap().iso_text(), "+12345-12-31");
    assert_eq!(march_fifth().iso_text(), "2024-03-05");
}

#[test]
fn only_real_days_are_dates() {
    assert!(CalendarDate::new(2024, 2, 29).is_some());
    assert!(CalendarDate::new(2000, 2, 29).is_some());
    assert!(CalendarDate::new(2023, 2, 29).is_none());
    assert!(CalendarDate::new(1900, 2, 29).is_none());
    assert!(CalendarDate::new(2024, 4, 31).is_none());
    assert!(CalendarDate::new(2024, 13, 1).is_none());
    assert!(CalendarDate::new(2024, 1, 0).is_none());
    assert!(CalendarDate::new(300000, 1, 1).is_none());
}

#[test]
fn git_urls_are_recognised() {
    assert!(looks_like_git_url("git@github.com:acme/widgets.git"));
    assert!(looks_like_git_url("https://example.com/x.git"));
    assert!(looks_like_git_url("http://example.com/x"));
    assert!(looks_like_git_url("git://example.com/x"));
    assert!(looks_like_git_url("ssh://host/x.git"));
}

#[test]
fn plain_words_are_not_git_urls() {
    assert!(!looks_like_git_url("my-project"));
    assert!(!looks_like_git_url("2024-plan"));
    assert!(!looks_like_git_url("ssh://host/x"));
    assert!(!looks_like_git_url("notes.git"));
    assert!(!looks_like_git_url(""));
}
