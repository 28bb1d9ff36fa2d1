use builder_rs::credentials::{choose_credential, CredChoice};
use builder_rs::strutil::{contains_sub, ends_with, replace_all, starts_with, trim_trailing_slash,
    u64_to_string};

#[test]
fn test_credential_selection_order() {
    // ssh wins over everything; the token only applies to github.com
    // URLs; anything else goes to the helper.
    assert_eq!(choose_credential("ssh://git@github.com/a/b", true), CredChoice::SshAgent);
    assert_eq!(choose_credential("ssh://host/repo", false), CredChoice::SshAgent);
    assert_eq!(choose_credential("https://github.com/a/b", true), CredChoice::TokenUserpass);
    assert_eq!(
        choose_credential("https://github.com/a/b", false),
        CredChoice::HelperThenDefault
    );
    assert_eq!(choose_credential("https://gitlab.com/a/b", true), CredChoice::HelperThenDefault);
}

#[test]
fn test_contains_and_affixes() {
    assert!(contains_sub("https://github.com/x", "github.com"));
    assert!(!contains_sub("https://example.com/x", "github.com"));
    assert!(starts_with("ssh://host", "ssh://"));
    assert!(!starts_with("http://host", "ssh://"));
    assert!(ends_with("a.zip", ".zip"));
    assert!(!ends_with("a.zip.md5", ".zip"));
}

#[test]
fn test_replace_all_every_occurrence() {
    assert_eq!(replace_all("{device}_def_{device}", "{device}", "dev"), "dev_def_dev");
    assert_eq!(replace_all("plain", "{device}", "dev"), "plain");
}

#[test]
fn test_u64_to_string_decimal() {
    assert_eq!(u64_to_string(0), "0");
    assert_eq!(u64_to_string(8), "8");
    assert_eq!(u64_to_string(65536), "65536");
}

#[test]
fn test_trim_trailing_slash_variants() {
    assert_eq!(trim_trailing_slash("https://e.com/a///"), "https://e.com/a");
    assert_eq!(trim_trailing_slash("https://e.com/a"), "https://e.com/a");
    assert_eq!(trim_trailing_slash(""), "");
}
