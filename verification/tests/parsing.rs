//! Parsing, text rendering and ordering on concrete inputs.

use lazytf::parse::clean_line;
use lazytf::parse::parse_workspace_output;
use lazytf::parse::split_lines;
use lazytf::parse::trim_str;
use lazytf::text::i32_to_dec;
use lazytf::text::join_with;
use lazytf::text::sort_names;
use lazytf::text::str_lex_le;
use lazytf::text::u64_to_dec;

#[test]
fn workspace_listing_is_cleaned_and_filtered() {
    let parsed = parse_workspace_output("* prod\n  staging\n\n  dev ");
    assert_eq!(parsed, vec!["prod", "staging", "dev"]);
}

#[test]
fn workspace_listing_empty_input_yields_nothing() {
    assert!(parse_workspace_output("").is_empty());
    assert!(parse_workspace_output("\n\n   \n").is_empty());
    assert!(parse_workspace_output("***\n").is_empty());
}

#[test]
fn workspace_listing_strips_marker_and_whitespace() {
    assert_eq!(parse_workspace_output("*default\r\n  other\r\n"), vec!["default", "other"]);
    assert_eq!(clean_line("  * default  "), "default");
    assert_eq!(clean_line("** spaced name "), "spaced name");
    assert_eq!(clean_line("   "), "");
}

#[test]
fn lines_split_on_newlines_without_trailing_empty_line() {
    assert_eq!(split_lines("a\nb\nc"), vec!["a", "b", "c"]);
    assert_eq!(split_lines("a\nb\n"), vec!["a", "b"]);
    assert_eq!(split_lines("a\r\nb\r\n"), vec!["a", "b"]);
    assert!(split_lines("").is_empty());
    assert_eq!(split_lines("\n"), vec![""]);
}

#[test]
fn trimming_removes_surrounding_whitespace_only() {
    assert_eq!(trim_str("  locked by ci \r"), "locked by ci");
    assert_eq!(trim_str("plain"), "plain");
    assert_eq!(trim_str(""), "");
}

#[test]
fn decimal_rendering_is_exact() {
    assert_eq!(u64_to_dec(0), "0");
    assert_eq!(u64_to_dec(7), "7");
    assert_eq!(u64_to_dec(4000), "4000");
    assert_eq!(u64_to_dec(18446744073709551615), "18446744073709551615");
    assert_eq!(i32_to_dec(-1), "-1");
    assert_eq!(i32_to_dec(0), "0");
    assert_eq!(i32_to_dec(137), "137");
    assert_eq!(i32_to_dec(-2147483648), "-2147483648");
}

#[test]
fn lexicographic_order_matches_expectations() {
    assert!(str_lex_le("dev", "prod"));
    assert!(!str_lex_le("prod", "dev"));
    assert!(str_lex_le("dev", "dev"));
    assert!(str_lex_le("", "anything"));
    assert!(str_lex_le("abc", "abd"));
    assert!(str_lex_le("ab", "abc"));
}

#[test]
fn sorting_orders_names_and_keeps_duplicates() {
    let mut names = vec![
        "prod".to_string(),
        "dev".to_string(),
        "staging".to_string(),
        "dev".to_string(),
    ];
    sort_names(&mut names);
    assert_eq!(names, vec!["dev", "dev", "prod", "staging"]);

    let mut empty: Vec<String> = Vec::new();
    sort_names(&mut empty);
    assert!(empty.is_empty());
}

#[test]
fn joining_inserts_separator_between_parts() {
    let parts = vec!["a.tfvars".to_string(), "b.tfvars".to_string()];
    assert_eq!(join_with(&parts, ", "), "a.tfvars, b.tfvars");
    let one = vec!["only".to_string()];
    assert_eq!(join_with(&one, ", "), "only");
    let none: Vec<String> = Vec::new();
    assert_eq!(join_with(&none, ", "), "");
}
