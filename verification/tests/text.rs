use cpp_scaffold::text::{matches_at, replace_all, starts_with_char, str_eq};

#[test]
fn replace_all_replaces_every_occurrence() {
    assert_eq!(replace_all("a-b-c", "-", "+"), "a+b+c");
    assert_eq!(replace_all("{{x}} and {{x}}", "{{x}}", "17"), "17 and 17");
}

#[test]
fn replace_all_leaves_text_without_the_pattern() {
    assert_eq!(replace_all("hello", "xyz", "!"), "hello");
    assert_eq!(replace_all("", "xyz", "!"), "");
    assert_eq!(replace_all("ab", "abc", "!"), "ab");
}

#[test]
fn replace_all_does_not_look_at_what_it_wrote() {
    assert_eq!(replace_all("aaa", "aa", "b"), "ba");
    assert_eq!(replace_all("aaaa", "aa", "a"), "aa");
    assert_eq!(replace_all("ab", "a", "aa"), "aab");
}

#[test]
fn replace_all_with_empty_value_removes() {
    assert_eq!(replace_all("./bin", "./", ""), "bin");
    assert_eq!(replace_all("./a/./b", "./", ""), "a/b");
    assert_eq!(replace_all("bin", "./", ""), "bin");
}

#[test]
fn replace_all_with_empty_pattern_puts_value_everywhere() {
    assert_eq!(replace_all("abc", "", "-"), "-a-b-c-");
    assert_eq!(replace_all("", "", "-"), "-");
}

#[test]
fn replace_all_whole_text() {
    assert_eq!(replace_all("abc", "abc", "x"), "x");
    assert_eq!(replace_all("abc", "abc", ""), "");
}

#[test]
fn replace_all_counts_characters_not_bytes() {
    assert_eq!(replace_all("größe-ß", "ß", "ss"), "grösse-ss");
    assert_eq!(replace_all("日本語{{x}}日本", "{{x}}", "の"), "日本語の日本");
}

#[test]
fn replace_all_agrees_with_the_standard_library() {
    let texts = ["", "a", "aa", "aaa", "abab", "ababa", "{{{{x}}}}", "x{{y}}z{{y}}", "./././"];
    let pats = ["", "a", "aa", "ab", "aba", "{{x}}", "{{y}}", "./"];
    let values = ["", "b", "a", "aa", "{{x}}", "."];
    for text in texts {
        for pat in pats {
            for value in values {
                assert_eq!(replace_all(text, pat, value), text.replace(pat, value));
            }
        }
    }
}

#[test]
fn matches_at_finds_the_pattern_at_an_offset() {
    assert!(matches_at("hello", "ell", 1));
    assert!(!matches_at("hello", "ell", 0));
    assert!(matches_at("hello", "hello", 0));
    assert!(!matches_at("hello", "hello!", 0));
    assert!(!matches_at("hello", "o", 5));
    assert!(matches_at("hello", "", 5));
    assert!(!matches_at("hello", "", 6));
    assert!(matches_at("日本語", "語", 2));
}

#[test]
fn str_eq_compares_characters() {
    assert!(str_eq("new", "new"));
    assert!(!str_eq("new", "New"));
    assert!(!str_eq("new", "ne"));
    assert!(str_eq("", ""));
}

#[test]
fn starts_with_char_looks_at_the_first_character() {
    assert!(starts_with_char("-n", '-'));
    assert!(starts_with_char("-", '-'));
    assert!(!starts_with_char("n-", '-'));
    assert!(!starts_with_char("", '-'));
}
