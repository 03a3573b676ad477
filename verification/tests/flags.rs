use cpp_scaffold::config::Parameter;
use cpp_scaffold::flags::{find_parameter, is_spelling};

fn tokens(words: &[&str]) -> Vec<String> {
    words.iter().map(|w| w.to_string()).collect()
}

const NAME: [&str; 2] = ["-n", "--name"];

#[test]
fn repeated_flag_takes_the_last_value() {
    let cmds = tokens(&["new", "-n", "a", "-n", "b"]);
    assert_eq!(find_parameter(&cmds, &NAME), Some("b".to_string()));
}

#[test]
fn repeated_flag_three_times() {
    let cmds = tokens(&["new", "-n", "a", "-n", "b", "-n", "c"]);
    assert_eq!(find_parameter(&cmds, &NAME), Some("c".to_string()));
}

#[test]
fn later_position_wins_across_spellings() {
    let short_last = tokens(&["new", "--name", "b", "-n", "a"]);
    assert_eq!(find_parameter(&short_last, &NAME), Some("a".to_string()));
    let long_last = tokens(&["new", "-n", "a", "--name", "b"]);
    assert_eq!(find_parameter(&long_last, &NAME), Some("b".to_string()));
}

#[test]
fn order_of_spellings_does_not_matter() {
    let cmds = tokens(&["new", "--name", "b", "-n", "a"]);
    assert_eq!(find_parameter(&cmds, &["--name", "-n"]), Some("a".to_string()));
    assert_eq!(find_parameter(&cmds, &["-n", "--name"]), Some("a".to_string()));
}

#[test]
fn flag_as_final_token_is_absent() {
    let cmds = tokens(&["new", "-n"]);
    assert_eq!(find_parameter(&cmds, &NAME), None);
}

#[test]
fn flag_as_final_token_keeps_the_earlier_value() {
    let cmds = tokens(&["new", "-n", "x", "--name"]);
    assert_eq!(find_parameter(&cmds, &NAME), Some("x".to_string()));
}

#[test]
fn flag_as_only_token_is_absent() {
    let cmds = tokens(&["-n"]);
    assert_eq!(find_parameter(&cmds, &NAME), None);
}

#[test]
fn missing_flag_is_absent() {
    let cmds = tokens(&["new", "lib", "-s", "20"]);
    assert_eq!(find_parameter(&cmds, &NAME), None);
}

#[test]
fn no_tokens_resolve_to_nothing() {
    let cmds: Vec<String> = Vec::new();
    assert_eq!(find_parameter(&cmds, &NAME), None);
}

#[test]
fn no_spellings_resolve_to_nothing() {
    let cmds = tokens(&["new", "-n", "a"]);
    assert_eq!(find_parameter(&cmds, &[]), None);
}

#[test]
fn a_flag_can_be_the_value_of_a_flag() {
    let cmds = tokens(&["-n", "-n"]);
    assert_eq!(find_parameter(&cmds, &NAME), Some("-n".to_string()));
    let chained = tokens(&["-n", "-n", "z"]);
    assert_eq!(find_parameter(&chained, &NAME), Some("z".to_string()));
}

#[test]
fn value_may_be_empty() {
    let cmds = tokens(&["new", "-s", ""]);
    assert_eq!(find_parameter(&cmds, &["-s", "--std"]), Some(String::new()));
}

#[test]
fn spelling_must_match_wholly() {
    let cmds = tokens(&["new", "-name", "a", "--n", "b", "-N", "c"]);
    assert_eq!(find_parameter(&cmds, &NAME), None);
}

#[test]
fn is_spelling_tells_members() {
    assert!(is_spelling("-n", &NAME));
    assert!(is_spelling("--name", &NAME));
    assert!(!is_spelling("-s", &NAME));
    assert!(!is_spelling("", &NAME));
    assert!(!is_spelling("-n", &[]));
}

#[test]
fn flag_table_holds_both_spellings_of_each_parameter() {
    assert_eq!(Parameter::ProjectName.flags(), ["-n", "--name"]);
    assert_eq!(Parameter::Standard.flags(), ["-s", "--std"]);
    assert_eq!(Parameter::CmakeMinVersion.flags(), ["-c", "--cmake-min"]);
}

#[test]
fn parameter_resolves_through_its_own_flags() {
    let cmds = tokens(&["new", "-s", "20", "-c", "3.10", "--std", "23", "-n", "app"]);
    assert_eq!(Parameter::Standard.resolve(&cmds), Some("23".to_string()));
    assert_eq!(Parameter::CmakeMinVersion.resolve(&cmds), Some("3.10".to_string()));
    assert_eq!(Parameter::ProjectName.resolve(&cmds), Some("app".to_string()));
}
