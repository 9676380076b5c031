use nextjs_setup::input::{
    get_menu_choice, get_yes_no, normalize_project_name, parse_menu_choice, parse_yes_no,
};

fn lines(xs: &[&str]) -> Vec<String> {
    xs.iter().map(|s| s.to_string()).collect()
}

#[test]
fn menu_rejects_until_first_in_bound_number() {
    let inputs = lines(&["0", "7", "abc", "3"]);
    // Three re-prompts (indices 0, 1, 2), then "3" is accepted.
    assert_eq!(get_menu_choice(&inputs, 1, 6), Some((3, 3)));
}

#[test]
fn menu_choice_accepts_bounds_inclusively() {
    assert_eq!(parse_menu_choice("1", 1, 6), Some(1));
    assert_eq!(parse_menu_choice("6", 1, 6), Some(6));
    assert_eq!(parse_menu_choice("0", 1, 6), None);
    assert_eq!(parse_menu_choice("7", 1, 6), None);
}

#[test]
fn menu_choice_trims_and_accepts_plus_sign() {
    assert_eq!(parse_menu_choice(" 4 \n", 1, 6), Some(4));
    assert_eq!(parse_menu_choice("+5", 1, 6), Some(5));
}

#[test]
fn menu_choice_rejects_junk_and_overflow() {
    assert_eq!(parse_menu_choice("abc", 1, 6), None);
    assert_eq!(parse_menu_choice("", 1, 6), None);
    assert_eq!(parse_menu_choice("+", 1, 6), None);
    assert_eq!(parse_menu_choice("1x", 1, 6), None);
    assert_eq!(parse_menu_choice("99999999999999999999", 1, 6), None);
}

#[test]
fn menu_choice_exhausted_stream_is_none() {
    let inputs = lines(&["nope", "8"]);
    assert_eq!(get_menu_choice(&inputs, 1, 6), None);
}

#[test]
fn yes_no_accepts_the_fixed_tokens_case_insensitively() {
    assert_eq!(parse_yes_no("y"), Some(true));
    assert_eq!(parse_yes_no("Y"), Some(true));
    assert_eq!(parse_yes_no("yes"), Some(true));
    assert_eq!(parse_yes_no("YES"), Some(true));
    assert_eq!(parse_yes_no("Yes"), Some(true));
    assert_eq!(parse_yes_no("n"), Some(false));
    assert_eq!(parse_yes_no("no"), Some(false));
    assert_eq!(parse_yes_no("NO"), Some(false));
}

#[test]
fn yes_no_rejects_everything_else() {
    assert_eq!(parse_yes_no("maybe"), None);
    assert_eq!(parse_yes_no(""), None);
    assert_eq!(parse_yes_no("ye"), None);
    assert_eq!(parse_yes_no("yess"), None);
    assert_eq!(parse_yes_no("0"), None);
}

#[test]
fn yes_no_trims_the_line() {
    assert_eq!(parse_yes_no(" y \n"), Some(true));
    assert_eq!(parse_yes_no("no\n"), Some(false));
}

#[test]
fn yes_no_stream_reprompts_until_a_token() {
    let inputs = lines(&["maybe", "x", "no"]);
    assert_eq!(get_yes_no(&inputs), Some((2, false)));
    let empty = lines(&["", "hm"]);
    assert_eq!(get_yes_no(&empty), None);
}

#[test]
fn project_name_is_trimmed_and_must_be_nonempty() {
    assert_eq!(normalize_project_name("  my-app \n"), Some("my-app".to_string()));
    assert_eq!(normalize_project_name("demo"), Some("demo".to_string()));
    assert_eq!(normalize_project_name("   \n"), None);
    assert_eq!(normalize_project_name(""), None);
}
