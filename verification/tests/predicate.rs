use epsonia_checks::predicate::{
    binary_exists, file_contains_content, file_exists, file_line_contains, service_up, user_exists,
    user_in_group, user_is_administrator,
};

#[test]
fn file_exists_compares_presence_with_the_wish() {
    assert!(file_exists(true, true));
    assert!(file_exists(false, false));
    assert!(!file_exists(true, false));
    assert!(!file_exists(false, true));
}

#[test]
fn file_line_contains_counts_lines_from_one() {
    let text = "alpha\nbeta\ngamma";
    assert!(file_line_contains(text, 1, "alpha", true));
    assert!(file_line_contains(text, 3, "gam", true));
    assert!(!file_line_contains(text, 2, "alpha", true));
    assert!(file_line_contains(text, 2, "alpha", false));
    assert!(!file_line_contains(text, 4, "", true));
    assert!(!file_line_contains(text, 0, "", true));
    assert!(!file_line_contains(text, -3, "", false));
}

#[test]
fn file_contains_content_strips_both_sides_when_white_space_does_not_matter() {
    assert!(file_contains_content("ab", "a b", false, true));
    assert!(file_contains_content("a b", "ab", false, true));
    assert!(file_contains_content(" a  b ", "a b", false, true));
    assert!(!file_contains_content("a\tb", "a b", false, true));
    assert!(!file_contains_content("a\nb", "ab", false, true));
    assert!(!file_contains_content("ab", "a b", true, true));
}

#[test]
fn service_up_reads_inactive_as_down() {
    assert!(!service_up("inactive", true));
    assert!(service_up("inactive", false));
    assert!(service_up("active", true));
    assert!(!service_up("active", false));
    assert!(!service_up("state: inactive (dead)", true));
}

#[test]
fn binary_exists_needs_the_name_in_the_answer() {
    assert!(binary_exists("/usr/bin/nc\n", "nc", true));
    assert!(!binary_exists("", "nc", true));
    assert!(binary_exists("", "nc", false));
    assert!(binary_exists("", "", true));
}

#[test]
fn user_in_group_is_a_plain_substring_test() {
    assert!(user_in_group("groups=27(sudo),100(users)", "users", true));
    assert!(user_in_group("groups=27(sudo),100(users)", "user", true));
    assert!(!user_in_group("groups=27(sudo),100(users)", "wheel", true));
    assert!(user_in_group("groups=27(sudo),100(users)", "wheel", false));
}

#[test]
fn user_is_administrator_looks_for_sudo() {
    assert!(user_is_administrator("groups=27(sudo)", true, true));
    assert!(user_is_administrator("groups=27(sudo)", true, false));
    assert!(!user_is_administrator("groups=27(sudo)", false, true));
    assert!(user_is_administrator("groups=100(users)", false, true));
    assert!(!user_is_administrator("groups=100(users)", false, false));
    assert!(!user_is_administrator("groups=10(wheel)", true, true));
}

#[test]
fn user_exists_weighs_the_directory_against_wish_and_witness() {
    let accounts = vec![Some("root".to_string()), Some("carol".to_string())];
    let carol = "carol".to_string();
    let dave = "dave".to_string();
    assert!(user_exists(&accounts, &carol, true, true, false));
    assert!(!user_exists(&accounts, &carol, true, true, true));
    assert!(user_exists(&accounts, &carol, true, false, true));
    assert!(!user_exists(&accounts, &carol, false, true, false));
    assert!(user_exists(&accounts, &dave, false, true, false));
    assert!(!user_exists(&accounts, &dave, false, false, false));
    assert!(!user_exists(&accounts, &dave, true, false, false));
}
