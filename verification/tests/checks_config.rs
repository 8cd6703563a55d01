use epsonia_checks::check::{Check, CheckKind};
use epsonia_checks::checks_config::{checked_max_points, get_checks, get_max_points, ChecksConfig};
use epsonia_checks::models::{FileExists, FileLineContains};

fn worth(points: i32) -> Check {
    Check::new(
        points,
        "met".to_string(),
        "missed".to_string(),
        false,
        CheckKind::FileExists { file_path: "/tmp/x".to_string(), should_exist: true },
    )
}

fn presence(points: i32, file_path: &str, should_exist: bool) -> FileExists {
    FileExists {
        points,
        message: format!("{} ok", file_path),
        penalty_message: format!("{} bad", file_path),
        file_path: file_path.to_string(),
        should_exist,
    }
}

fn line(points: i32, file_path: &str, line: i32, line_content: &str) -> FileLineContains {
    FileLineContains {
        points,
        message: format!("{} ok", file_path),
        penalty_message: format!("{} bad", file_path),
        file_path: file_path.to_string(),
        line,
        line_content: line_content.to_string(),
        should_contain: true,
    }
}

#[test]
fn max_points_of_no_checks_is_zero() {
    assert_eq!(get_max_points(&Vec::new()), 0);
    assert_eq!(checked_max_points(&Vec::new()), Some(0));
}

#[test]
fn max_points_adds_penalties_too() {
    let checks = vec![worth(10), worth(-5)];
    assert_eq!(get_max_points(&checks), 5);
    assert_eq!(checked_max_points(&checks), Some(5));
}

#[test]
fn max_points_does_not_look_at_completed() {
    let mut checks = vec![worth(10), worth(20), worth(-3)];
    let before = get_max_points(&checks);
    checks[0].completed = true;
    checks[2].completed = true;
    assert_eq!(get_max_points(&checks), before);
    assert_eq!(before, 27);
}

#[test]
fn max_points_may_pass_the_limit_on_the_way() {
    let checks = vec![worth(i32::MAX), worth(i32::MAX), worth(i32::MIN), worth(i32::MIN), worth(7)];
    assert_eq!(checked_max_points(&checks), Some(5));
    assert_eq!(get_max_points(&checks), 5);
}

#[test]
fn checked_max_points_reaches_both_limits() {
    assert_eq!(checked_max_points(&vec![worth(i32::MAX - 1), worth(1)]), Some(i32::MAX));
    assert_eq!(checked_max_points(&vec![worth(i32::MIN + 1), worth(-1)]), Some(i32::MIN));
}

#[test]
fn checked_max_points_is_none_beyond_the_limits() {
    assert_eq!(checked_max_points(&vec![worth(i32::MAX), worth(1)]), None);
    assert_eq!(checked_max_points(&vec![worth(i32::MIN), worth(-1)]), None);
    assert_eq!(checked_max_points(&vec![worth(i32::MAX), worth(i32::MAX), worth(i32::MAX)]), None);
}

#[test]
fn get_checks_of_an_empty_configuration_is_empty() {
    let none = ChecksConfig { file_exists: None, file_line_contains: None };
    assert!(get_checks(none).is_empty());
    let empty = ChecksConfig { file_exists: Some(Vec::new()), file_line_contains: Some(Vec::new()) };
    assert!(get_checks(empty).is_empty());
}

#[test]
fn get_checks_lists_presence_checks_first_and_keeps_each_order() {
    let config = ChecksConfig {
        file_exists: Some(vec![presence(5, "/a", true), presence(-2, "/b", false)]),
        file_line_contains: Some(vec![line(3, "/c", 4, "x"), line(1, "/d", 1, "y")]),
    };
    let checks = get_checks(config);
    let expected = vec![
        Check::new(
            5,
            "/a ok".to_string(),
            "/a bad".to_string(),
            false,
            CheckKind::FileExists { file_path: "/a".to_string(), should_exist: true },
        ),
        Check::new(
            -2,
            "/b ok".to_string(),
            "/b bad".to_string(),
            false,
            CheckKind::FileExists { file_path: "/b".to_string(), should_exist: false },
        ),
        Check::new(
            3,
            "/c ok".to_string(),
            "/c bad".to_string(),
            false,
            CheckKind::FileLineContains {
                file_path: "/c".to_string(),
                line: 4,
                line_content: "x".to_string(),
                should_contain: true,
            },
        ),
        Check::new(
            1,
            "/d ok".to_string(),
            "/d bad".to_string(),
            false,
            CheckKind::FileLineContains {
                file_path: "/d".to_string(),
                line: 1,
                line_content: "y".to_string(),
                should_contain: true,
            },
        ),
    ];
    assert_eq!(checks, expected);
    assert_eq!(get_max_points(&checks), 7);
}

#[test]
fn get_checks_takes_an_absent_category_as_empty() {
    let only_lines = ChecksConfig {
        file_exists: None,
        file_line_contains: Some(vec![line(3, "/c", 4, "x")]),
    };
    let checks = get_checks(only_lines);
    assert_eq!(checks.len(), 1);
    assert_eq!(checks[0].points, 3);
    assert!(!checks[0].completed);
    let only_presence = ChecksConfig {
        file_exists: Some(vec![presence(5, "/a", true)]),
        file_line_contains: None,
    };
    let checks = get_checks(only_presence);
    assert_eq!(checks.len(), 1);
    assert_eq!(
        checks[0].kind,
        CheckKind::FileExists { file_path: "/a".to_string(), should_exist: true }
    );
}

#[test]
fn get_checks_gives_checks_that_are_not_met_yet() {
    let config = ChecksConfig {
        file_exists: Some(vec![presence(5, "/a", true), presence(5, "/b", true)]),
        file_line_contains: Some(vec![line(3, "/c", 4, "x")]),
    };
    assert!(get_checks(config).iter().all(|check| !check.completed));
}

#[test]
fn into_check_carries_the_record_over_unmet() {
    let check = presence(4, "/etc/shadow", false).into_check();
    assert_eq!(
        check,
        Check::new(
            4,
            "/etc/shadow ok".to_string(),
            "/etc/shadow bad".to_string(),
            false,
            CheckKind::FileExists { file_path: "/etc/shadow".to_string(), should_exist: false },
        )
    );
    let check = line(-1, "/etc/hosts", 2, "localhost").into_check();
    assert_eq!(
        check,
        Check::new(
            -1,
            "/etc/hosts ok".to_string(),
            "/etc/hosts bad".to_string(),
            false,
            CheckKind::FileLineContains {
                file_path: "/etc/hosts".to_string(),
                line: 2,
                line_content: "localhost".to_string(),
                should_contain: true,
            },
        )
    );
}
