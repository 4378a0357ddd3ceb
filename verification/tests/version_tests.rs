use sop::version::{
    check_for_update, check_latest_version, check_with, needs_registry, resolve_target,
    FixedOracle, RandomOracle, UpdateOracle, Version,
};

#[test]
fn parse_reads_three_numeric_components() {
    assert_eq!(Version::parse("1.2.3"), Some(Version { major: 1, minor: 2, patch: 3 }));
    assert_eq!(Version::parse("0.0.0"), Some(Version { major: 0, minor: 0, patch: 0 }));
    assert_eq!(Version::parse("01.002.0003"), Some(Version { major: 1, minor: 2, patch: 3 }));
    assert_eq!(Version::parse("+1.+2.+3"), Some(Version { major: 1, minor: 2, patch: 3 }));
    assert_eq!(
        Version::parse("4294967295.0.4294967295"),
        Some(Version { major: u32::MAX, minor: 0, patch: u32::MAX })
    );
}

#[test]
fn parse_agrees_with_the_integer_parser_of_std() {
    for text in ["0", "7", "+7", "007", "4294967295", "4294967296", "", "+", "-1", "1a", " 1", "1 ", "++1", "٣"] {
        let full = format!("{}.0.0", text);
        let expected = text.parse::<u32>().ok().map(|major| Version { major, minor: 0, patch: 0 });
        assert_eq!(Version::parse(&full), expected, "component {:?}", text);
    }
}

#[test]
fn parse_refuses_what_is_no_version() {
    assert_eq!(Version::parse(""), None);
    assert_eq!(Version::parse("latest"), None);
    assert_eq!(Version::parse("1"), None);
    assert_eq!(Version::parse("1.2"), None);
    assert_eq!(Version::parse("1.2.3.4"), None);
    assert_eq!(Version::parse("1..3"), None);
    assert_eq!(Version::parse(".1.2"), None);
    assert_eq!(Version::parse("1.2."), None);
    assert_eq!(Version::parse("1.x.3"), None);
    assert_eq!(Version::parse("a.b.c"), None);
    assert_eq!(Version::parse("1.2.-3"), None);
    assert_eq!(Version::parse("1.2.3-beta"), None);
    assert_eq!(Version::parse("1.2.4294967296"), None);
    assert_eq!(Version::parse("1.2.99999999999999999999999"), None);
    assert_eq!(Version::parse("1.2.+"), None);
    assert_eq!(Version::parse(" 1.2.3"), None);
}

#[test]
fn to_text_writes_the_components() {
    assert_eq!(Version { major: 1, minor: 2, patch: 3 }.to_text(), "1.2.3");
    assert_eq!(Version { major: 0, minor: 0, patch: 0 }.to_text(), "0.0.0");
    assert_eq!(
        Version { major: u32::MAX, minor: 10, patch: 100 }.to_text(),
        "4294967295.10.100"
    );
}

#[test]
fn to_text_then_parse_gives_the_version_back() {
    for v in [
        Version { major: 0, minor: 0, patch: 0 },
        Version { major: 1, minor: 20, patch: 300 },
        Version { major: u32::MAX, minor: u32::MAX, patch: u32::MAX },
    ] {
        assert_eq!(Version::parse(&v.to_text()), Some(v));
    }
}

#[test]
fn resolve_target_pins_latest() {
    assert_eq!(resolve_target("latest"), "1.0.0");
    assert_eq!(resolve_target("2.3.4"), "2.3.4");
    assert_eq!(resolve_target("Latest"), "Latest");
    assert_eq!(resolve_target(""), "");
}

#[test]
fn check_for_update_of_latest_is_the_initial_version() {
    assert_eq!(check_for_update("foo", "latest", true), "1.0.0");
    assert_eq!(check_for_update("foo", "latest", false), "1.0.0");
}

#[test]
fn check_for_update_of_a_malformed_specifier_is_the_initial_version() {
    for current in ["", "1", "1.2", "1.2.3.4", "a.b.c", "1.x.3", "1.2.3-rc1", "v1.2.3", "1.2.4294967296"] {
        assert_eq!(check_for_update("foo", current, true), "1.0.0", "{:?}", current);
        assert_eq!(check_for_update("foo", current, false), "1.0.0", "{:?}", current);
    }
}

#[test]
fn check_for_update_raises_the_patch_when_there_is_an_update() {
    assert_eq!(check_for_update("baz", "2.0.1", true), "2.0.2");
    assert_eq!(check_for_update("baz", "0.0.0", true), "0.0.1");
    assert_eq!(check_for_update("baz", "1.2.9", true), "1.2.10");
    assert_eq!(check_for_update("baz", "01.02.03", true), "1.2.4");
    assert_eq!(check_for_update("baz", "+1.2.3", true), "1.2.4");
}

#[test]
fn check_for_update_keeps_the_version_when_there_is_no_update() {
    assert_eq!(check_for_update("baz", "2.0.1", false), "2.0.1");
    assert_eq!(check_for_update("baz", "01.02.03", false), "01.02.03");
}

#[test]
fn check_for_update_does_not_wrap_at_the_largest_patch() {
    assert_eq!(check_for_update("baz", "1.2.4294967295", true), "1.2.4294967296");
}

#[test]
fn needs_registry_only_for_versions() {
    assert!(needs_registry("1.2.3"));
    assert!(!needs_registry("latest"));
    assert!(!needs_registry("1.2"));
    assert!(!needs_registry(""));
}

#[test]
fn fixed_oracle_answers_as_told() {
    let mut yes = FixedOracle { answer: true };
    let mut no = FixedOracle { answer: false };
    assert!(yes.has_update("foo", "1.0.0"));
    assert!(!no.has_update("foo", "1.0.0"));
    assert_eq!(check_with(&mut yes, "foo", "1.0.0"), "1.0.1");
    assert_eq!(check_with(&mut no, "foo", "1.0.0"), "1.0.0");
    assert_eq!(check_with(&mut yes, "foo", "latest"), "1.0.0");
    assert_eq!(check_with(&mut yes, "foo", "nonsense"), "1.0.0");
}

#[test]
fn random_oracle_gives_one_of_the_two_outcomes() {
    let mut oracle = RandomOracle {};
    for _ in 0..50 {
        let version = check_with(&mut oracle, "foo", "3.1.4");
        assert!(version == "3.1.4" || version == "3.1.5");
    }
}

#[test]
fn random_oracle_gives_both_answers_in_the_long_run() {
    let mut oracle = RandomOracle {};
    let mut seen_true = false;
    let mut seen_false = false;
    for _ in 0..400 {
        if oracle.has_update("foo", "1.0.0") {
            seen_true = true;
        } else {
            seen_false = true;
        }
    }
    assert!(seen_true && seen_false);
}

#[test]
fn check_latest_version_gives_one_of_the_two_outcomes() {
    for _ in 0..50 {
        let version = check_latest_version("foo", "2.0.1");
        assert!(version == "2.0.1" || version == "2.0.2");
    }
    assert_eq!(check_latest_version("foo", "latest"), "1.0.0");
    assert_eq!(check_latest_version("foo", "not.a.version"), "1.0.0");
}

#[test]
fn versions_are_compared_as_numbers() {
    let v = |major, minor, patch| Version { major, minor, patch };
    assert!(v(1, 2, 3).precedes(&v(1, 2, 4)));
    assert!(v(1, 2, 9).precedes(&v(1, 2, 10)));
    assert!(v(1, 9, 9).precedes(&v(1, 10, 0)));
    assert!(v(9, 0, 0).precedes(&v(10, 0, 0)));
    assert!(v(1, 99, 99).precedes(&v(2, 0, 0)));
    assert!(!v(1, 2, 3).precedes(&v(1, 2, 3)));
    assert!(!v(1, 2, 4).precedes(&v(1, 2, 3)));
    assert!(!v(2, 0, 0).precedes(&v(1, 99, 99)));
    assert!(!v(1, 3, 0).precedes(&v(1, 2, 99)));
}

#[test]
fn an_update_is_newer_than_what_was_recorded() {
    for current in ["0.0.0", "2.0.1", "1.9.9", "10.20.30"] {
        let before = Version::parse(current).unwrap();
        let after = Version::parse(&check_for_update("foo", current, true)).unwrap();
        assert!(before.precedes(&after));
        assert_eq!(after, Version { patch: before.patch + 1, ..before });
    }
}
