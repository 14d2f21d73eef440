use cdtest::path::{join, CDTEST_ROOT_TMP, CDTEST_ROOT_VAR, CDTEST_TOML};

#[test]
fn roots_are_fixed() {
    assert_eq!(CDTEST_ROOT_VAR, "/var/tmp/cdtest");
    assert_eq!(CDTEST_ROOT_TMP, "/tmp/cdtest");
    assert_eq!(CDTEST_TOML, ".cdtest.toml");
}

#[test]
fn join_puts_a_separator_in() {
    assert_eq!(join("/var/tmp/cdtest", "demo"), "/var/tmp/cdtest/demo");
    assert_eq!(join("/tmp/cdtest", "a/b"), "/tmp/cdtest/a/b");
}

#[test]
fn join_keeps_a_separator_that_is_there() {
    assert_eq!(join("/tmp/", "demo"), "/tmp/demo");
    assert_eq!(join("/", "demo"), "/demo");
}

#[test]
fn join_lets_an_absolute_name_stand() {
    assert_eq!(join("/var/tmp/cdtest", "/etc"), "/etc");
    assert_eq!(join("", "/etc"), "/etc");
}

#[test]
fn join_with_an_empty_side() {
    assert_eq!(join("/var/tmp/cdtest", ""), "/var/tmp/cdtest/");
    assert_eq!(join("", "demo"), "demo");
    assert_eq!(join("", ""), "");
}

#[test]
fn join_agrees_with_std() {
    let bases = ["", "/", "/tmp", "/tmp/", "rel", "rel/", "/var/tmp/cdtest", "é"];
    let names = ["", "/", "x", "/x", "x/", "a/b", "..", ".", "é", "//x"];
    for base in bases {
        for name in names {
            let theirs = std::path::Path::new(base).join(name);
            assert_eq!(join(base, name), theirs.to_str().unwrap());
        }
    }
}
