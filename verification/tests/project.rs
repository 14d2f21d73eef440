use cdtest::error::Error;
use cdtest::plan::{initialize_cdtest, Action, Step};
use cdtest::project::{Probe, Project, DEFAULT_GC_DURATION};
use cdtest::time::{Span, Timestamp};

const WEEK: u64 = 604_800;
const DAY: u64 = 86_400;

fn at(secs: u64) -> Timestamp {
    Timestamp::new(secs, 0).unwrap()
}

fn project(name: &str, stamp: u64, keep: u64) -> Project {
    Project {
        name: name.to_string(),
        timestamp: at(stamp),
        force_override: false,
        garbage_collection: Span::from_secs(keep),
        tmp_only: false,
        existing: false,
    }
}

fn absent() -> Probe {
    Probe { is_dir: false, is_symlink: false, metadata: None }
}

fn holding(text: &str) -> Probe {
    Probe { is_dir: true, is_symlink: false, metadata: Some(text.to_string()) }
}

fn metadata(name: &str, timestamp: &str, gc: &str) -> String {
    format!("name = \"{}\"\ntimestamp = \"{}\"\ngarbage_collection = \"{}\"\n", name, timestamp, gc)
}

fn ensure_dir(path: &str, error: Error) -> Step {
    Step { action: Action::EnsureDir { path: path.to_string() }, on_failure: Some(error) }
}

fn remove_all(path: &str) -> Step {
    Step { action: Action::RemoveAll { path: path.to_string() }, on_failure: None }
}

#[test]
fn default_retention_is_two_weeks() {
    assert_eq!(DEFAULT_GC_DURATION, 1_209_600);
    assert_eq!(DEFAULT_GC_DURATION, 2 * WEEK);
}

#[test]
fn roots_are_planned_first_var_then_tmp() {
    assert_eq!(
        initialize_cdtest(),
        vec![
            ensure_dir("/var/tmp/cdtest", Error::InitializeVarFailed),
            ensure_dir("/tmp/cdtest", Error::InitializeTmpFailed),
        ]
    );
}

#[test]
fn default_project_is_nameless_and_new() {
    let p = Project::default(at(77));
    assert_eq!(p, project("", 77, 2 * WEEK));
}

#[test]
fn new_prefers_the_persistent_root() {
    let var = holding(metadata("demo", "2018-02-14T00:28:07Z", "1h").as_str());
    let tmp = holding(metadata("demo", "2020-01-01T00:00:00Z", "2h").as_str());
    let p = Project::new("demo", &var, &tmp, at(5));
    let mut expected = project("demo", 1_518_568_087, 3_600);
    expected.existing = true;
    assert_eq!(p, expected);
    assert!(!p.tmp_only);
}

#[test]
fn new_falls_back_to_the_volatile_root() {
    let tmp = holding(metadata("demo", "2020-01-01T00:00:00Z", "2h").as_str());
    for var in [absent(), holding("garbage"), Probe { is_dir: true, is_symlink: false, metadata: None }] {
        let p = Project::new("demo", &var, &tmp, at(5));
        let mut expected = project("demo", 1_577_836_800, 7_200);
        expected.existing = true;
        expected.tmp_only = true;
        assert_eq!(p, expected);
    }
}

#[test]
fn new_makes_a_fresh_project_where_none_is_stored() {
    let p = Project::new("demo", &absent(), &absent(), at(1_700_000_000));
    assert_eq!(p, project("demo", 1_700_000_000, 1_209_600));
    assert!(!p.existing);
    assert!(!p.tmp_only);
    assert!(!p.force_override);
}

#[test]
fn new_does_not_read_a_file_outside_a_directory() {
    let text = metadata("demo", "2018-02-14T00:28:07Z", "1h");
    let stray = Probe { is_dir: false, is_symlink: false, metadata: Some(text) };
    let p = Project::new("demo", &stray, &stray, at(9));
    assert_eq!(p, project("demo", 9, 1_209_600));
}

#[test]
fn new_keeps_the_stored_name() {
    let var = holding(metadata("other", "2018-02-14T00:28:07Z", "1h").as_str());
    let p = Project::new("demo", &var, &absent(), at(5));
    assert_eq!(p.name, "other");
}

#[test]
fn from_project_dir_loads_the_record() {
    let probe = holding(metadata("demo", "2018-02-14T00:28:07Z", "2weeks").as_str());
    let p = Project::from_project_dir("/var/tmp/cdtest/demo", &probe);
    assert_eq!(p, Ok(project("demo", 1_518_568_087, 1_209_600)));
}

#[test]
fn from_project_dir_needs_a_directory() {
    let text = metadata("demo", "2018-02-14T00:28:07Z", "1h");
    let probe = Probe { is_dir: false, is_symlink: true, metadata: Some(text) };
    assert_eq!(
        Project::from_project_dir("/var/tmp/cdtest/demo", &probe),
        Err(Error::ProjectDirectoryInvalid)
    );
    assert_eq!(Project::from_project_dir("/x", &absent()), Err(Error::ProjectDirectoryInvalid));
}

#[test]
fn from_project_dir_names_the_file_it_could_not_read() {
    let probe = Probe { is_dir: true, is_symlink: false, metadata: None };
    assert_eq!(
        Project::from_project_dir("/var/tmp/cdtest/demo", &probe),
        Err(Error::ParseFailedPath { from: "/var/tmp/cdtest/demo/.cdtest.toml".to_string() })
    );
}

#[test]
fn from_project_dir_hands_back_what_it_could_not_parse() {
    for text in ["", "garbage", "name = 'demo'\n", "name = 1\ntimestamp = 2\n"] {
        assert_eq!(
            Project::from_project_dir("/var/tmp/cdtest/demo", &holding(text)),
            Err(Error::ParseFailedToml { from: text.to_string() })
        );
    }
}

#[test]
fn homes_are_under_the_two_roots() {
    let mut p = project("demo", 0, 1);
    assert_eq!(p.var_home(), "/var/tmp/cdtest/demo");
    assert_eq!(p.tmp_home(), "/tmp/cdtest/demo");
    assert_eq!(p.home(), "/var/tmp/cdtest/demo");
    p.tmp_only = true;
    assert_eq!(p.home(), "/tmp/cdtest/demo");
    assert_eq!(p.var_home(), "/var/tmp/cdtest/demo");
}

#[test]
fn homes_of_odd_names() {
    assert_eq!(project("", 0, 1).home(), "/var/tmp/cdtest/");
    assert_eq!(project("a/b", 0, 1).tmp_home(), "/tmp/cdtest/a/b");
    assert_eq!(project("/abs", 0, 1).home(), "/abs");
    assert_eq!(project("/abs", 0, 1).tmp_home(), "/abs");
}

#[test]
fn reconcile_leaves_an_existing_project_alone() {
    let mut p = project("demo", 10, 2 * WEEK);
    p.existing = true;
    let before = p.clone();
    assert_eq!(p.reconcile(Some(true), Some("1h")), Ok(()));
    assert_eq!(p, before);
    // Not even a bad period is looked at.
    assert_eq!(p.reconcile(Some(true), Some("no period")), Ok(()));
    assert_eq!(p, before);
}

#[test]
fn reconcile_overrides_an_existing_project_when_forced() {
    let mut p = project("demo", 10, 2 * WEEK);
    p.existing = true;
    p.force_override = true;
    assert_eq!(p.reconcile(Some(true), Some("1h")), Ok(()));
    assert!(p.tmp_only);
    assert_eq!(p.garbage_collection, Span::from_secs(3_600));
    assert_eq!(p.timestamp, at(10));
    assert!(p.existing);
    assert!(p.force_override);
    assert_eq!(p.name, "demo");
}

#[test]
fn override_with_is_gated() {
    let mut stored = project("demo", 10, 2 * WEEK);
    stored.existing = true;
    let before = stored.clone();
    stored.override_with(Some(true), Some(Span::from_secs(3_600)));
    assert_eq!(stored, before);

    let mut forced = before.clone();
    forced.force_override = true;
    forced.override_with(Some(true), Some(Span::from_secs(3_600)));
    assert!(forced.tmp_only);
    assert_eq!(forced.garbage_collection, Span::from_secs(3_600));
    assert_eq!(forced.name, "demo");
    assert_eq!(forced.timestamp, at(10));
    assert!(forced.existing && forced.force_override);

    let mut new = project("demo", 10, 2 * WEEK);
    new.override_with(None, Some(Span::new(0, 5).unwrap()));
    assert!(!new.tmp_only);
    assert_eq!(new.garbage_collection, Span::new(0, 5).unwrap());
    new.override_with(Some(true), None);
    assert!(new.tmp_only);
    assert_eq!(new.garbage_collection, Span::new(0, 5).unwrap());
}

#[test]
fn reconcile_applies_to_a_new_project() {
    let mut p = project("demo", 10, 2 * WEEK);
    assert_eq!(p.reconcile(Some(true), Some("3 days")), Ok(()));
    assert!(p.tmp_only);
    assert_eq!(p.garbage_collection, Span::from_secs(3 * DAY));
}

#[test]
fn reconcile_changes_only_what_was_given() {
    let mut p = project("demo", 10, 2 * WEEK);
    p.tmp_only = true;
    assert_eq!(p.reconcile(None, None), Ok(()));
    assert!(p.tmp_only);
    assert_eq!(p.garbage_collection, Span::from_secs(2 * WEEK));
    assert_eq!(p.reconcile(Some(false), None), Ok(()));
    assert!(!p.tmp_only);
    assert_eq!(p.garbage_collection, Span::from_secs(2 * WEEK));
    assert_eq!(p.reconcile(None, Some("1s")), Ok(()));
    assert!(!p.tmp_only);
    assert_eq!(p.garbage_collection, Span::from_secs(1));
}

#[test]
fn reconcile_reports_a_bad_period_and_changes_nothing() {
    let mut p = project("demo", 10, 2 * WEEK);
    let before = p.clone();
    assert_eq!(
        p.reconcile(Some(true), Some("a while")),
        Err(Error::ParseFailedTime { from: "a while".to_string() })
    );
    assert_eq!(p, before);
    assert_eq!(
        p.reconcile(None, Some("18446744073709551615s 1000ms")),
        Err(Error::ParseFailedTime { from: "18446744073709551615s 1000ms".to_string() })
    );
    assert_eq!(p, before);
}

fn write_file(dir: &str, content: String) -> Step {
    Step {
        action: Action::WriteFile {
            dir: dir.to_string(),
            name: ".cdtest.toml".to_string(),
            content,
        },
        on_failure: Some(Error::WriteOutFailed),
    }
}

#[test]
fn initialize_plans_directory_link_and_file() {
    let mut p = project("P", 10, 2 * WEEK);
    let steps = p.initialize(at(1_518_568_087));
    assert_eq!(p.timestamp, at(1_518_568_087));
    assert_eq!(
        steps,
        vec![
            ensure_dir("/var/tmp/cdtest/P", Error::ProjectSetupFailed),
            Step {
                action: Action::EnsureLink {
                    target: "/var/tmp/cdtest/P".to_string(),
                    link: "/tmp/cdtest/P".to_string(),
                },
                on_failure: Some(Error::ProjectSetupFailed),
            },
            write_file("/var/tmp/cdtest/P", metadata("P", "2018-02-14T00:28:07Z", "14days")),
        ]
    );
}

#[test]
fn initialize_plans_no_link_for_a_volatile_project() {
    let mut q = project("Q", 10, 3_600);
    q.tmp_only = true;
    let steps = q.initialize(at(1_518_568_087));
    assert_eq!(
        steps,
        vec![
            ensure_dir("/tmp/cdtest/Q", Error::ProjectSetupFailed),
            write_file("/tmp/cdtest/Q", metadata("Q", "2018-02-14T00:28:07Z", "1h")),
        ]
    );
    for step in steps {
        let path = match step.action {
            Action::EnsureDir { path } => path,
            Action::WriteFile { dir, .. } => dir,
            Action::EnsureLink { link, .. } => link,
            Action::RemoveAll { path } => path,
            Action::Stop => panic!("the plan was to write"),
        };
        assert!(!path.starts_with("/var/tmp/cdtest"));
    }
}

#[test]
fn initialize_stamps_even_backwards() {
    let mut p = project("P", 500, 1);
    assert_eq!(p.initialize(at(400)).len(), 3);
    assert_eq!(p.timestamp, at(400));
}

#[test]
fn initialize_plans_directory_and_link_before_it_gives_up_writing() {
    let mut p = project("P", 10, 1);
    let steps = p.initialize(at(253_402_300_800));
    assert_eq!(p.timestamp, at(253_402_300_800));
    assert_eq!(
        steps,
        vec![
            ensure_dir("/var/tmp/cdtest/P", Error::ProjectSetupFailed),
            Step {
                action: Action::EnsureLink {
                    target: "/var/tmp/cdtest/P".to_string(),
                    link: "/tmp/cdtest/P".to_string(),
                },
                on_failure: Some(Error::ProjectSetupFailed),
            },
            Step { action: Action::Stop, on_failure: Some(Error::WriteOutFailed) },
        ]
    );
    let mut q = project("Q", 10, 1);
    q.tmp_only = true;
    assert_eq!(
        q.initialize(at(253_402_300_800)),
        vec![
            ensure_dir("/tmp/cdtest/Q", Error::ProjectSetupFailed),
            Step { action: Action::Stop, on_failure: Some(Error::WriteOutFailed) },
        ]
    );
}

#[test]
fn write_out_plans_the_metadata_file() {
    let mut p = project("demo", 1, 90);
    p.force_override = true;
    p.existing = true;
    assert_eq!(
        p.write_out(),
        Ok(write_file("/var/tmp/cdtest/demo", metadata("demo", "1970-01-01T00:00:01Z", "1m 30s")))
    );
    p.tmp_only = true;
    match p.write_out().unwrap().action {
        Action::WriteFile { dir, name, .. } => {
            assert_eq!(dir, "/tmp/cdtest/demo");
            assert_eq!(name, ".cdtest.toml");
        }
        _ => panic!("a write was expected"),
    }
}

#[test]
fn write_out_fails_where_the_record_cannot_be_written() {
    assert_eq!(project("demo", 253_402_300_800, 1).write_out(), Err(Error::WriteOutFailed));
    let mut longest = project("demo", 1, u64::MAX);
    assert!(longest.write_out().is_ok());
    longest.garbage_collection = Span::new(u64::MAX, 1).unwrap();
    assert_eq!(longest.write_out(), Err(Error::WriteOutFailed));
}

#[test]
fn written_project_is_loaded_again() {
    let mut p = project("round trip", 1_518_568_087, 3 * DAY + 5);
    p.force_override = true;
    p.tmp_only = true;
    p.existing = true;
    let content = match p.write_out().unwrap().action {
        Action::WriteFile { content, .. } => content,
        _ => panic!("a write was expected"),
    };
    let loaded = Project::from_project_dir("/tmp/cdtest/x", &holding(content.as_str())).unwrap();
    assert_eq!(loaded, project("round trip", 1_518_568_087, 3 * DAY + 5));
    assert_eq!(loaded.record(), p.record());
}

#[test]
fn garbage_collect_removes_after_three_weeks_of_two() {
    let now: u64 = 1_700_000_000;
    let p = project("old", now - 3 * WEEK, 2 * WEEK);
    assert!(p.expired(at(now)));
    assert_eq!(
        p.garbage_collect(at(now)),
        vec![remove_all("/var/tmp/cdtest/old"), remove_all("/tmp/cdtest/old")]
    );
}

#[test]
fn garbage_collect_keeps_after_a_day_of_two_weeks() {
    let now: u64 = 1_700_000_000;
    let p = project("young", now - DAY, 2 * WEEK);
    assert!(!p.expired(at(now)));
    assert_eq!(p.garbage_collect(at(now)), Vec::new());
}

#[test]
fn garbage_collect_keeps_at_the_very_end_of_the_period() {
    let p = project("edge", 1_000, 50);
    assert!(!p.expired(at(1_050)));
    assert!(p.expired(Timestamp::new(1_050, 1).unwrap()));
    assert!(p.expired(at(1_051)));
    assert!(!p.expired(at(1_000)));
}

#[test]
fn garbage_collect_keeps_a_project_from_the_future() {
    let p = project("ahead", 2_000, 0);
    assert!(!p.expired(at(1_000)));
    assert_eq!(p.garbage_collect(at(1_000)), Vec::new());
    assert!(!p.expired(at(2_000)));
    assert!(p.expired(at(2_001)));
}

#[test]
fn garbage_collect_of_a_volatile_project_names_its_home_twice() {
    let mut p = project("vol", 0, 1);
    p.tmp_only = true;
    assert_eq!(
        p.garbage_collect(at(10)),
        vec![remove_all("/tmp/cdtest/vol"), remove_all("/tmp/cdtest/vol")]
    );
}

#[test]
fn expired_does_not_overflow_at_the_ends() {
    let last = Timestamp::new(u64::MAX, 999_999_999).unwrap();
    let mut p = project("far", 0, u64::MAX);
    assert!(p.expired(last));
    p.garbage_collection = Span::new(u64::MAX, 999_999_998).unwrap();
    assert!(p.expired(last));
    p.garbage_collection = Span::new(u64::MAX, 999_999_999).unwrap();
    assert!(!p.expired(last));
    p.timestamp = last;
    assert!(!p.expired(at(0)));
    assert!(!p.expired(last));
}
