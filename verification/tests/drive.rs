use cdtest::drive::{begin, proceed, Command, Progress};
use cdtest::error::Error;
use cdtest::plan::{initialize_cdtest, Action, Step};
use cdtest::project::Project;
use cdtest::time::{Span, Timestamp};

#[derive(Clone, Copy, Debug, PartialEq, Eq)]
enum Kind {
    Dir,
    Link,
    File,
}

/// A disk for the tests: it keeps what stands at which path, refuses
/// what it is told to refuse, and lists what it was asked.
struct Fake {
    nodes: Vec<(String, Kind)>,
    refuses: Vec<String>,
    log: Vec<String>,
}

impl Fake {
    fn new(nodes: &[(&str, Kind)], refuses: &[&str]) -> Fake {
        Fake {
            nodes: nodes.iter().map(|(path, kind)| (path.to_string(), *kind)).collect(),
            refuses: refuses.iter().map(|path| path.to_string()).collect(),
            log: Vec::new(),
        }
    }

    fn kind(&self, path: &str) -> Option<Kind> {
        self.nodes.iter().find(|(p, _)| p == path).map(|(_, kind)| *kind)
    }

    fn make(&mut self, path: &str, kind: Kind) -> bool {
        if self.kind(path).is_some() || self.refuses.iter().any(|p| p == path) {
            return false;
        }
        self.nodes.push((path.to_string(), kind));
        true
    }

    fn answer(&mut self, command: &Command) -> bool {
        match command {
            Command::Exists { path } => {
                self.log.push(format!("exists {}", path));
                self.kind(path).is_some()
            }
            Command::CreateDir { path } => {
                self.log.push(format!("create_dir {}", path));
                self.make(path, Kind::Dir)
            }
            Command::Symlink { target, link } => {
                self.log.push(format!("symlink {} {}", target, link));
                self.make(link, Kind::Link)
            }
            Command::Write { dir, name, .. } => {
                self.log.push(format!("write {} {}", dir, name));
                let path = format!("{}/{}", dir, name);
                if self.kind(dir) != Some(Kind::Dir) || self.refuses.contains(&path) {
                    return false;
                }
                match self.kind(&path) {
                    None => self.make(&path, Kind::File),
                    Some(kind) => kind == Kind::File,
                }
            }
            Command::RemoveAll { path } => {
                self.log.push(format!("remove_all {}", path));
                let stood = self.kind(path).is_some() && !self.refuses.iter().any(|p| p == *path);
                if stood {
                    self.nodes.retain(|(p, _)| p != *path);
                }
                stood
            }
            Command::Finish { .. } => panic!("the end is not to be answered"),
        }
    }

    fn run(&mut self, steps: &Vec<Step>) -> Result<(), Error> {
        let (mut progress, mut command) = begin(steps);
        for _ in 0..100 {
            if let Command::Finish { error } = command {
                return match error {
                    Some(error) => Err(error.clone()),
                    None => Ok(()),
                };
            }
            let ok = self.answer(&command);
            (progress, command) = proceed(steps, progress, ok);
        }
        panic!("the plan does not end");
    }
}

fn project(name: &str, tmp_only: bool) -> Project {
    Project {
        name: name.to_string(),
        timestamp: Timestamp::new(0, 0).unwrap(),
        force_override: false,
        garbage_collection: Span::from_secs(1),
        tmp_only,
        existing: false,
    }
}

fn setup(name: &str, tmp_only: bool) -> Vec<Step> {
    project(name, tmp_only).initialize(Timestamp::new(5, 0).unwrap())
}

#[test]
fn empty_plan_ends_at_once() {
    let steps: Vec<Step> = Vec::new();
    let (progress, command) = begin(&steps);
    assert_eq!(command, Command::Finish { error: None });
    assert_eq!(progress, Progress { step: 0, acting: false });
    let (_, again) = proceed(&steps, progress, true);
    assert_eq!(again, Command::Finish { error: None });
}

#[test]
fn roots_are_asked_for_before_they_are_made() {
    let mut disk = Fake::new(&[("/tmp/cdtest", Kind::Dir)], &[]);
    assert_eq!(disk.run(&initialize_cdtest()), Ok(()));
    assert_eq!(
        disk.log,
        vec!["exists /var/tmp/cdtest", "create_dir /var/tmp/cdtest", "exists /tmp/cdtest"]
    );
}

#[test]
fn roots_that_cannot_be_made_end_the_plan() {
    let mut disk = Fake::new(&[], &["/var/tmp/cdtest"]);
    assert_eq!(disk.run(&initialize_cdtest()), Err(Error::InitializeVarFailed));
    assert_eq!(disk.log, vec!["exists /var/tmp/cdtest", "create_dir /var/tmp/cdtest"]);

    let mut disk = Fake::new(&[], &["/tmp/cdtest"]);
    assert_eq!(disk.run(&initialize_cdtest()), Err(Error::InitializeTmpFailed));
    assert_eq!(
        disk.log,
        vec![
            "exists /var/tmp/cdtest",
            "create_dir /var/tmp/cdtest",
            "exists /tmp/cdtest",
            "create_dir /tmp/cdtest"
        ]
    );
}

#[test]
fn setup_of_a_new_project_makes_directory_link_and_file() {
    let mut disk = Fake::new(&[], &[]);
    assert_eq!(disk.run(&setup("P", false)), Ok(()));
    assert_eq!(
        disk.log,
        vec![
            "exists /var/tmp/cdtest/P",
            "create_dir /var/tmp/cdtest/P",
            "exists /tmp/cdtest/P",
            "symlink /var/tmp/cdtest/P /tmp/cdtest/P",
            "write /var/tmp/cdtest/P .cdtest.toml",
        ]
    );
    assert_eq!(disk.kind("/var/tmp/cdtest/P"), Some(Kind::Dir));
    assert_eq!(disk.kind("/tmp/cdtest/P"), Some(Kind::Link));
    assert_eq!(disk.kind("/var/tmp/cdtest/P/.cdtest.toml"), Some(Kind::File));
}

#[test]
fn setup_of_an_existing_project_only_writes() {
    let mut disk =
        Fake::new(&[("/var/tmp/cdtest/P", Kind::Dir), ("/tmp/cdtest/P", Kind::Link)], &[]);
    assert_eq!(disk.run(&setup("P", false)), Ok(()));
    assert_eq!(
        disk.log,
        vec![
            "exists /var/tmp/cdtest/P",
            "exists /tmp/cdtest/P",
            "write /var/tmp/cdtest/P .cdtest.toml",
        ]
    );
}

#[test]
fn setup_makes_no_link_where_something_stands_in_its_place() {
    // A file, a directory or a link that leads nowhere: each is left alone.
    for kind in [Kind::File, Kind::Dir, Kind::Link] {
        let mut disk = Fake::new(&[("/var/tmp/cdtest/P", Kind::Dir), ("/tmp/cdtest/P", kind)], &[]);
        assert_eq!(disk.run(&setup("P", false)), Ok(()));
        assert_eq!(
            disk.log,
            vec![
                "exists /var/tmp/cdtest/P",
                "exists /tmp/cdtest/P",
                "write /var/tmp/cdtest/P .cdtest.toml",
            ]
        );
        assert_eq!(disk.kind("/tmp/cdtest/P"), Some(kind));
    }
}

#[test]
fn setup_makes_no_directory_where_a_file_stands_in_its_place() {
    let mut disk = Fake::new(&[("/var/tmp/cdtest/P", Kind::File)], &[]);
    assert_eq!(disk.run(&setup("P", false)), Err(Error::WriteOutFailed));
    assert_eq!(
        disk.log,
        vec![
            "exists /var/tmp/cdtest/P",
            "exists /tmp/cdtest/P",
            "symlink /var/tmp/cdtest/P /tmp/cdtest/P",
            "write /var/tmp/cdtest/P .cdtest.toml",
        ]
    );
    assert_eq!(disk.kind("/var/tmp/cdtest/P"), Some(Kind::File));
}

#[test]
fn setup_of_a_volatile_project_stays_under_the_volatile_root() {
    let mut disk = Fake::new(&[], &[]);
    assert_eq!(disk.run(&setup("Q", true)), Ok(()));
    assert_eq!(
        disk.log,
        vec!["exists /tmp/cdtest/Q", "create_dir /tmp/cdtest/Q", "write /tmp/cdtest/Q .cdtest.toml"]
    );
    assert!(disk.nodes.iter().all(|(path, _)| !path.starts_with("/var/tmp/cdtest")));
}

#[test]
fn setup_fails_with_the_error_of_the_step() {
    let steps = setup("P", false);
    let mut disk = Fake::new(&[], &["/var/tmp/cdtest/P"]);
    assert_eq!(disk.run(&steps), Err(Error::ProjectSetupFailed));
    assert_eq!(disk.log.len(), 2);

    let mut disk = Fake::new(&[], &["/tmp/cdtest/P"]);
    assert_eq!(disk.run(&steps), Err(Error::ProjectSetupFailed));
    assert_eq!(disk.log.len(), 4);

    let mut disk = Fake::new(&[], &["/var/tmp/cdtest/P/.cdtest.toml"]);
    assert_eq!(disk.run(&steps), Err(Error::WriteOutFailed));
    assert_eq!(disk.log.len(), 5);
}

#[test]
fn setup_makes_directory_and_link_before_it_gives_up_writing() {
    // After the year 9999 there is nothing to write.
    let steps = project("P", false).initialize(Timestamp::new(253_402_300_800, 0).unwrap());
    let mut disk = Fake::new(&[], &[]);
    assert_eq!(disk.run(&steps), Err(Error::WriteOutFailed));
    assert_eq!(
        disk.log,
        vec![
            "exists /var/tmp/cdtest/P",
            "create_dir /var/tmp/cdtest/P",
            "exists /tmp/cdtest/P",
            "symlink /var/tmp/cdtest/P /tmp/cdtest/P",
        ]
    );
    // Where the directory cannot be made, that is the error.
    let mut disk = Fake::new(&[], &["/var/tmp/cdtest/P"]);
    assert_eq!(disk.run(&steps), Err(Error::ProjectSetupFailed));
}

#[test]
fn removal_goes_on_after_a_failure() {
    let steps = project("old", false).garbage_collect(Timestamp::new(10, 0).unwrap());
    let mut disk = Fake::new(&[], &["/var/tmp/cdtest/old", "/tmp/cdtest/old"]);
    assert_eq!(disk.run(&steps), Ok(()));
    assert_eq!(disk.log, vec!["remove_all /var/tmp/cdtest/old", "remove_all /tmp/cdtest/old"]);
}

#[test]
fn removal_takes_directory_and_link() {
    let steps = project("old", false).garbage_collect(Timestamp::new(10, 0).unwrap());
    let mut disk =
        Fake::new(&[("/var/tmp/cdtest/old", Kind::Dir), ("/tmp/cdtest/old", Kind::Link)], &[]);
    assert_eq!(disk.run(&steps), Ok(()));
    assert_eq!(disk.kind("/var/tmp/cdtest/old"), None);
    assert_eq!(disk.kind("/tmp/cdtest/old"), None);
}

#[test]
fn proceed_step_by_step() {
    let steps = vec![
        Step {
            action: Action::EnsureDir { path: "/a".to_string() },
            on_failure: Some(Error::ProjectSetupFailed),
        },
        Step { action: Action::RemoveAll { path: "/b".to_string() }, on_failure: None },
    ];
    let a = "/a".to_string();
    let b = "/b".to_string();
    let (progress, command) = begin(&steps);
    assert_eq!(progress, Progress { step: 0, acting: false });
    assert_eq!(command, Command::Exists { path: &a });
    // Answered with no, the question is followed by the operation.
    let (acting, command) = proceed(&steps, progress, false);
    assert_eq!(acting, Progress { step: 0, acting: true });
    assert_eq!(command, Command::CreateDir { path: &a });
    // Answered with yes, it is followed by the next step.
    let (next, command) = proceed(&steps, progress, true);
    assert_eq!(next, Progress { step: 1, acting: true });
    assert_eq!(command, Command::RemoveAll { path: &b });
    // The operation that succeeds is followed by the next step as well.
    assert_eq!(proceed(&steps, acting, true), (next, Command::RemoveAll { path: &b }));
    // The operation that fails ends the plan with the error of its step.
    let (ended, command) = proceed(&steps, acting, false);
    assert_eq!(command, Command::Finish { error: Some(&Error::ProjectSetupFailed) });
    assert_eq!(ended, Progress { step: 2, acting: false });
    // A step without an error is passed over when it fails.
    assert_eq!(proceed(&steps, next, false).1, Command::Finish { error: None });
    assert_eq!(proceed(&steps, next, true).1, Command::Finish { error: None });
}

#[test]
fn stop_ends_the_plan_with_its_error() {
    let stop = Step { action: Action::Stop, on_failure: Some(Error::WriteOutFailed) };
    let after = Step { action: Action::RemoveAll { path: "/b".to_string() }, on_failure: None };
    let steps = vec![stop.clone(), after.clone()];
    let (progress, command) = begin(&steps);
    assert_eq!(command, Command::Finish { error: Some(&Error::WriteOutFailed) });
    assert_eq!(progress, Progress { step: 2, acting: false });

    let steps = vec![after, stop, Step { action: Action::Stop, on_failure: None }];
    let (progress, _) = begin(&steps);
    let (_, command) = proceed(&steps, progress, true);
    assert_eq!(command, Command::Finish { error: Some(&Error::WriteOutFailed) });
    let last = steps[2..].to_vec();
    let (_, command) = begin(&last);
    assert_eq!(command, Command::Finish { error: None });
}
