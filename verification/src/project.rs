//! The project context: one named scratch directory, where it lives and
//! how long it is kept.

use vstd::prelude::*;
use vstd::string::*;
use crate::error::{Error, ErrorView};
use crate::human::{parse_span, span_from_text};
use crate::path::{join, joined, CDTEST_ROOT_TMP, CDTEST_ROOT_VAR, CDTEST_TOML};
use crate::plan::{Action, ActionView, Step, StepView, steps_view};
use crate::store::{decode, decoded, encode, encoded, Record, RecordView};
use crate::time::{nanoseconds, Span, Timestamp};

verus! {

/// The retention period of a project that was given none: two weeks, in
/// seconds.
pub const DEFAULT_GC_DURATION: u64 = 604800 * 2;

/// What the caller found at a path.
#[derive(Clone, Debug, PartialEq, Eq)]
pub struct Probe {
    /// Whether the path is a directory, directly or through a link.
    pub is_dir: bool,
    /// Whether the path itself is a symbolic link.
    pub is_symlink: bool,
    /// The content of the metadata file in that directory, or `None` where
    /// it could not be read.
    pub metadata: Option<String>,
}

/// What was found at a path, in the model.
pub ghost struct ProbeView {
    pub is_dir: bool,
    pub is_symlink: bool,
    pub metadata: Option<Seq<char>>,
}

impl View for Probe {
    type V = ProbeView;

    open spec fn view(&self) -> ProbeView {
        ProbeView {
            is_dir: self.is_dir,
            is_symlink: self.is_symlink,
            metadata: match self.metadata {
                Some(text) => Some(text@),
                None => None,
            },
        }
    }
}

/// Temporary project configuration.
#[derive(Clone, Debug, PartialEq, Eq)]
pub struct Project {
    /// Name of temporary project. This is used to name the project directory.
    pub name: String,
    /// Last cdtest project access time.
    pub timestamp: Timestamp,
    /// Override already-set configuration.
    pub force_override: bool,
    /// Duration until collected as garbage. This is reset on access from cdtest.
    pub garbage_collection: Span,
    /// Whether project is temp-only.
    pub tmp_only: bool,
    /// Whether or not this project already existed.
    pub existing: bool,
}

/// A project in the model: the name as characters, the times in
/// nanoseconds.
pub ghost struct ProjectView {
    pub name: Seq<char>,
    pub timestamp: nat,
    pub force_override: bool,
    pub garbage_collection: nat,
    pub tmp_only: bool,
    pub existing: bool,
}

impl View for Project {
    type V = ProjectView;

    open spec fn view(&self) -> ProjectView {
        ProjectView {
            name: self.name@,
            timestamp: self.timestamp@,
            force_override: self.force_override,
            garbage_collection: self.garbage_collection@,
            tmp_only: self.tmp_only,
            existing: self.existing,
        }
    }
}

/// The step that removes a path, and goes on where that fails.
pub open spec fn remove_all(path: Seq<char>) -> StepView {
    StepView { action: ActionView::RemoveAll { path }, on_failure: None }
}

impl ProjectView {
    /// The directory of the project under the persistent root.
    pub open spec fn var_home(self) -> Seq<char> {
        joined(CDTEST_ROOT_VAR@, self.name)
    }

    /// The directory of the project, or the link to it, under the volatile
    /// root.
    pub open spec fn tmp_home(self) -> Seq<char> {
        joined(CDTEST_ROOT_TMP@, self.name)
    }

    /// The directory in which the project is kept.
    pub open spec fn home(self) -> Seq<char> {
        if self.tmp_only {
            self.tmp_home()
        } else {
            self.var_home()
        }
    }

    /// The path of the metadata file of the project.
    pub open spec fn metadata_file(self) -> Seq<char> {
        joined(self.home(), CDTEST_TOML@)
    }

    /// The part of the project that is written to its metadata file.
    pub open spec fn record(self) -> RecordView {
        RecordView {
            name: self.name,
            timestamp: self.timestamp,
            garbage_collection: self.garbage_collection,
        }
    }

    /// Whether settings from the command line replace those of the
    /// project: where that is forced, or the project is new.
    pub open spec fn overridable(self) -> bool {
        self.force_override || !self.existing
    }

    /// Whether at `now` more time has passed since the last access than
    /// the project is kept for.
    pub open spec fn expired(self, now: nat) -> bool {
        now >= self.timestamp && now - self.timestamp > self.garbage_collection
    }

    /// The step that writes the metadata file: the document of the project
    /// goes into the file in its directory. Where the project has no
    /// document, the plan stops there. Either way the step fails with the
    /// error of writing out.
    pub open spec fn write_step(self) -> StepView {
        StepView {
            action: match encoded(self.record()) {
                Some(document) => ActionView::WriteFile {
                    dir: self.home(),
                    name: CDTEST_TOML@,
                    content: document,
                },
                None => ActionView::Stop,
            },
            on_failure: Some(ErrorView::WriteOutFailed),
        }
    }

    /// The steps that set the project up: its directory; for a project
    /// under the persistent root, the link to it under the volatile root;
    /// and its metadata file.
    pub open spec fn setup_plan(self) -> Seq<StepView> {
        let directory = StepView {
            action: ActionView::EnsureDir { path: self.home() },
            on_failure: Some(ErrorView::ProjectSetupFailed),
        };
        let link = StepView {
            action: ActionView::EnsureLink { target: self.home(), link: self.tmp_home() },
            on_failure: Some(ErrorView::ProjectSetupFailed),
        };
        if self.tmp_only {
            seq![directory, self.write_step()]
        } else {
            seq![directory, link, self.write_step()]
        }
    }

    /// The steps that remove the project, where it has expired at `now`:
    /// its directory, and what stands for it under the volatile root.
    pub open spec fn removal_plan(self, now: nat) -> Seq<StepView> {
        if self.expired(now) {
            seq![remove_all(self.home()), remove_all(self.tmp_home())]
        } else {
            seq![]
        }
    }
}

/// The record that can be read from what was found at a path: the one in
/// the metadata file, where the path is a directory and the file was read.
pub open spec fn readable(probe: ProbeView) -> Option<RecordView> {
    if probe.is_dir {
        match probe.metadata {
            Some(text) => decoded(text),
            None => None,
        }
    } else {
        None
    }
}

/// The project with the settings of a record. No override is forced on it.
pub open spec fn stored(record: RecordView, tmp_only: bool, existing: bool) -> ProjectView {
    ProjectView {
        name: record.name,
        timestamp: record.timestamp,
        force_override: false,
        garbage_collection: record.garbage_collection,
        tmp_only,
        existing,
    }
}

/// A project as it is before anything is known of it: last entered at
/// `now`, kept for two weeks, under the persistent root, new.
pub open spec fn fresh(name: Seq<char>, now: nat) -> ProjectView {
    ProjectView {
        name,
        timestamp: now,
        force_override: false,
        garbage_collection: nanoseconds(DEFAULT_GC_DURATION, 0),
        tmp_only: false,
        existing: false,
    }
}

/// What loading the project directory `path` comes to.
pub open spec fn loaded(path: Seq<char>, probe: ProbeView) -> Result<ProjectView, ErrorView> {
    if !probe.is_dir {
        Err(ErrorView::ProjectDirectoryInvalid)
    } else {
        match probe.metadata {
            None => Err(ErrorView::ParseFailedPath { from: joined(path, CDTEST_TOML@) }),
            Some(text) => match decoded(text) {
                None => Err(ErrorView::ParseFailedToml { from: text }),
                Some(record) => Ok(stored(record, false, false)),
            },
        }
    }
}

/// The project that a name stands for, given what was found under the
/// persistent root (`var`) and under the volatile root (`tmp`): the one
/// stored under the persistent root; else the one stored under the
/// volatile root; else a fresh one.
pub open spec fn resolved(
    name: Seq<char>,
    var: ProbeView,
    tmp: ProbeView,
    now: nat,
) -> ProjectView {
    match readable(var) {
        Some(record) => stored(record, false, true),
        None => match readable(tmp) {
            Some(record) => stored(record, true, true),
            None => fresh(name, now),
        },
    }
}

/// The characters of a text that may be missing.
pub open spec fn text_view(text: Option<&str>) -> Option<Seq<char>> {
    match text {
        Some(t) => Some(t@),
        None => None,
    }
}

/// The length of a span that may be missing.
pub open spec fn span_view(span: Option<Span>) -> Option<nat> {
    match span {
        Some(s) => Some(s@),
        None => None,
    }
}

/// What given settings make of a project: nothing, unless the project is
/// overridable. Then the placement is replaced where one is given, and
/// the retention period where one is given.
pub open spec fn overridden(
    project: ProjectView,
    tmp_only: Option<bool>,
    garbage_collection: Option<nat>,
) -> ProjectView {
    if project.overridable() {
        ProjectView {
            tmp_only: match tmp_only {
                Some(wanted) => wanted,
                None => project.tmp_only,
            },
            garbage_collection: match garbage_collection {
                Some(span) => span,
                None => project.garbage_collection,
            },
            ..project
        }
    } else {
        project
    }
}

/// What the settings of the command line make of a project, the
/// retention period being given as a text: as [`overridden`], once the
/// text is read. On a project that is overridable the text has to be a
/// span; on any other it is not looked at.
pub open spec fn reconciled(
    project: ProjectView,
    tmp_only: Option<bool>,
    garbage_collection: Option<Seq<char>>,
) -> Result<ProjectView, ErrorView> {
    if !project.overridable() {
        Ok(project)
    } else {
        match garbage_collection {
            None => Ok(overridden(project, tmp_only, None)),
            Some(text) => match span_from_text(text) {
                Some(span) => Ok(overridden(project, tmp_only, Some(span))),
                None => Err(ErrorView::ParseFailedTime { from: text }),
            },
        }
    }
}

impl Project {
    /// A project without a name, as it is before anything is known of it.
    pub fn default(now: Timestamp) -> (project: Project)
        ensures
            project@ == fresh(Seq::empty(), now@),
    {
        Project {
            name: String::new(),
            timestamp: now,
            force_override: false,
            tmp_only: false,
            existing: false,
            garbage_collection: Span::from_secs(DEFAULT_GC_DURATION),
        }
    }

    /// Construct new temporary project context.
    ///
    /// `var` is what was found at the directory of `name` under the
    /// persistent root, `tmp` what was found at the one under the volatile
    /// root, and `now` the current time.
    pub fn new(name: &str, var: &Probe, tmp: &Probe, now: Timestamp) -> (project: Project)
        ensures
            project@ == resolved(name@, var@, tmp@, now@),
    {
        // Try to initialize from var
        let var_dir = join(CDTEST_ROOT_VAR, name);
        if let Ok(mut project) = Self::from_project_dir(var_dir.as_str(), var) {
            project.existing = true;
            return project;
        }
        // Try to initialize from tmp
        let tmp_dir = join(CDTEST_ROOT_TMP, name);
        if let Ok(mut project) = Self::from_project_dir(tmp_dir.as_str(), tmp) {
            project.tmp_only = true;
            project.existing = true;
            return project;
        }
        // Create new
        let mut project = Self::default(now);
        project.name = String::from_str(name);
        project
    }

    /// Read project context from what was found at the path itself.
    pub fn from_project_dir(path: &str, probe: &Probe) -> (outcome: Result<Project, Error>)
        ensures
            match outcome {
                Ok(project) => loaded(path@, probe@) == Ok::<ProjectView, ErrorView>(project@),
                Err(error) => loaded(path@, probe@) == Err::<ProjectView, ErrorView>(error@),
            },
    {
        if !probe.is_dir {
            return Err(Error::ProjectDirectoryInvalid);
        }
        let text = match &probe.metadata {
            Some(text) => text,
            None => {
                return Err(Error::ParseFailedPath { from: join(path, CDTEST_TOML) });
            },
        };
        match decode(text.as_str()) {
            Some(record) => Ok(
                Project {
                    name: record.name,
                    timestamp: record.timestamp,
                    force_override: false,
                    garbage_collection: record.garbage_collection,
                    tmp_only: false,
                    existing: false,
                },
            ),
            None => Err(Error::ParseFailedToml { from: text.clone() }),
        }
    }

    /// The home directory of project.
    pub fn home(&self) -> (path: String)
        ensures
            path@ == self@.home(),
    {
        match self.tmp_only {
            false => self.var_home(),
            true => self.tmp_home(),
        }
    }

    /// Var home of project.
    pub fn var_home(&self) -> (path: String)
        ensures
            path@ == self@.var_home(),
    {
        join(CDTEST_ROOT_VAR, self.name.as_str())
    }

    /// Tmp home of project.
    pub fn tmp_home(&self) -> (path: String)
        ensures
            path@ == self@.tmp_home(),
    {
        join(CDTEST_ROOT_TMP, self.name.as_str())
    }

    /// Replaces the placement and the retention period of the project by
    /// those given, where the project is overridable: new, or with the
    /// override forced.
    pub fn override_with(&mut self, tmp_only: Option<bool>, garbage_collection: Option<Span>)
        ensures
            final(self)@ == overridden(old(self)@, tmp_only, span_view(garbage_collection)),
    {
        if self.force_override || !self.existing {
            if let Some(wanted) = tmp_only {
                self.tmp_only = wanted;
            }
            if let Some(span) = garbage_collection {
                self.garbage_collection = span;
            }
        }
    }

    /// Brings the settings of the command line into the project:
    /// `tmp_only` where a placement was asked for, `garbage_collection`
    /// where a retention period was. On an error the project is as before.
    pub fn reconcile(
        &mut self,
        tmp_only: Option<bool>,
        garbage_collection: Option<&str>,
    ) -> (outcome: Result<(), Error>)
        ensures
            match outcome {
                Ok(_) => reconciled(old(self)@, tmp_only, text_view(garbage_collection)) == Ok::<
                    ProjectView,
                    ErrorView,
                >(final(self)@),
                Err(error) => reconciled(old(self)@, tmp_only, text_view(garbage_collection))
                    == Err::<ProjectView, ErrorView>(error@) && final(self)@ == old(self)@,
            },
    {
        if self.force_override || !self.existing {
            let span = match garbage_collection {
                Some(text) => match parse_span(text) {
                    Some(span) => Some(span),
                    None => {
                        return Err(Error::ParseFailedTime { from: String::from_str(text) });
                    },
                },
                None => None,
            };
            self.override_with(tmp_only, span);
        }
        Ok(())
    }

    /// The part of the project that is written to its metadata file.
    pub fn record(&self) -> (record: Record)
        ensures
            record@ == self@.record(),
    {
        Record {
            name: self.name.clone(),
            timestamp: self.timestamp,
            garbage_collection: self.garbage_collection,
        }
    }

    /// Initialize temporary project directory: stamps the project with
    /// `now` and plans its directory, its link and its metadata file. The
    /// directory and the link come first; where the project cannot be
    /// written out, the plan ends with that error after them.
    pub fn initialize(&mut self, now: Timestamp) -> (steps: Vec<Step>)
        ensures
            final(self)@ == (ProjectView { timestamp: now@, ..old(self)@ }),
            steps_view(steps@) == final(self)@.setup_plan(),
    {
        self.timestamp = now;
        let home = self.home();
        let mut steps: Vec<Step> = Vec::new();
        steps.push(
            Step {
                action: Action::EnsureDir { path: home.clone() },
                on_failure: Some(Error::ProjectSetupFailed),
            },
        );
        if !self.tmp_only {
            steps.push(
                Step {
                    action: Action::EnsureLink { target: home, link: self.tmp_home() },
                    on_failure: Some(Error::ProjectSetupFailed),
                },
            );
        }
        let write = match self.write_out() {
            Ok(step) => step,
            Err(error) => Step { action: Action::Stop, on_failure: Some(error) },
        };
        steps.push(write);
        proof {
            assert(steps_view(steps@) =~= self@.setup_plan());
        }
        steps
    }

    /// Write project context out to file: plans the write of the metadata
    /// file, or fails where the project has no document.
    pub fn write_out(&self) -> (outcome: Result<Step, Error>)
        ensures
            match outcome {
                Ok(step) => encoded(self@.record()) is Some && step@ == self@.write_step(),
                Err(error) => encoded(self@.record()) is None && error@
                    == ErrorView::WriteOutFailed,
            },
    {
        let as_toml = match encode(&self.record()) {
            Some(text) => text,
            None => {
                return Err(Error::WriteOutFailed);
            },
        };
        Ok(
            Step {
                action: Action::WriteFile {
                    dir: self.home(),
                    name: String::from_str(CDTEST_TOML),
                    content: as_toml,
                },
                on_failure: Some(Error::WriteOutFailed),
            },
        )
    }

    /// Whether the project has expired at `now`.
    pub fn expired(&self, now: Timestamp) -> (expired: bool)
        ensures
            expired == self@.expired(now@),
    {
        match now.since(&self.timestamp) {
            Some(time_since) => time_since.longer_than(&self.garbage_collection),
            None => false,
        }
    }

    /// Collect garbage, removing project if necessary: plans the removal
    /// of the project where it has expired at `now`.
    pub fn garbage_collect(&self, now: Timestamp) -> (steps: Vec<Step>)
        ensures
            steps_view(steps@) == self@.removal_plan(now@),
    {
        let mut steps: Vec<Step> = Vec::new();
        if self.expired(now) {
            steps.push(Step { action: Action::RemoveAll { path: self.home() }, on_failure: None });
            steps.push(
                Step { action: Action::RemoveAll { path: self.tmp_home() }, on_failure: None },
            );
        }
        proof {
            assert(steps_view(steps@) =~= self@.removal_plan(now@));
        }
        steps
    }
}

} // verus!
