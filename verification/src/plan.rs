//! What has to happen on disk, as a list of steps for the caller to carry
//! out in order.

use vstd::prelude::*;
use vstd::string::*;
use crate::error::{Error, ErrorView};
use crate::path::{CDTEST_ROOT_TMP, CDTEST_ROOT_VAR};

verus! {

/// One thing to do in a plan.
#[derive(Clone, Debug, PartialEq, Eq)]
pub enum Action {
    /// Create the directory `path`, unless something stands at `path`
    /// already, be it a directory or not.
    EnsureDir { path: String },
    /// Create a symbolic link at `link` that points to `target`, unless
    /// something stands at `link` already, be it a link or not.
    EnsureLink { target: String, link: String },
    /// Write `content` to the file `name` in the directory `dir`, in place
    /// of what the file held.
    WriteFile { dir: String, name: String, content: String },
    /// Remove `path` and everything below it; a symbolic link is removed
    /// and not followed.
    RemoveAll { path: String },
    /// Go no further: the plan ends here, with the error of the step, or
    /// well where the step has none.
    Stop,
}

/// A step of a plan: what to do, and what to report where it cannot be
/// done.
#[derive(Clone, Debug, PartialEq, Eq)]
pub struct Step {
    /// What to do.
    pub action: Action,
    /// The error with which the plan ends where the action fails, or `None`
    /// where the failure is to be passed over and the plan goes on.
    pub on_failure: Option<Error>,
}

/// An action in the model.
pub ghost enum ActionView {
    EnsureDir { path: Seq<char> },
    EnsureLink { target: Seq<char>, link: Seq<char> },
    WriteFile { dir: Seq<char>, name: Seq<char>, content: Seq<char> },
    RemoveAll { path: Seq<char> },
    Stop,
}

/// A step in the model.
pub ghost struct StepView {
    pub action: ActionView,
    pub on_failure: Option<ErrorView>,
}

impl View for Action {
    type V = ActionView;

    open spec fn view(&self) -> ActionView {
        match *self {
            Action::EnsureDir { path } => ActionView::EnsureDir { path: path@ },
            Action::EnsureLink { target, link } => ActionView::EnsureLink {
                target: target@,
                link: link@,
            },
            Action::WriteFile { dir, name, content } => ActionView::WriteFile {
                dir: dir@,
                name: name@,
                content: content@,
            },
            Action::RemoveAll { path } => ActionView::RemoveAll { path: path@ },
            Action::Stop => ActionView::Stop,
        }
    }
}

impl View for Step {
    type V = StepView;

    open spec fn view(&self) -> StepView {
        StepView {
            action: self.action@,
            on_failure: match self.on_failure {
                Some(error) => Some(error@),
                None => None,
            },
        }
    }
}

/// The steps of a plan in the model.
pub open spec fn steps_view(steps: Seq<Step>) -> Seq<StepView> {
    steps.map_values(|step: Step| step@)
}

/// The step that makes sure of a directory.
pub open spec fn ensure_dir(path: Seq<char>, on_failure: ErrorView) -> StepView {
    StepView { action: ActionView::EnsureDir { path }, on_failure: Some(on_failure) }
}

/// The plan that makes sure of the two roots: first the persistent one,
/// then the volatile one, each with an error of its own.
pub open spec fn roots_plan() -> Seq<StepView> {
    seq![
        ensure_dir(CDTEST_ROOT_VAR@, ErrorView::InitializeVarFailed),
        ensure_dir(CDTEST_ROOT_TMP@, ErrorView::InitializeTmpFailed),
    ]
}

/// Plans the two roots. To be carried out before anything else.
pub fn initialize_cdtest() -> (steps: Vec<Step>)
    ensures
        steps_view(steps@) == roots_plan(),
{
    let mut steps: Vec<Step> = Vec::new();
    steps.push(
        Step {
            action: Action::EnsureDir { path: String::from_str(CDTEST_ROOT_VAR) },
            on_failure: Some(Error::InitializeVarFailed),
        },
    );
    steps.push(
        Step {
            action: Action::EnsureDir { path: String::from_str(CDTEST_ROOT_TMP) },
            on_failure: Some(Error::InitializeTmpFailed),
        },
    );
    proof {
        assert(steps_view(steps@) =~= roots_plan());
    }
    steps
}

} // verus!
