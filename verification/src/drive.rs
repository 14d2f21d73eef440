//! Carrying out a plan, one operation at a time.
//!
//! The library decides, the caller acts: [`begin`] hands out the first
//! command of a plan, and [`proceed`] takes the answer to the command
//! that is out and hands out the next one, until the plan has ended.

use vstd::prelude::*;
use crate::error::{Error, ErrorView};
use crate::plan::{Action, ActionView, Step, StepView, steps_view};

verus! {

/// A question or an operation on the filesystem that the caller is asked
/// for, or the end of the plan. The caller answers with `true` or `false`.
#[derive(Debug, PartialEq, Eq)]
pub enum Command<'a> {
    /// Does anything stand at `path`: a directory, a file, or a symbolic
    /// link, which is not followed?
    Exists { path: &'a String },
    /// Create the directory `path`. Did that succeed?
    CreateDir { path: &'a String },
    /// Create a symbolic link at `link` that points to `target`. Did that
    /// succeed?
    Symlink { target: &'a String, link: &'a String },
    /// Write `content` to the file `name` in the directory `dir`, in place
    /// of what the file held. Did that succeed?
    Write { dir: &'a String, name: &'a String, content: &'a String },
    /// Remove `path` and everything below it, without following a symbolic
    /// link. Did that succeed?
    RemoveAll { path: &'a String },
    /// The plan has ended: with this error, or well.
    Finish { error: Option<&'a Error> },
}

/// A command in the model.
pub ghost enum CommandView {
    Exists { path: Seq<char> },
    CreateDir { path: Seq<char> },
    Symlink { target: Seq<char>, link: Seq<char> },
    Write { dir: Seq<char>, name: Seq<char>, content: Seq<char> },
    RemoveAll { path: Seq<char> },
    Finish { error: Option<ErrorView> },
}

impl<'a> View for Command<'a> {
    type V = CommandView;

    open spec fn view(&self) -> CommandView {
        match *self {
            Command::Exists { path } => CommandView::Exists { path: path@ },
            Command::CreateDir { path } => CommandView::CreateDir { path: path@ },
            Command::Symlink { target, link } => CommandView::Symlink {
                target: target@,
                link: link@,
            },
            Command::Write { dir, name, content } => CommandView::Write {
                dir: dir@,
                name: name@,
                content: content@,
            },
            Command::RemoveAll { path } => CommandView::RemoveAll { path: path@ },
            Command::Finish { error } => CommandView::Finish {
                error: match error {
                    Some(e) => Some(e@),
                    None => None,
                },
            },
        }
    }
}

/// How far a plan has been carried out: the step that is being worked on,
/// and whether its operation is out (`acting`) or the question that comes
/// before it.
#[derive(Clone, Copy, Debug, PartialEq, Eq, Structural)]
pub struct Progress {
    /// The index of the step that is being worked on; the number of steps
    /// once the plan has ended.
    pub step: usize,
    /// Whether the operation of that step is out.
    pub acting: bool,
}

/// Progress in the model.
pub ghost struct Stage {
    pub step: int,
    pub acting: bool,
}

impl View for Progress {
    type V = Stage;

    open spec fn view(&self) -> Stage {
        Stage { step: self.step as int, acting: self.acting }
    }
}

/// The question that is asked before an action is taken, where there is
/// one: a directory or a link is made only where nothing stands yet.
pub open spec fn question(action: ActionView) -> Option<CommandView> {
    match action {
        ActionView::EnsureDir { path } => Some(CommandView::Exists { path }),
        ActionView::EnsureLink { target, link } => Some(CommandView::Exists { path: link }),
        _ => None,
    }
}

/// The operation that takes an action. There is none for stopping, which
/// is the end.
pub open spec fn operation(step: StepView) -> CommandView {
    match step.action {
        ActionView::EnsureDir { path } => CommandView::CreateDir { path },
        ActionView::EnsureLink { target, link } => CommandView::Symlink { target, link },
        ActionView::WriteFile { dir, name, content } => CommandView::Write { dir, name, content },
        ActionView::RemoveAll { path } => CommandView::RemoveAll { path },
        ActionView::Stop => CommandView::Finish { error: step.on_failure },
    }
}

/// The end of a plan of `len` steps, with this error or well.
pub open spec fn ended(len: nat, error: Option<ErrorView>) -> (Stage, CommandView) {
    (Stage { step: len as int, acting: false }, CommandView::Finish { error })
}

/// The command that opens step `step` of a plan: its question, or its
/// operation where it has no question; for a step that stops, and past
/// the last step, the end of the plan.
pub open spec fn opened(steps: Seq<StepView>, step: int) -> (Stage, CommandView) {
    if 0 <= step < steps.len() {
        match question(steps[step].action) {
            Some(asked) => (Stage { step, acting: false }, asked),
            None => if steps[step].action is Stop {
                ended(steps.len(), steps[step].on_failure)
            } else {
                (Stage { step, acting: true }, operation(steps[step]))
            },
        }
    } else {
        ended(steps.len(), None)
    }
}

/// What follows on an answer. A question answered with yes settles its
/// step, answered with no it is followed by the operation. An operation
/// that succeeded settles its step; one that failed ends the plan with the
/// error of the step, or settles the step where it has none. A settled
/// step is followed by the opening of the next.
pub open spec fn proceeded(steps: Seq<StepView>, stage: Stage, answer: bool) -> (
    Stage,
    CommandView,
) {
    let step = stage.step;
    if !(0 <= step < steps.len()) {
        ended(steps.len(), None)
    } else if steps[step].action is Stop {
        ended(steps.len(), steps[step].on_failure)
    } else if !stage.acting && !answer {
        (Stage { step, acting: true }, operation(steps[step]))
    } else if stage.acting && !answer && steps[step].on_failure is Some {
        ended(steps.len(), steps[step].on_failure)
    } else {
        opened(steps, step + 1)
    }
}

/// The operation that takes the action of a step.
fn operation_of<'a>(step: &'a Step) -> (command: Command<'a>)
    ensures
        command@ == operation(step@),
{
    match &step.action {
        Action::EnsureDir { path } => Command::CreateDir { path },
        Action::EnsureLink { target, link } => Command::Symlink { target, link },
        Action::WriteFile { dir, name, content } => Command::Write { dir, name, content },
        Action::RemoveAll { path } => Command::RemoveAll { path },
        Action::Stop => Command::Finish {
            error: match &step.on_failure {
                Some(e) => Some(e),
                None => None,
            },
        },
    }
}

/// Opens step `step` of a plan.
fn open<'a>(steps: &'a Vec<Step>, step: usize) -> (next: (Progress, Command<'a>))
    requires
        step <= steps.len(),
    ensures
        next.0@ == opened(steps_view(steps@), step as int).0,
        next.1@ == opened(steps_view(steps@), step as int).1,
{
    if step < steps.len() {
        match &steps[step].action {
            Action::EnsureDir { path } => (
                Progress { step, acting: false },
                Command::Exists { path },
            ),
            Action::EnsureLink { link, .. } => (
                Progress { step, acting: false },
                Command::Exists { path: link },
            ),
            Action::Stop => (
                Progress { step: steps.len(), acting: false },
                operation_of(&steps[step]),
            ),
            _ => (Progress { step, acting: true }, operation_of(&steps[step])),
        }
    } else {
        (Progress { step, acting: false }, Command::Finish { error: None })
    }
}

/// Begins a plan: hands out its first command.
pub fn begin<'a>(steps: &'a Vec<Step>) -> (next: (Progress, Command<'a>))
    ensures
        next.0@ == opened(steps_view(steps@), 0).0,
        next.1@ == opened(steps_view(steps@), 0).1,
{
    open(steps, 0)
}

/// Takes the answer to the command that is out, and hands out the next
/// command. Once the plan has ended no command is out; what is handed out
/// then is the end again, without an error.
pub fn proceed<'a>(steps: &'a Vec<Step>, progress: Progress, answer: bool) -> (next: (
    Progress,
    Command<'a>,
))
    ensures
        next.0@ == proceeded(steps_view(steps@), progress@, answer).0,
        next.1@ == proceeded(steps_view(steps@), progress@, answer).1,
{
    let step = progress.step;
    if step >= steps.len() {
        return open(steps, steps.len());
    }
    if let Action::Stop = &steps[step].action {
        return open(steps, step);
    }
    if !answer {
        if !progress.acting {
            return (Progress { step, acting: true }, operation_of(&steps[step]));
        }
        if let Some(error) = &steps[step].on_failure {
            return (
                Progress { step: steps.len(), acting: false },
                Command::Finish { error: Some(error) },
            );
        }
    }
    open(steps, step + 1)
}

} // verus!
