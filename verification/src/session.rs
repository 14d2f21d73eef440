//! One invocation: from what was asked for on the command line to the
//! project that is entered and the steps that set it up.

use vstd::prelude::*;
use crate::error::{Error, ErrorView};
use crate::plan::{Step, StepView, steps_view};
use crate::project::{reconciled, resolved, Probe, ProbeView, Project, ProjectView};
use crate::time::Timestamp;

verus! {

/// The name of the project that is entered where none is asked for.
pub const DEFAULT_PROJECT: &'static str = "test";

/// What was asked for on the command line.
#[derive(Clone, Debug, PartialEq, Eq)]
pub struct Request {
    /// The name of the project.
    pub project: String,
    /// Whether the settings below replace those of an existing project.
    pub force_override: bool,
    /// Whether the project is to live under the volatile root.
    pub tmp: bool,
    /// The retention period, where one was given.
    pub gc: Option<String>,
}

/// A request in the model.
pub ghost struct RequestView {
    pub project: Seq<char>,
    pub force_override: bool,
    pub tmp: bool,
    pub gc: Option<Seq<char>>,
}

impl View for Request {
    type V = RequestView;

    open spec fn view(&self) -> RequestView {
        RequestView {
            project: self.project@,
            force_override: self.force_override,
            tmp: self.tmp,
            gc: match self.gc {
                Some(text) => Some(text@),
                None => None,
            },
        }
    }
}

impl RequestView {
    /// The placement that the request asks for: the volatile root where
    /// the flag is set, none where it is not.
    pub open spec fn placement(self) -> Option<bool> {
        if self.tmp {
            Some(true)
        } else {
            None
        }
    }
}

/// What a request comes to, given what was found under the two roots: the
/// project that its name resolves to, with the override as requested and
/// the settings reconciled, stamped with `now`; and the plan that sets it
/// up.
pub open spec fn entered(request: RequestView, var: ProbeView, tmp: ProbeView, now: nat) -> Result<
    (ProjectView, Seq<StepView>),
    ErrorView,
> {
    let found = resolved(request.project, var, tmp, now);
    let asked = ProjectView { force_override: request.force_override, ..found };
    match reconciled(asked, request.placement(), request.gc) {
        Err(error) => Err(error),
        Ok(settled) => {
            let stamped = ProjectView { timestamp: now, ..settled };
            Ok((stamped, stamped.setup_plan()))
        },
    }
}

/// Resolves, reconciles and initializes the project of a request. It
/// fails where the retention period that is asked for is no span.
///
/// `var` is what was found at the directory of the project under the
/// persistent root, `tmp` what was found at the one under the volatile
/// root, and `now` the current time.
pub fn enter(request: &Request, var: &Probe, tmp: &Probe, now: Timestamp) -> (outcome: Result<
    (Project, Vec<Step>),
    Error,
>)
    ensures
        match outcome {
            Ok(pair) => entered(request@, var@, tmp@, now@) == Ok::<
                (ProjectView, Seq<StepView>),
                ErrorView,
            >((pair.0@, steps_view(pair.1@))),
            Err(error) => entered(request@, var@, tmp@, now@) == Err::<
                (ProjectView, Seq<StepView>),
                ErrorView,
            >(error@),
        },
{
    let mut project = Project::new(request.project.as_str(), var, tmp, now);
    project.force_override = request.force_override;
    let placement = if request.tmp {
        Some(true)
    } else {
        None
    };
    let gc = match &request.gc {
        Some(text) => Some(text.as_str()),
        None => None,
    };
    project.reconcile(placement, gc)?;
    let steps = project.initialize(now);
    Ok((project, steps))
}

} // verus!
