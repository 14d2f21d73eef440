//! All projects at once: listing what the two roots hold, and planning
//! the removal of those that have expired.

use vstd::prelude::*;
use crate::plan::{Step, StepView, steps_view};
use crate::project::{readable, stored, Probe, ProbeView, Project, ProjectView};
use crate::time::Timestamp;

verus! {

/// A child of one of the roots.
#[derive(Clone, Debug, PartialEq, Eq)]
pub struct Entry {
    /// The path of the child.
    pub path: String,
    /// What was found there.
    pub probe: Probe,
}

/// A child of one of the roots, in the model.
pub ghost struct EntryView {
    pub path: Seq<char>,
    pub probe: ProbeView,
}

impl View for Entry {
    type V = EntryView;

    open spec fn view(&self) -> EntryView {
        EntryView { path: self.path@, probe: self.probe@ }
    }
}

/// The children of a root in the model.
pub open spec fn entries_view(entries: Seq<Entry>) -> Seq<EntryView> {
    entries.map_values(|entry: Entry| entry@)
}

/// The projects in the model.
pub open spec fn projects_view(projects: Seq<Project>) -> Seq<ProjectView> {
    projects.map_values(|project: Project| project@)
}

/// The projects among the children of a root, in the order of the
/// children: each directory whose metadata file holds a record. Under the
/// volatile root a symbolic link does not count, as it stands for a
/// project under the persistent root.
pub open spec fn listed(entries: Seq<EntryView>, volatile: bool) -> Seq<ProjectView>
    decreases entries.len(),
{
    if entries.len() == 0 {
        seq![]
    } else {
        let before = listed(entries.drop_last(), volatile);
        let probe = entries.last().probe;
        if volatile && probe.is_symlink {
            before
        } else {
            match readable(probe) {
                Some(record) => before.push(stored(record, volatile, true)),
                None => before,
            }
        }
    }
}

/// The steps that remove what has expired at `now` among `all`, in their
/// order, but for the projects named `current`.
pub open spec fn swept(all: Seq<ProjectView>, current: Seq<char>, now: nat) -> Seq<StepView>
    decreases all.len(),
{
    if all.len() == 0 {
        seq![]
    } else {
        let before = swept(all.drop_last(), current, now);
        if all.last().name == current {
            before
        } else {
            before + all.last().removal_plan(now)
        }
    }
}

/// Adds the projects among the children of one root to `projects`.
fn list_root(entries: &Vec<Entry>, volatile: bool, projects: &mut Vec<Project>)
    ensures
        projects_view(final(projects)@) == projects_view(old(projects)@) + listed(
            entries_view(entries@),
            volatile,
        ),
{
    let ghost before = projects_view(projects@);
    let mut i: usize = 0;
    let ghost children = entries_view(entries@);
    proof {
        assert(children.take(0) == Seq::<EntryView>::empty());
        assert(projects_view(projects@) == before + listed(children.take(0), volatile));
    }
    while i < entries.len()
        invariant
            i <= entries.len(),
            children == entries_view(entries@),
            projects_view(projects@) == before + listed(children.take(i as int), volatile),
        decreases entries.len() - i,
    {
        proof {
            assert(children.take(i + 1).drop_last() == children.take(i as int));
            assert(children.take(i + 1).last() == entries@[i as int]@);
        }
        let entry = &entries[i];
        if !(volatile && entry.probe.is_symlink) {
            // A child that holds no project is passed over: listing is
            // best effort, and the reason is of no interest here.
            if let Ok(mut project) = Project::from_project_dir(entry.path.as_str(), &entry.probe) {
                project.tmp_only = volatile;
                project.existing = true;
                let ghost listed_before = projects_view(projects@);
                projects.push(project);
                proof {
                    assert(projects_view(projects@) == listed_before.push(project@));
                }
            }
        }
        i = i + 1;
    }
    proof {
        assert(children.take(entries@.len() as int) == children);
    }
}

/// Parse all current project directories: those among the children of the
/// persistent root (`var`), then those among the children of the volatile
/// root (`tmp`).
pub fn parse_all_projects(var: &Vec<Entry>, tmp: &Vec<Entry>) -> (projects: Vec<Project>)
    ensures
        projects_view(projects@) == listed(entries_view(var@), false) + listed(
            entries_view(tmp@),
            true,
        ),
{
    let mut projects: Vec<Project> = Vec::new();
    proof {
        assert(projects_view(projects@) == Seq::<ProjectView>::empty());
    }
    list_root(var, false, &mut projects);
    list_root(tmp, true, &mut projects);
    projects
}

/// Plans the removal of every project among `all` that has expired at
/// `now`. The project named `current` is the one in use: it is never
/// looked at.
pub fn sweep(all: &Vec<Project>, current: &str, now: Timestamp) -> (steps: Vec<Step>)
    ensures
        steps_view(steps@) == swept(projects_view(all@), current@, now@),
{
    let current_name = String::from_str(current);
    let mut steps: Vec<Step> = Vec::new();
    let mut i: usize = 0;
    proof {
        assert(projects_view(all@).take(0) == Seq::<ProjectView>::empty());
        assert(steps_view(steps@) == Seq::<StepView>::empty());
    }
    while i < all.len()
        invariant
            i <= all.len(),
            current_name@ == current@,
            steps_view(steps@) == swept(projects_view(all@).take(i as int), current@, now@),
        decreases all.len() - i,
    {
        proof {
            let views = projects_view(all@);
            assert(views.take(i + 1).drop_last() == views.take(i as int));
            assert(views.take(i + 1).last() == all@[i as int]@);
        }
        // Only gc other projects
        if all[i].name != current_name {
            let mut removal = all[i].garbage_collect(now);
            let ghost planned = steps_view(steps@);
            let ghost added = steps_view(removal@);
            steps.append(&mut removal);
            proof {
                assert(steps_view(steps@) == planned + added);
            }
        }
        i = i + 1;
    }
    proof {
        assert(projects_view(all@).take(all@.len() as int) == projects_view(all@));
    }
    steps
}

} // verus!
