//! What holds of the library as a whole, proved from the definitions that
//! its contracts are stated over.

use vstd::prelude::*;
use crate::disk::{Disk, Node, Outcome};
use crate::error::ErrorView;
use crate::human::span_from_text;
use crate::path::{
    is_relative,
    lemma_homes_are_apart,
    lemma_metadata_file_is_inside,
    starts_with,
    CDTEST_ROOT_VAR,
    CDTEST_TOML,
};
use crate::plan::{ActionView, StepView};
use crate::project::{
    fresh,
    loaded,
    overridden,
    readable,
    reconciled,
    remove_all,
    resolved,
    stored,
    ProbeView,
    ProjectView,
};
use crate::registry::swept;
use crate::session::{entered, RequestView};
use crate::store::{decoded, encoded, RecordView};

verus! {

/// A project that is stored under the persistent root is the one its name
/// resolves to, placed there, whatever the volatile root holds under that
/// name.
pub proof fn law_persistent_root_wins(name: Seq<char>, var: ProbeView, tmp: ProbeView, now: nat)
    requires
        readable(var) is Some,
    ensures
        resolved(name, var, tmp, now) == stored(readable(var)->0, false, true),
        !resolved(name, var, tmp, now).tmp_only,
        resolved(name, var, tmp, now).existing,
{
}

/// A project that is stored under the volatile root alone resolves to
/// that one, placed there.
pub proof fn law_volatile_root_is_second(name: Seq<char>, var: ProbeView, tmp: ProbeView, now: nat)
    requires
        readable(var) is None,
        readable(tmp) is Some,
    ensures
        resolved(name, var, tmp, now) == stored(readable(tmp)->0, true, true),
{
}

/// A name that is stored under neither root resolves to a new project of
/// that name, entered now, kept for two weeks, under the persistent root.
pub proof fn law_fresh_creation(name: Seq<char>, var: ProbeView, tmp: ProbeView, now: nat)
    requires
        readable(var) is None,
        readable(tmp) is None,
    ensures
        resolved(name, var, tmp, now) == fresh(name, now),
        resolved(name, var, tmp, now).name == name,
        !resolved(name, var, tmp, now).existing,
        !resolved(name, var, tmp, now).tmp_only,
        resolved(name, var, tmp, now).timestamp == now,
        resolved(name, var, tmp, now).garbage_collection == 14 * 86_400 * 1_000_000_000nat,
{
}

/// On an existing project on which no override is forced, no setting
/// changes anything: neither a placement nor a retention period that is
/// given, nor one that is given as a text, be the text a span or not.
pub proof fn law_stored_settings_win(
    project: ProjectView,
    tmp_only: Option<bool>,
    garbage_collection: Option<nat>,
    text: Option<Seq<char>>,
)
    requires
        project.existing,
        !project.force_override,
    ensures
        overridden(project, tmp_only, garbage_collection) == project,
        reconciled(project, tmp_only, text) == Ok::<ProjectView, ErrorView>(project),
{
}

/// On a project on which the override is forced, and on a new one, a
/// placement and a retention period that are given replace the project's
/// own, and nothing else changes.
pub proof fn law_overrides_apply(project: ProjectView, tmp_only: bool, garbage_collection: nat)
    requires
        project.force_override || !project.existing,
    ensures
        overridden(project, Some(tmp_only), Some(garbage_collection)) == (ProjectView {
            tmp_only,
            garbage_collection,
            ..project
        }),
{
}

/// A retention period that is given as a text counts as the span that is
/// read in it; a text that is no span is reported, as it was given.
pub proof fn law_period_is_read(
    project: ProjectView,
    tmp_only: Option<bool>,
    garbage_collection: Seq<char>,
)
    requires
        project.force_override || !project.existing,
    ensures
        reconciled(project, tmp_only, Some(garbage_collection)) == match span_from_text(
            garbage_collection,
        ) {
            Some(span) => Ok::<ProjectView, ErrorView>(
                overridden(project, tmp_only, Some(span)),
            ),
            None => Err::<ProjectView, ErrorView>(
                ErrorView::ParseFailedTime { from: garbage_collection },
            ),
        },
{
}

/// A project is removed, directory and counterpart, exactly where the
/// time since its last access is longer than its retention period. One
/// that was entered in the future is kept.
pub proof fn law_gc_threshold(project: ProjectView, now: nat)
    ensures
        now > project.timestamp + project.garbage_collection ==> project.removal_plan(now)
            == seq![remove_all(project.home()), remove_all(project.tmp_home())],
        now <= project.timestamp + project.garbage_collection ==> project.removal_plan(now)
            == Seq::<StepView>::empty(),
{
}

/// A project with the name of the one in use takes no part in a sweep.
/// The plan is the one that would be made if it were not listed at all,
/// however old it is.
pub proof fn law_current_project_is_spared(
    all: Seq<ProjectView>,
    current: Seq<char>,
    now: nat,
    i: int,
)
    requires
        0 <= i < all.len(),
        all[i].name == current,
    ensures
        swept(all, current, now) == swept(all.remove(i), current, now),
    decreases all.len(),
{
    if i == all.len() - 1 {
        assert(all.remove(i) == all.drop_last());
    } else {
        law_current_project_is_spared(all.drop_last(), current, now, i);
        assert(all.remove(i).drop_last() == all.drop_last().remove(i));
        assert(all.remove(i).last() == all.last());
    }
}

/// Where every listed project has the name of the one in use, nothing is
/// removed.
pub proof fn law_nothing_to_sweep(all: Seq<ProjectView>, current: Seq<char>, now: nat)
    requires
        forall|i: int| 0 <= i < all.len() ==> (#[trigger] all[i]).name == current,
    ensures
        swept(all, current, now) == Seq::<StepView>::empty(),
    decreases all.len(),
{
    if all.len() > 0 {
        assert(all.last() == all[all.len() - 1]);
        let before = all.drop_last();
        assert forall|i: int| 0 <= i < before.len() implies (#[trigger] before[i]).name
            == current by {
            assert(before[i] == all[i]);
        }
        law_nothing_to_sweep(before, current, now);
    }
}

/// The disk after the directory and the link of a new project under the
/// persistent root were made: the directory, and the link to it under the
/// volatile root, unless the two are one path.
pub open spec fn made_persistent(disk: Disk, project: ProjectView) -> Disk {
    let first = disk.with(project.var_home(), Node::Dir);
    if first.has(project.tmp_home()) {
        first
    } else {
        first.with(project.tmp_home(), Node::Link { target: project.var_home() })
    }
}

/// The disk after the directory of a new project under the volatile root
/// was made.
pub open spec fn made_volatile(disk: Disk, project: ProjectView) -> Disk {
    disk.with(project.tmp_home(), Node::Dir)
}

/// The disk with the metadata file of the project, where the project has
/// a document.
pub open spec fn filed(disk: Disk, project: ProjectView) -> Disk {
    match encoded(project.record()) {
        Some(document) => disk.with(project.metadata_file(), Node::File { content: document }),
        None => disk,
    }
}

/// How the setup of a project ends on a disk on which nothing is in its
/// way: well where the project has a document, with the error of writing
/// out where it has none.
pub open spec fn written_out(project: ProjectView) -> Option<ErrorView> {
    if encoded(project.record()) is Some {
        None
    } else {
        Some(ErrorView::WriteOutFailed)
    }
}

/// The metadata file of a project is neither its directory nor its place
/// under the volatile root, and the two places differ for a relative
/// name.
pub proof fn lemma_places_differ(project: ProjectView)
    ensures
        project.metadata_file() != project.home(),
        project.metadata_file() != project.var_home(),
        project.metadata_file() != project.tmp_home(),
        is_relative(project.name) ==> project.var_home() != project.tmp_home(),
{
    let file = project.metadata_file();
    let home = project.home();
    lemma_metadata_file_is_inside(home);
    if is_relative(project.name) {
        lemma_homes_are_apart(project.name);
        assert(file.subrange(0, home.len() as int)[1] == home[1]);
    } else {
        assert(project.var_home() == project.tmp_home());
    }
}

/// Setting up a new project under the persistent root leaves its
/// directory there and, under the volatile root, a link that leads to
/// that directory, whether or not the project can be written out. Where
/// it can, the metadata file is in the directory and the setup ends well;
/// where it cannot, the setup ends with the error of writing out. Nothing
/// else changes on the disk.
pub proof fn law_setup_under_the_persistent_root(disk: Disk, project: ProjectView)
    requires
        !project.tmp_only,
        !disk.has(project.var_home()),
        !disk.has(project.tmp_home()),
        !disk.has(project.metadata_file()),
    ensures
        disk.run(project.setup_plan()) == (Outcome {
            disk: filed(made_persistent(disk, project), project),
            error: written_out(project),
        }),
        disk.run(project.setup_plan()).disk.nodes[project.var_home()] == Node::Dir,
        disk.run(project.setup_plan()).disk.is_dir(project.var_home()),
        disk.run(project.setup_plan()).disk.is_dir(project.tmp_home()),
        is_relative(project.name) ==> disk.run(project.setup_plan()).disk.nodes[project.tmp_home()]
            == (Node::Link { target: project.var_home() }),
        encoded(project.record()) matches Some(document) ==> disk.run(
            project.setup_plan(),
        ).disk.nodes[project.metadata_file()] == (Node::File { content: document }),
{
    let home = project.var_home();
    let link = project.tmp_home();
    let file = project.metadata_file();
    lemma_places_differ(project);
    let plan = project.setup_plan();
    let first = disk.with(home, Node::Dir);
    let second = made_persistent(disk, project);
    reveal_with_fuel(Disk::dir_behind, 3);
    assert(disk.perform(plan[0].action) == Some(first));
    assert(first.perform(plan[1].action) == Some(second));
    assert(second.dir_at(home) == Some(home));
    assert(!second.has(file));
    assert(plan.drop_first()[0] == plan[1]);
    assert(plan.drop_first().drop_first()[0] == plan[2]);
    assert(plan.drop_first().drop_first().drop_first().len() == 0);
    reveal_with_fuel(Disk::follow, 4);
    assert(disk.follow(plan) == (Outcome {
        disk: filed(second, project),
        error: written_out(project),
    }));
    disk.lemma_run_follows(plan);
}

/// Setting up a new project under the volatile root leaves its directory
/// there, whether or not the project can be written out. Where it can,
/// the metadata file is in the directory and the setup ends well; where
/// it cannot, the setup ends with the error of writing out. Nothing else
/// changes on the disk. So no path that starts like the persistent root
/// is new, unless the directory or the metadata file itself starts like
/// it, which they do not for a relative name.
pub proof fn law_setup_under_the_volatile_root(disk: Disk, project: ProjectView)
    requires
        project.tmp_only,
        !disk.has(project.tmp_home()),
        !disk.has(project.metadata_file()),
    ensures
        disk.run(project.setup_plan()) == (Outcome {
            disk: filed(made_volatile(disk, project), project),
            error: written_out(project),
        }),
        disk.run(project.setup_plan()).disk.nodes[project.tmp_home()] == Node::Dir,
        disk.run(project.setup_plan()).disk.is_dir(project.tmp_home()),
        encoded(project.record()) matches Some(document) ==> disk.run(
            project.setup_plan(),
        ).disk.nodes[project.metadata_file()] == (Node::File { content: document }),
        !starts_with(project.tmp_home(), CDTEST_ROOT_VAR@) && !starts_with(
            project.metadata_file(),
            CDTEST_ROOT_VAR@,
        ) ==> forall|path: Seq<char>|
            disk.run(project.setup_plan()).disk.has(path) && starts_with(path, CDTEST_ROOT_VAR@)
                ==> disk.has(path) && disk.run(project.setup_plan()).disk.nodes[path]
                == disk.nodes[path],
        is_relative(project.name) ==> !starts_with(project.tmp_home(), CDTEST_ROOT_VAR@)
            && !starts_with(project.metadata_file(), CDTEST_ROOT_VAR@),
{
    let home = project.tmp_home();
    let file = project.metadata_file();
    lemma_places_differ(project);
    if is_relative(project.name) {
        lemma_homes_are_apart(project.name);
        lemma_metadata_file_is_inside(home);
        assert(!starts_with(file, CDTEST_ROOT_VAR@)) by {
            reveal_strlit("/var/tmp/cdtest");
            assert(file.subrange(0, home.len() as int)[1] == home[1]);
            if starts_with(file, CDTEST_ROOT_VAR@) {
                assert(file.subrange(0, CDTEST_ROOT_VAR@.len() as int)[1] == CDTEST_ROOT_VAR@[1]);
            }
        }
    }
    let plan = project.setup_plan();
    let first = made_volatile(disk, project);
    reveal_with_fuel(Disk::dir_behind, 2);
    assert(disk.perform(plan[0].action) == Some(first));
    assert(first.dir_at(home) == Some(home));
    assert(!first.has(file));
    assert(plan.drop_first()[0] == plan[1]);
    assert(plan.drop_first().drop_first().len() == 0);
    reveal_with_fuel(Disk::follow, 3);
    assert(disk.follow(plan) == (Outcome {
        disk: filed(first, project),
        error: written_out(project),
    }));
    disk.lemma_run_follows(plan);
}

/// What stands under the volatile root in the place of the link is left
/// alone, be it a directory, a file or a link that leads nowhere: no link
/// is made, and the setup goes on to the metadata file. It ends well
/// where the file is written, and never with the error of setting up.
pub proof fn law_no_link_where_something_stands(disk: Disk, project: ProjectView)
    requires
        !project.tmp_only,
        disk.has(project.var_home()) && disk.nodes[project.var_home()] is Dir,
        disk.has(project.tmp_home()),
    ensures
        disk.run(project.setup_plan()).disk.nodes[project.tmp_home()]
            == disk.nodes[project.tmp_home()],
        disk.run(project.setup_plan()).disk.nodes[project.var_home()] == Node::Dir,
        disk.run(project.setup_plan()).error != Some(ErrorView::ProjectSetupFailed),
        disk.run(project.setup_plan()).error is None <==> encoded(project.record()) is Some && !(
        disk.has(project.metadata_file()) && !(disk.nodes[project.metadata_file()] is File)),
        disk.run(project.setup_plan()).error is None ==> disk.run(project.setup_plan()).disk
            == filed(disk, project),
{
    let home = project.var_home();
    lemma_places_differ(project);
    let plan = project.setup_plan();
    reveal_with_fuel(Disk::dir_behind, 2);
    assert(disk.perform(plan[0].action) == Some(disk));
    assert(disk.perform(plan[1].action) == Some(disk));
    assert(disk.dir_at(home) == Some(home));
    assert(plan.drop_first()[0] == plan[1]);
    assert(plan.drop_first().drop_first()[0] == plan[2]);
    assert(plan.drop_first().drop_first().drop_first().len() == 0);
    reveal_with_fuel(Disk::follow, 4);
    disk.lemma_run_follows(plan);
}

/// Where a file stands in the place of the directory of a project, it is
/// left alone: no directory is made, and the setup ends with the error of
/// writing out, as nothing can be written into a file.
pub proof fn law_no_directory_where_a_file_stands(disk: Disk, project: ProjectView)
    requires
        disk.has(project.home()) && disk.nodes[project.home()] is File,
    ensures
        disk.run(project.setup_plan()).error == Some(ErrorView::WriteOutFailed),
        disk.run(project.setup_plan()).disk.nodes[project.home()] == disk.nodes[project.home()],
{
    let home = project.home();
    lemma_places_differ(project);
    let plan = project.setup_plan();
    reveal_with_fuel(Disk::dir_behind, 2);
    assert(disk.perform(plan[0].action) == Some(disk));
    assert(plan.drop_first()[0] == plan[1]);
    reveal_with_fuel(Disk::follow, 4);
    if !project.tmp_only {
        let second = disk.perform(plan[1].action)->0;
        assert(second.dir_at(home) is None);
        assert(plan.drop_first().drop_first()[0] == plan[2]);
        assert(plan.drop_first().drop_first().drop_first().len() == 0);
    } else {
        assert(disk.dir_at(home) is None);
        assert(plan.drop_first().drop_first().len() == 0);
    }
    disk.lemma_run_follows(plan);
}

/// A project that was set up is found again: on the disk as it is after
/// the setup of a new project that can be written out, the name of the
/// project resolves to the project as it was written, at its placement,
/// as an existing one. A project under the volatile root needs a relative
/// name for that: a name that starts at the root is its own place under
/// both roots, and is found as one under the persistent root.
pub proof fn law_set_up_project_is_found_again(disk: Disk, project: ProjectView, later: nat)
    requires
        project.tmp_only ==> is_relative(project.name),
        !disk.has(project.var_home()),
        !disk.has(project.tmp_home()),
        !disk.has(project.metadata_file()),
        encoded(project.record()) is Some,
    ensures
        disk.run(project.setup_plan()).error is None,
        resolved(
            project.name,
            disk.run(project.setup_plan()).disk.probe(project.var_home()),
            disk.run(project.setup_plan()).disk.probe(project.tmp_home()),
            later,
        ) == stored(project.record(), project.tmp_only, true),
{
    lemma_places_differ(project);
    reveal_with_fuel(Disk::dir_behind, 3);
    let after = disk.run(project.setup_plan()).disk;
    let document = encoded(project.record())->0;
    if project.tmp_only {
        lemma_homes_are_apart(project.name);
        law_setup_under_the_volatile_root(disk, project);
        assert(!after.has(project.var_home()));
        assert(after.dir_at(project.tmp_home()) == Some(project.tmp_home()));
        assert(after.probe(project.tmp_home()).metadata == Some(document));
    } else {
        law_setup_under_the_persistent_root(disk, project);
        assert(after.dir_at(project.var_home()) == Some(project.var_home()));
        assert(after.probe(project.var_home()).metadata == Some(document));
    }
}

/// The removal plan of a project always runs to its end. Where the
/// project has expired, nothing stands afterwards at its directory nor at
/// its place under the volatile root, unless a file stood there, which is
/// no project and is passed over. What stands elsewhere stood there
/// before. The plan of a project that has not expired leaves the disk as
/// it is.
pub proof fn law_expired_project_is_removed(disk: Disk, project: ProjectView, now: nat)
    ensures
        disk.run(project.removal_plan(now)).error is None,
        project.expired(now) && disk.run(project.removal_plan(now)).disk.has(project.home())
            ==> disk.nodes[project.home()] is File,
        project.expired(now) && disk.run(project.removal_plan(now)).disk.has(project.tmp_home())
            ==> disk.nodes[project.tmp_home()] is File,
        !project.expired(now) ==> disk.run(project.removal_plan(now)).disk == disk,
        forall|path: Seq<char>| #[trigger]
            disk.run(project.removal_plan(now)).disk.has(path) ==> disk.has(path) && disk.run(
                project.removal_plan(now),
            ).disk.nodes[path] == disk.nodes[path],
{
    let plan = project.removal_plan(now);
    disk.lemma_run_follows(plan);
    reveal_with_fuel(Disk::follow, 3);
    if project.expired(now) {
        let first = match disk.perform(plan[0].action) {
            Some(next) => next,
            None => disk,
        };
        let second = match first.perform(plan[1].action) {
            Some(next) => next,
            None => first,
        };
        assert(plan.drop_first()[0] == plan[1]);
        assert(plan.drop_first().drop_first().len() == 0);
        assert(disk.follow(plan) == (Outcome { disk: second, error: None }));
    }
}

/// A project that is entered is stamped with the time of the invocation
/// and comes with the plan that sets it up. Where that plan writes a
/// document, the document holds the project as it is entered, so that the
/// next invocation finds it with that stamp.
pub proof fn law_entered_project_is_stamped_and_stored(
    request: RequestView,
    var: ProbeView,
    tmp: ProbeView,
    now: nat,
    project: ProjectView,
    plan: Seq<StepView>,
)
    requires
        entered(request, var, tmp, now) == Ok::<(ProjectView, Seq<StepView>), ErrorView>(
            (project, plan),
        ),
    ensures
        project.timestamp == now,
        plan == project.setup_plan(),
        encoded(project.record()) matches Some(document) ==> decoded(document) == Some(
            project.record(),
        ),
{
}

/// Where the metadata file of a project is written, it goes into the
/// directory of the project, under the name of the metadata file, and
/// its document holds the project as it is then: name, timestamp and
/// retention period.
pub proof fn law_written_document_holds_the_project(project: ProjectView, document: Seq<char>)
    requires
        encoded(project.record()) == Some(document),
    ensures
        project.write_step() == (StepView {
            action: ActionView::WriteFile {
                dir: project.home(),
                name: CDTEST_TOML@,
                content: document,
            },
            on_failure: Some(ErrorView::WriteOutFailed),
        }),
        decoded(document) == Some(project.record()),
{
}

/// The document that is written for a record holds that record: name,
/// timestamp and retention period, to the nanosecond.
pub proof fn law_round_trip(record: RecordView, document: Seq<char>)
    requires
        encoded(record) == Some(document),
    ensures
        decoded(document) == Some(record),
{
}

/// A project whose metadata file was written loads from its directory
/// with the settings it was written with, and with nothing of what is not
/// kept (the forced override, the placement, whether it existed).
pub proof fn law_written_project_loads(project: ProjectView, path: Seq<char>, probe: ProbeView)
    requires
        probe.is_dir,
        probe.metadata matches Some(text) && encoded(project.record()) == Some(text),
    ensures
        loaded(path, probe) == Ok::<ProjectView, ErrorView>(
            stored(project.record(), false, false),
        ),
{
}

} // verus!
