//! A model of the disk, on which a plan can be carried out.
//!
//! The model knows paths as texts and the three kinds of thing that the
//! plans deal with. A file is written into a directory only; of a new
//! directory or link the model does not ask whether the parent exists.
//! It takes the target of a link as the path it is written as.

use vstd::prelude::*;
use crate::drive::{opened, proceeded, CommandView, Stage};
use crate::error::ErrorView;
use crate::path::{joined, CDTEST_TOML};
use crate::plan::{ActionView, StepView};
use crate::project::ProbeView;

verus! {

/// What stands at a path.
pub ghost enum Node {
    /// A directory.
    Dir,
    /// A symbolic link.
    Link { target: Seq<char> },
    /// A file.
    File { content: Seq<char> },
}

/// A disk: the paths at which something stands.
pub ghost struct Disk {
    pub nodes: Map<Seq<char>, Node>,
}

/// How a plan ended: the disk as it is then, and the error it ended with,
/// if any.
pub ghost struct Outcome {
    pub disk: Disk,
    pub error: Option<ErrorView>,
}

/// Whether `path` lies below the directory `dir`.
pub open spec fn below(path: Seq<char>, dir: Seq<char>) -> bool {
    &&& dir.len() > 0
    &&& path.len() > dir.len()
    &&& path.subrange(0, dir.len() as int) == dir
    &&& (dir.last() == '/' || path[dir.len() as int] == '/')
}

impl Disk {
    /// Whether something stands at `path`.
    pub open spec fn has(self, path: Seq<char>) -> bool {
        self.nodes.contains_key(path)
    }

    /// The directory that `path` leads to over at most `hops` links: the
    /// path itself where a directory stands there, and none where a file
    /// or nothing stands at the end.
    pub open spec fn dir_behind(self, path: Seq<char>, hops: nat) -> Option<Seq<char>>
        decreases hops,
    {
        if !self.has(path) {
            None
        } else {
            match self.nodes[path] {
                Node::Dir => Some(path),
                Node::Link { target } => if hops > 0 {
                    self.dir_behind(target, (hops - 1) as nat)
                } else {
                    None
                },
                Node::File { .. } => None,
            }
        }
    }

    /// The directory that `path` leads to, directly or through links.
    pub open spec fn dir_at(self, path: Seq<char>) -> Option<Seq<char>> {
        self.dir_behind(path, 40)
    }

    /// Whether `path` is a directory, directly or through links.
    pub open spec fn is_dir(self, path: Seq<char>) -> bool {
        self.dir_at(path) is Some
    }

    /// What a caller finds at `path`: whether it is a directory, whether
    /// it is a link, and what the metadata file in the directory holds.
    pub open spec fn probe(self, path: Seq<char>) -> ProbeView {
        ProbeView {
            is_dir: self.is_dir(path),
            is_symlink: self.has(path) && self.nodes[path] is Link,
            metadata: match self.dir_at(path) {
                Some(dir) => if self.has(joined(dir, CDTEST_TOML@)) {
                    match self.nodes[joined(dir, CDTEST_TOML@)] {
                        Node::File { content } => Some(content),
                        _ => None,
                    }
                } else {
                    None
                },
                None => None,
            },
        }
    }

    /// The disk with `node` at `path`.
    pub open spec fn with(self, path: Seq<char>, node: Node) -> Disk {
        Disk { nodes: self.nodes.insert(path, node) }
    }

    /// The disk without `path` and what lies below it.
    pub open spec fn without(self, path: Seq<char>) -> Disk {
        Disk {
            nodes: Map::new(
                |p: Seq<char>| self.has(p) && p != path && !below(p, path),
                |p: Seq<char>| self.nodes[p],
            ),
        }
    }

    /// The disk after `content` was written to the file `name` in the
    /// directory `dir`, or `None` where that fails: where `dir` is no
    /// directory, or where something that is no file stands in the place
    /// of the file.
    pub open spec fn written(self, dir: Seq<char>, name: Seq<char>, content: Seq<char>) -> Option<
        Disk,
    > {
        match self.dir_at(dir) {
            Some(inside) => if self.has(joined(inside, name)) && !(self.nodes[joined(
                inside,
                name,
            )] is File) {
                None
            } else {
                Some(self.with(joined(inside, name), Node::File { content }))
            },
            None => None,
        }
    }

    /// The disk after `path` was removed, or `None` where that fails: a
    /// directory is removed with all below it, a link alone; there is
    /// nothing to remove where a file or nothing stands.
    pub open spec fn removed(self, path: Seq<char>) -> Option<Disk> {
        if !self.has(path) {
            None
        } else {
            match self.nodes[path] {
                Node::Dir => Some(self.without(path)),
                Node::Link { .. } => Some(Disk { nodes: self.nodes.remove(path) }),
                Node::File { .. } => None,
            }
        }
    }

    /// The disk after a command, and the answer to it. A directory or a
    /// link is made where nothing stands yet.
    pub open spec fn obey(self, command: CommandView) -> (Disk, bool) {
        match command {
            CommandView::Exists { path } => (self, self.has(path)),
            CommandView::CreateDir { path } => if self.has(path) {
                (self, false)
            } else {
                (self.with(path, Node::Dir), true)
            },
            CommandView::Symlink { target, link } => if self.has(link) {
                (self, false)
            } else {
                (self.with(link, Node::Link { target }), true)
            },
            CommandView::Write { dir, name, content } => match self.written(dir, name, content) {
                Some(after) => (after, true),
                None => (self, false),
            },
            CommandView::RemoveAll { path } => match self.removed(path) {
                Some(after) => (after, true),
                None => (self, false),
            },
            CommandView::Finish { .. } => (self, true),
        }
    }

    /// What a plan comes to from the point where it stands at `stage` with
    /// `command` out.
    pub open spec fn driven(
        self,
        steps: Seq<StepView>,
        stage: Stage,
        command: CommandView,
    ) -> Outcome
        decreases steps.len() - stage.step, (if stage.acting { 0nat } else { 1nat }),
    {
        match command {
            CommandView::Finish { error } => Outcome { disk: self, error },
            _ => if 0 <= stage.step < steps.len() {
                let answered = self.obey(command);
                let next = proceeded(steps, stage, answered.1);
                answered.0.driven(steps, next.0, next.1)
            } else {
                Outcome { disk: self, error: None }
            },
        }
    }

    /// What a plan comes to when it is carried out from its beginning.
    pub open spec fn run(self, steps: Seq<StepView>) -> Outcome {
        self.driven(steps, opened(steps, 0).0, opened(steps, 0).1)
    }

    /// The disk after an action, or `None` where the action fails. A
    /// directory or a link is made unless something stands there already,
    /// and then nothing is done; a file is written; a path is removed.
    pub open spec fn perform(self, action: ActionView) -> Option<Disk> {
        match action {
            ActionView::EnsureDir { path } => if self.has(path) {
                Some(self)
            } else {
                Some(self.with(path, Node::Dir))
            },
            ActionView::EnsureLink { target, link } => if self.has(link) {
                Some(self)
            } else {
                Some(self.with(link, Node::Link { target }))
            },
            ActionView::WriteFile { dir, name, content } => self.written(dir, name, content),
            ActionView::RemoveAll { path } => self.removed(path),
            ActionView::Stop => None,
        }
    }

    /// What a plan comes to, step by step: each action is performed; an
    /// action that fails ends the plan with the error of its step, or is
    /// passed over where the step has none. A step that stops ends the
    /// plan.
    pub open spec fn follow(self, steps: Seq<StepView>) -> Outcome
        decreases steps.len(),
    {
        if steps.len() == 0 {
            Outcome { disk: self, error: None }
        } else if steps[0].action is Stop {
            Outcome { disk: self, error: steps[0].on_failure }
        } else {
            match self.perform(steps[0].action) {
                Some(next) => next.follow(steps.drop_first()),
                None => match steps[0].on_failure {
                    Some(error) => Outcome { disk: self, error: Some(error) },
                    None => self.follow(steps.drop_first()),
                },
            }
        }
    }

    /// Carrying a plan out from step `step` on comes to what its steps
    /// from there on come to one by one.
    pub proof fn lemma_driven_follows(self, steps: Seq<StepView>, step: int)
        requires
            0 <= step <= steps.len(),
        ensures
            self.driven(steps, opened(steps, step).0, opened(steps, step).1) == self.follow(
                steps.skip(step),
            ),
        decreases steps.len() - step,
    {
        let rest = steps.skip(step);
        reveal_with_fuel(Disk::driven, 3);
        if step < steps.len() {
            assert(rest[0] == steps[step]);
            assert(rest.drop_first() == steps.skip(step + 1));
            let first = opened(steps, step);
            if !(steps[step].action is Stop) {
                let answered = self.obey(first.1);
                let second = proceeded(steps, first.0, answered.1);
                assert(self.driven(steps, first.0, first.1) == answered.0.driven(
                    steps,
                    second.0,
                    second.1,
                ));
                if first.0.acting || answered.1 {
                    // The step is settled, or the plan has ended.
                    answered.0.lemma_driven_follows(steps, step + 1);
                } else {
                    // The question was answered with no: the operation follows.
                    let acted = answered.0.obey(second.1);
                    let third = proceeded(steps, second.0, acted.1);
                    assert(answered.0.driven(steps, second.0, second.1) == acted.0.driven(
                        steps,
                        third.0,
                        third.1,
                    ));
                    acted.0.lemma_driven_follows(steps, step + 1);
                }
            }
        }
    }

    /// Carrying a plan out comes to what its steps come to one by one.
    pub proof fn lemma_run_follows(self, steps: Seq<StepView>)
        ensures
            self.run(steps) == self.follow(steps),
    {
        self.lemma_driven_follows(steps, 0);
        assert(steps.skip(0) == steps);
    }
}

} // verus!
