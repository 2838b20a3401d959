//! The directory reaper: the recursive deletion walk behind the destroy
//! operation, expressed as a step machine.
//!
//! Filesystem access cannot be performed here, so the walk is split into
//! decisions and actions: [`DirectoryReaper::next_action`] names the next
//! filesystem action (enumerate a directory, remove a file, remove a now
//! empty directory), the caller performs it and reports the outcome to
//! [`DirectoryReaper::on_event`]. The machine keeps the walk in entry order,
//! extends the progress maximum by each directory's entry count as it is
//! enumerated, and counts one progress unit per removed object. Any reported
//! failure aborts the whole walk at once; whatever was already removed stays
//! removed, the accepted risk of a destructive operation.

use vstd::prelude::*;

use crate::error::Error;
use crate::fs_model::{
    entries_entry_total, entries_removals, entry_total, join_path, removals, spec_join, FsDirEntry,
    FsNode,
};
use crate::progress::ProgressNode;

verus! {

/// One entry of an enumerated directory, as the caller reports it.
#[derive(Debug)]
pub struct EntryInfo {
    /// Name of the entry within its directory.
    pub name: String,
    /// Whether the entry is itself a directory.
    pub is_dir: bool,
}

/// The next filesystem action the walk asks for.
#[derive(Debug)]
pub enum ReapAction {
    /// Enumerate the direct entries of the directory at this path.
    ReadDir(String),
    /// Remove the file at this path.
    RemoveFile(String),
    /// Remove the (now empty) directory at this path.
    RemoveDir(String),
    /// The walk is over: everything was removed, or it failed.
    Finished,
}

/// The specification-level shape of a [`ReapAction`].
pub enum ActionView {
    /// Enumerate the directory at this path.
    ReadDir(Seq<char>),
    /// Remove the file at this path.
    RemoveFile(Seq<char>),
    /// Remove the directory at this path.
    RemoveDir(Seq<char>),
    /// The walk is over.
    Finished,
}

impl View for ReapAction {
    type V = ActionView;

    open spec fn view(&self) -> ActionView {
        match self {
            ReapAction::ReadDir(p) => ActionView::ReadDir(p@),
            ReapAction::RemoveFile(p) => ActionView::RemoveFile(p@),
            ReapAction::RemoveDir(p) => ActionView::RemoveDir(p@),
            ReapAction::Finished => ActionView::Finished,
        }
    }
}

/// The outcome of the action the walk last asked for.
#[derive(Debug)]
pub enum ReapEvent {
    /// The requested directory was enumerated; these are its direct entries,
    /// in enumeration order.
    DirRead(Vec<EntryInfo>),
    /// The requested file or directory was removed.
    Removed,
    /// The action failed; the payload is the underlying error text.
    Failed(String),
}

/// One directory the walk is currently inside: its path, its entries, and
/// how many of them are already fully processed.
#[derive(Debug)]
pub struct ReapFrame {
    /// Path of the directory.
    pub path: String,
    /// Its direct entries, in enumeration order.
    pub entries: Vec<EntryInfo>,
    /// Number of leading entries already processed.
    pub idx: usize,
}

/// The deletion walk over the directory tree rooted at `root`.
#[derive(Debug)]
pub struct DirectoryReaper {
    /// The directory whose tree is being removed.
    pub root: String,
    /// The directories the walk is currently inside, outermost first.
    pub stack: Vec<ReapFrame>,
    /// Whether the whole tree was removed.
    pub finished: bool,
    /// Whether a reported failure aborted the walk.
    pub failed: bool,
}

impl DirectoryReaper {
    /// Well-formedness of the walk state: no frame has processed more
    /// entries than it holds, and every frame but the innermost stands at a
    /// directory entry — the one the next frame is inside of.
    pub open spec fn wf(self) -> bool {
        &&& forall|i: int|
            0 <= i < self.stack@.len() ==> (#[trigger] self.stack@[i]).idx
                <= self.stack@[i].entries@.len()
        &&& forall|i: int|
            0 <= i < self.stack@.len() - 1 ==> (#[trigger] self.stack@[i]).idx
                < self.stack@[i].entries@.len() && self.stack@[i].entries@[self.stack@[i].idx as int].is_dir
        &&& self.finished ==> self.stack@.len() == 0
    }

    /// The action the walk asks for next, as a function of its state.
    pub open spec fn spec_next(self) -> ActionView {
        if self.failed || self.finished {
            ActionView::Finished
        } else if self.stack@.len() == 0 {
            ActionView::ReadDir(self.root@)
        } else {
            let top = self.stack@.last();
            if top.idx < top.entries@.len() {
                let e = top.entries@[top.idx as int];
                if e.is_dir {
                    ActionView::ReadDir(spec_join(top.path@, e.name@))
                } else {
                    ActionView::RemoveFile(spec_join(top.path@, e.name@))
                }
            } else {
                ActionView::RemoveDir(top.path@)
            }
        }
    }

    /// A fresh walk over the tree rooted at `root`. Its first action is to
    /// enumerate the root — never to remove anything.
    pub fn new(root: String) -> (r: DirectoryReaper)
        ensures
            r.root == root,
            r.stack@.len() == 0,
            !r.finished,
            !r.failed,
            r.wf(),
            r.spec_next() == ActionView::ReadDir(root@),
    {
        DirectoryReaper { root, stack: Vec::new(), finished: false, failed: false }
    }

    /// The next filesystem action the caller should perform.
    pub fn next_action(&self) -> (a: ReapAction)
        requires
            self.wf(),
        ensures
            a@ == self.spec_next(),
    {
        if self.failed || self.finished {
            ReapAction::Finished
        } else if self.stack.len() == 0 {
            ReapAction::ReadDir(self.root.clone())
        } else {
            let top = &self.stack[self.stack.len() - 1];
            if top.idx < top.entries.len() {
                let e = &top.entries[top.idx];
                let child = join_path(&top.path, &e.name);
                if e.is_dir {
                    ReapAction::ReadDir(child)
                } else {
                    ReapAction::RemoveFile(child)
                }
            } else {
                ReapAction::RemoveDir(top.path.clone())
            }
        }
    }

    /// Accounts for the outcome of the action [`Self::next_action`] asked
    /// for. On an enumeration, the progress maximum grows by the number of
    /// entries found; on a removal, the progress counter advances by one; on
    /// a failure, the walk aborts and the failure is surfaced unchanged.
    pub fn on_event(&mut self, ev: ReapEvent, pr: &mut ProgressNode) -> (r: Result<(), Error>)
        requires
            old(self).wf(),
            !(old(self).spec_next() is Finished),
            ev matches ReapEvent::DirRead(es) ==> old(self).spec_next() is ReadDir && old(pr).max_or_zero() + es@.len() <= u64::MAX,
            ev is Removed ==> (old(self).spec_next() is RemoveFile || old(self).spec_next() is RemoveDir) && old(pr).current < u64::MAX,
        ensures
            final(self).wf(),
            final(self).root == old(self).root,
            ev matches ReapEvent::Failed(m) ==> ({
                &&& r == Err::<(), Error>(Error::FilesystemIO(m))
                &&& *final(self) == (DirectoryReaper { failed: true, ..*old(self) })
                &&& *final(pr) == *old(pr)
            }),
            ev matches ReapEvent::DirRead(es) ==> ({
                &&& r is Ok
                &&& *final(pr) == (ProgressNode {
                    max_value: Some((old(pr).max_or_zero() + es@.len()) as u64),
                    ..*old(pr)
                })
                &&& final(self).stack@.len() == old(self).stack@.len() + 1
                &&& final(self).stack@.drop_last() == old(self).stack@
                &&& old(self).spec_next() matches ActionView::ReadDir(p) && final(self).stack@.last().path@ == p
                &&& final(self).stack@.last().entries == es
                &&& final(self).stack@.last().idx == 0
                &&& !final(self).finished
                &&& !final(self).failed
            }),
            ev is Removed && old(self).spec_next() is RemoveFile ==> ({
                &&& r is Ok
                &&& *final(pr) == (ProgressNode {
                    current: (old(pr).current + 1) as u64,
                    ..*old(pr)
                })
                &&& final(self).stack@ == old(self).stack@.update(
                    old(self).stack@.len() - 1,
                    (ReapFrame {
                        idx: (old(self).stack@.last().idx + 1) as usize,
                        ..old(self).stack@.last()
                    }),
                )
                &&& !final(self).finished
                &&& !final(self).failed
            }),
            ev is Removed && old(self).spec_next() is RemoveDir ==> ({
                &&& r is Ok
                &&& *final(pr) == (ProgressNode {
                    current: (old(pr).current + 1) as u64,
                    ..*old(pr)
                })
                &&& old(self).stack@.len() == 1 ==> final(self).stack@.len() == 0 && final(self).finished && !final(self).failed
                &&& old(self).stack@.len() > 1 ==> ({
                    &&& final(self).stack@ == old(self).stack@.drop_last().update(
                        old(self).stack@.len() - 2,
                        (ReapFrame {
                            idx: (old(self).stack@[old(self).stack@.len() - 2].idx + 1) as usize,
                            ..old(self).stack@[old(self).stack@.len() - 2]
                        }),
                    )
                    &&& !final(self).finished
                    &&& !final(self).failed
                })
            }),
    {
        match ev {
            ReapEvent::Failed(m) => {
                self.failed = true;
                Err(Error::FilesystemIO(m))
            },
            ReapEvent::DirRead(es) => {
                let path = if self.stack.len() == 0 {
                    self.root.clone()
                } else {
                    let top = &self.stack[self.stack.len() - 1];
                    join_path(&top.path, &top.entries[top.idx].name)
                };
                let base = match pr.max() {
                    Some(m) => m,
                    None => 0,
                };
                pr.set_max(Some(base + es.len() as u64));
                self.stack.push(ReapFrame { path, entries: es, idx: 0 });
                proof {
                    assert(self.stack@.drop_last() =~= old(self).stack@);
                }
                Ok(())
            },
            ReapEvent::Removed => {
                pr.inc();
                let top = self.stack.pop().unwrap();
                if top.idx < top.entries.len() {
                    let bumped = ReapFrame { idx: top.idx + 1, ..top };
                    self.stack.push(bumped);
                    proof {
                        assert(self.stack@ =~= old(self).stack@.update(
                            old(self).stack@.len() - 1,
                            (ReapFrame {
                                idx: (old(self).stack@.last().idx + 1) as usize,
                                ..old(self).stack@.last()
                            }),
                        ));
                    }
                } else {
                    if self.stack.len() == 0 {
                        self.finished = true;
                    } else {
                        let parent = self.stack.pop().unwrap();
                        let parent_len = parent.entries.len();
                        proof {
                            let pstack = old(self).stack@;
                            assert(parent == pstack[pstack.len() - 2]);
                            assert(parent.idx < parent_len);
                        }
                        let bumped = ReapFrame { idx: parent.idx + 1, ..parent };
                        self.stack.push(bumped);
                        proof {
                            assert(self.stack@ =~= old(self).stack@.drop_last().update(
                                old(self).stack@.len() - 2,
                                (ReapFrame {
                                    idx: (old(self).stack@[old(self).stack@.len() - 2].idx
                                        + 1) as usize,
                                    ..old(self).stack@[old(self).stack@.len() - 2]
                                }),
                            ));
                        }
                    }
                }
                Ok(())
            },
        }
    }
}

/// Copies the model entries of a directory into the shape a caller reports
/// after enumerating it.
fn entries_to_infos(entries: &Vec<FsDirEntry>) -> (r: Vec<EntryInfo>)
    ensures
        r@.len() == entries@.len(),
        forall|j: int|
            0 <= j < entries@.len() ==> (#[trigger] r@[j]).name@ == entries@[j].name@ && r@[j].is_dir
                == (entries@[j].node is Dir),
{
    let mut r: Vec<EntryInfo> = Vec::new();
    let mut i: usize = 0;
    while i < entries.len()
        invariant
            i <= entries@.len(),
            r@.len() == i,
            forall|j: int|
                0 <= j < i ==> (#[trigger] r@[j]).name@ == entries@[j].name@ && r@[j].is_dir == (
                entries@[j].node is Dir),
        decreases entries@.len() - i,
    {
        let e = &entries[i];
        let is_dir = match &e.node {
            FsNode::Dir(_) => true,
            FsNode::File => false,
        };
        r.push(EntryInfo { name: e.name.clone(), is_dir });
        i = i + 1;
    }
    r
}

/// Runs the walk over the model directory `entries` mounted at `path`:
/// enumerates it, removes every member in entry order (recursing into
/// directories), then removes the directory itself, collecting the removed
/// paths. The progress maximum grows by exactly the entries encountered and
/// the counter by exactly the objects removed.
fn reap_dir(
    m: &mut DirectoryReaper,
    pr: &mut ProgressNode,
    path: &String,
    entries: &Vec<FsDirEntry>,
    removed: &mut Vec<String>,
)
    requires
        old(m).wf(),
        old(m).spec_next() == ActionView::ReadDir(path@),
        old(pr).max_or_zero() + entry_total(FsNode::Dir(*entries)) <= u64::MAX,
        old(pr).current + removals(path@, FsNode::Dir(*entries)).len() <= u64::MAX,
    ensures
        final(m).wf(),
        final(m).root == old(m).root,
        !final(m).failed,
        final(m).finished == (old(m).stack@.len() == 0),
        old(m).stack@.len() == 0 ==> final(m).stack@.len() == 0,
        old(m).stack@.len() > 0 ==> final(m).stack@ == old(m).stack@.update(
            old(m).stack@.len() - 1,
            (ReapFrame { idx: (old(m).stack@.last().idx + 1) as usize, ..old(m).stack@.last() }),
        ),
        *final(pr) == (ProgressNode {
            current: (old(pr).current + removals(path@, FsNode::Dir(*entries)).len()) as u64,
            max_value: Some(
                (old(pr).max_or_zero() + entry_total(FsNode::Dir(*entries))) as u64,
            ),
            ..*old(pr)
        }),
        final(removed).deep_view() == old(removed).deep_view() + removals(
            path@,
            FsNode::Dir(*entries),
        ),
    decreases FsNode::Dir(*entries),
{
    let ghost dir_node = FsNode::Dir(*entries);
    let ghost old_stack = old(m).stack@;
    let ghost old_max0 = old(pr).max_or_zero();
    let ghost old_cur = old(pr).current as int;
    let ghost old_removed = old(removed).deep_view();
    proof {
        assert(entry_total(dir_node) == entries@.len() + entries_entry_total(entries@, 0));
        assert(removals(path@, dir_node) == entries_removals(path@, entries@, 0).push(path@));
    }
    let infos = entries_to_infos(entries);
    let ghost infos_view = infos@;
    let _ = m.on_event(ReapEvent::DirRead(infos), pr);
    let n = entries.len();
    let mut i: usize = 0;
    while i < n
        invariant
            m.wf(),
            !m.failed,
            !m.finished,
            m.root == old(m).root,
            i <= n,
            n == entries@.len(),
            m.stack@.len() == old_stack.len() + 1,
            m.stack@.drop_last() == old_stack,
            m.stack@.last().path@ == path@,
            m.stack@.last().idx == i,
            m.stack@.last().entries@.len() == entries@.len(),
            forall|j: int|
                0 <= j < entries@.len() ==> (#[trigger] m.stack@.last().entries@[j]).name@
                    == entries@[j].name@ && m.stack@.last().entries@[j].is_dir == (
                entries@[j].node is Dir),
            dir_node == FsNode::Dir(*entries),
            old_max0 + entry_total(dir_node) <= u64::MAX,
            old_cur + removals(path@, dir_node).len() <= u64::MAX,
            removals(path@, dir_node) == entries_removals(path@, entries@, 0).push(path@),
            pr.max_value is Some,
            pr.max_or_zero() + entries_entry_total(entries@, i as int) == old_max0 + entry_total(
                dir_node,
            ),
            pr.current == old_cur + removed.deep_view().len() - old_removed.len(),
            removed.deep_view() + entries_removals(path@, entries@, i as int) == old_removed
                + entries_removals(path@, entries@, 0),
            pr.label == old(pr).label,
            pr.unit == old(pr).unit,
            pr.children == old(pr).children,
            pr.completion == old(pr).completion,
        decreases n - i,
    {
        let ghost pre_stack = m.stack@;
        let ghost pre_removed = removed.deep_view();
        let ghost pre_cur = pr.current as int;
        let child = join_path(path, &entries[i].name);
        proof {
            assert(entries_removals(path@, entries@, i as int) == removals(
                spec_join(path@, entries@[i as int].name@),
                entries@[i as int].node,
            ) + entries_removals(path@, entries@, i + 1));
            assert(entries_entry_total(entries@, i as int) == entry_total(entries@[i as int].node)
                + entries_entry_total(entries@, i + 1));
        }
        match &entries[i].node {
            FsNode::File => {
                proof {
                    assert(removals(child@, FsNode::File) =~= seq![child@]);
                    assert(m.spec_next() == ActionView::RemoveFile(child@));
                }
                removed.push(child);
                proof {
                    assert(removed.deep_view() =~= pre_removed.push(
                        spec_join(path@, entries@[i as int].name@),
                    ));
                    assert((pre_removed + seq![spec_join(path@, entries@[i as int].name@)])
                        + entries_removals(path@, entries@, i + 1) =~= pre_removed + (seq![
                        spec_join(path@, entries@[i as int].name@),
                    ] + entries_removals(path@, entries@, i + 1)));
                    assert(pre_removed.push(spec_join(path@, entries@[i as int].name@))
                        =~= pre_removed + seq![spec_join(path@, entries@[i as int].name@)]);
                }
                let _ = m.on_event(ReapEvent::Removed, pr);
                proof {
                    assert(m.stack@.drop_last() =~= old_stack);
                }
            },
            FsNode::Dir(sub) => {
                proof {
                    assert(entries@[i as int].node == FsNode::Dir(*sub));
                    assert(m.spec_next() == ActionView::ReadDir(child@));
                    assert(entry_total(FsNode::Dir(*sub)) <= entries_entry_total(
                        entries@,
                        i as int,
                    ));
                    assert(removals(child@, FsNode::Dir(*sub)).len() <= entries_removals(
                        path@,
                        entries@,
                        i as int,
                    ).len());
                    assert((removed.deep_view() + entries_removals(path@, entries@, i as int)).len()
                        == (old_removed + entries_removals(path@, entries@, 0)).len());
                    assert(removed.deep_view().len() + entries_removals(
                        path@,
                        entries@,
                        i as int,
                    ).len() == old_removed.len() + entries_removals(path@, entries@, 0).len());
                    assert(removals(path@, dir_node).len() == entries_removals(
                        path@,
                        entries@,
                        0,
                    ).len() + 1);
                    assert(pr.current + removals(child@, FsNode::Dir(*sub)).len() <= u64::MAX);
                }
                reap_dir(m, pr, &child, sub, removed);
                proof {
                    assert(m.stack@.drop_last() =~= old_stack);
                    assert(m.stack@.last().entries == pre_stack.last().entries);
                    assert((pre_removed + removals(child@, FsNode::Dir(*sub)))
                        + entries_removals(path@, entries@, i + 1) =~= pre_removed + (removals(
                        child@,
                        FsNode::Dir(*sub),
                    ) + entries_removals(path@, entries@, i + 1)));
                }
            },
        }
        i = i + 1;
    }
    proof {
        assert(entries_removals(path@, entries@, n as int) =~= Seq::<Seq<char>>::empty());
        assert(removed.deep_view() + entries_removals(path@, entries@, n as int) =~= removed.deep_view());
        assert(m.spec_next() == ActionView::RemoveDir(path@));
    }
    let ghost pre_removed = removed.deep_view();
    removed.push(path.clone());
    proof {
        assert(removed.deep_view() =~= pre_removed.push(path@));
        assert(pre_removed.push(path@) =~= old_removed + entries_removals(path@, entries@, 0).push(
            path@,
        ));
    }
    let _ = m.on_event(ReapEvent::Removed, pr);
    proof {
        if old_stack.len() > 0 {
            assert(final(m).stack@ =~= old_stack.update(
                old_stack.len() - 1,
                (ReapFrame { idx: (old_stack.last().idx + 1) as usize, ..old_stack.last() }),
            ));
        }
    }
}

/// The directory reaper applied to a model tree: removes the tree rooted at
/// `root` and every descendant, in child-before-parent order, and returns the
/// finished walk together with the removed paths. The progress node's
/// maximum has grown by the number of directory entries encountered across
/// all enumerations of the walk, and its counter by the number of objects
/// removed.
pub fn reap_model(root: &String, tree: &FsNode, pr: &mut ProgressNode) -> (res: (
    DirectoryReaper,
    Vec<String>,
))
    requires
        tree is Dir,
        old(pr).max_or_zero() + entry_total(*tree) <= u64::MAX,
        old(pr).current + removals(root@, *tree).len() <= u64::MAX,
    ensures
        res.0.finished,
        !res.0.failed,
        res.0.root == *root,
        res.1.deep_view() == removals(root@, *tree),
        *final(pr) == (ProgressNode {
            current: (old(pr).current + removals(root@, *tree).len()) as u64,
            max_value: Some((old(pr).max_or_zero() + entry_total(*tree)) as u64),
            ..*old(pr)
        }),
{
    let mut m = DirectoryReaper::new(root.clone());
    let mut removed: Vec<String> = Vec::new();
    proof {
        assert(removed.deep_view() =~= Seq::<Seq<char>>::empty());
    }
    match tree {
        FsNode::Dir(entries) => {
            reap_dir(&mut m, pr, root, entries, &mut removed);
            proof {
                assert(removed.deep_view() =~= Seq::<Seq<char>>::empty() + removals(
                    root@,
                    *tree,
                ));
                assert(Seq::<Seq<char>>::empty() + removals(root@, *tree) =~= removals(
                    root@,
                    *tree,
                ));
            }
            (m, removed)
        },
        FsNode::File => {
            proof {
                assert(false);
            }
            (m, removed)
        },
    }
}

} // verus!
