use vstd::prelude::*;
use vstd::string::StringExecFns;
use crate::text::{local_path, local_path_of};
use crate::tree::{tree_wf, FileNode, NodeKind};

verus! {

broadcast use vstd::std_specs::vec::axiom_vec_decreases_to_view, vstd::std_specs::vec::axiom_vec_index_decreases;

/// The transfer of one file: where to fetch it, where to write it, and the
/// remote node to delete once it is here.
pub struct LeafJob {
    pub source: String,
    pub target: String,
    pub remote: String,
}

/// A `LeafJob` as plain text.
pub struct JobView {
    pub source: Seq<char>,
    pub target: Seq<char>,
    pub remote: Seq<char>,
}

impl View for LeafJob {
    type V = JobView;

    open spec fn view(&self) -> JobView {
        JobView { source: self.source@, target: self.target@, remote: self.remote@ }
    }
}

/// The job for the file at `url`, fetched from `download`.
pub open spec fn job_for(
    url: Seq<char>,
    download: Seq<char>,
    base: Seq<char>,
    prefix: Seq<char>,
    root: Seq<char>,
) -> JobView {
    JobView {
        source: base + download,
        target: local_path(url, prefix, root),
        remote: base + url,
    }
}

/// The jobs of the files of `node`, in depth-first order.
pub open spec fn entry_jobs(node: FileNode, base: Seq<char>, prefix: Seq<char>, root: Seq<char>) -> Seq<
    JobView,
>
    decreases node,
{
    match node.kind {
        NodeKind::Folder { children } => entry_jobs_list(children@, base, prefix, root),
        NodeKind::Leaf { download } => seq![job_for(node.url@, download@, base, prefix, root)],
    }
}

/// The jobs of the subtrees of `nodes`, one after another.
pub open spec fn entry_jobs_list(
    nodes: Seq<FileNode>,
    base: Seq<char>,
    prefix: Seq<char>,
    root: Seq<char>,
) -> Seq<JobView>
    decreases nodes,
{
    if nodes.len() == 0 {
        Seq::empty()
    } else {
        entry_jobs_list(nodes.drop_last(), base, prefix, root) + entry_jobs(
            nodes.last(),
            base,
            prefix,
            root,
        )
    }
}

pub open spec fn job_views(v: Seq<LeafJob>) -> Seq<JobView> {
    v.map_values(|j: LeafJob| j@)
}

/// `base` followed by `path`.
fn remote_url(base: &str, path: &str) -> (r: String)
    ensures
        r@ == base@ + path@,
{
    let mut r = base.to_owned();
    r.append(path);
    r
}

fn jobs_into(node: &FileNode, base: &str, prefix: &str, root: &str, out: &mut Vec<LeafJob>)
    requires
        tree_wf(*node, prefix@),
    ensures
        job_views(final(out)@) == job_views(old(out)@) + entry_jobs(*node, base@, prefix@, root@),
    decreases node,
{
    match &node.kind {
        NodeKind::Leaf { download } => {
            let ghost start = job_views(out@);
            let job = LeafJob {
                source: remote_url(base, download.as_str()),
                target: local_path_of(node.url.as_str(), prefix, root).unwrap(),
                remote: remote_url(base, node.url.as_str()),
            };
            out.push(job);
            assert(job_views(out@) =~= start + entry_jobs(*node, base@, prefix@, root@));
        },
        NodeKind::Folder { children } => {
            let ghost start = job_views(out@);
            let mut i: usize = 0;
            assert(children@.subrange(0, 0) =~= Seq::<FileNode>::empty());
            assert(job_views(out@) =~= start + Seq::<JobView>::empty());
            while i < children.len()
                invariant
                    i <= children.len(),
                    node.kind == (NodeKind::Folder { children: *children }),
                    tree_wf(*node, prefix@),
                    job_views(out@) == start + entry_jobs_list(
                        children@.subrange(0, i as int),
                        base@,
                        prefix@,
                        root@,
                    ),
                decreases children.len() - i,
            {
                proof {
                    assert(decreases_to!(*node => node.kind));
                    assert(decreases_to!(node.kind => node.kind->Folder_children));
                    assert(decreases_to!(*children => children[i as int]));
                    assert(tree_wf(children[i as int], prefix@));
                }
                jobs_into(&children[i], base, prefix, root, out);
                proof {
                    let s = children@.subrange(0, i as int + 1);
                    assert(s.drop_last() =~= children@.subrange(0, i as int));
                    assert(s.last() == children@[i as int]);
                }
                i = i + 1;
            }
            assert(children@.subrange(0, children.len() as int) =~= children@);
        },
    }
}

/// Where a download of one top-level entry stands.
#[derive(Clone, Copy, Debug, PartialEq, Eq, Structural)]
pub enum Phase {
    /// The next file, if any is left, is about to be fetched.
    Ready,
    /// The transfer of the current file has been started.
    Transferring,
    /// The current file is here and its remote copy has been deleted.
    LeafDeleted,
    /// Every file is here and the entry's remote folder has been deleted.
    EntryDeleted,
    /// Nothing is left to do.
    Done,
}

/// What the caller is to do next.
#[derive(Debug)]
pub enum Action {
    /// Fetch `source` into `target`, resuming a partial file, and write the
    /// transfer tool's log to the transfer log.
    Transfer { source: String, target: String },
    /// Delete the remote node at `url`.
    DeleteRemote { url: String },
    /// Empty the transfer log, keeping the file.
    TruncateLog,
    /// Tell the user that `name` has arrived under `dest`.
    Notify { name: String, dest: String },
    /// The entry is finished.
    Finished,
}

/// The decisions of downloading one top-level entry of the tree: its files
/// one at a time in depth-first order, each followed by the deletion of its
/// remote copy and the truncation of the transfer log, then the deletion of
/// the entry itself and a notification. A file whose transfer fails keeps
/// its remote copy, and the entry is then neither deleted nor announced.
pub struct EntryDriver {
    pub jobs: Vec<LeafJob>,
    pub entry_url: String,
    pub name: String,
    pub dest: String,
    pub pos: usize,
    pub phase: Phase,
    pub all_ok: bool,
}

/// How one step touches the transfer log: a transfer starts only on an
/// emptied log and fills it; only a truncation empties it again.
pub open spec fn log_step(o: EntryDriver, n: EntryDriver, r: Action) -> bool {
    &&& r is Transfer ==> !o.log_in_use() && n.log_in_use()
    &&& o.log_in_use() && !n.log_in_use() ==> r is TruncateLog
    &&& !o.log_in_use() && n.log_in_use() ==> r is Transfer
}

/// A run of steps: `actions[i]` leads from `states[i]` to `states[i + 1]`.
pub open spec fn is_run(states: Seq<EntryDriver>, actions: Seq<Action>) -> bool {
    &&& states.len() == actions.len() + 1
    &&& forall|i: int| 0 <= i < actions.len() ==> log_step(states[i], states[i + 1], #[trigger] actions[i])
}

proof fn lemma_emptied_by_truncation(states: Seq<EntryDriver>, actions: Seq<Action>, a: int, b: int)
    requires
        is_run(states, actions),
        0 <= a <= b < states.len(),
        states[a].log_in_use(),
        !states[b].log_in_use(),
    ensures
        exists|k: int| a <= k < b && #[trigger] actions[k] is TruncateLog,
    decreases b - a,
{
    let _ = actions[a];
    if states[a + 1].log_in_use() {
        lemma_emptied_by_truncation(states, actions, a + 1, b);
    } else {
        assert(actions[a] is TruncateLog);
    }
}

/// Between two transfers of a run the transfer log is always truncated: each
/// transfer starts on a log that holds nothing of the one before it.
pub proof fn lemma_truncated_between_transfers(
    states: Seq<EntryDriver>,
    actions: Seq<Action>,
    i: int,
    j: int,
)
    requires
        is_run(states, actions),
        0 <= i < j < actions.len(),
        actions[i] is Transfer,
        actions[j] is Transfer,
    ensures
        exists|k: int| i < k < j && #[trigger] actions[k] is TruncateLog,
{
    assert(log_step(states[i], states[i + 1], actions[i]));
    assert(log_step(states[j], states[j + 1], actions[j]));
    lemma_emptied_by_truncation(states, actions, i + 1, j);
    let k = choose|k: int| i + 1 <= k < j && #[trigger] actions[k] is TruncateLog;
    assert(i < k < j && actions[k] is TruncateLog);
}

impl EntryDriver {
    pub open spec fn wf(&self) -> bool {
        &&& self.pos <= self.jobs.len()
        &&& (self.phase is Transferring || self.phase is LeafDeleted) ==> self.pos < self.jobs.len()
        &&& (self.phase is EntryDeleted) ==> self.all_ok && self.pos == self.jobs.len()
    }

    /// The transfer log holds the output of a transfer that has not been
    /// followed by a truncation yet.
    pub open spec fn log_in_use(&self) -> bool {
        self.phase is Transferring || self.phase is LeafDeleted
    }

    /// The driver for the top-level entry `node`, whose files go under `root`
    /// and are fetched from the service at `base`.
    pub fn new(node: &FileNode, base: &str, prefix: &str, root: &str) -> (r: EntryDriver)
        requires
            tree_wf(*node, prefix@),
        ensures
            r.wf(),
            job_views(r.jobs@) == entry_jobs(*node, base@, prefix@, root@),
            r.entry_url@ == base@ + node.url@,
            r.name@ == node.name@,
            r.dest@ == root@,
            r.pos == 0,
            r.phase == Phase::Ready,
            r.all_ok,
    {
        let mut jobs: Vec<LeafJob> = Vec::new();
        assert(job_views(jobs@) =~= Seq::<JobView>::empty());
        jobs_into(node, base, prefix, root, &mut jobs);
        assert(job_views(jobs@) =~= entry_jobs(*node, base@, prefix@, root@));
        EntryDriver {
            jobs,
            entry_url: remote_url(base, node.url.as_str()),
            name: node.name.clone(),
            dest: root.to_owned(),
            pos: 0,
            phase: Phase::Ready,
            all_ok: true,
        }
    }

    /// Decides the next action. `last_ok` tells whether the action handed out
    /// last succeeded; it is read only after a `Transfer`, where it is whether
    /// the transfer tool exited with success.
    pub fn step(&mut self, last_ok: bool) -> (r: Action)
        requires
            old(self).wf(),
        ensures
            final(self).wf(),
            final(self).jobs@ == old(self).jobs@,
            final(self).entry_url@ == old(self).entry_url@,
            final(self).name@ == old(self).name@,
            final(self).dest@ == old(self).dest@,
            ({
                let o = *old(self);
                let n = *final(self);
                match o.phase {
                    Phase::Ready => if o.pos < o.jobs.len() {
                        &&& r matches Action::Transfer { source, target } && source@
                            == o.jobs[o.pos as int].source@ && target@ == o.jobs[o.pos as int].target@
                        &&& n.phase == Phase::Transferring
                        &&& n.pos == o.pos
                        &&& n.all_ok == o.all_ok
                    } else if o.all_ok {
                        &&& r matches Action::DeleteRemote { url } && url@ == o.entry_url@
                        &&& n.phase == Phase::EntryDeleted
                        &&& n.pos == o.pos
                        &&& n.all_ok
                    } else {
                        &&& r is Finished
                        &&& n.phase == Phase::Done
                        &&& n.pos == o.pos
                        &&& n.all_ok == o.all_ok
                    },
                    Phase::Transferring => if last_ok {
                        &&& r matches Action::DeleteRemote { url } && url@ == o.jobs[o.pos as int].remote@
                        &&& n.phase == Phase::LeafDeleted
                        &&& n.pos == o.pos
                        &&& n.all_ok == o.all_ok
                    } else {
                        &&& r is TruncateLog
                        &&& n.phase == Phase::Ready
                        &&& n.pos == o.pos + 1
                        &&& !n.all_ok
                    },
                    Phase::LeafDeleted => {
                        &&& r is TruncateLog
                        &&& n.phase == Phase::Ready
                        &&& n.pos == o.pos + 1
                        &&& n.all_ok == o.all_ok
                    },
                    Phase::EntryDeleted => {
                        &&& r matches Action::Notify { name, dest } && name@ == o.name@ && dest@
                            == o.dest@
                        &&& n.phase == Phase::Done
                        &&& n.pos == o.pos
                        &&& n.all_ok == o.all_ok
                    },
                    Phase::Done => {
                        &&& r is Finished
                        &&& n.phase == Phase::Done
                        &&& n.pos == o.pos
                        &&& n.all_ok == o.all_ok
                    },
                }
            }),
            log_step(*old(self), *final(self), r),
    {
        match self.phase {
            Phase::Ready => {
                if self.pos < self.jobs.len() {
                    let job = &self.jobs[self.pos];
                    let r = Action::Transfer { source: job.source.clone(), target: job.target.clone() };
                    self.phase = Phase::Transferring;
                    r
                } else if self.all_ok {
                    self.phase = Phase::EntryDeleted;
                    Action::DeleteRemote { url: self.entry_url.clone() }
                } else {
                    self.phase = Phase::Done;
                    Action::Finished
                }
            },
            Phase::Transferring => {
                if last_ok {
                    self.phase = Phase::LeafDeleted;
                    Action::DeleteRemote { url: self.jobs[self.pos].remote.clone() }
                } else {
                    self.all_ok = false;
                    self.pos = self.pos + 1;
                    self.phase = Phase::Ready;
                    Action::TruncateLog
                }
            },
            Phase::LeafDeleted => {
                self.pos = self.pos + 1;
                self.phase = Phase::Ready;
                Action::TruncateLog
            },
            Phase::EntryDeleted => {
                self.phase = Phase::Done;
                Action::Notify { name: self.name.clone(), dest: self.dest.clone() }
            },
            Phase::Done => Action::Finished,
        }
    }
}

} // verus!
