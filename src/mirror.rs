use vstd::prelude::*;
use crate::text::{local_path, local_path_of, texts};
use crate::tree::{tree_wf, FileNode, NodeKind};

verus! {

broadcast use vstd::std_specs::vec::axiom_vec_decreases_to_view, vstd::std_specs::vec::axiom_vec_index_decreases;

/// The local directories that mirroring `node` creates, each folder before
/// its children, siblings in order.
pub open spec fn mirror_dirs(node: FileNode, prefix: Seq<char>, root: Seq<char>) -> Seq<Seq<char>>
    decreases node,
{
    match node.kind {
        NodeKind::Folder { children } => seq![local_path(node.url@, prefix, root)] + mirror_dirs_list(
            children@,
            prefix,
            root,
        ),
        NodeKind::Leaf { .. } => Seq::empty(),
    }
}

/// The directories of the subtrees of `nodes`, one after another.
pub open spec fn mirror_dirs_list(nodes: Seq<FileNode>, prefix: Seq<char>, root: Seq<char>) -> Seq<
    Seq<char>,
>
    decreases nodes,
{
    if nodes.len() == 0 {
        Seq::empty()
    } else {
        mirror_dirs_list(nodes.drop_last(), prefix, root) + mirror_dirs(nodes.last(), prefix, root)
    }
}

/// The directory set after creating each of `dirs` on top of `existing`:
/// creating a directory that exists already changes nothing.
pub open spec fn with_dirs(existing: Set<Seq<char>>, dirs: Seq<Seq<char>>) -> Set<Seq<char>> {
    existing + dirs.to_set()
}

/// Appends to `out` the directories that mirroring `node` under `root`
/// creates.
fn plan_into(node: &FileNode, prefix: &str, root: &str, out: &mut Vec<String>)
    requires
        tree_wf(*node, prefix@),
    ensures
        texts(final(out)@) == texts(old(out)@) + mirror_dirs(*node, prefix@, root@),
    decreases node,
{
    match &node.kind {
        NodeKind::Leaf { .. } => {
            assert(texts(out@) + mirror_dirs(*node, prefix@, root@) =~= texts(out@));
        },
        NodeKind::Folder { children } => {
            let ghost start = texts(out@);
            let here = local_path_of(node.url.as_str(), prefix, root).unwrap();
            out.push(here);
            assert(texts(out@) =~= start + seq![local_path(node.url@, prefix@, root@)]);
            let mut i: usize = 0;
            while i < children.len()
                invariant
                    i <= children.len(),
                    node.kind == (NodeKind::Folder { children: *children }),
                    tree_wf(*node, prefix@),
                    texts(out@) == start + seq![local_path(node.url@, prefix@, root@)]
                        + mirror_dirs_list(children@.subrange(0, i as int), prefix@, root@),
                decreases children.len() - i,
            {
                proof {
                    assert(decreases_to!(*node => node.kind));
                    assert(decreases_to!(node.kind => node.kind->Folder_children));
                    assert(decreases_to!(*children => children[i as int]));
                    assert(tree_wf(children[i as int], prefix@));
                }
                plan_into(&children[i], prefix, root, out);
                proof {
                    let s = children@.subrange(0, i as int + 1);
                    assert(s.drop_last() =~= children@.subrange(0, i as int));
                    assert(s.last() == children@[i as int]);
                }
                i = i + 1;
            }
            proof {
                assert(children@.subrange(0, children.len() as int) =~= children@);
                assert(start + seq![local_path(node.url@, prefix@, root@)] + mirror_dirs_list(
                    children@,
                    prefix@,
                    root@,
                ) =~= start + mirror_dirs(*node, prefix@, root@));
            }
        },
    }
}

/// The directories to create, in order, so that the folder structure of
/// `node` exists under `root`: one per folder of the subtree, empty ones
/// included, each folder before its children. Files get none.
pub fn mirror_plan(node: &FileNode, prefix: &str, root: &str) -> (r: Vec<String>)
    requires
        tree_wf(*node, prefix@),
    ensures
        texts(r@) == mirror_dirs(*node, prefix@, root@),
{
    let mut out: Vec<String> = Vec::new();
    assert(texts(out@) =~= Seq::<Seq<char>>::empty());
    plan_into(node, prefix, root, &mut out);
    assert(texts(out@) =~= mirror_dirs(*node, prefix@, root@));
    out
}

/// Mirroring the same tree twice leaves the same directory set as mirroring
/// it once: the second pass creates nothing new.
pub proof fn lemma_mirror_idempotent(
    node: FileNode,
    prefix: Seq<char>,
    root: Seq<char>,
    existing: Set<Seq<char>>,
)
    ensures
        with_dirs(with_dirs(existing, mirror_dirs(node, prefix, root)), mirror_dirs(node, prefix, root))
            == with_dirs(existing, mirror_dirs(node, prefix, root)),
{
    let d = mirror_dirs(node, prefix, root).to_set();
    assert(existing + d + d =~= existing + d);
}

} // verus!
