use vstd::prelude::*;
use crate::text::{has_prefix, same_text, starts_with};

verus! {

broadcast use vstd::std_specs::vec::axiom_vec_index_decreases, vstd::std_specs::vec::axiom_vec_decreases_to_view;

/// A node of the remote file tree as the service describes it: a kind tag
/// and optional fields, not yet checked against each other.
pub struct RawNode {
    pub name: String,
    pub kind: String,
    pub url: String,
    pub download: Option<String>,
    pub childs: Option<Vec<RawNode>>,
    pub mtime: String,
    pub size: u64,
    pub locked: bool,
    pub download_count: u8,
}

/// What a node holds besides its name, url and metadata.
pub enum NodeKind {
    Folder { children: Vec<FileNode> },
    Leaf { download: String },
}

/// A checked node of the remote file tree.
pub struct FileNode {
    pub name: String,
    pub url: String,
    pub kind: NodeKind,
    pub mtime: String,
    pub size: u64,
    pub locked: bool,
    pub download_count: u8,
}

/// Why a described node is not a valid tree node.
#[derive(Clone, Copy, Debug, PartialEq, Eq, Structural)]
pub enum ParseError {
    /// The kind tag is neither `folder` nor `file`.
    UnknownKind,
    /// A folder carries a download path.
    FolderWithDownload,
    /// A file has no download path.
    LeafWithoutDownload,
    /// A file has children.
    LeafWithChildren,
    /// The url does not begin with the structural prefix.
    UrlWithoutPrefix,
}

pub open spec fn folder_tag() -> Seq<char> {
    seq!['f', 'o', 'l', 'd', 'e', 'r']
}

pub open spec fn file_tag() -> Seq<char> {
    seq!['f', 'i', 'l', 'e']
}

/// The problem with the node itself, its children aside.
pub open spec fn own_error(raw: RawNode, prefix: Seq<char>) -> Option<ParseError> {
    if raw.kind@ == folder_tag() {
        if raw.download is Some {
            Some(ParseError::FolderWithDownload)
        } else if !has_prefix(raw.url@, prefix) {
            Some(ParseError::UrlWithoutPrefix)
        } else {
            None
        }
    } else if raw.kind@ == file_tag() {
        if raw.download is None {
            Some(ParseError::LeafWithoutDownload)
        } else if raw.childs is Some && raw.childs->0@.len() > 0 {
            Some(ParseError::LeafWithChildren)
        } else if !has_prefix(raw.url@, prefix) {
            Some(ParseError::UrlWithoutPrefix)
        } else {
            None
        }
    } else {
        Some(ParseError::UnknownKind)
    }
}

/// The children that a described folder lists (none where the field is absent).
pub open spec fn raw_children(raw: RawNode) -> Seq<RawNode> {
    match raw.childs {
        Some(c) => c@,
        None => Seq::empty(),
    }
}

/// The first problem met in a depth-first walk of the described subtree,
/// each node's own problem before those of its children.
pub open spec fn first_error(raw: RawNode, prefix: Seq<char>) -> Option<ParseError>
    decreases raw,
{
    match own_error(raw, prefix) {
        Some(e) => Some(e),
        None => match raw.childs {
            Some(cs) => first_error_list(cs@, prefix),
            None => None,
        },
    }
}

/// The first problem met in the subtrees of `nodes`, taken in order.
pub open spec fn first_error_list(nodes: Seq<RawNode>, prefix: Seq<char>) -> Option<ParseError>
    decreases nodes,
{
    if nodes.len() == 0 {
        None
    } else {
        match first_error_list(nodes.drop_last(), prefix) {
            Some(e) => Some(e),
            None => first_error(nodes.last(), prefix),
        }
    }
}

proof fn lemma_error_in_prefix(nodes: Seq<RawNode>, i: int, prefix: Seq<char>)
    requires
        0 <= i <= nodes.len(),
        first_error_list(nodes.subrange(0, i), prefix) is Some,
    ensures
        first_error_list(nodes, prefix) == first_error_list(nodes.subrange(0, i), prefix),
    decreases nodes.len() - i,
{
    if i == nodes.len() {
        assert(nodes.subrange(0, i) =~= nodes);
    } else {
        assert(nodes.subrange(0, i + 1).drop_last() =~= nodes.subrange(0, i));
        lemma_error_in_prefix(nodes, i + 1, prefix);
    }
}

/// Every url of the subtree begins with the structural prefix.
pub open spec fn tree_wf(node: FileNode, prefix: Seq<char>) -> bool
    decreases node,
{
    &&& has_prefix(node.url@, prefix)
    &&& match node.kind {
        NodeKind::Folder { children } => forall|i: int|
            0 <= i < children.len() ==> tree_wf(#[trigger] children[i], prefix),
        NodeKind::Leaf { .. } => true,
    }
}

/// `node` is `raw` with its kind checked: the same name, url, metadata,
/// download path and children, in order.
pub open spec fn converts(raw: RawNode, node: FileNode) -> bool
    decreases raw,
{
    &&& node.name@ == raw.name@
    &&& node.url@ == raw.url@
    &&& node.mtime@ == raw.mtime@
    &&& node.size == raw.size
    &&& node.locked == raw.locked
    &&& node.download_count == raw.download_count
    &&& match node.kind {
        NodeKind::Folder { children } => {
            &&& raw.kind@ == folder_tag()
            &&& children.len() == raw_children(raw).len()
            &&& raw.childs is Some ==> (forall|i: int|
                0 <= i < children.len() ==> converts(#[trigger] raw.childs->0[i], children[i]))
        },
        NodeKind::Leaf { download } => {
            &&& raw.kind@ == file_tag()
            &&& raw.download is Some
            &&& download@ == raw.download->0@
        },
    }
}

fn own_check(raw: &RawNode, prefix: &str) -> (r: Option<ParseError>)
    ensures
        r == own_error(*raw, prefix@),
{
    proof {
        reveal_strlit("folder");
        reveal_strlit("file");
    }
    if same_text(raw.kind.as_str(), "folder") {
        assert("folder"@ =~= folder_tag());
        if raw.download.is_some() {
            Some(ParseError::FolderWithDownload)
        } else if !starts_with(raw.url.as_str(), prefix) {
            Some(ParseError::UrlWithoutPrefix)
        } else {
            None
        }
    } else if same_text(raw.kind.as_str(), "file") {
        assert("folder"@ =~= folder_tag());
        assert("file"@ =~= file_tag());
        if raw.download.is_none() {
            Some(ParseError::LeafWithoutDownload)
        } else if raw.childs.is_some() && raw.childs.as_ref().unwrap().len() > 0 {
            Some(ParseError::LeafWithChildren)
        } else if !starts_with(raw.url.as_str(), prefix) {
            Some(ParseError::UrlWithoutPrefix)
        } else {
            None
        }
    } else {
        assert("folder"@ =~= folder_tag());
        assert("file"@ =~= file_tag());
        Some(ParseError::UnknownKind)
    }
}

impl FileNode {
    /// Checks a described subtree and builds the checked tree from it. The
    /// first invalid node met in depth-first order gives the error; a node's
    /// own problem is reported before those of its children.
    pub fn from_raw(raw: &RawNode, prefix: &str) -> (r: Result<FileNode, ParseError>)
        ensures
            r is Ok <==> first_error(*raw, prefix@) is None,
            r matches Err(e) ==> first_error(*raw, prefix@) == Some(e),
            r is Ok ==> converts(*raw, r->Ok_0) && tree_wf(r->Ok_0, prefix@),
        decreases raw,
    {
        if let Some(e) = own_check(raw, prefix) {
            return Err(e);
        }
        if raw.download.is_none() {
            let mut children: Vec<FileNode> = Vec::new();
            if let Some(cs) = &raw.childs {
                let mut i: usize = 0;
                while i < cs.len()
                    invariant
                        i <= cs.len(),
                        children.len() == i,
                        raw.childs == Some(*cs),
                        own_error(*raw, prefix@) is None,
                        raw.download is None,
                        first_error_list(cs@.subrange(0, i as int), prefix@) is None,
                        forall|k: int|
                            #![trigger cs[k]]
                            #![trigger children[k]]
                            0 <= k < i ==> {
                                &&& converts(cs[k], children[k])
                                &&& tree_wf(children[k], prefix@)
                            },
                    decreases cs.len() - i,
                {
                    proof {
                        assert(decreases_to!(*raw => raw.childs));
                        assert(decreases_to!(raw.childs => raw.childs->0));
                        assert(decreases_to!(*cs => cs[i as int]));
                    }
                    let ghost done = cs@.subrange(0, i as int + 1);
                    proof {
                        assert(done.drop_last() =~= cs@.subrange(0, i as int));
                    }
                    match FileNode::from_raw(&cs[i], prefix) {
                        Ok(c) => children.push(c),
                        Err(e) => {
                            proof {
                                lemma_error_in_prefix(cs@, i as int + 1, prefix@);
                            }
                            return Err(e);
                        },
                    }
                    i = i + 1;
                }
                assert(cs@.subrange(0, cs.len() as int) =~= cs@);
            }
            let node = with_kind(raw, NodeKind::Folder { children });
            assert(tree_wf(node, prefix@));
            Ok(node)
        } else {
            let download = raw.download.as_ref().unwrap().clone();
            let node = with_kind(raw, NodeKind::Leaf { download });
            Ok(node)
        }
    }
}

/// A checked node with the name, url and metadata of `raw`.
fn with_kind(raw: &RawNode, kind: NodeKind) -> (r: FileNode)
    ensures
        r.name@ == raw.name@,
        r.url@ == raw.url@,
        r.mtime@ == raw.mtime@,
        r.size == raw.size,
        r.locked == raw.locked,
        r.download_count == raw.download_count,
        r.kind == kind,
{
    FileNode {
        name: raw.name.clone(),
        url: raw.url.clone(),
        kind,
        mtime: raw.mtime.clone(),
        size: raw.size,
        locked: raw.locked,
        download_count: raw.download_count,
    }
}

} // verus!
