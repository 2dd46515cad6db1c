use vstd::prelude::*;
use crate::paths::{join, path_joined};

verus! {

/// The target of a symbolic link.
#[derive(Debug, Clone, PartialEq, Eq, Hash)]
pub struct ResolvedNode {
    pub absolute_path: String,
}

/// The abstract value of a [`Node`].
pub struct NodeView {
    pub parent: Seq<char>,
    pub relative_path: Seq<char>,
    pub absolute_path: Seq<char>,
    pub symlink: Option<Seq<char>>,
}

/// A file or directory, named by its parent directory and its name there.
#[derive(Debug, Clone, PartialEq, Eq, Hash)]
pub struct Node {
    pub parent: String,
    pub relative_path: String,
    pub absolute_path: String,
    pub symlink: Option<ResolvedNode>,
}

impl View for Node {
    type V = NodeView;

    open spec fn view(&self) -> NodeView {
        NodeView {
            parent: self.parent@,
            relative_path: self.relative_path@,
            absolute_path: self.absolute_path@,
            symlink: match self.symlink {
                Some(r) => Some(r.absolute_path@),
                None => None,
            },
        }
    }
}

impl Node {
    /// The node `relative_path` in the directory `parent`; its absolute path is
    /// the two joined.
    pub fn new(parent: String, relative_path: String) -> (r: Self)
        ensures
            r.parent == parent,
            r.relative_path == relative_path,
            r@.absolute_path == path_joined(parent@, relative_path@),
            r.symlink is None,
    {
        let absolute_path = join(parent.as_str(), relative_path.as_str());
        Node { parent, relative_path, absolute_path, symlink: None }
    }

    /// A copy of the node.
    pub fn copy(&self) -> (r: Self)
        ensures
            r@ == self@,
    {
        Node {
            parent: self.parent.clone(),
            relative_path: self.relative_path.clone(),
            absolute_path: self.absolute_path.clone(),
            symlink: match &self.symlink {
                Some(s) => Some(ResolvedNode { absolute_path: s.absolute_path.clone() }),
                None => None,
            },
        }
    }

    /// Whether two nodes are equal.
    pub fn same_as(&self, other: &Self) -> (r: bool)
        ensures
            r == (self@ == other@),
    {
        let links = match (&self.symlink, &other.symlink) {
            (Some(a), Some(b)) => a.absolute_path == b.absolute_path,
            (None, None) => true,
            _ => false,
        };
        self.parent == other.parent && self.relative_path == other.relative_path
            && self.absolute_path == other.absolute_path && links
    }
}

/// The listing of a directory, with a focus on one of its nodes.
#[derive(Debug, Clone)]
pub struct DirectoryBuffer {
    pub parent: String,
    pub nodes: Vec<Node>,
    pub total: usize,
    pub focus: usize,
}

/// The abstract value of a [`DirectoryBuffer`].
pub struct DirectoryBufferView {
    pub parent: Seq<char>,
    pub nodes: Seq<NodeView>,
    pub total: usize,
    pub focus: usize,
}

impl View for DirectoryBuffer {
    type V = DirectoryBufferView;

    open spec fn view(&self) -> DirectoryBufferView {
        DirectoryBufferView {
            parent: self.parent@,
            nodes: self.nodes@.map_values(|n: Node| n@),
            total: self.total,
            focus: self.focus,
        }
    }
}

impl DirectoryBuffer {
    /// A copy of the listing.
    pub fn copy(&self) -> (r: Self)
        ensures
            r@ == self@,
    {
        let mut nodes: Vec<Node> = Vec::new();
        let mut i: usize = 0;
        while i < self.nodes.len()
            invariant
                i <= self.nodes.len(),
                nodes.len() == i,
                forall|j: int| 0 <= j < i ==> nodes@[j]@ == self.nodes@[j]@,
            decreases self.nodes.len() - i,
        {
            nodes.push(self.nodes[i].copy());
            i = i + 1;
        }
        let r = DirectoryBuffer { parent: self.parent.clone(), nodes, total: self.total, focus: self.focus };
        assert(r@.nodes =~= self@.nodes);
        r
    }

    /// The node under the focus, if the focus points into the listing.
    pub fn focused_node(&self) -> (r: Option<&Node>)
        ensures
            match r {
                Some(n) => self.focus < self.nodes.len() && *n == self.nodes@[self.focus as int],
                None => self.focus >= self.nodes.len(),
            },
    {
        if self.focus < self.nodes.len() {
            Some(&self.nodes[self.focus])
        } else {
            None
        }
    }
}

} // verus!
