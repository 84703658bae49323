//! The syntax-tree abstraction the detectors scan: an immutable arena of
//! typed nodes in depth-first (preorder) order, each with a byte range into
//! the source, a 0-based start position, and the indices of its direct
//! children.

use vstd::prelude::*;

verus! {

/// Mathematical image of one node.
pub ghost struct NodeView {
    pub kind: Seq<char>,
    pub start_byte: usize,
    pub end_byte: usize,
    pub row: usize,
    pub column: usize,
    pub children: Seq<usize>,
}

/// One node of a parsed tree: its grammar category, its byte range into the
/// source, its 0-based start position, and its direct children as indices
/// into the owning arena.
#[derive(Clone, Debug)]
pub struct SyntaxNode {
    pub kind: String,
    pub start_byte: usize,
    pub end_byte: usize,
    pub row: usize,
    pub column: usize,
    pub children: Vec<usize>,
}

impl View for SyntaxNode {
    type V = NodeView;

    open spec fn view(&self) -> NodeView {
        NodeView {
            kind: self.kind@,
            start_byte: self.start_byte,
            end_byte: self.end_byte,
            row: self.row,
            column: self.column,
            children: self.children@,
        }
    }
}

impl DeepView for SyntaxNode {
    type V = NodeView;

    open spec fn deep_view(&self) -> NodeView {
        self.view()
    }
}

/// A parsed syntax tree: its nodes in depth-first preorder, the root first.
#[derive(Clone, Debug)]
pub struct SyntaxTree {
    pub nodes: Vec<SyntaxNode>,
}

impl View for SyntaxTree {
    type V = Seq<NodeView>;

    open spec fn view(&self) -> Seq<NodeView> {
        self.nodes.deep_view()
    }
}

/// A node is well formed with respect to an arena of `node_count` nodes over
/// a source of `src_len` bytes: its byte range lies within the source, its
/// position does not lie past its own start byte (a 0-based row or column
/// counts at most one newline or byte per byte before the start), and its
/// child indices lie within the arena.
pub open spec fn node_wf(n: NodeView, node_count: int, src_len: int) -> bool {
    &&& n.start_byte <= n.end_byte <= src_len
    &&& n.row <= n.start_byte
    &&& n.column <= n.start_byte
    &&& forall|j: int| 0 <= j < n.children.len() ==> (n.children[j] as int) < node_count
}

/// Every node of the arena is well formed.
pub open spec fn tree_wf(nodes: Seq<NodeView>, src_len: int) -> bool {
    forall|i: int| 0 <= i < nodes.len() ==> node_wf(#[trigger] nodes[i], nodes.len() as int, src_len)
}

impl SyntaxTree {
    /// Well-formedness of the whole tree over a source of `src_len` bytes.
    pub open spec fn wf(&self, src_len: int) -> bool {
        tree_wf(self@, src_len)
    }
}

} // verus!
