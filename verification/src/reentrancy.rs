//! The reentrancy detector: flags a function in whose body code that
//! triggers an external call is syntactically followed, among the direct
//! children of the function node, by a state-mutating assignment — the
//! classic checks-effects-interactions violation.
//!
//! The external-call test is textual (substring markers), not a semantic
//! call-graph check, and the scan over a function looks only at the direct
//! children of the function node; both limitations are kept deliberately.

use vstd::prelude::*;

use crate::detectors::VulnerabilityDetector;
use crate::model::{Severity, VulnView, Vulnerability};
use crate::text::{has_external_call_marker, range_has_external_call_marker};
use crate::tree::{node_wf, NodeView, SyntaxTree};

verus! {

/// Grammar category of a function definition.
pub open spec fn function_definition_kind() -> Seq<char> {
    "function_definition"@
}

/// Grammar category of a state-mutating assignment.
pub open spec fn assignment_expression_kind() -> Seq<char> {
    "assignment_expression"@
}

/// The source text a node covers.
pub open spec fn child_text(nodes: Seq<NodeView>, source: Seq<u8>, c: int) -> Seq<u8> {
    source.subrange(nodes[c].start_byte as int, nodes[c].end_byte as int)
}

/// The scan over the direct children of one function node, from child `k`
/// on, with `found_call` saying whether an earlier child contained an
/// external-call marker: true when some child with a marker is followed by a
/// child of assignment kind.
pub open spec fn violation_from(
    nodes: Seq<NodeView>,
    source: Seq<u8>,
    children: Seq<usize>,
    k: int,
    found_call: bool,
) -> bool
    decreases children.len() - k,
{
    if k < 0 || k >= children.len() {
        false
    } else {
        let c = children[k] as int;
        if has_external_call_marker(child_text(nodes, source, c)) {
            violation_from(nodes, source, children, k + 1, true)
        } else if found_call && nodes[c].kind == assignment_expression_kind() {
            true
        } else {
            violation_from(nodes, source, children, k + 1, found_call)
        }
    }
}

/// Whether node `i` is a function definition whose direct children show a
/// state change after an external call.
pub open spec fn function_flagged(nodes: Seq<NodeView>, source: Seq<u8>, i: int) -> bool {
    &&& nodes[i].kind == function_definition_kind()
    &&& violation_from(nodes, source, nodes[i].children, 0, false)
}

/// The finding recorded for a flagged function node: Critical, located at
/// the node's start, 1-based.
pub open spec fn reentrancy_finding(n: NodeView) -> VulnView {
    VulnView {
        severity: Severity::Critical,
        title: "Reentrancy Vulnerability"@,
        description: "State change after external call detected"@,
        line: n.row + 1,
        column: n.column + 1,
        suggestion: Some("Use checks-effects-interactions pattern"@),
    }
}

/// The findings among the first `n` nodes of the arena, in preorder.
pub open spec fn findings_upto(nodes: Seq<NodeView>, source: Seq<u8>, n: int) -> Seq<VulnView>
    decreases n,
{
    if n <= 0 {
        Seq::empty()
    } else {
        findings_upto(nodes, source, n - 1) + if function_flagged(nodes, source, n - 1) {
            seq![reentrancy_finding(nodes[n - 1])]
        } else {
            Seq::empty()
        }
    }
}

/// All findings of the reentrancy detector: one per flagged function node,
/// in depth-first order of the function nodes.
pub open spec fn reentrancy_findings(nodes: Seq<NodeView>, source: Seq<u8>) -> Seq<VulnView> {
    findings_upto(nodes, source, nodes.len() as int)
}

/// The detector for state changes after an external call.
pub struct ReentrancyDetector;

impl ReentrancyDetector {
    /// A fresh detector; it holds no state.
    pub fn new() -> (r: Self) {
        ReentrancyDetector
    }

    /// Whether the text of node `node_index` contains an external-call
    /// marker.
    fn check_external_call(&self, tree: &SyntaxTree, node_index: usize, source: &Vec<u8>) -> (r:
        bool)
        requires
            tree.wf(source@.len() as int),
            node_index < tree@.len(),
        ensures
            r == has_external_call_marker(child_text(tree@, source@, node_index as int)),
    {
        let node = &tree.nodes[node_index];
        proof {
            assert(node_wf(tree@[node_index as int], tree@.len() as int, source@.len() as int));
        }
        range_has_external_call_marker(source, node.start_byte, node.end_byte)
    }

    /// The shallow scan of one function node: walk its direct children in
    /// source order; once a child's text has shown an external-call marker,
    /// a later child of assignment kind is a violation.
    fn check_state_change_after_call(
        &self,
        tree: &SyntaxTree,
        node_index: usize,
        source: &Vec<u8>,
    ) -> (r: bool)
        requires
            tree.wf(source@.len() as int),
            node_index < tree@.len(),
        ensures
            r == violation_from(tree@, source@, tree@[node_index as int].children, 0, false),
    {
        let ghost children = tree@[node_index as int].children;
        let assignment_kind: String = "assignment_expression".to_owned();
        let child_count = tree.nodes[node_index].children.len();
        let mut found_call = false;
        let mut k: usize = 0;
        proof {
            assert(node_wf(tree@[node_index as int], tree@.len() as int, source@.len() as int));
        }
        while k < child_count
            invariant
                tree.wf(source@.len() as int),
                node_index < tree@.len(),
                children == tree@[node_index as int].children,
                child_count == children.len(),
                k <= child_count,
                node_wf(tree@[node_index as int], tree@.len() as int, source@.len() as int),
                assignment_kind@ == assignment_expression_kind(),
                violation_from(tree@, source@, children, 0, false) == violation_from(
                    tree@,
                    source@,
                    children,
                    k as int,
                    found_call,
                ),
            decreases child_count - k,
        {
            let c = tree.nodes[node_index].children[k];
            proof {
                assert((children[k as int] as int) < tree@.len());
            }
            if self.check_external_call(tree, c, source) {
                found_call = true;
            } else if found_call && tree.nodes[c].kind == assignment_kind {
                return true;
            }
            k = k + 1;
        }
        false
    }

}

impl VulnerabilityDetector for ReentrancyDetector {
    open spec fn spec_name(&self) -> Seq<char> {
        "reentrancy-detector"@
    }

    open spec fn spec_findings(&self, nodes: Seq<NodeView>, source: Seq<u8>) -> Seq<VulnView> {
        reentrancy_findings(nodes, source)
    }

    fn name(&self) -> (r: &'static str) {
        "reentrancy-detector"
    }

    /// Run the detector: walk every node of the tree in depth-first order
    /// and record one Critical finding for each function definition whose
    /// direct children show a state change after an external call.
    fn detect(&self, tree: &SyntaxTree, source: &Vec<u8>) -> (r: Vec<Vulnerability>) {
        let mut vulns: Vec<Vulnerability> = Vec::new();
        let function_kind: String = "function_definition".to_owned();
        let node_count = tree.nodes.len();
        let mut i: usize = 0;
        while i < node_count
            invariant
                tree.wf(source@.len() as int),
                source@.len() < usize::MAX,
                node_count == tree@.len(),
                i <= node_count,
                function_kind@ == function_definition_kind(),
                vulns.deep_view() == findings_upto(tree@, source@, i as int),
            decreases node_count - i,
        {
            proof {
                assert(node_wf(tree@[i as int], tree@.len() as int, source@.len() as int));
            }
            let ghost old_vulns = vulns.deep_view();
            if tree.nodes[i].kind == function_kind && self.check_state_change_after_call(
                tree,
                i,
                source,
            ) {
                let node = &tree.nodes[i];
                let v = Vulnerability {
                    severity: Severity::Critical,
                    title: "Reentrancy Vulnerability".to_owned(),
                    description: "State change after external call detected".to_owned(),
                    line: node.row + 1,
                    column: node.column + 1,
                    suggestion: Some("Use checks-effects-interactions pattern".to_owned()),
                };
                proof {
                    assert(v@ == reentrancy_finding(tree@[i as int]));
                }
                vulns.push(v);
                proof {
                    assert(vulns.deep_view() =~= old_vulns.push(v@));
                    assert(old_vulns.push(v@) =~= findings_upto(tree@, source@, i + 1));
                }
            } else {
                proof {
                    assert(findings_upto(tree@, source@, i + 1) =~= old_vulns);
                }
            }
            i = i + 1;
        }
        proof {
            assert(vulns.deep_view() == reentrancy_findings(tree@, source@));
        }
        vulns
    }
}

} // verus!
