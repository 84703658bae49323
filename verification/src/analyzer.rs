//! The analyzer pipeline: own the parser bound to the Solidity grammar and
//! the ordered detector registry; parse a source text, run every registered
//! detector over the one tree, merge and rank the findings, and wrap them in
//! a report.

use vstd::prelude::*;

use crate::detectors::{detector_findings, merged_findings, merged_from, run_detector, DetectorKind};
use crate::model::{AnalysisReport, AnalyzerError, ReportView, Vulnerability};
use crate::rank::{lemma_rank_sorted_sorted, rank_sorted, ranked, sort_findings};
use crate::text::{count_lines, line_count_spec};
use crate::tree::{tree_wf, NodeView, SyntaxNode, SyntaxTree};

verus! {

/// What the Solidity grammar makes of a source text: the node arena of the
/// parsed tree, in depth-first preorder, or nothing when parsing fails. The
/// grammar pins the arena down as a function of the text alone; writing that
/// function out is beyond this crate, so it stays a name.
pub uninterp spec fn solidity_parse(source: Seq<u8>) -> Option<Seq<NodeView>>;

#[verifier::external_type_specification]
#[verifier::external_body]
pub struct ExParser(tree_sitter::Parser);

#[verifier::external_type_specification]
#[verifier::external_body]
pub struct ExTree(tree_sitter::Tree);

#[verifier::external_type_specification]
#[verifier::external_body]
pub struct ExNode<'tree>(tree_sitter::Node<'tree>);

/// Relies on tree_sitter::Parser::new and Parser::set_language: the returned
/// parser is bound to the grammar of tree_sitter_solidity; None when that
/// grammar cannot be loaded into the parser.
#[verifier::external_body]
fn new_solidity_parser() -> (r: Option<tree_sitter::Parser>) {
    let mut parser = tree_sitter::Parser::new();
    match parser.set_language(&tree_sitter_solidity::LANGUAGE.into()) {
        Ok(()) => Some(parser),
        Err(_) => None,
    }
}

/// Relies on tree_sitter::Parser::parse with no old tree, and on the node
/// accessors kind, start_byte, end_byte, start_position, child_count and
/// child. Parsing is deterministic in the source text for a parser bound to
/// the Solidity grammar — the only parser this crate makes — which entitles
/// the result to the name `solidity_parse`. Every node's byte range lies
/// within the parsed text, and a start position counts rows (newlines) and
/// columns (bytes) that all lie before the node's start byte, so neither
/// exceeds it. The body stores the nodes in depth-first preorder, each with
/// the indices of its direct children in source order.
#[verifier::external_body]
fn parse_source(parser: &mut tree_sitter::Parser, source: &Vec<u8>) -> (r: Option<SyntaxTree>)
    ensures
        r is Some <==> solidity_parse(source@) is Some,
        r matches Some(t) ==> Some(t@) == solidity_parse(source@) && tree_wf(
            t@,
            source@.len() as int,
        ),
{
    match parser.parse(source.as_slice(), None) {
        Some(tree) => Some(collect_nodes(&tree)),
        None => None,
    }
}

/// Relies on tree_sitter::Node::kind, start_byte, end_byte and
/// start_position: the image of one node, its children still to be filled
/// in by the caller. Part of the conversion behind `parse_source`.
#[verifier::external_body]
fn convert_node(node: &tree_sitter::Node) -> (r: SyntaxNode) {
    let pos = node.start_position();
    SyntaxNode {
        kind: node.kind().to_string(),
        start_byte: node.start_byte(),
        end_byte: node.end_byte(),
        row: pos.row,
        column: pos.column,
        children: Vec::new(),
    }
}

/// Relies on tree_sitter::Tree::root_node and on Node::child_count and
/// Node::child: walk the whole tree and store its nodes in depth-first
/// preorder, each holding the arena indices of its direct children in
/// source order. Part of the conversion behind `parse_source`.
#[verifier::external_body]
fn collect_nodes(tree: &tree_sitter::Tree) -> (r: SyntaxTree) {
    let mut nodes: Vec<SyntaxNode> = Vec::new();
    let mut stack: Vec<(tree_sitter::Node, Option<usize>)> = vec![(tree.root_node(), None)];
    while let Some((node, parent)) = stack.pop() {
        let index = nodes.len();
        if let Some(p) = parent {
            nodes[p].children.push(index);
        }
        nodes.push(convert_node(&node));
        let mut i = node.child_count();
        while i > 0 {
            i -= 1;
            stack.push((node.child(i).unwrap(), Some(index)));
        }
    }
    SyntaxTree { nodes }
}

/// The fixed registration order: reentrancy, then overflow, then access
/// control.
pub open spec fn default_registry() -> Seq<DetectorKind> {
    seq![DetectorKind::Reentrancy, DetectorKind::Overflow, DetectorKind::AccessControl]
}

/// The full analysis of one source text by a registry: the merged findings
/// of every registered detector over the parsed tree, ranked; the line count
/// of the text; the number of detectors that ran. Nothing when the text does
/// not parse.
pub open spec fn analysis_spec(dets: Seq<DetectorKind>, source: Seq<u8>) -> Option<ReportView> {
    match solidity_parse(source) {
        Some(nodes) => Some(
            ReportView {
                vulnerabilities: rank_sorted(merged_findings(dets, nodes, source)),
                total_lines: line_count_spec(source),
                detectors_run: dets.len() as int,
            },
        ),
        None => None,
    }
}

/// The analyzer: it owns the parser bound to the Solidity grammar and the
/// ordered registry of detectors, fixed at construction.
pub struct VulnerabilityAnalyzer {
    parser: tree_sitter::Parser,
    detectors: Vec<DetectorKind>,
}

impl VulnerabilityAnalyzer {
    /// The registered detectors, in registration order.
    pub closed spec fn registry(&self) -> Seq<DetectorKind> {
        self.detectors@
    }

    /// Construct the parser bound to the Solidity grammar and register the
    /// fixed detector list. Fails only when the grammar cannot be loaded.
    pub fn new() -> (r: Result<VulnerabilityAnalyzer, AnalyzerError>)
        ensures
            r matches Ok(a) ==> a.registry() == default_registry(),
            r matches Err(e) ==> e == AnalyzerError::GrammarUnavailable,
    {
        let parser = match new_solidity_parser() {
            Some(p) => p,
            None => {
                return Err(AnalyzerError::GrammarUnavailable);
            },
        };
        let mut detectors: Vec<DetectorKind> = Vec::new();
        detectors.push(DetectorKind::Reentrancy);
        detectors.push(DetectorKind::Overflow);
        detectors.push(DetectorKind::AccessControl);
        proof {
            assert(detectors@ =~= default_registry());
        }
        Ok(VulnerabilityAnalyzer { parser, detectors })
    }

    /// Parse the text, run every registered detector over the one tree, and
    /// return the ranked report. The parse-failure error is the only error
    /// path, and the registry survives the call unchanged. The one bound on
    /// the text is a machine limit: a start position must leave room for a
    /// 1-based line number.
    pub fn analyze(&mut self, source: &Vec<u8>) -> (r: Result<AnalysisReport, AnalyzerError>)
        requires
            source@.len() < usize::MAX,
        ensures
            final(self).registry() == old(self).registry(),
            r matches Ok(report) ==> Some(report@) == analysis_spec(
                old(self).registry(),
                source@,
            ),
            r matches Err(e) ==> e == AnalyzerError::ParseFailure && analysis_spec(
                old(self).registry(),
                source@,
            ) is None,
            r is Ok <==> solidity_parse(source@) is Some,
    {
        let ghost dets = self.detectors@;
        let tree = match parse_source(&mut self.parser, source) {
            Some(t) => t,
            None => {
                return Err(AnalyzerError::ParseFailure);
            },
        };
        let ghost nodes = tree@;
        let mut all: Vec<Vulnerability> = Vec::new();
        let mut idx: usize = 0;
        proof {
            assert(all.deep_view() + merged_from(dets, 0, nodes, source@) =~= merged_from(
                dets,
                0,
                nodes,
                source@,
            ));
        }
        while idx < self.detectors.len()
            invariant
                tree.wf(source@.len() as int),
                source@.len() < usize::MAX,
                self.detectors@ == dets,
                nodes == tree@,
                idx <= dets.len(),
                all.deep_view() + merged_from(dets, idx as int, nodes, source@) == merged_findings(
                    dets,
                    nodes,
                    source@,
                ),
            decreases dets.len() - idx,
        {
            let d = self.detectors[idx];
            let mut found = run_detector(&d, &tree, source);
            let ghost pre_all = all.deep_view();
            let ghost pre_at: Seq<Vulnerability> = all@;
            let ghost found_views = found.deep_view();
            let ghost found_at: Seq<Vulnerability> = found@;
            all.append(&mut found);
            proof {
                assert forall|k: int| 0 <= k < all@.len() implies #[trigger] all.deep_view()[k] == (
                pre_all + found_views)[k] by {
                    assert(all@[k] == (pre_at + found_at)[k]);
                    if k < pre_at.len() {
                        assert(all@[k] == pre_at[k]);
                        assert(pre_all[k] == pre_at[k].deep_view());
                    } else {
                        assert(all@[k] == found_at[k - pre_at.len()]);
                        assert(found_views[k - pre_at.len()] == found_at[k
                            - pre_at.len()].deep_view());
                    }
                }
                assert(all.deep_view() =~= pre_all + found_views);
                assert(found_views == detector_findings(dets[idx as int], nodes, source@));
                assert(merged_from(dets, idx as int, nodes, source@) == detector_findings(
                    dets[idx as int],
                    nodes,
                    source@,
                ) + merged_from(dets, idx + 1, nodes, source@));
                assert((pre_all + found_views) + merged_from(dets, idx + 1, nodes, source@)
                    =~= pre_all + (found_views + merged_from(dets, idx + 1, nodes, source@)));
            }
            idx = idx + 1;
        }
        proof {
            assert(merged_from(dets, dets.len() as int, nodes, source@) =~= Seq::empty());
            assert(all.deep_view() =~= all.deep_view() + Seq::empty());
            assert(all.deep_view() == merged_findings(dets, nodes, source@));
        }
        let sorted = sort_findings(all);
        let total_lines = count_lines(source);
        let detectors_run = self.detectors.len();
        let report = AnalysisReport { vulnerabilities: sorted, total_lines, detectors_run };
        proof {
            assert(solidity_parse(source@) == Some(nodes));
            assert(Some(report@) == analysis_spec(dets, source@));
        }
        Ok(report)
    }
}

/// A parse failure is the pipeline's only failure: there is a report exactly
/// when the text parses, whatever the registry holds.
pub proof fn lemma_report_iff_parse(dets: Seq<DetectorKind>, source: Seq<u8>)
    ensures
        analysis_spec(dets, source) is Some <==> solidity_parse(source) is Some,
{
}

/// In a report no finding with a lower severity precedes one with a higher,
/// and within one severity the line numbers are nondecreasing.
pub proof fn lemma_report_ranked(dets: Seq<DetectorKind>, source: Seq<u8>, report: ReportView)
    requires
        analysis_spec(dets, source) == Some(report),
    ensures
        ranked(report.vulnerabilities),
{
    match solidity_parse(source) {
        Some(nodes) => {
            lemma_rank_sorted_sorted(merged_findings(dets, nodes, source));
        },
        None => {
        },
    }
}

/// Every registered detector runs: the report's count equals the registry
/// size, however many findings were produced.
pub proof fn lemma_detectors_always_run(
    dets: Seq<DetectorKind>,
    source: Seq<u8>,
    report: ReportView,
)
    requires
        analysis_spec(dets, source) == Some(report),
    ensures
        report.detectors_run == dets.len(),
{
}

/// Idempotence: the analysis is a function of the registry and the source
/// text alone, and `analyze` leaves the registry unchanged, so two calls on
/// one analyzer with the same text return the same report.
pub proof fn lemma_analysis_deterministic(
    dets: Seq<DetectorKind>,
    source: Seq<u8>,
    first: ReportView,
    second: ReportView,
)
    requires
        analysis_spec(dets, source) == Some(first),
        analysis_spec(dets, source) == Some(second),
    ensures
        first == second,
{
}

} // verus!
