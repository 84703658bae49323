//! The detector contract and the registry: every detector exposes a stable
//! name and a pure scan from (tree, source) to findings. Beside the
//! reentrancy detector stand two extension points, reserved for overflow and
//! access-control checks, that produce no findings yet.

use vstd::prelude::*;

use crate::model::{VulnView, Vulnerability};
use crate::reentrancy::{reentrancy_findings, ReentrancyDetector};
use crate::tree::{NodeView, SyntaxTree};

verus! {

/// The capability contract every detector meets: a stable name, and a pure
/// read-only scan from a parsed tree and its source text to a list of
/// findings. The two spec functions pin down, per detector, what the two
/// exec methods return; adding a vulnerability class means implementing
/// this trait and appending the new detector to the registry.
pub trait VulnerabilityDetector {
    /// The identifier that `name` returns.
    spec fn spec_name(&self) -> Seq<char>;

    /// The findings that `detect` returns.
    spec fn spec_findings(&self, nodes: Seq<NodeView>, source: Seq<u8>) -> Seq<VulnView>;

    /// Stable identifier of the detector, used for reporting.
    fn name(&self) -> (r: &'static str)
        ensures
            r@ == self.spec_name(),
    ;

    /// Scan the tree. The scan cannot fail: on a well-formed tree it
    /// returns its findings, perhaps none.
    fn detect(&self, tree: &SyntaxTree, source: &Vec<u8>) -> (r: Vec<Vulnerability>)
        requires
            tree.wf(source@.len() as int),
            source@.len() < usize::MAX,
        ensures
            r.deep_view() == self.spec_findings(tree@, source@),
    ;
}

/// Detector reserved for integer-overflow patterns; it produces no findings
/// yet.
pub struct OverflowDetector;

impl OverflowDetector {
    /// A fresh detector; it holds no state.
    pub fn new() -> (r: Self) {
        OverflowDetector
    }
}

impl VulnerabilityDetector for OverflowDetector {
    open spec fn spec_name(&self) -> Seq<char> {
        "overflow-detector"@
    }

    open spec fn spec_findings(&self, nodes: Seq<NodeView>, source: Seq<u8>) -> Seq<VulnView> {
        Seq::empty()
    }

    fn name(&self) -> (r: &'static str) {
        "overflow-detector"
    }

    fn detect(&self, tree: &SyntaxTree, source: &Vec<u8>) -> (r: Vec<Vulnerability>) {
        let r: Vec<Vulnerability> = Vec::new();
        proof {
            assert(r.deep_view() =~= Seq::<VulnView>::empty());
        }
        r
    }
}

/// Detector reserved for missing access-control patterns; it produces no
/// findings yet.
pub struct AccessControlDetector;

impl AccessControlDetector {
    /// A fresh detector; it holds no state.
    pub fn new() -> (r: Self) {
        AccessControlDetector
    }
}

impl VulnerabilityDetector for AccessControlDetector {
    open spec fn spec_name(&self) -> Seq<char> {
        "access-control-detector"@
    }

    open spec fn spec_findings(&self, nodes: Seq<NodeView>, source: Seq<u8>) -> Seq<VulnView> {
        Seq::empty()
    }

    fn name(&self) -> (r: &'static str) {
        "access-control-detector"
    }

    fn detect(&self, tree: &SyntaxTree, source: &Vec<u8>) -> (r: Vec<Vulnerability>) {
        let r: Vec<Vulnerability> = Vec::new();
        proof {
            assert(r.deep_view() =~= Seq::<VulnView>::empty());
        }
        r
    }
}

/// The closed set of detectors an analyzer can register.
#[derive(Clone, Copy, Debug, PartialEq, Eq, Structural)]
pub enum DetectorKind {
    Reentrancy,
    Overflow,
    AccessControl,
}

/// What one detector finds on a parsed tree, in the detector's own order.
pub open spec fn detector_findings(
    d: DetectorKind,
    nodes: Seq<NodeView>,
    source: Seq<u8>,
) -> Seq<VulnView> {
    match d {
        DetectorKind::Reentrancy => reentrancy_findings(nodes, source),
        DetectorKind::Overflow => Seq::empty(),
        DetectorKind::AccessControl => Seq::empty(),
    }
}

/// The findings of the registered detectors from position `k` on, each
/// detector's contribution in its own order, detectors in registration
/// order.
pub open spec fn merged_from(
    dets: Seq<DetectorKind>,
    k: int,
    nodes: Seq<NodeView>,
    source: Seq<u8>,
) -> Seq<VulnView>
    decreases dets.len() - k,
{
    if k < 0 || k >= dets.len() {
        Seq::empty()
    } else {
        detector_findings(dets[k], nodes, source) + merged_from(dets, k + 1, nodes, source)
    }
}

/// The merged findings of a whole registry.
pub open spec fn merged_findings(
    dets: Seq<DetectorKind>,
    nodes: Seq<NodeView>,
    source: Seq<u8>,
) -> Seq<VulnView> {
    merged_from(dets, 0, nodes, source)
}

/// Run one registered detector over a parsed tree.
pub fn run_detector(d: &DetectorKind, tree: &SyntaxTree, source: &Vec<u8>) -> (r: Vec<
    Vulnerability,
>)
    requires
        tree.wf(source@.len() as int),
        source@.len() < usize::MAX,
    ensures
        r.deep_view() == detector_findings(*d, tree@, source@),
{
    match d {
        DetectorKind::Reentrancy => ReentrancyDetector::new().detect(tree, source),
        DetectorKind::Overflow => OverflowDetector::new().detect(tree, source),
        DetectorKind::AccessControl => AccessControlDetector::new().detect(tree, source),
    }
}

/// The extension detectors contribute no findings, on any input.
pub proof fn lemma_stub_detectors_empty(nodes: Seq<NodeView>, source: Seq<u8>)
    ensures
        detector_findings(DetectorKind::Overflow, nodes, source) == Seq::<VulnView>::empty(),
        detector_findings(DetectorKind::AccessControl, nodes, source) == Seq::<VulnView>::empty(),
{
}

} // verus!
