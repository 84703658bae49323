//! The vulnerability model: severities, findings, the analysis report, and
//! the two errors the pipeline can surface.

use vstd::prelude::*;

verus! {

/// Severity of a finding. The total order ranks `Critical` highest and
/// `Info` lowest; it is used only for ranking findings in a report.
#[derive(Clone, Copy, Debug, PartialEq, Eq, Structural)]
pub enum Severity {
    Critical,
    High,
    Medium,
    Low,
    Info,
}

/// Numeric rank of a severity: `Critical` is greatest, `Info` least.
pub open spec fn severity_rank_spec(s: Severity) -> int {
    match s {
        Severity::Critical => 4,
        Severity::High => 3,
        Severity::Medium => 2,
        Severity::Low => 1,
        Severity::Info => 0,
    }
}

impl Severity {
    /// The rank that the severity order goes by.
    pub fn rank(&self) -> (r: u8)
        ensures
            r as int == severity_rank_spec(*self),
    {
        match self {
            Severity::Critical => 4,
            Severity::High => 3,
            Severity::Medium => 2,
            Severity::Low => 1,
            Severity::Info => 0,
        }
    }

    /// The total order of severities, as an ordering value: `Critical`
    /// compares greatest, `Info` least.
    pub fn cmp(&self, other: &Severity) -> (r: core::cmp::Ordering)
        ensures
            (r == core::cmp::Ordering::Less) == (severity_rank_spec(*self) < severity_rank_spec(
                *other,
            )),
            (r == core::cmp::Ordering::Equal) == (severity_rank_spec(*self) == severity_rank_spec(
                *other,
            )),
            (r == core::cmp::Ordering::Greater) == (severity_rank_spec(*self) > severity_rank_spec(
                *other,
            )),
    {
        let self_val = self.rank();
        let other_val = other.rank();
        if self_val < other_val {
            core::cmp::Ordering::Less
        } else if self_val == other_val {
            core::cmp::Ordering::Equal
        } else {
            core::cmp::Ordering::Greater
        }
    }
}

impl PartialOrd for Severity {
    fn partial_cmp(&self, other: &Severity) -> (r: Option<core::cmp::Ordering>) {
        let a = self.rank();
        let b = other.rank();
        if a < b {
            Some(core::cmp::Ordering::Less)
        } else if a == b {
            Some(core::cmp::Ordering::Equal)
        } else {
            Some(core::cmp::Ordering::Greater)
        }
    }
}

impl vstd::std_specs::cmp::PartialOrdSpecImpl for Severity {
    open spec fn obeys_partial_cmp_spec() -> bool {
        true
    }

    open spec fn partial_cmp_spec(&self, other: &Severity) -> Option<core::cmp::Ordering> {
        if severity_rank_spec(*self) < severity_rank_spec(*other) {
            Some(core::cmp::Ordering::Less)
        } else if severity_rank_spec(*self) == severity_rank_spec(*other) {
            Some(core::cmp::Ordering::Equal)
        } else {
            Some(core::cmp::Ordering::Greater)
        }
    }
}

/// Mathematical image of one finding.
pub ghost struct VulnView {
    pub severity: Severity,
    pub title: Seq<char>,
    pub description: Seq<char>,
    pub line: int,
    pub column: int,
    pub suggestion: Option<Seq<char>>,
}

/// One reported instance of a suspected vulnerability. Immutable once a
/// detector has created it.
#[derive(Clone, Debug)]
pub struct Vulnerability {
    pub severity: Severity,
    pub title: String,
    pub description: String,
    /// 1-based line of the flagged location.
    pub line: usize,
    /// 1-based column of the flagged location.
    pub column: usize,
    pub suggestion: Option<String>,
}

impl View for Vulnerability {
    type V = VulnView;

    open spec fn view(&self) -> VulnView {
        VulnView {
            severity: self.severity,
            title: self.title@,
            description: self.description@,
            line: self.line as int,
            column: self.column as int,
            suggestion: match self.suggestion {
                Some(s) => Some(s@),
                None => None,
            },
        }
    }
}

impl DeepView for Vulnerability {
    type V = VulnView;

    open spec fn deep_view(&self) -> VulnView {
        self.view()
    }
}

/// Mathematical image of a report.
pub ghost struct ReportView {
    pub vulnerabilities: Seq<VulnView>,
    pub total_lines: int,
    pub detectors_run: int,
}

/// Aggregate result of one analysis call: the ranked findings of every
/// detector, the line count of the analyzed source, and how many detectors
/// ran.
#[derive(Debug)]
pub struct AnalysisReport {
    pub vulnerabilities: Vec<Vulnerability>,
    pub total_lines: usize,
    pub detectors_run: usize,
}

impl View for AnalysisReport {
    type V = ReportView;

    open spec fn view(&self) -> ReportView {
        ReportView {
            vulnerabilities: self.vulnerabilities.deep_view(),
            total_lines: self.total_lines as int,
            detectors_run: self.detectors_run as int,
        }
    }
}

/// The two ways the pipeline can fail: the grammar cannot be loaded at
/// construction, or one source text cannot be parsed.
#[derive(Clone, Copy, Debug, PartialEq, Eq, Structural)]
pub enum AnalyzerError {
    GrammarUnavailable,
    ParseFailure,
}

} // verus!
