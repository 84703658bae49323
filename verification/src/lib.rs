//! A static analyzer for Solidity source: it parses a contract into a syntax
//! tree and runs a set of vulnerability detectors over that tree, producing a
//! report of findings ranked by severity.

pub mod analyzer;
pub mod detectors;
pub mod model;
pub mod modes;
pub mod rank;
pub mod reentrancy;
pub mod text;
pub mod tree;

pub use analyzer::VulnerabilityAnalyzer;
pub use detectors::{AccessControlDetector, DetectorKind, OverflowDetector, VulnerabilityDetector};
pub use model::{AnalysisReport, AnalyzerError, Severity, Vulnerability};
pub use modes::NanosuitMode;
pub use reentrancy::ReentrancyDetector;
pub use tree::{SyntaxNode, SyntaxTree};
