use solidity_guard::rank::sort_findings;
use solidity_guard::text::{count_lines, range_contains};
use solidity_guard::{Severity, Vulnerability, VulnerabilityAnalyzer};

fn finding(severity: Severity, line: usize, title: &str) -> Vulnerability {
    Vulnerability {
        severity,
        title: title.to_string(),
        description: String::new(),
        line,
        column: 1,
        suggestion: None,
    }
}

/// A report carries the line count of the source and the size of the fixed
/// detector registry, and a clean contract yields no finding.
#[test]
fn analyze_reports_metadata() {
    let mut analyzer = VulnerabilityAnalyzer::new().unwrap();
    let source = b"contract C {\n  function f() public {\n    uint x;\n  }\n}\n".to_vec();
    let report = analyzer.analyze(&source).unwrap();
    assert_eq!(report.detectors_run, 3);
    assert_eq!(report.total_lines, 5);
    assert!(report.vulnerabilities.is_empty());
}

/// Two analyses of the same text on one analyzer give the same report.
#[test]
fn analyze_is_idempotent() {
    let mut analyzer = VulnerabilityAnalyzer::new().unwrap();
    let source = b"contract C {\n  function f() public {\n    x = 1;\n  }\n}".to_vec();
    let first = analyzer.analyze(&source).unwrap();
    let second = analyzer.analyze(&source).unwrap();
    assert_eq!(first.total_lines, second.total_lines);
    assert_eq!(first.detectors_run, second.detectors_run);
    assert_eq!(first.vulnerabilities.len(), second.vulnerabilities.len());
    for (a, b) in first.vulnerabilities.iter().zip(second.vulnerabilities.iter()) {
        assert_eq!(a.severity, b.severity);
        assert_eq!(a.title, b.title);
        assert_eq!(a.line, b.line);
        assert_eq!(a.column, b.column);
    }
}

/// Ranking: severity descending, line ascending within one severity, and
/// ties keep their pre-sort order.
#[test]
fn findings_are_ranked_stably() {
    let input = vec![
        finding(Severity::Low, 5, "first low"),
        finding(Severity::Critical, 9, "critical"),
        finding(Severity::Low, 5, "second low"),
        finding(Severity::High, 1, "high"),
        finding(Severity::Info, 2, "info"),
        finding(Severity::Medium, 7, "medium"),
        finding(Severity::High, 4, "later high"),
    ];
    let sorted = sort_findings(input);
    let titles: Vec<&str> = sorted.iter().map(|v| v.title.as_str()).collect();
    assert_eq!(
        titles,
        vec!["critical", "high", "later high", "medium", "first low", "second low", "info"]
    );
    for pair in sorted.windows(2) {
        let (a, b) = (&pair[0], &pair[1]);
        assert!(a.severity.rank() >= b.severity.rank());
        if a.severity.rank() == b.severity.rank() {
            assert!(a.line <= b.line);
        }
    }
}

/// The severity order ranks Critical over High over Medium over Low over
/// Info.
#[test]
fn severity_total_order() {
    assert!(Severity::Critical > Severity::High);
    assert!(Severity::High > Severity::Medium);
    assert!(Severity::Medium > Severity::Low);
    assert!(Severity::Low > Severity::Info);
    assert!(Severity::Info < Severity::Critical);
    assert!(Severity::Medium == Severity::Medium);
    assert_eq!(Severity::Critical.cmp(&Severity::High), std::cmp::Ordering::Greater);
    assert_eq!(Severity::Low.cmp(&Severity::Low), std::cmp::Ordering::Equal);
    assert_eq!(Severity::Info.cmp(&Severity::Medium), std::cmp::Ordering::Less);
}

/// Line counting: newline-delimited segments, a trailing newline closing
/// the last segment instead of opening an empty one.
#[test]
fn line_counting() {
    assert_eq!(count_lines(&b"".to_vec()), 0);
    assert_eq!(count_lines(&b"a".to_vec()), 1);
    assert_eq!(count_lines(&b"a\n".to_vec()), 1);
    assert_eq!(count_lines(&b"a\nb".to_vec()), 2);
    assert_eq!(count_lines(&b"\n".to_vec()), 1);
    assert_eq!(count_lines(&b"a\r\nb\r\n".to_vec()), 2);
}

/// Substring containment over a byte range of the source.
#[test]
fn range_containment() {
    let source = b"abc.send(1)xyz".to_vec();
    let pat = b".send(".to_vec();
    assert!(range_contains(&source, 0, source.len(), &pat));
    assert!(range_contains(&source, 3, 9, &pat));
    assert!(!range_contains(&source, 4, source.len(), &pat));
    assert!(!range_contains(&source, 0, 8, &pat));
    assert!(range_contains(&source, 0, 0, &b"".to_vec()));
}

/// A parsed contract whose reentrancy pattern sits inside a function body
/// block is missed by the shallow scan: the documented limitation, end to
/// end.
#[test]
fn real_contract_pattern_is_below_the_shallow_scan() {
    let mut analyzer = VulnerabilityAnalyzer::new().unwrap();
    let source = b"contract Vault {\n  function withdraw() public {\n    msg.sender.call{value: 1}(\"\");\n    balance = 0;\n  }\n}\n"
        .to_vec();
    let report = analyzer.analyze(&source).unwrap();
    assert_eq!(report.detectors_run, 3);
    assert_eq!(report.total_lines, 6);
    assert!(report.vulnerabilities.is_empty());
}
