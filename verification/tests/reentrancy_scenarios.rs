use solidity_guard::{
    AccessControlDetector, OverflowDetector, ReentrancyDetector, Severity, SyntaxNode, SyntaxTree,
    VulnerabilityDetector,
};

fn node(kind: &str, start: usize, end: usize, row: usize, col: usize, children: Vec<usize>) -> SyntaxNode {
    SyntaxNode {
        kind: kind.to_string(),
        start_byte: start,
        end_byte: end,
        row,
        column: col,
        children,
    }
}

/// A call with attached value followed directly by an assignment: one
/// Critical finding at the function's start, 1-based.
#[test]
fn call_then_assignment_is_flagged() {
    // bytes 0..20 hold the call, bytes 20..32 the assignment
    let source = b"x.call{value: 1}(\"\")balance = 0;".to_vec();
    let tree = SyntaxTree {
        nodes: vec![
            node("function_definition", 0, 32, 1, 4, vec![1, 2]),
            node("expression_statement", 0, 20, 1, 4, vec![]),
            node("assignment_expression", 20, 32, 1, 24, vec![]),
        ],
    };
    let findings = ReentrancyDetector::new().detect(&tree, &source);
    assert_eq!(findings.len(), 1);
    assert_eq!(findings[0].severity, Severity::Critical);
    assert_eq!(findings[0].title, "Reentrancy Vulnerability");
    assert_eq!(findings[0].description, "State change after external call detected");
    assert_eq!(findings[0].line, 2);
    assert_eq!(findings[0].column, 5);
    assert_eq!(
        findings[0].suggestion.as_deref(),
        Some("Use checks-effects-interactions pattern")
    );
}

/// The same call, but the assignment sits inside an `if` block instead of
/// being a direct child of the function: no finding (the scan is shallow).
#[test]
fn nested_assignment_is_missed() {
    let source = b"x.call{value: 1}(\"\")if (ok) { balance = 0; }".to_vec();
    let tree = SyntaxTree {
        nodes: vec![
            node("function_definition", 0, 44, 0, 0, vec![1, 2]),
            node("expression_statement", 0, 20, 0, 0, vec![]),
            node("if_statement", 20, 44, 0, 20, vec![3]),
            node("assignment_expression", 30, 42, 0, 30, vec![]),
        ],
    };
    let findings = ReentrancyDetector::new().detect(&tree, &source);
    assert_eq!(findings.len(), 0);
}

/// An assignment before any external call, and a call after it: no finding
/// (the call must precede the assignment).
#[test]
fn assignment_before_call_is_not_flagged() {
    let source = b"balance = 0;x.transfer(1);".to_vec();
    let tree = SyntaxTree {
        nodes: vec![
            node("function_definition", 0, 26, 0, 0, vec![1, 2]),
            node("assignment_expression", 0, 12, 0, 0, vec![]),
            node("expression_statement", 12, 26, 0, 12, vec![]),
        ],
    };
    let findings = ReentrancyDetector::new().detect(&tree, &source);
    assert_eq!(findings.len(), 0);
}

/// Two qualifying call-then-assignment pairs in one function: exactly one
/// finding (first match wins), not two.
#[test]
fn two_pairs_give_one_finding() {
    let source =
        b"x.call{value: 1}(\"\")balance = 0;x.call{value: 2}(\"\")balance = 1;".to_vec();
    let tree = SyntaxTree {
        nodes: vec![
            node("function_definition", 0, 64, 3, 2, vec![1, 2, 3, 4]),
            node("expression_statement", 0, 20, 3, 2, vec![]),
            node("assignment_expression", 20, 32, 3, 22, vec![]),
            node("expression_statement", 32, 52, 3, 34, vec![]),
            node("assignment_expression", 52, 64, 3, 54, vec![]),
        ],
    };
    let findings = ReentrancyDetector::new().detect(&tree, &source);
    assert_eq!(findings.len(), 1);
    assert_eq!(findings[0].line, 4);
}

/// Each of the three marker spellings triggers the scan; unrelated text
/// does not.
#[test]
fn each_marker_counts() {
    for (text, expected) in [
        (&b"a.send(1);balance = 0;"[..], 1usize),
        (&b"a.transfer(1);balance = 0;"[..], 1),
        (&b"a.call{v}(2);balance = 0;"[..], 1),
        (&b"a.callx(2);balance = 0;"[..], 0),
    ] {
        let split = text.iter().position(|&b| b == b';').unwrap() + 1;
        let source = text.to_vec();
        let tree = SyntaxTree {
            nodes: vec![
                node("function_definition", 0, source.len(), 0, 0, vec![1, 2]),
                node("expression_statement", 0, split, 0, 0, vec![]),
                node("assignment_expression", split, source.len(), 0, split, vec![]),
            ],
        };
        let findings = ReentrancyDetector::new().detect(&tree, &source);
        assert_eq!(findings.len(), expected);
    }
}

/// Nested function definitions are tested independently: a flagged inner
/// function yields its own finding even when the outer one is clean.
#[test]
fn nested_function_flagged_independently() {
    let source = b"x.call{value: 1}(\"\")balance = 0;".to_vec();
    let tree = SyntaxTree {
        nodes: vec![
            node("function_definition", 0, 32, 0, 0, vec![1]),
            node("function_definition", 0, 32, 1, 2, vec![2, 3]),
            node("expression_statement", 0, 20, 1, 2, vec![]),
            node("assignment_expression", 20, 32, 1, 22, vec![]),
        ],
    };
    let findings = ReentrancyDetector::new().detect(&tree, &source);
    assert_eq!(findings.len(), 1);
    assert_eq!(findings[0].line, 2);
    assert_eq!(findings[0].column, 3);
}

/// The extension detectors return no findings on any input.
#[test]
fn stub_detectors_are_empty() {
    let source = b"x.call{value: 1}(\"\")balance = 0;".to_vec();
    let tree = SyntaxTree {
        nodes: vec![
            node("function_definition", 0, 32, 0, 0, vec![1, 2]),
            node("expression_statement", 0, 20, 0, 0, vec![]),
            node("assignment_expression", 20, 32, 0, 20, vec![]),
        ],
    };
    assert!(OverflowDetector::new().detect(&tree, &source).is_empty());
    assert!(AccessControlDetector::new().detect(&tree, &source).is_empty());
}

/// The stable detector names.
#[test]
fn detector_names() {
    assert_eq!(ReentrancyDetector::new().name(), "reentrancy-detector");
    assert_eq!(OverflowDetector::new().name(), "overflow-detector");
    assert_eq!(AccessControlDetector::new().name(), "access-control-detector");
}
