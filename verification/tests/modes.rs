use solidity_guard::NanosuitMode;

#[test]
fn test_quantum_awareness() {
    assert!(NanosuitMode::Armor.quantum_aware());
    assert!(!NanosuitMode::Speed.quantum_aware());
}

#[test]
fn quantum_awareness_all_modes() {
    assert!(NanosuitMode::Strength.quantum_aware());
    assert!(!NanosuitMode::Stealth.quantum_aware());
}

#[test]
fn analysis_depth_per_mode() {
    assert_eq!(NanosuitMode::Strength.analysis_depth(), 10);
    assert_eq!(NanosuitMode::Speed.analysis_depth(), 3);
    assert_eq!(NanosuitMode::Armor.analysis_depth(), 7);
    assert_eq!(NanosuitMode::Stealth.analysis_depth(), 5);
}
