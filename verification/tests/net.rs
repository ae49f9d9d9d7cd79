use dlep::net::gtsm::is_gtsm_valid;

#[test]
fn is_gtsm_valid_only_at_255() {
    assert!(is_gtsm_valid(255));
    assert!(!is_gtsm_valid(254));
    assert!(!is_gtsm_valid(0));
    assert!(!is_gtsm_valid(1));
}
