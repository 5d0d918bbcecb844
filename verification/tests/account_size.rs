use drainer_registry::state::drainer_report::DrainerReport;

#[test]
fn test_account_size() {
    // Verify the account size calculation is correct
    assert_eq!(DrainerReport::LEN, 1156);
}
