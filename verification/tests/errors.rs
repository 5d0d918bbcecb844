use drainer_registry::DrainerRegistryError;

#[test]
fn every_error_has_its_message() {
    assert_eq!(
        DrainerRegistryError::InsufficientFunds.message(),
        "Insufficient funds for anti-spam fee (0.01 SOL required)"
    );
    assert_eq!(
        DrainerRegistryError::InvalidDrainerAddress.message(),
        "Invalid drainer address provided"
    );
    assert_eq!(
        DrainerRegistryError::ReportCountOverflow.message(),
        "Report count overflow - maximum reports reached"
    );
    assert_eq!(
        DrainerRegistryError::AmountOverflow.message(),
        "Amount overflow - total reported amount too large"
    );
    assert_eq!(
        DrainerRegistryError::CannotReportSelf.message(),
        "Cannot report yourself as a drainer"
    );
    assert_eq!(
        DrainerRegistryError::CannotReportSystemProgram.message(),
        "Cannot report system program as drainer"
    );
    assert_eq!(
        DrainerRegistryError::RecordNotFound.message(),
        "No drainer report exists for this address"
    );
}

#[test]
fn errors_compare_by_variant() {
    assert_eq!(DrainerRegistryError::AmountOverflow, DrainerRegistryError::AmountOverflow);
    assert_ne!(DrainerRegistryError::AmountOverflow, DrainerRegistryError::ReportCountOverflow);
}
