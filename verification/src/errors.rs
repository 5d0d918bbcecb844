use vstd::prelude::*;

verus! {

/// Reasons for which the registry turns a call down.
#[derive(Clone, Copy, Debug, PartialEq, Eq, Structural)]
pub enum DrainerRegistryError {
    /// The anti-spam fee could not be collected from the reporter.
    InsufficientFunds,
    /// The account named to receive the fee is the reporter's own.
    InvalidDrainerAddress,
    /// The record already holds the largest report count it can.
    ReportCountOverflow,
    /// The claimed amount would push the reported total past its range.
    AmountOverflow,
    /// The reported address is the reporter's own.
    CannotReportSelf,
    /// The reported address is the system program, which is never a drainer.
    CannotReportSystemProgram,
    /// No record exists yet for the address.
    RecordNotFound,
}

impl DrainerRegistryError {
    /// The text shown to a caller for each error.
    pub open spec fn spec_message(self) -> Seq<char> {
        match self {
            DrainerRegistryError::InsufficientFunds =>
                "Insufficient funds for anti-spam fee (0.01 SOL required)"@,
            DrainerRegistryError::InvalidDrainerAddress => "Invalid drainer address provided"@,
            DrainerRegistryError::ReportCountOverflow =>
                "Report count overflow - maximum reports reached"@,
            DrainerRegistryError::AmountOverflow =>
                "Amount overflow - total reported amount too large"@,
            DrainerRegistryError::CannotReportSelf => "Cannot report yourself as a drainer"@,
            DrainerRegistryError::CannotReportSystemProgram =>
                "Cannot report system program as drainer"@,
            DrainerRegistryError::RecordNotFound => "No drainer report exists for this address"@,
        }
    }

    /// Returns the text shown to a caller for this error.
    pub fn message(&self) -> (text: String)
        ensures
            text@ == self.spec_message(),
    {
        match self {
            DrainerRegistryError::InsufficientFunds => String::from_str(
                "Insufficient funds for anti-spam fee (0.01 SOL required)",
            ),
            DrainerRegistryError::InvalidDrainerAddress => String::from_str(
                "Invalid drainer address provided",
            ),
            DrainerRegistryError::ReportCountOverflow => String::from_str(
                "Report count overflow - maximum reports reached",
            ),
            DrainerRegistryError::AmountOverflow => String::from_str(
                "Amount overflow - total reported amount too large",
            ),
            DrainerRegistryError::CannotReportSelf => String::from_str(
                "Cannot report yourself as a drainer",
            ),
            DrainerRegistryError::CannotReportSystemProgram => String::from_str(
                "Cannot report system program as drainer",
            ),
            DrainerRegistryError::RecordNotFound => String::from_str(
                "No drainer report exists for this address",
            ),
        }
    }
}

} // verus!
