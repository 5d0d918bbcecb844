use crate::errors::DrainerRegistryError;
use crate::state::clock::Clock;
use crate::state::drainer_report::{submit_report, DrainerReport, DrainerReportView};
use crate::state::pubkey::{system_program_id, Pubkey};
use vstd::prelude::*;

verus! {

/// Anti-spam fee in lamports (0.01 SOL = 10_000_000 lamports).
pub const ANTI_SPAM_FEE: u64 = 10_000_000;

/// The accounts of one report call, as the values read from them.
#[derive(Clone, Debug, PartialEq, Eq)]
pub struct ReportDrainer {
    /// The slot of the reported address, as the store handed it out:
    /// `None` or a slot that counts no report where no record exists yet.
    pub drainer_report: Option<DrainerReport>,
    /// The reporter, who pays the anti-spam fee.
    pub reporter: Pubkey,
    /// The account that receives the anti-spam fee.
    pub program_authority: Pubkey,
    /// The clock reading taken for this call.
    pub clock: Clock,
}

/// A transfer of lamports that the caller is to carry out.
#[derive(Clone, Copy, Debug, PartialEq, Eq)]
pub struct FeeTransfer {
    pub from: Pubkey,
    pub to: Pubkey,
    pub lamports: u64,
}

/// Notice that a report was accepted.
#[derive(Clone, Copy, Debug, PartialEq, Eq)]
pub struct DrainerReported {
    pub drainer_address: Pubkey,
    pub reporter: Pubkey,
    pub report_count: u32,
    pub amount_stolen: Option<u64>,
    pub timestamp: i64,
}

impl ReportDrainer {
    /// Why the call is turned down before any fee moves, if it is. Nobody
    /// reports themselves, the system program is never a drainer, and the
    /// fee must not go back to the reporter; the checks are made in this
    /// order.
    pub open spec fn validation_error(self, drainer_address: Pubkey) -> Option<
        DrainerRegistryError,
    > {
        if drainer_address == self.reporter {
            Some(DrainerRegistryError::CannotReportSelf)
        } else if drainer_address == Pubkey::zero() {
            Some(DrainerRegistryError::CannotReportSystemProgram)
        } else if self.program_authority == self.reporter {
            Some(DrainerRegistryError::InvalidDrainerAddress)
        } else {
            None
        }
    }

    /// The fee that an admitted call owes: `ANTI_SPAM_FEE` lamports from
    /// the reporter to the program authority.
    pub open spec fn fee(self) -> FeeTransfer {
        FeeTransfer { from: self.reporter, to: self.program_authority, lamports: ANTI_SPAM_FEE }
    }

    /// The slot of the reported address, as mathematical values.
    pub open spec fn slot(self) -> Option<DrainerReportView> {
        match self.drainer_report {
            Some(record) => Some(record@),
            None => None,
        }
    }

    /// The record that the call leaves, or why the call is turned down: by
    /// validation, for want of the fee, or by a counter that is full.
    pub open spec fn outcome(
        self,
        drainer_address: Pubkey,
        amount_stolen: Option<u64>,
        fee_transferred: bool,
    ) -> Result<DrainerReportView, DrainerRegistryError> {
        match self.validation_error(drainer_address) {
            Some(error) => Err(error),
            None => if !fee_transferred {
                Err(DrainerRegistryError::InsufficientFunds)
            } else {
                submit_report(
                    self.slot(),
                    drainer_address,
                    self.reporter,
                    amount_stolen,
                    self.clock.unix_timestamp,
                )
            },
        }
    }

    /// The record that a call through `report_drainer` leaves, or why it
    /// is turned down. The accounts are looked at before the report is: a
    /// call whose fee would go back to the reporter is turned down with
    /// `InvalidDrainerAddress`, whatever its target. Every other call ends
    /// as `outcome` says.
    pub open spec fn call_outcome(
        self,
        drainer_address: Pubkey,
        amount_stolen: Option<u64>,
        fee_transferred: bool,
    ) -> Result<DrainerReportView, DrainerRegistryError> {
        if self.program_authority == self.reporter {
            Err(DrainerRegistryError::InvalidDrainerAddress)
        } else {
            self.outcome(drainer_address, amount_stolen, fee_transferred)
        }
    }

    /// The notice that goes out once the call has left `record`.
    pub open spec fn notice(
        self,
        record: DrainerReportView,
        drainer_address: Pubkey,
        amount_stolen: Option<u64>,
    ) -> DrainerReported {
        DrainerReported {
            drainer_address,
            reporter: self.reporter,
            report_count: record.report_count as u32,
            amount_stolen,
            timestamp: self.clock.unix_timestamp,
        }
    }

    /// Checks a report before any fee or state moves. An admitted call
    /// gets the fee transfer to carry out; a call that is turned down
    /// gets none.
    pub fn validate(&self, drainer_address: Pubkey) -> (result: Result<
        FeeTransfer,
        DrainerRegistryError,
    >)
        ensures
            result == (match self.validation_error(drainer_address) {
                Some(error) => Err::<FeeTransfer, DrainerRegistryError>(error),
                None => Ok(self.fee()),
            }),
    {
        if drainer_address == self.reporter {
            return Err(DrainerRegistryError::CannotReportSelf);
        }
        if drainer_address == system_program_id() {
            return Err(DrainerRegistryError::CannotReportSystemProgram);
        }
        if self.program_authority == self.reporter {
            return Err(DrainerRegistryError::InvalidDrainerAddress);
        }
        Ok(FeeTransfer { from: self.reporter, to: self.program_authority, lamports: ANTI_SPAM_FEE })
    }
}

/// Handles one report, once the transfer that `validate` asked for has
/// been tried. `fee_transferred` says whether it went through.
///
/// The call is checked as `validate` checks it, and an unpaid report is
/// turned down. A paid report creates the record where the slot holds
/// none, and is counted into the record otherwise. Either the whole report
/// is taken and the notice for it comes back, or the accounts stay exactly
/// as they were.
pub fn handler(
    ctx: &mut ReportDrainer,
    drainer_address: Pubkey,
    amount_stolen: Option<u64>,
    fee_transferred: bool,
) -> (result: Result<DrainerReported, DrainerRegistryError>)
    ensures
        match old(ctx).outcome(drainer_address, amount_stolen, fee_transferred) {
            Ok(record) => {
                &&& result == Ok::<DrainerReported, DrainerRegistryError>(
                    old(ctx).notice(record, drainer_address, amount_stolen),
                )
                &&& final(ctx).slot() == Some(record)
                &&& record.report_count >= 1
                &&& final(ctx).reporter == old(ctx).reporter
                &&& final(ctx).program_authority == old(ctx).program_authority
                &&& final(ctx).clock == old(ctx).clock
            },
            Err(error) => {
                &&& result == Err::<DrainerReported, DrainerRegistryError>(error)
                &&& *final(ctx) == *old(ctx)
            },
        },
{
    match ctx.validate(drainer_address) {
        Ok(_) => {},
        Err(error) => {
            return Err(error);
        },
    }
    if !fee_transferred {
        return Err(DrainerRegistryError::InsufficientFunds);
    }
    let reporter = ctx.reporter;
    let clock = ctx.clock;

    let mut drainer_report = match ctx.drainer_report.take() {
        Some(record) => record,
        None => DrainerReport::default(),
    };
    if drainer_report.report_count == 0 {
        drainer_report.initialize(drainer_address, reporter, amount_stolen, &clock);
    } else {
        match drainer_report.add_report(reporter, amount_stolen, &clock) {
            Ok(()) => {},
            Err(error) => {
                ctx.drainer_report = Some(drainer_report);
                return Err(error);
            },
        }
    }
    let event = DrainerReported {
        drainer_address,
        reporter,
        report_count: drainer_report.report_count,
        amount_stolen,
        timestamp: clock.unix_timestamp,
    };
    ctx.drainer_report = Some(drainer_report);
    Ok(event)
}

/// Once the accounts are accepted, a report of the reporter's own address
/// is turned down as a self-report, whatever else holds of the call: no
/// fee transfer is asked for, and no record is created or changed, whether
/// or not a fee was moved. A call through `report_drainer` turns it down
/// as well: as a self-report where the fee goes to somebody else, and for
/// its fee recipient where the fee would go back to the reporter.
pub proof fn lemma_self_report_is_rejected(
    ctx: ReportDrainer,
    amount_stolen: Option<u64>,
    fee_transferred: bool,
)
    ensures
        ctx.validation_error(ctx.reporter) == Some(DrainerRegistryError::CannotReportSelf),
        ctx.outcome(ctx.reporter, amount_stolen, fee_transferred) == Err::<
            DrainerReportView,
            DrainerRegistryError,
        >(DrainerRegistryError::CannotReportSelf),
        ctx.call_outcome(ctx.reporter, amount_stolen, fee_transferred) == Err::<
            DrainerReportView,
            DrainerRegistryError,
        >(
            if ctx.program_authority == ctx.reporter {
                DrainerRegistryError::InvalidDrainerAddress
            } else {
                DrainerRegistryError::CannotReportSelf
            },
        ),
{
}

/// A call whose fee would go back to the reporter is turned down by
/// `report_drainer` for that reason, whatever address it reports, whatever
/// amount it claims and whether or not a fee was moved.
pub proof fn lemma_fee_to_reporter_is_rejected(
    ctx: ReportDrainer,
    drainer_address: Pubkey,
    amount_stolen: Option<u64>,
    fee_transferred: bool,
)
    requires
        ctx.program_authority == ctx.reporter,
    ensures
        ctx.call_outcome(drainer_address, amount_stolen, fee_transferred) == Err::<
            DrainerReportView,
            DrainerRegistryError,
        >(DrainerRegistryError::InvalidDrainerAddress),
{
}

} // verus!
