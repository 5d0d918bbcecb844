//! A registry of reported drainer addresses.
//!
//! Every address that is reported gets one record, which counts the
//! reports made against it, sums up the amounts claimed stolen, remembers
//! the two latest reporters, and carries a classification that a separate
//! authority may merge into it. A report costs a fixed fee.

pub mod errors;
pub mod instructions;
pub mod state;

pub use errors::DrainerRegistryError;
pub use instructions::report_drainer::{DrainerReported, FeeTransfer, ReportDrainer, ANTI_SPAM_FEE};
pub use instructions::update_ai_metadata::UpdateAiMetadata;
pub use state::clock::Clock;
pub use state::drainer_report::{AttackCategory, DrainerReport, DrainerReportView};
pub use state::pubkey::Pubkey;

use vstd::prelude::*;

verus! {

/// Reports a drainer address to the registry, once the anti-spam fee that
/// `ReportDrainer::validate` asked for has been tried.
///
/// The accounts are looked at first: where the fee would go back to the
/// reporter, the call fails with `InvalidDrainerAddress`, whatever address
/// it reports. Every other call is handled as
/// `instructions::report_drainer::handler` handles it: it creates the
/// record of the address where there is none, and counts the report into
/// it otherwise. A call that is turned down leaves the accounts exactly as
/// they were.
pub fn report_drainer(
    ctx: &mut ReportDrainer,
    drainer_address: Pubkey,
    amount_stolen: Option<u64>,
    fee_transferred: bool,
) -> (result: Result<DrainerReported, DrainerRegistryError>)
    ensures
        old(ctx).program_authority == old(ctx).reporter ==> {
            &&& result == Err::<DrainerReported, DrainerRegistryError>(
                DrainerRegistryError::InvalidDrainerAddress,
            )
            &&& *final(ctx) == *old(ctx)
        },
        match old(ctx).call_outcome(drainer_address, amount_stolen, fee_transferred) {
            Ok(record) => {
                &&& result == Ok::<DrainerReported, DrainerRegistryError>(
                    old(ctx).notice(record, drainer_address, amount_stolen),
                )
                &&& final(ctx).slot() == Some(record)
                &&& record.report_count >= 1
                &&& final(ctx).reporter == old(ctx).reporter
                &&& final(ctx).program_authority == old(ctx).program_authority
                &&& final(ctx).clock == old(ctx).clock
            },
            Err(error) => {
                &&& result == Err::<DrainerReported, DrainerRegistryError>(error)
                &&& *final(ctx) == *old(ctx)
            },
        },
{
    if ctx.program_authority == ctx.reporter {
        return Err(DrainerRegistryError::InvalidDrainerAddress);
    }
    instructions::report_drainer::handler(ctx, drainer_address, amount_stolen, fee_transferred)
}

/// Updates the classification of a reported address: its attack category,
/// methods, summary, domains and confidence.
///
/// Fails with `RecordNotFound`, and changes nothing, where the address
/// has no record.
pub fn update_ai_metadata(
    ctx: &mut UpdateAiMetadata,
    category: u8,
    methods: Vec<u8>,
    summary: String,
    domains: Vec<String>,
    confidence: u8,
) -> (result: Result<(), DrainerRegistryError>)
    ensures
        match old(ctx).outcome(category, methods@, summary@, domains.deep_view(), confidence) {
            Ok(record) => {
                &&& result == Ok::<(), DrainerRegistryError>(())
                &&& final(ctx).slot() == Some(record)
                &&& final(ctx).program_authority == old(ctx).program_authority
            },
            Err(error) => {
                &&& result == Err::<(), DrainerRegistryError>(error)
                &&& *final(ctx) == *old(ctx)
            },
        },
{
    instructions::update_ai_metadata::handler(ctx, category, methods, summary, domains, confidence)
}

} // verus!
