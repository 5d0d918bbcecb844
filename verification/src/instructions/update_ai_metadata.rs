use crate::errors::DrainerRegistryError;
use crate::state::drainer_report::{
    record_exists, AttackCategory, DrainerReport, DrainerReportView,
};
use crate::state::pubkey::Pubkey;
use vstd::prelude::*;

verus! {

/// The accounts of one classification update, as the values read from
/// them.
#[derive(Clone, Debug, PartialEq, Eq)]
pub struct UpdateAiMetadata {
    /// What the store found for the address: `None`, or a slot that counts
    /// no report, where no record exists.
    pub drainer_report: Option<DrainerReport>,
    /// The authority on whose behalf the update is made. That the caller
    /// is this authority is established before the call.
    pub program_authority: Pubkey,
}

impl UpdateAiMetadata {
    /// What the store found, as mathematical values.
    pub open spec fn slot(self) -> Option<DrainerReportView> {
        match self.drainer_report {
            Some(record) => Some(record@),
            None => None,
        }
    }

    /// The record that the update leaves, or `RecordNotFound` where there
    /// is no record to update.
    pub open spec fn outcome(
        self,
        category: u8,
        methods: Seq<u8>,
        summary: Seq<char>,
        domains: Seq<Seq<char>>,
        confidence: u8,
    ) -> Result<DrainerReportView, DrainerRegistryError> {
        if record_exists(self.slot()) {
            Ok(
                self.slot()->0.classified(
                    AttackCategory::spec_from_code(category),
                    methods,
                    summary,
                    domains,
                    confidence,
                ),
            )
        } else {
            Err(DrainerRegistryError::RecordNotFound)
        }
    }
}

/// Merges a classification into the record of an address. The category
/// comes as a code, of which every unrecognized value means `Unknown`.
/// Oversized input is cut down, never turned down. Where no record exists
/// the call fails with `RecordNotFound` and the accounts stay exactly as
/// they were: an update creates nothing.
pub fn handler(
    ctx: &mut UpdateAiMetadata,
    category: u8,
    methods: Vec<u8>,
    summary: String,
    domains: Vec<String>,
    confidence: u8,
) -> (result: Result<(), DrainerRegistryError>)
    ensures
        match old(ctx).outcome(category, methods@, summary@, domains.deep_view(), confidence) {
            Ok(record) => {
                &&& result == Ok::<(), DrainerRegistryError>(())
                &&& final(ctx).slot() == Some(record)
                &&& final(ctx).program_authority == old(ctx).program_authority
            },
            Err(error) => {
                &&& result == Err::<(), DrainerRegistryError>(error)
                &&& *final(ctx) == *old(ctx)
            },
        },
{
    let attack_category = AttackCategory::from_code(category);

    let mut drainer_report = match ctx.drainer_report.take() {
        Some(record) => record,
        None => {
            return Err(DrainerRegistryError::RecordNotFound);
        },
    };
    if drainer_report.report_count == 0 {
        ctx.drainer_report = Some(drainer_report);
        return Err(DrainerRegistryError::RecordNotFound);
    }
    let updated = drainer_report.update_ai_metadata(
        attack_category,
        methods,
        summary,
        domains,
        confidence,
    );
    ctx.drainer_report = Some(drainer_report);
    updated
}

} // verus!
