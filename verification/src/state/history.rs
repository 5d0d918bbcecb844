use crate::errors::DrainerRegistryError;
use crate::state::drainer_report::{
    claimed, record_exists, submit_report, AttackCategory, DrainerReportView,
};
use crate::state::pubkey::Pubkey;
use vstd::prelude::*;

verus! {

/// One paid report as it reaches the slot of an address.
pub struct Submission {
    pub reporter: Pubkey,
    pub amount_stolen: Option<u64>,
    pub now: i64,
}

/// The slot after one more submission: the record that the submission
/// leaves, or the slot as it was where the submission is turned down.
pub open spec fn step(
    slot: Option<DrainerReportView>,
    drainer_address: Pubkey,
    submission: Submission,
) -> Option<DrainerReportView> {
    match submit_report(
        slot,
        drainer_address,
        submission.reporter,
        submission.amount_stolen,
        submission.now,
    ) {
        Ok(record) => Some(record),
        Err(_) => slot,
    }
}

/// The slot of `drainer_address` after `submissions`, taken in order,
/// where the store held nothing for the address before.
pub open spec fn replay(drainer_address: Pubkey, submissions: Seq<Submission>) -> Option<
    DrainerReportView,
>
    decreases submissions.len(),
{
    if submissions.len() == 0 {
        None
    } else {
        step(
            replay(drainer_address, submissions.drop_last()),
            drainer_address,
            submissions.last(),
        )
    }
}

/// Whether each of `submissions`, taken in order from an empty slot, is
/// accepted.
pub open spec fn all_accepted(drainer_address: Pubkey, submissions: Seq<Submission>) -> bool
    decreases submissions.len(),
{
    submissions.len() == 0 || {
        &&& all_accepted(drainer_address, submissions.drop_last())
        &&& submit_report(
            replay(drainer_address, submissions.drop_last()),
            drainer_address,
            submissions.last().reporter,
            submissions.last().amount_stolen,
            submissions.last().now,
        ) is Ok
    }
}

/// The sum of the amounts that `submissions` claim; one that names no
/// amount adds nothing.
pub open spec fn total_claimed(submissions: Seq<Submission>) -> nat
    decreases submissions.len(),
{
    if submissions.len() == 0 {
        0
    } else {
        total_claimed(submissions.drop_last()) + claimed(submissions.last().amount_stolen)
    }
}

/// The reporter history after `submissions`: the latest reporter, then the
/// one before, with the all-zero key where there was none.
pub open spec fn latest_reporters(submissions: Seq<Submission>) -> Seq<Pubkey> {
    seq![
        if submissions.len() >= 1 {
            submissions[submissions.len() - 1].reporter
        } else {
            Pubkey::zero()
        },
        if submissions.len() >= 2 {
            submissions[submissions.len() - 2].reporter
        } else {
            Pubkey::zero()
        },
    ]
}

/// After any number of accepted reports for an address that had no record,
/// the record counts exactly that many reports and holds exactly the sum
/// of the amounts claimed. It was first seen at the time of the first
/// report and last seen at the time of the latest. Its reporter history
/// has two slots: the latest reporter in front, the one before behind.
/// Reports leave the classification at its defaults, and the record is
/// well formed.
pub proof fn lemma_accepted_reports_add_up(drainer_address: Pubkey, submissions: Seq<Submission>)
    requires
        submissions.len() >= 1,
        all_accepted(drainer_address, submissions),
    ensures
        replay(drainer_address, submissions) matches Some(record) && {
            &&& record.drainer_address == drainer_address
            &&& record.report_count == submissions.len()
            &&& record.total_sol_reported == total_claimed(submissions)
            &&& record.first_seen == submissions[0].now
            &&& record.last_seen == submissions.last().now
            &&& record.recent_reporters == latest_reporters(submissions)
            &&& record.recent_reporters.len() == 2
            &&& record.attack_category == AttackCategory::Unknown
            &&& record.attack_methods == Seq::<u8>::empty()
            &&& record.ai_summary == Seq::<char>::empty()
            &&& record.key_domains == Seq::<Seq<char>>::empty()
            &&& record.ai_confidence == 0
            &&& record.wf()
        },
    decreases submissions.len(),
{
    let earlier = submissions.drop_last();
    let last = submissions.last();
    if earlier.len() == 0 {
        assert(replay(drainer_address, earlier) is None);
        assert(total_claimed(earlier) == 0);
        let record = replay(drainer_address, submissions)->0;
        assert(record.recent_reporters =~= latest_reporters(submissions));
    } else {
        lemma_accepted_reports_add_up(drainer_address, earlier);
        let before = replay(drainer_address, earlier)->0;
        assert(record_exists(Some(before)));
        let record = replay(drainer_address, submissions)->0;
        assert(record == before.reported(last.reporter, last.amount_stolen, last.now));
        assert(earlier[0] == submissions[0]);
        assert(earlier[earlier.len() - 1] == submissions[submissions.len() - 2]);
        assert(record.recent_reporters =~= latest_reporters(submissions));
    }
}

/// Reports are accepted one after another exactly as long as their number
/// fits the 32-bit report count and the sum of their claims fits the
/// 64-bit total.
pub proof fn lemma_accepted_while_counters_fit(
    drainer_address: Pubkey,
    submissions: Seq<Submission>,
)
    ensures
        all_accepted(drainer_address, submissions) <==> submissions.len() <= u32::MAX
            && total_claimed(submissions) <= u64::MAX,
    decreases submissions.len(),
{
    if submissions.len() > 0 {
        let earlier = submissions.drop_last();
        lemma_accepted_while_counters_fit(drainer_address, earlier);
        if all_accepted(drainer_address, earlier) && earlier.len() > 0 {
            lemma_accepted_reports_add_up(drainer_address, earlier);
        }
    }
}

/// Whatever the slot held, an accepted report leaves a well-formed record
/// in it, provided that a record it already held was well formed.
pub proof fn lemma_accepted_report_is_well_formed(
    slot: Option<DrainerReportView>,
    drainer_address: Pubkey,
    submission: Submission,
)
    requires
        record_exists(slot) ==> slot->0.wf(),
        submit_report(
            slot,
            drainer_address,
            submission.reporter,
            submission.amount_stolen,
            submission.now,
        ) is Ok,
    ensures
        step(slot, drainer_address, submission) matches Some(record) && record.wf(),
{
}

/// A report that is turned down leaves the slot as it was, and so the
/// count and the total in it. A report whose claim would carry the total
/// past the 64-bit range is turned down, with `AmountOverflow` unless the
/// count is full as well.
pub proof fn lemma_overflow_leaves_record(
    record: DrainerReportView,
    drainer_address: Pubkey,
    submission: Submission,
)
    requires
        record.report_count > 0,
        record.total_sol_reported + claimed(submission.amount_stolen) > u64::MAX
            || record.report_count + 1 > u32::MAX,
    ensures
        step(Some(record), drainer_address, submission) == Some(record),
        submit_report(
            Some(record),
            drainer_address,
            submission.reporter,
            submission.amount_stolen,
            submission.now,
        ) == Err::<DrainerReportView, DrainerRegistryError>(
            if record.report_count + 1 > u32::MAX {
                DrainerRegistryError::ReportCountOverflow
            } else {
                DrainerRegistryError::AmountOverflow
            },
        ),
{
}

/// A classification leaves what the reports brought: the address, the
/// count, both times, the total and the reporter history. It brings the
/// classification within bounds, whatever it was given.
pub proof fn lemma_classification_keeps_report_fields(
    record: DrainerReportView,
    category: AttackCategory,
    methods: Seq<u8>,
    summary: Seq<char>,
    domains: Seq<Seq<char>>,
    confidence: u8,
)
    ensures
        ({
            let after = record.classified(category, methods, summary, domains, confidence);
            &&& after.drainer_address == record.drainer_address
            &&& after.report_count == record.report_count
            &&& after.first_seen == record.first_seen
            &&& after.last_seen == record.last_seen
            &&& after.total_sol_reported == record.total_sol_reported
            &&& after.recent_reporters == record.recent_reporters
            &&& after.classification_bounded()
            &&& record.wf() ==> after.wf()
        }),
{
}

/// Reports and classifications touch different fields: whether a record
/// is first classified and then reported, or the other way round, comes to
/// the same, and a classification changes nothing in whether a report is
/// accepted.
pub proof fn lemma_report_and_classification_commute(
    record: DrainerReportView,
    submission: Submission,
    category: AttackCategory,
    methods: Seq<u8>,
    summary: Seq<char>,
    domains: Seq<Seq<char>>,
    confidence: u8,
)
    ensures
        record.classified(category, methods, summary, domains, confidence).rejection(
            submission.amount_stolen,
        ) == record.rejection(submission.amount_stolen),
        record.classified(category, methods, summary, domains, confidence).reported(
            submission.reporter,
            submission.amount_stolen,
            submission.now,
        ) == record.reported(
            submission.reporter,
            submission.amount_stolen,
            submission.now,
        ).classified(category, methods, summary, domains, confidence),
{
}

/// A report keeps the time at which the record was first seen, and takes
/// the time of the report as the time last seen. The two stay in order
/// where the clock has not gone back behind the first report.
pub proof fn lemma_report_keeps_first_seen(record: DrainerReportView, submission: Submission)
    ensures
        ({
            let after = record.reported(
                submission.reporter,
                submission.amount_stolen,
                submission.now,
            );
            &&& after.first_seen == record.first_seen
            &&& after.last_seen == submission.now
            &&& after.chronological() <==> record.first_seen <= submission.now
        }),
{
}

} // verus!
