use crate::errors::DrainerRegistryError;
use crate::state::clock::Clock;
use crate::state::pubkey::Pubkey;
use crate::state::text::{truncate_chars, truncate_each, truncated, truncated_each};
use vstd::prelude::*;

verus! {

/// How many attack methods a record keeps.
pub const MAX_ATTACK_METHODS: usize = 10;

/// How many characters of summary a record keeps.
pub const MAX_SUMMARY_CHARS: usize = 500;

/// How many domains a record keeps.
pub const MAX_KEY_DOMAINS: usize = 5;

/// How many characters of each domain a record keeps.
pub const MAX_DOMAIN_CHARS: usize = 100;

/// The highest confidence score a record keeps.
pub const MAX_CONFIDENCE: u8 = 100;

/// The kind of attack that a classifier assigned to a drainer.
#[derive(Clone, Copy, Debug, PartialEq, Eq, Structural)]
pub enum AttackCategory {
    Phishing,
    FakeAirdrop,
    SocialEngineering,
    MaliciousApproval,
    SetAuthority,
    Unknown,
}

impl AttackCategory {
    /// The category that a numeric code stands for. Codes 0 to 4 name the
    /// five known categories; every other code stands for `Unknown`.
    pub open spec fn spec_from_code(code: u8) -> AttackCategory {
        if code == 0 {
            AttackCategory::Phishing
        } else if code == 1 {
            AttackCategory::FakeAirdrop
        } else if code == 2 {
            AttackCategory::SocialEngineering
        } else if code == 3 {
            AttackCategory::MaliciousApproval
        } else if code == 4 {
            AttackCategory::SetAuthority
        } else {
            AttackCategory::Unknown
        }
    }

    /// The numeric code of a category; `Unknown` has code 255.
    pub open spec fn spec_code(self) -> u8 {
        match self {
            AttackCategory::Phishing => 0,
            AttackCategory::FakeAirdrop => 1,
            AttackCategory::SocialEngineering => 2,
            AttackCategory::MaliciousApproval => 3,
            AttackCategory::SetAuthority => 4,
            AttackCategory::Unknown => 255,
        }
    }

    /// Decodes a numeric code. An unrecognized code is no error: it decodes
    /// to `Unknown`.
    pub fn from_code(code: u8) -> (category: AttackCategory)
        ensures
            category == AttackCategory::spec_from_code(code),
    {
        match code {
            0 => AttackCategory::Phishing,
            1 => AttackCategory::FakeAirdrop,
            2 => AttackCategory::SocialEngineering,
            3 => AttackCategory::MaliciousApproval,
            4 => AttackCategory::SetAuthority,
            _ => AttackCategory::Unknown,
        }
    }

    /// The numeric code of this category.
    pub fn code(self) -> (code: u8)
        ensures
            code == self.spec_code(),
    {
        match self {
            AttackCategory::Phishing => 0,
            AttackCategory::FakeAirdrop => 1,
            AttackCategory::SocialEngineering => 2,
            AttackCategory::MaliciousApproval => 3,
            AttackCategory::SetAuthority => 4,
            AttackCategory::Unknown => 255,
        }
    }

    /// Decoding the code of a category gives the category back.
    pub proof fn lemma_code_round_trip(category: AttackCategory)
        ensures
            AttackCategory::spec_from_code(category.spec_code()) == category,
    {
    }
}

/// A confidence score brought into the range from 0 to 100.
pub open spec fn clamped_confidence(confidence: u8) -> nat {
    if confidence <= MAX_CONFIDENCE {
        confidence as nat
    } else {
        MAX_CONFIDENCE as nat
    }
}

/// The amount that a report claims: zero where it names none.
pub open spec fn claimed(amount_stolen: Option<u64>) -> nat {
    match amount_stolen {
        Some(amount) => amount as nat,
        None => 0,
    }
}

/// What a record holds, as mathematical values.
#[verifier::ext_equal]
pub struct DrainerReportView {
    pub drainer_address: Pubkey,
    pub report_count: nat,
    pub first_seen: int,
    pub last_seen: int,
    pub total_sol_reported: nat,
    pub recent_reporters: Seq<Pubkey>,
    pub attack_category: AttackCategory,
    pub attack_methods: Seq<u8>,
    pub ai_summary: Seq<char>,
    pub key_domains: Seq<Seq<char>>,
    pub ai_confidence: nat,
}

impl DrainerReportView {
    /// The bounds that every stored classification respects.
    pub open spec fn classification_bounded(self) -> bool {
        &&& self.attack_methods.len() <= MAX_ATTACK_METHODS
        &&& self.ai_summary.len() <= MAX_SUMMARY_CHARS
        &&& self.key_domains.len() <= MAX_KEY_DOMAINS
        &&& forall|i: int|
            0 <= i < self.key_domains.len() ==> (#[trigger] self.key_domains[i]).len()
                <= MAX_DOMAIN_CHARS
        &&& self.ai_confidence <= MAX_CONFIDENCE
    }

    /// What holds of every record once a report has been accepted for it:
    /// it counts at least one report, its counters are within their
    /// ranges, its reporter history has exactly two slots, and its
    /// classification is within bounds.
    pub open spec fn wf(self) -> bool {
        &&& 1 <= self.report_count <= u32::MAX
        &&& i64::MIN <= self.first_seen <= i64::MAX
        &&& i64::MIN <= self.last_seen <= i64::MAX
        &&& self.total_sol_reported <= u64::MAX
        &&& self.recent_reporters.len() == 2
        &&& self.classification_bounded()
    }

    /// Whether the record was last reported no earlier than it was first
    /// reported.
    pub open spec fn chronological(self) -> bool {
        self.first_seen <= self.last_seen
    }

    /// A slot that holds no record yet: no report counted, nothing stored.
    pub open spec fn vacant() -> DrainerReportView {
        DrainerReportView {
            drainer_address: Pubkey::zero(),
            report_count: 0,
            first_seen: 0,
            last_seen: 0,
            total_sol_reported: 0,
            recent_reporters: seq![Pubkey::zero(), Pubkey::zero()],
            attack_category: AttackCategory::Unknown,
            attack_methods: Seq::empty(),
            ai_summary: Seq::empty(),
            key_domains: Seq::empty(),
            ai_confidence: 0,
        }
    }

    /// The record that the first report for an address creates.
    pub open spec fn created(
        drainer_address: Pubkey,
        reporter: Pubkey,
        amount_stolen: Option<u64>,
        now: i64,
    ) -> DrainerReportView {
        DrainerReportView {
            drainer_address,
            report_count: 1,
            first_seen: now as int,
            last_seen: now as int,
            total_sol_reported: claimed(amount_stolen),
            recent_reporters: seq![reporter, Pubkey::zero()],
            attack_category: AttackCategory::Unknown,
            attack_methods: Seq::empty(),
            ai_summary: Seq::empty(),
            key_domains: Seq::empty(),
            ai_confidence: 0,
        }
    }

    /// Why a further report is turned down, if it is: the report count is
    /// looked at first, then the claimed amount.
    pub open spec fn rejection(self, amount_stolen: Option<u64>) -> Option<DrainerRegistryError> {
        if self.report_count + 1 > u32::MAX {
            Some(DrainerRegistryError::ReportCountOverflow)
        } else if self.total_sol_reported + claimed(amount_stolen) > u64::MAX {
            Some(DrainerRegistryError::AmountOverflow)
        } else {
            None
        }
    }

    /// The record after a further report is accepted.
    pub open spec fn reported(
        self,
        reporter: Pubkey,
        amount_stolen: Option<u64>,
        now: i64,
    ) -> DrainerReportView {
        DrainerReportView {
            report_count: self.report_count + 1,
            last_seen: now as int,
            total_sol_reported: self.total_sol_reported + claimed(amount_stolen),
            recent_reporters: seq![reporter, self.recent_reporters[0]],
            ..self
        }
    }

    /// The record after a classification is merged into it.
    pub open spec fn classified(
        self,
        category: AttackCategory,
        methods: Seq<u8>,
        summary: Seq<char>,
        domains: Seq<Seq<char>>,
        confidence: u8,
    ) -> DrainerReportView {
        DrainerReportView {
            attack_category: category,
            attack_methods: truncated(methods, MAX_ATTACK_METHODS as nat),
            ai_summary: truncated(summary, MAX_SUMMARY_CHARS as nat),
            key_domains: truncated_each(
                domains,
                MAX_KEY_DOMAINS as nat,
                MAX_DOMAIN_CHARS as nat,
            ),
            ai_confidence: clamped_confidence(confidence),
            ..self
        }
    }
}

/// Whether a looked-up slot holds a record. A slot that counts no report is
/// a slot without a record.
pub open spec fn record_exists(slot: Option<DrainerReportView>) -> bool {
    slot matches Some(record) && record.report_count > 0
}

/// What a paid report does to the slot of the reported address: the first
/// report creates the record, each later one is counted into it, unless a
/// counter cannot take it.
pub open spec fn submit_report(
    slot: Option<DrainerReportView>,
    drainer_address: Pubkey,
    reporter: Pubkey,
    amount_stolen: Option<u64>,
    now: i64,
) -> Result<DrainerReportView, DrainerRegistryError> {
    if record_exists(slot) {
        match slot->0.rejection(amount_stolen) {
            Some(error) => Err(error),
            None => Ok(slot->0.reported(reporter, amount_stolen, now)),
        }
    } else {
        Ok(DrainerReportView::created(drainer_address, reporter, amount_stolen, now))
    }
}

/// The aggregate kept for one reported address.
#[derive(Clone, Debug, PartialEq, Eq)]
pub struct DrainerReport {
    /// The address reported as a drainer.
    pub drainer_address: Pubkey,
    /// How many reports were accepted for the address.
    pub report_count: u32,
    /// When the first report was accepted, in Unix seconds.
    pub first_seen: i64,
    /// When the latest report was accepted, in Unix seconds.
    pub last_seen: i64,
    /// The sum of the amounts that reporters claimed stolen, in lamports.
    pub total_sol_reported: u64,
    /// The two latest reporters, the latest first; an unused slot holds
    /// the all-zero key.
    pub recent_reporters: [Pubkey; 2],
    /// The attack category that a classifier assigned.
    pub attack_category: AttackCategory,
    /// Tags of the attack methods used, at most ten.
    pub attack_methods: Vec<u8>,
    /// A summary of the attack, at most 500 characters.
    pub ai_summary: String,
    /// Domains tied to the drainer, at most five of at most 100 characters.
    pub key_domains: Vec<String>,
    /// The classifier's confidence, from 0 to 100.
    pub ai_confidence: u8,
}

impl View for DrainerReport {
    type V = DrainerReportView;

    open spec fn view(&self) -> DrainerReportView {
        DrainerReportView {
            drainer_address: self.drainer_address,
            report_count: self.report_count as nat,
            first_seen: self.first_seen as int,
            last_seen: self.last_seen as int,
            total_sol_reported: self.total_sol_reported as nat,
            recent_reporters: self.recent_reporters@,
            attack_category: self.attack_category,
            attack_methods: self.attack_methods@,
            ai_summary: self.ai_summary@,
            key_domains: self.key_domains.deep_view(),
            ai_confidence: self.ai_confidence as nat,
        }
    }
}

impl Default for DrainerReport {
    /// A slot that holds no record yet.
    fn default() -> (slot: DrainerReport)
        ensures
            slot@ == DrainerReportView::vacant(),
    {
        let slot = DrainerReport {
            drainer_address: Pubkey::default(),
            report_count: 0,
            first_seen: 0,
            last_seen: 0,
            total_sol_reported: 0,
            recent_reporters: [Pubkey::default(), Pubkey::default()],
            attack_category: AttackCategory::Unknown,
            attack_methods: Vec::new(),
            ai_summary: String::new(),
            key_domains: Vec::new(),
            ai_confidence: 0,
        };
        proof {
            assert(slot@.recent_reporters =~= DrainerReportView::vacant().recent_reporters);
            assert(slot@.key_domains =~= DrainerReportView::vacant().key_domains);
        }
        slot
    }
}

impl DrainerReport {
    /// Bytes set aside for a stored record: an 8-byte tag, then each field
    /// at its widest.
    pub const LEN: usize = 8 + 32 + 4 + 8 + 8 + 8 + 64 + 1 + 14 + 504 + 504 + 1;

    /// Fills the record from the first report for an address.
    pub fn initialize(
        &mut self,
        drainer_address: Pubkey,
        reporter: Pubkey,
        amount_stolen: Option<u64>,
        clock: &Clock,
    )
        ensures
            final(self)@ == DrainerReportView::created(
                drainer_address,
                reporter,
                amount_stolen,
                clock.unix_timestamp,
            ),
            final(self)@.wf(),
    {
        self.drainer_address = drainer_address;
        self.report_count = 1;
        self.first_seen = clock.unix_timestamp;
        self.last_seen = clock.unix_timestamp;
        self.total_sol_reported = amount_stolen.unwrap_or(0);
        self.recent_reporters = [reporter, Pubkey::default()];

        self.attack_category = AttackCategory::Unknown;
        self.attack_methods = Vec::new();
        self.ai_summary = String::new();
        self.key_domains = Vec::new();
        self.ai_confidence = 0;
        proof {
            let created = DrainerReportView::created(
                drainer_address,
                reporter,
                amount_stolen,
                clock.unix_timestamp,
            );
            assert(self@.recent_reporters =~= created.recent_reporters);
            assert(self@.key_domains =~= created.key_domains);
        }
    }

    /// Counts a further report: one more in the count, the claimed amount
    /// added to the total, the time of the report as the latest, and the
    /// reporter at the front of the history, whose oldest entry leaves.
    /// Where a counter cannot take the report, the record stays as it was.
    pub fn add_report(
        &mut self,
        reporter: Pubkey,
        amount_stolen: Option<u64>,
        clock: &Clock,
    ) -> (result: Result<(), DrainerRegistryError>)
        ensures
            result == (match old(self)@.rejection(amount_stolen) {
                Some(error) => Err::<(), DrainerRegistryError>(error),
                None => Ok(()),
            }),
            result is Ok ==> final(self)@ == old(self)@.reported(
                reporter,
                amount_stolen,
                clock.unix_timestamp,
            ),
            result is Err ==> *final(self) == *old(self),
            old(self)@.wf() ==> final(self)@.wf(),
    {
        let report_count = match self.report_count.checked_add(1) {
            Some(count) => count,
            None => {
                return Err(DrainerRegistryError::ReportCountOverflow);
            },
        };
        let total_sol_reported = match amount_stolen {
            Some(amount) => match self.total_sol_reported.checked_add(amount) {
                Some(total) => total,
                None => {
                    return Err(DrainerRegistryError::AmountOverflow);
                },
            },
            None => self.total_sol_reported,
        };

        self.report_count = report_count;
        self.last_seen = clock.unix_timestamp;
        self.total_sol_reported = total_sol_reported;
        self.recent_reporters[1] = self.recent_reporters[0];
        self.recent_reporters[0] = reporter;
        proof {
            assert(self@.recent_reporters =~= seq![reporter, old(self)@.recent_reporters[0]]);
        }
        Ok(())
    }

    /// Merges a classification into the record. Nothing is turned down:
    /// of the methods the first ten are kept, of the summary the first 500
    /// characters, of the domains the first five and of each its first 100
    /// characters, and a confidence above 100 is stored as 100. What the
    /// reports brought (count, times, total, reporters) stays as it was.
    pub fn update_ai_metadata(
        &mut self,
        category: AttackCategory,
        methods: Vec<u8>,
        summary: String,
        domains: Vec<String>,
        confidence: u8,
    ) -> (result: Result<(), DrainerRegistryError>)
        ensures
            result == Ok::<(), DrainerRegistryError>(()),
            final(self)@ == old(self)@.classified(
                category,
                methods@,
                summary@,
                domains.deep_view(),
                confidence,
            ),
            final(self)@.classification_bounded(),
            old(self)@.wf() ==> final(self)@.wf(),
    {
        let summary_truncated = truncate_chars(summary, MAX_SUMMARY_CHARS);

        let mut methods_truncated = methods;
        methods_truncated.truncate(MAX_ATTACK_METHODS);

        let domains_truncated = truncate_each(domains, MAX_KEY_DOMAINS, MAX_DOMAIN_CHARS);

        self.attack_category = category;
        self.attack_methods = methods_truncated;
        self.ai_summary = summary_truncated;
        self.key_domains = domains_truncated;
        self.ai_confidence = if confidence <= MAX_CONFIDENCE {
            confidence
        } else {
            MAX_CONFIDENCE
        };
        proof {
            assert(self@.attack_methods =~= truncated(methods@, MAX_ATTACK_METHODS as nat));
        }
        Ok(())
    }
}

} // verus!
