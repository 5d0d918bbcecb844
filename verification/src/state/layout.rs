use crate::state::drainer_report::{
    DrainerReport, DrainerReportView, MAX_ATTACK_METHODS, MAX_DOMAIN_CHARS, MAX_KEY_DOMAINS,
    MAX_SUMMARY_CHARS,
};
use crate::state::text::{lemma_utf8_len_bounds, utf8_len};
use vstd::prelude::*;
use vstd::utf8::is_ascii_chars;

verus! {

/// Bytes of the tag that precedes every stored record.
pub const DISCRIMINATOR_LEN: usize = 8;

/// Bytes of a stored key.
pub const PUBKEY_LEN: usize = 32;

/// Bytes of the length that precedes every stored sequence and text.
pub const LENGTH_PREFIX_LEN: usize = 4;

/// Bytes set aside for the fields that always take the same room: the
/// address, the count, both times, the total, the two reporters, the
/// category and the confidence.
pub const FIXED_FIELDS_LEN: usize = 32 + 4 + 8 + 8 + 8 + 64 + 1 + 1;

/// Bytes set aside for the attack methods, their length included.
pub const ATTACK_METHODS_LEN: usize = 14;

/// Bytes set aside for the summary, its length included.
pub const SUMMARY_LEN: usize = 504;

/// Bytes set aside for the domains, their lengths included.
pub const KEY_DOMAINS_LEN: usize = 504;

/// Bytes set aside for what a record holds, the tag left out.
pub const PAYLOAD_LEN: usize = 1148;

/// How many bytes a sequence of texts takes when stored: for each text
/// its length and its UTF-8 bytes. The length of the sequence itself is
/// not counted here.
pub open spec fn encoded_texts_len(texts: Seq<Seq<char>>) -> nat
    decreases texts.len(),
{
    if texts.len() == 0 {
        0
    } else {
        encoded_texts_len(texts.drop_last()) + LENGTH_PREFIX_LEN as nat + utf8_len(texts.last())
    }
}

impl DrainerReportView {
    /// How many bytes the record takes when stored, the tag left out:
    /// every number at its width, every key as 32 bytes, the category as
    /// one byte, and every sequence and text as its length followed by
    /// its items or UTF-8 bytes.
    pub open spec fn encoded_len(self) -> nat {
        let drainer_address = PUBKEY_LEN as nat;
        let report_count = 4nat;
        let first_seen = 8nat;
        let last_seen = 8nat;
        let total_sol_reported = 8nat;
        let recent_reporters = PUBKEY_LEN as nat * self.recent_reporters.len();
        let attack_category = 1nat;
        let attack_methods = LENGTH_PREFIX_LEN as nat + self.attack_methods.len();
        let ai_summary = LENGTH_PREFIX_LEN as nat + utf8_len(self.ai_summary);
        let key_domains = LENGTH_PREFIX_LEN as nat + encoded_texts_len(self.key_domains);
        let ai_confidence = 1nat;
        drainer_address + report_count + first_seen + last_seen + total_sol_reported
            + recent_reporters + attack_category + attack_methods + ai_summary + key_domains
            + ai_confidence
    }
}

/// The room set aside for a record is the tag and the payload, and the
/// payload is the sum of what is set aside for each field. It is the same
/// for every record, whatever the record holds.
pub proof fn lemma_len_is_sum_of_widths()
    ensures
        DrainerReport::LEN == DISCRIMINATOR_LEN + PAYLOAD_LEN,
        PAYLOAD_LEN == FIXED_FIELDS_LEN + ATTACK_METHODS_LEN + SUMMARY_LEN + KEY_DOMAINS_LEN,
        FIXED_FIELDS_LEN == 3 * PUBKEY_LEN + 4 + 8 + 8 + 8 + 1 + 1,
        ATTACK_METHODS_LEN == LENGTH_PREFIX_LEN + MAX_ATTACK_METHODS,
        SUMMARY_LEN == LENGTH_PREFIX_LEN + MAX_SUMMARY_CHARS,
        KEY_DOMAINS_LEN == LENGTH_PREFIX_LEN + MAX_KEY_DOMAINS * MAX_DOMAIN_CHARS,
{
}

/// A well-formed record whose summary and domains each stay within the
/// bytes set aside for them fits the room set aside for a record. The
/// other fields never outgrow theirs.
pub proof fn lemma_record_fits_where_texts_fit(record: DrainerReportView)
    requires
        record.wf(),
        LENGTH_PREFIX_LEN + utf8_len(record.ai_summary) <= SUMMARY_LEN,
        LENGTH_PREFIX_LEN + encoded_texts_len(record.key_domains) <= KEY_DOMAINS_LEN,
    ensures
        record.encoded_len() <= PAYLOAD_LEN,
        DISCRIMINATOR_LEN + record.encoded_len() <= DrainerReport::LEN,
{
}

/// The most bytes that a well-formed record can take when stored, the tag
/// left out: every kept character may take four bytes.
pub const MAX_ENCODED_LEN: usize = 4168;

/// However much text a well-formed record was given, it takes no more than
/// `MAX_ENCODED_LEN` bytes when stored.
pub proof fn lemma_encoded_len_is_bounded(record: DrainerReportView)
    requires
        record.wf(),
    ensures
        record.encoded_len() <= MAX_ENCODED_LEN,
{
    lemma_utf8_len_bounds(record.ai_summary);
    lemma_encoded_texts_len_bounds(record.key_domains, MAX_DOMAIN_CHARS as nat);
    assert((LENGTH_PREFIX_LEN + 4 * MAX_DOMAIN_CHARS) * record.key_domains.len() <= (
    LENGTH_PREFIX_LEN + 4 * MAX_DOMAIN_CHARS) * MAX_KEY_DOMAINS) by (nonlinear_arith)
        requires
            record.key_domains.len() <= MAX_KEY_DOMAINS,
    ;
}

/// A summary of characters that take one byte each stays within the bytes
/// set aside for it, once it is cut to the 500 characters a record keeps.
pub proof fn lemma_ascii_summary_fits(summary: Seq<char>)
    requires
        is_ascii_chars(summary),
        summary.len() <= MAX_SUMMARY_CHARS,
    ensures
        LENGTH_PREFIX_LEN + utf8_len(summary) <= SUMMARY_LEN,
{
    vstd::utf8::is_ascii_chars_encode_utf8(summary);
}

/// Stored texts take four bytes each for their lengths, and for their
/// characters at least one byte and at most four bytes each.
pub proof fn lemma_encoded_texts_len_bounds(texts: Seq<Seq<char>>, max_chars: nat)
    requires
        forall|i: int| 0 <= i < texts.len() ==> (#[trigger] texts[i]).len() <= max_chars,
    ensures
        LENGTH_PREFIX_LEN * texts.len() <= encoded_texts_len(texts) <= (LENGTH_PREFIX_LEN + 4
            * max_chars) * texts.len(),
    decreases texts.len(),
{
    if texts.len() > 0 {
        let earlier = texts.drop_last();
        assert forall|i: int| 0 <= i < earlier.len() implies (#[trigger] earlier[i]).len()
            <= max_chars by {
            assert(earlier[i] == texts[i]);
        }
        lemma_encoded_texts_len_bounds(earlier, max_chars);
        lemma_utf8_len_bounds(texts.last());
        assert(texts.last() == texts[texts.len() - 1]);
        assert((LENGTH_PREFIX_LEN + 4 * max_chars) * texts.len() == (LENGTH_PREFIX_LEN + 4
            * max_chars) * earlier.len() + (LENGTH_PREFIX_LEN + 4 * max_chars))
            by (nonlinear_arith)
            requires
                texts.len() == earlier.len() + 1,
        ;
        assert(LENGTH_PREFIX_LEN * texts.len() == LENGTH_PREFIX_LEN * earlier.len()
            + LENGTH_PREFIX_LEN) by (nonlinear_arith)
            requires
                texts.len() == earlier.len() + 1,
        ;
    }
}

/// The bytes of stored texts grow with every further text.
pub proof fn lemma_encoded_texts_len_grows(texts: Seq<Seq<char>>, shorter: int, longer: int)
    requires
        0 <= shorter <= longer <= texts.len(),
    ensures
        encoded_texts_len(texts.subrange(0, shorter)) <= encoded_texts_len(
            texts.subrange(0, longer),
        ),
    decreases longer - shorter,
{
    if shorter < longer {
        lemma_encoded_texts_len_grows(texts, shorter, longer - 1);
        assert(texts.subrange(0, longer).drop_last() =~= texts.subrange(0, longer - 1));
    }
}

impl DrainerReport {
    /// Counts the bytes that the record takes when stored, the tag left
    /// out. `None` says that the count does not fit a `usize`.
    pub fn encoded_len(&self) -> (len: Option<usize>)
        ensures
            match len {
                Some(len) => len == self@.encoded_len(),
                None => self@.encoded_len() > usize::MAX,
            },
    {
        let mut domains: usize = 0;
        let mut i: usize = 0;
        while i < self.key_domains.len()
            invariant
                i <= self.key_domains.len(),
                domains == encoded_texts_len(self.key_domains.deep_view().subrange(0, i as int)),
            decreases self.key_domains.len() - i,
        {
            let ghost texts = self.key_domains.deep_view();
            let bytes = self.key_domains[i].as_str().as_bytes().len();
            proof {
                assert(texts.len() == self.key_domains.len());
                assert(texts[i as int] == self.key_domains@[i as int]@);
                let next = texts.subrange(0, i + 1);
                assert(next.drop_last() =~= texts.subrange(0, i as int));
                assert(next.last() == texts[i as int]);
                assert(encoded_texts_len(next) == domains + LENGTH_PREFIX_LEN + bytes);
                lemma_encoded_texts_len_grows(texts, i + 1, texts.len() as int);
                assert(texts.subrange(0, texts.len() as int) =~= texts);
            }
            let with_length = match bytes.checked_add(LENGTH_PREFIX_LEN) {
                Some(sum) => sum,
                None => {
                    return None;
                },
            };
            domains = match domains.checked_add(with_length) {
                Some(sum) => sum,
                None => {
                    return None;
                },
            };
            i += 1;
        }
        proof {
            let texts = self.key_domains.deep_view();
            assert(texts.len() == self.key_domains.len());
            assert(texts.subrange(0, i as int) =~= texts);
        }
        let methods = self.attack_methods.len();
        let summary = self.ai_summary.as_str().as_bytes().len();
        let fixed: usize = FIXED_FIELDS_LEN + 3 * LENGTH_PREFIX_LEN;
        let with_methods = match fixed.checked_add(methods) {
            Some(sum) => sum,
            None => {
                return None;
            },
        };
        let with_summary = match with_methods.checked_add(summary) {
            Some(sum) => sum,
            None => {
                return None;
            },
        };
        with_summary.checked_add(domains)
    }
}

} // verus!
