use drainer_registry::state::drainer_report::{
    AttackCategory, DrainerReport, MAX_ATTACK_METHODS, MAX_CONFIDENCE, MAX_DOMAIN_CHARS,
    MAX_KEY_DOMAINS, MAX_SUMMARY_CHARS,
};
use drainer_registry::state::text::{truncate_chars, truncate_each};
use drainer_registry::{Clock, Pubkey};

fn key(n: u8) -> Pubkey {
    Pubkey::new_from_array([n; 32])
}

fn reported_twice() -> DrainerReport {
    let mut record = DrainerReport::default();
    record.initialize(key(9), key(1), Some(40), &Clock { unix_timestamp: 100 });
    record.add_report(key(2), Some(2), &Clock { unix_timestamp: 200 }).unwrap();
    record
}

fn letters(n: usize) -> String {
    (0..n).map(|i| (b'a' + (i % 26) as u8) as char).collect()
}

#[test]
fn caps_are_as_documented() {
    assert_eq!(MAX_ATTACK_METHODS, 10);
    assert_eq!(MAX_SUMMARY_CHARS, 500);
    assert_eq!(MAX_KEY_DOMAINS, 5);
    assert_eq!(MAX_DOMAIN_CHARS, 100);
    assert_eq!(MAX_CONFIDENCE, 100);
}

#[test]
fn category_codes_decode() {
    assert_eq!(AttackCategory::from_code(0), AttackCategory::Phishing);
    assert_eq!(AttackCategory::from_code(1), AttackCategory::FakeAirdrop);
    assert_eq!(AttackCategory::from_code(2), AttackCategory::SocialEngineering);
    assert_eq!(AttackCategory::from_code(3), AttackCategory::MaliciousApproval);
    assert_eq!(AttackCategory::from_code(4), AttackCategory::SetAuthority);
    assert_eq!(AttackCategory::from_code(5), AttackCategory::Unknown);
    assert_eq!(AttackCategory::from_code(6), AttackCategory::Unknown);
    assert_eq!(AttackCategory::from_code(254), AttackCategory::Unknown);
    assert_eq!(AttackCategory::from_code(255), AttackCategory::Unknown);
}

#[test]
fn category_codes_round_trip() {
    assert_eq!(AttackCategory::Phishing.code(), 0);
    assert_eq!(AttackCategory::FakeAirdrop.code(), 1);
    assert_eq!(AttackCategory::SocialEngineering.code(), 2);
    assert_eq!(AttackCategory::MaliciousApproval.code(), 3);
    assert_eq!(AttackCategory::SetAuthority.code(), 4);
    assert_eq!(AttackCategory::Unknown.code(), 255);
    for category in [
        AttackCategory::Phishing,
        AttackCategory::FakeAirdrop,
        AttackCategory::SocialEngineering,
        AttackCategory::MaliciousApproval,
        AttackCategory::SetAuthority,
        AttackCategory::Unknown,
    ] {
        assert_eq!(AttackCategory::from_code(category.code()), category);
    }
}

#[test]
fn small_classification_is_stored_as_given() {
    let mut record = reported_twice();
    let result = record.update_ai_metadata(
        AttackCategory::MaliciousApproval,
        vec![3, 1, 4],
        String::from("Drains tokens through an unlimited approval."),
        vec![String::from("claim.example"), String::from("airdrop.example")],
        87,
    );
    assert_eq!(result, Ok(()));
    assert_eq!(record.attack_category, AttackCategory::MaliciousApproval);
    assert_eq!(record.attack_methods, vec![3, 1, 4]);
    assert_eq!(record.ai_summary, "Drains tokens through an unlimited approval.");
    assert_eq!(record.key_domains, vec!["claim.example", "airdrop.example"]);
    assert_eq!(record.ai_confidence, 87);
}

#[test]
fn classification_leaves_report_fields() {
    let mut record = reported_twice();
    let before = record.clone();
    record
        .update_ai_metadata(
            AttackCategory::Phishing,
            (0..12).collect(),
            letters(600),
            vec![letters(150); 7],
            150,
        )
        .unwrap();
    assert_eq!(record.drainer_address, before.drainer_address);
    assert_eq!(record.report_count, 2);
    assert_eq!(record.first_seen, 100);
    assert_eq!(record.last_seen, 200);
    assert_eq!(record.total_sol_reported, 42);
    assert_eq!(record.recent_reporters, [key(2), key(1)]);
}

#[test]
fn oversized_classification_is_truncated() {
    let mut record = reported_twice();
    let summary = letters(600);
    let mut domains: Vec<String> = (0..7).map(|i| format!("site{}.example", i)).collect();
    domains[2] = letters(150);
    let result = record.update_ai_metadata(
        AttackCategory::FakeAirdrop,
        vec![10, 11, 12, 13, 14, 15, 16, 17, 18, 19, 20, 21],
        summary.clone(),
        domains.clone(),
        150,
    );
    assert_eq!(result, Ok(()));
    assert_eq!(record.ai_summary.chars().count(), 500);
    assert_eq!(record.ai_summary, summary[..500]);
    assert_eq!(record.attack_methods, vec![10, 11, 12, 13, 14, 15, 16, 17, 18, 19]);
    assert_eq!(record.key_domains.len(), 5);
    assert_eq!(record.key_domains[0], "site0.example");
    assert_eq!(record.key_domains[1], "site1.example");
    assert_eq!(record.key_domains[2].chars().count(), 100);
    assert_eq!(record.key_domains[2], letters(150)[..100]);
    assert_eq!(record.key_domains[3], "site3.example");
    assert_eq!(record.key_domains[4], "site4.example");
    assert_eq!(record.ai_confidence, 100);
}

#[test]
fn confidence_is_clamped() {
    let mut record = reported_twice();
    for (given, stored) in [(0u8, 0u8), (1, 1), (99, 99), (100, 100), (101, 100), (150, 100), (255, 100)] {
        record
            .update_ai_metadata(AttackCategory::Unknown, vec![], String::new(), vec![], given)
            .unwrap();
        assert_eq!(record.ai_confidence, stored);
    }
}

#[test]
fn input_at_the_caps_is_kept_whole() {
    let mut record = reported_twice();
    let methods: Vec<u8> = (0..10).collect();
    let summary = letters(500);
    let domains = vec![letters(100); 5];
    record
        .update_ai_metadata(
            AttackCategory::SetAuthority,
            methods.clone(),
            summary.clone(),
            domains.clone(),
            100,
        )
        .unwrap();
    assert_eq!(record.attack_methods, methods);
    assert_eq!(record.ai_summary, summary);
    assert_eq!(record.key_domains, domains);
    assert_eq!(record.ai_confidence, 100);
}

#[test]
fn input_one_past_the_caps_loses_one() {
    let mut record = reported_twice();
    record
        .update_ai_metadata(
            AttackCategory::SetAuthority,
            (0..11).collect(),
            letters(501),
            vec![letters(101); 6],
            101,
        )
        .unwrap();
    assert_eq!(record.attack_methods, (0..10).collect::<Vec<u8>>());
    assert_eq!(record.ai_summary, letters(500));
    assert_eq!(record.key_domains, vec![letters(100); 5]);
    assert_eq!(record.ai_confidence, 100);
}

#[test]
fn later_classification_replaces_earlier() {
    let mut record = reported_twice();
    record
        .update_ai_metadata(
            AttackCategory::Phishing,
            vec![1, 2, 3],
            String::from("first"),
            vec![String::from("a.example"), String::from("b.example")],
            90,
        )
        .unwrap();
    record
        .update_ai_metadata(AttackCategory::Unknown, vec![], String::new(), vec![], 0)
        .unwrap();
    assert_eq!(record.attack_category, AttackCategory::Unknown);
    assert!(record.attack_methods.is_empty());
    assert!(record.ai_summary.is_empty());
    assert!(record.key_domains.is_empty());
    assert_eq!(record.ai_confidence, 0);
}

#[test]
fn summary_is_cut_by_characters_not_bytes() {
    let mut record = reported_twice();
    let wide: String = std::iter::repeat('\u{e9}').take(600).collect();
    assert_eq!(wide.len(), 1200);
    record
        .update_ai_metadata(AttackCategory::Unknown, vec![], wide.clone(), vec![], 1)
        .unwrap();
    assert_eq!(record.ai_summary.chars().count(), 500);
    assert_eq!(record.ai_summary.len(), 1000);
    assert!(wide.starts_with(record.ai_summary.as_str()));
}

#[test]
fn text_of_few_wide_characters_is_kept_whole() {
    let wide: String = std::iter::repeat('\u{1f600}').take(300).collect();
    assert_eq!(wide.len(), 1200);
    assert_eq!(truncate_chars(wide.clone(), 500), wide);
    let mixed: String = std::iter::repeat("a\u{20ac}").take(60).collect();
    assert_eq!(mixed.chars().count(), 120);
    let kept = truncate_chars(mixed.clone(), 100);
    assert_eq!(kept.chars().count(), 100);
    assert_eq!(kept, mixed.chars().take(100).collect::<String>());
}

#[test]
fn truncate_chars_on_small_caps() {
    assert_eq!(truncate_chars(String::from("drainer"), 0), "");
    assert_eq!(truncate_chars(String::from("drainer"), 1), "d");
    assert_eq!(truncate_chars(String::from("drainer"), 6), "draine");
    assert_eq!(truncate_chars(String::from("drainer"), 7), "drainer");
    assert_eq!(truncate_chars(String::from("drainer"), 8), "drainer");
    assert_eq!(truncate_chars(String::new(), 0), "");
    assert_eq!(truncate_chars(String::new(), 3), "");
}

#[test]
fn truncate_each_keeps_order() {
    let texts = vec![
        String::from("alpha"),
        String::from("be"),
        String::from("gamma"),
        String::from("delta"),
    ];
    assert_eq!(truncate_each(texts.clone(), 3, 4), vec!["alph", "be", "gamm"]);
    assert_eq!(truncate_each(texts.clone(), 10, 10), texts);
    assert_eq!(truncate_each(texts.clone(), 0, 10), Vec::<String>::new());
    assert_eq!(truncate_each(texts.clone(), 4, 0), vec!["", "", "", ""]);
    assert_eq!(truncate_each(Vec::new(), 5, 100), Vec::<String>::new());
}
