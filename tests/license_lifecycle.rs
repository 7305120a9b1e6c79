use desk_license::fingerprint::{compute_machine_id, get_machine_id, host_or_unknown, simple_hash};
use desk_license::license::{
    activation_record, applicable_license, interpret_reply, validation_url, AuthorityReply,
    LicenseValidation, StoredLicense,
};
use desk_license::slot::{activation_record_now, LicenseSlot};

fn is_machine_id(id: &str) -> bool {
    id.len() == 20
        && id.starts_with("DSK-")
        && id[4..].chars().all(|c| c.is_ascii_digit() || ('A'..='F').contains(&c))
}

fn granted(plan: &str) -> LicenseValidation {
    LicenseValidation { valid: true, plan_tier: Some(plan.to_string()), error: None }
}

fn record(code: &str, plan: &str, at: &str, machine: &str) -> StoredLicense {
    StoredLicense {
        code: code.to_string(),
        plan_tier: plan.to_string(),
        activated_at: at.to_string(),
        machine_id: machine.to_string(),
    }
}

#[test]
fn hash_of_empty_input_is_zero() {
    assert_eq!(simple_hash(""), "0000000000000000");
}

#[test]
fn hash_of_one_character() {
    // (0 + 97 * 1) * 31 = 3007
    assert_eq!(simple_hash("a"), "0000000000000BBF");
}

#[test]
fn hash_of_two_characters() {
    // (3007 + 98 * 2) * 31 = 99293
    assert_eq!(simple_hash("ab"), "00000000000183DD");
}

#[test]
fn hash_depends_on_order() {
    assert_ne!(simple_hash("ab"), simple_hash("ba"));
}

#[test]
fn hash_wraps_on_long_input() {
    let long = "z".repeat(200);
    let h = simple_hash(&long);
    assert_eq!(h.len(), 16);
    assert_eq!(h, simple_hash(&long));
}

#[test]
fn machine_id_for_box1_alice_is_shaped_and_stable() {
    let first = compute_machine_id("box1", "alice");
    let second = compute_machine_id("box1", "alice");
    assert!(is_machine_id(&first), "{}", first);
    assert_eq!(first, second);
    assert_eq!(first, format!("DSK-{}", simple_hash("box1:alice")));
}

#[test]
fn machine_id_differs_for_other_user() {
    assert_ne!(compute_machine_id("box1", "alice"), compute_machine_id("box1", "bob"));
}

#[test]
fn machine_id_of_this_device_is_stable() {
    let first = get_machine_id();
    assert!(is_machine_id(&first), "{}", first);
    assert_eq!(first, get_machine_id());
}

#[test]
fn missing_host_name_becomes_unknown() {
    assert_eq!(host_or_unknown(None), "unknown");
    assert_eq!(host_or_unknown(Some("box1".to_string())), "box1");
}

#[test]
fn endpoint_url_appends_the_validation_path() {
    assert_eq!(
        validation_url("https://auth.example.com"),
        "https://auth.example.com/functions/v1/validate-desktop-license"
    );
}

#[test]
fn unreachable_authority_is_a_network_error() {
    let v = interpret_reply(AuthorityReply::Unreachable("connection refused".to_string()));
    assert!(!v.valid);
    assert_eq!(v.plan_tier, None);
    assert_eq!(v.error.as_deref(), Some("Network error: connection refused"));
}

#[test]
fn rejected_request_carries_the_body() {
    let v = interpret_reply(AuthorityReply::Rejected("{\"reason\":\"expired\"}".to_string()));
    assert!(!v.valid);
    assert_eq!(v.plan_tier, None);
    assert_eq!(v.error.as_deref(), Some("Validation failed: {\"reason\":\"expired\"}"));
}

#[test]
fn undecodable_body_is_a_parse_error() {
    let v = interpret_reply(AuthorityReply::Undecodable("expected value".to_string()));
    assert!(!v.valid);
    assert_eq!(v.error.as_deref(), Some("Parse error: expected value"));
}

#[test]
fn decoded_body_is_reported_as_it_is() {
    let v = interpret_reply(AuthorityReply::Decoded(LicenseValidation {
        valid: false,
        plan_tier: None,
        error: Some("revoked".to_string()),
    }));
    assert!(!v.valid);
    assert_eq!(v.error.as_deref(), Some("revoked"));
}

#[test]
fn granting_check_yields_a_record() {
    let r = activation_record(
        &granted("pro"),
        "CODE-1".to_string(),
        "DSK-0000000000000001".to_string(),
        "2024-01-01T00:00:00+00:00".to_string(),
    )
    .expect("record");
    assert_eq!(r.code, "CODE-1");
    assert_eq!(r.plan_tier, "pro");
    assert_eq!(r.activated_at, "2024-01-01T00:00:00+00:00");
    assert_eq!(r.machine_id, "DSK-0000000000000001");
}

#[test]
fn valid_check_without_plan_yields_no_record() {
    let v = LicenseValidation { valid: true, plan_tier: None, error: None };
    assert!(activation_record(&v, "C".to_string(), "M".to_string(), "T".to_string()).is_none());
}

#[test]
fn invalid_check_yields_no_record() {
    let v = LicenseValidation { valid: false, plan_tier: Some("pro".to_string()), error: None };
    assert!(activation_record(&v, "C".to_string(), "M".to_string(), "T".to_string()).is_none());
}

#[test]
fn record_stamped_now_is_rfc3339() {
    let r = activation_record_now(&granted("team"), "C".to_string(), "M".to_string())
        .expect("clock")
        .expect("record");
    assert_eq!(r.plan_tier, "team");
    assert_eq!(r.code, "C");
    assert_eq!(r.machine_id, "M");
    assert!(r.activated_at.len() >= 25, "{}", r.activated_at);
    assert!(r.activated_at.starts_with("20"), "{}", r.activated_at);
    assert_eq!(&r.activated_at[4..5], "-");
    assert_eq!(&r.activated_at[10..11], "T");
}

#[test]
fn non_granting_check_needs_no_clock() {
    let v = LicenseValidation { valid: false, plan_tier: None, error: None };
    let r = activation_record_now(&v, "C".to_string(), "M".to_string());
    assert!(matches!(r, Ok(None)));
}

#[test]
fn taking_the_record_empties_the_slot() {
    let mut slot = LicenseSlot::new();
    assert!(slot.take_record().is_none());
    slot.write_record(record("C", "pro", "T", "DSK-A"));
    let taken = slot.take_record().expect("record");
    assert_eq!(taken.code, "C");
    assert!(slot.read_record().is_none());
}

#[test]
fn read_error_is_passed_on() {
    let r = applicable_license(Err("store is corrupt".to_string()), "DSK-NEW");
    assert_eq!(r.err().as_deref(), Some("store is corrupt"));
}

#[test]
fn absent_record_reads_as_none() {
    assert!(matches!(applicable_license(Ok(None), "DSK-NEW"), Ok(None)));
}

#[test]
fn record_of_this_machine_is_returned() {
    let r = applicable_license(Ok(Some(record("C", "pro", "T", "DSK-NEW"))), "DSK-NEW")
        .expect("read")
        .expect("record");
    assert_eq!(r.code, "C");
    assert_eq!(r.plan_tier, "pro");
}

#[test]
fn record_of_another_machine_is_filtered() {
    let r = applicable_license(Ok(Some(record("C", "pro", "T", "DSK-OLD"))), "DSK-NEW");
    assert!(matches!(r, Ok(None)));
}

#[test]
fn successful_activation_is_stored_for_this_machine() {
    let machine = compute_machine_id("box1", "alice");
    let mut slot = LicenseSlot::new();
    let v = slot.record_check(
        AuthorityReply::Decoded(granted("pro")),
        "CODE-PRO".to_string(),
        machine.clone(),
    )
    .expect("checked");
    assert!(v.valid);
    assert_eq!(v.plan_tier.as_deref(), Some("pro"));
    assert_eq!(v.error, None);
    let stored = slot.stored_license(&machine).expect("stored");
    assert_eq!(stored.plan_tier, "pro");
    assert_eq!(stored.code, "CODE-PRO");
}

#[test]
fn rejected_activation_leaves_prior_state() {
    let mut slot = LicenseSlot::new();
    slot.write_record(record("OLD", "basic", "T0", "DSK-A"));
    let v = slot.record_check(
        AuthorityReply::Rejected("{\"reason\":\"expired\"}".to_string()),
        "NEW".to_string(),
        "DSK-A".to_string(),
    )
    .expect("checked");
    assert!(!v.valid);
    assert_eq!(v.plan_tier, None);
    assert!(v.error.as_deref().unwrap().contains("Validation failed"));
    let kept = slot.read_record().expect("kept");
    assert_eq!(kept.code, "OLD");
    assert_eq!(kept.plan_tier, "basic");
}

#[test]
fn unreachable_authority_writes_nothing() {
    let mut slot = LicenseSlot::new();
    let v = slot.record_check(
        AuthorityReply::Unreachable("dns failure".to_string()),
        "CODE".to_string(),
        "DSK-A".to_string(),
    )
    .expect("checked");
    assert!(!v.valid);
    assert!(v.error.as_deref().unwrap().contains("Network error"));
    assert!(slot.read_record().is_none());
}

#[test]
fn foreign_record_is_hidden_until_cleared() {
    let mut slot = LicenseSlot::new();
    slot.write_record(record("C", "pro", "T", "DSK-OLD"));
    assert!(slot.stored_license("DSK-NEW").is_none());
    let raw = slot.read_record().expect("still on disk");
    assert_eq!(raw.machine_id, "DSK-OLD");
    assert_eq!(raw.code, "C");
    slot.clear_license();
    assert!(slot.stored_license("DSK-NEW").is_none());
    assert!(slot.read_record().is_none());
}

#[test]
fn clearing_an_empty_slot_keeps_it_empty() {
    let mut slot = LicenseSlot::new();
    slot.clear_license();
    assert!(slot.read_record().is_none());
    slot.clear_license();
    assert!(slot.read_record().is_none());
}

#[test]
fn second_activation_overwrites_the_first() {
    let mut slot = LicenseSlot::new();
    slot.record_check_at(
        AuthorityReply::Decoded(granted("basic")),
        "FIRST".to_string(),
        "DSK-A".to_string(),
        "2024-01-01T00:00:00+00:00".to_string(),
    );
    slot.record_check_at(
        AuthorityReply::Decoded(granted("pro")),
        "SECOND".to_string(),
        "DSK-A".to_string(),
        "2024-02-01T00:00:00+00:00".to_string(),
    );
    let r = slot.read_record().expect("record");
    assert_eq!(r.code, "SECOND");
    assert_eq!(r.plan_tier, "pro");
    assert_eq!(r.activated_at, "2024-02-01T00:00:00+00:00");
}

#[test]
fn second_activation_stamped_now_overwrites_the_first() {
    let mut slot = LicenseSlot::new();
    slot.write_record(record("FIRST", "basic", "2000-01-01T00:00:00+00:00", "DSK-A"));
    slot.record_check(AuthorityReply::Decoded(granted("pro")), "SECOND".to_string(), "DSK-A".to_string())
    .expect("checked");
    let r = slot.stored_license("DSK-A").expect("record");
    assert_eq!(r.code, "SECOND");
    assert_ne!(r.activated_at, "2000-01-01T00:00:00+00:00");
}
