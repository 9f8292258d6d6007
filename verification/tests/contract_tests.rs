use club_certification::contract::CertificationContract;
use club_certification::error::ContractError;
use club_certification::types::{NONCE_CHECKIN, NONCE_CHECKOUT, NONCE_PING};
use soroban_sdk::testutils::{Address as _, EnvTestConfig};
use soroban_sdk::{Address, Env};

fn new_env() -> Env {
    Env::new_with_config(EnvTestConfig { capture_snapshot_at_drop: false })
}

/// A fresh account address, as its strkey.
fn generate(env: &Env) -> String {
    Address::generate(env).to_string().to_string()
}

fn setup() -> (Env, String, CertificationContract) {
    let env = new_env();
    let admin = generate(&env);
    let mut contract = CertificationContract::new();
    contract.initialize(admin.clone()).unwrap();
    (env, admin, contract)
}

fn dummy_hash(seed: u8) -> [u8; 32] {
    let mut b = [0u8; 32];
    b[0] = seed;
    b
}

/// The ledger time of a default test environment.
const NOW: u64 = 0;

#[test]
fn test_full_happy_path() {
    let (env, _admin, mut client) = setup();
    let organizer = generate(&env);
    let attendee = generate(&env);

    let event_id = client.create_event(
        "Hackathon 2025".to_string(),
        organizer,
        1_000_000u64,
        1_003_600u64,
        "Room A".to_string(),
        2u32,
    );

    client.register(event_id, attendee.clone(), dummy_hash(1), NOW).unwrap();

    let ci_nonce = dummy_hash(10);
    client.register_nonce(ci_nonce, event_id, NONCE_CHECKIN, 0u32, NOW).unwrap();
    client.check_in(event_id, attendee.clone(), ci_nonce, dummy_hash(2), true, NOW).unwrap();

    client.open_ping(event_id, 0u32, NOW).unwrap();
    let ping0_nonce = dummy_hash(20);
    client.register_nonce(ping0_nonce, event_id, NONCE_PING, 0u32, NOW).unwrap();
    client.confirm_ping(event_id, attendee.clone(), ping0_nonce, NOW).unwrap();

    client.open_ping(event_id, 1u32, NOW).unwrap();
    let ping1_nonce = dummy_hash(21);
    client.register_nonce(ping1_nonce, event_id, NONCE_PING, 1u32, NOW).unwrap();
    client.confirm_ping(event_id, attendee.clone(), ping1_nonce, NOW).unwrap();

    let co_nonce = dummy_hash(30);
    client.register_nonce(co_nonce, event_id, NONCE_CHECKOUT, 0u32, NOW).unwrap();
    client.check_out(event_id, attendee.clone(), co_nonce, NOW).unwrap();

    let att = client.get_attendee(event_id, attendee.clone()).unwrap();
    assert!(att.eligible);
    assert_eq!(att.confirmed_pings.len(), 2);

    let cert_id = client.mint_certificate(&env, event_id, attendee.clone(), NOW).unwrap();
    let cert = client.get_certificate(event_id, attendee.clone()).unwrap();
    assert_eq!(cert.cert_id, cert_id);
    assert_eq!(cert.attendance_ratio, 10_000u32);
    assert!(!cert.revoked);
}

#[test]
fn test_insufficient_attendance() {
    let (env, _admin, mut client) = setup();
    let organizer = generate(&env);
    let attendee = generate(&env);

    let event_id = client.create_event(
        "Workshop".to_string(),
        organizer,
        1_000_000u64,
        1_003_600u64,
        "Lab B".to_string(),
        2u32,
    );
    client.register(event_id, attendee.clone(), dummy_hash(1), NOW).unwrap();

    let ci_nonce = dummy_hash(10);
    client.register_nonce(ci_nonce, event_id, NONCE_CHECKIN, 0u32, NOW).unwrap();
    client.check_in(event_id, attendee.clone(), ci_nonce, dummy_hash(2), true, NOW).unwrap();

    // Only 1 of 2 pings confirmed: 50 % < 90 %
    client.open_ping(event_id, 0u32, NOW).unwrap();
    let p_nonce = dummy_hash(20);
    client.register_nonce(p_nonce, event_id, NONCE_PING, 0u32, NOW).unwrap();
    client.confirm_ping(event_id, attendee.clone(), p_nonce, NOW).unwrap();

    let co_nonce = dummy_hash(30);
    client.register_nonce(co_nonce, event_id, NONCE_CHECKOUT, 0u32, NOW).unwrap();
    client.check_out(event_id, attendee.clone(), co_nonce, NOW).unwrap();

    let att = client.get_attendee(event_id, attendee.clone()).unwrap();
    assert!(!att.eligible);
}

#[test]
fn test_fraud_blacklist_and_revoke() {
    let (env, _admin, mut client) = setup();
    let organizer = generate(&env);
    let impersonator = generate(&env);
    let requester = generate(&env);

    let event_id = client.create_event(
        "Talk".to_string(),
        organizer,
        1_000_000u64,
        1_003_600u64,
        "Hall".to_string(),
        0u32,
    );
    client.register(event_id, requester.clone(), dummy_hash(1), NOW).unwrap();

    client.report_fraud(
        impersonator.clone(),
        requester.clone(),
        event_id,
        "check-in on behalf".to_string(),
        NOW,
    );

    assert!(client.is_blacklisted(impersonator.clone()));
    assert!(client.is_blacklisted(requester.clone()));
    assert_eq!(client.get_fraud_records(requester.clone()).len(), 1);
}

#[test]
#[should_panic]
fn test_nonce_reuse_rejected() {
    let (env, _admin, mut client) = setup();
    let organizer = generate(&env);
    let a1 = generate(&env);
    let a2 = generate(&env);

    let event_id = client.create_event(
        "E".to_string(),
        organizer,
        1_000_000u64,
        1_003_600u64,
        "X".to_string(),
        0u32,
    );
    client.register(event_id, a1.clone(), dummy_hash(1), NOW).unwrap();
    client.register(event_id, a2.clone(), dummy_hash(2), NOW).unwrap();

    let shared_nonce = dummy_hash(99);
    client.register_nonce(shared_nonce, event_id, NONCE_CHECKIN, 0u32, NOW).unwrap();

    client.check_in(event_id, a1.clone(), shared_nonce, dummy_hash(3), true, NOW).unwrap();
    // Must panic: NonceAlreadyUsed
    client.check_in(event_id, a2.clone(), shared_nonce, dummy_hash(4), true, NOW).unwrap();
}

#[test]
fn nonce_reuse_is_refused_with_nonce_already_used() {
    let (env, _admin, mut client) = setup();
    let organizer = generate(&env);
    let a1 = generate(&env);
    let a2 = generate(&env);
    let event_id =
        client.create_event("E".to_string(), organizer, 1, 2, "X".to_string(), 0u32);
    client.register(event_id, a1.clone(), dummy_hash(1), NOW).unwrap();
    client.register(event_id, a2.clone(), dummy_hash(2), NOW).unwrap();
    let shared_nonce = dummy_hash(99);
    client.register_nonce(shared_nonce, event_id, NONCE_CHECKIN, 0u32, NOW).unwrap();
    client.check_in(event_id, a1.clone(), shared_nonce, dummy_hash(3), true, NOW).unwrap();
    assert_eq!(
        client.check_in(event_id, a2.clone(), shared_nonce, dummy_hash(4), true, NOW),
        Err(ContractError::NonceAlreadyUsed)
    );
    // the refused call changed nothing
    assert!(client.get_attendee(event_id, a2.clone()).is_none());
}

/// An event with `total_pings` pings and one registered, checked-in attendee.
fn checked_in(total_pings: u32) -> (Env, CertificationContract, u64, String) {
    let (env, _admin, mut c) = setup();
    let organizer = generate(&env);
    let attendee = generate(&env);
    let id = c.create_event("Meetup".to_string(), organizer, 10, 20, "Hall".to_string(), total_pings);
    c.register(id, attendee.clone(), dummy_hash(1), NOW).unwrap();
    c.register_nonce(dummy_hash(10), id, NONCE_CHECKIN, 0, NOW).unwrap();
    c.check_in(id, attendee.clone(), dummy_hash(10), dummy_hash(2), true, NOW).unwrap();
    (env, c, id, attendee)
}

fn confirm(c: &mut CertificationContract, id: u64, attendee: &String, ping_index: u32, seed: u8) {
    c.open_ping(id, ping_index, NOW).unwrap();
    c.register_nonce(dummy_hash(seed), id, NONCE_PING, ping_index, NOW).unwrap();
    c.confirm_ping(id, attendee.clone(), dummy_hash(seed), NOW).unwrap();
}

fn check_out(c: &mut CertificationContract, id: u64, attendee: &String) -> Result<(), ContractError> {
    c.register_nonce(dummy_hash(200), id, NONCE_CHECKOUT, 0, NOW).unwrap();
    c.check_out(id, attendee.clone(), dummy_hash(200), NOW)
}

#[test]
fn second_initialize_is_unauthorized() {
    let (env, _admin, mut c) = setup();
    assert_eq!(c.initialize(generate(&env)), Err(ContractError::Unauthorized));
}

#[test]
fn event_ids_count_up() {
    let (env, _admin, mut c) = setup();
    let a = c.create_event("A".to_string(), generate(&env), 1, 2, "X".to_string(), 0);
    let b = c.create_event("B".to_string(), generate(&env), 1, 2, "Y".to_string(), 0);
    assert_eq!((a, b), (1, 2));
    let e = c.get_event(a).unwrap();
    assert_eq!(e.name, "A");
    assert!(e.active && !e.ended);
    assert!(c.get_event(3).is_none());
}

#[test]
fn registration_refusals() {
    let (env, _admin, mut c) = setup();
    let who = generate(&env);
    assert_eq!(c.register(9, who.clone(), dummy_hash(1), NOW), Err(ContractError::EventNotFound));
    let id = c.create_event("A".to_string(), generate(&env), 1, 2, "X".to_string(), 0);
    c.register(id, who.clone(), dummy_hash(1), 42).unwrap();
    assert_eq!(c.get_registration(id, who.clone()).unwrap().registered_at, 42);
    assert_eq!(c.register(id, who.clone(), dummy_hash(1), NOW), Err(ContractError::AlreadyRegistered));
    c.end_event(id).unwrap();
    let e = c.get_event(id).unwrap();
    assert!(!e.active && e.ended);
    assert_eq!(c.register(id, generate(&env), dummy_hash(1), NOW), Err(ContractError::EventNotActive));
    assert_eq!(c.end_event(7), Err(ContractError::EventNotFound));
}

#[test]
fn check_in_refusals() {
    let (env, _admin, mut c) = setup();
    let who = generate(&env);
    let id = c.create_event("A".to_string(), generate(&env), 1, 2, "X".to_string(), 0);
    assert_eq!(
        c.check_in(id, who.clone(), dummy_hash(10), dummy_hash(2), true, NOW),
        Err(ContractError::NotRegistered)
    );
    c.register(id, who.clone(), dummy_hash(1), NOW).unwrap();
    assert_eq!(
        c.check_in(id, who.clone(), dummy_hash(10), dummy_hash(2), true, NOW),
        Err(ContractError::InvalidNonce)
    );
    c.register_nonce(dummy_hash(11), id, NONCE_PING, 0, NOW).unwrap();
    assert_eq!(
        c.check_in(id, who.clone(), dummy_hash(11), dummy_hash(2), true, NOW),
        Err(ContractError::InvalidNonce)
    );
    c.register_nonce(dummy_hash(10), id, NONCE_CHECKIN, 0, 100).unwrap();
    assert_eq!(
        c.check_in(id, who.clone(), dummy_hash(10), dummy_hash(2), true, 116),
        Err(ContractError::NonceExpired)
    );
    assert_eq!(
        c.check_in(id, who.clone(), dummy_hash(10), dummy_hash(2), false, 115),
        Err(ContractError::FaceVerificationFailed)
    );
    c.check_in(id, who.clone(), dummy_hash(10), dummy_hash(2), true, 115).unwrap();
    let att = c.get_attendee(id, who.clone()).unwrap();
    assert!(att.checked_in && !att.checked_out && !att.eligible);
    assert_eq!(att.checkin_time, 115);
    assert_eq!(att.checkin_face_proof, dummy_hash(2));
    c.register_nonce(dummy_hash(12), id, NONCE_CHECKIN, 0, 115).unwrap();
    assert_eq!(
        c.check_in(id, who.clone(), dummy_hash(12), dummy_hash(2), true, 115),
        Err(ContractError::AlreadyCheckedIn)
    );
    assert_eq!(
        c.register_nonce(dummy_hash(12), id, NONCE_CHECKIN, 0, 115),
        Err(ContractError::NonceAlreadyUsed)
    );
}

#[test]
fn ping_refusals() {
    let (_env, mut c, id, who) = checked_in(3);
    assert_eq!(c.close_ping(id), Err(ContractError::NoPingActive));
    c.register_nonce(dummy_hash(20), id, NONCE_PING, 0, NOW).unwrap();
    assert_eq!(c.confirm_ping(id, who.clone(), dummy_hash(20), NOW), Err(ContractError::NoPingActive));
    c.open_ping(id, 0, NOW).unwrap();
    assert_eq!(c.get_active_ping(id).unwrap().expires_at, 240);
    assert_eq!(
        c.confirm_ping(id, who.clone(), dummy_hash(20), 241),
        Err(ContractError::PingWindowExpired)
    );
    c.register_nonce(dummy_hash(22), id, NONCE_PING, 0, 230).unwrap();
    c.confirm_ping(id, who.clone(), dummy_hash(22), 240).unwrap();
    c.register_nonce(dummy_hash(21), id, NONCE_PING, 0, NOW).unwrap();
    assert_eq!(
        c.confirm_ping(id, who.clone(), dummy_hash(21), NOW),
        Err(ContractError::AlreadyConfirmedPing)
    );
    c.open_ping(id, 1, NOW).unwrap();
    assert_eq!(c.confirm_ping(id, who.clone(), dummy_hash(21), NOW), Err(ContractError::InvalidNonce));
    c.close_ping(id).unwrap();
    assert!(c.get_active_ping(id).unwrap().closed);
    assert_eq!(c.confirm_ping(id, who.clone(), dummy_hash(21), NOW), Err(ContractError::NoPingActive));
    assert_eq!(c.get_attendee(id, who.clone()).unwrap().confirmed_pings, vec![0]);
}

#[test]
fn check_out_refusals() {
    let (env, mut c, id, who) = checked_in(0);
    let stranger = generate(&env);
    assert_eq!(check_out(&mut c, id, &stranger), Err(ContractError::NotCheckedIn));
    c.check_out(id, who.clone(), dummy_hash(200), 7).unwrap();
    let att = c.get_attendee(id, who.clone()).unwrap();
    assert!(att.checked_out && att.eligible);
    assert_eq!(att.checkout_time, 7);
    c.register_nonce(dummy_hash(201), id, NONCE_CHECKOUT, 0, NOW).unwrap();
    assert_eq!(
        c.check_out(id, who.clone(), dummy_hash(201), NOW),
        Err(ContractError::AlreadyCheckedOut)
    );
}

#[test]
fn ninety_percent_is_enough() {
    let (env, mut c, id, who) = checked_in(10);
    for i in 0..9u32 {
        confirm(&mut c, id, &who, i, 20 + i as u8);
    }
    check_out(&mut c, id, &who).unwrap();
    assert!(c.get_attendee(id, who.clone()).unwrap().eligible);
    let cert_id = c.mint_certificate(&env, id, who.clone(), 55).unwrap();
    let cert = c.get_certificate(id, who.clone()).unwrap();
    assert_eq!(cert.cert_id, cert_id);
    assert_eq!(cert.attendance_ratio, 9_000);
    assert_eq!(cert.issued_at, 55);
    assert_eq!(cert.event_name, "Meetup");
    assert_eq!(
        c.mint_certificate(&env, id, who.clone(), 56),
        Err(ContractError::CertificateAlreadyMinted)
    );
}

#[test]
fn below_ninety_percent_gets_no_certificate() {
    let (env, mut c, id, who) = checked_in(10);
    for i in 0..8u32 {
        confirm(&mut c, id, &who, i, 20 + i as u8);
    }
    check_out(&mut c, id, &who).unwrap();
    assert!(!c.get_attendee(id, who.clone()).unwrap().eligible);
    assert_eq!(c.mint_certificate(&env, id, who.clone(), NOW), Err(ContractError::NotEligible));
    assert_eq!(c.mint_certificate(&env, id, generate(&env), NOW), Err(ContractError::NotCheckedIn));
    assert!(c.get_certificate(id, who.clone()).is_none());
}

#[test]
fn blacklisted_attendee_is_refused_everywhere() {
    let (env, mut c, id, who) = checked_in(0);
    c.report_fraud(who.clone(), generate(&env), id, "fake".to_string(), NOW);
    assert_eq!(c.register(id, who.clone(), dummy_hash(1), NOW), Err(ContractError::Blacklisted));
    assert_eq!(
        c.check_in(id, who.clone(), dummy_hash(10), dummy_hash(2), true, NOW),
        Err(ContractError::Blacklisted)
    );
    assert_eq!(c.confirm_ping(id, who.clone(), dummy_hash(20), NOW), Err(ContractError::Blacklisted));
    assert_eq!(check_out(&mut c, id, &who), Err(ContractError::Blacklisted));
    assert_eq!(c.mint_certificate(&env, id, who.clone(), NOW), Err(ContractError::Blacklisted));
    c.remove_from_blacklist(who.clone());
    assert!(!c.is_blacklisted(who.clone()));
    assert_eq!(c.get_fraud_records(who.clone()).len(), 1);
    // the refused check-out did not consume its nonce
    c.check_out(id, who.clone(), dummy_hash(200), NOW).unwrap();
}

#[test]
fn fraud_report_revokes_certificate() {
    let (env, mut c, id, who) = checked_in(0);
    check_out(&mut c, id, &who).unwrap();
    c.mint_certificate(&env, id, who.clone(), NOW).unwrap();
    assert!(!c.get_certificate(id, who.clone()).unwrap().revoked);
    let other = generate(&env);
    c.report_fraud(other.clone(), who.clone(), id, "proxy".to_string(), 9);
    let cert = c.get_certificate(id, who.clone()).unwrap();
    assert!(cert.revoked);
    assert_eq!(cert.attendance_ratio, 10_000);
    let reports = c.get_fraud_records(other.clone());
    assert_eq!(reports.len(), 1);
    assert_eq!(reports[0].event_id, id);
    assert_eq!(reports[0].detected_at, 9);
    assert_eq!(reports[0].reason, "proxy");
    c.report_fraud(other.clone(), who.clone(), id, "again".to_string(), 10);
    assert_eq!(c.get_fraud_records(other.clone()).len(), 2);
    assert!(c.get_fraud_records(generate(&env)).is_empty());
}

#[test]
fn missed_ping_marks_absent() {
    let (env, mut c, id, who) = checked_in(2);
    let late = generate(&env);
    c.register(id, late.clone(), dummy_hash(3), NOW).unwrap();
    c.register_nonce(dummy_hash(11), id, NONCE_CHECKIN, 0, NOW).unwrap();
    c.check_in(id, late.clone(), dummy_hash(11), dummy_hash(4), true, NOW).unwrap();
    confirm(&mut c, id, &who, 0, 20);
    c.mark_absent_for_missed_ping(id, vec![who.clone(), late.clone(), generate(&env)], 0);
    assert!(!c.get_attendee(id, who.clone()).unwrap().marked_absent);
    assert!(c.get_attendee(id, late.clone()).unwrap().marked_absent);
}

#[test]
fn check_out_is_final() {
    let (_env, mut c, id, who) = checked_in(2);
    confirm(&mut c, id, &who, 0, 20);
    c.check_out(id, who.clone(), dummy_hash(200), NOW).unwrap_err();
    check_out(&mut c, id, &who).unwrap();
    let before = c.get_attendee(id, who.clone()).unwrap();
    assert!(!before.eligible);
    // a ping confirmed after check-out is recorded, but eligibility stays
    confirm(&mut c, id, &who, 1, 21);
    let after = c.get_attendee(id, who.clone()).unwrap();
    assert_eq!(after.confirmed_pings, vec![0, 1]);
    assert!(after.checked_out && !after.eligible);
    assert_eq!(after.checkout_time, before.checkout_time);
}
