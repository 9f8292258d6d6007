use club_certification::crypto::{certificate_id, certificate_seed_bytes};
use club_certification::error::ContractError;
use club_certification::rules::{
    attendance_ratio_bps, check_out_refusal, consume_nonce, decide_mark_absent, decide_open_ping,
    decide_register_nonce, decide_report_fraud, issue_certificate, mint_refusal,
};
use club_certification::types::{
    AttendeeData, CertificateData, EventData, FraudEntry, NonceRecord, NONCE_CHECKIN,
};
use soroban_sdk::testutils::EnvTestConfig;
use soroban_sdk::Env;

fn hex32(s: &str) -> [u8; 32] {
    let mut out = [0u8; 32];
    for i in 0..32 {
        out[i] = u8::from_str_radix(&s[2 * i..2 * i + 2], 16).unwrap();
    }
    out
}

fn nonce(used: bool, expires_at: u64) -> NonceRecord {
    NonceRecord {
        nonce_hash: [5u8; 32],
        event_id: 1,
        created_at: expires_at - 15,
        expires_at,
        used,
        nonce_type: NONCE_CHECKIN,
        ping_index: 0,
    }
}

#[test]
fn attendance_ratio_values() {
    assert_eq!(attendance_ratio_bps(0, 0), 10_000);
    assert_eq!(attendance_ratio_bps(5, 0), 10_000);
    assert_eq!(attendance_ratio_bps(2, 2), 10_000);
    assert_eq!(attendance_ratio_bps(1, 2), 5_000);
    assert_eq!(attendance_ratio_bps(9, 10), 9_000);
    assert_eq!(attendance_ratio_bps(8, 9), 8_888);
    assert_eq!(attendance_ratio_bps(3, 2), 15_000);
    // no multiplication happens for an event without pings
    assert_eq!(attendance_ratio_bps(1_000_000, 0), 10_000);
}

fn sample_event(total_pings: u32) -> EventData {
    EventData {
        event_id: 4,
        name: "Meetup".to_string(),
        organizer: "O".to_string(),
        start_time: 0,
        end_time: 1,
        location: "L".to_string(),
        total_pings,
        active: true,
        ended: false,
    }
}

fn sample_attendee(confirmed: Vec<u32>, checked_out: bool, eligible: bool) -> AttendeeData {
    AttendeeData {
        attendee: "A".to_string(),
        event_id: 4,
        checked_in: true,
        checkin_time: 0,
        checked_out,
        checkout_time: 0,
        checkin_face_proof: [0u8; 32],
        confirmed_pings: confirmed,
        marked_absent: false,
        eligible,
    }
}

#[test]
fn issued_certificate_fields() {
    let a = sample_attendee(vec![0, 1, 2], true, true);
    let c = issue_certificate([9u8; 32], 4, &"A".to_string(), &a, &sample_event(4), 77);
    assert_eq!(c.cert_id, [9u8; 32]);
    assert_eq!(c.event_id, 4);
    assert_eq!(c.attendee, "A");
    assert_eq!(c.issued_at, 77);
    assert_eq!(c.attendance_ratio, 7_500);
    assert_eq!(c.event_name, "Meetup");
    assert!(!c.revoked);
}

#[test]
fn refusal_order() {
    let e = sample_event(2);
    let a = sample_attendee(vec![0, 1], true, true);
    assert_eq!(mint_refusal(true, Some(&a), false, Some(&e)), Some(ContractError::Blacklisted));
    assert_eq!(mint_refusal(false, None, true, None), Some(ContractError::NotCheckedIn));
    assert_eq!(mint_refusal(false, Some(&a), true, None), Some(ContractError::CertificateAlreadyMinted));
    assert_eq!(mint_refusal(false, Some(&a), false, None), Some(ContractError::EventNotFound));
    assert_eq!(mint_refusal(false, Some(&a), false, Some(&e)), None);
    let fresh = sample_attendee(vec![], false, false);
    assert_eq!(mint_refusal(false, Some(&fresh), false, Some(&e)), Some(ContractError::NotEligible));
    let mut n = nonce(false, 100);
    n.event_id = 4;
    n.nonce_type = club_certification::types::NONCE_CHECKOUT;
    assert_eq!(check_out_refusal(false, Some(&a), Some(n), Some(&e), 4, 0), Some(ContractError::AlreadyCheckedOut));
    assert_eq!(check_out_refusal(false, Some(&fresh), Some(n), None, 4, 0), Some(ContractError::EventNotFound));
    assert_eq!(check_out_refusal(false, Some(&fresh), Some(n), Some(&e), 5, 0), Some(ContractError::InvalidNonce));
    assert_eq!(check_out_refusal(false, Some(&fresh), Some(n), Some(&e), 4, 0), None);
}

#[test]
fn consume_nonce_outcomes() {
    assert_eq!(consume_nonce(None, 0).err(), Some(ContractError::InvalidNonce));
    assert_eq!(consume_nonce(Some(nonce(true, 100)), 0).err(), Some(ContractError::NonceAlreadyUsed));
    assert_eq!(consume_nonce(Some(nonce(false, 100)), 101).err(), Some(ContractError::NonceExpired));
    let used = consume_nonce(Some(nonce(false, 100)), 100).ok().unwrap();
    assert!(used.used);
    assert_eq!(used.expires_at, 100);
    assert_eq!(used.nonce_hash, [5u8; 32]);
}

#[test]
fn registered_nonce_lasts_fifteen_seconds() {
    let n = decide_register_nonce(false, [1u8; 32], 3, NONCE_CHECKIN, 0, 1_000).ok().unwrap();
    assert_eq!(n.created_at, 1_000);
    assert_eq!(n.expires_at, 1_015);
    assert!(!n.used);
    assert_eq!(
        decide_register_nonce(true, [1u8; 32], 3, NONCE_CHECKIN, 0, 1_000).err(),
        Some(ContractError::NonceAlreadyUsed)
    );
}

#[test]
fn ping_window_is_four_minutes() {
    let event = sample_event(1);
    let p = decide_open_ping(Some(&event), 4, 2, 500).ok().unwrap();
    assert_eq!(p.opened_at, 500);
    assert_eq!(p.expires_at, 740);
    assert_eq!(p.ping_index, 2);
    assert!(!p.closed);
    let mut ended = event.clone();
    ended.active = false;
    assert_eq!(decide_open_ping(Some(&ended), 4, 2, 500).err(), Some(ContractError::EventNotActive));
    assert_eq!(decide_open_ping(None, 4, 2, 500).err(), Some(ContractError::EventNotFound));
}

#[test]
fn mark_absent_only_without_confirmation() {
    let a = AttendeeData {
        attendee: "A".to_string(),
        event_id: 1,
        checked_in: true,
        checkin_time: 0,
        checked_out: false,
        checkout_time: 0,
        checkin_face_proof: [0u8; 32],
        confirmed_pings: vec![0, 2],
        marked_absent: false,
        eligible: false,
    };
    assert!(decide_mark_absent(&a, 2).is_none());
    let marked = decide_mark_absent(&a, 1).unwrap();
    assert!(marked.marked_absent);
    assert_eq!(marked.confirmed_pings, vec![0, 2]);
}

#[test]
fn fraud_report_records() {
    let prior = vec![FraudEntry { event_id: 1, detected_at: 5, reason: "r0".to_string() }];
    let cert = CertificateData {
        cert_id: [1u8; 32],
        event_id: 2,
        attendee: "A".to_string(),
        issued_at: 7,
        attendance_ratio: 9_500,
        event_name: "E".to_string(),
        revoked: false,
    };
    let (record, reports, revoked) =
        decide_report_fraud(&"A".to_string(), 2, &"why".to_string(), 9, &prior, Some(&cert));
    assert_eq!(record.address, "A");
    assert_eq!(record.blacklisted_at, 9);
    assert_eq!(record.reason, "why");
    assert_eq!(reports.len(), 2);
    assert_eq!(reports[1].event_id, 2);
    assert_eq!(reports[1].detected_at, 9);
    let revoked = revoked.unwrap();
    assert!(revoked.revoked);
    assert_eq!(revoked.attendance_ratio, 9_500);
    let (_, _, none) = decide_report_fraud(&"A".to_string(), 2, &"why".to_string(), 9, &prior, None);
    assert!(none.is_none());
}

#[test]
fn certificate_seed_is_big_endian() {
    let seed = certificate_seed_bytes(7, 1_234_567_890);
    assert_eq!(seed, vec![0, 0, 0, 0, 0, 0, 0, 7, 0, 0, 0, 0, 0x49, 0x96, 0x02, 0xd2]);
}

#[test]
fn certificate_id_is_sha256_of_seed() {
    let env = Env::new_with_config(EnvTestConfig { capture_snapshot_at_drop: false });
    assert_eq!(
        certificate_id(&env, 7, 1_234_567_890),
        hex32("1479fc136528774e3656a26c759075f59b4be9690890297eb915e4198e261b67")
    );
    assert_eq!(
        certificate_id(&env, 1, 0),
        hex32("783825822a6f9e62da2190e828e4c9d2576e5977e3a0b3620b092dfb9e9996fa")
    );
}

#[test]
fn error_codes() {
    assert_eq!(ContractError::Unauthorized.code(), 1);
    assert_eq!(ContractError::Blacklisted.code(), 2);
    assert_eq!(ContractError::EventNotFound.code(), 10);
    assert_eq!(ContractError::EventNotActive.code(), 12);
    assert_eq!(ContractError::NotRegistered.code(), 20);
    assert_eq!(ContractError::AlreadyCheckedIn.code(), 30);
    assert_eq!(ContractError::FaceVerificationFailed.code(), 32);
    assert_eq!(ContractError::InvalidNonce.code(), 40);
    assert_eq!(ContractError::NonceAlreadyUsed.code(), 42);
    assert_eq!(ContractError::NoPingActive.code(), 50);
    assert_eq!(ContractError::AlreadyCheckedOut.code(), 60);
    assert_eq!(ContractError::NotEligible.code(), 63);
}
