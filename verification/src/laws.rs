//! Properties of the contract that span its entry points.
use crate::contract::{AttendeeKey, ContractView};
use crate::error::ContractError;
use crate::rules::{lemma_more_pings_keep_eligibility, next_event_id, ratio_bps, spec_new_event};
use crate::types::{CertificateData, EventData, FraudEntry, MIN_ATTENDANCE_BPS, NONCE_CHECKIN};
use vstd::prelude::*;

verus! {

/// A nonce that has been used is refused by every entry point that consumes
/// nonces: check-in, ping confirmation and check-out all fail, whoever
/// presents it and whenever.
pub proof fn lemma_used_nonce_refused(
    s: ContractView,
    nonce_hash: [u8; 32],
    event_id: u64,
    attendee: Seq<char>,
    face_match: bool,
    now: u64,
)
    requires
        s.nonces.contains_key(nonce_hash),
        s.nonces[nonce_hash].used,
    ensures
        s.check_in_error(event_id, attendee, nonce_hash, face_match, now) is Some,
        s.confirm_ping_error(event_id, attendee, nonce_hash, now) is Some,
        s.check_out_error(event_id, attendee, nonce_hash, now) is Some,
{
}

/// A successful check-in, ping confirmation or check-out leaves the nonce it
/// presented stored and marked as used.
pub proof fn lemma_accepted_call_uses_nonce(
    s: ContractView,
    nonce_hash: [u8; 32],
    event_id: u64,
    attendee: String,
    face_proof_hash: [u8; 32],
    face_match: bool,
    now: u64,
)
    ensures
        s.check_in_error(event_id, attendee@, nonce_hash, face_match, now) is None ==> {
            let t = s.after_check_in(event_id, attendee, nonce_hash, face_proof_hash, now);
            t.nonces.contains_key(nonce_hash) && t.nonces[nonce_hash].used
        },
        s.confirm_ping_error(event_id, attendee@, nonce_hash, now) is None ==> {
            let t = s.after_confirm_ping(event_id, attendee@, nonce_hash);
            t.nonces.contains_key(nonce_hash) && t.nonces[nonce_hash].used
        },
        s.check_out_error(event_id, attendee@, nonce_hash, now) is None ==> {
            let t = s.after_check_out(event_id, attendee@, nonce_hash, now);
            t.nonces.contains_key(nonce_hash) && t.nonces[nonce_hash].used
        },
{
}

/// A check-in that was accepted cannot be replayed: the same nonce presented
/// again, by anyone, is refused.
pub proof fn lemma_check_in_nonce_not_replayable(
    s: ContractView,
    nonce_hash: [u8; 32],
    event_id: u64,
    attendee: String,
    face_proof_hash: [u8; 32],
    face_match: bool,
    now: u64,
    other_event_id: u64,
    other_attendee: Seq<char>,
    other_face_match: bool,
    later: u64,
)
    requires
        s.check_in_error(event_id, attendee@, nonce_hash, face_match, now) is None,
    ensures
        s.after_check_in(event_id, attendee, nonce_hash, face_proof_hash, now).check_in_error(
            other_event_id,
            other_attendee,
            nonce_hash,
            other_face_match,
            later,
        ) is Some,
{
    lemma_accepted_call_uses_nonce(s, nonce_hash, event_id, attendee, face_proof_hash, face_match, now);
    lemma_used_nonce_refused(
        s.after_check_in(event_id, attendee, nonce_hash, face_proof_hash, now),
        nonce_hash,
        other_event_id,
        other_attendee,
        other_face_match,
        later,
    );
}

/// A nonce is refused once its validity has passed.
pub proof fn lemma_expired_nonce_refused(
    s: ContractView,
    nonce_hash: [u8; 32],
    event_id: u64,
    attendee: Seq<char>,
    face_match: bool,
    now: u64,
)
    requires
        s.nonces.contains_key(nonce_hash),
        now > s.nonces[nonce_hash].expires_at,
    ensures
        s.check_in_error(event_id, attendee, nonce_hash, face_match, now) is Some,
        s.confirm_ping_error(event_id, attendee, nonce_hash, now) is Some,
        s.check_out_error(event_id, attendee, nonce_hash, now) is Some,
{
}

/// A blacklisted address is refused, with `Blacklisted`, by every entry point
/// an attendee calls.
pub proof fn lemma_blacklisted_refused(
    s: ContractView,
    addr: Seq<char>,
    event_id: u64,
    nonce_hash: [u8; 32],
    face_match: bool,
    now: u64,
)
    requires
        s.is_blacklisted(addr),
    ensures
        s.register_error(event_id, addr) == Some(ContractError::Blacklisted),
        s.check_in_error(event_id, addr, nonce_hash, face_match, now) == Some(
            ContractError::Blacklisted,
        ),
        s.confirm_ping_error(event_id, addr, nonce_hash, now) == Some(ContractError::Blacklisted),
        s.check_out_error(event_id, addr, nonce_hash, now) == Some(ContractError::Blacklisted),
        s.mint_error(event_id, addr) == Some(ContractError::Blacklisted),
{
}

/// In consistent storage, every certificate records an attendance ratio of
/// at least `MIN_ATTENDANCE_BPS`.
pub proof fn lemma_certificates_meet_threshold(s: ContractView, k: AttendeeKey)
    requires
        s.consistent(),
        s.certificates.contains_key(k),
    ensures
        s.certificates[k].attendance_ratio >= MIN_ATTENDANCE_BPS,
{
}

/// A certificate is minted only for an attendee who checked in, checked out,
/// and whose attendance ratio for the event reaches `MIN_ATTENDANCE_BPS`; the
/// certificate records that ratio.
pub proof fn lemma_certificate_requires_attendance(
    s: ContractView,
    event_id: u64,
    attendee: String,
    now: u64,
    cert: CertificateData,
)
    requires
        s.consistent(),
        s.mint_error(event_id, attendee@) is None,
        s.issues(cert, event_id, attendee, now),
    ensures
        s.attendees[(event_id, attendee@)].checked_in,
        s.attendees[(event_id, attendee@)].checked_out,
        cert.attendance_ratio == ratio_bps(
            s.attendees[(event_id, attendee@)].confirmed_pings.len(),
            s.events[event_id].total_pings,
        ),
        cert.attendance_ratio >= MIN_ATTENDANCE_BPS,
{
    let k = (event_id, attendee@);
    assert(s.attendees.contains_key(k));
}

/// Creating an event never replaces an existing one: the new identifier is
/// above every identifier in use.
pub proof fn lemma_new_event_id_is_fresh(s: ContractView, id: u64)
    requires
        s.consistent(),
        s.events.contains_key(id),
    ensures
        id < next_event_id(s.event_counter),
{
}

/// An event reads back as it was created.
pub proof fn lemma_created_event_reads_back(
    s: ContractView,
    id: u64,
    name: String,
    organizer: String,
    start_time: u64,
    end_time: u64,
    location: String,
    total_pings: u32,
)
    ensures
        ({
            let e = spec_new_event(id, name, organizer, start_time, end_time, location, total_pings);
            s.after_create_event(e).events.get(id) == Some(e)
        }),
{
}

/// A fraud report blacklists both parties, appends the report to each one's
/// fraud log, and revokes each one's certificate for the event.
pub proof fn lemma_report_fraud_effects(
    s: ContractView,
    impersonator: String,
    requester: String,
    event_id: u64,
    reason: String,
    now: u64,
)
    requires
        impersonator@ != requester@,
    ensures
        ({
            let t = s.after_report_fraud(impersonator, requester, event_id, reason, now);
            let entry = FraudEntry { event_id, detected_at: now, reason };
            &&& t.is_blacklisted(impersonator@)
            &&& t.is_blacklisted(requester@)
            &&& t.fraud_entries(impersonator@) == s.fraud_entries(impersonator@).push(entry)
            &&& t.fraud_entries(requester@) == s.fraud_entries(requester@).push(entry)
            &&& s.certificates.contains_key((event_id, impersonator@)) ==> t.certificates[(
                event_id,
                impersonator@,
            )].revoked
            &&& s.certificates.contains_key((event_id, requester@)) ==> t.certificates[(
                event_id,
                requester@,
            )].revoked
        }),
{
}

/// Removing an address from the blacklist lifts the ban, and keeps its fraud
/// log.
pub proof fn lemma_unblacklist(s: ContractView, addr: Seq<char>)
    ensures
        !s.after_remove_from_blacklist(addr).is_blacklisted(addr),
        s.after_remove_from_blacklist(addr).fraud_entries(addr) == s.fraud_entries(addr),
{
}


/// A used nonce stays used: no entry point ever makes a consumed nonce
/// usable again, so a replay stays refused forever.
pub proof fn lemma_used_nonce_stays_used(
    s: ContractView,
    h: [u8; 32],
    other: [u8; 32],
    event_id: u64,
    addr: String,
    admin: String,
    event: EventData,
    face_hash: [u8; 32],
    face_proof_hash: [u8; 32],
    nonce_type: u32,
    ping_index: u32,
    absentees: Seq<String>,
    cert: CertificateData,
    reason: String,
    second: String,
    now: u64,
)
    requires
        s.nonces.contains_key(h),
        s.nonces[h].used,
    ensures
        ({
            let keeps = |t: ContractView| t.nonces.contains_key(h) && t.nonces[h].used;
            &&& keeps(s.after_initialize(admin))
            &&& keeps(s.after_create_event(event))
            &&& keeps(s.after_end_event(event_id))
            &&& keeps(s.after_register(event_id, addr, face_hash, now))
            &&& s.register_nonce_error(other) is None ==> keeps(
                s.after_register_nonce(other, event_id, nonce_type, ping_index, now),
            )
            &&& s.nonces.contains_key(other) ==> keeps(
                s.after_check_in(event_id, addr, other, face_proof_hash, now),
            )
            &&& keeps(s.after_open_ping(event_id, ping_index, now))
            &&& keeps(s.after_close_ping(event_id))
            &&& s.nonces.contains_key(other) ==> keeps(
                s.after_confirm_ping(event_id, addr@, other),
            )
            &&& keeps(s.after_mark_absent(event_id, absentees, ping_index))
            &&& s.nonces.contains_key(other) ==> keeps(
                s.after_check_out(event_id, addr@, other, now),
            )
            &&& keeps(s.after_mint(cert))
            &&& keeps(s.after_report_fraud(addr, second, event_id, reason, now))
            &&& keeps(s.after_remove_from_blacklist(addr@))
        }),
{
}

/// A check-in without a face match is refused.
pub proof fn lemma_face_mismatch_refused(
    s: ContractView,
    event_id: u64,
    attendee: Seq<char>,
    nonce_hash: [u8; 32],
    now: u64,
)
    ensures
        s.check_in_error(event_id, attendee, nonce_hash, false, now) is Some,
{
}

/// A ping cannot be confirmed once its window has passed.
pub proof fn lemma_expired_ping_refused(
    s: ContractView,
    event_id: u64,
    attendee: Seq<char>,
    nonce_hash: [u8; 32],
    now: u64,
)
    requires
        s.pings.contains_key(event_id),
        now > s.pings[event_id].expires_at,
    ensures
        s.confirm_ping_error(event_id, attendee, nonce_hash, now) is Some,
{
}

/// Only a registered attendee can check in, and only with a check-in nonce
/// issued for that event.
pub proof fn lemma_check_in_requires_registration_and_nonce(
    s: ContractView,
    event_id: u64,
    attendee: Seq<char>,
    nonce_hash: [u8; 32],
    face_match: bool,
    now: u64,
)
    requires
        s.check_in_error(event_id, attendee, nonce_hash, face_match, now) is None,
    ensures
        s.registrations.contains_key((event_id, attendee)),
        s.nonces.contains_key(nonce_hash),
        s.nonces[nonce_hash].event_id == event_id,
        s.nonces[nonce_hash].nonce_type == NONCE_CHECKIN,
        !s.nonces[nonce_hash].used,
        now <= s.nonces[nonce_hash].expires_at,
{
}


/// An attendee checks in to an event at most once, and is issued at most one
/// certificate for it.
pub proof fn lemma_at_most_once(
    s: ContractView,
    event_id: u64,
    attendee: Seq<char>,
    nonce_hash: [u8; 32],
    face_match: bool,
    now: u64,
)
    ensures
        s.attendees.contains_key((event_id, attendee)) && s.attendees[(
            event_id,
            attendee,
        )].checked_in ==> s.check_in_error(event_id, attendee, nonce_hash, face_match, now) is Some,
        s.certificates.contains_key((event_id, attendee)) ==> s.mint_error(event_id, attendee) is Some,
{
}


/// What no single call undoes, no sequence of calls undoes: `keeps_history`,
/// which every entry point ensures from its old to its new storage, composes.
pub proof fn lemma_keeps_history_transitive(a: ContractView, b: ContractView, c: ContractView)
    requires
        a.keeps_history(b),
        b.keeps_history(c),
    ensures
        a.keeps_history(c),
{
    assert forall|k: AttendeeKey| #[trigger] a.attendees.contains_key(k) implies c.attendees.contains_key(k) && (
    a.attendees[k].checked_out ==> c.attendees[k].checked_out && c.attendees[k].checkout_time
        == a.attendees[k].checkout_time && c.attendees[k].eligible == a.attendees[k].eligible) by {
        assert(b.attendees.contains_key(k));
    }
    assert forall|id: u64| #[trigger] a.events.contains_key(id) implies c.events.contains_key(id)
        && ContractView::same_event_but_status(a.events[id], c.events[id]) by {
        assert(b.events.contains_key(id));
    }
    assert forall|h: [u8; 32]| #[trigger]
        a.nonces.contains_key(h) && a.nonces[h].used implies c.nonces.contains_key(h)
        && c.nonces[h].used by {
        assert(b.nonces.contains_key(h));
    }
}

/// Events are numbered in creation order: in consistent storage, the events
/// are exactly 1 to the counter, each stored under its own identifier, and
/// the next creation takes the first number not in use.
pub proof fn lemma_event_numbering(s: ContractView, id: u64)
    requires
        s.consistent(),
        s.event_counter is Some,
        s.event_counter->0 < u64::MAX,
    ensures
        s.events.contains_key(id) <==> 1 <= id <= s.event_counter->0,
        s.events.contains_key(id) ==> s.events[id].event_id == id,
        !s.events.contains_key((s.event_counter->0 + 1) as u64),
        next_event_id(s.event_counter) == s.event_counter->0 + 1,
{
}

/// Two successive creations return consecutive identifiers, right after the
/// last one in use.
pub proof fn lemma_successive_creations(s: ContractView, first: EventData, second: EventData)
    requires
        s.consistent(),
        s.event_counter is Some,
        first.event_id == next_event_id(s.event_counter),
        second.event_id == next_event_id(s.after_create_event(first).event_counter),
    ensures
        first.event_id == s.event_counter->0 + 1,
        second.event_id == first.event_id + 1,
        s.after_create_event(first).after_create_event(second).event_counter == Some(second.event_id),
{
}

/// Check-out eligibility only grows with confirmed pings: of two storages in
/// which the attendee's event holds the same number of pings, the one where
/// the attendee confirmed at least as many is eligible whenever the other is.
pub proof fn lemma_check_out_eligibility_monotonic(
    s1: ContractView,
    s2: ContractView,
    event_id: u64,
    attendee: Seq<char>,
    nonce_hash: [u8; 32],
    now: u64,
)
    requires
        s1.attendees.contains_key((event_id, attendee)),
        s2.attendees.contains_key((event_id, attendee)),
        s1.events[event_id].total_pings == s2.events[event_id].total_pings,
        s1.attendees[(event_id, attendee)].confirmed_pings.len() <= s2.attendees[(
            event_id,
            attendee,
        )].confirmed_pings.len(),
    ensures
        s1.after_check_out(event_id, attendee, nonce_hash, now).attendees[(event_id, attendee)].eligible
            ==> s2.after_check_out(event_id, attendee, nonce_hash, now).attendees[(
            event_id,
            attendee,
        )].eligible,
{
    lemma_more_pings_keep_eligibility(
        s1.attendees[(event_id, attendee)],
        s2.attendees[(event_id, attendee)],
        s1.events[event_id].total_pings,
        now,
    );
}

/// Every stored attendee record is checked in, and an attendee checks out at
/// most once: a second check-out is refused.
pub proof fn lemma_attendee_records_checked_in(
    s: ContractView,
    event_id: u64,
    attendee: Seq<char>,
    nonce_hash: [u8; 32],
    now: u64,
)
    requires
        s.consistent(),
        s.attendees.contains_key((event_id, attendee)),
    ensures
        s.attendees[(event_id, attendee)].checked_in,
        s.attendees[(event_id, attendee)].checked_out ==> s.check_out_error(
            event_id,
            attendee,
            nonce_hash,
            now,
        ) is Some,
{
}

} // verus!
