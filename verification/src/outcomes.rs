//! What each entry point of the contract accepts and what it stores, stated
//! field by field over the storage maps: when a call is accepted, and which
//! records it leaves behind.
use crate::contract::{AttendeeKey, ContractView};
use crate::crypto::{be_bytes, sha256_digest};
use crate::error::ContractError;
use crate::rules::{next_event_id, spec_new_event};
use crate::types::{
    BlacklistRecord, CertificateData, FraudEntry, NonceRecord, FULL_ATTENDANCE_BPS, NONCE_CHECKIN,
    NONCE_CHECKOUT, NONCE_PING,
};
use vstd::prelude::*;

verus! {

/// Whether nonce `h` can be consumed at `now` for event `event_id` as a nonce
/// of type `nonce_type`: it is stored, unused, not past its expiry, and was
/// issued for that event and type.
pub open spec fn nonce_usable(
    s: ContractView,
    h: [u8; 32],
    event_id: u64,
    nonce_type: u32,
    now: u64,
) -> bool {
    &&& s.nonces.contains_key(h)
    &&& !s.nonces[h].used
    &&& now <= s.nonces[h].expires_at
    &&& s.nonces[h].event_id == event_id
    &&& s.nonces[h].nonce_type == nonce_type
}

/// A check-in is accepted exactly when the attendee is not blacklisted, is
/// registered for the event, the event exists and is active, the attendee is
/// not already checked in, the check-in nonce is usable for the event, and the
/// face matches.
pub proof fn lemma_check_in_accepted_iff(
    s: ContractView,
    event_id: u64,
    attendee: Seq<char>,
    h: [u8; 32],
    face_match: bool,
    now: u64,
)
    ensures
        s.check_in_error(event_id, attendee, h, face_match, now) is None <==> {
            &&& !s.blacklist.contains_key(attendee)
            &&& s.registrations.contains_key((event_id, attendee))
            &&& s.events.contains_key(event_id)
            &&& s.events[event_id].active
            &&& !(s.attendees.contains_key((event_id, attendee)) && s.attendees[(
                event_id,
                attendee,
            )].checked_in)
            &&& nonce_usable(s, h, event_id, NONCE_CHECKIN, now)
            &&& face_match
        },
{
}

/// A check-in of a registered, not blacklisted attendee to an event that
/// exists but is no longer active is refused with `EventNotActive`.
pub proof fn lemma_check_in_inactive_event(
    s: ContractView,
    event_id: u64,
    attendee: Seq<char>,
    h: [u8; 32],
    face_match: bool,
    now: u64,
)
    requires
        !s.blacklist.contains_key(attendee),
        s.registrations.contains_key((event_id, attendee)),
        s.events.contains_key(event_id),
        !s.events[event_id].active,
    ensures
        s.check_in_error(event_id, attendee, h, face_match, now) == Some(
            ContractError::EventNotActive,
        ),
{
}

/// An accepted check-in stores a fresh record for the attendee (checked in at
/// `now` with the face proof, nothing confirmed, not checked out, not absent,
/// not eligible), marks the nonce used, and changes nothing else.
pub proof fn lemma_check_in_effect(
    s: ContractView,
    event_id: u64,
    attendee: String,
    h: [u8; 32],
    face_proof_hash: [u8; 32],
    now: u64,
)
    ensures
        ({
            let t = s.after_check_in(event_id, attendee, h, face_proof_hash, now);
            let k = (event_id, attendee@);
            let r = t.attendees[k];
            &&& t.attendees.contains_key(k)
            &&& r.attendee == attendee
            &&& r.event_id == event_id
            &&& r.checked_in
            &&& r.checkin_time == now
            &&& !r.checked_out
            &&& r.checkout_time == 0
            &&& r.checkin_face_proof == face_proof_hash
            &&& r.confirmed_pings.len() == 0
            &&& !r.marked_absent
            &&& !r.eligible
            &&& forall|k2: AttendeeKey| k2 != k ==> #[trigger] t.attendees.get(k2) == s.attendees.get(k2)
            &&& t.nonces.contains_key(h)
            &&& t.nonces[h] == (NonceRecord { used: true, ..s.nonces[h] })
            &&& forall|h2: [u8; 32]| h2 != h ==> #[trigger] t.nonces.get(h2) == s.nonces.get(h2)
            &&& t.events == s.events
            &&& t.registrations == s.registrations
            &&& t.pings == s.pings
            &&& t.blacklist == s.blacklist
            &&& t.certificates == s.certificates
            &&& t.fraud_records == s.fraud_records
            &&& t.admin == s.admin
            &&& t.event_counter == s.event_counter
        }),
{
}

/// A ping confirmation is accepted exactly when the attendee is not
/// blacklisted and is checked in (whether or not marked absent), the event's
/// ping exists, is open and not past its window, the attendee has not yet
/// confirmed that ping, and the ping nonce is usable for the event and names
/// that ping.
pub proof fn lemma_confirm_ping_accepted_iff(
    s: ContractView,
    event_id: u64,
    attendee: Seq<char>,
    h: [u8; 32],
    now: u64,
)
    ensures
        s.confirm_ping_error(event_id, attendee, h, now) is None <==> {
            &&& !s.blacklist.contains_key(attendee)
            &&& s.attendees.contains_key((event_id, attendee))
            &&& s.attendees[(event_id, attendee)].checked_in
            &&& s.pings.contains_key(event_id)
            &&& !s.pings[event_id].closed
            &&& now <= s.pings[event_id].expires_at
            &&& !s.attendees[(event_id, attendee)].confirmed_pings.contains(
                s.pings[event_id].ping_index,
            )
            &&& nonce_usable(s, h, event_id, NONCE_PING, now)
            &&& s.nonces[h].ping_index == s.pings[event_id].ping_index
        },
{
}

/// An accepted ping confirmation appends the open ping's index to the
/// attendee's confirmed pings, keeps every other field of the record, marks
/// the nonce used, and changes nothing else.
pub proof fn lemma_confirm_ping_effect(
    s: ContractView,
    event_id: u64,
    attendee: Seq<char>,
    h: [u8; 32],
)
    ensures
        ({
            let t = s.after_confirm_ping(event_id, attendee, h);
            let k = (event_id, attendee);
            let a = s.attendees[k];
            let r = t.attendees[k];
            &&& t.attendees.contains_key(k)
            &&& r.confirmed_pings == a.confirmed_pings.push(s.pings[event_id].ping_index)
            &&& r.attendee == a.attendee
            &&& r.event_id == a.event_id
            &&& r.checked_in == a.checked_in
            &&& r.checkin_time == a.checkin_time
            &&& r.checked_out == a.checked_out
            &&& r.checkout_time == a.checkout_time
            &&& r.checkin_face_proof == a.checkin_face_proof
            &&& r.marked_absent == a.marked_absent
            &&& r.eligible == a.eligible
            &&& forall|k2: AttendeeKey| k2 != k ==> #[trigger] t.attendees.get(k2) == s.attendees.get(k2)
            &&& t.nonces.contains_key(h)
            &&& t.nonces[h] == (NonceRecord { used: true, ..s.nonces[h] })
            &&& forall|h2: [u8; 32]| h2 != h ==> #[trigger] t.nonces.get(h2) == s.nonces.get(h2)
            &&& t.events == s.events
            &&& t.registrations == s.registrations
            &&& t.pings == s.pings
            &&& t.blacklist == s.blacklist
            &&& t.certificates == s.certificates
            &&& t.fraud_records == s.fraud_records
            &&& t.admin == s.admin
            &&& t.event_counter == s.event_counter
        }),
{
}

/// A check-out is accepted exactly when the attendee is not blacklisted, is
/// checked in and not yet checked out, the check-out nonce is usable for the
/// event, and the event exists.
pub proof fn lemma_check_out_accepted_iff(
    s: ContractView,
    event_id: u64,
    attendee: Seq<char>,
    h: [u8; 32],
    now: u64,
)
    ensures
        s.check_out_error(event_id, attendee, h, now) is None <==> {
            &&& !s.blacklist.contains_key(attendee)
            &&& s.attendees.contains_key((event_id, attendee))
            &&& s.attendees[(event_id, attendee)].checked_in
            &&& !s.attendees[(event_id, attendee)].checked_out
            &&& nonce_usable(s, h, event_id, NONCE_CHECKOUT, now)
            &&& s.events.contains_key(event_id)
        },
{
}

/// An accepted check-out marks the attendee checked out at `now` and makes it
/// eligible exactly when the event holds no ping or the attendee confirmed at
/// least 90 % of them (`confirmed * 10000 / total >= 9000`); it keeps the
/// confirmed pings and every other field, marks the nonce used, and changes
/// nothing else.
pub proof fn lemma_check_out_effect(
    s: ContractView,
    event_id: u64,
    attendee: Seq<char>,
    h: [u8; 32],
    now: u64,
)
    ensures
        ({
            let t = s.after_check_out(event_id, attendee, h, now);
            let k = (event_id, attendee);
            let a = s.attendees[k];
            let r = t.attendees[k];
            let total = s.events[event_id].total_pings;
            &&& t.attendees.contains_key(k)
            &&& r.checked_out
            &&& r.checkout_time == now
            &&& r.eligible <==> (total == 0 || (a.confirmed_pings.len() * 10000) as int / (
            total as int) >= 9000)
            &&& r.confirmed_pings == a.confirmed_pings
            &&& r.attendee == a.attendee
            &&& r.event_id == a.event_id
            &&& r.checked_in == a.checked_in
            &&& r.checkin_time == a.checkin_time
            &&& r.checkin_face_proof == a.checkin_face_proof
            &&& r.marked_absent == a.marked_absent
            &&& forall|k2: AttendeeKey| k2 != k ==> #[trigger] t.attendees.get(k2) == s.attendees.get(k2)
            &&& t.nonces.contains_key(h)
            &&& t.nonces[h] == (NonceRecord { used: true, ..s.nonces[h] })
            &&& forall|h2: [u8; 32]| h2 != h ==> #[trigger] t.nonces.get(h2) == s.nonces.get(h2)
            &&& t.events == s.events
            &&& t.registrations == s.registrations
            &&& t.pings == s.pings
            &&& t.blacklist == s.blacklist
            &&& t.certificates == s.certificates
            &&& t.fraud_records == s.fraud_records
            &&& t.admin == s.admin
            &&& t.event_counter == s.event_counter
        }),
{
}

/// Minting is accepted exactly when the attendee is not blacklisted, has an
/// eligible attendance record for the event, holds no certificate for it, and
/// the event exists, whether or not the event is still active.
pub proof fn lemma_mint_accepted_iff(s: ContractView, event_id: u64, attendee: Seq<char>)
    ensures
        s.mint_error(event_id, attendee) is None <==> {
            &&& !s.blacklist.contains_key(attendee)
            &&& s.attendees.contains_key((event_id, attendee))
            &&& s.attendees[(event_id, attendee)].eligible
            &&& !s.certificates.contains_key((event_id, attendee))
            &&& s.events.contains_key(event_id)
        },
{
}

/// The certificate minted at `now` is for the event and the attendee, issued
/// at `now`, not revoked, named after the event, records the attendance ratio
/// (full attendance for an event without pings, otherwise
/// `confirmed * 10000 / total`), and carries as identifier the SHA-256 digest
/// of the event id and `now` in big-endian bytes; minting stores it and
/// changes nothing else.
pub proof fn lemma_mint_effect(
    s: ContractView,
    event_id: u64,
    attendee: String,
    now: u64,
    cert: CertificateData,
)
    requires
        s.issues(cert, event_id, attendee, now),
    ensures
        ({
            let k = (event_id, attendee@);
            let a = s.attendees[k];
            let total = s.events[event_id].total_pings;
            let t = s.after_mint(cert);
            &&& cert.event_id == event_id
            &&& cert.attendee == attendee
            &&& cert.issued_at == now
            &&& !cert.revoked
            &&& cert.event_name == s.events[event_id].name
            &&& cert.attendance_ratio == (if total == 0 {
                FULL_ATTENDANCE_BPS as int
            } else {
                (a.confirmed_pings.len() * 10000) as int / (total as int)
            })
            &&& cert.cert_id@ == sha256_digest(be_bytes(event_id) + be_bytes(now))
            &&& t.certificates == s.certificates.insert(k, cert)
            &&& t.attendees == s.attendees
            &&& t.events == s.events
            &&& t.nonces == s.nonces
            &&& t.registrations == s.registrations
            &&& t.pings == s.pings
            &&& t.blacklist == s.blacklist
            &&& t.fraud_records == s.fraud_records
            &&& t.admin == s.admin
            &&& t.event_counter == s.event_counter
        }),
{
}

/// Marking absent for ping `p` of event `event_id` sets `marked_absent` on
/// exactly the records of that event whose attendee appears anywhere in the
/// list and did not confirm `p`; every other field and record stays.
pub proof fn lemma_mark_absent_effect(
    s: ContractView,
    event_id: u64,
    attendees: Seq<String>,
    p: u32,
    k: AttendeeKey,
)
    ensures
        ({
            let t = s.after_mark_absent(event_id, attendees, p);
            let a = s.attendees[k];
            let r = t.attendees[k];
            &&& t.attendees.contains_key(k) == s.attendees.contains_key(k)
            &&& s.attendees.contains_key(k) ==> {
                &&& r.marked_absent == (a.marked_absent || (k.0 == event_id && (exists|i: int|
                    0 <= i < attendees.len() && (#[trigger] attendees[i])@ == k.1)
                    && !a.confirmed_pings.contains(p)))
                &&& r.attendee == a.attendee
                &&& r.event_id == a.event_id
                &&& r.checked_in == a.checked_in
                &&& r.checkin_time == a.checkin_time
                &&& r.checked_out == a.checked_out
                &&& r.checkout_time == a.checkout_time
                &&& r.checkin_face_proof == a.checkin_face_proof
                &&& r.confirmed_pings == a.confirmed_pings
                &&& r.eligible == a.eligible
            }
            &&& t.events == s.events
            &&& t.nonces == s.nonces
            &&& t.registrations == s.registrations
            &&& t.pings == s.pings
            &&& t.blacklist == s.blacklist
            &&& t.certificates == s.certificates
            &&& t.fraud_records == s.fraud_records
            &&& t.admin == s.admin
            &&& t.event_counter == s.event_counter
        }),
{
}


/// Initializing is accepted exactly when no admin is set; it sets the admin
/// and starts the event counter at zero, and changes nothing else.
pub proof fn lemma_initialize_outcome(s: ContractView, admin: String)
    ensures
        s.initialize_error() is None <==> s.admin is None,
        s.initialize_error() is Some ==> s.initialize_error() == Some(ContractError::Unauthorized),
        ({
            let t = s.after_initialize(admin);
            &&& t.admin == Some(admin)
            &&& t.event_counter == Some(0u64)
            &&& t.events == s.events
            &&& t.attendees == s.attendees
            &&& t.nonces == s.nonces
            &&& t.registrations == s.registrations
            &&& t.pings == s.pings
            &&& t.blacklist == s.blacklist
            &&& t.certificates == s.certificates
            &&& t.fraud_records == s.fraud_records
        }),
{
}

/// Creating an event takes the identifier one above the counter (1 when
/// there is none yet), stores the event under it, active and not ended, with
/// what was given, makes it the counter, and changes nothing else.
pub proof fn lemma_create_event_outcome(
    s: ContractView,
    name: String,
    organizer: String,
    start_time: u64,
    end_time: u64,
    location: String,
    total_pings: u32,
)
    ensures
        next_event_id(s.event_counter) == (match s.event_counter {
            Some(c) => c + 1,
            None => 1int,
        }),
        ({
            let id = next_event_id(s.event_counter) as u64;
            let t = s.after_create_event(
                spec_new_event(id, name, organizer, start_time, end_time, location, total_pings),
            );
            let e = t.events[id];
            &&& t.events.contains_key(id)
            &&& e.event_id == id
            &&& e.name == name
            &&& e.organizer == organizer
            &&& e.start_time == start_time
            &&& e.end_time == end_time
            &&& e.location == location
            &&& e.total_pings == total_pings
            &&& e.active
            &&& !e.ended
            &&& t.event_counter == Some(id)
            &&& forall|i: u64| i != id ==> #[trigger] t.events.get(i) == s.events.get(i)
            &&& t.attendees == s.attendees
            &&& t.nonces == s.nonces
            &&& t.registrations == s.registrations
            &&& t.pings == s.pings
            &&& t.blacklist == s.blacklist
            &&& t.certificates == s.certificates
            &&& t.fraud_records == s.fraud_records
            &&& t.admin == s.admin
        }),
{
}

/// Ending an event is accepted exactly when it exists (refused with
/// `EventNotFound` otherwise); it clears `active`, sets `ended`, keeps every
/// other field, and changes nothing else.
pub proof fn lemma_end_event_outcome(s: ContractView, event_id: u64)
    ensures
        s.end_event_error(event_id) is None <==> s.events.contains_key(event_id),
        !s.events.contains_key(event_id) ==> s.end_event_error(event_id) == Some(
            ContractError::EventNotFound,
        ),
        ({
            let t = s.after_end_event(event_id);
            let e = s.events[event_id];
            let r = t.events[event_id];
            &&& t.events.contains_key(event_id)
            &&& !r.active
            &&& r.ended
            &&& r.event_id == e.event_id
            &&& r.name == e.name
            &&& r.organizer == e.organizer
            &&& r.start_time == e.start_time
            &&& r.end_time == e.end_time
            &&& r.location == e.location
            &&& r.total_pings == e.total_pings
            &&& forall|i: u64| i != event_id ==> #[trigger] t.events.get(i) == s.events.get(i)
            &&& t.attendees == s.attendees
            &&& t.nonces == s.nonces
            &&& t.registrations == s.registrations
            &&& t.pings == s.pings
            &&& t.certificates == s.certificates
            &&& t.event_counter == s.event_counter
        }),
{
}

/// A registration is accepted exactly when the attendee is not blacklisted,
/// the event exists and is active, and the attendee is not yet registered;
/// each refusal names the first of these that fails. It stores the
/// registration at `now` with the face hash, and changes nothing else.
pub proof fn lemma_register_outcome(
    s: ContractView,
    event_id: u64,
    attendee: String,
    face_hash: [u8; 32],
    now: u64,
)
    ensures
        ({
            let a = attendee@;
            let err = s.register_error(event_id, a);
            &&& err is None <==> (!s.blacklist.contains_key(a) && s.events.contains_key(event_id)
                && s.events[event_id].active && !s.registrations.contains_key((event_id, a)))
            &&& s.blacklist.contains_key(a) ==> err == Some(ContractError::Blacklisted)
            &&& !s.blacklist.contains_key(a) && !s.events.contains_key(event_id) ==> err == Some(
                ContractError::EventNotFound,
            )
            &&& !s.blacklist.contains_key(a) && s.events.contains_key(event_id)
                && !s.events[event_id].active ==> err == Some(ContractError::EventNotActive)
            &&& !s.blacklist.contains_key(a) && s.events.contains_key(event_id)
                && s.events[event_id].active && s.registrations.contains_key((event_id, a)) ==> err
                == Some(ContractError::AlreadyRegistered)
        }),
        ({
            let t = s.after_register(event_id, attendee, face_hash, now);
            let r = t.registrations[(event_id, attendee@)];
            &&& t.registrations.contains_key((event_id, attendee@))
            &&& r.attendee == attendee
            &&& r.event_id == event_id
            &&& r.registered_at == now
            &&& r.face_hash == face_hash
            &&& forall|k2: AttendeeKey| k2 != (event_id, attendee@) ==> #[trigger] t.registrations.get(
                k2,
            ) == s.registrations.get(k2)
            &&& t.events == s.events
            &&& t.attendees == s.attendees
            &&& t.nonces == s.nonces
            &&& t.pings == s.pings
            &&& t.blacklist == s.blacklist
            &&& t.certificates == s.certificates
        }),
{
}

/// Registering a nonce is accepted exactly when no nonce with that hash is
/// stored (refused with `NonceAlreadyUsed` otherwise); it stores an unused
/// nonce created at `now` that expires 15 seconds later, and changes nothing
/// else.
pub proof fn lemma_register_nonce_outcome(
    s: ContractView,
    h: [u8; 32],
    event_id: u64,
    nonce_type: u32,
    ping_index: u32,
    now: u64,
)
    requires
        now + 15 <= u64::MAX,
    ensures
        s.register_nonce_error(h) is None <==> !s.nonces.contains_key(h),
        s.nonces.contains_key(h) ==> s.register_nonce_error(h) == Some(
            ContractError::NonceAlreadyUsed,
        ),
        ({
            let t = s.after_register_nonce(h, event_id, nonce_type, ping_index, now);
            let n = t.nonces[h];
            &&& t.nonces.contains_key(h)
            &&& n.nonce_hash == h
            &&& n.event_id == event_id
            &&& n.created_at == now
            &&& n.expires_at == now + 15
            &&& !n.used
            &&& n.nonce_type == nonce_type
            &&& n.ping_index == ping_index
            &&& forall|h2: [u8; 32]| h2 != h ==> #[trigger] t.nonces.get(h2) == s.nonces.get(h2)
            &&& t.events == s.events
            &&& t.attendees == s.attendees
            &&& t.registrations == s.registrations
            &&& t.pings == s.pings
            &&& t.certificates == s.certificates
        }),
{
}

/// Opening a ping is accepted exactly when the event exists and is active; it
/// stores the event's ping as open from `now` for 240 seconds, and changes
/// nothing else.
pub proof fn lemma_open_ping_outcome(s: ContractView, event_id: u64, ping_index: u32, now: u64)
    requires
        now + 240 <= u64::MAX,
    ensures
        s.open_ping_error(event_id) is None <==> (s.events.contains_key(event_id)
            && s.events[event_id].active),
        !s.events.contains_key(event_id) ==> s.open_ping_error(event_id) == Some(
            ContractError::EventNotFound,
        ),
        s.events.contains_key(event_id) && !s.events[event_id].active ==> s.open_ping_error(
            event_id,
        ) == Some(ContractError::EventNotActive),
        ({
            let t = s.after_open_ping(event_id, ping_index, now);
            let p = t.pings[event_id];
            &&& t.pings.contains_key(event_id)
            &&& p.event_id == event_id
            &&& p.ping_index == ping_index
            &&& p.opened_at == now
            &&& p.expires_at == now + 240
            &&& !p.closed
            &&& forall|i: u64| i != event_id ==> #[trigger] t.pings.get(i) == s.pings.get(i)
            &&& t.events == s.events
            &&& t.attendees == s.attendees
            &&& t.nonces == s.nonces
        }),
{
}

/// Closing a ping is accepted exactly when the event has one (refused with
/// `NoPingActive` otherwise); it marks it closed and keeps its other fields.
pub proof fn lemma_close_ping_outcome(s: ContractView, event_id: u64)
    ensures
        s.close_ping_error(event_id) is None <==> s.pings.contains_key(event_id),
        !s.pings.contains_key(event_id) ==> s.close_ping_error(event_id) == Some(
            ContractError::NoPingActive,
        ),
        ({
            let t = s.after_close_ping(event_id);
            let p = s.pings[event_id];
            let r = t.pings[event_id];
            &&& t.pings.contains_key(event_id)
            &&& r.closed
            &&& r.event_id == p.event_id
            &&& r.ping_index == p.ping_index
            &&& r.opened_at == p.opened_at
            &&& r.expires_at == p.expires_at
            &&& forall|i: u64| i != event_id ==> #[trigger] t.pings.get(i) == s.pings.get(i)
            &&& t.events == s.events
            &&& t.attendees == s.attendees
            &&& t.nonces == s.nonces
        }),
{
}

/// Which refusal a check-in gets: the first failing check, in this order:
/// blacklisted, not registered, event missing, event inactive, already
/// checked in, nonce missing, nonce used, nonce expired, nonce for another
/// event or of another type, face mismatch.
pub proof fn lemma_check_in_refusals(
    s: ContractView,
    event_id: u64,
    a: Seq<char>,
    h: [u8; 32],
    face_match: bool,
    now: u64,
)
    ensures
        ({
            let err = s.check_in_error(event_id, a, h, face_match, now);
            let k = (event_id, a);
            let pre_nonce = !s.blacklist.contains_key(a) && s.registrations.contains_key(k)
                && s.events.contains_key(event_id) && s.events[event_id].active && !(
            s.attendees.contains_key(k) && s.attendees[k].checked_in);
            &&& s.blacklist.contains_key(a) ==> err == Some(ContractError::Blacklisted)
            &&& !s.blacklist.contains_key(a) && !s.registrations.contains_key(k) ==> err == Some(
                ContractError::NotRegistered,
            )
            &&& !s.blacklist.contains_key(a) && s.registrations.contains_key(k)
                && !s.events.contains_key(event_id) ==> err == Some(ContractError::EventNotFound)
            &&& !s.blacklist.contains_key(a) && s.registrations.contains_key(k)
                && s.events.contains_key(event_id) && !s.events[event_id].active ==> err == Some(
                ContractError::EventNotActive,
            )
            &&& !s.blacklist.contains_key(a) && s.registrations.contains_key(k)
                && s.events.contains_key(event_id) && s.events[event_id].active
                && s.attendees.contains_key(k) && s.attendees[k].checked_in ==> err == Some(
                ContractError::AlreadyCheckedIn,
            )
            &&& pre_nonce && !s.nonces.contains_key(h) ==> err == Some(ContractError::InvalidNonce)
            &&& pre_nonce && s.nonces.contains_key(h) && s.nonces[h].used ==> err == Some(
                ContractError::NonceAlreadyUsed,
            )
            &&& pre_nonce && s.nonces.contains_key(h) && !s.nonces[h].used && now
                > s.nonces[h].expires_at ==> err == Some(ContractError::NonceExpired)
            &&& pre_nonce && s.nonces.contains_key(h) && !s.nonces[h].used && now
                <= s.nonces[h].expires_at && (s.nonces[h].event_id != event_id
                || s.nonces[h].nonce_type != NONCE_CHECKIN) ==> err == Some(
                ContractError::InvalidNonce,
            )
            &&& pre_nonce && nonce_usable(s, h, event_id, NONCE_CHECKIN, now) && !face_match ==> err
                == Some(ContractError::FaceVerificationFailed)
        }),
{
}

/// Which refusal a ping confirmation gets: the first failing check, in this
/// order: blacklisted, not checked in, no open ping, window passed, ping
/// already confirmed, nonce missing, used, expired, or not for this event,
/// type and ping.
pub proof fn lemma_confirm_ping_refusals(
    s: ContractView,
    event_id: u64,
    a: Seq<char>,
    h: [u8; 32],
    now: u64,
)
    ensures
        ({
            let err = s.confirm_ping_error(event_id, a, h, now);
            let k = (event_id, a);
            let checked_in = s.attendees.contains_key(k) && s.attendees[k].checked_in;
            let open = s.pings.contains_key(event_id) && !s.pings[event_id].closed;
            let pre_nonce = !s.blacklist.contains_key(a) && checked_in && open && now
                <= s.pings[event_id].expires_at && !s.attendees[k].confirmed_pings.contains(
                s.pings[event_id].ping_index,
            );
            &&& s.blacklist.contains_key(a) ==> err == Some(ContractError::Blacklisted)
            &&& !s.blacklist.contains_key(a) && !checked_in ==> err == Some(
                ContractError::NotCheckedIn,
            )
            &&& !s.blacklist.contains_key(a) && checked_in && !open ==> err == Some(
                ContractError::NoPingActive,
            )
            &&& !s.blacklist.contains_key(a) && checked_in && open && now
                > s.pings[event_id].expires_at ==> err == Some(ContractError::PingWindowExpired)
            &&& !s.blacklist.contains_key(a) && checked_in && open && now
                <= s.pings[event_id].expires_at && s.attendees[k].confirmed_pings.contains(
                s.pings[event_id].ping_index,
            ) ==> err == Some(ContractError::AlreadyConfirmedPing)
            &&& pre_nonce && !s.nonces.contains_key(h) ==> err == Some(ContractError::InvalidNonce)
            &&& pre_nonce && s.nonces.contains_key(h) && s.nonces[h].used ==> err == Some(
                ContractError::NonceAlreadyUsed,
            )
            &&& pre_nonce && s.nonces.contains_key(h) && !s.nonces[h].used && now
                > s.nonces[h].expires_at ==> err == Some(ContractError::NonceExpired)
            &&& pre_nonce && s.nonces.contains_key(h) && !s.nonces[h].used && now
                <= s.nonces[h].expires_at && (s.nonces[h].event_id != event_id
                || s.nonces[h].nonce_type != NONCE_PING || s.nonces[h].ping_index
                != s.pings[event_id].ping_index) ==> err == Some(ContractError::InvalidNonce)
        }),
{
}

/// Which refusal a check-out gets: the first failing check, in this order:
/// blacklisted, not checked in, already checked out, nonce missing, used,
/// expired, or not for this event and type, event missing.
pub proof fn lemma_check_out_refusals(
    s: ContractView,
    event_id: u64,
    a: Seq<char>,
    h: [u8; 32],
    now: u64,
)
    ensures
        ({
            let err = s.check_out_error(event_id, a, h, now);
            let k = (event_id, a);
            let checked_in = s.attendees.contains_key(k) && s.attendees[k].checked_in;
            let pre_nonce = !s.blacklist.contains_key(a) && checked_in
                && !s.attendees[k].checked_out;
            &&& s.blacklist.contains_key(a) ==> err == Some(ContractError::Blacklisted)
            &&& !s.blacklist.contains_key(a) && !checked_in ==> err == Some(
                ContractError::NotCheckedIn,
            )
            &&& !s.blacklist.contains_key(a) && checked_in && s.attendees[k].checked_out ==> err
                == Some(ContractError::AlreadyCheckedOut)
            &&& pre_nonce && !s.nonces.contains_key(h) ==> err == Some(ContractError::InvalidNonce)
            &&& pre_nonce && s.nonces.contains_key(h) && s.nonces[h].used ==> err == Some(
                ContractError::NonceAlreadyUsed,
            )
            &&& pre_nonce && s.nonces.contains_key(h) && !s.nonces[h].used && now
                > s.nonces[h].expires_at ==> err == Some(ContractError::NonceExpired)
            &&& pre_nonce && s.nonces.contains_key(h) && !s.nonces[h].used && now
                <= s.nonces[h].expires_at && (s.nonces[h].event_id != event_id
                || s.nonces[h].nonce_type != NONCE_CHECKOUT) ==> err == Some(
                ContractError::InvalidNonce,
            )
            &&& pre_nonce && nonce_usable(s, h, event_id, NONCE_CHECKOUT, now)
                && !s.events.contains_key(event_id) ==> err == Some(ContractError::EventNotFound)
        }),
{
}

/// Which refusal minting gets: the first failing check, in this order:
/// blacklisted, no attendance record, not eligible, already minted, event
/// missing.
pub proof fn lemma_mint_refusals(s: ContractView, event_id: u64, a: Seq<char>)
    ensures
        ({
            let err = s.mint_error(event_id, a);
            let k = (event_id, a);
            &&& s.blacklist.contains_key(a) ==> err == Some(ContractError::Blacklisted)
            &&& !s.blacklist.contains_key(a) && !s.attendees.contains_key(k) ==> err == Some(
                ContractError::NotCheckedIn,
            )
            &&& !s.blacklist.contains_key(a) && s.attendees.contains_key(k)
                && !s.attendees[k].eligible ==> err == Some(ContractError::NotEligible)
            &&& !s.blacklist.contains_key(a) && s.attendees.contains_key(k)
                && s.attendees[k].eligible && s.certificates.contains_key(k) ==> err == Some(
                ContractError::CertificateAlreadyMinted,
            )
            &&& !s.blacklist.contains_key(a) && s.attendees.contains_key(k)
                && s.attendees[k].eligible && !s.certificates.contains_key(k)
                && !s.events.contains_key(event_id) ==> err == Some(ContractError::EventNotFound)
        }),
{
}

/// Reporting `x` for fraud at event `event_id`: `x` is blacklisted with a
/// record of `now` and the reason, the report is appended to `x`'s fraud log
/// (which starts empty), `x`'s certificate for the event, if any, is revoked
/// with its other fields kept, and nothing else changes.
pub proof fn lemma_report_one_outcome(
    s: ContractView,
    x: String,
    event_id: u64,
    reason: String,
    now: u64,
)
    ensures
        ({
            let t = s.after_report_one(x, event_id, reason, now);
            let k = (event_id, x@);
            let prior = if s.fraud_records.contains_key(x@) {
                s.fraud_records[x@].entries
            } else {
                Seq::<FraudEntry>::empty()
            };
            &&& t.blacklist.contains_key(x@)
            &&& t.blacklist[x@] == (BlacklistRecord { address: x, blacklisted_at: now, reason })
            &&& forall|b: Seq<char>| b != x@ ==> #[trigger] t.blacklist.get(b) == s.blacklist.get(b)
            &&& t.fraud_records.contains_key(x@)
            &&& t.fraud_records[x@].address == x
            &&& t.fraud_records[x@].entries == prior.push(
                FraudEntry { event_id, detected_at: now, reason },
            )
            &&& forall|b: Seq<char>| b != x@ ==> #[trigger] t.fraud_records.get(b)
                == s.fraud_records.get(b)
            &&& t.certificates.contains_key(k) == s.certificates.contains_key(k)
            &&& s.certificates.contains_key(k) ==> t.certificates[k] == (CertificateData {
                revoked: true,
                ..s.certificates[k]
            })
            &&& forall|k2: AttendeeKey| k2 != k ==> #[trigger] t.certificates.get(k2)
                == s.certificates.get(k2)
            &&& t.events == s.events
            &&& t.attendees == s.attendees
            &&& t.nonces == s.nonces
            &&& t.registrations == s.registrations
            &&& t.pings == s.pings
            &&& t.admin == s.admin
            &&& t.event_counter == s.event_counter
        }),
{
}

/// A fraud report processes the impersonator, then the requester.
pub proof fn lemma_report_fraud_order(
    s: ContractView,
    impersonator: String,
    requester: String,
    event_id: u64,
    reason: String,
    now: u64,
)
    ensures
        s.after_report_fraud(impersonator, requester, event_id, reason, now) == s.after_report_one(
            impersonator,
            event_id,
            reason,
            now,
        ).after_report_one(requester, event_id, reason, now),
{
}

/// Removing `x` from the blacklist removes exactly its blacklist record.
pub proof fn lemma_remove_from_blacklist_outcome(s: ContractView, x: Seq<char>)
    ensures
        ({
            let t = s.after_remove_from_blacklist(x);
            &&& !t.blacklist.contains_key(x)
            &&& forall|b: Seq<char>| b != x ==> #[trigger] t.blacklist.get(b) == s.blacklist.get(b)
            &&& t.fraud_records == s.fraud_records
            &&& t.certificates == s.certificates
            &&& t.events == s.events
            &&& t.attendees == s.attendees
            &&& t.nonces == s.nonces
            &&& t.registrations == s.registrations
            &&& t.pings == s.pings
        }),
{
}

} // verus!
