//! The decisions the contract takes on one call, given the stored records
//! that the call reads. Each decision either refuses the call with the first
//! check that fails, in the contract's order, or gives the records to store.
use crate::crypto::{certificate_id, spec_certificate_id};
use crate::error::ContractError;
use crate::types::{
    clone_entries, AttendeeData, BlacklistRecord, FraudEntry, AttendeeView, CertificateData, EventData, NonceRecord, PingData, RegistrationData,
    FULL_ATTENDANCE_BPS, MIN_ATTENDANCE_BPS, NONCE_CHECKIN, NONCE_CHECKOUT, NONCE_PING, NONCE_TTL_SECS,
    PING_WINDOW_SECS,
};
use soroban_sdk::Env;
use vstd::prelude::*;

verus! {

/// The value behind an optional reference.
pub open spec fn opt_val<T>(o: Option<&T>) -> Option<T> {
    match o {
        Some(r) => Some(*r),
        None => None,
    }
}

/// The view of an optional attendee record.
pub open spec fn opt_attendee(o: Option<&AttendeeData>) -> Option<AttendeeView> {
    match o {
        Some(r) => Some(r@),
        None => None,
    }
}

// ───────────────────────── attendance ratio ─────────────────────────

/// The attendance ratio, in basis points, of an attendee who confirmed
/// `confirmed` pings of an event that holds `total_pings`; full attendance
/// when the event holds no ping.
pub open spec fn ratio_bps(confirmed: nat, total_pings: u32) -> int {
    if total_pings == 0 {
        FULL_ATTENDANCE_BPS as int
    } else {
        (confirmed * FULL_ATTENDANCE_BPS) as int / total_pings as int
    }
}

/// Whether `ratio_bps` of `confirmed` pings out of `total_pings` can be
/// computed in 32 bits: the product `confirmed * FULL_ATTENDANCE_BPS` is only
/// formed when the event holds pings.
pub open spec fn ratio_fits(confirmed: nat, total_pings: u32) -> bool {
    total_pings == 0 || confirmed * FULL_ATTENDANCE_BPS <= u32::MAX
}

/// The attendance ratio in basis points.
pub fn attendance_ratio_bps(confirmed: usize, total_pings: u32) -> (r: u32)
    requires
        ratio_fits(confirmed as nat, total_pings),
    ensures
        r == ratio_bps(confirmed as nat, total_pings),
{
    if total_pings == 0 {
        FULL_ATTENDANCE_BPS
    } else {
        let c: u32 = confirmed as u32;
        (c * FULL_ATTENDANCE_BPS) / total_pings
    }
}

/// Confirming more pings never lowers the attendance ratio.
pub proof fn lemma_ratio_monotonic(a: nat, b: nat, total_pings: u32)
    requires
        a <= b,
    ensures
        ratio_bps(a, total_pings) <= ratio_bps(b, total_pings),
{
    if total_pings != 0 {
        assert(a * FULL_ATTENDANCE_BPS <= b * FULL_ATTENDANCE_BPS) by (nonlinear_arith)
            requires
                a <= b,
        ;
        vstd::arithmetic::div_mod::lemma_div_is_ordered(
            (a * FULL_ATTENDANCE_BPS) as int,
            (b * FULL_ATTENDANCE_BPS) as int,
            total_pings as int,
        );
    }
}

/// Whether `pings` holds `ping_index`.
pub fn contains_ping(pings: &Vec<u32>, ping_index: u32) -> (b: bool)
    ensures
        b == pings@.contains(ping_index),
{
    let mut i: usize = 0;
    while i < pings.len()
        invariant
            i <= pings@.len(),
            forall|j: int| 0 <= j < i ==> pings@[j] != ping_index,
        decreases pings@.len() - i,
    {
        if pings[i] == ping_index {
            assert(pings@[i as int] == ping_index);
            return true;
        }
        i = i + 1;
    }
    false
}

// ───────────────────────── nonces ─────────────────────────

/// The record of a nonce registered at `now`: unused, valid for
/// `NONCE_TTL_SECS` seconds.
pub open spec fn spec_new_nonce(
    nonce_hash: [u8; 32],
    event_id: u64,
    nonce_type: u32,
    ping_index: u32,
    now: u64,
) -> NonceRecord {
    NonceRecord {
        nonce_hash,
        event_id,
        created_at: now,
        expires_at: (now + NONCE_TTL_SECS) as u64,
        used: false,
        nonce_type,
        ping_index,
    }
}

/// Why registering a nonce is refused: it is already stored.
pub open spec fn register_nonce_error(exists: bool) -> Option<ContractError> {
    if exists {
        Some(ContractError::NonceAlreadyUsed)
    } else {
        None
    }
}

/// Registers a nonce, unless one with the same hash is stored.
pub fn decide_register_nonce(
    exists: bool,
    nonce_hash: [u8; 32],
    event_id: u64,
    nonce_type: u32,
    ping_index: u32,
    now: u64,
) -> (r: Result<NonceRecord, ContractError>)
    requires
        !exists ==> now + NONCE_TTL_SECS <= u64::MAX,
    ensures
        match r {
            Ok(n) => register_nonce_error(exists) is None && n == spec_new_nonce(
                nonce_hash,
                event_id,
                nonce_type,
                ping_index,
                now,
            ),
            Err(e) => register_nonce_error(exists) == Some(e),
        },
{
    if exists {
        return Err(ContractError::NonceAlreadyUsed);
    }
    Ok(
        NonceRecord {
            nonce_hash,
            event_id,
            created_at: now,
            expires_at: now + NONCE_TTL_SECS,
            used: false,
            nonce_type,
            ping_index,
        },
    )
}

/// Why consuming a nonce at `now` is refused: it is not stored, it was used,
/// or it expired.
pub open spec fn consume_nonce_error(nonce: Option<NonceRecord>, now: u64) -> Option<ContractError> {
    match nonce {
        None => Some(ContractError::InvalidNonce),
        Some(r) => if r.used {
            Some(ContractError::NonceAlreadyUsed)
        } else if now > r.expires_at {
            Some(ContractError::NonceExpired)
        } else {
            None
        },
    }
}

/// A nonce record marked as used.
pub open spec fn mark_used(r: NonceRecord) -> NonceRecord {
    NonceRecord { used: true, ..r }
}

/// Consumes a nonce: refuses a missing, used or expired one, and otherwise
/// gives the record marked as used.
pub fn consume_nonce(nonce: Option<NonceRecord>, now: u64) -> (r: Result<NonceRecord, ContractError>)
    ensures
        match r {
            Ok(n) => consume_nonce_error(nonce, now) is None && n == mark_used(nonce->0),
            Err(e) => consume_nonce_error(nonce, now) == Some(e),
        },
{
    match nonce {
        None => Err(ContractError::InvalidNonce),
        Some(rec) => {
            if rec.used {
                return Err(ContractError::NonceAlreadyUsed);
            }
            if now > rec.expires_at {
                return Err(ContractError::NonceExpired);
            }
            Ok(NonceRecord { used: true, ..rec })
        },
    }
}

/// Whether a consumable nonce was issued for `event_id` with `nonce_type`.
pub open spec fn nonce_matches(nonce: Option<NonceRecord>, event_id: u64, nonce_type: u32) -> bool {
    nonce->0.event_id == event_id && nonce->0.nonce_type == nonce_type
}

// ───────────────────────── initialization ─────────────────────────

/// Why initializing is refused: an admin is already set.
pub open spec fn initialize_error(has_admin: bool) -> Option<ContractError> {
    if has_admin {
        Some(ContractError::Unauthorized)
    } else {
        None
    }
}

/// Accepts setting the admin only when none is set.
pub fn decide_initialize(has_admin: bool) -> (r: Result<(), ContractError>)
    ensures
        match r {
            Ok(()) => initialize_error(has_admin) is None,
            Err(e) => initialize_error(has_admin) == Some(e),
        },
{
    if has_admin {
        Err(ContractError::Unauthorized)
    } else {
        Ok(())
    }
}

// ───────────────────────── events ─────────────────────────

/// The identifier the next event gets.
pub open spec fn next_event_id(counter: Option<u64>) -> int {
    match counter {
        Some(c) => c + 1,
        None => 1,
    }
}

/// A new event, active and not ended.
pub open spec fn spec_new_event(
    event_id: u64,
    name: String,
    organizer: String,
    start_time: u64,
    end_time: u64,
    location: String,
    total_pings: u32,
) -> EventData {
    EventData {
        event_id,
        name,
        organizer,
        start_time,
        end_time,
        location,
        total_pings,
        active: true,
        ended: false,
    }
}

/// Creates an event under the identifier after `counter`.
pub fn decide_create_event(
    counter: Option<u64>,
    name: String,
    organizer: String,
    start_time: u64,
    end_time: u64,
    location: String,
    total_pings: u32,
) -> (r: (u64, EventData))
    requires
        next_event_id(counter) <= u64::MAX,
    ensures
        r.0 == next_event_id(counter),
        r.1 == spec_new_event(r.0, name, organizer, start_time, end_time, location, total_pings),
{
    let c: u64 = match counter {
        Some(c) => c,
        None => 0,
    };
    let id = c + 1;
    (
        id,
        EventData {
            event_id: id,
            name,
            organizer,
            start_time,
            end_time,
            location,
            total_pings,
            active: true,
            ended: false,
        },
    )
}

/// Why ending an event is refused: it does not exist.
pub open spec fn end_event_error(event: Option<EventData>) -> Option<ContractError> {
    if event is None {
        Some(ContractError::EventNotFound)
    } else {
        None
    }
}

/// An event marked as ended and no longer active.
pub open spec fn spec_ended(e: EventData) -> EventData {
    EventData { active: false, ended: true, ..e }
}

/// Ends an event.
pub fn decide_end_event(event: Option<&EventData>) -> (r: Result<EventData, ContractError>)
    ensures
        match r {
            Ok(e) => end_event_error(opt_val(event)) is None && e == spec_ended(*event->0),
            Err(err) => end_event_error(opt_val(event)) == Some(err),
        },
{
    match event {
        None => Err(ContractError::EventNotFound),
        Some(e) => {
            let mut ended = e.clone();
            ended.active = false;
            ended.ended = true;
            Ok(ended)
        },
    }
}

// ───────────────────────── registration ─────────────────────────

/// Why a registration is refused.
pub open spec fn register_error(
    blacklisted: bool,
    event: Option<EventData>,
    already_registered: bool,
) -> Option<ContractError> {
    if blacklisted {
        Some(ContractError::Blacklisted)
    } else if event is None {
        Some(ContractError::EventNotFound)
    } else if !event->0.active {
        Some(ContractError::EventNotActive)
    } else if already_registered {
        Some(ContractError::AlreadyRegistered)
    } else {
        None
    }
}

/// Registers `attendee` for an active event.
pub fn decide_register(
    blacklisted: bool,
    event: Option<&EventData>,
    already_registered: bool,
    event_id: u64,
    attendee: &String,
    face_hash: [u8; 32],
    now: u64,
) -> (r: Result<RegistrationData, ContractError>)
    ensures
        match r {
            Ok(reg) => register_error(blacklisted, opt_val(event), already_registered) is None
                && reg == (RegistrationData {
                attendee: *attendee,
                event_id,
                registered_at: now,
                face_hash,
            }),
            Err(e) => register_error(blacklisted, opt_val(event), already_registered) == Some(e),
        },
{
    if blacklisted {
        return Err(ContractError::Blacklisted);
    }
    match event {
        None => {
            return Err(ContractError::EventNotFound);
        },
        Some(e) => {
            if !e.active {
                return Err(ContractError::EventNotActive);
            }
        },
    }
    if already_registered {
        return Err(ContractError::AlreadyRegistered);
    }
    Ok(RegistrationData { attendee: attendee.clone(), event_id, registered_at: now, face_hash })
}

// ───────────────────────── check-in ─────────────────────────

/// Why a check-in is refused.
pub open spec fn check_in_error(
    blacklisted: bool,
    registered: bool,
    event: Option<EventData>,
    existing: Option<AttendeeView>,
    nonce: Option<NonceRecord>,
    event_id: u64,
    face_match: bool,
    now: u64,
) -> Option<ContractError> {
    if blacklisted {
        Some(ContractError::Blacklisted)
    } else if !registered {
        Some(ContractError::NotRegistered)
    } else if event is None {
        Some(ContractError::EventNotFound)
    } else if !event->0.active {
        Some(ContractError::EventNotActive)
    } else if existing is Some && existing->0.checked_in {
        Some(ContractError::AlreadyCheckedIn)
    } else if consume_nonce_error(nonce, now) is Some {
        consume_nonce_error(nonce, now)
    } else if !nonce_matches(nonce, event_id, NONCE_CHECKIN) {
        Some(ContractError::InvalidNonce)
    } else if !face_match {
        Some(ContractError::FaceVerificationFailed)
    } else {
        None
    }
}

/// The record of an attendee who just checked in.
pub open spec fn spec_checked_in(
    event_id: u64,
    attendee: String,
    face_proof_hash: [u8; 32],
    now: u64,
) -> AttendeeView {
    AttendeeView {
        attendee,
        event_id,
        checked_in: true,
        checkin_time: now,
        checked_out: false,
        checkout_time: 0,
        checkin_face_proof: face_proof_hash,
        confirmed_pings: Seq::empty(),
        marked_absent: false,
        eligible: false,
    }
}

/// Checks `attendee` in to an event with a check-in nonce and a face match.
/// On success gives the consumed nonce and the new attendee record.
pub fn decide_check_in(
    blacklisted: bool,
    registered: bool,
    event: Option<&EventData>,
    existing: Option<&AttendeeData>,
    nonce: Option<NonceRecord>,
    event_id: u64,
    attendee: &String,
    face_proof_hash: [u8; 32],
    face_match: bool,
    now: u64,
) -> (r: Result<(NonceRecord, AttendeeData), ContractError>)
    ensures
        match r {
            Ok((n, a)) => check_in_error(
                blacklisted,
                registered,
                opt_val(event),
                opt_attendee(existing),
                nonce,
                event_id,
                face_match,
                now,
            ) is None && n == mark_used(nonce->0) && a@ == spec_checked_in(
                event_id,
                *attendee,
                face_proof_hash,
                now,
            ),
            Err(e) => check_in_error(
                blacklisted,
                registered,
                opt_val(event),
                opt_attendee(existing),
                nonce,
                event_id,
                face_match,
                now,
            ) == Some(e),
        },
{
    if blacklisted {
        return Err(ContractError::Blacklisted);
    }
    if !registered {
        return Err(ContractError::NotRegistered);
    }
    match event {
        None => {
            return Err(ContractError::EventNotFound);
        },
        Some(e) => {
            if !e.active {
                return Err(ContractError::EventNotActive);
            }
        },
    }
    match existing {
        Some(a) => {
            if a.checked_in {
                return Err(ContractError::AlreadyCheckedIn);
            }
        },
        None => {},
    }
    let used = match consume_nonce(nonce, now) {
        Ok(n) => n,
        Err(e) => {
            return Err(e);
        },
    };
    if used.event_id != event_id || used.nonce_type != NONCE_CHECKIN {
        return Err(ContractError::InvalidNonce);
    }
    if !face_match {
        return Err(ContractError::FaceVerificationFailed);
    }
    let record = AttendeeData {
        attendee: attendee.clone(),
        event_id,
        checked_in: true,
        checkin_time: now,
        checked_out: false,
        checkout_time: 0,
        checkin_face_proof: face_proof_hash,
        confirmed_pings: Vec::new(),
        marked_absent: false,
        eligible: false,
    };
    assert(record@.confirmed_pings =~= Seq::<u32>::empty());
    Ok((used, record))
}

// ───────────────────────── presence pings ─────────────────────────

/// Why opening a ping is refused.
pub open spec fn open_ping_error(event: Option<EventData>) -> Option<ContractError> {
    if event is None {
        Some(ContractError::EventNotFound)
    } else if !event->0.active {
        Some(ContractError::EventNotActive)
    } else {
        None
    }
}

/// A ping opened at `now`, open for `PING_WINDOW_SECS` seconds.
pub open spec fn spec_new_ping(event_id: u64, ping_index: u32, now: u64) -> PingData {
    PingData {
        event_id,
        ping_index,
        opened_at: now,
        expires_at: (now + PING_WINDOW_SECS) as u64,
        closed: false,
    }
}

/// Opens presence ping `ping_index` of an active event.
pub fn decide_open_ping(event: Option<&EventData>, event_id: u64, ping_index: u32, now: u64) -> (r:
    Result<PingData, ContractError>)
    requires
        open_ping_error(opt_val(event)) is None ==> now + PING_WINDOW_SECS <= u64::MAX,
    ensures
        match r {
            Ok(p) => open_ping_error(opt_val(event)) is None && p == spec_new_ping(
                event_id,
                ping_index,
                now,
            ),
            Err(e) => open_ping_error(opt_val(event)) == Some(e),
        },
{
    match event {
        None => Err(ContractError::EventNotFound),
        Some(e) => {
            if !e.active {
                return Err(ContractError::EventNotActive);
            }
            Ok(
                PingData {
                    event_id,
                    ping_index,
                    opened_at: now,
                    expires_at: now + PING_WINDOW_SECS,
                    closed: false,
                },
            )
        },
    }
}

/// Why closing a ping is refused: no ping was opened for the event.
pub open spec fn close_ping_error(ping: Option<PingData>) -> Option<ContractError> {
    if ping is None {
        Some(ContractError::NoPingActive)
    } else {
        None
    }
}

/// Closes the ping of an event.
pub fn decide_close_ping(ping: Option<PingData>) -> (r: Result<PingData, ContractError>)
    ensures
        match r {
            Ok(p) => close_ping_error(ping) is None && p == (PingData { closed: true, ..ping->0 }),
            Err(e) => close_ping_error(ping) == Some(e),
        },
{
    match ping {
        None => Err(ContractError::NoPingActive),
        Some(p) => Ok(PingData { closed: true, ..p }),
    }
}

/// Why a ping confirmation is refused.
pub open spec fn confirm_ping_error(
    blacklisted: bool,
    attendee: Option<AttendeeView>,
    ping: Option<PingData>,
    nonce: Option<NonceRecord>,
    event_id: u64,
    now: u64,
) -> Option<ContractError> {
    if blacklisted {
        Some(ContractError::Blacklisted)
    } else if attendee is None || !attendee->0.checked_in {
        Some(ContractError::NotCheckedIn)
    } else if ping is None || ping->0.closed {
        Some(ContractError::NoPingActive)
    } else if now > ping->0.expires_at {
        Some(ContractError::PingWindowExpired)
    } else if attendee->0.confirmed_pings.contains(ping->0.ping_index) {
        Some(ContractError::AlreadyConfirmedPing)
    } else if consume_nonce_error(nonce, now) is Some {
        consume_nonce_error(nonce, now)
    } else if !nonce_matches(nonce, event_id, NONCE_PING) || nonce->0.ping_index
        != ping->0.ping_index {
        Some(ContractError::InvalidNonce)
    } else {
        None
    }
}

/// Confirms the open ping for a checked-in attendee with a ping nonce.
/// On success gives the consumed nonce and the attendee record with the
/// ping's index appended.
pub fn decide_confirm_ping(
    blacklisted: bool,
    attendee: Option<&AttendeeData>,
    ping: Option<PingData>,
    nonce: Option<NonceRecord>,
    event_id: u64,
    now: u64,
) -> (r: Result<(NonceRecord, AttendeeData), ContractError>)
    ensures
        match r {
            Ok((n, a)) => confirm_ping_error(
                blacklisted,
                opt_attendee(attendee),
                ping,
                nonce,
                event_id,
                now,
            ) is None && n == mark_used(nonce->0) && a@ == (AttendeeView {
                confirmed_pings: attendee->0@.confirmed_pings.push(ping->0.ping_index),
                ..attendee->0@
            }),
            Err(e) => confirm_ping_error(
                blacklisted,
                opt_attendee(attendee),
                ping,
                nonce,
                event_id,
                now,
            ) == Some(e),
        },
{
    if blacklisted {
        return Err(ContractError::Blacklisted);
    }
    let att = match attendee {
        None => {
            return Err(ContractError::NotCheckedIn);
        },
        Some(a) => a,
    };
    if !att.checked_in {
        return Err(ContractError::NotCheckedIn);
    }
    let p = match ping {
        None => {
            return Err(ContractError::NoPingActive);
        },
        Some(p) => p,
    };
    if p.closed {
        return Err(ContractError::NoPingActive);
    }
    if now > p.expires_at {
        return Err(ContractError::PingWindowExpired);
    }
    if contains_ping(&att.confirmed_pings, p.ping_index) {
        return Err(ContractError::AlreadyConfirmedPing);
    }
    let used = match consume_nonce(nonce, now) {
        Ok(n) => n,
        Err(e) => {
            return Err(e);
        },
    };
    if used.event_id != event_id || used.nonce_type != NONCE_PING || used.ping_index
        != p.ping_index {
        return Err(ContractError::InvalidNonce);
    }
    let mut updated = att.clone();
    updated.confirmed_pings.push(p.ping_index);
    Ok((used, updated))
}

/// The record of an attendee marked absent for a missed ping: unchanged when
/// the attendee confirmed `ping_index`, and otherwise marked absent.
pub open spec fn spec_mark_absent(a: AttendeeView, ping_index: u32) -> AttendeeView {
    if a.confirmed_pings.contains(ping_index) {
        a
    } else {
        AttendeeView { marked_absent: true, ..a }
    }
}

/// Marks an attendee absent for ping `ping_index` unless it confirmed it;
/// gives the record to store, or `None` when nothing changes.
pub fn decide_mark_absent(attendee: &AttendeeData, ping_index: u32) -> (r: Option<AttendeeData>)
    ensures
        match r {
            Some(a) => !attendee@.confirmed_pings.contains(ping_index) && a@ == spec_mark_absent(
                attendee@,
                ping_index,
            ),
            None => attendee@.confirmed_pings.contains(ping_index),
        },
{
    if contains_ping(&attendee.confirmed_pings, ping_index) {
        None
    } else {
        let mut a = attendee.clone();
        a.marked_absent = true;
        Some(a)
    }
}

// ───────────────────────── check-out ─────────────────────────

/// Why a check-out is refused.
pub open spec fn check_out_error(
    blacklisted: bool,
    attendee: Option<AttendeeView>,
    nonce: Option<NonceRecord>,
    event: Option<EventData>,
    event_id: u64,
    now: u64,
) -> Option<ContractError> {
    if blacklisted {
        Some(ContractError::Blacklisted)
    } else if attendee is None || !attendee->0.checked_in {
        Some(ContractError::NotCheckedIn)
    } else if attendee->0.checked_out {
        Some(ContractError::AlreadyCheckedOut)
    } else if consume_nonce_error(nonce, now) is Some {
        consume_nonce_error(nonce, now)
    } else if !nonce_matches(nonce, event_id, NONCE_CHECKOUT) {
        Some(ContractError::InvalidNonce)
    } else if event is None {
        Some(ContractError::EventNotFound)
    } else {
        None
    }
}

/// The record of an attendee who checked out at `now` from an event that
/// holds `total_pings` pings: eligible when the attendance ratio reaches
/// `MIN_ATTENDANCE_BPS`.
pub open spec fn spec_checked_out(a: AttendeeView, total_pings: u32, now: u64) -> AttendeeView {
    AttendeeView {
        checked_out: true,
        checkout_time: now,
        eligible: ratio_bps(a.confirmed_pings.len(), total_pings) >= MIN_ATTENDANCE_BPS,
        ..a
    }
}

/// The refusal of a check-out, if any: the first check that fails.
pub fn check_out_refusal(
    blacklisted: bool,
    attendee: Option<&AttendeeData>,
    nonce: Option<NonceRecord>,
    event: Option<&EventData>,
    event_id: u64,
    now: u64,
) -> (r: Option<ContractError>)
    ensures
        r == check_out_error(blacklisted, opt_attendee(attendee), nonce, opt_val(event), event_id, now),
{
    if blacklisted {
        return Some(ContractError::Blacklisted);
    }
    let att = match attendee {
        None => {
            return Some(ContractError::NotCheckedIn);
        },
        Some(a) => a,
    };
    if !att.checked_in {
        return Some(ContractError::NotCheckedIn);
    }
    if att.checked_out {
        return Some(ContractError::AlreadyCheckedOut);
    }
    let used = match consume_nonce(nonce, now) {
        Ok(n) => n,
        Err(e) => {
            return Some(e);
        },
    };
    if used.event_id != event_id || used.nonce_type != NONCE_CHECKOUT {
        return Some(ContractError::InvalidNonce);
    }
    if event.is_none() {
        return Some(ContractError::EventNotFound);
    }
    None
}

/// Checks a checked-in attendee out with a check-out nonce, and decides its
/// eligibility. On success gives the consumed nonce and the new record.
pub fn decide_check_out(
    blacklisted: bool,
    attendee: Option<&AttendeeData>,
    nonce: Option<NonceRecord>,
    event: Option<&EventData>,
    event_id: u64,
    now: u64,
) -> (r: Result<(NonceRecord, AttendeeData), ContractError>)
    requires
        check_out_error(blacklisted, opt_attendee(attendee), nonce, opt_val(event), event_id, now)
            is None ==> ratio_fits(attendee->0@.confirmed_pings.len(), event->0.total_pings),
    ensures
        match r {
            Ok((n, a)) => check_out_error(
                blacklisted,
                opt_attendee(attendee),
                nonce,
                opt_val(event),
                event_id,
                now,
            ) is None && n == mark_used(nonce->0) && a@ == spec_checked_out(
                attendee->0@,
                event->0.total_pings,
                now,
            ),
            Err(e) => check_out_error(
                blacklisted,
                opt_attendee(attendee),
                nonce,
                opt_val(event),
                event_id,
                now,
            ) == Some(e),
        },
{
    match check_out_refusal(blacklisted, attendee, nonce, event, event_id, now) {
        Some(e) => {
            return Err(e);
        },
        None => {},
    }
    let att = attendee.unwrap();
    let ev = event.unwrap();
    let n = nonce.unwrap();
    let ratio = attendance_ratio_bps(att.confirmed_pings.len(), ev.total_pings);
    let mut updated = att.clone();
    updated.checked_out = true;
    updated.checkout_time = now;
    updated.eligible = ratio >= MIN_ATTENDANCE_BPS;
    Ok((NonceRecord { used: true, ..n }, updated))
}

/// Confirming more pings never turns an eligible check-out into an
/// ineligible one: of two records that differ only in how many pings they
/// confirmed, the one with more is eligible whenever the other is.
pub proof fn lemma_more_pings_keep_eligibility(
    a1: AttendeeView,
    a2: AttendeeView,
    total_pings: u32,
    now: u64,
)
    requires
        a1.confirmed_pings.len() <= a2.confirmed_pings.len(),
    ensures
        spec_checked_out(a1, total_pings, now).eligible ==> spec_checked_out(a2, total_pings, now).eligible,
{
    lemma_ratio_monotonic(a1.confirmed_pings.len(), a2.confirmed_pings.len(), total_pings);
}

// ───────────────────────── certificates ─────────────────────────

/// Why minting a certificate is refused.
pub open spec fn mint_error(
    blacklisted: bool,
    attendee: Option<AttendeeView>,
    already_minted: bool,
    event: Option<EventData>,
) -> Option<ContractError> {
    if blacklisted {
        Some(ContractError::Blacklisted)
    } else if attendee is None {
        Some(ContractError::NotCheckedIn)
    } else if !attendee->0.eligible {
        Some(ContractError::NotEligible)
    } else if already_minted {
        Some(ContractError::CertificateAlreadyMinted)
    } else if event is None {
        Some(ContractError::EventNotFound)
    } else {
        None
    }
}

/// The certificate with identifier `cert_id` issued at `now` to `attendee`
/// for the event `event`, whose attendee record is `a`: it records the
/// attendance ratio and the event's name, and is not revoked.
pub open spec fn spec_issued_certificate(
    cert_id: [u8; 32],
    event_id: u64,
    attendee: String,
    a: AttendeeView,
    event: EventData,
    now: u64,
) -> CertificateData {
    CertificateData {
        cert_id,
        event_id,
        attendee,
        issued_at: now,
        attendance_ratio: ratio_bps(a.confirmed_pings.len(), event.total_pings) as u32,
        event_name: event.name,
        revoked: false,
    }
}

/// Whether `cert` is the certificate issued at `now` to `attendee` for the
/// event `event`, whose attendee record is `a`, under the identifier that the
/// host hashes from the event id and the issue time.
pub open spec fn is_issued_certificate(
    cert: CertificateData,
    event_id: u64,
    attendee: String,
    a: AttendeeView,
    event: EventData,
    now: u64,
) -> bool {
    &&& cert.cert_id@ == spec_certificate_id(event_id, now)
    &&& cert == spec_issued_certificate(cert.cert_id, event_id, attendee, a, event, now)
    &&& cert.attendance_ratio == ratio_bps(a.confirmed_pings.len(), event.total_pings)
}

/// The refusal of a certificate, if any: the first check that fails.
pub fn mint_refusal(
    blacklisted: bool,
    attendee_record: Option<&AttendeeData>,
    already_minted: bool,
    event: Option<&EventData>,
) -> (r: Option<ContractError>)
    ensures
        r == mint_error(blacklisted, opt_attendee(attendee_record), already_minted, opt_val(event)),
{
    if blacklisted {
        return Some(ContractError::Blacklisted);
    }
    let att = match attendee_record {
        None => {
            return Some(ContractError::NotCheckedIn);
        },
        Some(a) => a,
    };
    if !att.eligible {
        return Some(ContractError::NotEligible);
    }
    if already_minted {
        return Some(ContractError::CertificateAlreadyMinted);
    }
    if event.is_none() {
        return Some(ContractError::EventNotFound);
    }
    None
}

/// The certificate with identifier `cert_id` issued at `now` to `attendee`
/// for `event`, given the attendee's record.
pub fn issue_certificate(
    cert_id: [u8; 32],
    event_id: u64,
    attendee: &String,
    attendee_record: &AttendeeData,
    event: &EventData,
    now: u64,
) -> (c: CertificateData)
    requires
        ratio_fits(attendee_record@.confirmed_pings.len(), event.total_pings),
    ensures
        c == spec_issued_certificate(cert_id, event_id, *attendee, attendee_record@, *event, now),
        c.attendance_ratio == ratio_bps(attendee_record@.confirmed_pings.len(), event.total_pings),
{
    let ratio = attendance_ratio_bps(attendee_record.confirmed_pings.len(), event.total_pings);
    CertificateData {
        cert_id,
        event_id,
        attendee: attendee.clone(),
        issued_at: now,
        attendance_ratio: ratio,
        event_name: event.name.clone(),
        revoked: false,
    }
}

/// Issues the certificate of an eligible attendee, with an identifier
/// computed by the host from the event id and the issue time.
pub fn decide_mint_certificate(
    env: &Env,
    blacklisted: bool,
    attendee_record: Option<&AttendeeData>,
    already_minted: bool,
    event: Option<&EventData>,
    event_id: u64,
    attendee: &String,
    now: u64,
) -> (r: Result<CertificateData, ContractError>)
    requires
        mint_error(blacklisted, opt_attendee(attendee_record), already_minted, opt_val(event))
            is None ==> ratio_fits(
            attendee_record->0@.confirmed_pings.len(),
            event->0.total_pings,
        ),
    ensures
        match r {
            Ok(c) => mint_error(
                blacklisted,
                opt_attendee(attendee_record),
                already_minted,
                opt_val(event),
            ) is None && is_issued_certificate(
                c,
                event_id,
                *attendee,
                attendee_record->0@,
                *event->0,
                now,
            ),
            Err(e) => mint_error(
                blacklisted,
                opt_attendee(attendee_record),
                already_minted,
                opt_val(event),
            ) == Some(e),
        },
{
    match mint_refusal(blacklisted, attendee_record, already_minted, event) {
        Some(e) => {
            return Err(e);
        },
        None => {},
    }
    let cert_id = certificate_id(env, event_id, now);
    Ok(issue_certificate(cert_id, event_id, attendee, attendee_record.unwrap(), event.unwrap(), now))
}

// ───────────────────────── fraud ─────────────────────────

/// A certificate marked as revoked.
pub open spec fn spec_revoked(c: CertificateData) -> CertificateData {
    CertificateData { revoked: true, ..c }
}

/// The blacklist record of `addr`, reported at `now` for `reason`.
pub open spec fn spec_blacklisted(addr: String, reason: String, now: u64) -> BlacklistRecord {
    BlacklistRecord { address: addr, blacklisted_at: now, reason }
}

/// A fraud report at event `event_id`.
pub open spec fn spec_fraud_entry(event_id: u64, reason: String, now: u64) -> FraudEntry {
    FraudEntry { event_id, detected_at: now, reason }
}

/// The records that reporting `addr` for fraud at event `event_id` stores:
/// its blacklist record, its fraud log with the report appended to
/// `prior_reports`, and its certificate for the event revoked, if it has one.
pub fn decide_report_fraud(
    addr: &String,
    event_id: u64,
    reason: &String,
    now: u64,
    prior_reports: &Vec<FraudEntry>,
    certificate: Option<&CertificateData>,
) -> (r: (BlacklistRecord, Vec<FraudEntry>, Option<CertificateData>))
    ensures
        r.0 == spec_blacklisted(*addr, *reason, now),
        r.1@ == prior_reports@.push(spec_fraud_entry(event_id, *reason, now)),
        match certificate {
            Some(c) => r.2 == Some(spec_revoked(*c)),
            None => r.2 is None,
        },
{
    let record = BlacklistRecord { address: addr.clone(), blacklisted_at: now, reason: reason.clone() };
    let mut reports = clone_entries(prior_reports);
    reports.push(FraudEntry { event_id, detected_at: now, reason: reason.clone() });
    let revoked = match certificate {
        Some(c) => Some(revoke_certificate(c)),
        None => None,
    };
    (record, reports, revoked)
}

/// Revokes a certificate.
pub fn revoke_certificate(cert: &CertificateData) -> (r: CertificateData)
    ensures
        r == spec_revoked(*cert),
{
    let mut r = cert.clone();
    r.revoked = true;
    r
}

} // verus!
