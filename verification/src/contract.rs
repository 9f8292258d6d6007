//! The certification contract: its whole storage as plain values, and each
//! entry point as a verified transition of that storage.
//!
//! A refused call changes nothing, as a failed contract invocation rolls back
//! every write it made. Authorization of the caller (the admin for admin
//! entry points, the attendee otherwise) is checked by the host before a call
//! reaches these transitions.
use crate::error::ContractError;
use crate::rules::{
    check_in_error, check_out_error, close_ping_error, confirm_ping_error, decide_check_in,
    decide_check_out, decide_close_ping, decide_confirm_ping, decide_create_event, decide_end_event,
    decide_initialize, decide_mark_absent, decide_mint_certificate, decide_open_ping,
    decide_register, decide_register_nonce, decide_report_fraud, end_event_error, initialize_error,
    is_issued_certificate, lemma_ratio_monotonic, mark_used, mint_error, next_event_id,
    open_ping_error, ratio_bps, ratio_fits, register_error, register_nonce_error, spec_blacklisted,
    spec_checked_in, spec_checked_out, spec_ended, spec_fraud_entry, spec_mark_absent,
    spec_new_event, spec_new_nonce, spec_new_ping, spec_revoked,
};
use crate::table::Table;
use crate::types::{
    clone_entries, AttendeeData, AttendeeView, BlacklistRecord, CertificateData, EventData,
    FraudEntry, FraudLog, FraudLogView, NonceRecord, PingData, RegistrationData, MIN_ATTENDANCE_BPS,
    NONCE_TTL_SECS, PING_WINDOW_SECS,
};
use soroban_sdk::Env;
use vstd::prelude::*;

verus! {

/// The key of a per-attendee record: the event and the attendee's address.
pub type AttendeeKey = (u64, Seq<char>);

/// The contents of contract storage. Nonce records stay here once written;
/// on Soroban they live in temporary storage, which the network evicts after
/// their time-to-live, after which a nonce reads as never registered.
pub struct ContractView {
    pub admin: Option<String>,
    pub event_counter: Option<u64>,
    pub events: Map<u64, EventData>,
    pub registrations: Map<AttendeeKey, RegistrationData>,
    pub attendees: Map<AttendeeKey, AttendeeView>,
    pub nonces: Map<[u8; 32], NonceRecord>,
    pub pings: Map<u64, PingData>,
    pub blacklist: Map<Seq<char>, BlacklistRecord>,
    pub certificates: Map<AttendeeKey, CertificateData>,
    pub fraud_records: Map<Seq<char>, FraudLogView>,
}

/// Whether the address `a` is one of `list`.
pub open spec fn listed(list: Seq<String>, a: Seq<char>) -> bool {
    exists|i: int| 0 <= i < list.len() && (#[trigger] list[i])@ == a
}

impl ContractView {
    /// Storage before the contract is initialized.
    pub open spec fn empty() -> ContractView {
        ContractView {
            admin: None,
            event_counter: None,
            events: Map::empty(),
            registrations: Map::empty(),
            attendees: Map::empty(),
            nonces: Map::empty(),
            pings: Map::empty(),
            blacklist: Map::empty(),
            certificates: Map::empty(),
            fraud_records: Map::empty(),
        }
    }

    /// What every reachable storage satisfies:
    /// - the event counter exists once the contract is initialized;
    /// - the events are exactly those numbered 1 to the counter, each stored
    ///   under its own identifier;
    /// - every attendee record is checked in;
    /// - an eligible attendee checked out, its event exists and its
    ///   attendance ratio for that event reaches the minimum;
    /// - every certificate records a ratio of at least the minimum.
    pub open spec fn consistent(self) -> bool {
        &&& self.admin is None ==> self.event_counter is None
        &&& forall|id: u64| #[trigger]
            self.events.contains_key(id) ==> self.event_counter is Some && 1 <= id
                <= self.event_counter->0 && self.events[id].event_id == id
        &&& self.event_counter is Some ==> forall|id: u64|
            1 <= id <= self.event_counter->0 ==> #[trigger] self.events.contains_key(id)
        &&& forall|k: AttendeeKey| #[trigger]
            self.attendees.contains_key(k) ==> self.attendees[k].checked_in
        &&& forall|k: AttendeeKey| #[trigger]
            self.attendees.contains_key(k) && self.attendees[k].eligible ==> self.attendees[k].checked_in
                && self.attendees[k].checked_out && self.events.contains_key(k.0) && ratio_bps(
                self.attendees[k].confirmed_pings.len(),
                self.events[k.0].total_pings,
            ) >= MIN_ATTENDANCE_BPS
        &&& forall|k: AttendeeKey| #[trigger]
            self.certificates.contains_key(k) ==> self.certificates[k].attendance_ratio
                >= MIN_ATTENDANCE_BPS
    }

    /// Whether `b` is event `a` with at most its status changed: everything
    /// given at creation stays.
    pub open spec fn same_event_but_status(a: EventData, b: EventData) -> bool {
        &&& b.event_id == a.event_id
        &&& b.name == a.name
        &&& b.organizer == a.organizer
        &&& b.start_time == a.start_time
        &&& b.end_time == a.end_time
        &&& b.location == a.location
        &&& b.total_pings == a.total_pings
    }

    /// What no call undoes, from storage `self` to storage `t`: events stay,
    /// with what was given at their creation; attendee records stay, and a
    /// checked-out record keeps its check-out time and its eligibility; a
    /// used nonce stays stored and used; the event counter never goes down.
    pub open spec fn keeps_history(self, t: ContractView) -> bool {
        &&& forall|id: u64| #[trigger]
            self.events.contains_key(id) ==> t.events.contains_key(id)
                && ContractView::same_event_but_status(self.events[id], t.events[id])
        &&& forall|k: AttendeeKey| #[trigger]
            self.attendees.contains_key(k) ==> t.attendees.contains_key(k) && (
            self.attendees[k].checked_out ==> t.attendees[k].checked_out
                && t.attendees[k].checkout_time == self.attendees[k].checkout_time
                && t.attendees[k].eligible == self.attendees[k].eligible)
        &&& forall|h: [u8; 32]| #[trigger]
            self.nonces.contains_key(h) && self.nonces[h].used ==> t.nonces.contains_key(h)
                && t.nonces[h].used
        &&& self.event_counter is Some ==> t.event_counter is Some && self.event_counter->0
            <= t.event_counter->0
    }

    /// Whether `a` is blacklisted.
    pub open spec fn is_blacklisted(self, a: Seq<char>) -> bool {
        self.blacklist.contains_key(a)
    }

    /// Why initializing is refused.
    pub open spec fn initialize_error(self) -> Option<ContractError> {
        initialize_error(self.admin is Some)
    }

    /// Storage after `admin` is set as the admin; the event counter starts at zero.
    pub open spec fn after_initialize(self, admin: String) -> ContractView {
        ContractView { admin: Some(admin), event_counter: Some(0), ..self }
    }

    /// Storage after `event` is created under its identifier, which becomes the counter.
    pub open spec fn after_create_event(self, event: EventData) -> ContractView {
        ContractView {
            events: self.events.insert(event.event_id, event),
            event_counter: Some(event.event_id),
            ..self
        }
    }

    /// Why ending event `event_id` is refused.
    pub open spec fn end_event_error(self, event_id: u64) -> Option<ContractError> {
        end_event_error(self.events.get(event_id))
    }

    /// Storage after event `event_id` is ended.
    pub open spec fn after_end_event(self, event_id: u64) -> ContractView {
        ContractView {
            events: self.events.insert(event_id, spec_ended(self.events[event_id])),
            ..self
        }
    }

    /// Why registering `attendee` for event `event_id` is refused.
    pub open spec fn register_error(self, event_id: u64, attendee: Seq<char>) -> Option<
        ContractError,
    > {
        register_error(
            self.is_blacklisted(attendee),
            self.events.get(event_id),
            self.registrations.contains_key((event_id, attendee)),
        )
    }

    /// Storage after `attendee` registered for event `event_id` at `now`.
    pub open spec fn after_register(
        self,
        event_id: u64,
        attendee: String,
        face_hash: [u8; 32],
        now: u64,
    ) -> ContractView {
        ContractView {
            registrations: self.registrations.insert(
                (event_id, attendee@),
                RegistrationData { attendee, event_id, registered_at: now, face_hash },
            ),
            ..self
        }
    }

    /// Why registering nonce `nonce_hash` is refused.
    pub open spec fn register_nonce_error(self, nonce_hash: [u8; 32]) -> Option<ContractError> {
        register_nonce_error(self.nonces.contains_key(nonce_hash))
    }

    /// Storage after a nonce is registered at `now`.
    pub open spec fn after_register_nonce(
        self,
        nonce_hash: [u8; 32],
        event_id: u64,
        nonce_type: u32,
        ping_index: u32,
        now: u64,
    ) -> ContractView {
        ContractView {
            nonces: self.nonces.insert(
                nonce_hash,
                spec_new_nonce(nonce_hash, event_id, nonce_type, ping_index, now),
            ),
            ..self
        }
    }

    /// The nonce `nonce_hash` marked as used.
    pub open spec fn use_nonce(self, nonce_hash: [u8; 32]) -> Map<[u8; 32], NonceRecord> {
        self.nonces.insert(nonce_hash, mark_used(self.nonces[nonce_hash]))
    }

    /// Why a check-in is refused.
    pub open spec fn check_in_error(
        self,
        event_id: u64,
        attendee: Seq<char>,
        nonce_hash: [u8; 32],
        face_match: bool,
        now: u64,
    ) -> Option<ContractError> {
        check_in_error(
            self.is_blacklisted(attendee),
            self.registrations.contains_key((event_id, attendee)),
            self.events.get(event_id),
            self.attendees.get((event_id, attendee)),
            self.nonces.get(nonce_hash),
            event_id,
            face_match,
            now,
        )
    }

    /// Storage after a check-in: the nonce is used and the attendee's record is fresh.
    pub open spec fn after_check_in(
        self,
        event_id: u64,
        attendee: String,
        nonce_hash: [u8; 32],
        face_proof_hash: [u8; 32],
        now: u64,
    ) -> ContractView {
        ContractView {
            nonces: self.use_nonce(nonce_hash),
            attendees: self.attendees.insert(
                (event_id, attendee@),
                spec_checked_in(event_id, attendee, face_proof_hash, now),
            ),
            ..self
        }
    }

    /// Why opening a ping for event `event_id` is refused.
    pub open spec fn open_ping_error(self, event_id: u64) -> Option<ContractError> {
        open_ping_error(self.events.get(event_id))
    }

    /// Storage after ping `ping_index` is opened for event `event_id` at `now`.
    pub open spec fn after_open_ping(self, event_id: u64, ping_index: u32, now: u64) -> ContractView {
        ContractView {
            pings: self.pings.insert(event_id, spec_new_ping(event_id, ping_index, now)),
            ..self
        }
    }

    /// Why closing the ping of event `event_id` is refused.
    pub open spec fn close_ping_error(self, event_id: u64) -> Option<ContractError> {
        close_ping_error(self.pings.get(event_id))
    }

    /// Storage after the ping of event `event_id` is closed.
    pub open spec fn after_close_ping(self, event_id: u64) -> ContractView {
        ContractView {
            pings: self.pings.insert(event_id, PingData { closed: true, ..self.pings[event_id] }),
            ..self
        }
    }

    /// Why a ping confirmation is refused.
    pub open spec fn confirm_ping_error(
        self,
        event_id: u64,
        attendee: Seq<char>,
        nonce_hash: [u8; 32],
        now: u64,
    ) -> Option<ContractError> {
        confirm_ping_error(
            self.is_blacklisted(attendee),
            self.attendees.get((event_id, attendee)),
            self.pings.get(event_id),
            self.nonces.get(nonce_hash),
            event_id,
            now,
        )
    }

    /// Storage after a ping confirmation: the nonce is used and the ping's index is
    /// appended to the attendee's confirmed pings.
    pub open spec fn after_confirm_ping(
        self,
        event_id: u64,
        attendee: Seq<char>,
        nonce_hash: [u8; 32],
    ) -> ContractView {
        let a = self.attendees[(event_id, attendee)];
        ContractView {
            nonces: self.use_nonce(nonce_hash),
            attendees: self.attendees.insert(
                (event_id, attendee),
                AttendeeView {
                    confirmed_pings: a.confirmed_pings.push(self.pings[event_id].ping_index),
                    ..a
                },
            ),
            ..self
        }
    }

    /// Storage after each listed attendee of event `event_id` that did not confirm
    /// ping `ping_index` is marked absent.
    pub open spec fn after_mark_absent(
        self,
        event_id: u64,
        attendees: Seq<String>,
        ping_index: u32,
    ) -> ContractView {
        ContractView {
            attendees: Map::new(
                |k: AttendeeKey| self.attendees.contains_key(k),
                |k: AttendeeKey|
                    if k.0 == event_id && listed(attendees, k.1) {
                        spec_mark_absent(self.attendees[k], ping_index)
                    } else {
                        self.attendees[k]
                    },
            ),
            ..self
        }
    }

    /// Why a check-out is refused.
    pub open spec fn check_out_error(
        self,
        event_id: u64,
        attendee: Seq<char>,
        nonce_hash: [u8; 32],
        now: u64,
    ) -> Option<ContractError> {
        check_out_error(
            self.is_blacklisted(attendee),
            self.attendees.get((event_id, attendee)),
            self.nonces.get(nonce_hash),
            self.events.get(event_id),
            event_id,
            now,
        )
    }

    /// Storage after a check-out: the nonce is used and the attendee is checked out,
    /// eligible when its attendance ratio reaches the minimum.
    pub open spec fn after_check_out(
        self,
        event_id: u64,
        attendee: Seq<char>,
        nonce_hash: [u8; 32],
        now: u64,
    ) -> ContractView {
        ContractView {
            nonces: self.use_nonce(nonce_hash),
            attendees: self.attendees.insert(
                (event_id, attendee),
                spec_checked_out(
                    self.attendees[(event_id, attendee)],
                    self.events[event_id].total_pings,
                    now,
                ),
            ),
            ..self
        }
    }

    /// Why minting a certificate is refused.
    pub open spec fn mint_error(self, event_id: u64, attendee: Seq<char>) -> Option<ContractError> {
        mint_error(
            self.is_blacklisted(attendee),
            self.attendees.get((event_id, attendee)),
            self.certificates.contains_key((event_id, attendee)),
            self.events.get(event_id),
        )
    }

    /// Whether `cert` is the certificate that minting issues at `now`.
    pub open spec fn issues(
        self,
        cert: CertificateData,
        event_id: u64,
        attendee: String,
        now: u64,
    ) -> bool {
        is_issued_certificate(
            cert,
            event_id,
            attendee,
            self.attendees[(event_id, attendee@)],
            self.events[event_id],
            now,
        )
    }

    /// Storage after `cert` is stored.
    pub open spec fn after_mint(self, cert: CertificateData) -> ContractView {
        ContractView {
            certificates: self.certificates.insert((cert.event_id, cert.attendee@), cert),
            ..self
        }
    }

    /// The fraud reports against `a`, oldest first.
    pub open spec fn fraud_entries(self, a: Seq<char>) -> Seq<FraudEntry> {
        if self.fraud_records.contains_key(a) {
            self.fraud_records[a].entries
        } else {
            Seq::empty()
        }
    }

    /// Storage after `addr` is reported for fraud at event `event_id`: it is
    /// blacklisted, the report is appended to its fraud log, and its
    /// certificate for the event, if any, is revoked.
    pub open spec fn after_report_one(
        self,
        addr: String,
        event_id: u64,
        reason: String,
        now: u64,
    ) -> ContractView {
        ContractView {
            blacklist: self.blacklist.insert(addr@, spec_blacklisted(addr, reason, now)),
            fraud_records: self.fraud_records.insert(
                addr@,
                FraudLogView {
                    address: addr,
                    entries: self.fraud_entries(addr@).push(spec_fraud_entry(event_id, reason, now)),
                },
            ),
            certificates: if self.certificates.contains_key((event_id, addr@)) {
                self.certificates.insert(
                    (event_id, addr@),
                    spec_revoked(self.certificates[(event_id, addr@)]),
                )
            } else {
                self.certificates
            },
            ..self
        }
    }

    /// Storage after the impersonator, then the requester, are reported for fraud.
    pub open spec fn after_report_fraud(
        self,
        impersonator: String,
        requester: String,
        event_id: u64,
        reason: String,
        now: u64,
    ) -> ContractView {
        self.after_report_one(impersonator, event_id, reason, now).after_report_one(
            requester,
            event_id,
            reason,
            now,
        )
    }

    /// Storage after `addr` is removed from the blacklist.
    pub open spec fn after_remove_from_blacklist(self, addr: Seq<char>) -> ContractView {
        ContractView { blacklist: self.blacklist.remove(addr), ..self }
    }
}

/// The contract's storage.
pub struct CertificationContract {
    admin: Option<String>,
    event_counter: Option<u64>,
    events: Table<EventData>,
    registrations: Table<RegistrationData>,
    attendees: Table<AttendeeData>,
    nonces: Table<NonceRecord>,
    pings: Table<PingData>,
    blacklist: Table<BlacklistRecord>,
    certificates: Table<CertificateData>,
    fraud_records: Table<FraudLog>,
}

impl View for CertificationContract {
    type V = ContractView;

    closed spec fn view(&self) -> ContractView {
        ContractView {
            admin: self.admin,
            event_counter: self.event_counter,
            events: self.events.contents(),
            registrations: self.registrations.contents(),
            attendees: self.attendees.contents(),
            nonces: self.nonces.contents(),
            pings: self.pings.contents(),
            blacklist: self.blacklist.contents(),
            certificates: self.certificates.contents(),
            fraud_records: self.fraud_records.contents(),
        }
    }
}

impl CertificationContract {
    /// Every table holds at most one row per key, and the storage is
    /// consistent.
    pub closed spec fn wf(&self) -> bool {
        &&& self.events.wf()
        &&& self.registrations.wf()
        &&& self.attendees.wf()
        &&& self.nonces.wf()
        &&& self.pings.wf()
        &&& self.blacklist.wf()
        &&& self.certificates.wf()
        &&& self.fraud_records.wf()
        &&& self@.consistent()
    }

    /// A well-formed contract's storage is consistent.
    pub proof fn lemma_wf_consistent(&self)
        requires
            self.wf(),
        ensures
            self@.consistent(),
    {
    }

    /// A freshly deployed contract: empty storage.
    pub fn new() -> (c: Self)
        ensures
            c.wf(),
            c@ == ContractView::empty(),
    {
        CertificationContract {
            admin: None,
            event_counter: None,
            events: Table::new(),
            registrations: Table::new(),
            attendees: Table::new(),
            nonces: Table::new(),
            pings: Table::new(),
            blacklist: Table::new(),
            certificates: Table::new(),
            fraud_records: Table::new(),
        }
    }

    /// Sets the admin, once; a second call is refused with `Unauthorized`.
    pub fn initialize(&mut self, admin: String) -> (r: Result<(), ContractError>)
        requires
            old(self).wf(),
        ensures
            final(self).wf(),
            old(self)@.keeps_history(final(self)@),
            match r {
                Ok(()) => old(self)@.initialize_error() is None && final(self)@ == old(
                    self,
                )@.after_initialize(admin),
                Err(e) => old(self)@.initialize_error() == Some(e) && final(self)@ == old(self)@,
            },
    {
        match decide_initialize(self.admin.is_some()) {
            Err(e) => {
                return Err(e);
            },
            Ok(()) => {},
        }
        self.admin = Some(admin);
        self.event_counter = Some(0);
        Ok(())
    }
}


impl CertificationContract {
    /// Creates an event under the next identifier, active and not ended, and
    /// returns that identifier.
    pub fn create_event(
        &mut self,
        name: String,
        organizer: String,
        start_time: u64,
        end_time: u64,
        location: String,
        total_pings: u32,
    ) -> (id: u64)
        requires
            old(self).wf(),
            old(self)@.admin is Some,
            next_event_id(old(self)@.event_counter) <= u64::MAX,
        ensures
            final(self).wf(),
            old(self)@.keeps_history(final(self)@),
            id == next_event_id(old(self)@.event_counter),
            final(self)@ == old(self)@.after_create_event(
                spec_new_event(id, name, organizer, start_time, end_time, location, total_pings),
            ),
    {
        let ghost old_view = self@;
        let (id, event) = decide_create_event(
            self.event_counter,
            name,
            organizer,
            start_time,
            end_time,
            location,
            total_pings,
        );
        self.events.put(&id, event);
        self.event_counter = Some(id);
        proof {
            let s = self@;
            assert(!old_view.events.contains_key(id));
            assert forall|k: AttendeeKey| #[trigger]
                s.attendees.contains_key(k) && s.attendees[k].eligible implies s.attendees[k].checked_in
                && s.attendees[k].checked_out && s.events.contains_key(k.0) && ratio_bps(s.attendees[k].confirmed_pings.len(), s.events[k.0].total_pings)
                >= MIN_ATTENDANCE_BPS by {
                assert(old_view.events.contains_key(k.0));
                assert(k.0 != id);
            }
        }
        id
    }

    /// Marks an event as ended and no longer active.
    pub fn end_event(&mut self, event_id: u64) -> (r: Result<(), ContractError>)
        requires
            old(self).wf(),
            old(self)@.admin is Some,
        ensures
            final(self).wf(),
            old(self)@.keeps_history(final(self)@),
            match r {
                Ok(()) => old(self)@.end_event_error(event_id) is None && final(self)@ == old(
                    self,
                )@.after_end_event(event_id),
                Err(e) => old(self)@.end_event_error(event_id) == Some(e) && final(self)@ == old(
                    self,
                )@,
            },
    {
        let decision = decide_end_event(self.events.get(&event_id));
        match decision {
            Ok(ended) => {
                self.events.put(&event_id, ended);
                Ok(())
            },
            Err(e) => Err(e),
        }
    }

    /// Registers `attendee` for an active event.
    pub fn register(&mut self, event_id: u64, attendee: String, face_hash: [u8; 32], now: u64) -> (r:
        Result<(), ContractError>)
        requires
            old(self).wf(),
        ensures
            final(self).wf(),
            old(self)@.keeps_history(final(self)@),
            match r {
                Ok(()) => old(self)@.register_error(event_id, attendee@) is None && final(self)@
                    == old(self)@.after_register(event_id, attendee, face_hash, now),
                Err(e) => old(self)@.register_error(event_id, attendee@) == Some(e) && final(self)@
                    == old(self)@,
            },
    {
        let key = (event_id, attendee.clone());
        let blacklisted = self.blacklist.contains(&attendee);
        let registered = self.registrations.contains(&key);
        let decision = decide_register(
            blacklisted,
            self.events.get(&event_id),
            registered,
            event_id,
            &attendee,
            face_hash,
            now,
        );
        match decision {
            Ok(reg) => {
                self.registrations.put(&key, reg);
                Ok(())
            },
            Err(e) => Err(e),
        }
    }

    /// Registers a QR nonce, valid for `NONCE_TTL_SECS` seconds from `now`.
    pub fn register_nonce(
        &mut self,
        nonce_hash: [u8; 32],
        event_id: u64,
        nonce_type: u32,
        ping_index: u32,
        now: u64,
    ) -> (r: Result<(), ContractError>)
        requires
            old(self).wf(),
            old(self)@.admin is Some,
            old(self)@.register_nonce_error(nonce_hash) is None ==> now + NONCE_TTL_SECS
                <= u64::MAX,
        ensures
            final(self).wf(),
            old(self)@.keeps_history(final(self)@),
            match r {
                Ok(()) => old(self)@.register_nonce_error(nonce_hash) is None && final(self)@ == old(
                    self,
                )@.after_register_nonce(nonce_hash, event_id, nonce_type, ping_index, now),
                Err(e) => old(self)@.register_nonce_error(nonce_hash) == Some(e) && final(self)@
                    == old(self)@,
            },
    {
        let exists = self.nonces.contains(&nonce_hash);
        match decide_register_nonce(exists, nonce_hash, event_id, nonce_type, ping_index, now) {
            Ok(record) => {
                self.nonces.put(&nonce_hash, record);
                Ok(())
            },
            Err(e) => Err(e),
        }
    }

    /// The stored nonce record with hash `nonce_hash`, if any.
    fn nonce(&self, nonce_hash: &[u8; 32]) -> (n: Option<NonceRecord>)
        requires
            self.wf(),
        ensures
            n == self@.nonces.get(*nonce_hash),
            n is Some ==> n->0.nonce_hash == *nonce_hash,
    {
        match self.nonces.get(nonce_hash) {
            Some(rec) => Some(*rec),
            None => None,
        }
    }

    /// The stored ping record of event `event_id`, if any.
    fn ping(&self, event_id: u64) -> (p: Option<PingData>)
        requires
            self.wf(),
        ensures
            p == self@.pings.get(event_id),
            p is Some ==> p->0.event_id == event_id,
    {
        match self.pings.get(&event_id) {
            Some(rec) => Some(*rec),
            None => None,
        }
    }

    /// Checks a registered attendee in with a check-in nonce and a face match.
    pub fn check_in(
        &mut self,
        event_id: u64,
        attendee: String,
        nonce_hash: [u8; 32],
        face_proof_hash: [u8; 32],
        face_match: bool,
        now: u64,
    ) -> (r: Result<(), ContractError>)
        requires
            old(self).wf(),
        ensures
            final(self).wf(),
            old(self)@.keeps_history(final(self)@),
            match r {
                Ok(()) => old(self)@.check_in_error(event_id, attendee@, nonce_hash, face_match, now)
                    is None && final(self)@ == old(self)@.after_check_in(
                    event_id,
                    attendee,
                    nonce_hash,
                    face_proof_hash,
                    now,
                ),
                Err(e) => old(self)@.check_in_error(event_id, attendee@, nonce_hash, face_match, now)
                    == Some(e) && final(self)@ == old(self)@,
            },
    {
        let ghost old_view = self@;
        let key = (event_id, attendee.clone());
        let blacklisted = self.blacklist.contains(&attendee);
        let registered = self.registrations.contains(&key);
        let nonce = self.nonce(&nonce_hash);
        let decision = decide_check_in(
            blacklisted,
            registered,
            self.events.get(&event_id),
            self.attendees.get(&key),
            nonce,
            event_id,
            &attendee,
            face_proof_hash,
            face_match,
            now,
        );
        match decision {
            Ok((used, record)) => {
                self.nonces.put(&nonce_hash, used);
                self.attendees.put(&key, record);
                proof {
                    let s = self@;
                    assert forall|k: AttendeeKey| #[trigger]
                        s.attendees.contains_key(k) && s.attendees[k].eligible implies s.attendees[k].checked_in
                        && s.attendees[k].checked_out && s.events.contains_key(k.0) && ratio_bps(s.attendees[k].confirmed_pings.len(), s.events[k.0].total_pings)
                        >= MIN_ATTENDANCE_BPS by {
                        assert(k != (event_id, attendee@));
                        assert(old_view.attendees.contains_key(k));
                    }
                }
                Ok(())
            },
            Err(e) => Err(e),
        }
    }

    /// Opens presence ping `ping_index` for an active event, replacing the
    /// event's previous ping.
    pub fn open_ping(&mut self, event_id: u64, ping_index: u32, now: u64) -> (r: Result<
        (),
        ContractError,
    >)
        requires
            old(self).wf(),
            old(self)@.admin is Some,
            old(self)@.open_ping_error(event_id) is None ==> now + PING_WINDOW_SECS <= u64::MAX,
        ensures
            final(self).wf(),
            old(self)@.keeps_history(final(self)@),
            match r {
                Ok(()) => old(self)@.open_ping_error(event_id) is None && final(self)@ == old(
                    self,
                )@.after_open_ping(event_id, ping_index, now),
                Err(e) => old(self)@.open_ping_error(event_id) == Some(e) && final(self)@ == old(
                    self,
                )@,
            },
    {
        let decision = decide_open_ping(self.events.get(&event_id), event_id, ping_index, now);
        match decision {
            Ok(p) => {
                self.pings.put(&event_id, p);
                Ok(())
            },
            Err(e) => Err(e),
        }
    }

    /// Closes the ping of an event.
    pub fn close_ping(&mut self, event_id: u64) -> (r: Result<(), ContractError>)
        requires
            old(self).wf(),
            old(self)@.admin is Some,
        ensures
            final(self).wf(),
            old(self)@.keeps_history(final(self)@),
            match r {
                Ok(()) => old(self)@.close_ping_error(event_id) is None && final(self)@ == old(
                    self,
                )@.after_close_ping(event_id),
                Err(e) => old(self)@.close_ping_error(event_id) == Some(e) && final(self)@ == old(
                    self,
                )@,
            },
    {
        let ping = self.ping(event_id);
        match decide_close_ping(ping) {
            Ok(p) => {
                self.pings.put(&event_id, p);
                Ok(())
            },
            Err(e) => Err(e),
        }
    }

    /// Confirms the open ping of an event for a checked-in attendee.
    pub fn confirm_ping(&mut self, event_id: u64, attendee: String, nonce_hash: [u8; 32], now: u64) -> (r:
        Result<(), ContractError>)
        requires
            old(self).wf(),
        ensures
            final(self).wf(),
            old(self)@.keeps_history(final(self)@),
            match r {
                Ok(()) => old(self)@.confirm_ping_error(event_id, attendee@, nonce_hash, now) is None
                    && final(self)@ == old(self)@.after_confirm_ping(event_id, attendee@, nonce_hash),
                Err(e) => old(self)@.confirm_ping_error(event_id, attendee@, nonce_hash, now) == Some(
                    e,
                ) && final(self)@ == old(self)@,
            },
    {
        let ghost old_view = self@;
        let key = (event_id, attendee.clone());
        let blacklisted = self.blacklist.contains(&attendee);
        let nonce = self.nonce(&nonce_hash);
        let ping = self.ping(event_id);
        let decision = decide_confirm_ping(
            blacklisted,
            self.attendees.get(&key),
            ping,
            nonce,
            event_id,
            now,
        );
        match decision {
            Ok((used, record)) => {
                self.nonces.put(&nonce_hash, used);
                self.attendees.put(&key, record);
                proof {
                    let s = self@;
                    let kk = (event_id, attendee@);
                    assert forall|k: AttendeeKey| #[trigger]
                        s.attendees.contains_key(k) && s.attendees[k].eligible implies s.attendees[k].checked_in
                        && s.attendees[k].checked_out && s.events.contains_key(k.0) && ratio_bps(s.attendees[k].confirmed_pings.len(), s.events[k.0].total_pings)
                        >= MIN_ATTENDANCE_BPS by {
                        assert(old_view.attendees.contains_key(k));
                        if k == kk {
                            lemma_ratio_monotonic(
                                old_view.attendees[k].confirmed_pings.len(),
                                s.attendees[k].confirmed_pings.len(),
                                s.events[k.0].total_pings,
                            );
                        }
                    }
                }
                Ok(())
            },
            Err(e) => Err(e),
        }
    }

    /// Checks a checked-in attendee out with a check-out nonce and decides
    /// its eligibility for a certificate.
    pub fn check_out(&mut self, event_id: u64, attendee: String, nonce_hash: [u8; 32], now: u64) -> (r:
        Result<(), ContractError>)
        requires
            old(self).wf(),
            old(self)@.check_out_error(event_id, attendee@, nonce_hash, now) is None ==> ratio_fits(
                old(self)@.attendees[(event_id, attendee@)].confirmed_pings.len(),
                old(self)@.events[event_id].total_pings,
            ),
        ensures
            final(self).wf(),
            old(self)@.keeps_history(final(self)@),
            match r {
                Ok(()) => old(self)@.check_out_error(event_id, attendee@, nonce_hash, now) is None
                    && final(self)@ == old(self)@.after_check_out(
                    event_id,
                    attendee@,
                    nonce_hash,
                    now,
                ),
                Err(e) => old(self)@.check_out_error(event_id, attendee@, nonce_hash, now) == Some(
                    e,
                ) && final(self)@ == old(self)@,
            },
    {
        let ghost old_view = self@;
        let key = (event_id, attendee.clone());
        let blacklisted = self.blacklist.contains(&attendee);
        let nonce = self.nonce(&nonce_hash);
        let decision = decide_check_out(
            blacklisted,
            self.attendees.get(&key),
            nonce,
            self.events.get(&event_id),
            event_id,
            now,
        );
        match decision {
            Ok((used, record)) => {
                self.nonces.put(&nonce_hash, used);
                self.attendees.put(&key, record);
                proof {
                    let s = self@;
                    let kk = (event_id, attendee@);
                    assert forall|k: AttendeeKey| #[trigger]
                        s.attendees.contains_key(k) && s.attendees[k].eligible implies s.attendees[k].checked_in
                        && s.attendees[k].checked_out && s.events.contains_key(k.0) && ratio_bps(s.attendees[k].confirmed_pings.len(), s.events[k.0].total_pings)
                        >= MIN_ATTENDANCE_BPS by {
                        if k != kk {
                            assert(old_view.attendees.contains_key(k));
                        }
                    }
                }
                Ok(())
            },
            Err(e) => Err(e),
        }
    }

    /// Issues the certificate of an eligible attendee and returns its
    /// identifier.
    pub fn mint_certificate(&mut self, env: &Env, event_id: u64, attendee: String, now: u64) -> (r:
        Result<[u8; 32], ContractError>)
        requires
            old(self).wf(),
            old(self)@.mint_error(event_id, attendee@) is None ==> ratio_fits(
                old(self)@.attendees[(event_id, attendee@)].confirmed_pings.len(),
                old(self)@.events[event_id].total_pings,
            ),
        ensures
            final(self).wf(),
            old(self)@.keeps_history(final(self)@),
            match r {
                Ok(id) => {
                    let cert = final(self)@.certificates[(event_id, attendee@)];
                    &&& old(self)@.mint_error(event_id, attendee@) is None
                    &&& old(self)@.issues(cert, event_id, attendee, now)
                    &&& final(self)@ == old(self)@.after_mint(cert)
                    &&& id == cert.cert_id
                },
                Err(e) => old(self)@.mint_error(event_id, attendee@) == Some(e) && final(self)@
                    == old(self)@,
            },
    {
        let ghost old_view = self@;
        let key = (event_id, attendee.clone());
        let blacklisted = self.blacklist.contains(&attendee);
        let minted = self.certificates.contains(&key);
        let decision = decide_mint_certificate(
            env,
            blacklisted,
            self.attendees.get(&key),
            minted,
            self.events.get(&event_id),
            event_id,
            &attendee,
            now,
        );
        match decision {
            Ok(cert) => {
                let id = cert.cert_id;
                let ghost c = cert;
                self.certificates.put(&key, cert);
                proof {
                    let s = self@;
                    assert(s.certificates[(event_id, attendee@)] == c);
                    assert forall|k: AttendeeKey| #[trigger]
                        s.certificates.contains_key(k) implies s.certificates[k].attendance_ratio
                        >= MIN_ATTENDANCE_BPS by {
                        if k != (event_id, attendee@) {
                            assert(old_view.certificates.contains_key(k));
                        } else {
                            assert(old_view.attendees.contains_key(k));
                        }
                    }
                }
                Ok(id)
            },
            Err(e) => Err(e),
        }
    }

    /// Removes `addr` from the blacklist.
    pub fn remove_from_blacklist(&mut self, addr: String)
        requires
            old(self).wf(),
            old(self)@.admin is Some,
        ensures
            final(self).wf(),
            old(self)@.keeps_history(final(self)@),
            final(self)@ == old(self)@.after_remove_from_blacklist(addr@),
    {
        self.blacklist.remove(&addr);
    }
}


/// The view of an optional attendee record.
pub open spec fn opt_attendee_view(o: Option<AttendeeData>) -> Option<AttendeeView> {
    match o {
        Some(a) => Some(a@),
        None => None,
    }
}

impl CertificationContract {
    /// Marks absent, for ping `ping_index` of event `event_id`, each listed
    /// attendee that checked in to the event and did not confirm that ping.
    pub fn mark_absent_for_missed_ping(
        &mut self,
        event_id: u64,
        attendees: Vec<String>,
        ping_index: u32,
    )
        requires
            old(self).wf(),
            old(self)@.admin is Some,
        ensures
            final(self).wf(),
            old(self)@.keeps_history(final(self)@),
            final(self)@ == old(self)@.after_mark_absent(event_id, attendees@, ping_index),
    {
        let ghost old_view = self@;
        proof {
            assert(old_view.after_mark_absent(event_id, attendees@.subrange(0, 0), ping_index).attendees
                =~= old_view.attendees);
        }
        let mut i: usize = 0;
        while i < attendees.len()
            invariant
                self.wf(),
                i <= attendees@.len(),
                old_view.consistent(),
                self@ == old_view.after_mark_absent(
                    event_id,
                    attendees@.subrange(0, i as int),
                    ping_index,
                ),
            decreases attendees@.len() - i,
        {
            let ghost cur = self@;
            let ghost prefix = attendees@.subrange(0, i as int);
            let ghost next_prefix = attendees@.subrange(0, i + 1);
            let key = (event_id, attendees[i].clone());
            let update = match self.attendees.get(&key) {
                Some(att) => decide_mark_absent(att, ping_index),
                None => None,
            };
            match update {
                Some(a) => {
                    self.attendees.put(&key, a);
                },
                None => {},
            }
            proof {
                let kk = (event_id, attendees@[i as int]@);
                let target = old_view.after_mark_absent(event_id, next_prefix, ping_index);
                assert forall|a: Seq<char>| #[trigger]
                    listed(next_prefix, a) == (listed(prefix, a) || a == attendees@[i as int]@) by {
                    if listed(prefix, a) {
                        let j = choose|j: int| 0 <= j < prefix.len() && (#[trigger] prefix[j])@ == a;
                        assert(next_prefix[j] == prefix[j]);
                    }
                    if a == attendees@[i as int]@ {
                        assert(next_prefix[i as int] == attendees@[i as int]);
                    }
                    if listed(next_prefix, a) {
                        let j = choose|j: int| 0 <= j < next_prefix.len() && (#[trigger] next_prefix[j])@ == a;
                        if j < i {
                            assert(prefix[j] == next_prefix[j]);
                        }
                    }
                }
                assert forall|k: AttendeeKey| #[trigger] self@.attendees.contains_key(k) == target.attendees.contains_key(k) by {}
                assert forall|k: AttendeeKey| #[trigger] self@.attendees.contains_key(k) implies self@.attendees[k]
                    == target.attendees[k] by {
                    if k == kk {
                        assert(listed(next_prefix, k.1));
                    } else {
                        assert(listed(next_prefix, k.1) == listed(prefix, k.1) || k.0 != event_id);
                    }
                }
                assert(self@.attendees =~= target.attendees);
                let s = self@;
                assert forall|k: AttendeeKey| #[trigger]
                    s.attendees.contains_key(k) && s.attendees[k].eligible implies s.attendees[k].checked_in
                    && s.attendees[k].checked_out && s.events.contains_key(k.0) && ratio_bps(s.attendees[k].confirmed_pings.len(), s.events[k.0].total_pings)
                    >= MIN_ATTENDANCE_BPS by {
                    assert(old_view.attendees.contains_key(k));
                }
            }
            i = i + 1;
        }
        proof {
            assert(attendees@.subrange(0, attendees@.len() as int) =~= attendees@);
        }
    }

    /// Reports `addr` for fraud at event `event_id`.
    fn report_one(&mut self, addr: &String, event_id: u64, reason: &String, now: u64)
        requires
            old(self).wf(),
        ensures
            final(self).wf(),
            old(self)@.keeps_history(final(self)@),
            final(self)@ == old(self)@.after_report_one(*addr, event_id, *reason, now),
    {
        let ghost old_view = self@;
        let key = (event_id, addr.clone());
        let prior = match self.fraud_records.get(addr) {
            Some(log) => clone_entries(&log.entries),
            None => Vec::new(),
        };
        let (record, reports, revoked) = decide_report_fraud(
            addr,
            event_id,
            reason,
            now,
            &prior,
            self.certificates.get(&key),
        );
        self.blacklist.put(addr, record);
        self.fraud_records.put(addr, FraudLog { address: addr.clone(), entries: reports });
        match revoked {
            Some(c) => {
                self.certificates.put(&key, c);
            },
            None => {},
        }
        proof {
            let s = self@;
            assert(s.fraud_records =~= old_view.after_report_one(*addr, event_id, *reason, now).fraud_records);
            assert forall|k: AttendeeKey| #[trigger]
                s.certificates.contains_key(k) implies s.certificates[k].attendance_ratio
                >= MIN_ATTENDANCE_BPS by {
                assert(old_view.certificates.contains_key(k));
            }
        }
    }

    /// Blacklists the impersonator and the requester of a fraudulent action
    /// at event `event_id`, logs the report against each, and revokes each
    /// one's certificate for the event.
    pub fn report_fraud(
        &mut self,
        impersonator: String,
        requester: String,
        event_id: u64,
        reason: String,
        now: u64,
    )
        requires
            old(self).wf(),
            old(self)@.admin is Some,
        ensures
            final(self).wf(),
            old(self)@.keeps_history(final(self)@),
            final(self)@ == old(self)@.after_report_fraud(
                impersonator,
                requester,
                event_id,
                reason,
                now,
            ),
    {
        self.report_one(&impersonator, event_id, &reason, now);
        self.report_one(&requester, event_id, &reason, now);
    }

    /// The event `event_id`, if it exists.
    pub fn get_event(&self, event_id: u64) -> (r: Option<EventData>)
        requires
            self.wf(),
        ensures
            r == self@.events.get(event_id),
    {
        match self.events.get(&event_id) {
            Some(e) => Some(e.clone()),
            None => None,
        }
    }

    /// The registration of `attendee` for event `event_id`, if any.
    pub fn get_registration(&self, event_id: u64, attendee: String) -> (r: Option<RegistrationData>)
        requires
            self.wf(),
        ensures
            r == self@.registrations.get((event_id, attendee@)),
    {
        match self.registrations.get(&(event_id, attendee)) {
            Some(reg) => Some(reg.clone()),
            None => None,
        }
    }

    /// The attendance record of `attendee` at event `event_id`, if any.
    pub fn get_attendee(&self, event_id: u64, attendee: String) -> (r: Option<AttendeeData>)
        requires
            self.wf(),
        ensures
            opt_attendee_view(r) == self@.attendees.get((event_id, attendee@)),
    {
        match self.attendees.get(&(event_id, attendee)) {
            Some(a) => Some(a.clone()),
            None => None,
        }
    }

    /// The certificate of `attendee` for event `event_id`, if any.
    pub fn get_certificate(&self, event_id: u64, attendee: String) -> (r: Option<CertificateData>)
        requires
            self.wf(),
        ensures
            r == self@.certificates.get((event_id, attendee@)),
    {
        match self.certificates.get(&(event_id, attendee)) {
            Some(c) => Some(c.clone()),
            None => None,
        }
    }

    /// Whether `addr` is blacklisted.
    pub fn is_blacklisted(&self, addr: String) -> (b: bool)
        requires
            self.wf(),
        ensures
            b == self@.is_blacklisted(addr@),
    {
        self.blacklist.contains(&addr)
    }

    /// The fraud reports against `addr`, oldest first; empty when none.
    pub fn get_fraud_records(&self, addr: String) -> (r: Vec<FraudEntry>)
        requires
            self.wf(),
        ensures
            r@ == self@.fraud_entries(addr@),
    {
        match self.fraud_records.get(&addr) {
            Some(log) => clone_entries(&log.entries),
            None => Vec::new(),
        }
    }

    /// The ping last opened for event `event_id`, if any.
    pub fn get_active_ping(&self, event_id: u64) -> (r: Option<PingData>)
        requires
            self.wf(),
        ensures
            r == self@.pings.get(event_id),
    {
        self.ping(event_id)
    }
}

} // verus!
