//! The records that the contract stores, and the keys they are stored under.
use crate::table::Row;
use vstd::prelude::*;

verus! {

/// How long a registered QR nonce stays valid, in seconds.
pub const NONCE_TTL_SECS: u64 = 15;

/// How long a presence ping stays open for confirmations, in seconds.
pub const PING_WINDOW_SECS: u64 = 240;

/// The attendance ratio, in basis points, that makes an attendee eligible.
pub const MIN_ATTENDANCE_BPS: u32 = 9_000;

/// The attendance ratio, in basis points, of full attendance.
pub const FULL_ATTENDANCE_BPS: u32 = 10_000;

/// Nonce type of a check-in QR code.
pub const NONCE_CHECKIN: u32 = 0;

/// Nonce type of a presence-ping QR code.
pub const NONCE_PING: u32 = 1;

/// Nonce type of a check-out QR code.
pub const NONCE_CHECKOUT: u32 = 2;

/// Whether two 32-byte hashes are equal.
pub fn bytes32_eq(a: &[u8; 32], b: &[u8; 32]) -> (eq: bool)
    ensures
        eq == (*a == *b),
{
    let mut i: usize = 0;
    while i < 32
        invariant
            i <= 32,
            forall|j: int| 0 <= j < i ==> a[j] == b[j],
        decreases 32 - i,
    {
        if a[i] != b[i] {
            return false;
        }
        i = i + 1;
    }
    proof {
        broadcast use vstd::array::axiom_array_ext_equal;
        assert(*a =~= *b);
    }
    true
}

/// The slots of contract storage.
#[derive(Debug)]
pub enum DataKey {
    Admin,
    Event(u64),
    EventCounter,
    Registration(u64, String),
    Attendee(u64, String),
    Nonce([u8; 32]),
    ActivePing(u64),
    Blacklist(String),
    Certificate(u64, String),
    FraudRecord(String),
}

/// An event that attendees register for, check in to and check out of.
pub struct EventData {
    pub event_id: u64,
    pub name: String,
    pub organizer: String,
    pub start_time: u64,
    pub end_time: u64,
    pub location: String,
    pub total_pings: u32,
    pub active: bool,
    pub ended: bool,
}

/// An attendee's registration for an event.
pub struct RegistrationData {
    pub attendee: String,
    pub event_id: u64,
    pub registered_at: u64,
    /// SHA-256 hash of the face image stored off-chain.
    pub face_hash: [u8; 32],
}

/// An attendee's presence at an event, from check-in to check-out.
pub struct AttendeeData {
    pub attendee: String,
    pub event_id: u64,
    pub checked_in: bool,
    pub checkin_time: u64,
    pub checked_out: bool,
    pub checkout_time: u64,
    /// Hash of the selfie captured at check-in time.
    pub checkin_face_proof: [u8; 32],
    /// Indices of the pings this attendee confirmed, in the order confirmed.
    pub confirmed_pings: Vec<u32>,
    pub marked_absent: bool,
    pub eligible: bool,
}

/// The mathematical form of an `AttendeeData`.
pub struct AttendeeView {
    pub attendee: String,
    pub event_id: u64,
    pub checked_in: bool,
    pub checkin_time: u64,
    pub checked_out: bool,
    pub checkout_time: u64,
    pub checkin_face_proof: [u8; 32],
    pub confirmed_pings: Seq<u32>,
    pub marked_absent: bool,
    pub eligible: bool,
}

/// A one-time-use QR nonce.
/// `nonce_type` is `NONCE_CHECKIN`, `NONCE_PING` or `NONCE_CHECKOUT`.
#[derive(Clone, Copy)]
pub struct NonceRecord {
    pub nonce_hash: [u8; 32],
    pub event_id: u64,
    pub created_at: u64,
    pub expires_at: u64,
    pub used: bool,
    pub nonce_type: u32,
    pub ping_index: u32,
}

/// The presence ping currently opened for an event.
#[derive(Clone, Copy)]
pub struct PingData {
    pub event_id: u64,
    pub ping_index: u32,
    pub opened_at: u64,
    pub expires_at: u64,
    pub closed: bool,
}

/// A certificate of attendance.
pub struct CertificateData {
    pub cert_id: [u8; 32],
    pub event_id: u64,
    pub attendee: String,
    pub issued_at: u64,
    /// Basis points: 10000 = 100 %, 9000 = 90 %.
    pub attendance_ratio: u32,
    pub event_name: String,
    pub revoked: bool,
}

/// One report of fraud against an address.
pub struct FraudEntry {
    pub event_id: u64,
    pub detected_at: u64,
    pub reason: String,
}

/// Why and since when an address is blacklisted.
pub struct BlacklistRecord {
    pub address: String,
    pub blacklisted_at: u64,
    pub reason: String,
}

/// All fraud reports against one address, oldest first.
pub struct FraudLog {
    pub address: String,
    pub entries: Vec<FraudEntry>,
}

/// The mathematical form of a `FraudLog`.
pub struct FraudLogView {
    pub address: String,
    pub entries: Seq<FraudEntry>,
}

impl Clone for EventData {
    fn clone(&self) -> (c: Self)
        ensures
            c == *self,
    {
        EventData {
            event_id: self.event_id,
            name: self.name.clone(),
            organizer: self.organizer.clone(),
            start_time: self.start_time,
            end_time: self.end_time,
            location: self.location.clone(),
            total_pings: self.total_pings,
            active: self.active,
            ended: self.ended,
        }
    }
}

impl Clone for RegistrationData {
    fn clone(&self) -> (c: Self)
        ensures
            c == *self,
    {
        RegistrationData {
            attendee: self.attendee.clone(),
            event_id: self.event_id,
            registered_at: self.registered_at,
            face_hash: self.face_hash,
        }
    }
}

impl Clone for AttendeeData {
    fn clone(&self) -> (c: Self)
        ensures
            c@ == self@,
    {
        let pings = self.confirmed_pings.clone();
        assert(pings@ =~= self.confirmed_pings@);
        AttendeeData {
            attendee: self.attendee.clone(),
            event_id: self.event_id,
            checked_in: self.checked_in,
            checkin_time: self.checkin_time,
            checked_out: self.checked_out,
            checkout_time: self.checkout_time,
            checkin_face_proof: self.checkin_face_proof,
            confirmed_pings: pings,
            marked_absent: self.marked_absent,
            eligible: self.eligible,
        }
    }
}

impl Clone for CertificateData {
    fn clone(&self) -> (c: Self)
        ensures
            c == *self,
    {
        CertificateData {
            cert_id: self.cert_id,
            event_id: self.event_id,
            attendee: self.attendee.clone(),
            issued_at: self.issued_at,
            attendance_ratio: self.attendance_ratio,
            event_name: self.event_name.clone(),
            revoked: self.revoked,
        }
    }
}

impl Clone for FraudEntry {
    fn clone(&self) -> (c: Self)
        ensures
            c == *self,
    {
        FraudEntry { event_id: self.event_id, detected_at: self.detected_at, reason: self.reason.clone() }
    }
}

impl Clone for BlacklistRecord {
    fn clone(&self) -> (c: Self)
        ensures
            c == *self,
    {
        BlacklistRecord {
            address: self.address.clone(),
            blacklisted_at: self.blacklisted_at,
            reason: self.reason.clone(),
        }
    }
}

/// A copy of a list of fraud entries.
pub fn clone_entries(entries: &Vec<FraudEntry>) -> (c: Vec<FraudEntry>)
    ensures
        c@ == entries@,
{
    let mut c: Vec<FraudEntry> = Vec::new();
    let mut i: usize = 0;
    while i < entries.len()
        invariant
            i <= entries@.len(),
            c@ == entries@.subrange(0, i as int),
        decreases entries@.len() - i,
    {
        c.push(entries[i].clone());
        assert(c@ =~= entries@.subrange(0, i + 1));
        i = i + 1;
    }
    assert(entries@.subrange(0, entries@.len() as int) =~= entries@);
    c
}

impl View for EventData {
    type V = EventData;

    open spec fn view(&self) -> EventData {
        *self
    }
}

impl View for RegistrationData {
    type V = RegistrationData;

    open spec fn view(&self) -> RegistrationData {
        *self
    }
}

impl View for AttendeeData {
    type V = AttendeeView;

    open spec fn view(&self) -> AttendeeView {
        AttendeeView {
            attendee: self.attendee,
            event_id: self.event_id,
            checked_in: self.checked_in,
            checkin_time: self.checkin_time,
            checked_out: self.checked_out,
            checkout_time: self.checkout_time,
            checkin_face_proof: self.checkin_face_proof,
            confirmed_pings: self.confirmed_pings@,
            marked_absent: self.marked_absent,
            eligible: self.eligible,
        }
    }
}

impl View for NonceRecord {
    type V = NonceRecord;

    open spec fn view(&self) -> NonceRecord {
        *self
    }
}

impl View for PingData {
    type V = PingData;

    open spec fn view(&self) -> PingData {
        *self
    }
}

impl View for CertificateData {
    type V = CertificateData;

    open spec fn view(&self) -> CertificateData {
        *self
    }
}

impl View for BlacklistRecord {
    type V = BlacklistRecord;

    open spec fn view(&self) -> BlacklistRecord {
        *self
    }
}

impl View for FraudLog {
    type V = FraudLogView;

    open spec fn view(&self) -> FraudLogView {
        FraudLogView { address: self.address, entries: self.entries@ }
    }
}

impl Row for EventData {
    type Key = u64;
    type KeyView = u64;

    open spec fn key_view(key: &u64) -> u64 {
        *key
    }

    open spec fn row_key(row: EventData) -> u64 {
        row.event_id
    }

    fn has_key(&self, key: &u64) -> (b: bool) {
        self.event_id == *key
    }
}

impl Row for RegistrationData {
    type Key = (u64, String);
    type KeyView = (u64, Seq<char>);

    open spec fn key_view(key: &(u64, String)) -> (u64, Seq<char>) {
        (key.0, key.1@)
    }

    open spec fn row_key(row: RegistrationData) -> (u64, Seq<char>) {
        (row.event_id, row.attendee@)
    }

    fn has_key(&self, key: &(u64, String)) -> (b: bool) {
        self.event_id == key.0 && self.attendee == key.1
    }
}

impl Row for AttendeeData {
    type Key = (u64, String);
    type KeyView = (u64, Seq<char>);

    open spec fn key_view(key: &(u64, String)) -> (u64, Seq<char>) {
        (key.0, key.1@)
    }

    open spec fn row_key(row: AttendeeView) -> (u64, Seq<char>) {
        (row.event_id, row.attendee@)
    }

    fn has_key(&self, key: &(u64, String)) -> (b: bool) {
        self.event_id == key.0 && self.attendee == key.1
    }
}

impl Row for NonceRecord {
    type Key = [u8; 32];
    type KeyView = [u8; 32];

    open spec fn key_view(key: &[u8; 32]) -> [u8; 32] {
        *key
    }

    open spec fn row_key(row: NonceRecord) -> [u8; 32] {
        row.nonce_hash
    }

    fn has_key(&self, key: &[u8; 32]) -> (b: bool) {
        bytes32_eq(&self.nonce_hash, key)
    }
}

impl Row for PingData {
    type Key = u64;
    type KeyView = u64;

    open spec fn key_view(key: &u64) -> u64 {
        *key
    }

    open spec fn row_key(row: PingData) -> u64 {
        row.event_id
    }

    fn has_key(&self, key: &u64) -> (b: bool) {
        self.event_id == *key
    }
}

impl Row for CertificateData {
    type Key = (u64, String);
    type KeyView = (u64, Seq<char>);

    open spec fn key_view(key: &(u64, String)) -> (u64, Seq<char>) {
        (key.0, key.1@)
    }

    open spec fn row_key(row: CertificateData) -> (u64, Seq<char>) {
        (row.event_id, row.attendee@)
    }

    fn has_key(&self, key: &(u64, String)) -> (b: bool) {
        self.event_id == key.0 && self.attendee == key.1
    }
}

impl Row for BlacklistRecord {
    type Key = String;
    type KeyView = Seq<char>;

    open spec fn key_view(key: &String) -> Seq<char> {
        key@
    }

    open spec fn row_key(row: BlacklistRecord) -> Seq<char> {
        row.address@
    }

    fn has_key(&self, key: &String) -> (b: bool) {
        self.address == *key
    }
}

impl Row for FraudLog {
    type Key = String;
    type KeyView = Seq<char>;

    open spec fn key_view(key: &String) -> Seq<char> {
        key@
    }

    open spec fn row_key(row: FraudLogView) -> Seq<char> {
        row.address@
    }

    fn has_key(&self, key: &String) -> (b: bool) {
        self.address == *key
    }
}

} // verus!
