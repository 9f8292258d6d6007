//! The errors that an operation of the contract can refuse a call with.
use vstd::prelude::*;

verus! {

/// Why a call to the contract was refused.
#[derive(Clone, Copy, Debug, PartialEq, Eq, Structural)]
pub enum ContractError {
    Unauthorized,
    Blacklisted,
    EventNotFound,
    EventAlreadyExists,
    EventNotActive,
    EventAlreadyEnded,
    NotRegistered,
    AlreadyRegistered,
    AlreadyCheckedIn,
    NotCheckedIn,
    FaceVerificationFailed,
    InvalidNonce,
    NonceExpired,
    NonceAlreadyUsed,
    NoPingActive,
    PingWindowExpired,
    AlreadyConfirmedPing,
    AlreadyCheckedOut,
    AttendanceInsufficient,
    CertificateAlreadyMinted,
    NotEligible,
}

impl ContractError {
    /// The numeric error code under which the contract reports this error.
    pub open spec fn spec_code(self) -> u32 {
        match self {
            ContractError::Unauthorized => 1,
            ContractError::Blacklisted => 2,
            ContractError::EventNotFound => 10,
            ContractError::EventAlreadyExists => 11,
            ContractError::EventNotActive => 12,
            ContractError::EventAlreadyEnded => 13,
            ContractError::NotRegistered => 20,
            ContractError::AlreadyRegistered => 21,
            ContractError::AlreadyCheckedIn => 30,
            ContractError::NotCheckedIn => 31,
            ContractError::FaceVerificationFailed => 32,
            ContractError::InvalidNonce => 40,
            ContractError::NonceExpired => 41,
            ContractError::NonceAlreadyUsed => 42,
            ContractError::NoPingActive => 50,
            ContractError::PingWindowExpired => 51,
            ContractError::AlreadyConfirmedPing => 52,
            ContractError::AlreadyCheckedOut => 60,
            ContractError::AttendanceInsufficient => 61,
            ContractError::CertificateAlreadyMinted => 62,
            ContractError::NotEligible => 63,
        }
    }

    /// The numeric error code under which the contract reports this error.
    pub fn code(&self) -> (c: u32)
        ensures
            c == self.spec_code(),
    {
        match self {
            ContractError::Unauthorized => 1,
            ContractError::Blacklisted => 2,
            ContractError::EventNotFound => 10,
            ContractError::EventAlreadyExists => 11,
            ContractError::EventNotActive => 12,
            ContractError::EventAlreadyEnded => 13,
            ContractError::NotRegistered => 20,
            ContractError::AlreadyRegistered => 21,
            ContractError::AlreadyCheckedIn => 30,
            ContractError::NotCheckedIn => 31,
            ContractError::FaceVerificationFailed => 32,
            ContractError::InvalidNonce => 40,
            ContractError::NonceExpired => 41,
            ContractError::NonceAlreadyUsed => 42,
            ContractError::NoPingActive => 50,
            ContractError::PingWindowExpired => 51,
            ContractError::AlreadyConfirmedPing => 52,
            ContractError::AlreadyCheckedOut => 60,
            ContractError::AttendanceInsufficient => 61,
            ContractError::CertificateAlreadyMinted => 62,
            ContractError::NotEligible => 63,
        }
    }
}

} // verus!
