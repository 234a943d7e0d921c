use vstd::prelude::*;

use crate::model::{ReporterRole, ReporterStatus};

verus! {

/// Failures the on-chain program reports.
#[derive(Debug, Clone, Copy, PartialEq, Eq, Structural)]
pub enum ErrorCode {
    UnexpectedAccount,
    Unauthorized,
    NonSequentialCaseId,
    ReleaseEpochInFuture,
    InvalidMint,
    InvalidReporter,
    InactiveReporter,
    InvalidToken,
    CaseClosed,
    InvalidReporterStatus,
    AuthorityMismatch,
    CommunityMismatch,
    FrozenReporter,
    RiskOutOfRange,
    NetworkMismatch,
    CaseMismatch,
}

/// The message that goes with each error.
pub open spec fn error_message(e: ErrorCode) -> Seq<char> {
    match e {
        ErrorCode::UnexpectedAccount => "Unexpected account has been used"@,
        ErrorCode::Unauthorized => "Account is not authorized to perform this action"@,
        ErrorCode::NonSequentialCaseId => "Non-sequential case ID"@,
        ErrorCode::ReleaseEpochInFuture => "Release epoch is in future"@,
        ErrorCode::InvalidMint => "Invalid mint account"@,
        ErrorCode::InvalidReporter => "Invalid reporter account"@,
        ErrorCode::InactiveReporter => "Reporter account is not active"@,
        ErrorCode::InvalidToken => "Invalid token account"@,
        ErrorCode::CaseClosed => "Case closed"@,
        ErrorCode::InvalidReporterStatus => "Invalid reporter status"@,
        ErrorCode::AuthorityMismatch => "Authority mismatched"@,
        ErrorCode::CommunityMismatch => "Community mismatched"@,
        ErrorCode::FrozenReporter => "This reporter is frozen"@,
        ErrorCode::RiskOutOfRange => "Risk score must be in 0..10 range"@,
        ErrorCode::NetworkMismatch => "Network mismatched"@,
        ErrorCode::CaseMismatch => "Case mismatched"@,
    }
}

impl ErrorCode {
    /// The message that goes with this error.
    pub fn message(&self) -> (r: &'static str)
        ensures
            r@ == error_message(*self),
    {
        match self {
            ErrorCode::UnexpectedAccount => "Unexpected account has been used",
            ErrorCode::Unauthorized => "Account is not authorized to perform this action",
            ErrorCode::NonSequentialCaseId => "Non-sequential case ID",
            ErrorCode::ReleaseEpochInFuture => "Release epoch is in future",
            ErrorCode::InvalidMint => "Invalid mint account",
            ErrorCode::InvalidReporter => "Invalid reporter account",
            ErrorCode::InactiveReporter => "Reporter account is not active",
            ErrorCode::InvalidToken => "Invalid token account",
            ErrorCode::CaseClosed => "Case closed",
            ErrorCode::InvalidReporterStatus => "Invalid reporter status",
            ErrorCode::AuthorityMismatch => "Authority mismatched",
            ErrorCode::CommunityMismatch => "Community mismatched",
            ErrorCode::FrozenReporter => "This reporter is frozen",
            ErrorCode::RiskOutOfRange => "Risk score must be in 0..10 range",
            ErrorCode::NetworkMismatch => "Network mismatched",
            ErrorCode::CaseMismatch => "Case mismatched",
        }
    }
}

/// Fails with `error`.
pub fn print_error(error: ErrorCode) -> (r: Result<(), ErrorCode>)
    ensures
        r == Err::<(), ErrorCode>(error),
{
    Err(error)
}

/// A reporter account of the on-chain program.
#[derive(Debug, Clone, PartialEq, Eq, Default)]
pub struct Reporter {
    /// Community account, which this reporter belongs to.
    pub community: [u8; 32],
    /// Seed bump for the program-derived address.
    pub bump: u8,
    /// If this is true, the reporter can't interact with the contract.
    pub is_frozen: bool,
    pub status: ReporterStatus,
    pub role: ReporterRole,
    /// The reporter's wallet account.
    pub pubkey: [u8; 32],
    /// Short reporter description.
    pub name: [u8; 32],
    /// Currently deposited stake.
    pub stake: u64,
    /// The epoch at which the reporter can unstake (0 if unstaking hasn't been requested).
    pub unlock_epoch: u64,
}

impl Reporter {
    /// A reporter account with every field zero, inactive and a validator.
    pub fn empty() -> (r: Reporter)
        ensures
            r.status == ReporterStatus::Inactive,
            r.role == ReporterRole::Validator,
            !r.is_frozen,
            r.bump == 0,
            r.stake == 0,
            r.unlock_epoch == 0,
            r.community@ == Seq::new(32, |i: int| 0u8),
            r.pubkey@ == Seq::new(32, |i: int| 0u8),
            r.name@ == Seq::new(32, |i: int| 0u8),
    {
        let r = Reporter {
            community: [0u8; 32],
            bump: 0,
            is_frozen: false,
            status: ReporterStatus::Inactive,
            role: ReporterRole::Validator,
            pubkey: [0u8; 32],
            name: [0u8; 32],
            stake: 0,
            unlock_epoch: 0,
        };
        assert(r.community@ =~= Seq::new(32, |i: int| 0u8));
        assert(r.pubkey@ =~= Seq::new(32, |i: int| 0u8));
        assert(r.name@ =~= Seq::new(32, |i: int| 0u8));
        r
    }
}

} // verus!
