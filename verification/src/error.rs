//! Error codes of the on-chain programs.
use vstd::prelude::*;

verus! {

/// The reasons an instruction is refused.
#[derive(Clone, Copy, Debug, PartialEq, Eq)]
pub enum ErrorCode {
    Unauthorized,
    ReInitialize,
    UnInitialize,
    InvalidArgument,
    InvalidProgramId,
    UnexpectedAccount,
    Overflow,
    StringTooLong,
    TooManyAuthorities,
    AuthorityNotFound,
    ConfigMismatched,
    MintExceedMaxSupply,
    NotSufficientBalance,
    TransactionTimeout,
    CloseAccountFailed,
    UnsupportedNow,
    OracleDataError,
    EventIsFinalized,
    EventIsNotOpen,
    EventIsOutOfTime,
    IndicateToNonExistedOption,
    SBTNotFound,
    SBTHasBeenInUse,
    AlreadyInEvent,
    PositionNotFound,
    EventIsOngoing,
    EventMarketDataError,
}

/// The text of a code.
pub open spec fn error_code_text(c: ErrorCode) -> Seq<char> {
    match c {
        ErrorCode::Unauthorized => "You are not authorized to perform this action."@,
        ErrorCode::ReInitialize => "The account has already been initialized."@,
        ErrorCode::UnInitialize => "The account has not been initialized."@,
        ErrorCode::InvalidArgument => "Argument is invalid."@,
        ErrorCode::InvalidProgramId => "Program ID is invalid."@,
        ErrorCode::UnexpectedAccount => "Unexpected Account."@,
        ErrorCode::Overflow => "An overflow occurs."@,
        ErrorCode::StringTooLong => "The string variable is too long."@,
        ErrorCode::TooManyAuthorities => "Authorities limit reached"@,
        ErrorCode::AuthorityNotFound => "Authority not found"@,
        ErrorCode::ConfigMismatched => "Oracle config mismatched"@,
        ErrorCode::MintExceedMaxSupply => "Minting exceeds max supply limit"@,
        ErrorCode::NotSufficientBalance => "The transfer_from account does not have sufficient balance"@,
        ErrorCode::TransactionTimeout => "The transaction is timeout"@,
        ErrorCode::CloseAccountFailed => "Close account failed"@,
        ErrorCode::UnsupportedNow => "Unsupported now"@,
        ErrorCode::OracleDataError => "Get oracle data error"@,
        ErrorCode::EventIsFinalized => "Event is finalized"@,
        ErrorCode::EventIsNotOpen => "Event is not open"@,
        ErrorCode::EventIsOutOfTime => "Event is out of time for choosing"@,
        ErrorCode::IndicateToNonExistedOption => "Indicate to a non-existed option"@,
        ErrorCode::SBTNotFound => "SBT which use for indicating is not found"@,
        ErrorCode::SBTHasBeenInUse => "SBT has been in use"@,
        ErrorCode::AlreadyInEvent => "user takes in this event already"@,
        ErrorCode::PositionNotFound => "user's position is not found"@,
        ErrorCode::EventIsOngoing => "event is still ongoing, can not be resolved now"@,
        ErrorCode::EventMarketDataError => "event market does not have original data"@,
    }
}

impl ErrorCode {
    /// The message attached to the code.
    pub fn message(&self) -> (s: &'static str)
        ensures
            s@ == error_code_text(*self),
    {
        match self {
            ErrorCode::Unauthorized => "You are not authorized to perform this action.",
            ErrorCode::ReInitialize => "The account has already been initialized.",
            ErrorCode::UnInitialize => "The account has not been initialized.",
            ErrorCode::InvalidArgument => "Argument is invalid.",
            ErrorCode::InvalidProgramId => "Program ID is invalid.",
            ErrorCode::UnexpectedAccount => "Unexpected Account.",
            ErrorCode::Overflow => "An overflow occurs.",
            ErrorCode::StringTooLong => "The string variable is too long.",
            ErrorCode::TooManyAuthorities => "Authorities limit reached",
            ErrorCode::AuthorityNotFound => "Authority not found",
            ErrorCode::ConfigMismatched => "Oracle config mismatched",
            ErrorCode::MintExceedMaxSupply => "Minting exceeds max supply limit",
            ErrorCode::NotSufficientBalance => "The transfer_from account does not have sufficient balance",
            ErrorCode::TransactionTimeout => "The transaction is timeout",
            ErrorCode::CloseAccountFailed => "Close account failed",
            ErrorCode::UnsupportedNow => "Unsupported now",
            ErrorCode::OracleDataError => "Get oracle data error",
            ErrorCode::EventIsFinalized => "Event is finalized",
            ErrorCode::EventIsNotOpen => "Event is not open",
            ErrorCode::EventIsOutOfTime => "Event is out of time for choosing",
            ErrorCode::IndicateToNonExistedOption => "Indicate to a non-existed option",
            ErrorCode::SBTNotFound => "SBT which use for indicating is not found",
            ErrorCode::SBTHasBeenInUse => "SBT has been in use",
            ErrorCode::AlreadyInEvent => "user takes in this event already",
            ErrorCode::PositionNotFound => "user's position is not found",
            ErrorCode::EventIsOngoing => "event is still ongoing, can not be resolved now",
            ErrorCode::EventMarketDataError => "event market does not have original data",
        }
    }
}

/// Why an instruction that reads the clock failed: a refusal of its own, or
/// the clock sysvar could not be read.
#[derive(Clone, Copy, Debug, PartialEq, Eq)]
pub enum InstructionError {
    Code(ErrorCode),
    ClockUnavailable,
}

} // verus!

verus! {

/// The refusal an instruction error carries; a clock failure is not one.
pub open spec fn refusal_of<T>(r: Result<T, InstructionError>) -> Result<T, ErrorCode> {
    match r {
        Ok(v) => Ok(v),
        Err(InstructionError::Code(c)) => Err(c),
        Err(InstructionError::ClockUnavailable) => Err(ErrorCode::UnsupportedNow),
    }
}

/// A refusal as an instruction error.
pub fn lift_refusal<T>(r: Result<T, ErrorCode>) -> (l: Result<T, InstructionError>)
    ensures
        refusal_of(l) == r,
        l != Err::<T, InstructionError>(InstructionError::ClockUnavailable),
{
    match r {
        Ok(v) => Ok(v),
        Err(c) => Err(InstructionError::Code(c)),
    }
}

} // verus!
