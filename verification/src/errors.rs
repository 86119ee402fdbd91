//! The errors that operations report. Each is terminal for the operation that
//! reports it.

use vstd::prelude::*;

verus! {

/// Why an operation was refused.
#[derive(Clone, Copy, Debug, PartialEq, Eq, Structural)]
pub enum ErrorCode {
    EmptyUserId,
    UserIdTooLong,
    InvalidAmount,
    UnauthorizedAdmin,
    InvalidPDA,
    InvalidTokenMint,
    InsufficientBalance,
    InvalidNewAdmin,
    SameAdminUpdate,
    InvalidTreasuryATA,
    InvalidAccountList,
    InvalidUserATA,
    MismatchedArrayLengths,
    TooManyUsers,
    EmptyUserList,
    TooManyAccounts,
    ArithmeticOverflow,
}

/// The number from which error codes count.
pub const ERROR_CODE_OFFSET: u32 = 6000;

impl ErrorCode {
    /// The position of the error in the list of errors, from zero.
    pub open spec fn ordinal(&self) -> nat {
        match self {
            ErrorCode::EmptyUserId => 0,
            ErrorCode::UserIdTooLong => 1,
            ErrorCode::InvalidAmount => 2,
            ErrorCode::UnauthorizedAdmin => 3,
            ErrorCode::InvalidPDA => 4,
            ErrorCode::InvalidTokenMint => 5,
            ErrorCode::InsufficientBalance => 6,
            ErrorCode::InvalidNewAdmin => 7,
            ErrorCode::SameAdminUpdate => 8,
            ErrorCode::InvalidTreasuryATA => 9,
            ErrorCode::InvalidAccountList => 10,
            ErrorCode::InvalidUserATA => 11,
            ErrorCode::MismatchedArrayLengths => 12,
            ErrorCode::TooManyUsers => 13,
            ErrorCode::EmptyUserList => 14,
            ErrorCode::TooManyAccounts => 15,
            ErrorCode::ArithmeticOverflow => 16,
        }
    }

    /// The message of the error, for people.
    pub open spec fn message_text(&self) -> Seq<char> {
        match self {
            ErrorCode::EmptyUserId => "User ID cannot be empty"@,
            ErrorCode::UserIdTooLong => "User ID too long (max 50 characters)"@,
            ErrorCode::InvalidAmount => "Amount must be greater than 0"@,
            ErrorCode::UnauthorizedAdmin => "Unauthorized: Only admin can perform this action"@,
            ErrorCode::InvalidPDA => "Invalid PDA derivation"@,
            ErrorCode::InvalidTokenMint => "Invalid token mint"@,
            ErrorCode::InsufficientBalance => "Insufficient balance"@,
            ErrorCode::InvalidNewAdmin => "Invalid new admin address"@,
            ErrorCode::SameAdminUpdate => "Cannot set same admin"@,
            ErrorCode::InvalidTreasuryATA => "Invalid treasury ATA"@,
            ErrorCode::InvalidAccountList => "Invalid number of remaining accounts, must be even"@,
            ErrorCode::InvalidUserATA => "User PDA and ATA do not match"@,
            ErrorCode::MismatchedArrayLengths => "Mismatched array lengths for user_ids and amounts"@,
            ErrorCode::TooManyUsers => "Too many users (maximum 5 allowed)"@,
            ErrorCode::EmptyUserList => "User list cannot be empty"@,
            ErrorCode::TooManyAccounts => "Too many accounts provided"@,
            ErrorCode::ArithmeticOverflow => "Arithmetic overflow occurred"@,
        }
    }

    /// The name of the error, as it is written in the list of errors.
    pub open spec fn name_text(&self) -> Seq<char> {
        match self {
            ErrorCode::EmptyUserId => "EmptyUserId"@,
            ErrorCode::UserIdTooLong => "UserIdTooLong"@,
            ErrorCode::InvalidAmount => "InvalidAmount"@,
            ErrorCode::UnauthorizedAdmin => "UnauthorizedAdmin"@,
            ErrorCode::InvalidPDA => "InvalidPDA"@,
            ErrorCode::InvalidTokenMint => "InvalidTokenMint"@,
            ErrorCode::InsufficientBalance => "InsufficientBalance"@,
            ErrorCode::InvalidNewAdmin => "InvalidNewAdmin"@,
            ErrorCode::SameAdminUpdate => "SameAdminUpdate"@,
            ErrorCode::InvalidTreasuryATA => "InvalidTreasuryATA"@,
            ErrorCode::InvalidAccountList => "InvalidAccountList"@,
            ErrorCode::InvalidUserATA => "InvalidUserATA"@,
            ErrorCode::MismatchedArrayLengths => "MismatchedArrayLengths"@,
            ErrorCode::TooManyUsers => "TooManyUsers"@,
            ErrorCode::EmptyUserList => "EmptyUserList"@,
            ErrorCode::TooManyAccounts => "TooManyAccounts"@,
            ErrorCode::ArithmeticOverflow => "ArithmeticOverflow"@,
        }
    }

    /// The stable number by which a machine tells the error: its position in
    /// the list, counted from `ERROR_CODE_OFFSET`.
    pub fn code(&self) -> (code: u32)
        ensures
            code == ERROR_CODE_OFFSET + self.ordinal(),
    {
        match self {
            ErrorCode::EmptyUserId => 6000,
            ErrorCode::UserIdTooLong => 6001,
            ErrorCode::InvalidAmount => 6002,
            ErrorCode::UnauthorizedAdmin => 6003,
            ErrorCode::InvalidPDA => 6004,
            ErrorCode::InvalidTokenMint => 6005,
            ErrorCode::InsufficientBalance => 6006,
            ErrorCode::InvalidNewAdmin => 6007,
            ErrorCode::SameAdminUpdate => 6008,
            ErrorCode::InvalidTreasuryATA => 6009,
            ErrorCode::InvalidAccountList => 6010,
            ErrorCode::InvalidUserATA => 6011,
            ErrorCode::MismatchedArrayLengths => 6012,
            ErrorCode::TooManyUsers => 6013,
            ErrorCode::EmptyUserList => 6014,
            ErrorCode::TooManyAccounts => 6015,
            ErrorCode::ArithmeticOverflow => 6016,
        }
    }

    /// The name of the error.
    pub fn name(&self) -> (name: &'static str)
        ensures
            name@ == self.name_text(),
    {
        match self {
            ErrorCode::EmptyUserId => "EmptyUserId",
            ErrorCode::UserIdTooLong => "UserIdTooLong",
            ErrorCode::InvalidAmount => "InvalidAmount",
            ErrorCode::UnauthorizedAdmin => "UnauthorizedAdmin",
            ErrorCode::InvalidPDA => "InvalidPDA",
            ErrorCode::InvalidTokenMint => "InvalidTokenMint",
            ErrorCode::InsufficientBalance => "InsufficientBalance",
            ErrorCode::InvalidNewAdmin => "InvalidNewAdmin",
            ErrorCode::SameAdminUpdate => "SameAdminUpdate",
            ErrorCode::InvalidTreasuryATA => "InvalidTreasuryATA",
            ErrorCode::InvalidAccountList => "InvalidAccountList",
            ErrorCode::InvalidUserATA => "InvalidUserATA",
            ErrorCode::MismatchedArrayLengths => "MismatchedArrayLengths",
            ErrorCode::TooManyUsers => "TooManyUsers",
            ErrorCode::EmptyUserList => "EmptyUserList",
            ErrorCode::TooManyAccounts => "TooManyAccounts",
            ErrorCode::ArithmeticOverflow => "ArithmeticOverflow",
        }
    }

    /// The message of the error.
    pub fn message(&self) -> (message: &'static str)
        ensures
            message@ == self.message_text(),
    {
        match self {
            ErrorCode::EmptyUserId => "User ID cannot be empty",
            ErrorCode::UserIdTooLong => "User ID too long (max 50 characters)",
            ErrorCode::InvalidAmount => "Amount must be greater than 0",
            ErrorCode::UnauthorizedAdmin => "Unauthorized: Only admin can perform this action",
            ErrorCode::InvalidPDA => "Invalid PDA derivation",
            ErrorCode::InvalidTokenMint => "Invalid token mint",
            ErrorCode::InsufficientBalance => "Insufficient balance",
            ErrorCode::InvalidNewAdmin => "Invalid new admin address",
            ErrorCode::SameAdminUpdate => "Cannot set same admin",
            ErrorCode::InvalidTreasuryATA => "Invalid treasury ATA",
            ErrorCode::InvalidAccountList => "Invalid number of remaining accounts, must be even",
            ErrorCode::InvalidUserATA => "User PDA and ATA do not match",
            ErrorCode::MismatchedArrayLengths => "Mismatched array lengths for user_ids and amounts",
            ErrorCode::TooManyUsers => "Too many users (maximum 5 allowed)",
            ErrorCode::EmptyUserList => "User list cannot be empty",
            ErrorCode::TooManyAccounts => "Too many accounts provided",
            ErrorCode::ArithmeticOverflow => "Arithmetic overflow occurred",
        }
    }
}

/// Distinct errors have distinct codes.
pub proof fn lemma_codes_are_distinct(a: ErrorCode, b: ErrorCode)
    ensures
        a.ordinal() == b.ordinal() <==> a == b,
        a.ordinal() <= 16,
{
}

/// Why a record could not be created.
#[derive(Clone, Copy, Debug, PartialEq, Eq, Structural)]
pub enum CreationError {
    /// A record already exists at the address; it was left as it is.
    AlreadyExists,
    /// The request was refused for the given reason.
    Rejected(ErrorCode),
}

} // verus!
