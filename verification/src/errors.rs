use vstd::prelude::*;

verus! {

/// The reasons an operation is rejected. A rejected operation mutates
/// nothing: every failure is all-or-nothing.
#[derive(Clone, Copy, Debug, PartialEq, Eq, Structural)]
pub enum ErrorCode {
    /// The record's `is_active` flag is false.
    UserInactive,
    /// A contribution reported zero total volume.
    InvalidBandwidth,
    /// A claim named a zero token amount, or the settlement rounded to zero.
    InvalidAmount,
    /// The caller's identity does not match the record's owner.
    Unauthorized,
    /// A claim would push `tokens_claimed` above `tokens_earned`.
    InsufficientBalance,
    /// A counter increment would exceed its representable range.
    Overflow,
    /// A record to be created already exists for that key.
    AlreadyExists,
    /// No record exists for the named key.
    NotFound,
}

} // verus!
