//! The typed failures of the math core.
//!
//! There are two of them, each with a fixed code and a fixed message. A value
//! of [`VectorServiceError`] is always one of the two: the fields are private
//! and only the two constructors make one.

use vstd::prelude::*;
use crate::decimal::{decimal, push_decimal};

verus! {

/// Code of the failure "the two operands differ in length".
pub const LENGTH_MISMATCH: i32 = 1;

/// Code of the failure "the radicand is strictly negative".
pub const INVALID_RADICAND: i32 = 2;

/// The message that goes with [`LENGTH_MISMATCH`].
pub open spec fn length_mismatch_message() -> Seq<char> {
    "vectors must have the same length"@
}

/// The message that goes with [`INVALID_RADICAND`].
pub open spec fn invalid_radicand_message() -> Seq<char> {
    "sqrt called with a strictly negative number"@
}

/// What an error holds: its code and its message.
pub struct ErrorView {
    pub code: int,
    pub message: Seq<char>,
}

/// The view of the length mismatch.
pub open spec fn length_mismatch_view() -> ErrorView {
    ErrorView { code: LENGTH_MISMATCH as int, message: length_mismatch_message() }
}

/// The view of the invalid radicand.
pub open spec fn invalid_radicand_view() -> ErrorView {
    ErrorView { code: INVALID_RADICAND as int, message: invalid_radicand_message() }
}

/// The text an error is shown as: `VectorServiceError: code=`, the code in
/// decimal, `, message=`, and the message.
pub open spec fn rendering(e: ErrorView) -> Seq<char> {
    "VectorServiceError: code="@ + decimal(e.code) + ", message="@ + e.message
}

/// A failure of the math core.
#[derive(Debug)]
pub struct VectorServiceError {
    code: i32,
    message: String,
}

impl View for VectorServiceError {
    type V = ErrorView;

    closed spec fn view(&self) -> ErrorView {
        ErrorView { code: self.code as int, message: self.message@ }
    }
}

impl VectorServiceError {
    /// The codes are a closed enumeration: every error is one of the two
    /// kinds, with the message of its kind.
    #[verifier::type_invariant]
    spec fn well_formed(self) -> bool {
        self@ == length_mismatch_view() || self@ == invalid_radicand_view()
    }

    /// The failure of a dot product whose operands differ in length.
    pub fn length_mismatch() -> (e: VectorServiceError)
        ensures
            e@ == length_mismatch_view(),
    {
        VectorServiceError {
            code: LENGTH_MISMATCH,
            message: String::from_str("vectors must have the same length"),
        }
    }

    /// The failure of a square root whose radicand is strictly negative.
    pub fn invalid_radicand() -> (e: VectorServiceError)
        ensures
            e@ == invalid_radicand_view(),
    {
        VectorServiceError {
            code: INVALID_RADICAND,
            message: String::from_str("sqrt called with a strictly negative number"),
        }
    }

    /// The code of the error: 1 or 2.
    pub fn code(&self) -> (code: i32)
        ensures
            code == self@.code,
            code == LENGTH_MISMATCH || code == INVALID_RADICAND,
    {
        proof {
            use_type_invariant(self);
        }
        self.code
    }

    /// The message of the error: the one that goes with its code.
    pub fn message(&self) -> (message: &str)
        ensures
            message@ == self@.message,
            self@.code == LENGTH_MISMATCH ==> message@ == length_mismatch_message(),
            self@.code == INVALID_RADICAND ==> message@ == invalid_radicand_message(),
    {
        proof {
            use_type_invariant(self);
        }
        self.message.as_str()
    }

    /// The error as text, for a reader or for a status message.
    pub fn to_string(&self) -> (text: String)
        ensures
            text@ == rendering(self@),
    {
        let mut text = String::from_str("VectorServiceError: code=");
        push_decimal(&mut text, self.code);
        text.append(", message=");
        text.append(self.message.as_str());
        text
    }
}

} // verus!
