//! Validation of client-supplied idempotency keys.
//!
//! A raw key is accepted when, after trimming, something is left of it, and
//! it holds at most [`MAX_KEY_LEN`] characters. Validation is purely local:
//! it never touches storage, and its failures are client errors.

use vstd::prelude::*;
use vstd::string::StrSliceExecFns;

use crate::trimming::all_space;
use crate::trimming::is_blank;

verus! {

/// Longest accepted idempotency key, in characters.
pub const MAX_KEY_LEN: usize = 50;

/// Why a raw idempotency key was rejected.
#[derive(Clone, Copy, Debug, PartialEq, Eq, Structural)]
pub enum KeyError {
    /// The key was empty, or held nothing but whitespace.
    Empty,
    /// The key held more than [`MAX_KEY_LEN`] characters.
    TooLong,
}

/// The validation rule: some non-whitespace content, and not over-long.
pub open spec fn key_acceptable(s: Seq<char>) -> bool {
    &&& !all_space(s)
    &&& s.len() <= MAX_KEY_LEN
}

/// A validated idempotency key.
///
/// Immutable once constructed; [`IdempotencyKey::parse`] is the only way to
/// obtain one, so every value of this type satisfies [`key_acceptable`].
/// Case and exact characters of the raw input are preserved.
#[derive(Debug)]
pub struct IdempotencyKey {
    key: String,
}

impl View for IdempotencyKey {
    type V = Seq<char>;

    closed spec fn view(&self) -> Seq<char> {
        self.key@
    }
}

impl IdempotencyKey {
    /// Validate a raw key. Checked in order, first failure wins: a key that
    /// trims to nothing is `Empty`; one of more than [`MAX_KEY_LEN`]
    /// characters is `TooLong`. No other normalization is applied.
    pub fn parse(s: String) -> (r: Result<IdempotencyKey, KeyError>)
        ensures
            match r {
                Ok(k) => k@ == s@ && key_acceptable(s@),
                Err(KeyError::Empty) => all_space(s@),
                Err(KeyError::TooLong) => !all_space(s@) && s@.len() > MAX_KEY_LEN,
            },
    {
        if is_blank(s.as_str()) {
            Err(KeyError::Empty)
        } else if s.as_str().unicode_len() > MAX_KEY_LEN {
            Err(KeyError::TooLong)
        } else {
            Ok(IdempotencyKey { key: s })
        }
    }

    /// The validated key, as it was supplied.
    pub fn as_str(&self) -> (r: &str)
        ensures
            r@ == self@,
    {
        self.key.as_str()
    }

    /// Do two validated keys hold the same characters?
    pub fn same_as(&self, other: &IdempotencyKey) -> (r: bool)
        ensures
            r == (self@ == other@),
    {
        self.key == other.key
    }

    /// An owned copy of this key.
    pub fn duplicate(&self) -> (r: IdempotencyKey)
        ensures
            r@ == self@,
    {
        IdempotencyKey { key: self.key.clone() }
    }
}

} // verus!
