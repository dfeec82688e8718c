//! Subscription tokens for email confirmation.
//!
//! A distinct value type from the idempotency key: exactly 25 ASCII
//! alphanumeric characters, used once to confirm a subscriber's address,
//! never for request deduplication.

use vstd::prelude::*;
use vstd::string::StrSliceExecFns;
use vstd::string::StringExecFns;

verus! {

/// Length of every subscription token, in characters.
pub const TOKEN_LEN: usize = 25;

/// An ASCII alphanumeric character: 0-9, A-Z or a-z.
pub open spec fn is_ascii_alphanumeric_char(c: char) -> bool {
    ||| 48 <= c as u32 <= 57
    ||| 65 <= c as u32 <= 90
    ||| 97 <= c as u32 <= 122
}

/// The token rule: exactly [`TOKEN_LEN`] characters, all ASCII alphanumeric.
pub open spec fn token_valid(s: Seq<char>) -> bool {
    &&& s.len() == TOKEN_LEN
    &&& forall|i: int| 0 <= i < s.len() ==> is_ascii_alphanumeric_char(s[i])
}

/// A validated subscription token.
#[derive(Debug)]
pub struct SubscriptionToken(String);

impl View for SubscriptionToken {
    type V = Seq<char>;

    closed spec fn view(&self) -> Seq<char> {
        self.0@
    }
}

#[verifier::external_type_specification]
#[verifier::external_body]
pub struct ExThreadRng(rand::rngs::ThreadRng);

/// Relies on `rand::thread_rng`: a handle to the thread-local random
/// generator. Nothing is promised of it.
#[verifier::external_body]
fn new_rng() -> rand::rngs::ThreadRng {
    rand::thread_rng()
}

/// Relies on rand's `Alphanumeric` distribution: every sample is drawn from
/// the 62 characters 0-9, A-Z, a-z, so the converted character is ASCII
/// alphanumeric. Which one comes out is random, and nothing more is promised.
#[verifier::external_body]
fn sample_alphanumeric(rng: &mut rand::rngs::ThreadRng) -> (c: char)
    ensures
        is_ascii_alphanumeric_char(c),
{
    char::from(rand::Rng::sample(rng, rand::distributions::Alphanumeric))
}

/// Relies on `String::push`: appends exactly one character.
#[verifier::external_body]
fn push_char(s: &mut String, c: char)
    ensures
        final(s)@ == old(s)@.push(c),
{
    s.push(c);
}

impl SubscriptionToken {
    /// Draw a fresh random token: [`TOKEN_LEN`] alphanumeric characters.
    pub fn new() -> (t: SubscriptionToken)
        ensures
            token_valid(t@),
    {
        let mut rng = new_rng();
        let mut s = String::new();
        let mut i: usize = 0;
        while i < TOKEN_LEN
            invariant
                i <= TOKEN_LEN,
                s@.len() == i,
                forall|j: int| 0 <= j < i ==> is_ascii_alphanumeric_char(s@[j]),
            decreases TOKEN_LEN - i,
        {
            let c = sample_alphanumeric(&mut rng);
            push_char(&mut s, c);
            i += 1;
        }
        SubscriptionToken(s)
    }

    /// Validate a raw token: accepted exactly when it is [`TOKEN_LEN`]
    /// characters long and every character is ASCII alphanumeric.
    pub fn parse(s: String) -> (r: Result<SubscriptionToken, String>)
        ensures
            match r {
                Ok(t) => t@ == s@ && token_valid(s@),
                Err(e) => !token_valid(s@) && e@ == s@ + " is not a valid subscription token"@,
            },
    {
        let n = s.as_str().unicode_len();
        let mut i: usize = 0;
        let mut all_alphanumeric = true;
        while i < n
            invariant
                i <= n,
                n == s@.len(),
                all_alphanumeric == (forall|j: int|
                    0 <= j < i ==> is_ascii_alphanumeric_char(s@[j])),
            decreases n - i,
        {
            let c = s.as_str().get_char(i);
            let u = c as u32;
            let c_ok = (48 <= u && u <= 57) || (65 <= u && u <= 90) || (97 <= u && u <= 122);
            all_alphanumeric = all_alphanumeric && c_ok;
            i += 1;
        }
        if all_alphanumeric && n == TOKEN_LEN {
            Ok(SubscriptionToken(s))
        } else {
            Err(s.concat(" is not a valid subscription token"))
        }
    }

    /// The token's characters.
    pub fn as_ref(&self) -> (r: &str)
        ensures
            r@ == self@,
    {
        self.0.as_str()
    }
}

impl Default for SubscriptionToken {
    /// A fresh random token, as [`SubscriptionToken::new`] draws it.
    fn default() -> (t: SubscriptionToken)
        ensures
            token_valid(t@),
    {
        SubscriptionToken::new()
    }
}

} // verus!
