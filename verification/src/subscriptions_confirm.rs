//! The confirmation flow's decisions and error taxonomy.
//!
//! The flow itself — query parsing and the database reads and writes — lives
//! with the external collaborators. What is here is the decision: which
//! answer an incoming token earns, and whether the status update is issued.

use vstd::prelude::*;

verus! {

/// Why a confirmation request failed.
#[derive(Debug)]
pub enum ConfirmError {
    /// The submitted token was rejected; carries the reason.
    ValidationError(String),
    /// A collaborator failed underneath; carries the context message.
    UnexpectedError(String),
}

impl ConfirmError {
    /// The HTTP status the web layer answers with: a client error for a
    /// rejected token, a server error for everything unexpected.
    pub fn status_code(&self) -> (r: u16)
        ensures
            r == match self {
                ConfirmError::ValidationError(_) => 400int,
                ConfirmError::UnexpectedError(_) => 500int,
            },
    {
        match self {
            ConfirmError::ValidationError(_) => 400,
            ConfirmError::UnexpectedError(_) => 500,
        }
    }
}

/// The query parameters of a confirmation request.
#[derive(Debug)]
pub struct Parameters {
    pub subscription_token: String,
}

/// What the confirmation flow answers, and whether it writes.
#[derive(Clone, Copy, Debug, PartialEq, Eq, Structural)]
pub struct ConfirmStep {
    /// The HTTP status to answer with.
    pub status: u16,
    /// The subscriber whose status row is updated, if any.
    pub update: Option<u128>,
}

/// Decide the confirmation flow's answer once the token lookup has come
/// back, and — for a known token — once the status check has. A token no row
/// points at is answered as unauthorized. For a known subscriber the flow
/// answers OK and marks them confirmed; a subscriber whose status already
/// reads confirmed is left as they are, so confirming twice is harmless.
pub fn confirm_next_step(subscriber_id: &Option<u128>, is_confirmed: bool) -> (r: ConfirmStep)
    ensures
        match subscriber_id {
            Option::None => r == (ConfirmStep { status: 401u16, update: Option::None }),
            Option::Some(id) => r == (ConfirmStep {
                status: 200u16,
                update: if is_confirmed {
                    Option::None
                } else {
                    Option::Some(*id)
                },
            }),
        },
{
    match subscriber_id {
        Option::None => ConfirmStep { status: 401, update: Option::None },
        Option::Some(id) => ConfirmStep {
            status: 200,
            update: if is_confirmed {
                Option::None
            } else {
                Option::Some(*id)
            },
        },
    }
}

} // verus!
