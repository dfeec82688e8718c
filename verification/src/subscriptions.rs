//! The sign-up flow's decisions and error taxonomy.
//!
//! The flow itself — form parsing, database lookups, sending the
//! confirmation email — lives with the external collaborators. What is here
//! is what the flow decides: which step to take for an already-known
//! address, which status code each failure maps to, and the text an error
//! chain renders to.

use vstd::prelude::*;
use vstd::string::StringExecFns;

use crate::domain::pending_confirmation_status;

verus! {

/// Why a subscribe request failed.
#[derive(Debug)]
pub enum SubscribeError {
    /// The submitted name or email was rejected; carries the reason.
    ValidationError(String),
    /// A collaborator failed underneath; carries the context message.
    UnexpectedError(String),
}

impl SubscribeError {
    /// The HTTP status the web layer answers with: a client error for
    /// rejected input, a server error for everything unexpected.
    pub fn status_code(&self) -> (r: u16)
        ensures
            r == match self {
                SubscribeError::ValidationError(_) => 400int,
                SubscribeError::UnexpectedError(_) => 500int,
            },
    {
        match self {
            SubscribeError::ValidationError(_) => 400,
            SubscribeError::UnexpectedError(_) => 500,
        }
    }
}

/// What the sign-up flow does once the lookup for an existing subscriber
/// with the submitted email has come back.
#[derive(Debug)]
pub enum SubscribeStep {
    /// Unknown address: insert the subscriber with a fresh token, then send
    /// the confirmation email.
    CreateAndSend,
    /// Known address, still pending: fetch this subscriber's stored token
    /// and resend the confirmation email.
    ResendConfirmation(u128),
    /// Known address, already past pending: nothing to do.
    AlreadyHandled,
}

/// Decide the sign-up flow's next step from the existing-subscriber lookup:
/// the pair is the subscriber's identifier and stored status, if a row with
/// the submitted email exists.
pub fn subscribe_next_step(existing: &Option<(u128, String)>) -> (r: SubscribeStep)
    ensures
        match existing {
            Option::None => r is CreateAndSend,
            Option::Some(p) => if p.1@ == pending_confirmation_status() {
                r matches SubscribeStep::ResendConfirmation(id) && id == p.0
            } else {
                r is AlreadyHandled
            },
        },
{
    match existing {
        Option::None => SubscribeStep::CreateAndSend,
        Option::Some(p) => {
            if p.1 == String::from_str("pending_confirmation") {
                SubscribeStep::ResendConfirmation(p.0)
            } else {
                SubscribeStep::AlreadyHandled
            }
        },
    }
}

/// One "Caused by" line per source in the chain, in order.
pub open spec fn caused_by_lines(causes: Seq<Seq<char>>) -> Seq<char>
    decreases causes.len(),
{
    if causes.len() == 0 {
        Seq::empty()
    } else {
        caused_by_lines(causes.drop_last()) + "Caused by:\n\t"@ + causes.last() + "\n"@
    }
}

/// The text an error and its chain of sources render to: the error's own
/// message framed by blank lines, then one line per cause.
pub open spec fn error_chain_text(error: Seq<char>, causes: Seq<Seq<char>>) -> Seq<char> {
    "\n"@ + error + "\n\n"@ + caused_by_lines(causes)
}

/// The messages of a cause chain, as the contracts see them.
pub open spec fn messages_model(causes: Seq<String>) -> Seq<Seq<char>> {
    causes.map_values(|c: String| c@)
}

/// Render an error's message and the messages of its sources, outermost
/// first, to the chain text that diagnostics print.
pub fn error_chain_fmt(error: &String, causes: &Vec<String>) -> (r: String)
    ensures
        r@ == error_chain_text(error@, messages_model(causes@)),
{
    let ghost msgs = messages_model(causes@);
    let mut out = String::from_str("\n");
    out.append(error.as_str());
    out.append("\n\n");
    let mut i: usize = 0;
    while i < causes.len()
        invariant
            i <= causes@.len(),
            msgs == messages_model(causes@),
            out@ == error_chain_text(error@, msgs.take(i as int)),
        decreases causes@.len() - i,
    {
        out.append("Caused by:\n\t");
        out.append(causes[i].as_str());
        out.append("\n");
        proof {
            assert(msgs.take(i + 1).drop_last() =~= msgs.take(i as int));
            assert(msgs.take(i + 1).last() == msgs[i as int]);
        }
        i += 1;
    }
    proof {
        assert(msgs.take(causes@.len() as int) =~= msgs);
    }
    out
}

} // verus!
