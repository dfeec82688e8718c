//! The engine's laws, stated once over the model and proved.
//!
//! Each law here speaks about every store state and every command at once;
//! the contracts of the executable functions tie their behaviour to the same
//! model, so what is proved here holds of the running code.

use vstd::prelude::*;

use crate::domain::confirmed_emails;
use crate::idempotency_key::MAX_KEY_LEN;
use crate::idempotency_key::key_acceptable;
use crate::newsletters::NewsletterDataModel;
use crate::newsletters::command_valid;
use crate::newsletters::no_subscribers_response_model;
use crate::newsletters::publish_model;
use crate::newsletters::PublishError;
use crate::response::ResponseModel;
use crate::store::DatabaseModel;
use crate::store::completed_record;
use crate::store::find_record;
use crate::store::lemma_find_record_push;
use crate::store::pending_record;
use crate::store::try_processing_model;
use crate::trimming::all_space;

verus! {

/// Law: a key of one up to [`MAX_KEY_LEN`] characters with any
/// non-whitespace content validates; an empty key, and one over the bound,
/// are rejected.
pub proof fn key_validation_bounds(s: Seq<char>)
    ensures
        1 <= s.len() <= MAX_KEY_LEN && !all_space(s) ==> key_acceptable(s),
        s.len() == 0 ==> !key_acceptable(s),
        s.len() > MAX_KEY_LEN ==> !key_acceptable(s),
{
    if s.len() == 0 {
        assert(all_space(s));
    }
}

/// Law: of two claims on the same never-before-seen (user, key), exactly
/// one starts processing. The first claim starts and leaves the record
/// pending; a claim on the resulting store conflicts, and changes nothing —
/// never a second start.
pub proof fn exclusive_claim(db: DatabaseModel, user_id: int, key: Seq<char>)
    requires
        db.wf(),
        find_record(db.records, user_id, key) is None,
    ensures
        try_processing_model(db, user_id, key).1 is Started,
        ({
            let db1 = try_processing_model(db, user_id, key).0;
            &&& find_record(db1.records, user_id, key) == Option::Some(
                pending_record(user_id, key),
            )
            &&& try_processing_model(db1, user_id, key).1 is Conflicted
            &&& try_processing_model(db1, user_id, key).0 == db1
        }),
{
    lemma_find_record_push(db.records, pending_record(user_id, key), user_id, key);
}

/// Law: issuing the same valid publish command twice with the same key
/// performs the business side effect once. After a first attempt on a fresh
/// key, the second attempt — whatever issue identifier and clock reading it
/// draws — leaves the store exactly as it found it and returns the first
/// response, byte for byte.
pub proof fn publish_replay_idempotent(
    db: DatabaseModel,
    user_id: int,
    id1: int,
    ts1: int,
    id2: int,
    ts2: int,
    form: NewsletterDataModel,
)
    requires
        db.wf(),
        command_valid(form),
        find_record(db.records, user_id, form.idempotency_key) is None,
    ensures
        ({
            let (db1, r1) = publish_model(db, user_id, id1, ts1, Option::Some(form));
            &&& r1 is Ok
            &&& publish_model(db1, user_id, id2, ts2, Option::Some(form)) == (db1, r1)
        }),
{
    let (db1, r1) = publish_model(db, user_id, id1, ts1, Option::Some(form));
    let resp = match r1 {
        Result::Ok(resp) => resp,
        Result::Err(_) => arbitrary(),
    };
    assert(db1.records == db.records.push(
        completed_record(user_id, form.idempotency_key, resp),
    ));
    lemma_find_record_push(
        db.records,
        completed_record(user_id, form.idempotency_key, resp),
        user_id,
        form.idempotency_key,
    );
}

/// Law: a command that is turned away — unparsed form, empty title or
/// content, invalid key, or a conflicting pending record — changes nothing:
/// no idempotency record is created and no side effect happens. A corrected
/// retry with the same key therefore finds the store exactly as it was and
/// still runs the business logic, once.
pub proof fn rejected_command_changes_nothing(
    db: DatabaseModel,
    user_id: int,
    issue_id: int,
    published_at: int,
    form: Option<NewsletterDataModel>,
)
    requires
        publish_model(db, user_id, issue_id, published_at, form).1 is Err,
    ensures
        publish_model(db, user_id, issue_id, published_at, form).0 == db,
{
}

/// Law: with zero confirmed subscribers, a fresh valid publish writes no
/// delivery task and no issue row; it caches the "nothing to send" outcome
/// under the key, and a retry replays exactly that outcome.
pub proof fn no_subscribers_outcome(
    db: DatabaseModel,
    user_id: int,
    id1: int,
    ts1: int,
    id2: int,
    ts2: int,
    form: NewsletterDataModel,
)
    requires
        db.wf(),
        command_valid(form),
        find_record(db.records, user_id, form.idempotency_key) is None,
        confirmed_emails(db.subscribers).len() == 0,
    ensures
        ({
            let (db1, r1) = publish_model(db, user_id, id1, ts1, Option::Some(form));
            &&& r1 == Result::<ResponseModel, PublishError>::Ok(no_subscribers_response_model())
            &&& db1.tasks == db.tasks
            &&& db1.issues == db.issues
            &&& find_record(db1.records, user_id, form.idempotency_key) == Option::Some(
                completed_record(user_id, form.idempotency_key, no_subscribers_response_model()),
            )
            &&& publish_model(db1, user_id, id2, ts2, Option::Some(form)) == (db1, r1)
        }),
{
    lemma_find_record_push(
        db.records,
        completed_record(user_id, form.idempotency_key, no_subscribers_response_model()),
        user_id,
        form.idempotency_key,
    );
    publish_replay_idempotent(db, user_id, id1, ts1, id2, ts2, form);
}

} // verus!
