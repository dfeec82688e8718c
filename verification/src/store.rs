//! The idempotency store and the backing database it lives in.
//!
//! The store owns the idempotency-record table: one row per (user, key)
//! pair, unique together. A row is *pending* while a claiming request is in
//! flight and *completed* once the response has been stamped into it; it
//! never reverts. [`try_processing`] is the claim: the atomic transition of
//! a record from absent to pending, which grants the exclusive right to run
//! the command's side effects and hands back an open [`Transaction`].
//! [`save_response`] extends that transaction with the buffered business
//! writes and commits everything — issue row, delivery tasks, and the
//! completed record — atomically.

use vstd::prelude::*;
use vstd::pervasive::VecAdditionalExecFns;
use vstd::pervasive::unreached;
use vstd::string::StringExecFns;

use crate::domain::DeliveryTask;
use crate::domain::IssueModel;
use crate::domain::NewsletterIssue;
use crate::domain::Subscriber;
use crate::domain::SubscriberModel;
use crate::domain::TaskModel;
use crate::idempotency_key::IdempotencyKey;
use crate::response::ResponseModel;
use crate::response::StoredResponse;

verus! {

/// One idempotency record. `response` is `None` while the row is pending and
/// `Some` once it is completed.
#[derive(Debug)]
pub struct IdempotencyRecord {
    pub user_id: u128,
    pub key: IdempotencyKey,
    pub response: Option<StoredResponse>,
}

/// What an [`IdempotencyRecord`] holds, for contracts.
#[verifier::ext_equal]
pub struct RecordModel {
    pub user_id: int,
    pub key: Seq<char>,
    pub response: Option<ResponseModel>,
}

impl View for IdempotencyRecord {
    type V = RecordModel;

    open spec fn view(&self) -> RecordModel {
        RecordModel {
            user_id: self.user_id as int,
            key: self.key@,
            response: match self.response {
                Option::None => Option::None,
                Option::Some(r) => Option::Some(r@),
            },
        }
    }
}

/// A record freshly claimed and not yet completed.
pub open spec fn pending_record(user_id: int, key: Seq<char>) -> RecordModel {
    RecordModel { user_id, key, response: Option::None }
}

/// A record whose response has been stamped in.
pub open spec fn completed_record(user_id: int, key: Seq<char>, response: ResponseModel) -> RecordModel {
    RecordModel { user_id, key, response: Option::Some(response) }
}

/// Does this record belong to the given (user, key) pair?
pub open spec fn record_matches(r: RecordModel, user_id: int, key: Seq<char>) -> bool {
    r.user_id == user_id && r.key == key
}

/// The record for (user, key), if any: the table holds at most one.
pub open spec fn find_record(records: Seq<RecordModel>, user_id: int, key: Seq<char>) -> Option<
    RecordModel,
>
    decreases records.len(),
{
    if records.len() == 0 {
        Option::None
    } else if record_matches(records[0], user_id, key) {
        Option::Some(records[0])
    } else {
        find_record(records.drop_first(), user_id, key)
    }
}

/// The uniqueness constraint on (user, key) that the storage engine enforces.
pub open spec fn unique_keys(records: Seq<RecordModel>) -> bool {
    forall|i: int, j: int|
        0 <= i < j < records.len() ==> !(records[i].user_id == records[j].user_id
            && records[i].key == records[j].key)
}

/// A record table, row by row, as the contracts see it.
pub open spec fn records_model(rows: Seq<IdempotencyRecord>) -> Seq<RecordModel> {
    rows.map_values(|x: IdempotencyRecord| x@)
}

/// Stamping a response into the (user, key) record, leaving every other row
/// as it was.
pub open spec fn complete_record_in(
    records: Seq<RecordModel>,
    user_id: int,
    key: Seq<char>,
    response: ResponseModel,
) -> Seq<RecordModel> {
    records.map_values(
        |r: RecordModel|
            if record_matches(r, user_id, key) {
                completed_record(r.user_id, r.key, response)
            } else {
                r
            },
    )
}

/// The whole backing store: the two business tables, the delivery queue,
/// and the idempotency-record table, all behind one transaction boundary.
#[derive(Debug)]
pub struct Database {
    pub subscribers: Vec<Subscriber>,
    pub issues: Vec<NewsletterIssue>,
    pub tasks: Vec<DeliveryTask>,
    pub records: Vec<IdempotencyRecord>,
}

/// What a [`Database`] holds, for contracts.
#[verifier::ext_equal]
pub struct DatabaseModel {
    pub subscribers: Seq<SubscriberModel>,
    pub issues: Seq<IssueModel>,
    pub tasks: Seq<TaskModel>,
    pub records: Seq<RecordModel>,
}

impl View for Database {
    type V = DatabaseModel;

    open spec fn view(&self) -> DatabaseModel {
        DatabaseModel {
            subscribers: crate::domain::subscribers_model(self.subscribers@),
            issues: crate::domain::issues_model(self.issues@),
            tasks: crate::domain::tasks_model(self.tasks@),
            records: records_model(self.records@),
        }
    }
}

impl DatabaseModel {
    /// The storage engine keeps (user, key) unique across the record table.
    pub open spec fn wf(self) -> bool {
        unique_keys(self.records)
    }
}

impl Database {
    pub open spec fn wf(&self) -> bool {
        self@.wf()
    }

    /// An empty store.
    pub fn new() -> (r: Database)
        ensures
            r@.subscribers == Seq::<SubscriberModel>::empty(),
            r@.issues == Seq::<IssueModel>::empty(),
            r@.tasks == Seq::<TaskModel>::empty(),
            r@.records == Seq::<RecordModel>::empty(),
            r.wf(),
    {
        let r = Database {
            subscribers: Vec::new(),
            issues: Vec::new(),
            tasks: Vec::new(),
            records: Vec::new(),
        };
        proof {
            assert(r@.subscribers =~= Seq::<SubscriberModel>::empty());
            assert(r@.issues =~= Seq::<IssueModel>::empty());
            assert(r@.tasks =~= Seq::<TaskModel>::empty());
            assert(r@.records =~= Seq::<RecordModel>::empty());
        }
        r
    }

    /// Add a subscriber row; returns its position, which serves as the
    /// subscriber's identifier. The sign-up flow itself lives with the
    /// external collaborators.
    pub fn add_subscriber(&mut self, email: String, status: String) -> (id: usize)
        requires
            old(self).wf(),
        ensures
            final(self).wf(),
            id == old(self)@.subscribers.len(),
            final(self)@.subscribers == old(self)@.subscribers.push(
                SubscriberModel { email: email@, status: status@ },
            ),
            final(self)@.issues == old(self)@.issues,
            final(self)@.tasks == old(self)@.tasks,
            final(self)@.records == old(self)@.records,
    {
        let id = self.subscribers.len();
        self.subscribers.push(Subscriber { email, status });
        proof {
            assert(self@.subscribers =~= old(self)@.subscribers.push(
                self.subscribers@.last()@,
            ));
            assert(self@.issues =~= old(self)@.issues);
            assert(self@.tasks =~= old(self)@.tasks);
            assert(self@.records =~= old(self)@.records);
        }
        id
    }

    /// The first subscriber row with this email, if any: its position and
    /// its stored status.
    pub fn find_subscriber(&self, email: &str) -> (r: Option<(usize, String)>)
        ensures
            match r {
                Option::Some(p) => p.0 < self@.subscribers.len() && self@.subscribers[p.0 as int].email
                    == email@ && p.1@ == self@.subscribers[p.0 as int].status && forall|j: int|
                    0 <= j < p.0 ==> self@.subscribers[j].email != email@,
                Option::None => forall|j: int|
                    0 <= j < self@.subscribers.len() ==> self@.subscribers[j].email != email@,
            },
    {
        let target = email.to_owned();
        let mut i: usize = 0;
        while i < self.subscribers.len()
            invariant
                i <= self.subscribers@.len(),
                target@ == email@,
                forall|j: int| 0 <= j < i ==> self@.subscribers[j].email != email@,
            decreases self.subscribers@.len() - i,
        {
            if self.subscribers[i].email == target {
                let status = self.subscribers[i].status.clone();
                return Option::Some((i, status));
            }
            i += 1;
        }
        Option::None
    }

    /// How many subscriber rows the table holds; positions below this count
    /// are valid subscriber identifiers.
    pub fn subscriber_count(&self) -> (r: usize)
        ensures
            r == self@.subscribers.len(),
    {
        self.subscribers.len()
    }

    /// Whether the subscriber row at this position reads confirmed.
    pub fn subscriber_is_confirmed(&self, subscriber_id: usize) -> (r: bool)
        requires
            subscriber_id < self@.subscribers.len(),
        ensures
            r == self@.subscribers[subscriber_id as int].is_confirmed(),
    {
        self.subscribers[subscriber_id].is_confirmed()
    }

    /// Mark the subscriber row at this position as confirmed; its email and
    /// every other table are left untouched.
    pub fn confirm_subscriber(&mut self, subscriber_id: usize)
        requires
            old(self).wf(),
            subscriber_id < old(self)@.subscribers.len(),
        ensures
            final(self).wf(),
            final(self)@.subscribers == old(self)@.subscribers.update(
                subscriber_id as int,
                SubscriberModel {
                    email: old(self)@.subscribers[subscriber_id as int].email,
                    status: crate::domain::confirmed_status(),
                },
            ),
            final(self)@.issues == old(self)@.issues,
            final(self)@.tasks == old(self)@.tasks,
            final(self)@.records == old(self)@.records,
    {
        let email = self.subscribers[subscriber_id].email.clone();
        self.subscribers.set(
            subscriber_id,
            Subscriber { email, status: String::from_str("confirmed") },
        );
        proof {
            assert(self@.subscribers =~= old(self)@.subscribers.update(
                subscriber_id as int,
                SubscriberModel {
                    email: old(self)@.subscribers[subscriber_id as int].email,
                    status: crate::domain::confirmed_status(),
                },
            ));
            assert(self@.issues =~= old(self)@.issues);
            assert(self@.tasks =~= old(self)@.tasks);
            assert(self@.records =~= old(self)@.records);
        }
    }
}

/// An open database transaction, handed out by [`try_processing`] to the one
/// caller that claimed the key. Business writes are buffered in it and become
/// durable all at once when [`save_response`] commits. Dropping it instead
/// models a crash before commit: the pending row stays, the buffered writes
/// are lost.
#[derive(Debug)]
pub struct Transaction {
    pub user_id: u128,
    pub key: IdempotencyKey,
    pub issue: Option<NewsletterIssue>,
    pub tasks: Vec<DeliveryTask>,
}

/// What a [`Transaction`] has buffered, for contracts.
#[verifier::ext_equal]
pub struct TransactionModel {
    pub user_id: int,
    pub key: Seq<char>,
    pub issue: Option<IssueModel>,
    pub tasks: Seq<TaskModel>,
}

impl View for Transaction {
    type V = TransactionModel;

    open spec fn view(&self) -> TransactionModel {
        TransactionModel {
            user_id: self.user_id as int,
            key: self.key@,
            issue: match self.issue {
                Option::None => Option::None,
                Option::Some(i) => Option::Some(i@),
            },
            tasks: crate::domain::tasks_model(self.tasks@),
        }
    }
}

/// What a claim attempt does to the store, and which of the three outcomes
/// it takes: for an absent record it inserts the pending row and starts
/// processing; for a completed one it replays the saved response; for a
/// pending one it conflicts, fail-fast, leaving the store as it was.
pub open spec fn try_processing_model(db: DatabaseModel, user_id: int, key: Seq<char>) -> (
    DatabaseModel,
    ClaimOutcome,
) {
    match find_record(db.records, user_id, key) {
        Option::None => (
            DatabaseModel { records: db.records.push(pending_record(user_id, key)), ..db },
            ClaimOutcome::Started,
        ),
        Option::Some(rec) => match rec.response {
            Option::None => (db, ClaimOutcome::Conflicted),
            Option::Some(resp) => (db, ClaimOutcome::Replayed(resp)),
        },
    }
}

/// The three ways a claim attempt can end, at the model level.
pub enum ClaimOutcome {
    Started,
    Replayed(ResponseModel),
    Conflicted,
}

/// What committing a transaction does to the store: the buffered issue row
/// and delivery tasks are appended, and the response is stamped into the
/// claimed record — one atomic step.
pub open spec fn save_response_model(
    db: DatabaseModel,
    txn: TransactionModel,
    response: ResponseModel,
) -> DatabaseModel {
    DatabaseModel {
        records: complete_record_in(db.records, txn.user_id, txn.key, response),
        issues: db.issues + match txn.issue {
            Option::None => Seq::empty(),
            Option::Some(i) => seq![i],
        },
        tasks: db.tasks + txn.tasks,
        subscribers: db.subscribers,
    }
}

/// What [`try_processing`] hands back.
#[derive(Debug)]
pub enum NextAction {
    /// The claim succeeded: run the business transaction on this handle.
    StartProcessing(Transaction),
    /// The command already completed: replay this response verbatim.
    ReturnSavedResponse(StoredResponse),
}

/// A store operation that could not proceed.
#[derive(Clone, Copy, Debug, PartialEq, Eq, Structural)]
pub enum StoreError {
    /// A record for the key exists but is still pending: a concurrent or
    /// crashed execution. Retryable; the store never blocks waiting for it.
    ConflictPending,
}

/// `find_record` is `None` exactly when no row matches.
pub proof fn lemma_find_record_none(records: Seq<RecordModel>, user_id: int, key: Seq<char>)
    ensures
        find_record(records, user_id, key) is None <==> forall|i: int|
            0 <= i < records.len() ==> !record_matches(records[i], user_id, key),
    decreases records.len(),
{
    if records.len() > 0 {
        lemma_find_record_none(records.drop_first(), user_id, key);
        if forall|i: int| 0 <= i < records.len() ==> !record_matches(records[i], user_id, key) {
            assert forall|i: int|
                0 <= i < records.drop_first().len() implies !record_matches(
                records.drop_first()[i],
                user_id,
                key,
            ) by {
                assert(records.drop_first()[i] == records[i + 1]);
            }
        }
        if find_record(records, user_id, key) is None {
            assert(find_record(records.drop_first(), user_id, key) is None);
            assert forall|i: int|
                0 <= i < records.len() implies !record_matches(records[i], user_id, key) by {
                if i > 0 {
                    assert(records.drop_first()[i - 1] == records[i]);
                }
            }
        }
    }
}

/// When the first match sits at position `i`, `find_record` returns it.
pub proof fn lemma_find_record_at(records: Seq<RecordModel>, user_id: int, key: Seq<char>, i: int)
    requires
        0 <= i < records.len(),
        record_matches(records[i], user_id, key),
        forall|j: int| 0 <= j < i ==> !record_matches(records[j], user_id, key),
    ensures
        find_record(records, user_id, key) == Option::Some(records[i]),
    decreases i,
{
    if i > 0 {
        assert(forall|j: int|
            0 <= j < records.drop_first().len() ==> records.drop_first()[j] == records[j + 1]);
        lemma_find_record_at(records.drop_first(), user_id, key, i - 1);
    }
}

/// Appending a fresh row: lookups of that row's pair now find it; lookups of
/// any pair already present are unchanged.
pub proof fn lemma_find_record_push(
    records: Seq<RecordModel>,
    r: RecordModel,
    user_id: int,
    key: Seq<char>,
)
    ensures
        find_record(records.push(r), user_id, key) == match find_record(records, user_id, key) {
            Option::Some(prev) => Option::Some(prev),
            Option::None => if record_matches(r, user_id, key) {
                Option::Some(r)
            } else {
                Option::None
            },
        },
    decreases records.len(),
{
    if records.len() == 0 {
        assert(records.push(r).drop_first() =~= records);
    } else {
        assert(records.push(r).drop_first() =~= records.drop_first().push(r));
        lemma_find_record_push(records.drop_first(), r, user_id, key);
    }
}

/// The record for (user, key), if any, found by a scan of the table.
fn find_record_index(records: &Vec<IdempotencyRecord>, user_id: u128, key: &IdempotencyKey) -> (r:
    Option<usize>)
    ensures
        ({
            let model = records_model(records@);
            match r {
                Option::Some(i) => i < records@.len() && record_matches(
                    model[i as int],
                    user_id as int,
                    key@,
                ) && find_record(model, user_id as int, key@) == Option::Some(model[i as int]),
                Option::None => find_record(model, user_id as int, key@) is None,
            }
        }),
{
    let ghost model = records_model(records@);
    let n = records.len();
    let mut i: usize = 0;
    while i < n
        invariant
            i <= n,
            n == records@.len(),
            model == records_model(records@),
            forall|j: int| 0 <= j < i ==> !record_matches(model[j], user_id as int, key@),
        decreases n - i,
    {
        let rec = &records[i];
        if rec.user_id == user_id && rec.key.same_as(key) {
            proof {
                lemma_find_record_at(model, user_id as int, key@, i as int);
            }
            return Option::Some(i);
        }
        i += 1;
    }
    proof {
        lemma_find_record_none(model, user_id as int, key@);
    }
    Option::None
}

/// Attempt to claim (user, key): atomically insert a pending placeholder row
/// for the pair. If no row existed, the claim succeeds and an open
/// [`Transaction`] comes back — the caller must use it for all business
/// writes and for the final [`save_response`]. If a completed row exists, the
/// saved response is reconstructed verbatim and no business logic may run.
/// If a pending row exists, the claim fails fast with a retryable conflict.
///
/// For a fixed (user, key), at most one caller ever gets
/// [`NextAction::StartProcessing`]; see `exclusive_claim` among the crate's
/// laws.
pub fn try_processing(db: &mut Database, key: &IdempotencyKey, user_id: u128) -> (r: Result<
    NextAction,
    StoreError,
>)
    requires
        old(db).wf(),
    ensures
        final(db).wf(),
        final(db)@ == try_processing_model(old(db)@, user_id as int, key@).0,
        ({
            let outcome = try_processing_model(old(db)@, user_id as int, key@).1;
            match r {
                Result::Ok(NextAction::StartProcessing(t)) => outcome is Started && t@
                    == TransactionModel {
                    user_id: user_id as int,
                    key: key@,
                    issue: Option::None,
                    tasks: Seq::empty(),
                },
                Result::Ok(NextAction::ReturnSavedResponse(resp)) => outcome == ClaimOutcome::Replayed(
                    resp@,
                ),
                Result::Err(StoreError::ConflictPending) => outcome is Conflicted,
            }
        }),
{
    match find_record_index(&db.records, user_id, key) {
        Option::None => {
            proof {
                lemma_find_record_none(old(db)@.records, user_id as int, key@);
            }
            db.records.push(
                IdempotencyRecord { user_id, key: key.duplicate(), response: Option::None },
            );
            let t = Transaction {
                user_id,
                key: key.duplicate(),
                issue: Option::None,
                tasks: Vec::new(),
            };
            proof {
                assert(db@.records =~= old(db)@.records.push(
                    pending_record(user_id as int, key@),
                ));
                assert(db@ =~= try_processing_model(old(db)@, user_id as int, key@).0);
                assert(t@ =~= TransactionModel {
                    user_id: user_id as int,
                    key: key@,
                    issue: Option::None,
                    tasks: Seq::empty(),
                });
            }
            Result::Ok(NextAction::StartProcessing(t))
        },
        Option::Some(i) => {
            match &db.records[i].response {
                Option::Some(resp) => Result::Ok(NextAction::ReturnSavedResponse(resp.duplicate())),
                Option::None => Result::Err(StoreError::ConflictPending),
            }
        },
    }
}

/// Commit: write the response into the placeholder row claimed by this
/// transaction and make it durable together with the buffered business
/// writes. This is the single point where "business effects happened" and
/// "response is replayable" become durable together. Returns the response,
/// byte for byte.
pub fn save_response(db: &mut Database, transaction: Transaction, response: &StoredResponse) -> (r:
    StoredResponse)
    requires
        old(db).wf(),
        find_record(old(db)@.records, transaction@.user_id, transaction@.key) matches Option::Some(
            rec,
        ) && rec.response is None,
    ensures
        final(db).wf(),
        final(db)@ == save_response_model(old(db)@, transaction@, response@),
        r@ == response@,
    {
    let ghost txn_model = transaction@;
    let Transaction { user_id, key, issue, tasks } = transaction;
    // The claimed record is present by the precondition, so the scan finds it.
    let i = match find_record_index(&db.records, user_id, &key) {
        Option::Some(i) => i,
        Option::None => unreached(),
    };
    db.records.set(
        i,
        IdempotencyRecord {
            user_id,
            key,
            response: Option::Some(response.duplicate()),
        },
    );
    proof {
        let old_records = old(db)@.records;
        let new_records = records_model(db.records@);
        assert forall|j: int| 0 <= j < old_records.len() implies new_records[j] == (
        if record_matches(old_records[j], txn_model.user_id, txn_model.key) {
            completed_record(old_records[j].user_id, old_records[j].key, response@)
        } else {
            old_records[j]
        }) by {
            if j == i {
                assert(record_matches(old_records[j], txn_model.user_id, txn_model.key));
            } else {
                assert(!record_matches(old_records[j], txn_model.user_id, txn_model.key));
            }
        }
        assert(new_records =~= complete_record_in(
            old_records,
            txn_model.user_id,
            txn_model.key,
            response@,
        ));
    }
    match issue {
        Option::Some(row) => {
            db.issues.push(row);
            proof {
                assert(db@.issues =~= old(db)@.issues + seq![txn_model.issue.unwrap()]);
            }
        },
        Option::None => {
            proof {
                assert(db@.issues =~= old(db)@.issues + Seq::<IssueModel>::empty());
            }
        },
    }
    let mut queued = tasks;
    db.tasks.append(&mut queued);
    proof {
        assert(db@.tasks =~= old(db)@.tasks + txn_model.tasks);
        assert(db@ =~= save_response_model(old(db)@, txn_model, response@));
        assert forall|a: int, b: int|
            0 <= a < b < db@.records.len() implies !(db@.records[a].user_id
            == db@.records[b].user_id && db@.records[a].key
            == db@.records[b].key) by {
            assert(db@.records[a].user_id == old(db)@.records[a].user_id
                && db@.records[a].key == old(db)@.records[a].key);
            assert(db@.records[b].user_id == old(db)@.records[b].user_id
                && db@.records[b].key == old(db)@.records[b].key);
        }
    }
    response.duplicate()
}

/// Read-only replay lookup, outside any transaction boundary: the saved
/// response for (user, key), or nothing when the record is absent or still
/// pending.
pub fn get_saved_response(db: &Database, key: &IdempotencyKey, user_id: u128) -> (r: Option<
    StoredResponse,
>)
    ensures
        ({
            let found = find_record(db@.records, user_id as int, key@);
            match r {
                Option::Some(resp) => found matches Option::Some(rec) && rec.response
                    == Option::Some(resp@),
                Option::None => found is None || (found matches Option::Some(rec) && rec.response
                    is None),
            }
        }),
{
    match find_record_index(&db.records, user_id, key) {
        Option::None => Option::None,
        Option::Some(i) => match &db.records[i].response {
            Option::Some(resp) => Option::Some(resp.duplicate()),
            Option::None => Option::None,
        },
    }
}

} // verus!
