//! The publish-newsletter command processor.
//!
//! One submission travels: validate the form and the idempotency key — claim
//! the key — check that a confirmed subscriber exists — buffer the issue row
//! and the delivery tasks — stamp the response and commit, all atomically.
//! A duplicate submission replays the saved response without re-running any
//! business logic; a claim that finds a pending record conflicts, fail-fast.
//!
//! [`publish_model`] is the whole of that behaviour as one function of the
//! store's contents, and the executable processor is proved equal to it.

use vstd::prelude::*;
use vstd::string::StrSliceExecFns;
use vstd::string::StringSliceAdditionalSpecFns;

use crate::domain::NewsletterIssue;
use crate::domain::IssueModel;
use crate::domain::confirmed_emails;
use crate::idempotency_key::IdempotencyKey;
use crate::idempotency_key::KeyError;
use crate::idempotency_key::MAX_KEY_LEN;
use crate::outbox::check_confirmed_subscribers;
use crate::outbox::enqueue_delivery_tasks;
use crate::outbox::tasks_for;
use crate::response::ResponseModel;
use crate::response::StoredResponse;
use crate::response::redirect_model;
use crate::store::Database;
use crate::store::DatabaseModel;
use crate::store::NextAction;
use crate::store::StoreError;
use crate::store::Transaction;
use crate::store::completed_record;
use crate::store::find_record;
use crate::store::lemma_find_record_none;
use crate::store::lemma_find_record_push;
use crate::store::pending_record;
use crate::store::save_response;
use crate::store::save_response_model;
use crate::store::try_processing;
use crate::store::try_processing_model;
use crate::trimming::all_space;
use crate::trimming::is_blank;

verus! {

/// The raw publish command, as the form-parsing collaborator hands it over.
#[derive(Debug)]
pub struct NewsletterData {
    pub title: String,
    pub html_content: String,
    pub text_content: String,
    pub idempotency_key: String,
}

/// What a [`NewsletterData`] holds, for contracts.
#[verifier::ext_equal]
pub struct NewsletterDataModel {
    pub title: Seq<char>,
    pub html_content: Seq<char>,
    pub text_content: Seq<char>,
    pub idempotency_key: Seq<char>,
}

impl View for NewsletterData {
    type V = NewsletterDataModel;

    open spec fn view(&self) -> NewsletterDataModel {
        NewsletterDataModel {
            title: self.title@,
            html_content: self.html_content@,
            text_content: self.text_content@,
            idempotency_key: self.idempotency_key@,
        }
    }
}

/// Why a publish command was turned away. All of these are reported before
/// any business side effect, and none of them creates an idempotency record.
#[derive(Clone, Copy, Debug, PartialEq, Eq, Structural)]
pub enum PublishError {
    /// The form did not parse: a field was missing or badly formatted.
    FormRejected,
    /// The title was empty.
    EmptyTitle,
    /// The HTML content was empty, or the text content was blank.
    EmptyContent,
    /// The idempotency key failed validation.
    InvalidKey(KeyError),
    /// A record for the key exists but is still pending: try again shortly.
    ConflictPending,
}

/// Where every publish attempt redirects to.
pub open spec fn newsletters_location() -> Seq<char> {
    "/admin/newsletters"@
}

/// The body of the success response.
pub open spec fn published_message() -> Seq<u8> {
    "The newsletter issue has been accepted - emails will go out shortly.".spec_bytes()
}

/// The body of the "nothing to send" response.
pub open spec fn no_subscribers_message() -> Seq<u8> {
    "The newsletter has no confirmed subscribers or their stored contact details are invalid.".spec_bytes()
}

/// The response cached and replayed for a successful publish.
pub open spec fn published_response_model() -> ResponseModel {
    redirect_model(newsletters_location(), published_message())
}

/// The response cached and replayed when no confirmed subscriber exists: a
/// valid application outcome, not a failure of the mechanism.
pub open spec fn no_subscribers_response_model() -> ResponseModel {
    redirect_model(newsletters_location(), no_subscribers_message())
}

/// Everything one publish attempt does to the store, and what it returns.
///
/// `issue_id` and `published_at` stand for the freshly drawn issue identifier
/// and the clock reading; they matter only on the path that actually creates
/// an issue. `form` is `None` when the form itself did not parse.
pub open spec fn publish_model(
    db: DatabaseModel,
    user_id: int,
    issue_id: int,
    published_at: int,
    form: Option<NewsletterDataModel>,
) -> (DatabaseModel, Result<ResponseModel, PublishError>) {
    match form {
        Option::None => (db, Result::Err(PublishError::FormRejected)),
        Option::Some(f) => {
            if f.title.len() == 0 {
                (db, Result::Err(PublishError::EmptyTitle))
            } else if f.html_content.len() == 0 || all_space(f.text_content) {
                (db, Result::Err(PublishError::EmptyContent))
            } else if all_space(f.idempotency_key) {
                (db, Result::Err(PublishError::InvalidKey(KeyError::Empty)))
            } else if f.idempotency_key.len() > MAX_KEY_LEN {
                (db, Result::Err(PublishError::InvalidKey(KeyError::TooLong)))
            } else {
                match find_record(db.records, user_id, f.idempotency_key) {
                    Option::Some(rec) => match rec.response {
                        Option::None => (db, Result::Err(PublishError::ConflictPending)),
                        Option::Some(resp) => (db, Result::Ok(resp)),
                    },
                    Option::None => {
                        if confirmed_emails(db.subscribers).len() == 0 {
                            let resp = no_subscribers_response_model();
                            (
                                DatabaseModel {
                                    records: db.records.push(
                                        completed_record(user_id, f.idempotency_key, resp),
                                    ),
                                    ..db
                                },
                                Result::Ok(resp),
                            )
                        } else {
                            let resp = published_response_model();
                            let issue = IssueModel {
                                id: issue_id,
                                title: f.title,
                                text_content: f.text_content,
                                html_content: f.html_content,
                                published_at: published_at,
                            };
                            (
                                DatabaseModel {
                                    records: db.records.push(
                                        completed_record(user_id, f.idempotency_key, resp),
                                    ),
                                    issues: db.issues.push(issue),
                                    tasks: db.tasks + tasks_for(
                                        issue_id,
                                        confirmed_emails(db.subscribers),
                                    ),
                                    subscribers: db.subscribers,
                                },
                                Result::Ok(resp),
                            )
                        }
                    },
                }
            }
        },
    }
}

/// A command whose fields pass validation: a title, some content, and an
/// acceptable idempotency key.
pub open spec fn command_valid(f: NewsletterDataModel) -> bool {
    &&& f.title.len() != 0
    &&& f.html_content.len() != 0
    &&& !all_space(f.text_content)
    &&& crate::idempotency_key::key_acceptable(f.idempotency_key)
}

/// The command, as the processor's contract sees it.
pub open spec fn form_model(form: Option<&NewsletterData>) -> Option<NewsletterDataModel> {
    match form {
        Option::None => Option::None,
        Option::Some(f) => Option::Some(f@),
    }
}

/// The processor's result, as its contract sees it.
pub open spec fn publish_result_model(r: Result<StoredResponse, PublishError>) -> Result<
    ResponseModel,
    PublishError,
> {
    match r {
        Result::Ok(resp) => Result::Ok(resp@),
        Result::Err(e) => Result::Err(e),
    }
}

/// One publish attempt did to the store, and returned, exactly what
/// [`publish_model`] says for these inputs.
pub open spec fn is_publish_outcome(
    db0: DatabaseModel,
    db1: DatabaseModel,
    user_id: int,
    issue_id: int,
    published_at: int,
    form: Option<NewsletterDataModel>,
    r: Result<ResponseModel, PublishError>,
) -> bool {
    (db1, r) == publish_model(db0, user_id, issue_id, published_at, form)
}

/// The success response, as the processor builds it.
fn published_response() -> (r: StoredResponse)
    ensures
        r@ == published_response_model(),
{
    StoredResponse::redirect(
        "/admin/newsletters",
        "The newsletter issue has been accepted - emails will go out shortly.".as_bytes_vec(),
    )
}

/// The "nothing to send" response, as the processor builds it.
fn no_subscribers_response() -> (r: StoredResponse)
    ensures
        r@ == no_subscribers_response_model(),
{
    StoredResponse::redirect(
        "/admin/newsletters",
        "The newsletter has no confirmed subscribers or their stored contact details are invalid.".as_bytes_vec(),
    )
}

/// Does this response carry the "nothing to send" outcome? The web layer
/// uses this to pick the warning over the success message when it flashes
/// the result of a publish attempt.
pub fn is_no_subscribers_response(response: &StoredResponse) -> (r: bool)
    ensures
        r == (response@.body == no_subscribers_message()),
{
    let expected =
        "The newsletter has no confirmed subscribers or their stored contact details are invalid.".as_bytes_vec();
    if response.body.len() != expected.len() {
        proof {
            assert(response@.body != no_subscribers_message());
        }
        return false;
    }
    let mut i: usize = 0;
    while i < expected.len()
        invariant
            i <= expected@.len(),
            expected@ == no_subscribers_message(),
            response@.body.len() == expected@.len(),
            forall|j: int| 0 <= j < i ==> response@.body[j] == expected@[j],
        decreases expected@.len() - i,
    {
        if response.body[i] != expected[i] {
            return false;
        }
        i += 1;
    }
    proof {
        assert(response@.body =~= expected@);
    }
    true
}

/// Relies on `uuid::Uuid::new_v4`: a freshly generated random identifier,
/// carried as its 128-bit value. Nothing is promised of it.
#[verifier::external_body]
fn generate_issue_id() -> (r: u128) {
    uuid::Uuid::new_v4().as_u128()
}

/// Relies on `chrono::Utc::now`: the current time, as whole seconds since
/// the Unix epoch. Nothing is promised of it.
#[verifier::external_body]
fn now_timestamp() -> (r: i64) {
    chrono::Utc::now().timestamp()
}

/// Buffer the newsletter-issue row in the open transaction. The row becomes
/// durable only when the transaction commits. The identifier and the
/// publication time are drawn by the caller.
pub fn insert_newsletter_issue(
    transaction: &mut Transaction,
    title: &String,
    text_content: &String,
    html_content: &String,
    newsletter_issue_id: u128,
    published_at: i64,
) -> (id: u128)
    requires
        old(transaction)@.issue is None,
    ensures
        id == newsletter_issue_id,
        final(transaction)@.user_id == old(transaction)@.user_id,
        final(transaction)@.key == old(transaction)@.key,
        final(transaction)@.tasks == old(transaction)@.tasks,
        final(transaction)@.issue == Option::Some(
            IssueModel {
                id: newsletter_issue_id as int,
                title: title@,
                text_content: text_content@,
                html_content: html_content@,
                published_at: published_at as int,
            },
        ),
{
    transaction.issue = Option::Some(
        NewsletterIssue {
            id: newsletter_issue_id,
            title: title.clone(),
            text_content: text_content.clone(),
            html_content: html_content.clone(),
            published_at,
        },
    );
    newsletter_issue_id
}

/// Drive one publish command end-to-end against the store, with the fresh
/// issue identifier and the clock reading supplied by the caller; everything
/// else is a function of the arguments, stated by [`publish_model`].
///
/// A malformed form or key is rejected before any storage access. A replayed
/// command returns the saved response verbatim and performs no side effect.
/// A fresh command commits the issue row, one delivery task per confirmed
/// subscriber, and the completed idempotency record atomically — or, with no
/// confirmed subscribers, caches the "nothing to send" outcome instead.
pub fn process_publish_command(
    db: &mut Database,
    user_id: u128,
    issue_id: u128,
    published_at: i64,
    form: Option<&NewsletterData>,
) -> (r: Result<StoredResponse, PublishError>)
    requires
        old(db).wf(),
    ensures
        final(db).wf(),
        is_publish_outcome(
            old(db)@,
            final(db)@,
            user_id as int,
            issue_id as int,
            published_at as int,
            form_model(form),
            publish_result_model(r),
        ),
{
    let form = match form {
        Option::Some(f) => f,
        Option::None => {
            return Result::Err(PublishError::FormRejected);
        },
    };
    if form.title.as_str().is_empty() {
        return Result::Err(PublishError::EmptyTitle);
    }
    if form.html_content.as_str().is_empty() || is_blank(form.text_content.as_str()) {
        return Result::Err(PublishError::EmptyContent);
    }
    let key = match IdempotencyKey::parse(form.idempotency_key.clone()) {
        Result::Ok(k) => k,
        Result::Err(e) => {
            return Result::Err(PublishError::InvalidKey(e));
        },
    };
    let ghost db0 = old(db)@;
    let mut transaction = match try_processing(db, &key, user_id) {
        Result::Ok(NextAction::StartProcessing(t)) => t,
        Result::Ok(NextAction::ReturnSavedResponse(saved)) => {
            return Result::Ok(saved);
        },
        Result::Err(StoreError::ConflictPending) => {
            return Result::Err(PublishError::ConflictPending);
        },
    };
    proof {
        lemma_find_record_none(db0.records, user_id as int, key@);
        lemma_find_record_push(
            db0.records,
            pending_record(user_id as int, key@),
            user_id as int,
            key@,
        );
    }
    if !check_confirmed_subscribers(&db.subscribers) {
        let response = no_subscribers_response();
        let saved = save_response(db, transaction, &response);
        proof {
            lemma_commit_completes_fresh_claim(
                db0,
                db@,
                user_id as int,
                key@,
                Option::None,
                Seq::empty(),
                no_subscribers_response_model(),
            );
            assert(db@.issues =~= db0.issues);
            assert(db@.tasks =~= db0.tasks);
            assert(db@ =~= publish_model(
                db0,
                user_id as int,
                issue_id as int,
                published_at as int,
                form_model(Option::Some(form)),
            ).0);
        }
        return Result::Ok(saved);
    }
    insert_newsletter_issue(
        &mut transaction,
        &form.title,
        &form.text_content,
        &form.html_content,
        issue_id,
        published_at,
    );
    enqueue_delivery_tasks(&mut transaction, &db.subscribers, issue_id);
    let response = published_response();
    let ghost txn_model = transaction@;
    let saved = save_response(db, transaction, &response);
    proof {
        lemma_commit_completes_fresh_claim(
            db0,
            db@,
            user_id as int,
            key@,
            txn_model.issue,
            txn_model.tasks,
            published_response_model(),
        );
        assert(db@.issues =~= db0.issues.push(txn_model.issue.unwrap()));
        assert(db@.tasks =~= db0.tasks + txn_model.tasks);
        assert(txn_model.tasks =~= tasks_for(issue_id as int, confirmed_emails(db0.subscribers)));
        assert(db@ =~= publish_model(
            db0,
            user_id as int,
            issue_id as int,
            published_at as int,
            form_model(Option::Some(form)),
        ).0);
    }
    Result::Ok(saved)
}

/// Committing a transaction over a freshly claimed key stamps exactly that
/// one record, appended as pending by the claim, into its completed form.
proof fn lemma_commit_completes_fresh_claim(
    db0: DatabaseModel,
    db2: DatabaseModel,
    user_id: int,
    key: Seq<char>,
    issue: Option<IssueModel>,
    tasks: Seq<crate::domain::TaskModel>,
    resp: ResponseModel,
)
    requires
        find_record(db0.records, user_id, key) is None,
        db2 == save_response_model(
            try_processing_model(db0, user_id, key).0,
            crate::store::TransactionModel { user_id, key, issue, tasks },
            resp,
        ),
    ensures
        db2.records == db0.records.push(completed_record(user_id, key, resp)),
        db2.subscribers == db0.subscribers,
        db2.issues == db0.issues + match issue {
            Option::None => Seq::<IssueModel>::empty(),
            Option::Some(i) => seq![i],
        },
        db2.tasks == db0.tasks + tasks,
{
    lemma_find_record_none(db0.records, user_id, key);
    let claimed = db0.records.push(pending_record(user_id, key));
    assert forall|j: int| 0 <= j < claimed.len() implies db2.records[j] == db0.records.push(
        completed_record(user_id, key, resp),
    )[j] by {
        if j < db0.records.len() {
            assert(!crate::store::record_matches(claimed[j], user_id, key));
        } else {
            assert(crate::store::record_matches(claimed[j], user_id, key));
        }
    }
    assert(db2.records =~= db0.records.push(completed_record(user_id, key, resp)));
}

/// Drive one publish command end-to-end, drawing a fresh issue identifier
/// and the current time where a fresh issue calls for them. Behaves as
/// [`process_publish_command`] for *some* identifier and time; the rest of
/// the outcome does not depend on which.
pub fn publish_newsletter(db: &mut Database, user_id: u128, form: Option<&NewsletterData>) -> (r:
    Result<StoredResponse, PublishError>)
    requires
        old(db).wf(),
    ensures
        final(db).wf(),
        exists|issue_id: int, published_at: int|
            #[trigger] is_publish_outcome(
                old(db)@,
                final(db)@,
                user_id as int,
                issue_id,
                published_at,
                form_model(form),
                publish_result_model(r),
            ),
{
    let issue_id = generate_issue_id();
    let published_at = now_timestamp();
    let r = process_publish_command(db, user_id, issue_id, published_at, form);
    proof {
        assert(is_publish_outcome(
            old(db)@,
            db@,
            user_id as int,
            issue_id as int,
            published_at as int,
            form_model(form),
            publish_result_model(r),
        ));
    }
    r
}

} // verus!
