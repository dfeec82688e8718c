//! The rows the backing store holds, and their models.
//!
//! Plain data throughout: a subscriber, a newsletter issue, and one delivery
//! task of the transactional outbox. Identifiers are 128-bit values; times
//! are seconds since the Unix epoch.

use vstd::prelude::*;

verus! {

/// Status of a subscriber who has confirmed their address.
pub open spec fn confirmed_status() -> Seq<char> {
    "confirmed"@
}

/// Status of a subscriber who has signed up but not confirmed yet.
pub open spec fn pending_confirmation_status() -> Seq<char> {
    "pending_confirmation"@
}

/// One subscriber row: an email address and a status.
#[derive(Debug)]
pub struct Subscriber {
    pub email: String,
    pub status: String,
}

/// What a [`Subscriber`] holds, for contracts.
#[verifier::ext_equal]
pub struct SubscriberModel {
    pub email: Seq<char>,
    pub status: Seq<char>,
}

impl View for Subscriber {
    type V = SubscriberModel;

    open spec fn view(&self) -> SubscriberModel {
        SubscriberModel { email: self.email@, status: self.status@ }
    }
}

impl SubscriberModel {
    /// Only confirmed subscribers receive newsletter issues.
    pub open spec fn is_confirmed(self) -> bool {
        self.status == confirmed_status()
    }
}

/// One newsletter issue row. Created once per successful publish command;
/// immutable thereafter.
#[derive(Debug)]
pub struct NewsletterIssue {
    pub id: u128,
    pub title: String,
    pub text_content: String,
    pub html_content: String,
    pub published_at: i64,
}

/// What a [`NewsletterIssue`] holds, for contracts.
#[verifier::ext_equal]
pub struct IssueModel {
    pub id: int,
    pub title: Seq<char>,
    pub text_content: Seq<char>,
    pub html_content: Seq<char>,
    pub published_at: int,
}

impl View for NewsletterIssue {
    type V = IssueModel;

    open spec fn view(&self) -> IssueModel {
        IssueModel {
            id: self.id as int,
            title: self.title@,
            text_content: self.text_content@,
            html_content: self.html_content@,
            published_at: self.published_at as int,
        }
    }
}

/// One row of the delivery queue: which issue to send to which address.
/// Write-once here, consumed by the external delivery worker.
#[derive(Debug)]
pub struct DeliveryTask {
    pub newsletter_issue_id: u128,
    pub subscriber_email: String,
}

/// What a [`DeliveryTask`] holds, for contracts.
#[verifier::ext_equal]
pub struct TaskModel {
    pub newsletter_issue_id: int,
    pub subscriber_email: Seq<char>,
}

impl View for DeliveryTask {
    type V = TaskModel;

    open spec fn view(&self) -> TaskModel {
        TaskModel {
            newsletter_issue_id: self.newsletter_issue_id as int,
            subscriber_email: self.subscriber_email@,
        }
    }
}

/// A subscriber table, row by row, as the contracts see it.
pub open spec fn subscribers_model(rows: Seq<Subscriber>) -> Seq<SubscriberModel> {
    rows.map_values(|x: Subscriber| x@)
}

/// An issue table, row by row, as the contracts see it.
pub open spec fn issues_model(rows: Seq<NewsletterIssue>) -> Seq<IssueModel> {
    rows.map_values(|x: NewsletterIssue| x@)
}

/// A delivery queue, row by row, as the contracts see it.
pub open spec fn tasks_model(rows: Seq<DeliveryTask>) -> Seq<TaskModel> {
    rows.map_values(|x: DeliveryTask| x@)
}

impl Subscriber {
    /// Does this row carry the confirmed status?
    pub fn is_confirmed(&self) -> (r: bool)
        ensures
            r == self@.is_confirmed(),
    {
        self.status == String::from_str("confirmed")
    }
}

/// The emails of the confirmed subscribers, in table order.
pub open spec fn confirmed_emails(subscribers: Seq<SubscriberModel>) -> Seq<Seq<char>>
    decreases subscribers.len(),
{
    if subscribers.len() == 0 {
        Seq::empty()
    } else {
        let init = confirmed_emails(subscribers.drop_last());
        if subscribers.last().is_confirmed() {
            init.push(subscribers.last().email)
        } else {
            init
        }
    }
}

/// There are never more confirmed emails than subscriber rows.
pub proof fn lemma_confirmed_emails_len(subscribers: Seq<SubscriberModel>)
    ensures
        confirmed_emails(subscribers).len() <= subscribers.len(),
    decreases subscribers.len(),
{
    if subscribers.len() > 0 {
        lemma_confirmed_emails_len(subscribers.drop_last());
    }
}

/// There is a confirmed subscriber exactly when [`confirmed_emails`] is
/// non-empty.
pub proof fn lemma_confirmed_emails_nonempty(subscribers: Seq<SubscriberModel>)
    ensures
        confirmed_emails(subscribers).len() > 0 <==> exists|i: int|
            0 <= i < subscribers.len() && subscribers[i].is_confirmed(),
    decreases subscribers.len(),
{
    if subscribers.len() > 0 {
        lemma_confirmed_emails_nonempty(subscribers.drop_last());
        if confirmed_emails(subscribers).len() > 0 {
            if subscribers.last().is_confirmed() {
                assert(subscribers[subscribers.len() - 1].is_confirmed());
            } else {
                let i = choose|i: int|
                    0 <= i < subscribers.drop_last().len()
                        && subscribers.drop_last()[i].is_confirmed();
                assert(subscribers[i].is_confirmed());
            }
        }
        if exists|i: int| 0 <= i < subscribers.len() && subscribers[i].is_confirmed() {
            let i = choose|i: int| 0 <= i < subscribers.len() && subscribers[i].is_confirmed();
            if i < subscribers.len() - 1 {
                assert(subscribers.drop_last()[i].is_confirmed());
            }
        }
    }
}

} // verus!
