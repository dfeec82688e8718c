//! The transactional-outbox enqueuer.
//!
//! Delivery work is handed to the external worker as rows, written in the
//! same transaction as the newsletter issue itself: enqueueing can never
//! happen without the corresponding issue row, and vice versa. One row is
//! buffered per confirmed subscriber; no ordering is promised between them.

use vstd::prelude::*;

use crate::domain::DeliveryTask;
use crate::domain::Subscriber;
use crate::domain::TaskModel;
use crate::domain::confirmed_emails;
use crate::domain::lemma_confirmed_emails_len;
use crate::domain::lemma_confirmed_emails_nonempty;
use crate::domain::subscribers_model;
use crate::store::Transaction;

verus! {

/// The delivery tasks for one issue: one per email, in order.
pub open spec fn tasks_for(issue_id: int, emails: Seq<Seq<char>>) -> Seq<TaskModel> {
    emails.map_values(
        |e: Seq<char>| TaskModel { newsletter_issue_id: issue_id, subscriber_email: e },
    )
}

/// Is there at least one confirmed subscriber to deliver to?
pub fn check_confirmed_subscribers(subscribers: &Vec<Subscriber>) -> (r: bool)
    ensures
        r == (confirmed_emails(subscribers_model(subscribers@)).len() > 0),
{
    let ghost subs = subscribers_model(subscribers@);
    proof {
        lemma_confirmed_emails_nonempty(subs);
    }
    let mut i: usize = 0;
    while i < subscribers.len()
        invariant
            i <= subscribers@.len(),
            subs == subscribers_model(subscribers@),
            forall|j: int| 0 <= j < i ==> !subs[j].is_confirmed(),
        decreases subscribers@.len() - i,
    {
        if subscribers[i].is_confirmed() {
            proof {
                lemma_confirmed_emails_nonempty(subs);
                assert(subs[i as int].is_confirmed());
            }
            return true;
        }
        i += 1;
    }
    false
}

/// Read the confirmed subscribers and buffer one [`DeliveryTask`] per
/// subscriber in the caller-supplied transaction. The rows become durable
/// only when the transaction commits. Returns how many were enqueued.
pub fn enqueue_delivery_tasks(
    transaction: &mut Transaction,
    subscribers: &Vec<Subscriber>,
    newsletter_issue_id: u128,
) -> (count: usize)
    ensures
        final(transaction)@.user_id == old(transaction)@.user_id,
        final(transaction)@.key == old(transaction)@.key,
        final(transaction)@.issue == old(transaction)@.issue,
        final(transaction)@.tasks == old(transaction)@.tasks + tasks_for(
            newsletter_issue_id as int,
            confirmed_emails(subscribers_model(subscribers@)),
        ),
        count == confirmed_emails(subscribers_model(subscribers@)).len(),
{
    let ghost subs = subscribers_model(subscribers@);
    let mut i: usize = 0;
    let mut count: usize = 0;
    while i < subscribers.len()
        invariant
            i <= subscribers@.len(),
            subs == subscribers_model(subscribers@),
            transaction@.user_id == old(transaction)@.user_id,
            transaction@.key == old(transaction)@.key,
            transaction@.issue == old(transaction)@.issue,
            transaction@.tasks == old(transaction)@.tasks + tasks_for(
                newsletter_issue_id as int,
                confirmed_emails(subs.take(i as int)),
            ),
            count == confirmed_emails(subs.take(i as int)).len(),
        decreases subscribers@.len() - i,
    {
        let sub = &subscribers[i];
        proof {
            assert(subs.take(i + 1).drop_last() =~= subs.take(i as int));
            assert(subs.take(i + 1).last() == subs[i as int]);
        }
        if sub.is_confirmed() {
            let ghost t0 = transaction@.tasks;
            let task = DeliveryTask { newsletter_issue_id, subscriber_email: sub.email.clone() };
            let ghost tmodel = task@;
            transaction.tasks.push(task);
            proof {
                lemma_confirmed_emails_len(subs.take(i as int));
                assert(transaction@.tasks =~= t0.push(tmodel));
                assert(tmodel == TaskModel {
                    newsletter_issue_id: newsletter_issue_id as int,
                    subscriber_email: subs[i as int].email,
                });
                assert(confirmed_emails(subs.take(i + 1)) == confirmed_emails(
                    subs.take(i as int),
                ).push(subs[i as int].email));
                assert(tasks_for(
                    newsletter_issue_id as int,
                    confirmed_emails(subs.take(i + 1)),
                ) =~= tasks_for(
                    newsletter_issue_id as int,
                    confirmed_emails(subs.take(i as int)),
                ).push(tmodel));
                assert(transaction@.tasks =~= old(transaction)@.tasks + tasks_for(
                    newsletter_issue_id as int,
                    confirmed_emails(subs.take(i + 1)),
                ));
            }
            count = count + 1;
        } else {
            proof {
                assert(confirmed_emails(subs.take(i + 1)) == confirmed_emails(subs.take(i as int)));
            }
        }
        i += 1;
    }
    proof {
        assert(subs.take(subscribers@.len() as int) =~= subs);
    }
    count
}

} // verus!
