use newsletter::idempotency_key::KeyError;
use newsletter::newsletters::{process_publish_command, publish_newsletter, NewsletterData, PublishError};
use newsletter::store::Database;

const PUBLISHED: &[u8] = b"The newsletter issue has been accepted - emails will go out shortly.";
const NO_SUBSCRIBERS: &[u8] =
    b"The newsletter has no confirmed subscribers or their stored contact details are invalid.";

fn form(key: &str) -> NewsletterData {
    NewsletterData {
        title: "Newsletter title".to_string(),
        html_content: "<p>Newsletter body as HTML</p>".to_string(),
        text_content: "Newsletter body as plain text".to_string(),
        idempotency_key: key.to_string(),
    }
}

fn db_with_confirmed_subscriber() -> Database {
    let mut db = Database::new();
    db.add_subscriber("ursula_le_guin@gmail.com".to_string(), "confirmed".to_string());
    db
}

fn assert_same_response(
    a: &newsletter::response::StoredResponse,
    b: &newsletter::response::StoredResponse,
) {
    assert_eq!(a.status, b.status);
    assert_eq!(a.headers.len(), b.headers.len());
    for (x, y) in a.headers.iter().zip(b.headers.iter()) {
        assert_eq!(x.name, y.name);
        assert_eq!(x.value, y.value);
    }
    assert_eq!(a.body, b.body);
}

#[test]
fn newsletters_are_delivered_to_confirmed_subscribers() {
    let mut db = db_with_confirmed_subscriber();
    let response = publish_newsletter(&mut db, 1, Some(&form("key-one"))).unwrap();
    assert_eq!(response.status, 303);
    assert_eq!(response.headers[0].name, "Location");
    assert_eq!(response.headers[0].value, "/admin/newsletters");
    assert_eq!(response.body, PUBLISHED.to_vec());
    assert_eq!(db.issues.len(), 1);
    assert_eq!(db.tasks.len(), 1);
    assert_eq!(db.tasks[0].subscriber_email, "ursula_le_guin@gmail.com");
    assert_eq!(db.tasks[0].newsletter_issue_id, db.issues[0].id);
}

#[test]
fn newsletters_are_not_delivered_to_unconfirmed_subscribers() {
    let mut db = Database::new();
    db.add_subscriber(
        "ursula_le_guin@gmail.com".to_string(),
        "pending_confirmation".to_string(),
    );
    let response = publish_newsletter(&mut db, 1, Some(&form("key-two"))).unwrap();
    assert_eq!(response.status, 303);
    assert_eq!(response.body, NO_SUBSCRIBERS.to_vec());
    assert_eq!(db.issues.len(), 0);
    assert_eq!(db.tasks.len(), 0);
}

#[test]
fn newsletter_creation_is_idempotent() {
    let mut db = db_with_confirmed_subscriber();
    let first = publish_newsletter(&mut db, 1, Some(&form("key-three"))).unwrap();
    assert_eq!(first.body, PUBLISHED.to_vec());
    assert_eq!(db.tasks.len(), 1);
    // Submit the exact same form again, same key: the saved response comes
    // back byte for byte, and no second delivery is enqueued.
    let second = publish_newsletter(&mut db, 1, Some(&form("key-three"))).unwrap();
    assert_same_response(&first, &second);
    assert_eq!(db.issues.len(), 1);
    assert_eq!(db.tasks.len(), 1);
}

#[test]
fn newsletters_returns_shows_error_on_invalid_form_data() {
    // A form that does not parse (a missing field) reaches the processor as
    // no form at all, is rejected, and leaves no idempotency record behind.
    let mut db = db_with_confirmed_subscriber();
    let err = publish_newsletter(&mut db, 1, None).unwrap_err();
    assert_eq!(err, PublishError::FormRejected);
    assert_eq!(db.records.len(), 0);
    // A later retry with the corrected payload and the same key still runs
    // the business logic, once.
    let response = publish_newsletter(&mut db, 1, Some(&form("key-four"))).unwrap();
    assert_eq!(response.body, PUBLISHED.to_vec());
    assert_eq!(db.tasks.len(), 1);
}

#[test]
fn newsletters_returns_400_on_invalid_idempotency_key() {
    let mut db = db_with_confirmed_subscriber();
    let empty = publish_newsletter(&mut db, 1, Some(&form(""))).unwrap_err();
    assert_eq!(empty, PublishError::InvalidKey(KeyError::Empty));
    let long = publish_newsletter(&mut db, 1, Some(&form(&"a".repeat(51)))).unwrap_err();
    assert_eq!(long, PublishError::InvalidKey(KeyError::TooLong));
    assert_eq!(db.records.len(), 0);
}

#[test]
fn publish_newsletter_form_shows_error_on_empty_parameters() {
    let mut db = db_with_confirmed_subscriber();
    let mut no_title = form("key-five");
    no_title.title = String::new();
    let err = publish_newsletter(&mut db, 1, Some(&no_title)).unwrap_err();
    assert_eq!(err, PublishError::EmptyTitle);

    let mut no_content = form("key-five");
    no_content.html_content = String::new();
    no_content.text_content = String::new();
    let err = publish_newsletter(&mut db, 1, Some(&no_content)).unwrap_err();
    assert_eq!(err, PublishError::EmptyContent);

    let mut blank_text = form("key-five");
    blank_text.text_content = "   ".to_string();
    let err = publish_newsletter(&mut db, 1, Some(&blank_text)).unwrap_err();
    assert_eq!(err, PublishError::EmptyContent);

    // Unicode whitespace trims away just the same.
    let mut unicode_blank = form("key-five");
    unicode_blank.text_content = "\u{00A0}\u{2009}\u{000C}".to_string();
    let err = publish_newsletter(&mut db, 1, Some(&unicode_blank)).unwrap_err();
    assert_eq!(err, PublishError::EmptyContent);

    assert_eq!(db.records.len(), 0);
    assert_eq!(db.tasks.len(), 0);
}

#[test]
fn a_publish_against_a_pending_record_conflicts() {
    let mut db = db_with_confirmed_subscriber();
    let key = newsletter::idempotency_key::IdempotencyKey::parse("stuck".to_string()).unwrap();
    // A rival request claimed the key and then crashed before committing.
    let claimed = newsletter::store::try_processing(&mut db, &key, 1).unwrap();
    assert!(matches!(claimed, newsletter::store::NextAction::StartProcessing(_)));
    let err = publish_newsletter(&mut db, 1, Some(&form("stuck"))).unwrap_err();
    assert_eq!(err, PublishError::ConflictPending);
}

#[test]
fn the_no_subscribers_outcome_is_cached_and_replays() {
    let mut db = Database::new();
    let first = process_publish_command(&mut db, 1, 42, 1_700_000_000, Some(&form("key-six")))
        .unwrap();
    assert_eq!(first.body, NO_SUBSCRIBERS.to_vec());
    assert_eq!(db.tasks.len(), 0);
    assert_eq!(db.issues.len(), 0);
    // Even after a subscriber confirms, the cached outcome replays verbatim
    // for the same key: the command already completed.
    db.add_subscriber("late@example.com".to_string(), "confirmed".to_string());
    let second = process_publish_command(&mut db, 1, 43, 1_700_000_100, Some(&form("key-six")))
        .unwrap();
    assert_same_response(&first, &second);
    assert_eq!(db.tasks.len(), 0);
}

#[test]
fn publishing_end_to_end_is_exactly_once() {
    // A subscriber signs up and confirms; the operator publishes under key K;
    // exactly one issue row and one delivery task appear; a resubmission with
    // the same key and body adds nothing and answers identically.
    let mut db = Database::new();
    let id = db.add_subscriber(
        "reader@example.com".to_string(),
        "pending_confirmation".to_string(),
    );
    // The subscriber follows the confirmation link: the flow decides the
    // update and the store applies it.
    let step = newsletter::subscriptions_confirm::confirm_next_step(
        &Some(id as u128),
        db.subscriber_is_confirmed(id),
    );
    assert_eq!(step.status, 200);
    db.confirm_subscriber(step.update.expect("a pending subscriber must be confirmed") as usize);

    let first = process_publish_command(&mut db, 9, 77, 1_700_000_000, Some(&form("K"))).unwrap();
    assert_eq!(db.issues.len(), 1);
    assert_eq!(db.issues[0].id, 77);
    assert_eq!(db.issues[0].title, "Newsletter title");
    assert_eq!(db.tasks.len(), 1);
    assert_eq!(db.tasks[0].newsletter_issue_id, 77);
    assert_eq!(db.tasks[0].subscriber_email, "reader@example.com");

    let second = process_publish_command(&mut db, 9, 78, 1_700_000_999, Some(&form("K"))).unwrap();
    assert_eq!(db.issues.len(), 1);
    assert_eq!(db.tasks.len(), 1);
    assert_same_response(&first, &second);
}

#[test]
fn the_issue_row_holds_the_submitted_content() {
    let mut db = db_with_confirmed_subscriber();
    process_publish_command(&mut db, 1, 5, 1_650_000_000, Some(&form("content-check"))).unwrap();
    assert_eq!(db.issues[0].title, "Newsletter title");
    assert_eq!(db.issues[0].html_content, "<p>Newsletter body as HTML</p>");
    assert_eq!(db.issues[0].text_content, "Newsletter body as plain text");
    assert_eq!(db.issues[0].published_at, 1_650_000_000);
}

#[test]
fn every_confirmed_subscriber_gets_one_delivery_task() {
    let mut db = Database::new();
    db.add_subscriber("one@example.com".to_string(), "confirmed".to_string());
    db.add_subscriber("two@example.com".to_string(), "pending_confirmation".to_string());
    db.add_subscriber("three@example.com".to_string(), "confirmed".to_string());
    process_publish_command(&mut db, 1, 6, 1_650_000_000, Some(&form("fan-out"))).unwrap();
    assert_eq!(db.tasks.len(), 2);
    assert_eq!(db.tasks[0].subscriber_email, "one@example.com");
    assert_eq!(db.tasks[1].subscriber_email, "three@example.com");
}
