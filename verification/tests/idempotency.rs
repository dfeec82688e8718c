use newsletter::idempotency_key::{IdempotencyKey, KeyError};
use newsletter::response::{Header, StoredResponse};
use newsletter::store::{get_saved_response, save_response, try_processing, Database, NextAction, StoreError};

fn key(raw: &str) -> IdempotencyKey {
    IdempotencyKey::parse(raw.to_string()).unwrap()
}

fn some_response() -> StoredResponse {
    StoredResponse {
        status: 303,
        headers: vec![Header { name: "Location".to_string(), value: "/somewhere".to_string() }],
        body: b"done".to_vec(),
    }
}

#[test]
fn a_key_of_one_character_is_accepted() {
    assert!(IdempotencyKey::parse("x".to_string()).is_ok());
}

#[test]
fn a_key_of_fifty_characters_is_accepted() {
    let raw = "k".repeat(50);
    let parsed = IdempotencyKey::parse(raw.clone()).unwrap();
    assert_eq!(parsed.as_str(), raw);
}

#[test]
fn a_key_of_fifty_one_characters_is_too_long() {
    let raw = "k".repeat(51);
    assert_eq!(IdempotencyKey::parse(raw).unwrap_err(), KeyError::TooLong);
}

#[test]
fn an_empty_key_is_rejected_as_empty() {
    assert_eq!(IdempotencyKey::parse(String::new()).unwrap_err(), KeyError::Empty);
}

#[test]
fn a_whitespace_only_key_is_rejected_as_empty() {
    assert_eq!(IdempotencyKey::parse("  \t\n  ".to_string()).unwrap_err(), KeyError::Empty);
}

#[test]
fn unicode_whitespace_only_keys_are_rejected_as_empty() {
    // Form feed, no-break space, em space, ideographic space: whitespace to
    // `str::trim`, so they must not claim a record.
    for raw in ["\u{000C}", "\u{00A0}\u{00A0}", "\u{2003}", "\u{3000} \u{2028}"] {
        assert_eq!(
            IdempotencyKey::parse(raw.to_string()).unwrap_err(),
            KeyError::Empty,
            "{raw:?}",
        );
    }
}

#[test]
fn a_key_keeps_its_exact_characters() {
    let parsed = IdempotencyKey::parse("MiXeD-CaSe_123".to_string()).unwrap();
    assert_eq!(parsed.as_str(), "MiXeD-CaSe_123");
}

#[test]
fn a_first_claim_starts_processing() {
    let mut db = Database::new();
    let k = key("first-claim");
    match try_processing(&mut db, &k, 7).unwrap() {
        NextAction::StartProcessing(_) => {}
        NextAction::ReturnSavedResponse(_) => panic!("a fresh key must start processing"),
    }
}

#[test]
fn a_second_claim_on_a_pending_key_conflicts() {
    let mut db = Database::new();
    let k = key("contested");
    let first = try_processing(&mut db, &k, 7).unwrap();
    assert!(matches!(first, NextAction::StartProcessing(_)));
    // The first transaction is still open (or was dropped before commit):
    // the record stays pending, and a rival claim fails fast.
    let second = try_processing(&mut db, &k, 7);
    assert_eq!(second.unwrap_err(), StoreError::ConflictPending);
}

#[test]
fn the_same_key_of_another_user_is_independent() {
    let mut db = Database::new();
    let k = key("shared-text");
    let first = try_processing(&mut db, &k, 1).unwrap();
    assert!(matches!(first, NextAction::StartProcessing(_)));
    let other_user = try_processing(&mut db, &k, 2).unwrap();
    assert!(matches!(other_user, NextAction::StartProcessing(_)));
}

#[test]
fn a_completed_key_replays_the_saved_response() {
    let mut db = Database::new();
    let k = key("completed");
    let txn = match try_processing(&mut db, &k, 7).unwrap() {
        NextAction::StartProcessing(t) => t,
        NextAction::ReturnSavedResponse(_) => panic!("a fresh key must start processing"),
    };
    let saved = save_response(&mut db, txn, &some_response());
    assert_eq!(saved.status, 303);
    match try_processing(&mut db, &k, 7).unwrap() {
        NextAction::StartProcessing(_) => panic!("a completed key must not start again"),
        NextAction::ReturnSavedResponse(replayed) => {
            assert_eq!(replayed.status, 303);
            assert_eq!(replayed.headers.len(), 1);
            assert_eq!(replayed.headers[0].name, "Location");
            assert_eq!(replayed.headers[0].value, "/somewhere");
            assert_eq!(replayed.body, b"done".to_vec());
        }
    }
}

#[test]
fn get_saved_response_sees_only_completed_records() {
    let mut db = Database::new();
    let k = key("lookup");
    assert!(get_saved_response(&db, &k, 7).is_none());
    let txn = match try_processing(&mut db, &k, 7).unwrap() {
        NextAction::StartProcessing(t) => t,
        NextAction::ReturnSavedResponse(_) => panic!("a fresh key must start processing"),
    };
    // Pending: still nothing to replay.
    assert!(get_saved_response(&db, &k, 7).is_none());
    save_response(&mut db, txn, &some_response());
    let found = get_saved_response(&db, &k, 7).unwrap();
    assert_eq!(found.status, 303);
    assert_eq!(found.body, b"done".to_vec());
    // Scoped per user: another user sees nothing under the same key text.
    assert!(get_saved_response(&db, &k, 8).is_none());
}

#[test]
fn a_response_duplicate_is_byte_for_byte_equal() {
    let original = some_response();
    let copy = original.duplicate();
    assert_eq!(copy.status, original.status);
    assert_eq!(copy.headers.len(), original.headers.len());
    assert_eq!(copy.headers[0].name, original.headers[0].name);
    assert_eq!(copy.headers[0].value, original.headers[0].value);
    assert_eq!(copy.body, original.body);
}
