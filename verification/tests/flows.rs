use newsletter::subscriptions::{error_chain_fmt, subscribe_next_step, SubscribeError, SubscribeStep};
use newsletter::subscriptions_confirm::{confirm_next_step, ConfirmError, ConfirmStep, Parameters};

#[test]
fn subscribe_errors_map_to_the_right_status_codes() {
    let validation = SubscribeError::ValidationError("bad email".to_string());
    assert_eq!(validation.status_code(), 400);
    let unexpected = SubscribeError::UnexpectedError("pool exhausted".to_string());
    assert_eq!(unexpected.status_code(), 500);
}

#[test]
fn confirm_errors_map_to_the_right_status_codes() {
    let validation = ConfirmError::ValidationError("bad token".to_string());
    assert_eq!(validation.status_code(), 400);
    let unexpected = ConfirmError::UnexpectedError("pool exhausted".to_string());
    assert_eq!(unexpected.status_code(), 500);
}

#[test]
fn an_unknown_address_is_created_and_emailed() {
    let step = subscribe_next_step(&None);
    assert!(matches!(step, SubscribeStep::CreateAndSend));
}

#[test]
fn a_pending_address_gets_its_confirmation_resent() {
    let existing = Some((42u128, "pending_confirmation".to_string()));
    match subscribe_next_step(&existing) {
        SubscribeStep::ResendConfirmation(id) => assert_eq!(id, 42),
        _ => panic!("a pending subscriber must get the email again"),
    }
}

#[test]
fn a_confirmed_address_is_left_alone() {
    let existing = Some((42u128, "confirmed".to_string()));
    assert!(matches!(subscribe_next_step(&existing), SubscribeStep::AlreadyHandled));
}

#[test]
fn an_unknown_token_is_unauthorized() {
    let step = confirm_next_step(&None, false);
    assert_eq!(step, ConfirmStep { status: 401, update: None });
}

#[test]
fn a_known_token_answers_ok() {
    // A pending subscriber is marked confirmed.
    let step = confirm_next_step(&Some(7u128), false);
    assert_eq!(step.status, 200);
    assert_eq!(step.update, Some(7));
    // Confirming again is harmless: still OK, nothing rewritten.
    let step = confirm_next_step(&Some(7u128), true);
    assert_eq!(step.status, 200);
    assert_eq!(step.update, None);
}

#[test]
fn confirming_a_pending_subscriber_marks_them_confirmed() {
    let mut db = newsletter::store::Database::new();
    let id = db.add_subscriber(
        "reader@example.com".to_string(),
        "pending_confirmation".to_string(),
    );
    let step = confirm_next_step(&Some(id as u128), db.subscriber_is_confirmed(id));
    assert_eq!(step.status, 200);
    let to_update = step.update.expect("a pending subscriber must be confirmed");
    db.confirm_subscriber(to_update as usize);
    assert!(db.subscriber_is_confirmed(id));
    // A second pass over the same token changes nothing further.
    let step = confirm_next_step(&Some(id as u128), db.subscriber_is_confirmed(id));
    assert_eq!(step.status, 200);
    assert_eq!(step.update, None);
}

#[test]
fn parameters_carry_the_raw_token() {
    let params = Parameters { subscription_token: "abc123".to_string() };
    assert_eq!(params.subscription_token, "abc123");
}

#[test]
fn the_error_chain_text_frames_the_error_and_lists_each_cause() {
    let text = error_chain_fmt(
        &"Failed to store the token".to_string(),
        &vec!["connection reset".to_string(), "io error".to_string()],
    );
    assert_eq!(
        text,
        "\nFailed to store the token\n\nCaused by:\n\tconnection reset\nCaused by:\n\tio error\n",
    );
}

#[test]
fn an_error_without_causes_renders_only_its_own_message() {
    let text = error_chain_fmt(&"boom".to_string(), &Vec::new());
    assert_eq!(text, "\nboom\n\n");
}
