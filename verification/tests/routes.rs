use ztp_rust::email_client::EmailClient;
use ztp_rust::greet;
use ztp_rust::routes::{
    confirm_response, confirmation_link, subscribe_step, welcome_text, SubReq, SubscribeAction,
    SubscribeError, SubscribeEvent, SubscribeState,
};
use ztp_rust::{error_chain_fmt, SubscriberEmail};

const TOKEN: u128 = 0xa1a2a3a4b1b2c1c2d1d2d3d4d5d6d7d8;

fn request(name: &str, email: &str) -> SubscribeEvent {
    SubscribeEvent::Request(SubReq { name: name.to_string(), email: email.to_string() })
}

fn status(action: &SubscribeAction) -> u16 {
    match action {
        SubscribeAction::Respond(Ok(())) => 200,
        SubscribeAction::Respond(Err(e)) => e.status_code(),
        _ => panic!("not an answer"),
    }
}

#[test]
fn subscriptions_subscribe_returns_200_for_valid_data() {
    let (state, action) =
        subscribe_step(SubscribeState::AwaitingRequest, request("le guin", "ursula_le_guin@gmail.com"));
    match &action {
        SubscribeAction::SaveSubscriber(d) => {
            assert_eq!(d.email.as_ref(), "ursula_le_guin@gmail.com");
            assert_eq!(d.name.as_ref(), "le guin");
        }
        _ => panic!("expected the subscriber to be saved"),
    }
    let (state, action) = subscribe_step(state, SubscribeEvent::Inserted(TOKEN));
    match &action {
        SubscribeAction::SendConfirmation { recipient, subject, html, plain } => {
            assert_eq!(recipient.as_ref(), "ursula_le_guin@gmail.com");
            assert_eq!(subject, "Welcome le guin, we need just one more thing");
            assert_eq!(html, "curl localhost:8000/confirm/a1a2a3a4-b1b2-c1c2-d1d2-d3d4d5d6d7d8");
            assert_eq!(plain, "Confirm yourself maan");
        }
        _ => panic!("expected the confirmation email"),
    }
    let (state, action) = subscribe_step(state, SubscribeEvent::EmailSent);
    assert!(matches!(state, SubscribeState::Finished));
    assert_eq!(200, status(&action));
}

#[test]
fn subscribe_returns_400_for_invalid_fields() {
    let cases = [
        ("   ", "test@testete.com"),
        ("dobro", "ursula@_le_guin@gmail.com"),
        ("  ", "some@@gmail.com"),
    ];
    for (name, email) in cases {
        let (state, action) = subscribe_step(SubscribeState::AwaitingRequest, request(name, email));
        assert!(matches!(state, SubscribeState::Finished));
        assert_eq!(400, status(&action), "{} {}", name, email);
    }
}

#[test]
fn refused_request_carries_the_rule_broken() {
    let (_, action) = subscribe_step(SubscribeState::AwaitingRequest, request("dobro", "a@@b"));
    match action {
        SubscribeAction::Respond(Err(SubscribeError::InputValidationError(m))) => {
            assert_eq!(m, "More than one @ symbol")
        }
        _ => panic!("expected a refusal"),
    }
}

#[test]
fn failed_insert_answers_500_with_context() {
    let (state, _) = subscribe_step(SubscribeState::AwaitingRequest, request("a", "a@b"));
    let (state, action) =
        subscribe_step(state, SubscribeEvent::InsertFailed(vec!["connection refused".to_string()]));
    assert!(matches!(state, SubscribeState::Finished));
    assert_eq!(500, status(&action));
    match action {
        SubscribeAction::Respond(Err(e)) => {
            assert_eq!(e.message(), "Failed to insert subscriber");
            assert_eq!(
                e.debug_text(),
                "Failed to insert subscriber\n\nCaused by:\n\tconnection refused\n"
            );
        }
        _ => panic!("expected a failure"),
    }
}

#[test]
fn failed_email_answers_500_with_context() {
    let (state, _) = subscribe_step(SubscribeState::AwaitingRequest, request("a", "a@b"));
    let (state, _) = subscribe_step(state, SubscribeEvent::Inserted(0));
    let (_, action) = subscribe_step(state, SubscribeEvent::EmailFailed(vec![]));
    assert_eq!(500, status(&action));
    match action {
        SubscribeAction::Respond(Err(e)) => assert_eq!(e.message(), "Failed to send confirmation email"),
        _ => panic!("expected a failure"),
    }
}

#[test]
fn zero_token_is_written_in_full() {
    let (state, _) = subscribe_step(SubscribeState::AwaitingRequest, request("a", "a@b"));
    let (_, action) = subscribe_step(state, SubscribeEvent::Inserted(0));
    match action {
        SubscribeAction::SendConfirmation { html, .. } => {
            assert_eq!(html, "curl localhost:8000/confirm/00000000-0000-0000-0000-000000000000")
        }
        _ => panic!("expected the confirmation email"),
    }
}

#[test]
fn error_chain_lists_every_cause() {
    let causes = vec!["a".to_string(), "b".to_string()];
    assert_eq!(error_chain_fmt("top", &causes), "top\n\nCaused by:\n\ta\nCaused by:\n\tb\n");
    assert_eq!(error_chain_fmt("alone", &vec![]), "alone\n\n");
}

#[test]
fn error_status_codes() {
    let refused = SubscribeError::InputValidationError("Name is empty".to_string());
    assert_eq!(refused.status_code(), 400);
    assert_eq!(refused.message(), "Name is empty");
    assert_eq!(refused.debug_text(), "Name is empty\n\n");
    let failed = SubscribeError::UnexpectedError { context: "x".to_string(), causes: vec![] };
    assert_eq!(failed.status_code(), 500);
}

#[test]
fn confirmation_answers() {
    assert!(confirm_response(Ok(())).is_ok());
    let e = confirm_response(Err(vec!["db down".to_string()])).unwrap_err();
    assert_eq!(e.status_code(), 500);
    assert_eq!(e.message(), "Failed to change subscriber status");
}

#[test]
fn email_texts() {
    assert_eq!(welcome_text("x"), "Welcome x, we need just one more thing");
    assert_eq!(confirmation_link("t"), "curl localhost:8000/confirm/t");
}

#[test]
fn email_request_comes_from_the_client_sender() {
    let sender = SubscriberEmail::parse("tester@test.com".to_string()).unwrap();
    let client = EmailClient::new("http://localhost:8081/send_email".to_string(), sender);
    assert_eq!(client.address(), "http://localhost:8081/send_email");
    let to = SubscriberEmail::parse("a@b".to_string()).unwrap();
    let r = client.clone().request(to, "s".to_string(), "h".to_string(), "p");
    assert_eq!(r.sender, "tester@test.com");
    assert_eq!(r.recipient, "a@b");
    assert_eq!((r.subject.as_str(), r.html.as_str(), r.plain.as_str()), ("s", "h", "p"));
    assert_eq!(client.sender().as_ref(), "tester@test.com");
}

#[test]
fn greetings() {
    assert_eq!(greet(None), "Hello World!");
    assert_eq!(greet(Some("Bob")), "Hello Bob!");
}

#[test]
fn each_state_waits_for_its_events() {
    let start = SubscribeState::AwaitingRequest;
    assert!(start.accepts(&request("a", "a@b")));
    assert!(!start.accepts(&SubscribeEvent::EmailSent));
    let (saving, _) = subscribe_step(start, request("a", "a@b"));
    assert!(saving.accepts(&SubscribeEvent::Inserted(1)));
    assert!(saving.accepts(&SubscribeEvent::InsertFailed(vec![])));
    assert!(!saving.accepts(&SubscribeEvent::EmailSent));
    let (sending, _) = subscribe_step(saving, SubscribeEvent::Inserted(1));
    assert!(sending.accepts(&SubscribeEvent::EmailSent));
    assert!(!sending.accepts(&SubscribeEvent::Inserted(1)));
    let (done, _) = subscribe_step(sending, SubscribeEvent::EmailSent);
    assert!(!done.accepts(&SubscribeEvent::EmailSent));
}
