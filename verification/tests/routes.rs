use zero2prod::cli::{Command, UsageError};
use zero2prod::error::Error;
use zero2prod::routes::{health_check, subscribe_finish, subscribe_start, FormData, Response, SubscribeStep};

#[test]
fn health_check_answers_200() {
    assert_eq!(health_check(), Response::Success);
    assert_eq!(health_check().status_code(), 200);
}

#[test]
fn valid_form_is_stored_then_answered_200() {
    let form = FormData::new("ursula_le_guin@gmail.com".to_string(), "le guin".to_string());
    assert_eq!(form.email(), "ursula_le_guin@gmail.com");
    assert_eq!(form.name(), "le guin");
    match subscribe_start(Ok(form)) {
        SubscribeStep::Insert { email, name } => {
            assert_eq!(email, "ursula_le_guin@gmail.com");
            assert_eq!(name, "le guin");
        }
        SubscribeStep::Respond(_) => panic!("a complete form must be stored"),
    }
    assert_eq!(subscribe_finish(true).status_code(), 200);
}

#[test]
fn incomplete_form_is_answered_400() {
    match subscribe_start(Err(400)) {
        SubscribeStep::Respond(r) => {
            assert_eq!(r, Response::FormRejected(400));
            assert_eq!(r.status_code(), 400);
        }
        SubscribeStep::Insert { .. } => panic!("an incomplete form must not be stored"),
    }
}

#[test]
fn body_of_wrong_content_type_keeps_the_readers_status() {
    match subscribe_start(Err(415)) {
        SubscribeStep::Respond(r) => assert_eq!(r.status_code(), 415),
        SubscribeStep::Insert { .. } => panic!("a rejected body must not be stored"),
    }
}

#[test]
fn failed_store_is_answered_500() {
    assert_eq!(subscribe_finish(false), Response::InternalServerError);
    assert_eq!(subscribe_finish(false).status_code(), 500);
}

#[test]
fn commands_of_the_database_tool() {
    assert_eq!(Command::parse(Some("migrate".to_string())), Ok(Command::Migrate));
    assert_eq!(Command::parse(Some("run".to_string())), Ok(Command::Run));
    assert_eq!(Command::parse(Some("Run".to_string())), Err(UsageError));
    assert_eq!(Command::parse(Some("stop".to_string())), Err(UsageError));
    assert_eq!(Command::parse(None), Err(UsageError));
    assert_eq!(UsageError.message(), "Usage: pg [migrate|run]");
}

#[test]
fn validation_error_message() {
    let e = Error::Validation("not an e-mail address".to_string());
    assert_eq!(e.message(), "not an e-mail address");
}
