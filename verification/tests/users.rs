//! Accounts, signup decisions, and authentication.

use itty_core::store_user::{
    filter_authenticated, new_user_email_decision, new_user_insert_error,
    parse_verification_token, verification_cutoff_ms, EmailSendOutcome, NewUserCredentials,
    NewUserError, TxDecision, User, UserCredentials, UserEmailVerification, UserInsertOutcome,
};

fn credentials() -> NewUserCredentials {
    NewUserCredentials {
        display_name: "Sam".to_string(),
        email: "sam@example.com".to_string(),
        password: "correct horse battery staple".to_string(),
    }
}

#[test]
fn signup_hashes_the_password_and_leaves_email_unverified() {
    let user = User::from_credentials(credentials());
    assert_eq!(user.display_name, "Sam");
    assert_eq!(user.email, "sam@example.com");
    assert!(!user.email_verified);
    assert_ne!(user.password, "correct horse battery staple");
    assert_eq!(user.created_at, user.updated_at);
}

#[test]
fn authentication_accepts_the_password_and_nothing_else() {
    let user = User::from_credentials(credentials());
    let found = filter_authenticated(Some(user), "correct horse battery staple");
    assert!(found.is_some());

    let user = User::from_credentials(credentials());
    assert!(filter_authenticated(Some(user), "wrong password").is_none());
    assert!(filter_authenticated(None, "correct horse battery staple").is_none());
}

#[test]
fn verification_binds_a_fresh_token_to_the_user() {
    let user = User::from_credentials(credentials());
    let verification = UserEmailVerification::from_user(&user).unwrap();
    assert_eq!(verification.user_id, user.id);
    assert_eq!(verification.token.as_bytes().len(), 64);
    assert_eq!(verification.created_at, verification.updated_at);
}

#[test]
fn signup_failures_map_to_http_statuses() {
    assert_eq!(NewUserError::AccountExists.status_code(), 422);
    assert_eq!(NewUserError::InvalidEmail.status_code(), 422);
    assert_eq!(NewUserError::InternalServerError.status_code(), 500);
}

#[test]
fn insert_outcomes_map_to_signup_failures() {
    assert_eq!(new_user_insert_error(&UserInsertOutcome::Inserted), None);
    assert_eq!(
        new_user_insert_error(&UserInsertOutcome::UniqueViolation),
        Some(NewUserError::AccountExists)
    );
    assert_eq!(
        new_user_insert_error(&UserInsertOutcome::OtherError),
        Some(NewUserError::InternalServerError)
    );
}

#[test]
fn only_an_undeliverable_address_rolls_the_signup_back() {
    assert_eq!(
        new_user_email_decision(&EmailSendOutcome::InvalidRecipient),
        (TxDecision::Rollback, Some(NewUserError::InvalidEmail))
    );
    assert_eq!(new_user_email_decision(&EmailSendOutcome::Sent), (TxDecision::Commit, None));
    // A mailer failure other than a bad address still commits the account.
    assert_eq!(
        new_user_email_decision(&EmailSendOutcome::OtherError),
        (TxDecision::Commit, None)
    );
}

#[test]
fn pending_verifications_expire_after_eight_hours() {
    assert_eq!(verification_cutoff_ms(1_000_000_000_000), 999_971_200_000);
    assert_eq!(verification_cutoff_ms(28_800_000), 0);
}

#[test]
fn verification_token_gate_ignores_malformed_text() {
    let token = parse_verification_token("AQID").unwrap();
    assert_eq!(token.as_bytes(), &vec![1u8, 2, 3]);
    assert!(parse_verification_token("not base64!").is_none());
}

#[test]
fn sign_in_credentials_carry_plain_fields() {
    let c = UserCredentials { email: "sam@example.com".to_string(), password: "pw".to_string() };
    assert_eq!(c.email, "sam@example.com");
    assert_eq!(c.password, "pw");
}
