//! Accounts, credentials, and the decisions of the user store.
//!
//! The store itself — SQL and mail delivery — is an outside collaborator;
//! this module holds what can be decided from plain values: how a signup
//! turns credentials into an account, which failure each storage or mail
//! outcome maps to, whether the signup transaction is kept, how stale
//! e-mail verifications are expired, and when a stored user counts as
//! authenticated. Password hashing is entrusted to the `password-auth`
//! crate.

use vstd::prelude::*;

verus! {

use crate::util::DateTime;
use crate::util_token::Token;
use crate::util_token::TokenError;
use crate::util_token::b64url_decode_of;
use crate::util_uuid::uuid_and_ts;

/// What a signup presents: a display name, an e-mail address, and a
/// password in the clear (it is hashed before it is stored).
pub struct NewUserCredentials {
    pub display_name: String,
    pub email: String,
    pub password: String,
}

/// What a sign-in presents.
pub struct UserCredentials {
    pub email: String,
    pub password: String,
}

/// A stored account. `password` holds a salted hash, never the password
/// itself.
pub struct User {
    pub id: uuid::Uuid,
    pub display_name: String,
    pub email: String,
    pub email_verified: bool,
    pub password: String,
    pub created_at: DateTime,
    pub updated_at: DateTime,
}

/// A pending e-mail verification: a fresh token bound to one user.
pub struct UserEmailVerification {
    pub id: uuid::Uuid,
    pub user_id: uuid::Uuid,
    pub token: Token,
    pub created_at: DateTime,
    pub updated_at: DateTime,
}

// ---------------------------------------------------------------------------
// Password hashing, entrusted to password-auth
// ---------------------------------------------------------------------------

/// Whether a password verifies against a stored salted hash.
pub uninterp spec fn password_verifies(password: Seq<char>, hash: Seq<char>) -> bool;

/// The longest password, in characters, that is ever handed to the hasher.
/// The hasher aborts on input of 2^32 bytes or more; a character is at
/// most four UTF-8 bytes, so this keeps every admitted password below
/// that bound.
pub const PASSWORD_MAX_CHARS: usize = 0x3FFF_FFFF;

/// Relies on `password_auth::generate_hash`: a salted PHC-format hash; the
/// salt is random, so nothing is promised of the text beyond the crate's
/// guarantee that the very password it was generated from verifies
/// against it. The hasher aborts on a password of 2^32 bytes or more, so
/// such inputs are not admitted.
#[verifier::external_body]
fn generate_password_hash(password: &str) -> (r: String)
    requires
        password@.len() <= PASSWORD_MAX_CHARS,
    ensures
        password_verifies(password@, r@),
{
    password_auth::generate_hash(password)
}

/// Relies on `password_auth::verify_password`: deterministic in the
/// password and the hash alone.
#[verifier::external_body]
fn check_password(password: &str, hash: &str) -> (r: bool)
    ensures
        r == password_verifies(password@, hash@),
{
    password_auth::verify_password(password, hash).is_ok()
}

// ---------------------------------------------------------------------------
// Creating accounts
// ---------------------------------------------------------------------------

impl User {
    /// The account a signup creates: the given name and address, the
    /// e-mail not yet verified, the password replaced by a hash it
    /// verifies against, and creation and update moments equal. The
    /// password must stay under the hasher's size bound (see
    /// [`PASSWORD_MAX_CHARS`]); the hasher aborts beyond it.
    pub fn from_credentials(credentials: NewUserCredentials) -> (u: User)
        requires
            credentials.password@.len() <= PASSWORD_MAX_CHARS,
        ensures
            u.display_name@ == credentials.display_name@,
            u.email@ == credentials.email@,
            !u.email_verified,
            password_verifies(credentials.password@, u.password@),
            u.created_at == u.updated_at,
            u.created_at.wf(),
    {
        let (id, now_ts) = uuid_and_ts();
        let password_hash = generate_password_hash(credentials.password.as_str());
        User {
            id,
            display_name: credentials.display_name,
            email: credentials.email,
            email_verified: false,
            password: password_hash,
            created_at: now_ts,
            updated_at: now_ts,
        }
    }
}

impl UserEmailVerification {
    /// The pending verification created beside a new account: a fresh
    /// 64-byte token bound to the user, stamped like the account itself.
    /// Fails only when the randomness source does.
    pub fn from_user(user: &User) -> (r: Result<UserEmailVerification, TokenError>)
        ensures
            r matches Ok(v) ==> {
                &&& v.user_id == user.id
                &&& v.token@.len() == 64
                &&& v.created_at == v.updated_at
                &&& v.created_at.wf()
            },
            r matches Err(e) ==> e == TokenError::Random,
    {
        let (id, now_ts) = uuid_and_ts();
        let token = match Token::new() {
            Ok(t) => t,
            Err(e) => {
                return Err(e);
            },
        };
        Ok(UserEmailVerification { id, user_id: user.id, token, created_at: now_ts, updated_at: now_ts })
    }
}

// ---------------------------------------------------------------------------
// Signup failures and the transaction decision
// ---------------------------------------------------------------------------

/// Why a signup failed.
#[derive(Clone, Copy, Debug, PartialEq, Eq, Structural)]
pub enum NewUserError {
    /// An account with this e-mail address already exists.
    AccountExists,
    /// The mailer rejected the address as undeliverable.
    InvalidEmail,
    /// Anything else: storage or mailer failure.
    InternalServerError,
}

impl NewUserError {
    /// The HTTP status each signup failure maps to.
    pub open spec fn spec_status_code(self) -> u16 {
        match self {
            NewUserError::AccountExists => 422,
            NewUserError::InvalidEmail => 422,
            NewUserError::InternalServerError => 500,
        }
    }

    /// The HTTP status of this failure: 422 for a rejected account or
    /// address, 500 for an internal failure.
    pub fn status_code(&self) -> (code: u16)
        ensures
            code == self.spec_status_code(),
    {
        match self {
            NewUserError::AccountExists => 422,
            NewUserError::InvalidEmail => 422,
            NewUserError::InternalServerError => 500,
        }
    }
}

/// What the database reported for the account insert.
#[derive(Clone, Copy, Debug, PartialEq, Eq, Structural)]
pub enum UserInsertOutcome {
    Inserted,
    /// A unique key — the e-mail address — was violated.
    UniqueViolation,
    OtherError,
}

/// What the mailer reported for the activation e-mail.
#[derive(Clone, Copy, Debug, PartialEq, Eq, Structural)]
pub enum EmailSendOutcome {
    Sent,
    /// The recipient address was rejected as undeliverable.
    InvalidRecipient,
    OtherError,
}

/// Whether the signup transaction is kept.
#[derive(Clone, Copy, Debug, PartialEq, Eq, Structural)]
pub enum TxDecision {
    Commit,
    Rollback,
}

/// The failure a finished account insert maps to: a unique-key violation
/// means the account already exists; any other failure is internal; a
/// successful insert maps to none.
pub fn new_user_insert_error(outcome: &UserInsertOutcome) -> (r: Option<NewUserError>)
    ensures
        outcome is Inserted <==> r is None,
        outcome is UniqueViolation ==> r == Some(NewUserError::AccountExists),
        outcome is OtherError ==> r == Some(NewUserError::InternalServerError),
{
    match outcome {
        UserInsertOutcome::Inserted => None,
        UserInsertOutcome::UniqueViolation => Some(NewUserError::AccountExists),
        UserInsertOutcome::OtherError => Some(NewUserError::InternalServerError),
    }
}

/// The signup decision taken after the activation e-mail: an undeliverable
/// recipient rolls the whole transaction back and fails the signup with
/// `InvalidEmail`; every other outcome — delivered or not — commits the
/// account and lets the signup succeed.
pub fn new_user_email_decision(outcome: &EmailSendOutcome) -> (r: (TxDecision, Option<
    NewUserError,
>))
    ensures
        outcome is InvalidRecipient ==> r == (
            TxDecision::Rollback,
            Some(NewUserError::InvalidEmail),
        ),
        !(outcome is InvalidRecipient) ==> r == (TxDecision::Commit, Option::<NewUserError>::None),
{
    match outcome {
        EmailSendOutcome::InvalidRecipient => (
            TxDecision::Rollback,
            Some(NewUserError::InvalidEmail),
        ),
        EmailSendOutcome::Sent => (TxDecision::Commit, None),
        EmailSendOutcome::OtherError => (TxDecision::Commit, None),
    }
}

// ---------------------------------------------------------------------------
// E-mail verification
// ---------------------------------------------------------------------------

/// How long a pending e-mail verification lives: eight hours, in
/// milliseconds.
pub const VERIFICATION_TTL_MS: i64 = 28_800_000;

/// The cutoff before which pending verifications are expired: eight hours
/// before the given moment.
pub fn verification_cutoff_ms(now_ms: i64) -> (r: i64)
    requires
        now_ms >= i64::MIN + VERIFICATION_TTL_MS,
    ensures
        r == now_ms - VERIFICATION_TTL_MS,
{
    now_ms - VERIFICATION_TTL_MS
}

/// The token gate of e-mail verification: text that is not valid URL-safe
/// base64 names no token — the verification then simply finds no user,
/// which is not an error.
pub fn parse_verification_token(s: &str) -> (r: Option<Token>)
    ensures
        r matches Some(t) ==> b64url_decode_of(s@) == Some(t@),
        r is None <==> b64url_decode_of(s@) is None,
{
    match Token::decode(s) {
        Ok(t) => Some(t),
        Err(_) => None,
    }
}

// ---------------------------------------------------------------------------
// Authentication
// ---------------------------------------------------------------------------

/// The authentication filter of sign-in: the stored user is returned
/// exactly when one was found and the presented password verifies against
/// the stored hash.
pub fn filter_authenticated(user: Option<User>, password: &str) -> (r: Option<User>)
    ensures
        (user matches Some(u) && password_verifies(password@, u.password@)) ==> r == user,
        !(user matches Some(u) && password_verifies(password@, u.password@)) ==> r is None,
{
    match user {
        Some(u) => {
            if check_password(password, u.password.as_str()) {
                Some(u)
            } else {
                None
            }
        },
        None => None,
    }
}

} // verus!
