//! The rules of admission: which client software may identify itself, and
//! which login is accepted.
//!
//! Looking up a user or a whitelist entry, and checking a password against
//! its hash, is done outside; the functions here decide on the answers.

use vstd::prelude::*;

verus! {

/// Why an identification or a login was refused.
#[derive(Debug)]
pub enum AuthError {
    InvalidCredentials,
    ClientNotWhitelisted(String),
    UserNotFound,
    DatabaseError(String),
    PasswordError,
}

/// A refusal as plain mathematical data.
pub enum AuthErrorView {
    InvalidCredentials,
    ClientNotWhitelisted(Seq<char>),
    UserNotFound,
    DatabaseError(Seq<char>),
    PasswordError,
}

impl View for AuthError {
    type V = AuthErrorView;

    open spec fn view(&self) -> AuthErrorView {
        match self {
            AuthError::InvalidCredentials => AuthErrorView::InvalidCredentials,
            AuthError::ClientNotWhitelisted(id) => AuthErrorView::ClientNotWhitelisted(id@),
            AuthError::UserNotFound => AuthErrorView::UserNotFound,
            AuthError::DatabaseError(e) => AuthErrorView::DatabaseError(e@),
            AuthError::PasswordError => AuthErrorView::PasswordError,
        }
    }
}

/// What is known of a user once a login has been accepted.
#[derive(Debug)]
pub struct UserRecord {
    pub real_name: String,
    pub atc_rating: i32,
    pub pilot_rating: i32,
}

/// A user record as plain mathematical data.
pub struct UserRecordView {
    pub real_name: Seq<char>,
    pub atc_rating: i32,
    pub pilot_rating: i32,
}

impl View for UserRecord {
    type V = UserRecordView;

    open spec fn view(&self) -> UserRecordView {
        UserRecordView {
            real_name: self.real_name@,
            atc_rating: self.atc_rating,
            pilot_rating: self.pilot_rating,
        }
    }
}

/// How the check of a password against the stored hash ended.
#[derive(Debug, Clone, Copy, PartialEq, Eq, Structural)]
pub enum PasswordCheck {
    /// The password is the user's.
    Matches,
    /// The password is not the user's.
    Differs,
    /// The check itself failed.
    Failed,
}

/// The verdict on a client software id, given what the whitelist said.
pub open spec fn client_id_verdict(whitelisted: Result<bool, Seq<char>>, client_id: Seq<char>)
    -> Result<(), AuthErrorView> {
    match whitelisted {
        Ok(true) => Ok(()),
        Ok(false) => Err(AuthErrorView::ClientNotWhitelisted(client_id)),
        Err(e) => Err(AuthErrorView::DatabaseError(e)),
    }
}

/// The verdict on a login, given the user that was found and how the
/// check of the password ended.
pub open spec fn login_verdict(
    found: Result<Option<UserRecordView>, Seq<char>>,
    check: PasswordCheck,
) -> Result<UserRecordView, AuthErrorView> {
    match found {
        Err(e) => Err(AuthErrorView::DatabaseError(e)),
        Ok(None) => Err(AuthErrorView::UserNotFound),
        Ok(Some(user)) => match check {
            PasswordCheck::Failed => Err(AuthErrorView::PasswordError),
            PasswordCheck::Differs => Err(AuthErrorView::InvalidCredentials),
            PasswordCheck::Matches => Ok(user),
        },
    }
}

/// The view of what a whitelist lookup returned.
pub open spec fn lookup_view(whitelisted: Result<bool, String>) -> Result<bool, Seq<char>> {
    match whitelisted {
        Ok(b) => Ok(b),
        Err(e) => Err(e@),
    }
}

/// The view of what a user lookup returned.
pub open spec fn found_view(found: Result<Option<UserRecord>, String>) -> Result<
    Option<UserRecordView>,
    Seq<char>,
> {
    match found {
        Ok(Some(u)) => Ok(Some(u@)),
        Ok(None) => Ok(None),
        Err(e) => Err(e@),
    }
}

/// The view of a verdict on a login.
pub open spec fn verdict_view(r: Result<UserRecord, AuthError>) -> Result<
    UserRecordView,
    AuthErrorView,
> {
    match r {
        Ok(u) => Ok(u@),
        Err(e) => Err(e@),
    }
}

/// The view of a verdict on a client software id.
pub open spec fn unit_verdict_view(r: Result<(), AuthError>) -> Result<(), AuthErrorView> {
    match r {
        Ok(_) => Ok(()),
        Err(e) => Err(e@),
    }
}

/// Decides on a client software id. `whitelisted` is what the lookup of
/// the id among the enabled whitelist entries returned: whether it is
/// there, or the text of the storage error.
pub fn validate_client_id(whitelisted: Result<bool, String>, client_id: &str) -> (r: Result<
    (),
    AuthError,
>)
    ensures
        unit_verdict_view(r) == client_id_verdict(lookup_view(whitelisted), client_id@),
{
    match whitelisted {
        Ok(true) => Ok(()),
        Ok(false) => Err(AuthError::ClientNotWhitelisted(String::from_str(client_id))),
        Err(e) => Err(AuthError::DatabaseError(e)),
    }
}

/// Decides on a login. `found` is what the lookup of the network id
/// returned: the user, none, or the text of the storage error. `check`
/// is how the check of the password against that user's hash ended; it
/// is not looked at unless a user was found.
pub fn validate_login(found: Result<Option<UserRecord>, String>, check: PasswordCheck) -> (r:
    Result<UserRecord, AuthError>)
    ensures
        verdict_view(r) == login_verdict(found_view(found), check),
{
    match found {
        Err(e) => Err(AuthError::DatabaseError(e)),
        Ok(None) => Err(AuthError::UserNotFound),
        Ok(Some(user)) => match check {
            PasswordCheck::Failed => Err(AuthError::PasswordError),
            PasswordCheck::Differs => Err(AuthError::InvalidCredentials),
            PasswordCheck::Matches => Ok(user),
        },
    }
}

impl AuthError {
    /// The error as a sentence for a log or a user.
    pub fn message(&self) -> (s: String)
        ensures
            s@ == match self@ {
                AuthErrorView::InvalidCredentials => "Invalid credentials"@,
                AuthErrorView::ClientNotWhitelisted(id) => "Client not whitelisted: "@ + id,
                AuthErrorView::UserNotFound => "User not found"@,
                AuthErrorView::DatabaseError(e) => "Database error: "@ + e,
                AuthErrorView::PasswordError => "Password verification error"@,
            },
    {
        match self {
            AuthError::InvalidCredentials => String::from_str("Invalid credentials"),
            AuthError::ClientNotWhitelisted(id) => String::from_str(
                "Client not whitelisted: ",
            ).concat(id.as_str()),
            AuthError::UserNotFound => String::from_str("User not found"),
            AuthError::DatabaseError(e) => String::from_str("Database error: ").concat(e.as_str()),
            AuthError::PasswordError => String::from_str("Password verification error"),
        }
    }
}

} // verus!
