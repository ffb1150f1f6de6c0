//! The credential store: registration, interactive authentication, validation of access
//! tokens and the notifier configuration. The store keeps usernames and access tokens
//! unique at all times; whoever persists it reads it through `config`.

use vstd::prelude::*;
use bcrypt::BcryptError;
use crate::password::bcrypt_verify;
use crate::password::hash_password;
use crate::password::password_matches;
use crate::password::verify_password;
use crate::text::contains_char;
use crate::text::same_text;
use crate::users::distinct_users;
use crate::users::field_of;
use crate::users::first_user_with;
use crate::users::lemma_first_user_at;
use crate::users::lemma_first_user_with;
use crate::users::AuthConfig;
use crate::users::Credentials;
use crate::users::SmtpConfig;
use crate::users::User;
use crate::users::UserField;
use crate::users::UserView;

verus! {

/// The least number of characters of a username.
pub const MIN_USERNAME_CHARS: usize = 3;

/// The least number of characters of a password.
pub const MIN_PASSWORD_CHARS: usize = 8;

/// The least number of characters of an access token.
pub const MIN_TOKEN_CHARS: usize = 8;

/// Why a registration was turned down before anything was stored.
#[derive(Clone, Copy, Debug, PartialEq, Eq, Structural)]
pub enum ValidationError {
    /// A user of that name is registered.
    UsernameTaken,
    /// The username has fewer than `MIN_USERNAME_CHARS` characters.
    UsernameTooShort,
    /// The password has fewer than `MIN_PASSWORD_CHARS` characters.
    PasswordTooShort,
    /// The access token has fewer than `MIN_TOKEN_CHARS` characters.
    TokenTooShort,
    /// The access token is that of a registered user.
    TokenInUse,
    /// The email holds no `@`.
    InvalidEmail,
}

impl ValidationError {
    /// The characters of the message.
    pub open spec fn text(&self) -> Seq<char> {
        match *self {
            ValidationError::UsernameTaken => "Username already exists"@,
            ValidationError::UsernameTooShort => "Username must be at least 3 characters"@,
            ValidationError::PasswordTooShort => "Password must be at least 8 characters"@,
            ValidationError::TokenTooShort => "Access token must be at least 8 characters"@,
            ValidationError::TokenInUse => "Access token already in use"@,
            ValidationError::InvalidEmail => "Please enter a valid email address"@,
        }
    }

    /// The message shown to the user.
    pub fn message(&self) -> (text: String)
        ensures
            text@ == self.text(),
    {
        match self {
            ValidationError::UsernameTaken => String::from_str("Username already exists"),
            ValidationError::UsernameTooShort => String::from_str(
                "Username must be at least 3 characters",
            ),
            ValidationError::PasswordTooShort => String::from_str(
                "Password must be at least 8 characters",
            ),
            ValidationError::TokenTooShort => String::from_str(
                "Access token must be at least 8 characters",
            ),
            ValidationError::TokenInUse => String::from_str("Access token already in use"),
            ValidationError::InvalidEmail => String::from_str("Please enter a valid email address"),
        }
    }
}

/// Why a registration failed.
#[derive(Clone, Copy, Debug, PartialEq, Eq, Structural)]
pub enum RegistrationError {
    /// The input was turned down.
    Invalid(ValidationError),
    /// The input was fine, but the password could not be hashed.
    HashingFailed,
}

impl RegistrationError {
    /// The characters of the message.
    pub open spec fn text(&self) -> Seq<char> {
        match *self {
            RegistrationError::Invalid(reason) => reason.text(),
            RegistrationError::HashingFailed => "Password could not be hashed"@,
        }
    }

    /// The message shown to the user.
    pub fn message(&self) -> (text: String)
        ensures
            text@ == self.text(),
    {
        match self {
            RegistrationError::Invalid(reason) => reason.message(),
            RegistrationError::HashingFailed => String::from_str("Password could not be hashed"),
        }
    }
}

/// Why a login or a token was turned down.
#[derive(Clone, Copy, Debug, PartialEq, Eq, Structural)]
pub enum AuthError {
    /// No user of that name is registered.
    UserNotFound,
    /// The password does not fit the stored hash.
    InvalidPassword,
    /// No user owns the token.
    InvalidToken,
    /// The stored password hash is not a well-formed hash.
    UnreadableHash,
}

impl AuthError {
    /// The characters of the message.
    pub open spec fn text(&self) -> Seq<char> {
        match *self {
            AuthError::UserNotFound => "User not found"@,
            AuthError::InvalidPassword => "Invalid password"@,
            AuthError::InvalidToken => "Invalid access token"@,
            AuthError::UnreadableHash => "Stored password hash is unreadable"@,
        }
    }

    /// The message shown to the user.
    pub fn message(&self) -> (text: String)
        ensures
            text@ == self.text(),
    {
        match self {
            AuthError::UserNotFound => String::from_str("User not found"),
            AuthError::InvalidPassword => String::from_str("Invalid password"),
            AuthError::InvalidToken => String::from_str("Invalid access token"),
            AuthError::UnreadableHash => String::from_str("Stored password hash is unreadable"),
        }
    }
}

/// Why a stored configuration was not taken over.
#[derive(Clone, Copy, Debug, PartialEq, Eq, Structural)]
pub enum PersistenceError {
    /// Two stored users share a username.
    DuplicateUsername,
    /// Two stored users share an access token.
    DuplicateToken,
}

impl PersistenceError {
    /// The characters of the message.
    pub open spec fn text(&self) -> Seq<char> {
        match *self {
            PersistenceError::DuplicateUsername => "Stored users share a username"@,
            PersistenceError::DuplicateToken => "Stored users share an access token"@,
        }
    }

    /// The message shown to the user.
    pub fn message(&self) -> (text: String)
        ensures
            text@ == self.text(),
    {
        match self {
            PersistenceError::DuplicateUsername => String::from_str(
                "Stored users share a username",
            ),
            PersistenceError::DuplicateToken => String::from_str(
                "Stored users share an access token",
            ),
        }
    }
}

/// Whether two users of `users` hold the same text in `field`.
pub open spec fn shares_field(users: Seq<UserView>, field: UserField) -> bool {
    exists|i: int, j: int|
        #![trigger users[i], users[j]]
        0 <= i < j < users.len() && field_of(users[i], field) == field_of(users[j], field)
}

/// What stands against taking over stored users: a shared username first, then a shared
/// access token.
pub open spec fn stored_users_check(users: Seq<UserView>) -> Option<PersistenceError> {
    if shares_field(users, UserField::Username) {
        Some(PersistenceError::DuplicateUsername)
    } else if shares_field(users, UserField::AccessToken) {
        Some(PersistenceError::DuplicateToken)
    } else {
        None
    }
}

/// What stands against registering a user, the first of: the username is taken; it is
/// too short; the password is too short; the access token is too short; it is in use; the
/// email has no `@`.
pub open spec fn registration_check(
    users: Seq<UserView>,
    username: Seq<char>,
    password: Seq<char>,
    email: Seq<char>,
    access_token: Seq<char>,
) -> Option<ValidationError> {
    if first_user_with(users, UserField::Username, username) is Some {
        Some(ValidationError::UsernameTaken)
    } else if username.len() < MIN_USERNAME_CHARS {
        Some(ValidationError::UsernameTooShort)
    } else if password.len() < MIN_PASSWORD_CHARS {
        Some(ValidationError::PasswordTooShort)
    } else {
        admission_check(users, username, email, access_token)
    }
}

/// What stands against storing a user whose password is already hashed: the checks of
/// `registration_check` but the one on the password, in the same order.
pub open spec fn admission_check(
    users: Seq<UserView>,
    username: Seq<char>,
    email: Seq<char>,
    access_token: Seq<char>,
) -> Option<ValidationError> {
    if first_user_with(users, UserField::Username, username) is Some {
        Some(ValidationError::UsernameTaken)
    } else if username.len() < MIN_USERNAME_CHARS {
        Some(ValidationError::UsernameTooShort)
    } else if access_token.len() < MIN_TOKEN_CHARS {
        Some(ValidationError::TokenTooShort)
    } else if first_user_with(users, UserField::AccessToken, access_token) is Some {
        Some(ValidationError::TokenInUse)
    } else if !email.contains('@') {
        Some(ValidationError::InvalidEmail)
    } else {
        None
    }
}

/// How a registration ends, given what stands against it and whether hashing worked.
pub open spec fn registration_result(reason: Option<ValidationError>, hashed: bool) -> Result<
    (),
    RegistrationError,
> {
    match reason {
        Some(reason) => Err(RegistrationError::Invalid(reason)),
        None => if hashed {
            Ok(())
        } else {
            Err(RegistrationError::HashingFailed)
        },
    }
}

/// What a login with `username` and `password` yields: the user's access token if the
/// user exists and the password fits the stored hash.
pub open spec fn authentication(users: Seq<UserView>, username: Seq<char>, password: Seq<char>)
    -> Result<Seq<char>, AuthError> {
    match first_user_with(users, UserField::Username, username) {
        None => Err(AuthError::UserNotFound),
        Some(user) => password_check(user, bcrypt_verify(password, user.password_hash)),
    }
}

/// What a login as `user` yields once the password was held against the stored hash.
pub open spec fn password_check(user: UserView, verified: Option<bool>) -> Result<
    Seq<char>,
    AuthError,
> {
    match verified {
        Some(true) => Ok(user.access_token),
        Some(false) => Err(AuthError::InvalidPassword),
        None => Err(AuthError::UnreadableHash),
    }
}

/// The owner of `token`, if it is the access token of a user.
pub open spec fn token_owner(users: Seq<UserView>, token: Seq<char>) -> Result<
    Seq<char>,
    AuthError,
> {
    match first_user_with(users, UserField::AccessToken, token) {
        Some(user) => Ok(user.username),
        None => Err(AuthError::InvalidToken),
    }
}

/// A result that carries a text, with the text as contracts see it.
pub open spec fn text_of<E>(outcome: Result<String, E>) -> Result<Seq<char>, E> {
    match outcome {
        Ok(text) => Ok(text@),
        Err(error) => Err(error),
    }
}

/// The text that `user` holds in `field`.
fn field<'a>(user: &'a User, which: UserField) -> (text: &'a String)
    ensures
        text@ == field_of(user@, which),
{
    match which {
        UserField::Username => &user.username,
        UserField::Email => &user.email,
        UserField::AccessToken => &user.access_token,
    }
}

/// The position of the first user who holds `value` in `which`.
pub(crate) fn position_with(users: &Vec<User>, which: UserField, value: &str) -> (found: Option<
    usize,
>)
    ensures
        match found {
            Some(at) => at < users.len() && first_user_with(users.deep_view(), which, value@)
                == Some(users[at as int]@),
            None => first_user_with(users.deep_view(), which, value@) is None,
        },
{
    let ghost all = users.deep_view();
    let mut at: usize = 0;
    while at < users.len()
        invariant
            at <= users.len(),
            all == users.deep_view(),
            forall|j: int| 0 <= j < at ==> field_of(#[trigger] all[j], which) != value@,
        decreases users.len() - at,
    {
        if same_text(field(&users[at], which).as_str(), value) {
            proof {
                lemma_first_user_at(all, which, value@, at as int);
            }
            return Some(at);
        }
        at += 1;
    }
    proof {
        lemma_first_user_with(all, which, value@);
    }
    None
}

/// Whether two of `users` hold the same text in `which`.
fn has_shared_field(users: &Vec<User>, which: UserField) -> (shared: bool)
    ensures
        shared == shares_field(users.deep_view(), which),
{
    let ghost all = users.deep_view();
    let mut later: usize = 0;
    while later < users.len()
        invariant
            later <= users.len(),
            all == users.deep_view(),
            forall|i: int, j: int|
                #![trigger all[i], all[j]]
                0 <= i < j < later ==> field_of(all[i], which) != field_of(all[j], which),
        decreases users.len() - later,
    {
        let mut earlier: usize = 0;
        while earlier < later
            invariant
                earlier <= later < users.len(),
                all == users.deep_view(),
                forall|i: int|
                    0 <= i < earlier ==> field_of(#[trigger] all[i], which) != field_of(
                        all[later as int],
                        which,
                    ),
            decreases later - earlier,
        {
            if same_text(
                field(&users[earlier], which).as_str(),
                field(&users[later], which).as_str(),
            ) {
                assert(field_of(all[earlier as int], which) == field_of(
                    all[later as int],
                    which,
                ));
                return true;
            }
            earlier += 1;
        }
        later += 1;
    }
    false
}

/// Calls `chrono::Utc::now` and renders the time with `to_rfc3339`. The text depends on
/// the clock, so nothing is claimed of it. The call panics on a machine whose clock is set
/// before 1970.
#[verifier::external_body]
fn utc_timestamp() -> (stamp: String) {
    chrono::Utc::now().to_rfc3339()
}

/// Decides a login as `user` from what the hashing primitive said of the password.
pub fn password_verdict(user: &User, verified: Result<bool, BcryptError>) -> (outcome: Result<
    String,
    AuthError,
>)
    ensures
        text_of(outcome) == password_check(
            user@,
            match verified {
                Ok(fits) => Some(fits),
                Err(_) => None,
            },
        ),
{
    match verified {
        Ok(true) => Ok(user.access_token.clone()),
        Ok(false) => Err(AuthError::InvalidPassword),
        Err(_) => Err(AuthError::UnreadableHash),
    }
}

/// The credential store of one backing file.
pub struct AuthManager {
    config_path: String,
    config: AuthConfig,
}

impl View for AuthManager {
    type V = Credentials;

    closed spec fn view(&self) -> Credentials {
        self.config@
    }
}

impl AuthManager {
    /// No two users share a username or an access token.
    #[verifier::type_invariant]
    spec fn users_stay_distinct(self) -> bool {
        distinct_users(self.config@.users)
    }

    /// The path of the backing file.
    pub closed spec fn path(&self) -> Seq<char> {
        self.config_path@
    }

    /// The store for the backing file at `config_path`: empty where the file held nothing
    /// yet (`stored` is `None`), else with what the file held, which is turned down if
    /// two of its users share a username or an access token.
    pub fn new(config_path: &str, stored: Option<AuthConfig>) -> (outcome: Result<
        AuthManager,
        PersistenceError,
    >)
        ensures
            match stored {
                None => outcome matches Ok(store) && store@.users == Seq::<UserView>::empty()
                    && store@.smtp_config is None && store.path() == config_path@,
                Some(config) => match stored_users_check(config@.users) {
                    None => outcome matches Ok(store) && store@ == config@ && store.path()
                        == config_path@,
                    Some(reason) => outcome matches Err(error) && error == reason,
                },
            },
    {
        let config = match stored {
            None => AuthConfig::default(),
            Some(config) => {
                if has_shared_field(&config.users, UserField::Username) {
                    return Err(PersistenceError::DuplicateUsername);
                }
                if has_shared_field(&config.users, UserField::AccessToken) {
                    return Err(PersistenceError::DuplicateToken);
                }
                config
            },
        };
        Ok(AuthManager { config_path: String::from_str(config_path), config })
    }

    /// What is to be persisted. Its users are distinct by username and by access token.
    pub fn config(&self) -> (config: &AuthConfig)
        ensures
            config@ == self@,
            distinct_users(self@.users),
    {
        proof {
            use_type_invariant(self);
        }
        &self.config
    }

    /// The path of the backing file.
    pub fn config_path(&self) -> (path: &str)
        ensures
            path@ == self.path(),
    {
        self.config_path.as_str()
    }

    /// Whether any user is registered; where none is, first-run setup is due.
    pub fn has_users(&self) -> (any: bool)
        ensures
            any == (self@.users.len() > 0),
    {
        self.config.users.len() > 0
    }

    /// The access token of the user registered first; empty where no user is registered.
    pub fn first_access_token(&self) -> (token: String)
        ensures
            token@ == if self@.users.len() > 0 {
                self@.users.first().access_token
            } else {
                Seq::empty()
            },
    {
        if self.config.users.len() > 0 {
            self.config.users[0].access_token.clone()
        } else {
            String::new()
        }
    }

    /// What stands against registering a user with these texts.
    pub fn check_registration(
        &self,
        username: &str,
        password: &str,
        email: &str,
        access_token: &str,
    ) -> (reason: Option<ValidationError>)
        ensures
            reason == registration_check(
                self@.users,
                username@,
                password@,
                email@,
                access_token@,
            ),
    {
        if position_with(&self.config.users, UserField::Username, username).is_some() {
            return Some(ValidationError::UsernameTaken);
        }
        if username.unicode_len() < MIN_USERNAME_CHARS {
            return Some(ValidationError::UsernameTooShort);
        }
        if password.unicode_len() < MIN_PASSWORD_CHARS {
            return Some(ValidationError::PasswordTooShort);
        }
        self.check_admission(username, email, access_token)
    }

    /// What stands against storing a user with these texts.
    pub fn check_admission(&self, username: &str, email: &str, access_token: &str) -> (reason:
        Option<ValidationError>)
        ensures
            reason == admission_check(self@.users, username@, email@, access_token@),
    {
        if position_with(&self.config.users, UserField::Username, username).is_some() {
            return Some(ValidationError::UsernameTaken);
        }
        if username.unicode_len() < MIN_USERNAME_CHARS {
            return Some(ValidationError::UsernameTooShort);
        }
        if access_token.unicode_len() < MIN_TOKEN_CHARS {
            return Some(ValidationError::TokenTooShort);
        }
        if position_with(&self.config.users, UserField::AccessToken, access_token).is_some() {
            return Some(ValidationError::TokenInUse);
        }
        if !contains_char(email, '@') {
            return Some(ValidationError::InvalidEmail);
        }
        None
    }

    /// Registers a user: validates the input, hashes the password, stamps the current
    /// time and stores the user. Whatever is turned down leaves the store as it was.
    pub fn register_user(
        &mut self,
        username: &str,
        password: &str,
        email: &str,
        access_token: &str,
    ) -> (outcome: Result<(), RegistrationError>)
        ensures
            final(self).path() == old(self).path(),
            final(self)@.smtp_config == old(self)@.smtp_config,
            distinct_users(final(self)@.users),
            match registration_check(
                old(self)@.users,
                username@,
                password@,
                email@,
                access_token@,
            ) {
                Some(reason) => outcome == Err::<(), RegistrationError>(
                    RegistrationError::Invalid(reason),
                ) && final(self)@.users == old(self)@.users,
                None => match outcome {
                    Ok(()) => {
                        let added = final(self)@.users.last();
                        &&& final(self)@.users.len() == old(self)@.users.len() + 1
                        &&& final(self)@.users.drop_last() == old(self)@.users
                        &&& added.username == username@
                        &&& added.email == email@
                        &&& added.access_token == access_token@
                        &&& password_matches(password@, added.password_hash)
                    },
                    Err(error) => error == RegistrationError::HashingFailed && final(self)@.users
                        == old(self)@.users,
                },
            },
    {
        proof {
            use_type_invariant(&*self);
        }
        match self.check_registration(username, password, email, access_token) {
            Some(reason) => {
                return Err(RegistrationError::Invalid(reason));
            },
            None => {},
        }
        let hashed = hash_password(password);
        let created_at = utc_timestamp();
        let ghost before = self@.users;
        let outcome = self.complete_registration(
            username,
            email,
            access_token,
            hashed,
            created_at,
        );
        proof {
            if outcome is Ok {
                assert(self@.users.last() == before.push(self@.users.last()).last());
                assert(self@.users.drop_last() == before);
            }
        }
        outcome
    }

    /// Finishes a registration once the password went through the hashing primitive and
    /// the time was read: stores the user with the hash and the time stamp, unless the
    /// texts are turned down or the hashing failed. What fails leaves the store as it was.
    pub fn complete_registration(
        &mut self,
        username: &str,
        email: &str,
        access_token: &str,
        hashed: Result<String, BcryptError>,
        created_at: String,
    ) -> (outcome: Result<(), RegistrationError>)
        ensures
            final(self).path() == old(self).path(),
            final(self)@.smtp_config == old(self)@.smtp_config,
            distinct_users(final(self)@.users),
            outcome == registration_result(
                admission_check(old(self)@.users, username@, email@, access_token@),
                hashed is Ok,
            ),
            final(self)@.users == match outcome {
                Ok(()) => old(self)@.users.push(
                    UserView {
                        username: username@,
                        email: email@,
                        password_hash: hashed->Ok_0@,
                        access_token: access_token@,
                        created_at: created_at@,
                    },
                ),
                Err(_) => old(self)@.users,
            },
    {
        proof {
            use_type_invariant(&*self);
        }
        match self.check_admission(username, email, access_token) {
            Some(reason) => {
                return Err(RegistrationError::Invalid(reason));
            },
            None => {},
        }
        let password_hash = match hashed {
            Ok(hash) => hash,
            Err(_) => {
                return Err(RegistrationError::HashingFailed);
            },
        };
        let user = User {
            username: String::from_str(username),
            email: String::from_str(email),
            password_hash,
            access_token: String::from_str(access_token),
            created_at,
        };
        let ghost before = self.config@.users;
        let mut users: Vec<User> = Vec::new();
        std::mem::swap(&mut users, &mut self.config.users);
        users.push(user);
        proof {
            assert(users.deep_view() =~= before.push(user@));
            lemma_first_user_with(before, UserField::Username, username@);
            lemma_first_user_with(before, UserField::AccessToken, access_token@);
            assert(distinct_users(before.push(user@)));
        }
        self.config.users = users;
        Ok(())
    }

    /// Checks a login: the access token of `username` if `password` fits the stored hash.
    pub fn authenticate(&self, username: &str, password: &str) -> (outcome: Result<
        String,
        AuthError,
    >)
        ensures
            text_of(outcome) == authentication(self@.users, username@, password@),
    {
        match position_with(&self.config.users, UserField::Username, username) {
            Some(at) => {
                let user = &self.config.users[at];
                let verified = verify_password(password, user.password_hash.as_str());
                password_verdict(user, verified)
            },
            None => Err(AuthError::UserNotFound),
        }
    }

    /// The username of the user whose access token is `token`.
    pub fn validate_token(&self, token: &str) -> (outcome: Result<String, AuthError>)
        ensures
            text_of(outcome) == token_owner(self@.users, token@),
    {
        match position_with(&self.config.users, UserField::AccessToken, token) {
            Some(at) => Ok(self.config.users[at].username.clone()),
            None => Err(AuthError::InvalidToken),
        }
    }

    /// Replaces the notifier configuration.
    pub fn configure_smtp(&mut self, smtp_config: SmtpConfig)
        ensures
            final(self)@.smtp_config == Some(smtp_config@),
            final(self)@.users == old(self)@.users,
            final(self).path() == old(self).path(),
    {
        proof {
            use_type_invariant(&*self);
        }
        self.config.smtp_config = Some(smtp_config);
    }
}

} // verus!
