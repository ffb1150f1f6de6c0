//! What holds of the credential store whatever is done with it, stated over the model
//! that the contracts of the store speak of, and proved.

use vstd::prelude::*;
use crate::auth::authentication;
use crate::auth::registration_check;
use crate::auth::stored_users_check;
use crate::auth::token_owner;
use crate::auth::AuthError;
use crate::auth::ValidationError;
use crate::password::password_matches;
use crate::users::distinct_users;
use crate::users::first_user_with;
use crate::users::lemma_first_user_after_push;
use crate::users::lemma_first_user_with;
use crate::users::lemma_lookup_is_unique;
use crate::users::UserField;
use crate::users::UserView;

verus! {

/// One attempt at a registration: the texts handed in, and the hash and the time stamp
/// that the store holds for them if it accepts them.
pub struct Attempt {
    pub username: Seq<char>,
    pub password: Seq<char>,
    pub email: Seq<char>,
    pub access_token: Seq<char>,
    pub password_hash: Seq<char>,
    pub created_at: Seq<char>,
}

/// The user that an accepted attempt leaves in the store.
pub open spec fn user_of(attempt: Attempt) -> UserView {
    UserView {
        username: attempt.username,
        email: attempt.email,
        password_hash: attempt.password_hash,
        access_token: attempt.access_token,
        created_at: attempt.created_at,
    }
}

/// What stands against an attempt.
pub open spec fn attempt_check(users: Seq<UserView>, attempt: Attempt) -> Option<
    ValidationError,
> {
    registration_check(
        users,
        attempt.username,
        attempt.password,
        attempt.email,
        attempt.access_token,
    )
}

/// The users after an attempt: one more where nothing stands against it, else the same.
pub open spec fn after_attempt(users: Seq<UserView>, attempt: Attempt) -> Seq<UserView> {
    if attempt_check(users, attempt) is None {
        users.push(user_of(attempt))
    } else {
        users
    }
}

/// The users after a sequence of attempts, made one after the other.
pub open spec fn after_attempts(users: Seq<UserView>, attempts: Seq<Attempt>) -> Seq<UserView>
    decreases attempts.len(),
{
    if attempts.len() == 0 {
        users
    } else {
        after_attempt(after_attempts(users, attempts.drop_last()), attempts.last())
    }
}

/// One attempt keeps the users distinct.
pub proof fn lemma_attempt_keeps_users_distinct(users: Seq<UserView>, attempt: Attempt)
    requires
        distinct_users(users),
    ensures
        distinct_users(after_attempt(users, attempt)),
{
    if attempt_check(users, attempt) is None {
        lemma_first_user_with(users, UserField::Username, attempt.username);
        lemma_first_user_with(users, UserField::AccessToken, attempt.access_token);
    }
}

/// Whatever registrations are attempted, in whatever order, no two stored users ever
/// share a username or an access token.
pub proof fn lemma_registrations_keep_users_distinct(
    users: Seq<UserView>,
    attempts: Seq<Attempt>,
)
    requires
        distinct_users(users),
    ensures
        distinct_users(after_attempts(users, attempts)),
    decreases attempts.len(),
{
    if attempts.len() > 0 {
        lemma_registrations_keep_users_distinct(users, attempts.drop_last());
        lemma_attempt_keeps_users_distinct(
            after_attempts(users, attempts.drop_last()),
            attempts.last(),
        );
    }
}

/// An attempt with the username or the access token of a stored user is turned down and
/// leaves the users as they were.
pub proof fn lemma_duplicate_is_turned_down(users: Seq<UserView>, attempt: Attempt, at: int)
    requires
        0 <= at < users.len(),
        users[at].username == attempt.username || users[at].access_token
            == attempt.access_token,
    ensures
        attempt_check(users, attempt) is Some,
        after_attempt(users, attempt) == users,
{
    lemma_first_user_with(users, UserField::Username, attempt.username);
    lemma_first_user_with(users, UserField::AccessToken, attempt.access_token);
}

/// What a store hands out to be persisted is taken over unchanged when it is read back:
/// nothing stands against stored users that are distinct.
pub proof fn lemma_persisted_users_are_taken_over(users: Seq<UserView>)
    requires
        distinct_users(users),
    ensures
        stored_users_check(users) is None,
{
}

/// A login succeeds exactly if a user of that name exists and the password fits the
/// hash stored for that user; it then yields that user's access token.
pub proof fn lemma_login_succeeds_iff(
    users: Seq<UserView>,
    username: Seq<char>,
    password: Seq<char>,
)
    requires
        distinct_users(users),
    ensures
        authentication(users, username, password) is Ok <==> exists|i: int|
            0 <= i < users.len() && (#[trigger] users[i]).username == username
                && password_matches(password, users[i].password_hash),
        forall|i: int|
            0 <= i < users.len() && (#[trigger] users[i]).username == username
                && password_matches(password, users[i].password_hash) ==> authentication(
                users,
                username,
                password,
            ) == Ok::<Seq<char>, AuthError>(users[i].access_token),
{
    lemma_first_user_with(users, UserField::Username, username);
    assert forall|i: int|
        0 <= i < users.len() && (#[trigger] users[i]).username
            == username implies first_user_with(users, UserField::Username, username) == Some(
        users[i],
    ) by {
        lemma_lookup_is_unique(users, i);
    }
    if authentication(users, username, password) is Ok {
        let user = first_user_with(users, UserField::Username, username)->0;
        let i = choose|i: int| 0 <= i < users.len() && #[trigger] users[i] == user;
        assert(users[i].username == username && password_matches(
            password,
            users[i].password_hash,
        ));
    }
}

/// A user registered with a password logs in with that password, and gets the access
/// token that was registered.
pub proof fn lemma_registered_password_logs_in(users: Seq<UserView>, attempt: Attempt)
    requires
        distinct_users(users),
        attempt_check(users, attempt) is None,
        password_matches(attempt.password, attempt.password_hash),
    ensures
        authentication(after_attempt(users, attempt), attempt.username, attempt.password)
            == Ok::<Seq<char>, AuthError>(attempt.access_token),
        token_owner(after_attempt(users, attempt), attempt.access_token) == Ok::<
            Seq<char>,
            AuthError,
        >(attempt.username),
{
    lemma_first_user_after_push(users, user_of(attempt), UserField::Username, attempt.username);
    lemma_first_user_after_push(
        users,
        user_of(attempt),
        UserField::AccessToken,
        attempt.access_token,
    );
}

/// A token is valid exactly if it is the access token of a stored user, and its owner
/// is then that very user.
pub proof fn lemma_token_is_valid_iff(users: Seq<UserView>, token: Seq<char>)
    requires
        distinct_users(users),
    ensures
        token_owner(users, token) is Ok <==> exists|i: int|
            0 <= i < users.len() && (#[trigger] users[i]).access_token == token,
        forall|i: int|
            0 <= i < users.len() && (#[trigger] users[i]).access_token == token ==> token_owner(
                users,
                token,
            ) == Ok::<Seq<char>, AuthError>(users[i].username),
{
    lemma_first_user_with(users, UserField::AccessToken, token);
    assert forall|i: int|
        0 <= i < users.len() && (#[trigger] users[i]).access_token
            == token implies first_user_with(users, UserField::AccessToken, token) == Some(
        users[i],
    ) by {
        lemma_lookup_is_unique(users, i);
    }
    if token_owner(users, token) is Ok {
        let user = first_user_with(users, UserField::AccessToken, token)->0;
        let i = choose|i: int| 0 <= i < users.len() && #[trigger] users[i] == user;
        assert(users[i].access_token == token);
    }
}


} // verus!
