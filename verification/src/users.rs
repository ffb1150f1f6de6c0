//! The records of the credential store and their mathematical model: a user is five
//! texts, the store a sequence of users in the order in which they were registered, plus
//! the optional notifier configuration.

use vstd::prelude::*;

verus! {

/// One registered user.
#[derive(Clone, Debug)]
pub struct User {
    pub username: String,
    pub email: String,
    pub password_hash: String,
    pub access_token: String,
    pub created_at: String,
}

/// A user as contracts see it.
pub struct UserView {
    pub username: Seq<char>,
    pub email: Seq<char>,
    pub password_hash: Seq<char>,
    pub access_token: Seq<char>,
    pub created_at: Seq<char>,
}

impl View for User {
    type V = UserView;

    open spec fn view(&self) -> UserView {
        UserView {
            username: self.username@,
            email: self.email@,
            password_hash: self.password_hash@,
            access_token: self.access_token@,
            created_at: self.created_at@,
        }
    }
}

impl DeepView for User {
    type V = UserView;

    open spec fn deep_view(&self) -> UserView {
        self@
    }
}

/// How the notifier reaches its mail server.
#[derive(Clone, Debug)]
pub struct SmtpConfig {
    pub server: String,
    pub port: u16,
    pub username: String,
    pub password: String,
    pub use_tls: bool,
}

/// A notifier configuration as contracts see it.
pub struct SmtpView {
    pub server: Seq<char>,
    pub port: u16,
    pub username: Seq<char>,
    pub password: Seq<char>,
    pub use_tls: bool,
}

impl View for SmtpConfig {
    type V = SmtpView;

    open spec fn view(&self) -> SmtpView {
        SmtpView {
            server: self.server@,
            port: self.port,
            username: self.username@,
            password: self.password@,
            use_tls: self.use_tls,
        }
    }
}

/// What the store persists: the users, in the order of their registration, and the
/// notifier configuration if one was set.
#[derive(Clone, Debug)]
pub struct AuthConfig {
    pub users: Vec<User>,
    pub smtp_config: Option<SmtpConfig>,
}

/// The store as contracts see it.
pub struct Credentials {
    pub users: Seq<UserView>,
    pub smtp_config: Option<SmtpView>,
}

impl View for AuthConfig {
    type V = Credentials;

    open spec fn view(&self) -> Credentials {
        Credentials {
            users: self.users.deep_view(),
            smtp_config: match self.smtp_config {
                Some(smtp) => Some(smtp@),
                None => None,
            },
        }
    }
}

impl Default for AuthConfig {
    /// No users and no notifier configuration.
    fn default() -> (config: AuthConfig)
        ensures
            config@.users == Seq::<UserView>::empty(),
            config@.smtp_config is None,
    {
        AuthConfig { users: Vec::new(), smtp_config: None }
    }
}

/// The texts of a user by which the store looks users up.
#[derive(Clone, Copy, Debug, PartialEq, Eq, Structural)]
pub enum UserField {
    Username,
    Email,
    AccessToken,
}

/// The text that `user` holds in `field`.
pub open spec fn field_of(user: UserView, field: UserField) -> Seq<char> {
    match field {
        UserField::Username => user.username,
        UserField::Email => user.email,
        UserField::AccessToken => user.access_token,
    }
}

/// The first user of `users`, in the order of registration, who holds `value` in `field`.
pub open spec fn first_user_with(users: Seq<UserView>, field: UserField, value: Seq<char>)
    -> Option<UserView>
    decreases users.len(),
{
    if users.len() == 0 {
        None
    } else if field_of(users.first(), field) == value {
        Some(users.first())
    } else {
        first_user_with(users.drop_first(), field, value)
    }
}

/// No two users share a username, and no two share an access token.
pub open spec fn distinct_users(users: Seq<UserView>) -> bool {
    forall|i: int, j: int|
        #![trigger users[i], users[j]]
        0 <= i < j < users.len() ==> users[i].username != users[j].username
            && users[i].access_token != users[j].access_token
}

/// If the user at `at` holds `value` in `field` and nobody before does, the lookup finds
/// that user.
pub proof fn lemma_first_user_at(
    users: Seq<UserView>,
    field: UserField,
    value: Seq<char>,
    at: int,
)
    requires
        0 <= at < users.len(),
        field_of(users[at], field) == value,
        forall|j: int| 0 <= j < at ==> field_of(#[trigger] users[j], field) != value,
    ensures
        first_user_with(users, field, value) == Some(users[at]),
    decreases at,
{
    if at > 0 {
        let rest = users.drop_first();
        assert(users.first() == users[0]);
        assert forall|j: int| 0 <= j < at - 1 implies field_of(#[trigger] rest[j], field)
            != value by {
            assert(rest[j] == users[j + 1]);
        }
        lemma_first_user_at(rest, field, value, at - 1);
    }
}

/// The lookup finds a user exactly if some user holds `value` in `field`, and the user
/// found is one of `users` that does.
pub proof fn lemma_first_user_with(users: Seq<UserView>, field: UserField, value: Seq<char>)
    ensures
        match first_user_with(users, field, value) {
            Some(user) => field_of(user, field) == value && exists|i: int|
                0 <= i < users.len() && #[trigger] users[i] == user,
            None => forall|i: int|
                0 <= i < users.len() ==> field_of(#[trigger] users[i], field) != value,
        },
    decreases users.len(),
{
    if users.len() == 0 {
    } else if field_of(users.first(), field) == value {
        assert(users[0] == users.first());
    } else {
        let rest = users.drop_first();
        lemma_first_user_with(rest, field, value);
        match first_user_with(rest, field, value) {
            Some(user) => {
                let i = choose|i: int| 0 <= i < rest.len() && #[trigger] rest[i] == user;
                assert(users[i + 1] == user);
            },
            None => {
                assert forall|i: int| 0 <= i < users.len() implies field_of(
                    #[trigger] users[i],
                    field,
                ) != value by {
                    if i > 0 {
                        assert(rest[i - 1] == users[i]);
                    }
                }
            },
        }
    }
}

/// Among distinct users, whoever holds a username or an access token is the one that the
/// lookup by that text finds.
pub proof fn lemma_lookup_is_unique(users: Seq<UserView>, at: int)
    requires
        distinct_users(users),
        0 <= at < users.len(),
    ensures
        first_user_with(users, UserField::Username, users[at].username) == Some(users[at]),
        first_user_with(users, UserField::AccessToken, users[at].access_token) == Some(
            users[at],
        ),
{
    assert forall|j: int| 0 <= j < at implies field_of(
        #[trigger] users[j],
        UserField::Username,
    ) != users[at].username by {
        assert(users[j].username != users[at].username);
    }
    lemma_first_user_at(users, UserField::Username, users[at].username, at);
    assert forall|j: int| 0 <= j < at implies field_of(
        #[trigger] users[j],
        UserField::AccessToken,
    ) != users[at].access_token by {
        assert(users[j].access_token != users[at].access_token);
    }
    lemma_first_user_at(users, UserField::AccessToken, users[at].access_token, at);
}

/// A lookup in `users` with one more user at the end: what was found before is still
/// found, and the new user is found only where nobody was.
pub proof fn lemma_first_user_after_push(
    users: Seq<UserView>,
    added: UserView,
    field: UserField,
    value: Seq<char>,
)
    ensures
        first_user_with(users.push(added), field, value) == match first_user_with(
            users,
            field,
            value,
        ) {
            Some(user) => Some(user),
            None => if field_of(added, field) == value {
                Some(added)
            } else {
                None
            },
        },
    decreases users.len(),
{
    let longer = users.push(added);
    if users.len() == 0 {
        assert(longer.first() == added);
        assert(longer.drop_first() =~= Seq::<UserView>::empty());
    } else {
        assert(longer.first() == users.first());
        assert(longer.drop_first() =~= users.drop_first().push(added));
        if field_of(users.first(), field) != value {
            lemma_first_user_after_push(users.drop_first(), added, field, value);
        }
    }
}

} // verus!
