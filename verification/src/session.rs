//! The session authenticator: checks credentials and issues tokens, and
//! resolves a token presented in an `Authorization` header to a known user.

use vstd::prelude::*;

use crate::credentials::{password_verdict, CredentialStore, User, UserView};
use crate::text::{after_prefix, strip_prefix};
use crate::token::{
    decoded_token, issue_outcome, on_the_clock, read_as, read_back, unix_now,
    validation_outcome, DecodeFault, PayloadView, TokenService, TOKEN_DURATION,
};

verus! {

/// The scheme marker that an `Authorization` header value begins with.
pub const BEARER: &'static str = "Bearer ";

/// Why a login or an authentication failed.
#[derive(Clone, Copy, Debug, PartialEq, Eq, Structural)]
pub enum AuthError {
    /// The header is absent or does not begin with the scheme marker.
    MissingOrMalformedHeader,
    /// Unknown user or wrong password: the two are not told apart.
    InvalidCredentials,
    /// The token was not accepted, for whichever reason.
    InvalidToken,
    /// The token is valid but names a user that the store does not know.
    UserNotFound,
    /// The stored hash could not be verified against: an internal fault.
    VerificationFault,
    /// No token could be issued: an internal fault.
    SigningFault,
}

/// The token that a header value carries: all that follows the scheme
/// marker at its front; none where the header is absent or begins
/// otherwise.
pub open spec fn bearer_token(header: Option<Seq<char>>) -> Option<Seq<char>> {
    match header {
        Some(value) => after_prefix(value, BEARER@),
        None => None,
    }
}

/// The header value that presents `token`.
pub open spec fn bearer_header(token: Seq<char>) -> Option<Seq<char>> {
    Some(BEARER@ + token)
}

/// The outcome of authenticating a header value at time `now` against a
/// store and a secret.
pub open spec fn authentication_outcome(
    store: Map<Seq<char>, UserView>,
    secret: Seq<char>,
    header: Option<Seq<char>>,
    now: i64,
) -> Result<UserView, AuthError> {
    match bearer_token(header) {
        None => Err(AuthError::MissingOrMalformedHeader),
        Some(token) => match validation_outcome(decoded_token(token, secret), now) {
            Err(_) => Err(AuthError::InvalidToken),
            Ok(claims) => if store.contains_key(claims.subject) {
                Ok(store[claims.subject])
            } else {
                Err(AuthError::UserNotFound)
            },
        },
    }
}

/// The outcome of a login at time `now` against a store and a secret.
pub open spec fn login_outcome(
    store: Map<Seq<char>, UserView>,
    secret: Seq<char>,
    username: Seq<char>,
    password: Seq<char>,
    now: i64,
) -> Result<Seq<char>, AuthError> {
    if !store.contains_key(username) {
        Err(AuthError::InvalidCredentials)
    } else {
        match password_verdict(password, store[username].password_hash) {
            None => Err(AuthError::VerificationFault),
            Some(false) => Err(AuthError::InvalidCredentials),
            Some(true) => match issue_outcome(store[username].username, now, secret) {
                Ok(token) => Ok(token),
                Err(_) => Err(AuthError::SigningFault),
            },
        }
    }
}

/// `token`, presented in a header at any time before `expires_at`,
/// authenticates as the user called `username`.
pub open spec fn authenticates_until(
    store: Map<Seq<char>, UserView>,
    secret: Seq<char>,
    token: Seq<char>,
    username: Seq<char>,
    expires_at: int,
) -> bool {
    forall|later: i64|
        later < expires_at ==> #[trigger] authentication_outcome(
            store,
            secret,
            bearer_header(token),
            later,
        ) == Ok::<UserView, AuthError>(store[username])
}

/// `token`, presented in a header at `from` or at any time after it, does
/// not authenticate.
pub open spec fn refused_from(
    store: Map<Seq<char>, UserView>,
    secret: Seq<char>,
    token: Seq<char>,
    from: int,
) -> bool {
    forall|later: i64|
        from <= later ==> #[trigger] authentication_outcome(
            store,
            secret,
            bearer_header(token),
            later,
        ) == Err::<UserView, AuthError>(AuthError::InvalidToken)
}

/// What a login at time `now` guarantees of its result. It is the outcome
/// that `login_outcome` gives. A token that comes back is not empty and
/// decodes under `secret` to the username and to an expiry of
/// `TOKEN_DURATION` seconds after `now`, as `read_back` says. Presented in
/// a header, it authenticates as the user at every time before that expiry,
/// where the expiry is not negative, and at no time from the expiry on.
pub open spec fn logged_in_at(
    r: Result<Seq<char>, AuthError>,
    store: Map<Seq<char>, UserView>,
    secret: Seq<char>,
    username: Seq<char>,
    password: Seq<char>,
    now: i64,
) -> bool {
    &&& r == login_outcome(store, secret, username, password, now)
    &&& r matches Ok(token) ==> token.len() > 0
    &&& r matches Ok(token) ==> decoded_token(token, secret) == read_back(
        username,
        (now + TOKEN_DURATION) as i64,
    )
    &&& r matches Ok(token) ==> 0 <= now + TOKEN_DURATION ==> authenticates_until(
        store,
        secret,
        token,
        username,
        now + TOKEN_DURATION,
    )
    &&& r matches Ok(token) ==> refused_from(store, secret, token, now + TOKEN_DURATION)
}

/// The view of a header value.
pub open spec fn header_view(header: Option<&str>) -> Option<Seq<char>> {
    match header {
        Some(value) => Some(value@),
        None => None,
    }
}

/// The view of an authentication result.
pub open spec fn user_view(r: Result<User, AuthError>) -> Result<UserView, AuthError> {
    match r {
        Ok(user) => Ok(user@),
        Err(e) => Err(e),
    }
}

/// The view of a login result.
pub open spec fn login_view(r: Result<String, AuthError>) -> Result<Seq<char>, AuthError> {
    match r {
        Ok(token) => Ok(token@),
        Err(e) => Err(e),
    }
}

/// A token presented behind the scheme marker is the token that the header
/// carries.
pub proof fn lemma_header_carries_token(token: Seq<char>)
    ensures
        bearer_token(bearer_header(token)) == Some(token),
{
    let value = BEARER@ + token;
    assert(value.subrange(0, BEARER@.len() as int) =~= BEARER@);
    assert(value.skip(BEARER@.len() as int) =~= token);
}

/// A header carries a token if and only if it is that token behind the
/// scheme marker.
pub proof fn lemma_header_of_token(header: Option<Seq<char>>, token: Seq<char>)
    ensures
        bearer_token(header) == Some(token) <==> header == bearer_header(token),
{
    lemma_header_carries_token(token);
    if bearer_token(header) == Some(token) {
        let value = header->0;
        assert(value =~= value.subrange(0, BEARER@.len() as int) + value.skip(BEARER@.len() as int));
    }
}

/// A header that repeats the scheme marker carries a text that begins with
/// the marker and so holds a space: no token.
pub proof fn lemma_repeated_marker_is_no_token(token: Seq<char>)
    ensures
        bearer_token(bearer_header(BEARER@ + token)) == Some(BEARER@ + token),
        (BEARER@ + token).contains(' '),
{
    reveal_strlit("Bearer ");
    lemma_header_carries_token(BEARER@ + token);
    assert((BEARER@ + token)[6] == ' ');
}

/// A token that reads back as the claims of a known user, presented in a
/// header before it expires, authenticates as that user.
pub proof fn lemma_readable_token_authenticates(
    store: Map<Seq<char>, UserView>,
    secret: Seq<char>,
    username: Seq<char>,
    expires_at: i64,
    token: Seq<char>,
)
    requires
        store.contains_key(username),
        decoded_token(token, secret) == read_as(username, expires_at),
    ensures
        authenticates_until(store, secret, token, username, expires_at as int),
{
    lemma_header_carries_token(token);
}

/// `header` is the scheme marker and then `token`, which reads back in full
/// under `secret` as `subject` and `expires_at`, has not expired at `now`,
/// and names `user` as a user of `store`.
pub open spec fn presents_valid_token(
    store: Map<Seq<char>, UserView>,
    secret: Seq<char>,
    header: Option<Seq<char>>,
    now: i64,
    user: UserView,
    token: Seq<char>,
    subject: Seq<char>,
    expires_at: i64,
) -> bool {
    &&& header == bearer_header(token)
    &&& decoded_token(token, secret) == read_as(subject, expires_at)
    &&& now < expires_at
    &&& store.contains_key(subject)
    &&& user == store[subject]
}

/// A header authenticates, and as the user `user`, if and only if it
/// presents a valid token for that user.
pub proof fn lemma_authenticates_iff_valid(
    store: Map<Seq<char>, UserView>,
    secret: Seq<char>,
    header: Option<Seq<char>>,
    now: i64,
    user: UserView,
)
    ensures
        authentication_outcome(store, secret, header, now) == Ok::<UserView, AuthError>(user) <==> exists|
            token: Seq<char>,
            subject: Seq<char>,
            expires_at: i64,
        | #[trigger]
            presents_valid_token(store, secret, header, now, user, token, subject, expires_at),
{
    if authentication_outcome(store, secret, header, now) == Ok::<UserView, AuthError>(user) {
        let token = bearer_token(header)->0;
        lemma_header_of_token(header, token);
        let payload = decoded_token(token, secret)->Ok_0;
        assert(presents_valid_token(
            store,
            secret,
            header,
            now,
            user,
            token,
            payload.subject->0,
            payload.expires_at->0,
        ));
    }
    if exists|token: Seq<char>, subject: Seq<char>, expires_at: i64| #[trigger]
        presents_valid_token(store, secret, header, now, user, token, subject, expires_at) {
        let (token, subject, expires_at) = choose|
            token: Seq<char>,
            subject: Seq<char>,
            expires_at: i64,
        | #[trigger]
            presents_valid_token(store, secret, header, now, user, token, subject, expires_at);
        lemma_header_carries_token(token);
    }
}

/// A login with the password that the stored hash verifies against is
/// refused for no reason but an expiry that cannot be represented, and at
/// no time that the clock can show.
pub proof fn lemma_registered_pair_logs_in(
    store: Map<Seq<char>, UserView>,
    secret: Seq<char>,
    username: Seq<char>,
    password: Seq<char>,
    now: i64,
)
    requires
        store.contains_key(username),
        password_verdict(password, store[username].password_hash) == Some(true),
    ensures
        login_outcome(store, secret, username, password, now) == match issue_outcome(
            store[username].username,
            now,
            secret,
        ) {
            Ok(token) => Ok::<Seq<char>, AuthError>(token),
            Err(_) => Err::<Seq<char>, AuthError>(AuthError::SigningFault),
        },
        now + TOKEN_DURATION <= i64::MAX ==> login_outcome(store, secret, username, password, now) is Ok,
        on_the_clock(now) ==> login_outcome(store, secret, username, password, now) is Ok,
{
}

/// The token of a login, presented in a header, authenticates as the user
/// who logged in at every time before it expires. Left out are the logins
/// at a time so long before the epoch that the expiry is negative: their
/// token does not read back.
pub proof fn lemma_login_then_authenticate(
    store: Map<Seq<char>, UserView>,
    secret: Seq<char>,
    username: Seq<char>,
    password: Seq<char>,
    now: i64,
    token: Seq<char>,
    later: i64,
)
    requires
        logged_in_at(Ok(token), store, secret, username, password, now),
        0 <= now + TOKEN_DURATION,
        later < now + TOKEN_DURATION,
    ensures
        authentication_outcome(store, secret, bearer_header(token), later) == Ok::<UserView, AuthError>(
            store[username],
        ),
{
}

/// The token of a login, presented in a header at its expiry or later, does
/// not authenticate.
pub proof fn lemma_login_token_expires(
    store: Map<Seq<char>, UserView>,
    secret: Seq<char>,
    username: Seq<char>,
    password: Seq<char>,
    now: i64,
    token: Seq<char>,
    later: i64,
)
    requires
        logged_in_at(Ok(token), store, secret, username, password, now),
        later >= now + TOKEN_DURATION,
    ensures
        authentication_outcome(store, secret, bearer_header(token), later) == Err::<UserView, AuthError>(
            AuthError::InvalidToken,
        ),
{
}

/// A login for an unknown user and a login with a wrong password for a
/// known one have the same outcome, whatever the passwords and the times.
pub proof fn lemma_unknown_user_and_wrong_password_alike(
    store: Map<Seq<char>, UserView>,
    secret: Seq<char>,
    unknown: Seq<char>,
    some_password: Seq<char>,
    known: Seq<char>,
    wrong_password: Seq<char>,
    now: i64,
    later: i64,
)
    requires
        !store.contains_key(unknown),
        store.contains_key(known),
        password_verdict(wrong_password, store[known].password_hash) == Some(false),
    ensures
        login_outcome(store, secret, unknown, some_password, now) == login_outcome(
            store,
            secret,
            known,
            wrong_password,
            later,
        ),
        login_outcome(store, secret, unknown, some_password, now) == Err::<Seq<char>, AuthError>(
            AuthError::InvalidCredentials,
        ),
{
}

/// A header whose token has expired by `now` does not authenticate, though
/// the signature of the token matches and whoever it names: the outcome is
/// `InvalidToken`.
pub proof fn lemma_expired_token_does_not_authenticate(
    store: Map<Seq<char>, UserView>,
    secret: Seq<char>,
    token: Seq<char>,
    subject: Option<Seq<char>>,
    expires_at: i64,
    now: i64,
)
    requires
        decoded_token(token, secret) == Ok::<PayloadView, DecodeFault>(
            PayloadView { subject, expires_at: Some(expires_at) },
        ),
        expires_at <= now,
    ensures
        authentication_outcome(store, secret, bearer_header(token), now) == Err::<UserView, AuthError>(
            AuthError::InvalidToken,
        ),
{
    lemma_header_carries_token(token);
    crate::token::lemma_expired_is_rejected(subject, expires_at, now);
}

/// A header whose token decoding does not read, be it for a signature made
/// with another secret, does not authenticate at any time, whoever the
/// token names: the outcome is `InvalidToken`.
pub proof fn lemma_unread_token_does_not_authenticate(
    store: Map<Seq<char>, UserView>,
    secret: Seq<char>,
    token: Seq<char>,
    fault: DecodeFault,
    now: i64,
)
    requires
        decoded_token(token, secret) == Err::<PayloadView, DecodeFault>(fault),
    ensures
        authentication_outcome(store, secret, bearer_header(token), now) == Err::<UserView, AuthError>(
            AuthError::InvalidToken,
        ),
{
    lemma_header_carries_token(token);
}

/// Checks credentials against a store and tokens against a secret.
pub struct SessionAuthenticator {
    store: CredentialStore,
    tokens: TokenService,
}

impl SessionAuthenticator {
    /// The known users.
    pub closed spec fn users(&self) -> Map<Seq<char>, UserView> {
        self.store@
    }

    /// The signing secret, for contracts only.
    pub closed spec fn key(&self) -> Seq<char> {
        self.tokens.key()
    }

    /// The invariant: that of the store.
    pub closed spec fn wf(&self) -> bool {
        self.store.wf()
    }

    /// Every user is known under its own username.
    pub proof fn lemma_users_keyed_by_username(&self)
        requires
            self.wf(),
        ensures
            forall|name: Seq<char>| #[trigger]
                self.users().contains_key(name) ==> self.users()[name].username == name,
    {
        self.store.lemma_keyed_by_username();
    }

    /// An authenticator over `store` and `tokens`.
    pub fn new(store: CredentialStore, tokens: TokenService) -> (r: Self)
        requires
            store.wf(),
        ensures
            r.wf(),
            r.users() == store@,
            r.key() == tokens.key(),
    {
        SessionAuthenticator { store, tokens }
    }

    /// Logs `username` in at time `now`. An unknown user and a wrong
    /// password both fail with `InvalidCredentials`; a stored hash that
    /// cannot be verified against fails with `VerificationFault`; otherwise
    /// a token is issued for the user, or the login fails with
    /// `SigningFault` where its expiry cannot be represented.
    ///
    /// The token of a login, presented in a header, authenticates as the
    /// user who logged in at every time before it expires, and at no time
    /// from then on.
    pub fn login_at(&self, username: &str, plaintext_password: &str, now: i64) -> (r: Result<String, AuthError>)
        requires
            self.wf(),
        ensures
            logged_in_at(
                login_view(r),
                self.users(),
                self.key(),
                username@,
                plaintext_password@,
                now,
            ),
    {
        let user = match self.store.lookup(username) {
            Some(user) => user,
            None => return Err(AuthError::InvalidCredentials),
        };
        match user.check_password(plaintext_password) {
            None => Err(AuthError::VerificationFault),
            Some(false) => Err(AuthError::InvalidCredentials),
            Some(true) => match self.tokens.issue_at(user.username.as_str(), now) {
                Ok(token) => {
                    proof {
                        lemma_header_carries_token(token@);
                        if 0 <= now + TOKEN_DURATION {
                            lemma_readable_token_authenticates(
                                self.users(),
                                self.key(),
                                username@,
                                (now + TOKEN_DURATION) as i64,
                                token@,
                            );
                        }
                    }
                    Ok(token)
                },
                Err(_) => Err(AuthError::SigningFault),
            },
        }
    }

    /// Logs `username` in at the time the clock shows. A known user with
    /// the password that the stored hash verifies against gets a token, which
    /// is not empty, expires `TOKEN_DURATION` seconds after that time, and
    /// authenticates as the user until then and no longer.
    pub fn login(&self, username: &str, plaintext_password: &str) -> (r: Result<String, AuthError>)
        requires
            self.wf(),
        ensures
            self.users().contains_key(username@) && password_verdict(
                plaintext_password@,
                self.users()[username@].password_hash,
            ) == Some(true) ==> r is Ok,
            r matches Ok(token) ==> token@.len() > 0,
            exists|now: i64|
                on_the_clock(now) && #[trigger] logged_in_at(
                    login_view(r),
                    self.users(),
                    self.key(),
                    username@,
                    plaintext_password@,
                    now,
                ),
    {
        let now = unix_now();
        self.login_at(username, plaintext_password, now)
    }

    /// Resolves a header value to a known user at time `now`. An absent
    /// header, or one that does not begin with the scheme marker, fails
    /// with `MissingOrMalformedHeader`. All that follows the marker is taken
    /// for the token: one that does not validate fails with `InvalidToken`,
    /// as does every text that holds a space, such as a second marker; a
    /// valid token for a user that the store does not know fails with
    /// `UserNotFound`.
    pub fn authenticate_at(&self, raw_header_value: Option<&str>, now: i64) -> (r: Result<User, AuthError>)
        requires
            self.wf(),
        ensures
            user_view(r) == authentication_outcome(
                self.users(),
                self.key(),
                header_view(raw_header_value),
                now,
            ),
            bearer_token(header_view(raw_header_value)) matches Some(token) && token.contains(' ')
                ==> r == Err::<User, AuthError>(AuthError::InvalidToken),
    {
        let value = match raw_header_value {
            Some(value) => value,
            None => return Err(AuthError::MissingOrMalformedHeader),
        };
        let token = match strip_prefix(value, BEARER) {
            Some(token) => token,
            None => return Err(AuthError::MissingOrMalformedHeader),
        };
        let claims = match self.tokens.validate_at(token, now) {
            Ok(claims) => claims,
            Err(_) => return Err(AuthError::InvalidToken),
        };
        match self.store.lookup(claims.subject.as_str()) {
            Some(user) => Ok(user),
            None => Err(AuthError::UserNotFound),
        }
    }

    /// Resolves a header value to a known user at the time the clock shows.
    pub fn authenticate(&self, raw_header_value: Option<&str>) -> (r: Result<User, AuthError>)
        requires
            self.wf(),
        ensures
            exists|now: i64|
                on_the_clock(now) && user_view(r) == #[trigger] authentication_outcome(
                    self.users(),
                    self.key(),
                    header_view(raw_header_value),
                    now,
                ),
            bearer_token(header_view(raw_header_value)) matches Some(token) && token.contains(' ')
                ==> r == Err::<User, AuthError>(AuthError::InvalidToken),
    {
        let now = unix_now();
        self.authenticate_at(raw_header_value, now)
    }
}

} // verus!
