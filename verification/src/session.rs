//! The session manager: registration, login and refresh-token rotation over
//! a user directory, a refresh token store and the token codec.
//!
//! Each flow has a form that takes the clock reading and the fresh token
//! identifier as arguments, with an exact contract, and a form that reads
//! the clock and draws the identifier itself. Where a flow goes on from
//! what a repository or the hashing returned, the step that goes on is a
//! function of its own, which takes that result as an argument.
//!
//! A flow changes the store in one unit or not at all: whenever it fails,
//! the store is as it was.

use crate::auth::{uuid_fresh, Authenticator, RefreshClaims};
use crate::clock::unix_now;
use crate::error::{
    auth_error_view, conflict_view, invalid_login_view, storage_error_view, unauthorized_view,
    APIErrorResponse, APIErrorView, APIResult, AuthError, StorageError, CONFLICT, CREATED,
    INTERNAL_SERVER_ERROR, UNAUTHORIZED,
};
use crate::passwords::{hash_password, hash_shaped, password_accepted, verify_password};
use crate::store::{after_login, after_rotation, redeemable, TokenRepository, TokenTable};
use crate::users::{account, registered, taken, User, UserPayload, UserRepository, UserView};
use vstd::prelude::*;

verus! {

/// The seconds for which an access token is valid: ten minutes.
pub const ACCESS_TOKEN_LIFETIME: i64 = 600;

/// The seconds for which a refresh token is valid: fourteen days.
pub const REFRESH_TOKEN_LIFETIME: i64 = 1209600;

/// An access token and a refresh token, handed out together.
#[derive(Debug, Clone)]
pub struct TokenGroup {
    access_token: String,
    refresh_token: String,
}

impl TokenGroup {
    /// The access token, as plain text.
    pub closed spec fn access(&self) -> Seq<char> {
        self.access_token@
    }

    /// The refresh token, as plain text.
    pub closed spec fn refresh(&self) -> Seq<char> {
        self.refresh_token@
    }

    /// A pair of the two tokens.
    pub fn new(access_token: String, refresh_token: String) -> (r: Self)
        ensures
            r.access() == access_token@,
            r.refresh() == refresh_token@,
    {
        Self { access_token, refresh_token }
    }

    /// The access token.
    pub fn access_token(&self) -> (r: &str)
        ensures
            r@ == self.access(),
    {
        self.access_token.as_str()
    }

    /// The refresh token.
    pub fn refresh_token(&self) -> (r: &str)
        ensures
            r@ == self.refresh(),
    {
        self.refresh_token.as_str()
    }
}

/// Tokens can be issued at `now` when the clock is at or after the epoch
/// and the refresh expiry fits the machine's word.
pub open spec fn issuable_at(now: int) -> bool {
    0 <= now && now + REFRESH_TOKEN_LIFETIME <= i64::MAX && now + REFRESH_TOKEN_LIFETIME
        <= usize::MAX
}

/// The two tokens that are issued to `user_id` at `now` with the refresh
/// identifier `refresh_id`: the access token expires after
/// `ACCESS_TOKEN_LIFETIME`, the refresh token after `REFRESH_TOKEN_LIFETIME`,
/// both are stamped with `now`. `None` where the clock is out of range or
/// the codec fails.
pub open spec fn issuance(auth: Authenticator, user_id: i32, now: int, refresh_id: u128) -> Option<
    (Seq<char>, Seq<char>),
> {
    if issuable_at(now) {
        match (
            auth.access_token_minted(
                user_id,
                (now + ACCESS_TOKEN_LIFETIME) as usize,
                now as usize,
            ),
            auth.refresh_token_minted(
                refresh_id,
                user_id,
                (now + REFRESH_TOKEN_LIFETIME) as usize,
                now as usize,
            ),
        ) {
            (Ok(access), Ok(refresh)) => Some((access, refresh)),
            _ => None,
        }
    } else {
        None
    }
}

/// A login is denied when no account has the email or the password is not
/// the account's.
pub open spec fn login_denied(users: Seq<UserView>, email: Seq<char>, password: Seq<char>) -> bool {
    match account(users, email) {
        Some(u) => !password_accepted(password, u.password),
        None => true,
    }
}

/// The result is the error answer `answer`.
pub open spec fn fails_with<V>(r: APIResult<V>, answer: APIErrorView) -> bool {
    match r {
        Err(e) => e@ == answer,
        Ok(_) => false,
    }
}

/// The answer where no pair can be issued at `now`: the clock is out of
/// range, or else the codec failed.
pub open spec fn issuance_refusal(now: int) -> APIErrorView {
    if issuable_at(now) {
        auth_error_view(AuthError::Signing)
    } else {
        APIErrorView { status: INTERNAL_SERVER_ERROR as int, message: "Clock out of range"@ }
    }
}

/// The store holds the token `id` for the account with this email.
pub open spec fn held_by_account(
    tokens: TokenTable,
    users: Seq<UserView>,
    email: Seq<char>,
    id: u128,
) -> bool {
    match account(users, email) {
        Some(u) => tokens.contains_key(id) && tokens[id].1 == u.id,
        None => false,
    }
}

/// The answer where the password could not be hashed.
pub open spec fn hashing_failed_view() -> APIErrorView {
    APIErrorView { status: INTERNAL_SERVER_ERROR as int, message: "Hashing failed"@ }
}

/// The session manager over a user directory and a refresh token store.
pub struct DefaultUserService<U: UserRepository, T: TokenRepository> {
    pub user_repository: U,
    pub token_repository: T,
    pub authenticator: Authenticator,
}

impl<U: UserRepository, T: TokenRepository> DefaultUserService<U, T> {
    /// Both repositories hold their invariants.
    pub open spec fn valid(&self) -> bool {
        self.user_repository.valid() && self.token_repository.valid()
    }

    /// Neither repository fails at will.
    pub open spec fn reliable(&self) -> bool {
        self.user_repository.reliable() && self.token_repository.reliable()
    }

    /// The outstanding refresh tokens.
    pub open spec fn tokens(&self) -> TokenTable {
        self.token_repository.tokens()
    }

    /// The accounts.
    pub open spec fn users(&self) -> Seq<UserView> {
        self.user_repository.users()
    }

    /// What stays as it is through every flow but registration.
    pub open spec fn same_frame(&self, after: &Self) -> bool {
        &&& after.valid()
        &&& after.users() == self.users()
        &&& after.authenticator == self.authenticator
        &&& after.user_repository.reliable() == self.user_repository.reliable()
        &&& after.token_repository.reliable() == self.token_repository.reliable()
    }

    /// A session manager over the given parts.
    pub fn new(user_repository: U, token_repository: T, authenticator: Authenticator) -> (r: Self)
        ensures
            r.user_repository == user_repository,
            r.token_repository == token_repository,
            r.authenticator == authenticator,
    {
        Self { user_repository, token_repository, authenticator }
    }

    /// Mints the pair of tokens for `user_id` at `now`, with `refresh_id`
    /// as the refresh token's identifier. Nothing is recorded. The pair is
    /// the codec's; where the clock is out of range or the codec fails, the
    /// answer is the 500 that says which.
    pub fn mint_token_group(&self, user_id: i32, now: i64, refresh_id: u128) -> (r: APIResult<
        TokenGroup,
    >)
        ensures
            r matches Ok(group) ==> issuance(self.authenticator, user_id, now as int, refresh_id)
                == Some((group.access(), group.refresh())),
            r matches Err(e) ==> issuance(self.authenticator, user_id, now as int, refresh_id)
                is None && e@ == issuance_refusal(now as int),
    {
        if now < 0 || now > i64::MAX - REFRESH_TOKEN_LIFETIME || (now + REFRESH_TOKEN_LIFETIME) as u64
            > usize::MAX as u64 {
            return Err(
                APIErrorResponse::new(INTERNAL_SERVER_ERROR, "Clock out of range".to_owned()),
            );
        }
        let iat = now as usize;
        let access_exp = (now + ACCESS_TOKEN_LIFETIME) as usize;
        let refresh_exp = (now + REFRESH_TOKEN_LIFETIME) as usize;
        let access_token = match self.authenticator.new_access_token_at(user_id, access_exp, iat) {
            Ok(token) => token,
            Err(err) => {
                return Err(APIErrorResponse::from_auth(err));
            },
        };
        match self.authenticator.new_refresh_token_at(refresh_id, user_id, refresh_exp, iat) {
            Ok(refresh_token) => Ok(TokenGroup::new(access_token, refresh_token)),
            Err(err) => Err(APIErrorResponse::from_auth(err)),
        }
    }

    /// What issuing a token pair at `now` with the identifier `refresh_id`
    /// does. On success the pair is the codec's and the new refresh token is
    /// recorded; on failure nothing is recorded and the answer is a 500,
    /// which says why where the pair could not be minted. Success is owed
    /// by a reliable store where the pair can be minted and the identifier
    /// is not in use.
    pub open spec fn issued(
        &self,
        after: &Self,
        user_id: i32,
        now: i64,
        refresh_id: u128,
        r: APIResult<TokenGroup>,
    ) -> bool {
        let minted = issuance(self.authenticator, user_id, now as int, refresh_id);
        &&& self.same_frame(after)
        &&& r matches Ok(group) ==> {
            &&& minted == Some((group.access(), group.refresh()))
            &&& !self.tokens().contains_key(refresh_id)
            &&& after.tokens() == self.tokens().insert(
                refresh_id,
                (now + REFRESH_TOKEN_LIFETIME, user_id as int),
            )
        }
        &&& r matches Err(e) ==> e@.status == INTERNAL_SERVER_ERROR && after.tokens()
            == self.tokens()
        &&& minted is None ==> fails_with(r, issuance_refusal(now as int))
        &&& minted is Some && self.token_repository.reliable() && !self.tokens().contains_key(
            refresh_id,
        ) ==> r is Ok
    }

    /// Issues a token pair to `user_id` at `now`, with `refresh_id` as the
    /// refresh token's identifier, and records the refresh token.
    pub fn create_token_group_at(&mut self, user_id: i32, now: i64, refresh_id: u128) -> (r:
        APIResult<TokenGroup>)
        requires
            old(self).valid(),
        ensures
            old(self).issued(final(self), user_id, now, refresh_id, r),
    {
        let group = match self.mint_token_group(user_id, now, refresh_id) {
            Ok(group) => group,
            Err(err) => {
                return Err(err);
            },
        };
        match self.token_repository.add_token(refresh_id, now + REFRESH_TOKEN_LIFETIME, user_id) {
            Ok(()) => Ok(group),
            Err(err) => Err(APIErrorResponse::from_storage(err)),
        }
    }

    /// What the login of an account whose password was accepted does at
    /// `now`, with the fresh identifier `refresh_id`. On success the pair
    /// is the codec's, and in one unit the user's earlier refresh tokens
    /// are gone and the new one is recorded. On failure the answer is a
    /// 500, which says why where the pair could not be minted. Success is
    /// owed by a reliable store where the pair can be minted and the
    /// identifier is not in use.
    pub open spec fn accepted_login(
        &self,
        after: &Self,
        user_id: i32,
        now: i64,
        refresh_id: u128,
        r: APIResult<TokenGroup>,
    ) -> bool {
        let minted = issuance(self.authenticator, user_id, now as int, refresh_id);
        &&& r matches Ok(group) ==> {
            &&& minted == Some((group.access(), group.refresh()))
            &&& !self.tokens().contains_key(refresh_id)
            &&& after.tokens() == after_login(
                self.tokens(),
                user_id as int,
                refresh_id,
                now + REFRESH_TOKEN_LIFETIME,
            )
        }
        &&& r matches Err(e) ==> e@.status == INTERNAL_SERVER_ERROR
        &&& minted is None ==> fails_with(r, issuance_refusal(now as int))
        &&& minted is Some && self.token_repository.reliable() && !self.tokens().contains_key(
            refresh_id,
        ) ==> r is Ok
    }

    /// What a login does once the directory has answered the lookup.
    ///
    /// No such account, and an account whose hash the password is not
    /// accepted against, are answered with the one 401 of failed logins. A
    /// lookup that failed is answered with the 500 that carries the
    /// datastore's message. An accepted login goes on as
    /// [`Self::accepted_login`] says. Whenever the login fails, the store is
    /// as it was.
    pub open spec fn login_went_on(
        &self,
        after: &Self,
        fetched: Result<User, StorageError>,
        password: Seq<char>,
        now: i64,
        refresh_id: u128,
        r: APIResult<TokenGroup>,
    ) -> bool {
        &&& self.same_frame(after)
        &&& r is Err ==> after.tokens() == self.tokens()
        &&& match fetched {
            Err(StorageError::RowNotFound) => fails_with(r, invalid_login_view()),
            Err(err) => fails_with(r, storage_error_view(err)),
            Ok(u) => if password_accepted(password, u.password@) {
                self.accepted_login(after, u.id, now, refresh_id, r)
            } else {
                fails_with(r, invalid_login_view())
            },
        }
    }

    /// Goes on with a login from what the directory answered to the lookup
    /// of the email: decides whether the login is accepted, and if it is,
    /// mints the pair and replaces the user's refresh tokens by the new
    /// one.
    pub fn login_fetched(
        &mut self,
        fetched: Result<User, StorageError>,
        password: &str,
        now: i64,
        refresh_id: u128,
    ) -> (r: APIResult<TokenGroup>)
        requires
            old(self).valid(),
        ensures
            old(self).login_went_on(final(self), fetched, password@, now, refresh_id, r),
    {
        let user = match fetched {
            Ok(user) => user,
            Err(StorageError::RowNotFound) => {
                return Err(APIErrorResponse::invalid_login());
            },
            Err(err) => {
                return Err(APIErrorResponse::from_storage(err));
            },
        };
        if !verify_password(password, user.password.as_str()) {
            return Err(APIErrorResponse::invalid_login());
        }
        let group = match self.mint_token_group(user.id, now, refresh_id) {
            Ok(group) => group,
            Err(err) => {
                return Err(err);
            },
        };
        match self.token_repository.replace_user_tokens(
            user.id,
            refresh_id,
            now + REFRESH_TOKEN_LIFETIME,
        ) {
            Ok(()) => Ok(group),
            Err(err) => Err(APIErrorResponse::from_storage(err)),
        }
    }

    /// What a login at `now` with the fresh identifier `refresh_id` does.
    ///
    /// A denied login is answered with the one 401 of failed logins, whether
    /// the email is unknown or the password wrong. An accepted login
    /// replaces the user's earlier refresh tokens by the new one, in one
    /// unit, and returns the pair. A repository or codec failure is a 500.
    /// Whenever the login fails, the store is as it was.
    pub open spec fn logged_in(
        &self,
        after: &Self,
        user: &UserPayload,
        now: i64,
        refresh_id: u128,
        r: APIResult<TokenGroup>,
    ) -> bool {
        let denied = login_denied(self.users(), user.email@, user.password@);
        &&& self.same_frame(after)
        &&& r matches Ok(group) ==> {
            &&& account(self.users(), user.email@) matches Some(u)
            &&& !denied
            &&& i32::MIN <= u.id <= i32::MAX
            &&& issuance(self.authenticator, u.id as i32, now as int, refresh_id) == Some(
                (group.access(), group.refresh()),
            )
            &&& !self.tokens().contains_key(refresh_id)
            &&& after.tokens() == after_login(
                self.tokens(),
                u.id,
                refresh_id,
                now + REFRESH_TOKEN_LIFETIME,
            )
        }
        &&& r matches Err(e) ==> {
            &&& after.tokens() == self.tokens()
            &&& e@.status == UNAUTHORIZED || e@.status == INTERNAL_SERVER_ERROR
            &&& e@.status == UNAUTHORIZED ==> denied && e@ == invalid_login_view()
        }
        &&& denied && self.user_repository.reliable() ==> fails_with(r, invalid_login_view())
        &&& !denied ==> !(r matches Err(e) && e@.status == UNAUTHORIZED)
        &&& match account(self.users(), user.email@) {
            Some(u) => (!denied && self.reliable() && i32::MIN <= u.id <= i32::MAX && issuance(
                self.authenticator,
                u.id as i32,
                now as int,
                refresh_id,
            ) is Some && !self.tokens().contains_key(refresh_id)) ==> r is Ok,
            None => true,
        }
    }

    /// Logs a user in at `now`, with `refresh_id` as the new refresh token's
    /// identifier: looks the email up and goes on as
    /// [`Self::login_fetched`] does.
    pub fn login_at(&mut self, user: &UserPayload, now: i64, refresh_id: u128) -> (r: APIResult<
        TokenGroup,
    >)
        requires
            old(self).valid(),
        ensures
            old(self).logged_in(final(self), user, now, refresh_id, r),
            exists|fetched: Result<User, StorageError>| #[trigger]
                old(self).login_went_on(final(self), fetched, user.password@, now, refresh_id, r),
    {
        let fetched = self.user_repository.get_user_by_email(user.email.as_str());
        let r = self.login_fetched(fetched, user.password.as_str(), now, refresh_id);
        assert(old(self).login_went_on(self, fetched, user.password@, now, refresh_id, r));
        r
    }

    /// What redeeming a refresh token at `now` for a pair with the fresh
    /// identifier `new_id` does.
    ///
    /// A token that the store no longer holds is answered with the uniform
    /// 401. A token that it holds is consumed: in one unit it leaves the
    /// store and its replacement is recorded, and the pair is returned. The
    /// replacement never has the identifier of the token it replaces. A
    /// repository or codec failure is a 500. Whenever the refresh fails,
    /// the store is as it was.
    pub open spec fn refreshed(
        &self,
        after: &Self,
        claims: &RefreshClaims,
        now: i64,
        new_id: u128,
        r: APIResult<TokenGroup>,
    ) -> bool {
        let held = redeemable(self.tokens(), claims.jti);
        let minted = issuance(self.authenticator, claims.sub, now as int, new_id);
        &&& self.same_frame(after)
        &&& r matches Ok(group) ==> {
            &&& held
            &&& minted == Some((group.access(), group.refresh()))
            &&& !self.tokens().contains_key(new_id)
            &&& after.tokens() == after_rotation(
                self.tokens(),
                claims.jti,
                new_id,
                now + REFRESH_TOKEN_LIFETIME,
                claims.sub as int,
            )
            &&& !redeemable(after.tokens(), claims.jti)
        }
        &&& r matches Err(e) ==> {
            &&& after.tokens() == self.tokens()
            &&& e@.status == UNAUTHORIZED || e@.status == INTERNAL_SERVER_ERROR
            &&& e@.status == UNAUTHORIZED ==> !held && e@ == unauthorized_view()
        }
        &&& !held && self.token_repository.reliable() ==> fails_with(r, unauthorized_view())
        &&& held ==> !(r matches Err(e) && e@.status == UNAUTHORIZED)
        &&& held && minted is None && self.token_repository.reliable() ==> fails_with(
            r,
            issuance_refusal(now as int),
        )
        &&& (held && self.token_repository.reliable() && minted is Some
            && !self.tokens().contains_key(new_id)) ==> r is Ok
    }

    /// Redeems a refresh token whose signature and expiry have been checked,
    /// at `now`, for a pair whose refresh token has the identifier `new_id`.
    pub fn refresh_at(&mut self, claims: &RefreshClaims, now: i64, new_id: u128) -> (r: APIResult<
        TokenGroup,
    >)
        requires
            old(self).valid(),
        ensures
            old(self).refreshed(final(self), claims, now, new_id, r),
    {
        match self.token_repository.contains_token(claims.jti) {
            Ok(true) => {},
            Ok(false) => {
                return Err(APIErrorResponse::unauthorized());
            },
            Err(err) => {
                return Err(APIErrorResponse::from_storage(err));
            },
        }
        let group = match self.mint_token_group(claims.sub, now, new_id) {
            Ok(group) => group,
            Err(err) => {
                return Err(err);
            },
        };
        match self.token_repository.rotate_token(
            claims.jti,
            new_id,
            now + REFRESH_TOKEN_LIFETIME,
            claims.sub,
        ) {
            Ok(true) => Ok(group),
            Ok(false) => Err(APIErrorResponse::unauthorized()),
            Err(err) => Err(APIErrorResponse::from_storage(err)),
        }
    }

    /// What revoking a refresh token does: the token leaves the store, and
    /// the answer says whether it was there. A store failure is a 500 and
    /// changes nothing.
    pub open spec fn logged_out(&self, after: &Self, claims: &RefreshClaims, r: APIResult<bool>) -> bool {
        &&& self.same_frame(after)
        &&& r matches Ok(held) ==> held == redeemable(self.tokens(), claims.jti) && after.tokens()
            == self.tokens().remove(claims.jti)
        &&& r matches Err(e) ==> e@.status == INTERNAL_SERVER_ERROR && after.tokens()
            == self.tokens()
        &&& self.token_repository.reliable() ==> r is Ok
    }

    /// Revokes a refresh token, so that it can no longer be redeemed, and
    /// says whether it still could.
    pub fn logout(&mut self, claims: &RefreshClaims) -> (r: APIResult<bool>)
        requires
            old(self).valid(),
        ensures
            old(self).logged_out(final(self), claims, r),
            r is Ok ==> !redeemable(final(self).tokens(), claims.jti),
    {
        match self.token_repository.delete_token(claims.jti) {
            Ok(held) => Ok(held),
            Err(err) => Err(APIErrorResponse::from_storage(err)),
        }
    }

    /// What adding an account under a given hash does. The payload's
    /// password becomes the hash. The account is added with the payload's
    /// email and username and the hash, and the answer is `CREATED`; a
    /// failure of the directory is a 500 and adds nothing. Success is owed
    /// by a reliable directory that has room, where the email and the
    /// username are free.
    pub open spec fn hashed_user_added(
        &self,
        after: &Self,
        user: &UserPayload,
        user_after: &UserPayload,
        hash: Seq<char>,
        r: APIResult<u16>,
    ) -> bool {
        let is_taken = taken(self.users(), user.email@, user.username@);
        &&& after.valid()
        &&& after.tokens() == self.tokens()
        &&& after.authenticator == self.authenticator
        &&& after.user_repository.reliable() == self.user_repository.reliable()
        &&& user_after.email == user.email
        &&& user_after.username == user.username
        &&& user_after.password@ == hash
        &&& r matches Ok(status) ==> {
            &&& status == CREATED
            &&& !is_taken
            &&& registered(self.users(), after.users(), user.email@, user.username@, hash)
        }
        &&& r matches Err(e) ==> e@.status == INTERNAL_SERVER_ERROR && after.users()
            == self.users()
        &&& (self.user_repository.reliable() && !is_taken && self.users().len() < i32::MAX)
            ==> r is Ok
    }

    /// Adds the account of a payload under the hash of its password: puts
    /// the hash in the payload's place for the password, and hands the
    /// payload to the directory.
    pub fn add_hashed_user(&mut self, user: &mut UserPayload, hash: String) -> (r: APIResult<u16>)
        requires
            old(self).valid(),
        ensures
            old(self).hashed_user_added(final(self), old(user), final(user), hash@, r),
    {
        user.password = hash;
        match self.user_repository.add_user(user) {
            Ok(()) => Ok(CREATED),
            Err(err) => Err(APIErrorResponse::from_storage(err)),
        }
    }

    /// What a registration does.
    ///
    /// A taken email or username is answered with the 409 of conflicts and
    /// changes nothing. Otherwise the password is replaced by a hash of the
    /// primitive's shape that the password is accepted against, and the
    /// account is added with that hash; the answer is `CREATED`. A failure
    /// of the directory or of the hashing is a 500 and adds nothing. With a
    /// reliable directory that has room and a free email and username, the
    /// registration succeeds unless the hashing fails.
    pub open spec fn registration(
        &self,
        after: &Self,
        user: &UserPayload,
        user_after: &UserPayload,
        r: APIResult<u16>,
    ) -> bool {
        let is_taken = taken(self.users(), user.email@, user.username@);
        &&& after.valid()
        &&& after.tokens() == self.tokens()
        &&& after.authenticator == self.authenticator
        &&& user_after.email == user.email
        &&& user_after.username == user.username
        &&& r matches Ok(status) ==> {
            &&& status == CREATED
            &&& !is_taken
            &&& password_accepted(user.password@, user_after.password@)
            &&& hash_shaped(user_after.password@)
            &&& registered(
                self.users(),
                after.users(),
                user.email@,
                user.username@,
                user_after.password@,
            )
        }
        &&& r matches Err(e) ==> {
            &&& after.users() == self.users()
            &&& e@.status == CONFLICT || e@.status == INTERNAL_SERVER_ERROR
            &&& e@.status == CONFLICT ==> is_taken && e@ == conflict_view() && user_after.password
                == user.password
        }
        &&& is_taken && self.user_repository.reliable() ==> fails_with(r, conflict_view())
        &&& (!is_taken && self.user_repository.reliable() && self.users().len() < i32::MAX)
            ==> r is Ok || (fails_with(r, hashing_failed_view()) && user_after.password
            == user.password)
    }

    /// Registers an account: checks that the email and the username are
    /// free, hashes the password and goes on as [`Self::add_hashed_user`]
    /// does. On success `user.password` holds the hash that was stored.
    pub fn register(&mut self, user: &mut UserPayload) -> (r: APIResult<u16>)
        requires
            old(self).valid(),
        ensures
            old(self).registration(final(self), old(user), final(user), r),
    {
        let free = match self.user_repository.check_user_email_username(
            user.email.as_str(),
            user.username.as_str(),
        ) {
            Ok(free) => free,
            Err(err) => {
                return Err(APIErrorResponse::from_storage(err));
            },
        };
        if !free {
            return Err(APIErrorResponse::conflict());
        }
        let hash = match hash_password(user.password.as_str()) {
            Ok(hash) => hash,
            Err(_) => {
                return Err(
                    APIErrorResponse::new(INTERNAL_SERVER_ERROR, "Hashing failed".to_owned()),
                );
            },
        };
        self.add_hashed_user(user, hash)
    }

    /// Issues a token pair to `user_id` now, under a fresh random
    /// identifier: [`Self::create_token_group_at`] for whatever the clock
    /// and the generator gave.
    pub fn create_token_group(&mut self, user_id: i32) -> (r: APIResult<TokenGroup>)
        requires
            old(self).valid(),
        ensures
            exists|now: i64, refresh_id: u128| #[trigger]
                old(self).issued(final(self), user_id, now, refresh_id, r),
    {
        let now = unix_now();
        let refresh_id = uuid_fresh();
        self.create_token_group_at(user_id, now, refresh_id)
    }

    /// Logs a user in now, under a fresh random identifier:
    /// [`Self::login_at`] for whatever the clock and the generator gave.
    /// Whatever they gave, a failed login leaves the store as it was, and
    /// after a login that succeeded none of the user's earlier refresh
    /// tokens can be redeemed.
    pub fn login(&mut self, user: &UserPayload) -> (r: APIResult<TokenGroup>)
        requires
            old(self).valid(),
        ensures
            exists|now: i64, refresh_id: u128| #[trigger]
                old(self).logged_in(final(self), user, now, refresh_id, r),
            r is Err ==> final(self).tokens() == old(self).tokens(),
            r is Ok ==> forall|earlier: u128| #[trigger]
                held_by_account(old(self).tokens(), old(self).users(), user.email@, earlier)
                    ==> !redeemable(final(self).tokens(), earlier),
    {
        let now = unix_now();
        let refresh_id = uuid_fresh();
        self.login_at(user, now, refresh_id)
    }

    /// Redeems a refresh token now, for a pair under a fresh random
    /// identifier: [`Self::refresh_at`] for whatever the clock and the
    /// generator gave. Whatever they gave, a failed refresh leaves the
    /// store as it was, and after a refresh that succeeded the presented
    /// token can no longer be redeemed.
    pub fn refresh(&mut self, claims: &RefreshClaims) -> (r: APIResult<TokenGroup>)
        requires
            old(self).valid(),
        ensures
            exists|now: i64, new_id: u128| #[trigger]
                old(self).refreshed(final(self), claims, now, new_id, r),
            r is Err ==> final(self).tokens() == old(self).tokens(),
            r is Ok ==> !redeemable(final(self).tokens(), claims.jti),
            !redeemable(old(self).tokens(), claims.jti) ==> r is Err,
            !redeemable(old(self).tokens(), claims.jti) && old(self).token_repository.reliable()
                ==> fails_with(r, unauthorized_view()),
    {
        let now = unix_now();
        let new_id = uuid_fresh();
        self.refresh_at(claims, now, new_id)
    }

    /// A refresh token is single-use: once a refresh with a token has
    /// succeeded, the token is off the record, and a second refresh with
    /// the same token fails and changes nothing, whatever time it is and
    /// whatever identifiers were drawn. A reliable store answers the second
    /// refresh with the uniform 401.
    pub proof fn lemma_refresh_is_single_use(
        &self,
        first: &Self,
        second: &Self,
        claims: &RefreshClaims,
        now1: i64,
        id1: u128,
        r1: APIResult<TokenGroup>,
        now2: i64,
        id2: u128,
        r2: APIResult<TokenGroup>,
    )
        requires
            self.refreshed(first, claims, now1, id1, r1),
            first.refreshed(second, claims, now2, id2, r2),
            r1 is Ok,
        ensures
            !redeemable(first.tokens(), claims.jti),
            r2 is Err,
            second.tokens() == first.tokens(),
            self.token_repository.reliable() ==> fails_with(r2, unauthorized_view()),
    {
    }

    /// A login purges: after a login has succeeded, no refresh token that
    /// the store held for that user before can be redeemed, and the tokens
    /// of other users are as they were.
    pub proof fn lemma_login_purges_earlier_tokens(
        &self,
        after: &Self,
        user: &UserPayload,
        now: i64,
        refresh_id: u128,
        r: APIResult<TokenGroup>,
        earlier: u128,
    )
        requires
            self.logged_in(after, user, now, refresh_id, r),
            r is Ok,
            self.tokens().contains_key(earlier),
        ensures
            account(self.users(), user.email@) matches Some(u) && (if self.tokens()[earlier].1
                == u.id {
                !redeemable(after.tokens(), earlier)
            } else {
                redeemable(after.tokens(), earlier) && after.tokens()[earlier]
                    == self.tokens()[earlier]
            }),
    {
    }

    /// A login with an unknown email and a login with a wrong password are
    /// answered alike: by the same status and the same message.
    pub proof fn lemma_denied_logins_are_alike(
        &self,
        after_unknown: &Self,
        unknown: &UserPayload,
        now1: i64,
        id1: u128,
        r1: APIResult<TokenGroup>,
        after_wrong: &Self,
        wrong: &UserPayload,
        now2: i64,
        id2: u128,
        r2: APIResult<TokenGroup>,
    )
        requires
            self.user_repository.reliable(),
            self.logged_in(after_unknown, unknown, now1, id1, r1),
            self.logged_in(after_wrong, wrong, now2, id2, r2),
            account(self.users(), unknown.email@) is None,
            account(self.users(), wrong.email@) matches Some(u) && !password_accepted(
                wrong.password@,
                u.password,
            ),
        ensures
            r1 matches Err(e1) && r2 matches Err(e2) && e1@ == e2@ && e1@ == invalid_login_view(),
            after_unknown.tokens() == self.tokens(),
            after_wrong.tokens() == self.tokens(),
    {
    }
}

} // verus!
