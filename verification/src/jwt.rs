//! The plain claim sets: a subject and an expiry, and for refresh tokens
//! the token's identifier. Subjects and identifiers are UUIDs, held as their
//! 128-bit values.

use crate::auth::{
    jwt_open, jwt_opened, jwt_signed, reads_back, sign_object, signing_outcome,
    token_result_view, unexpired, uuid_format, uuid_parse, uuid_parsed, uuid_text, Claims,
};
use crate::clock::unix_now;
use crate::error::AuthError;
use crate::json::{
    field_int, field_text, int_field, json_fields, json_get_i64, json_get_text, json_new,
    json_put_i64, json_put_text, no_fields, scalar_only, text_field, JsonFields,
};
use vstd::prelude::*;

verus! {

/// The claims of a refresh token: its identifier, the user and the expiry.
#[derive(Debug, Clone, Copy, PartialEq, Eq)]
pub struct RefreshTokenClaims {
    pub id: u128,
    pub sub: u128,
    pub exp: i64,
}

/// The claims of an access token: the user and the expiry.
#[derive(Debug, Clone, Copy, PartialEq, Eq)]
pub struct AccessTokenClaims {
    pub sub: u128,
    pub exp: i64,
}

/// The JSON object of a plain access claim set.
pub open spec fn plain_access_fields(c: AccessTokenClaims) -> JsonFields {
    no_fields().insert("sub"@, text_field(uuid_text(c.sub))).insert("exp"@, int_field(c.exp as int))
}

/// The plain access claim set that a JSON object spells: it needs a string
/// `sub` that spells a UUID and an integer `exp` in `i64`.
pub open spec fn plain_access_of(f: JsonFields) -> Option<AccessTokenClaims> {
    match (field_text(f, "sub"@), field_int(f, "exp"@)) {
        (Some(text), Some(exp)) => match uuid_parsed(text) {
            Some(sub) => if i64::MIN <= exp <= i64::MAX {
                Some(AccessTokenClaims { sub, exp: exp as i64 })
            } else {
                None
            },
            None => None,
        },
        _ => None,
    }
}

/// The JSON object of a plain refresh claim set.
pub open spec fn plain_refresh_fields(c: RefreshTokenClaims) -> JsonFields {
    no_fields().insert("id"@, text_field(uuid_text(c.id))).insert(
        "sub"@,
        text_field(uuid_text(c.sub)),
    ).insert("exp"@, int_field(c.exp as int))
}

/// The plain refresh claim set that a JSON object spells: it needs what a
/// plain access claim set needs and a string `id` that spells a UUID.
pub open spec fn plain_refresh_of(f: JsonFields) -> Option<RefreshTokenClaims> {
    match (field_text(f, "id"@), plain_access_of(f)) {
        (Some(text), Some(c)) => match uuid_parsed(text) {
            Some(id) => Some(RefreshTokenClaims { id, sub: c.sub, exp: c.exp }),
            None => None,
        },
        _ => None,
    }
}

/// What reading a plain access token yields at `now`, given what the codec
/// opened.
pub open spec fn plain_access_outcome(opened: Option<JsonFields>, now: int) -> Result<
    AccessTokenClaims,
    AuthError,
> {
    match opened {
        Some(f) => match plain_access_of(f) {
            Some(c) => if unexpired(c.exp as int, now) {
                Ok(c)
            } else {
                Err(AuthError::InvalidToken)
            },
            None => Err(AuthError::InvalidToken),
        },
        None => Err(AuthError::InvalidToken),
    }
}

/// What reading a plain refresh token yields at `now`, given what the codec
/// opened.
pub open spec fn plain_refresh_outcome(opened: Option<JsonFields>, now: int) -> Result<
    RefreshTokenClaims,
    AuthError,
> {
    match opened {
        Some(f) => match plain_refresh_of(f) {
            Some(c) => if unexpired(c.exp as int, now) {
                Ok(c)
            } else {
                Err(AuthError::InvalidToken)
            },
            None => Err(AuthError::InvalidToken),
        },
        None => Err(AuthError::InvalidToken),
    }
}

/// What reading plain access claims yields at `now`: the claims before
/// their expiry, `InvalidToken` from then on.
pub open spec fn plain_access_reading(c: AccessTokenClaims, now: int) -> Result<
    AccessTokenClaims,
    AuthError,
> {
    if unexpired(c.exp as int, now) {
        Ok(c)
    } else {
        Err(AuthError::InvalidToken)
    }
}

/// What reading plain refresh claims yields at `now`: the claims before
/// their expiry, `InvalidToken` from then on.
pub open spec fn plain_refresh_reading(c: RefreshTokenClaims, now: int) -> Result<
    RefreshTokenClaims,
    AuthError,
> {
    if unexpired(c.exp as int, now) {
        Ok(c)
    } else {
        Err(AuthError::InvalidToken)
    }
}

/// A signing result whose token, if there is one, reads back under the
/// secret as the plain access claims `c` at every time.
pub open spec fn reads_as_plain_access(
    r: Result<String, AuthError>,
    secret: Seq<char>,
    c: AccessTokenClaims,
) -> bool {
    match r {
        Ok(t) => forall|now: int| #[trigger]
            plain_access_outcome(jwt_opened(t@, secret), now) == plain_access_reading(c, now),
        Err(_) => true,
    }
}

/// A signing result whose token, if there is one, reads back under the
/// secret as the plain refresh claims `c` at every time.
pub open spec fn reads_as_plain_refresh(
    r: Result<String, AuthError>,
    secret: Seq<char>,
    c: RefreshTokenClaims,
) -> bool {
    match r {
        Ok(t) => forall|now: int| #[trigger]
            plain_refresh_outcome(jwt_opened(t@, secret), now) == plain_refresh_reading(c, now),
        Err(_) => true,
    }
}

proof fn lemma_plain_keys_differ()
    ensures
        "sub"@ != "exp"@,
        "sub"@ != "id"@,
        "exp"@ != "id"@,
        "aud"@ != "sub"@,
        "aud"@ != "exp"@,
        "aud"@ != "id"@,
{
    reveal_strlit("aud");
    assert("aud"@[0] == 'a');
    reveal_strlit("sub");
    reveal_strlit("exp");
    reveal_strlit("id");
    assert("sub"@[0] == 's' && "exp"@[0] == 'e' && "id"@[0] == 'i');
}

/// Plain claims survive the trip through their JSON objects, given that the
/// texts of their UUIDs read back as those UUIDs.
pub proof fn lemma_plain_fields_round_trip(c: RefreshTokenClaims)
    requires
        uuid_parsed(uuid_text(c.id)) == Some(c.id),
        uuid_parsed(uuid_text(c.sub)) == Some(c.sub),
    ensures
        plain_refresh_of(plain_refresh_fields(c)) == Some(c),
        plain_access_of(plain_access_fields(AccessTokenClaims { sub: c.sub, exp: c.exp })) == Some(
            AccessTokenClaims { sub: c.sub, exp: c.exp },
        ),
        scalar_only(plain_refresh_fields(c)),
        scalar_only(plain_access_fields(AccessTokenClaims { sub: c.sub, exp: c.exp })),
        c.exp >= 0 ==> reads_back(plain_refresh_fields(c)),
        c.exp >= 0 ==> reads_back(
            plain_access_fields(AccessTokenClaims { sub: c.sub, exp: c.exp }),
        ),
{
    lemma_plain_keys_differ();
}

/// A plain token whose expiry is not after `now` is refused, whatever else
/// it holds and however well it is signed.
pub proof fn lemma_expired_plain_token_is_refused(opened: Option<JsonFields>, now: int)
    requires
        opened matches Some(f) ==> (plain_access_of(f) matches Some(c) ==> c.exp <= now),
    ensures
        plain_access_outcome(opened, now) == Err::<AccessTokenClaims, AuthError>(
            AuthError::InvalidToken,
        ),
        plain_refresh_outcome(opened, now) == Err::<RefreshTokenClaims, AuthError>(
            AuthError::InvalidToken,
        ),
{
}

proof fn lemma_plain_fields_round_trip_of(c: AccessTokenClaims, f: JsonFields)
    requires
        f == plain_access_fields(c),
        plain_access_of(f) == Some(c),
    ensures
        c.exp >= 0 ==> reads_back(f),
{
    lemma_plain_keys_differ();
}

proof fn lemma_plain_refresh_reads_back(c: RefreshTokenClaims, f: JsonFields)
    requires
        f == plain_refresh_fields(c),
        plain_refresh_of(f) == Some(c),
    ensures
        c.exp >= 0 ==> reads_back(f),
{
    lemma_plain_keys_differ();
}

impl Claims for AccessTokenClaims {
    open spec fn fields(&self) -> JsonFields {
        plain_access_fields(*self)
    }

    fn claim_object(&self) -> (m: serde_json::Map<String, serde_json::Value>)
        ensures
            plain_access_of(json_fields(m)) == Some(*self),
    {
        let sub = uuid_format(self.sub);
        let mut m = json_new();
        json_put_text(&mut m, "sub", sub.as_str());
        json_put_i64(&mut m, "exp", self.exp);
        proof {
            lemma_plain_fields_round_trip(RefreshTokenClaims { id: self.sub, sub: self.sub, exp: self.exp });
        }
        m
    }
}

impl Claims for RefreshTokenClaims {
    open spec fn fields(&self) -> JsonFields {
        plain_refresh_fields(*self)
    }

    fn claim_object(&self) -> (m: serde_json::Map<String, serde_json::Value>)
        ensures
            plain_refresh_of(json_fields(m)) == Some(*self),
    {
        let id = uuid_format(self.id);
        let sub = uuid_format(self.sub);
        let mut m = json_new();
        json_put_text(&mut m, "id", id.as_str());
        json_put_text(&mut m, "sub", sub.as_str());
        json_put_i64(&mut m, "exp", self.exp);
        proof {
            lemma_plain_fields_round_trip(*self);
        }
        m
    }
}

impl AccessTokenClaims {
    /// A claim set of the given values.
    pub fn new(sub: u128, exp: i64) -> (r: Self)
        ensures
            r == (AccessTokenClaims { sub, exp }),
    {
        Self { sub, exp }
    }

    /// The claim set that a JSON object spells, or `None` where a field is
    /// missing, of the wrong kind or out of range, or `sub` spells no UUID.
    pub fn from_json(m: &serde_json::Map<String, serde_json::Value>) -> (r: Option<Self>)
        ensures
            r == plain_access_of(json_fields(*m)),
    {
        let text = json_get_text(m, "sub");
        let exp = json_get_i64(m, "exp");
        match (text, exp) {
            (Some(text), Some(exp)) => match uuid_parse(text.as_str()) {
                Some(sub) => Some(Self { sub, exp }),
                None => None,
            },
            _ => None,
        }
    }

    /// Reads the claims out of an object that the codec opened, at time
    /// `now`: the claim set that the object spells, if it spells one whose
    /// expiry is after `now`; `InvalidToken` otherwise.
    pub fn from_opened(m: &serde_json::Map<String, serde_json::Value>, now: i64) -> (r: Result<
        Self,
        AuthError,
    >)
        ensures
            r == plain_access_outcome(Some(json_fields(*m)), now as int),
    {
        match Self::from_json(m) {
            Some(claims) => if now < claims.exp {
                Ok(claims)
            } else {
                Err(AuthError::InvalidToken)
            },
            None => Err(AuthError::InvalidToken),
        }
    }

    /// Reads an access token at time `now`: the claims of a token that the
    /// codec opens under the secret, that spells a claim set and whose
    /// expiry is after `now`; `InvalidToken` for every other token.
    pub fn decode_at(token: &str, secret: &str, now: i64) -> (r: Result<Self, AuthError>)
        ensures
            r == plain_access_outcome(jwt_opened(token@, secret@), now as int),
    {
        match jwt_open(token, secret) {
            Ok(m) => Self::from_opened(&m, now),
            Err(_) => Err(AuthError::InvalidToken),
        }
    }

    /// Reads an access token now: the outcome of [`Self::decode_at`] for
    /// whatever the clock reads.
    pub fn decode(token: &str, secret: &str) -> (r: Result<Self, AuthError>)
        ensures
            exists|now: i64|
                r == #[trigger] plain_access_outcome(jwt_opened(token@, secret@), now as int),
    {
        let now = unix_now();
        let r = Self::decode_at(token, secret, now);
        assert(r == plain_access_outcome(jwt_opened(token@, secret@), now as int));
        r
    }

    /// Signs the claim set under `secret`. Where the expiry is not before
    /// the epoch, the token read back under the same secret yields the very
    /// claims that were signed, for as long as they have not expired, and
    /// `InvalidToken` from then on.
    pub fn encode(&self, secret: &str) -> (r: Result<String, AuthError>)
        ensures
            token_result_view(r) == signing_outcome(jwt_signed(plain_access_fields(*self), secret@)),
            self.exp >= 0 ==> reads_as_plain_access(r, secret@, *self),
    {
        let m = self.claim_object();
        proof {
            lemma_plain_fields_round_trip_of(*self, json_fields(m));
        }
        sign_object(&m, secret)
    }
}

impl RefreshTokenClaims {
    /// A claim set of the given values.
    pub fn new(id: u128, sub: u128, exp: i64) -> (r: Self)
        ensures
            r == (RefreshTokenClaims { id, sub, exp }),
    {
        Self { id, sub, exp }
    }

    /// The claim set that a JSON object spells, or `None` where a field is
    /// missing, of the wrong kind or out of range, or spells no UUID.
    pub fn from_json(m: &serde_json::Map<String, serde_json::Value>) -> (r: Option<Self>)
        ensures
            r == plain_refresh_of(json_fields(*m)),
    {
        let text = json_get_text(m, "id");
        let rest = AccessTokenClaims::from_json(m);
        match (text, rest) {
            (Some(text), Some(rest)) => match uuid_parse(text.as_str()) {
                Some(id) => Some(Self { id, sub: rest.sub, exp: rest.exp }),
                None => None,
            },
            _ => None,
        }
    }

    /// Reads the claims out of an object that the codec opened, at time
    /// `now`: the claim set that the object spells, if it spells one whose
    /// expiry is after `now`; `InvalidToken` otherwise.
    pub fn from_opened(m: &serde_json::Map<String, serde_json::Value>, now: i64) -> (r: Result<
        Self,
        AuthError,
    >)
        ensures
            r == plain_refresh_outcome(Some(json_fields(*m)), now as int),
    {
        match Self::from_json(m) {
            Some(claims) => if now < claims.exp {
                Ok(claims)
            } else {
                Err(AuthError::InvalidToken)
            },
            None => Err(AuthError::InvalidToken),
        }
    }

    /// Reads a refresh token at time `now`: the claims of a token that the
    /// codec opens under the secret, that spells a claim set and whose
    /// expiry is after `now`; `InvalidToken` for every other token.
    pub fn decode_at(token: &str, secret: &str, now: i64) -> (r: Result<Self, AuthError>)
        ensures
            r == plain_refresh_outcome(jwt_opened(token@, secret@), now as int),
    {
        match jwt_open(token, secret) {
            Ok(m) => Self::from_opened(&m, now),
            Err(_) => Err(AuthError::InvalidToken),
        }
    }

    /// Reads a refresh token now: the outcome of [`Self::decode_at`] for
    /// whatever the clock reads.
    pub fn decode(token: &str, secret: &str) -> (r: Result<Self, AuthError>)
        ensures
            exists|now: i64|
                r == #[trigger] plain_refresh_outcome(jwt_opened(token@, secret@), now as int),
    {
        let now = unix_now();
        let r = Self::decode_at(token, secret, now);
        assert(r == plain_refresh_outcome(jwt_opened(token@, secret@), now as int));
        r
    }

    /// Signs the claim set under `secret`. Where the expiry is not before
    /// the epoch, the token read back under the same secret yields the very
    /// claims that were signed, for as long as they have not expired, and
    /// `InvalidToken` from then on.
    pub fn encode(&self, secret: &str) -> (r: Result<String, AuthError>)
        ensures
            token_result_view(r) == signing_outcome(
                jwt_signed(plain_refresh_fields(*self), secret@),
            ),
            self.exp >= 0 ==> reads_as_plain_refresh(r, secret@, *self),
    {
        let m = self.claim_object();
        proof {
            lemma_plain_refresh_reads_back(*self, json_fields(m));
        }
        sign_object(&m, secret)
    }
}

} // verus!
