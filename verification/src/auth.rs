//! The token codec: access and refresh claims, and the authenticator that
//! signs them into tokens and reads tokens back.
//!
//! Signing and signature checking are `jsonwebtoken`'s. What a claim set
//! looks like as a JSON object, which fields a token must carry and when a
//! token has expired are decided here.

use crate::clock::unix_now;
use crate::error::AuthError;
use crate::json::{
    field_int, field_text, int_as_u64, int_field, json_fields, json_get_i64, json_get_text,
    json_get_u64, json_new, json_put_i64, json_put_text, json_put_u64, no_fields, scalar_only,
    text_field, JsonFields,
};
use vstd::prelude::*;

verus! {

/// `jsonwebtoken::errors::Error`, carried from the codec to the place where
/// it becomes an [`AuthError`]. Nothing is read from it.
#[verifier::external_type_specification]
#[verifier::external_body]
pub struct ExJwtError(jsonwebtoken::errors::Error);

/// The token that `jsonwebtoken::encode` makes of a claim object under a
/// secret, with the default header; `None` where it fails.
pub uninterp spec fn jwt_signed(
    claims: Map<Seq<char>, (Option<int>, Option<Seq<char>>)>,
    secret: Seq<char>,
) -> Option<Seq<char>>;

/// The claim object that `jsonwebtoken::decode` reads from a token under a
/// secret, with the default validation but for the expiry check; `None`
/// where it refuses the token.
pub uninterp spec fn jwt_opened(token: Seq<char>, secret: Seq<char>) -> Option<
    Map<Seq<char>, (Option<int>, Option<Seq<char>>)>,
>;

/// The hyphenated lower-case text of a UUID, given as its 128-bit value.
pub uninterp spec fn uuid_text(id: u128) -> Seq<char>;

/// The 128-bit value of the UUID that `uuid::Uuid::parse_str` reads from a
/// text; `None` where it reads none.
pub uninterp spec fn uuid_parsed(text: Seq<char>) -> Option<u128>;

/// An object that the codec reads back from the token it made of it: it
/// carries an `exp` that is an integer of `u64`, and no `aud`.
pub open spec fn reads_back(f: JsonFields) -> bool {
    int_as_u64(field_int(f, "exp"@)) is Some && !f.contains_key("aud"@)
}

/// `jsonwebtoken::encode` with `Header::default()` and an HMAC key made of
/// `secret`: the signed token of the claim object, or the crate's error.
/// The result is taken to depend on the object's fields and the secret
/// alone. That holds of objects whose fields are all integers or strings,
/// as long as the process signs with the provider that the crate was built
/// with: `serde_json`'s map is the sorted one in this build, so the order
/// in which the fields were put has no part in the text that is signed.
///
/// A token that comes back is one that `jsonwebtoken::decode`, called as
/// [`jwt_open`] calls it, opens under the same secret to the same object,
/// where the object carries an `exp` that is an integer of `u64` and no
/// `aud`. For `decode` computes the signature anew over the text that was
/// signed, with the same key, reads the object from the JSON that `encode`
/// wrote, and with the expiry check off asks of the claims only that `exp`
/// be such a number and that no audience be named.
#[verifier::external_body]
pub(crate) fn jwt_sign(claims: &serde_json::Map<String, serde_json::Value>, secret: &str) -> (r:
    Result<String, jsonwebtoken::errors::Error>)
    requires
        scalar_only(json_fields(*claims)),
    ensures
        r matches Ok(t) ==> jwt_signed(json_fields(*claims), secret@) == Some(t@),
        r is Err ==> jwt_signed(json_fields(*claims), secret@) is None,
        r matches Ok(t) ==> reads_back(json_fields(*claims)) ==> jwt_opened(t@, secret@) == Some(
            json_fields(*claims),
        ),
{
    let key = jsonwebtoken::EncodingKey::from_secret(secret.as_bytes());
    jsonwebtoken::encode(&jsonwebtoken::Header::default(), claims, &key)
}

/// `jsonwebtoken::decode` with an HMAC key made of `secret` and
/// `Validation::default()` with its expiry check switched off, so that the
/// clock has no part in the result: the claim object of a token whose
/// signature holds and which carries an `exp`, or the crate's error.
#[verifier::external_body]
pub(crate) fn jwt_open(token: &str, secret: &str) -> (r: Result<
    serde_json::Map<String, serde_json::Value>,
    jsonwebtoken::errors::Error,
>)
    ensures
        r matches Ok(m) ==> jwt_opened(token@, secret@) == Some(json_fields(m)),
        r is Err ==> jwt_opened(token@, secret@) is None,
{
    let key = jsonwebtoken::DecodingKey::from_secret(secret.as_bytes());
    let mut validation = jsonwebtoken::Validation::default();
    validation.validate_exp = false;
    let opened = jsonwebtoken::decode::<serde_json::Map<String, serde_json::Value>>(
        token,
        &key,
        &validation,
    );
    opened.map(|data| data.claims)
}

/// `uuid::Uuid::new_v4`: a random UUID, as its 128-bit value. Nothing is
/// claimed of the value.
#[verifier::external_body]
pub(crate) fn uuid_fresh() -> u128 {
    uuid::Uuid::new_v4().as_u128()
}

/// `uuid::Uuid::from_u128` and the `Display` of its hyphenated form: the
/// text of the UUID, which `parse_str` reads back as the same UUID.
#[verifier::external_body]
pub(crate) fn uuid_format(id: u128) -> (r: String)
    ensures
        r@ == uuid_text(id),
        uuid_parsed(r@) == Some(id),
{
    uuid::Uuid::from_u128(id).hyphenated().to_string()
}

/// `uuid::Uuid::parse_str` and `Uuid::as_u128`: the UUID that the text
/// spells, or `None` where it spells none.
#[verifier::external_body]
pub(crate) fn uuid_parse(text: &str) -> (r: Option<u128>)
    ensures
        r == uuid_parsed(text@),
{
    uuid::Uuid::parse_str(text).ok().map(|id| id.as_u128())
}

/// A claim set that the codec can sign: it says which JSON object stands
/// for it.
pub trait Claims {
    /// The fields of the claim set's JSON object.
    spec fn fields(&self) -> JsonFields;

    /// The claim set's JSON object: integers and strings only.
    fn claim_object(&self) -> (m: serde_json::Map<String, serde_json::Value>)
        ensures
            json_fields(m) == self.fields(),
            scalar_only(json_fields(m)),
    ;
}

/// Signs a claim set under `secret`. The token is the codec's for the claim
/// set's JSON object; where the codec fails, `Signing`. The codec opens the
/// token under the same secret to the same object, where the object
/// carries a proper `exp` and no `aud`.
pub fn encode<T: Claims>(claims: &T, secret: &str) -> (r: Result<String, AuthError>)
    ensures
        token_result_view(r) == signing_outcome(jwt_signed(claims.fields(), secret@)),
        r matches Ok(t) ==> reads_back(claims.fields()) ==> jwt_opened(t@, secret@) == Some(
            claims.fields(),
        ),
{
    let m = claims.claim_object();
    sign_object(&m, secret)
}

/// Signs a claim object under `secret`: the codec's token, or `Signing`
/// where the codec fails.
pub(crate) fn sign_object(m: &serde_json::Map<String, serde_json::Value>, secret: &str) -> (r: Result<
    String,
    AuthError,
>)
    requires
        scalar_only(json_fields(*m)),
    ensures
        token_result_view(r) == signing_outcome(jwt_signed(json_fields(*m), secret@)),
        r matches Ok(t) ==> reads_back(json_fields(*m)) ==> jwt_opened(t@, secret@) == Some(
            json_fields(*m),
        ),
{
    match jwt_sign(m, secret) {
        Ok(token) => Ok(token),
        Err(_) => Err(AuthError::Signing),
    }
}

/// The claims of an access token: who it speaks for, until when it is valid,
/// when it was issued and by whom.
#[derive(Debug, Clone)]
pub struct AccessClaims {
    pub sub: i32,
    pub exp: usize,
    pub iat: usize,
    pub iss: String,
}

/// Access claims as plain values.
pub struct AccessClaimsView {
    pub sub: int,
    pub exp: int,
    pub iat: int,
    pub iss: Seq<char>,
}

impl View for AccessClaims {
    type V = AccessClaimsView;

    open spec fn view(&self) -> AccessClaimsView {
        AccessClaimsView {
            sub: self.sub as int,
            exp: self.exp as int,
            iat: self.iat as int,
            iss: self.iss@,
        }
    }
}

/// The claims of a refresh token: those of an access token and the token's
/// own identifier, by which the server can revoke it.
#[derive(Debug, Clone)]
pub struct RefreshClaims {
    pub jti: u128,
    pub sub: i32,
    pub exp: usize,
    pub iat: usize,
    pub iss: String,
}

/// Refresh claims as plain values.
pub struct RefreshClaimsView {
    pub jti: u128,
    pub sub: int,
    pub exp: int,
    pub iat: int,
    pub iss: Seq<char>,
}

impl View for RefreshClaims {
    type V = RefreshClaimsView;

    open spec fn view(&self) -> RefreshClaimsView {
        RefreshClaimsView {
            jti: self.jti,
            sub: self.sub as int,
            exp: self.exp as int,
            iat: self.iat as int,
            iss: self.iss@,
        }
    }
}

/// The issuer tag of every token that the authenticator mints.
pub open spec fn issuer() -> Seq<char> {
    "task.app.rust"@
}

/// The values that a claim set can hold: a subject in `i32`, times in
/// `usize`.
pub open spec fn claim_ranges(sub: int, exp: int, iat: int) -> bool {
    &&& i32::MIN <= sub <= i32::MAX
    &&& 0 <= exp <= usize::MAX
    &&& 0 <= iat <= usize::MAX
}

/// The JSON object of an access claim set.
pub open spec fn access_fields(c: AccessClaimsView) -> JsonFields {
    no_fields().insert("sub"@, int_field(c.sub)).insert("exp"@, int_field(c.exp)).insert(
        "iat"@,
        int_field(c.iat),
    ).insert("iss"@, text_field(c.iss))
}

/// The access claim set that a JSON object spells: it needs an integer
/// `sub`, `exp` and `iat` within their types' ranges and a string `iss`;
/// other fields are ignored.
pub open spec fn access_claims_of(f: JsonFields) -> Option<AccessClaimsView> {
    match (field_int(f, "sub"@), field_int(f, "exp"@), field_int(f, "iat"@), field_text(f, "iss"@)) {
        (Some(sub), Some(exp), Some(iat), Some(iss)) => if claim_ranges(sub, exp, iat) {
            Some(AccessClaimsView { sub, exp, iat, iss })
        } else {
            None
        },
        _ => None,
    }
}

/// The JSON object of a refresh claim set.
pub open spec fn refresh_fields(c: RefreshClaimsView) -> JsonFields {
    no_fields().insert("jti"@, text_field(uuid_text(c.jti))).insert("sub"@, int_field(c.sub)).insert(
        "exp"@,
        int_field(c.exp),
    ).insert("iat"@, int_field(c.iat)).insert("iss"@, text_field(c.iss))
}

/// The refresh claim set that a JSON object spells: it needs what an access
/// claim set needs and a string `jti` that spells a UUID.
pub open spec fn refresh_claims_of(f: JsonFields) -> Option<RefreshClaimsView> {
    match (field_text(f, "jti"@), access_claims_of(f)) {
        (Some(text), Some(c)) => match uuid_parsed(text) {
            Some(jti) => Some(RefreshClaimsView { jti, sub: c.sub, exp: c.exp, iat: c.iat, iss: c.iss }),
            None => None,
        },
        _ => None,
    }
}

/// A token is valid at `now` while `now` is before its expiry.
pub open spec fn unexpired(exp: int, now: int) -> bool {
    now < exp
}

/// What reading an access token yields at time `now`, given what the codec
/// opened.
pub open spec fn access_outcome(opened: Option<JsonFields>, now: int) -> Result<
    AccessClaimsView,
    AuthError,
> {
    match opened {
        Some(f) => match access_claims_of(f) {
            Some(c) => if unexpired(c.exp, now) {
                Ok(c)
            } else {
                Err(AuthError::InvalidToken)
            },
            None => Err(AuthError::InvalidToken),
        },
        None => Err(AuthError::InvalidToken),
    }
}

/// What reading a refresh token yields at time `now`, given what the codec
/// opened.
pub open spec fn refresh_outcome(opened: Option<JsonFields>, now: int) -> Result<
    RefreshClaimsView,
    AuthError,
> {
    match opened {
        Some(f) => match refresh_claims_of(f) {
            Some(c) => if unexpired(c.exp, now) {
                Ok(c)
            } else {
                Err(AuthError::InvalidToken)
            },
            None => Err(AuthError::InvalidToken),
        },
        None => Err(AuthError::InvalidToken),
    }
}

/// What reading access claims yields at `now`: the claims before their
/// expiry, `InvalidToken` from then on.
pub open spec fn access_reading(c: AccessClaimsView, now: int) -> Result<
    AccessClaimsView,
    AuthError,
> {
    if unexpired(c.exp, now) {
        Ok(c)
    } else {
        Err(AuthError::InvalidToken)
    }
}

/// What reading refresh claims yields at `now`: the claims before their
/// expiry, `InvalidToken` from then on.
pub open spec fn refresh_reading(c: RefreshClaimsView, now: int) -> Result<
    RefreshClaimsView,
    AuthError,
> {
    if unexpired(c.exp, now) {
        Ok(c)
    } else {
        Err(AuthError::InvalidToken)
    }
}

/// A signing result whose token, if there is one, reads back under the
/// secret as the access claims `c`: at every time, reading it yields `c`
/// before the expiry of `c` and `InvalidToken` from then on.
pub open spec fn reads_as_access(
    r: Result<String, AuthError>,
    secret: Seq<char>,
    c: AccessClaimsView,
) -> bool {
    match r {
        Ok(t) => forall|now: int| #[trigger]
            access_outcome(jwt_opened(t@, secret), now) == access_reading(c, now),
        Err(_) => true,
    }
}

/// A signing result whose token, if there is one, reads back under the
/// secret as the refresh claims `c`: at every time, reading it yields `c`
/// before the expiry of `c` and `InvalidToken` from then on.
pub open spec fn reads_as_refresh(
    r: Result<String, AuthError>,
    secret: Seq<char>,
    c: RefreshClaimsView,
) -> bool {
    match r {
        Ok(t) => forall|now: int| #[trigger]
            refresh_outcome(jwt_opened(t@, secret), now) == refresh_reading(c, now),
        Err(_) => true,
    }
}

/// What signing yields, given what the codec made of the claims.
pub open spec fn signing_outcome(signed: Option<Seq<char>>) -> Result<Seq<char>, AuthError> {
    match signed {
        Some(token) => Ok(token),
        None => Err(AuthError::Signing),
    }
}

/// The view of a signing result.
pub open spec fn token_result_view(r: Result<String, AuthError>) -> Result<Seq<char>, AuthError> {
    match r {
        Ok(token) => Ok(token@),
        Err(e) => Err(e),
    }
}

/// The view of the result of reading an access token.
pub open spec fn access_result_view(r: Result<AccessClaims, AuthError>) -> Result<
    AccessClaimsView,
    AuthError,
> {
    match r {
        Ok(c) => Ok(c@),
        Err(e) => Err(e),
    }
}

/// The view of the result of reading a refresh token.
pub open spec fn refresh_result_view(r: Result<RefreshClaims, AuthError>) -> Result<
    RefreshClaimsView,
    AuthError,
> {
    match r {
        Ok(c) => Ok(c@),
        Err(e) => Err(e),
    }
}

proof fn lemma_claim_keys_differ()
    ensures
        "sub"@ != "exp"@,
        "sub"@ != "iat"@,
        "sub"@ != "iss"@,
        "sub"@ != "jti"@,
        "exp"@ != "iat"@,
        "exp"@ != "iss"@,
        "exp"@ != "jti"@,
        "iat"@ != "iss"@,
        "iat"@ != "jti"@,
        "iss"@ != "jti"@,
        "aud"@ != "sub"@,
        "aud"@ != "exp"@,
        "aud"@ != "iat"@,
        "aud"@ != "iss"@,
        "aud"@ != "jti"@,
{
    reveal_strlit("aud");
    assert("aud"@[0] == 'a');
    reveal_strlit("sub");
    reveal_strlit("exp");
    reveal_strlit("iat");
    reveal_strlit("iss");
    reveal_strlit("jti");
    assert("sub"@[0] == 's' && "exp"@[0] == 'e' && "jti"@[0] == 'j');
    assert("iat"@[1] == 'a' && "iss"@[1] == 's' && "iat"@[0] == 'i' && "iss"@[0] == 'i');
}

/// Access claims survive the round trip: the object made of a claim set
/// spells that claim set and no other, so a codec that hands back the
/// object it signed hands back the claims, for as long as they have not
/// expired.
pub proof fn lemma_access_fields_round_trip(c: AccessClaimsView)
    requires
        claim_ranges(c.sub, c.exp, c.iat),
    ensures
        access_claims_of(access_fields(c)) == Some(c),
        scalar_only(access_fields(c)),
        reads_back(access_fields(c)),
        forall|now: int|
            now < c.exp ==> #[trigger] access_outcome(Some(access_fields(c)), now) == Ok::<
                AccessClaimsView,
                AuthError,
            >(c),
{
    lemma_claim_keys_differ();
}

/// Refresh claims survive the round trip, given that the text of the
/// token's identifier reads back as that identifier: the object made of a
/// claim set spells that claim set and no other, so a codec that hands back
/// the object it signed hands back the claims, for as long as they have not
/// expired.
pub proof fn lemma_refresh_fields_round_trip(c: RefreshClaimsView)
    requires
        claim_ranges(c.sub, c.exp, c.iat),
        uuid_parsed(uuid_text(c.jti)) == Some(c.jti),
    ensures
        refresh_claims_of(refresh_fields(c)) == Some(c),
        scalar_only(refresh_fields(c)),
        reads_back(refresh_fields(c)),
        forall|now: int|
            now < c.exp ==> #[trigger] refresh_outcome(Some(refresh_fields(c)), now) == Ok::<
                RefreshClaimsView,
                AuthError,
            >(c),
{
    lemma_claim_keys_differ();
}

proof fn lemma_refresh_object_reads_back(c: RefreshClaimsView)
    requires
        claim_ranges(c.sub, c.exp, c.iat),
    ensures
        reads_back(refresh_fields(c)),
{
    lemma_claim_keys_differ();
}

/// A token whose expiry is not after `now` is refused, whatever else it
/// holds and however well it is signed.
pub proof fn lemma_expired_token_is_refused(opened: Option<JsonFields>, now: int)
    requires
        opened matches Some(f) ==> (access_claims_of(f) matches Some(c) ==> c.exp <= now),
    ensures
        access_outcome(opened, now) == Err::<AccessClaimsView, AuthError>(AuthError::InvalidToken),
        refresh_outcome(opened, now) == Err::<RefreshClaimsView, AuthError>(
            AuthError::InvalidToken,
        ),
{
}

impl AccessClaims {
    /// A claim set of the given values.
    pub fn new(sub: i32, exp: usize, iat: usize, iss: String) -> (r: Self)
        ensures
            r.sub == sub,
            r.exp == exp,
            r.iat == iat,
            r.iss == iss,
    {
        Self { sub, exp, iat, iss }
    }

    /// The JSON object that is signed for this claim set.
    pub fn to_json(&self) -> (m: serde_json::Map<String, serde_json::Value>)
        ensures
            json_fields(m) == access_fields(self@),
            access_claims_of(json_fields(m)) == Some(self@),
            scalar_only(json_fields(m)),
    {
        let mut m = json_new();
        json_put_i64(&mut m, "sub", self.sub as i64);
        json_put_u64(&mut m, "exp", self.exp as u64);
        json_put_u64(&mut m, "iat", self.iat as u64);
        json_put_text(&mut m, "iss", self.iss.as_str());
        proof {
            lemma_access_fields_round_trip(self@);
        }
        m
    }

    /// The claim set that a JSON object spells, or `None` where a field is
    /// missing, of the wrong kind or out of range.
    pub fn from_json(m: &serde_json::Map<String, serde_json::Value>) -> (r: Option<Self>)
        ensures
            r matches Some(c) ==> access_claims_of(json_fields(*m)) == Some(c@),
            r is None ==> access_claims_of(json_fields(*m)) is None,
    {
        let sub = json_get_i64(m, "sub");
        let exp = json_get_u64(m, "exp");
        let iat = json_get_u64(m, "iat");
        let iss = json_get_text(m, "iss");
        match (sub, exp, iat, iss) {
            (Some(sub), Some(exp), Some(iat), Some(iss)) => {
                if i32::MIN as i64 <= sub && sub <= i32::MAX as i64 && exp <= usize::MAX as u64
                    && iat <= usize::MAX as u64 {
                    Some(Self { sub: sub as i32, exp: exp as usize, iat: iat as usize, iss })
                } else {
                    None
                }
            },
            _ => None,
        }
    }
}

impl AccessClaims {
    /// Reads the claims out of an object that the codec opened, at time
    /// `now`: the claim set that the object spells, if it spells one whose
    /// expiry is after `now`; `InvalidToken` otherwise.
    pub fn from_opened(m: &serde_json::Map<String, serde_json::Value>, now: i64) -> (r: Result<
        Self,
        AuthError,
    >)
        ensures
            access_result_view(r) == access_outcome(Some(json_fields(*m)), now as int),
    {
        match Self::from_json(m) {
            Some(claims) => {
                if is_unexpired(claims.exp, now) {
                    Ok(claims)
                } else {
                    Err(AuthError::InvalidToken)
                }
            },
            None => Err(AuthError::InvalidToken),
        }
    }
}

impl RefreshClaims {
    /// Reads the claims out of an object that the codec opened, at time
    /// `now`: the claim set that the object spells, if it spells one whose
    /// expiry is after `now`; `InvalidToken` otherwise.
    pub fn from_opened(m: &serde_json::Map<String, serde_json::Value>, now: i64) -> (r: Result<
        Self,
        AuthError,
    >)
        ensures
            refresh_result_view(r) == refresh_outcome(Some(json_fields(*m)), now as int),
    {
        match Self::from_json(m) {
            Some(claims) => {
                if is_unexpired(claims.exp, now) {
                    Ok(claims)
                } else {
                    Err(AuthError::InvalidToken)
                }
            },
            None => Err(AuthError::InvalidToken),
        }
    }
}

impl Claims for AccessClaims {
    open spec fn fields(&self) -> JsonFields {
        access_fields(self@)
    }

    fn claim_object(&self) -> (m: serde_json::Map<String, serde_json::Value>) {
        self.to_json()
    }
}

impl Claims for RefreshClaims {
    open spec fn fields(&self) -> JsonFields {
        refresh_fields(self@)
    }

    fn claim_object(&self) -> (m: serde_json::Map<String, serde_json::Value>) {
        self.to_json()
    }
}

impl RefreshClaims {
    /// A claim set of the given values.
    pub fn new(jti: u128, sub: i32, exp: usize, iat: usize, iss: String) -> (r: Self)
        ensures
            r.jti == jti,
            r.sub == sub,
            r.exp == exp,
            r.iat == iat,
            r.iss == iss,
    {
        Self { jti, sub, exp, iat, iss }
    }

    /// The JSON object that is signed for this claim set.
    pub fn to_json(&self) -> (m: serde_json::Map<String, serde_json::Value>)
        ensures
            json_fields(m) == refresh_fields(self@),
            refresh_claims_of(json_fields(m)) == Some(self@),
            scalar_only(json_fields(m)),
    {
        let jti = uuid_format(self.jti);
        let mut m = json_new();
        json_put_text(&mut m, "jti", jti.as_str());
        json_put_i64(&mut m, "sub", self.sub as i64);
        json_put_u64(&mut m, "exp", self.exp as u64);
        json_put_u64(&mut m, "iat", self.iat as u64);
        json_put_text(&mut m, "iss", self.iss.as_str());
        proof {
            lemma_refresh_fields_round_trip(self@);
        }
        m
    }

    /// The claim set that a JSON object spells, or `None` where a field is
    /// missing, of the wrong kind or out of range, or `jti` spells no UUID.
    pub fn from_json(m: &serde_json::Map<String, serde_json::Value>) -> (r: Option<Self>)
        ensures
            r matches Some(c) ==> refresh_claims_of(json_fields(*m)) == Some(c@),
            r is None ==> refresh_claims_of(json_fields(*m)) is None,
    {
        let text = json_get_text(m, "jti");
        let rest = AccessClaims::from_json(m);
        match (text, rest) {
            (Some(text), Some(rest)) => match uuid_parse(text.as_str()) {
                Some(jti) => Some(
                    Self { jti, sub: rest.sub, exp: rest.exp, iat: rest.iat, iss: rest.iss },
                ),
                None => None,
            },
            _ => None,
        }
    }
}

/// Signs claims into tokens and reads tokens back, under one shared secret.
#[derive(Clone)]
pub struct Authenticator {
    secret: String,
}

/// `now < exp`, computed.
fn is_unexpired(exp: usize, now: i64) -> (r: bool)
    ensures
        r == unexpired(exp as int, now as int),
{
    now < 0 || (now as u64) < (exp as u64)
}

impl Authenticator {
    /// The secret that signs and checks every token.
    pub closed spec fn secret(&self) -> Seq<char> {
        self.secret@
    }

    /// An authenticator that signs and checks with `secret`.
    pub fn new(secret: String) -> (r: Self)
        ensures
            r.secret() == secret@,
    {
        Self { secret }
    }

    /// Signs an access claim set. The token is the codec's for the claim
    /// set's JSON object; where the codec fails, `Signing`. Read back under
    /// this secret, the token yields the very claims that were signed, for
    /// as long as they have not expired, and `InvalidToken` from then on.
    pub fn encode_access(&self, claims: &AccessClaims) -> (r: Result<String, AuthError>)
        ensures
            token_result_view(r) == signing_outcome(
                jwt_signed(access_fields(claims@), self.secret()),
            ),
            reads_as_access(r, self.secret(), claims@),
    {
        proof {
            lemma_access_fields_round_trip(claims@);
        }
        encode(claims, self.secret.as_str())
    }

    /// Signs a refresh claim set. The token is the codec's for the claim
    /// set's JSON object; where the codec fails, `Signing`. Read back under
    /// this secret, the token yields the very claims that were signed, for
    /// as long as they have not expired, and `InvalidToken` from then on.
    pub fn encode_refresh(&self, claims: &RefreshClaims) -> (r: Result<String, AuthError>)
        ensures
            token_result_view(r) == signing_outcome(
                jwt_signed(refresh_fields(claims@), self.secret()),
            ),
            reads_as_refresh(r, self.secret(), claims@),
    {
        let m = claims.to_json();
        proof {
            lemma_refresh_object_reads_back(claims@);
        }
        sign_object(&m, self.secret.as_str())
    }

    /// Reads an access token at time `now`: the claims of a token that the
    /// codec opens under the secret, that spells an access claim set and
    /// whose expiry is after `now`; `InvalidToken` for every other token.
    pub fn verify_access_token_at(&self, token: &str, now: i64) -> (r: Result<
        AccessClaims,
        AuthError,
    >)
        ensures
            access_result_view(r) == access_outcome(jwt_opened(token@, self.secret()), now as int),
    {
        match jwt_open(token, self.secret.as_str()) {
            Ok(m) => AccessClaims::from_opened(&m, now),
            Err(_) => Err(AuthError::InvalidToken),
        }
    }

    /// Reads a refresh token at time `now`: the claims of a token that the
    /// codec opens under the secret, that spells a refresh claim set and
    /// whose expiry is after `now`; `InvalidToken` for every other token.
    pub fn verify_refresh_token_at(&self, token: &str, now: i64) -> (r: Result<
        RefreshClaims,
        AuthError,
    >)
        ensures
            refresh_result_view(r) == refresh_outcome(
                jwt_opened(token@, self.secret()),
                now as int,
            ),
    {
        match jwt_open(token, self.secret.as_str()) {
            Ok(m) => RefreshClaims::from_opened(&m, now),
            Err(_) => Err(AuthError::InvalidToken),
        }
    }

    /// Mints an access token for `sub` that expires at `exp`, issued at
    /// `iat` by this service.
    pub fn new_access_token_at(&self, sub: i32, exp: usize, iat: usize) -> (r: Result<
        String,
        AuthError,
    >)
        ensures
            token_result_view(r) == signing_outcome(
                jwt_signed(
                    access_fields(AccessClaimsView { sub: sub as int, exp: exp as int, iat: iat as int, iss: issuer() }),
                    self.secret(),
                ),
            ),
            reads_as_access(
                r,
                self.secret(),
                (AccessClaimsView { sub: sub as int, exp: exp as int, iat: iat as int, iss: issuer() }),
            ),
    {
        let claims = AccessClaims::new(sub, exp, iat, "task.app.rust".to_owned());
        self.encode_access(&claims)
    }

    /// Mints a refresh token with identifier `jti` for `sub` that expires at
    /// `exp`, issued at `iat` by this service.
    pub fn new_refresh_token_at(&self, jti: u128, sub: i32, exp: usize, iat: usize) -> (r: Result<
        String,
        AuthError,
    >)
        ensures
            token_result_view(r) == signing_outcome(
                jwt_signed(
                    refresh_fields(
                        RefreshClaimsView { jti, sub: sub as int, exp: exp as int, iat: iat as int, iss: issuer() },
                    ),
                    self.secret(),
                ),
            ),
            reads_as_refresh(
                r,
                self.secret(),
                (RefreshClaimsView { jti, sub: sub as int, exp: exp as int, iat: iat as int, iss: issuer() }),
            ),
    {
        let claims = RefreshClaims::new(jti, sub, exp, iat, "task.app.rust".to_owned());
        self.encode_refresh(&claims)
    }

    /// Mints an access token for `sub` that expires at `exp`, issued now:
    /// the token of [`Self::new_access_token_at`] for whatever the clock
    /// reads. Read back under this secret, it yields these claims until
    /// `exp` and `InvalidToken` from then on.
    pub fn new_access_token(&self, sub: i32, exp: usize) -> (r: Result<String, AuthError>)
        ensures
            exists|iat: usize|
                token_result_view(r) == #[trigger] self.access_token_minted(sub, exp, iat)
                    && reads_as_access(
                    r,
                    self.secret(),
                    (AccessClaimsView {
                        sub: sub as int,
                        exp: exp as int,
                        iat: iat as int,
                        iss: issuer(),
                    }),
                ),
    {
        let iat = issue_time(unix_now());
        let r = self.new_access_token_at(sub, exp, iat);
        assert(token_result_view(r) == self.access_token_minted(sub, exp, iat));
        r
    }

    /// Reads an access token now: the outcome of
    /// [`Self::verify_access_token_at`] for whatever the clock reads.
    pub fn verify_access_token(&self, token: &str) -> (r: Result<AccessClaims, AuthError>)
        ensures
            exists|now: i64|
                access_result_view(r) == #[trigger] access_outcome(
                    jwt_opened(token@, self.secret()),
                    now as int,
                ),
    {
        let now = unix_now();
        let r = self.verify_access_token_at(token, now);
        assert(access_result_view(r) == access_outcome(
            jwt_opened(token@, self.secret()),
            now as int,
        ));
        r
    }

    /// Mints a refresh token with identifier `jti` for `sub` that expires at
    /// `exp`, issued now: the token of [`Self::new_refresh_token_at`] for
    /// whatever the clock reads. Read back under this secret, it yields
    /// these claims until `exp` and `InvalidToken` from then on.
    pub fn new_refresh_token(&self, jti: u128, sub: i32, exp: usize) -> (r: Result<
        String,
        AuthError,
    >)
        ensures
            exists|iat: usize|
                token_result_view(r) == #[trigger] self.refresh_token_minted(jti, sub, exp, iat)
                    && reads_as_refresh(
                    r,
                    self.secret(),
                    (RefreshClaimsView {
                        jti,
                        sub: sub as int,
                        exp: exp as int,
                        iat: iat as int,
                        iss: issuer(),
                    }),
                ),
    {
        let iat = issue_time(unix_now());
        let r = self.new_refresh_token_at(jti, sub, exp, iat);
        assert(token_result_view(r) == self.refresh_token_minted(jti, sub, exp, iat));
        r
    }

    /// Reads a refresh token now: the outcome of
    /// [`Self::verify_refresh_token_at`] for whatever the clock reads.
    pub fn verify_refresh_token(&self, token: &str) -> (r: Result<RefreshClaims, AuthError>)
        ensures
            exists|now: i64|
                refresh_result_view(r) == #[trigger] refresh_outcome(
                    jwt_opened(token@, self.secret()),
                    now as int,
                ),
    {
        let now = unix_now();
        let r = self.verify_refresh_token_at(token, now);
        assert(refresh_result_view(r) == refresh_outcome(
            jwt_opened(token@, self.secret()),
            now as int,
        ));
        r
    }

    /// What minting an access token issued at `iat` yields.
    pub open spec fn access_token_minted(&self, sub: i32, exp: usize, iat: usize) -> Result<
        Seq<char>,
        AuthError,
    > {
        signing_outcome(
            jwt_signed(
                access_fields(
                    AccessClaimsView { sub: sub as int, exp: exp as int, iat: iat as int, iss: issuer() },
                ),
                self.secret(),
            ),
        )
    }

    /// What minting a refresh token issued at `iat` yields.
    pub open spec fn refresh_token_minted(
        &self,
        jti: u128,
        sub: i32,
        exp: usize,
        iat: usize,
    ) -> Result<Seq<char>, AuthError> {
        signing_outcome(
            jwt_signed(
                refresh_fields(
                    RefreshClaimsView { jti, sub: sub as int, exp: exp as int, iat: iat as int, iss: issuer() },
                ),
                self.secret(),
            ),
        )
    }
}

/// The issue time that a clock reading stands for: the reading itself, and
/// zero for a clock set before the epoch or beyond the machine's word.
pub fn issue_time(now: i64) -> (r: usize)
    ensures
        r == if 0 <= now <= usize::MAX { now as usize } else { 0usize },
{
    if now >= 0 && now as u64 <= usize::MAX as u64 {
        now as usize
    } else {
        0
    }
}

} // verus!
