//! The token codec: mints and opens signed session tokens.
//!
//! A token carries five claims: the subject, the instants of issue and
//! expiry, the subject's rotation salt at the time of minting, and the class
//! of use. Signing and signature checking are the `jsonwebtoken` crate's; the
//! claims' rules, the expiry check and the error mapping are this module's.
pub mod error;
pub mod jwt;

pub use self::error::{Error, Result};
use self::jwt::{
    claims_doc, dot_count, json_number, json_number_members, json_text, json_text_members,
    jwt_decode, jwt_decoded, jwt_encode, jwt_encoded, unix_now, ClaimsDoc, JwtFault,
};
use crate::text::same_text;
use vstd::prelude::*;

verus! {

/// What a token authorizes: API calls, or minting a new pair of tokens.
#[derive(Debug, Clone, Copy, PartialEq, Eq, Structural)]
pub enum TokenClass {
    Access,
    Refresh,
}

impl TokenClass {
    /// The class's name on the wire.
    pub open spec fn wire(self) -> Seq<char> {
        match self {
            TokenClass::Access => "access"@,
            TokenClass::Refresh => "refresh"@,
        }
    }

    /// The class that a wire name stands for.
    pub open spec fn of_wire(name: Seq<char>) -> Option<TokenClass> {
        if name == "access"@ {
            Some(TokenClass::Access)
        } else if name == "refresh"@ {
            Some(TokenClass::Refresh)
        } else {
            None
        }
    }

    /// The class's name on the wire.
    pub fn as_str(self) -> (name: &'static str)
        ensures
            name@ == self.wire(),
    {
        match self {
            TokenClass::Access => "access",
            TokenClass::Refresh => "refresh",
        }
    }

    /// Reads a wire name; `None` for any name but the two known.
    pub fn from_wire(name: &str) -> (class: Option<TokenClass>)
        ensures
            class == TokenClass::of_wire(name@),
    {
        if same_text(name, "access") {
            Some(TokenClass::Access)
        } else if same_text(name, "refresh") {
            Some(TokenClass::Refresh)
        } else {
            None
        }
    }

    /// Reading a class's wire name gives the class back.
    pub proof fn lemma_wire_round_trip(self)
        ensures
            TokenClass::of_wire(self.wire()) == Some(self),
    {
        reveal_strlit("access");
        reveal_strlit("refresh");
        assert("refresh"@.len() != "access"@.len());
    }
}

/// The signed payload of a token.
#[derive(Debug)]
pub struct TokenClaims {
    /// The principal's stable handle.
    pub sub: String,
    /// Issued at: seconds since the Unix epoch.
    pub iat: u64,
    /// Expires at: seconds since the Unix epoch.
    pub exp: u64,
    /// The principal's rotation salt when the token was minted.
    pub salt: String,
    /// The use the token was minted for.
    pub typ: TokenClass,
}

/// The mathematical value of a `TokenClaims`.
pub struct ClaimsView {
    pub sub: Seq<char>,
    pub iat: u64,
    pub exp: u64,
    pub salt: Seq<char>,
    pub typ: TokenClass,
}

impl ClaimsView {
    /// The subject is not empty and the expiry lies after the issue.
    pub open spec fn wf(self) -> bool {
        self.sub.len() > 0 && self.iat < self.exp
    }

    /// The claims object that carries these claims.
    pub open spec fn doc(self) -> ClaimsDoc {
        claims_doc(self.sub, self.iat, self.exp, self.salt, self.typ.wire())
    }
}

impl View for TokenClaims {
    type V = ClaimsView;

    open spec fn view(&self) -> ClaimsView {
        ClaimsView {
            sub: self.sub@,
            iat: self.iat,
            exp: self.exp,
            salt: self.salt@,
            typ: self.typ,
        }
    }
}

impl Clone for TokenClaims {
    fn clone(&self) -> (copy: Self)
        ensures
            copy@ == self@,
    {
        TokenClaims {
            sub: self.sub.clone(),
            iat: self.iat,
            exp: self.exp,
            salt: self.salt.clone(),
            typ: self.typ,
        }
    }
}

impl TokenClaims {
    /// The data model's invariant: a subject, and an expiry after the issue.
    pub open spec fn wf(&self) -> bool {
        self@.wf()
    }
}

/// The secret that signs tokens and the lifetimes of the two classes, fixed
/// for the life of the process.
#[derive(Debug)]
pub struct AuthConfig {
    pub token_key: Vec<u8>,
    /// Lifetime of an access token, in seconds.
    pub access_token_ttl: i64,
    /// Lifetime of a refresh token, in seconds.
    pub refresh_token_ttl: i64,
}

impl AuthConfig {
    /// Both lifetimes are positive.
    pub open spec fn wf(&self) -> bool {
        self.access_token_ttl > 0 && self.refresh_token_ttl > 0
    }

    /// The lifetime that the configuration gives a class.
    pub open spec fn spec_ttl(&self, class: TokenClass) -> i64 {
        match class {
            TokenClass::Access => self.access_token_ttl,
            TokenClass::Refresh => self.refresh_token_ttl,
        }
    }

    /// A configuration, or `None` where a lifetime is not positive.
    pub fn new(token_key: Vec<u8>, access_token_ttl: i64, refresh_token_ttl: i64) -> (config:
        Option<AuthConfig>)
        ensures
            config is Some <==> access_token_ttl > 0 && refresh_token_ttl > 0,
            config matches Some(c) ==> c.wf() && c.token_key@ == token_key@ && c.access_token_ttl
                == access_token_ttl && c.refresh_token_ttl == refresh_token_ttl,
    {
        if access_token_ttl > 0 && refresh_token_ttl > 0 {
            Some(AuthConfig { token_key, access_token_ttl, refresh_token_ttl })
        } else {
            None
        }
    }

    /// The lifetime that the configuration gives a class.
    pub fn ttl(&self, class: TokenClass) -> (seconds: i64)
        ensures
            seconds == self.spec_ttl(class),
    {
        match class {
            TokenClass::Access => self.access_token_ttl,
            TokenClass::Refresh => self.refresh_token_ttl,
        }
    }
}

/// The claims of a token minted at `now` to live `ttl` seconds; `None` where
/// the clock is before the epoch or the lifetime is not positive, so that no
/// claims with an expiry after the issue exist.
pub open spec fn minted_claims(
    sub: Seq<char>,
    ttl: i64,
    salt: Seq<char>,
    typ: TokenClass,
    now: i64,
) -> Option<ClaimsView> {
    if now >= 0 && ttl > 0 {
        Some(ClaimsView { sub, iat: now as u64, exp: (now + ttl) as u64, salt, typ })
    } else {
        None
    }
}

/// What minting returns at the instant `now`.
pub open spec fn minted_at(
    sub: Seq<char>,
    secret: Seq<u8>,
    ttl: i64,
    salt: Seq<char>,
    typ: TokenClass,
    now: i64,
) -> core::result::Result<Seq<char>, Error> {
    if sub.len() == 0 {
        Err(Error::InvalidSubject)
    } else {
        match minted_claims(sub, ttl, salt, typ, now) {
            None => Err(Error::TokenCreationFailed),
            Some(c) => match jwt_encoded(c.sub, c.iat, c.exp, c.salt, c.typ.wire(), secret) {
                Ok(token) => Ok(token),
                Err(fault) => Err(Error::of_fault(fault)),
            },
        }
    }
}

/// The claims that a claims object carries: all five members present with
/// the right kind of value, a known class, and the invariant of the data
/// model.
pub open spec fn claims_of(doc: ClaimsDoc) -> Option<ClaimsView> {
    if doc.text.contains_key("sub"@) && doc.numbers.contains_key("iat"@)
        && doc.numbers.contains_key("exp"@) && doc.text.contains_key("salt"@)
        && doc.text.contains_key("typ"@) {
        match TokenClass::of_wire(doc.text["typ"@]) {
            Some(typ) => {
                let c = ClaimsView {
                    sub: doc.text["sub"@],
                    iat: doc.numbers["iat"@],
                    exp: doc.numbers["exp"@],
                    salt: doc.text["salt"@],
                    typ,
                };
                if c.wf() {
                    Some(c)
                } else {
                    None
                }
            },
            None => None,
        }
    } else {
        None
    }
}

/// What opening a token returns at the instant `now`, given what the signing
/// scheme made of it: the scheme's fault, mapped; `TokenDecodeFailed` where
/// the claims object does not carry well-formed claims; `ExpiredToken` where
/// `now` is after the expiry; else the claims.
pub open spec fn opened_at(
    decoded: core::result::Result<ClaimsDoc, JwtFault>,
    now: i64,
) -> core::result::Result<ClaimsView, Error> {
    match decoded {
        Err(fault) => Err(Error::of_fault(fault)),
        Ok(doc) => match claims_of(doc) {
            None => Err(Error::TokenDecodeFailed),
            Some(c) => if now > c.exp {
                Err(Error::ExpiredToken)
            } else {
                Ok(c)
            },
        },
    }
}

/// `token`, opened under `secret`, yields `claims` at every instant up to
/// their expiry and `ExpiredToken` at every instant after it.
pub open spec fn opens_to(token: Seq<char>, secret: Seq<u8>, claims: ClaimsView) -> bool {
    forall|at: i64| #[trigger]
        opened_at(jwt_decoded(token, secret), at) == if at > claims.exp {
            Err::<ClaimsView, Error>(Error::ExpiredToken)
        } else {
            Ok::<ClaimsView, Error>(claims)
        }
}

/// Well-formed claims are read back unchanged from the claims object that
/// carries them.
pub proof fn lemma_doc_round_trip(c: ClaimsView)
    requires
        c.wf(),
    ensures
        claims_of(c.doc()) == Some(c),
{
    reveal_strlit("sub");
    reveal_strlit("salt");
    reveal_strlit("typ");
    reveal_strlit("iat");
    reveal_strlit("exp");
    assert("sub"@.len() != "salt"@.len());
    assert("sub"@[0] != "typ"@[0]);
    assert("salt"@.len() != "typ"@.len());
    assert("iat"@[0] != "exp"@[0]);
    c.typ.lemma_wire_round_trip();
    let doc = c.doc();
    assert(doc.text["sub"@] == c.sub);
    assert(doc.text["salt"@] == c.salt);
    assert(doc.text["typ"@] == c.typ.wire());
    assert(doc.numbers["iat"@] == c.iat);
    assert(doc.numbers["exp"@] == c.exp);
}

/// Round trip and expiry boundary: a token that carries the claims minted
/// at `now` with a positive lifetime `ttl` opens, at every instant up to
/// `now + ttl`, to the subject, salt and class it was minted with, issued at
/// `now` and expiring at `now + ttl`; at every later instant it is expired.
pub proof fn lemma_minted_token_opens(
    token: Seq<char>,
    secret: Seq<u8>,
    sub: Seq<char>,
    ttl: i64,
    salt: Seq<char>,
    typ: TokenClass,
    now: i64,
    at: i64,
)
    requires
        now >= 0,
        ttl > 0,
        opens_to(token, secret, minted_claims(sub, ttl, salt, typ, now)->0),
    ensures
        at <= now + ttl ==> opened_at(jwt_decoded(token, secret), at) == Ok::<ClaimsView, Error>(
            ClaimsView { sub, iat: now as u64, exp: (now + ttl) as u64, salt, typ },
        ),
        at > now + ttl ==> opened_at(jwt_decoded(token, secret), at) == Err::<ClaimsView, Error>(
            Error::ExpiredToken,
        ),
{
    let claims = minted_claims(sub, ttl, salt, typ, now)->0;
    lemma_opens_at(token, secret, claims, at);
}

/// What `opens_to` says of one instant.
pub proof fn lemma_opens_at(token: Seq<char>, secret: Seq<u8>, claims: ClaimsView, at: i64)
    requires
        opens_to(token, secret, claims),
    ensures
        opened_at(jwt_decoded(token, secret), at) == if at > claims.exp {
            Err::<ClaimsView, Error>(Error::ExpiredToken)
        } else {
            Ok::<ClaimsView, Error>(claims)
        },
{
}

/// `r` is the exec value of the spec result `spec`.
pub open spec fn is_text_result(
    r: Result<String>,
    spec: core::result::Result<Seq<char>, Error>,
) -> bool {
    match r {
        Ok(t) => spec == Ok::<Seq<char>, Error>(t@),
        Err(e) => spec == Err::<Seq<char>, Error>(e),
    }
}

/// `r` is the exec value of the spec result `spec`.
pub open spec fn is_claims_result(
    r: Result<TokenClaims>,
    spec: core::result::Result<ClaimsView, Error>,
) -> bool {
    match r {
        Ok(c) => spec == Ok::<ClaimsView, Error>(c@),
        Err(e) => spec == Err::<ClaimsView, Error>(e),
    }
}

/// Mints a token for `user_id` at the instant `now`, to live
/// `expires_in_seconds`.
///
/// Fails with `InvalidSubject` for an empty subject, and with
/// `TokenCreationFailed` where `now` is before the epoch or the lifetime is
/// not positive. Otherwise the result is the signing scheme's.
pub fn create_jwt_token_at(
    user_id: &str,
    secret: &[u8],
    expires_in_seconds: i64,
    salt: &str,
    typ: TokenClass,
    now: i64,
) -> (r: Result<String>)
    ensures
        is_text_result(r, minted_at(user_id@, secret@, expires_in_seconds, salt@, typ, now)),
        r matches Ok(token) ==> opens_to(
            token@,
            secret@,
            minted_claims(user_id@, expires_in_seconds, salt@, typ, now)->0,
        ),
{
    if user_id.is_empty() {
        return Err(Error::InvalidSubject);
    }
    if now < 0 || expires_in_seconds <= 0 {
        return Err(Error::TokenCreationFailed);
    }
    let iat: u64 = now as u64;
    let exp: u64 = iat + (expires_in_seconds as u64);
    match jwt_encode(user_id, iat, exp, salt, typ.as_str(), secret) {
        Ok(token) => {
            proof {
                lemma_doc_round_trip(
                    minted_claims(user_id@, expires_in_seconds, salt@, typ, now)->0,
                );
            }
            Ok(token)
        },
        Err(fault) => Err(Error::from(fault)),
    }
}

/// Mints a token for `user_id` now, by the system clock.
pub fn create_jwt_token(
    user_id: &str,
    secret: &[u8],
    expires_in_seconds: i64,
    salt: &str,
    typ: TokenClass,
) -> (r: Result<String>)
    ensures
        exists|now: i64|
            {
                &&& now >= 0
                &&& is_text_result(
                    r,
                    #[trigger] minted_at(user_id@, secret@, expires_in_seconds, salt@, typ, now),
                )
                &&& r matches Ok(token) ==> opens_to(
                    token@,
                    secret@,
                    minted_claims(user_id@, expires_in_seconds, salt@, typ, now)->0,
                )
            },
        r == Err::<String, Error>(Error::InvalidSubject) <==> user_id@.len() == 0,
        r == Err::<String, Error>(Error::TokenCreationFailed) <==> user_id@.len() > 0
            && expires_in_seconds <= 0,
{
    let now = unix_now();
    let r = create_jwt_token_at(user_id, secret, expires_in_seconds, salt, typ, now);
    assert(is_text_result(r, minted_at(user_id@, secret@, expires_in_seconds, salt@, typ, now)));
    r
}

/// Reads the claims out of a claims object whose signature has been checked.
pub fn claims_from_doc(doc: &serde_json::Value) -> (r: Option<TokenClaims>)
    ensures
        match r {
            Some(c) => claims_of(
                (ClaimsDoc { text: json_text_members(*doc), numbers: json_number_members(*doc) }),
            ) == Some(c@),
            None => claims_of(
                (ClaimsDoc { text: json_text_members(*doc), numbers: json_number_members(*doc) }),
            ) is None,
        },
{
    let sub = match json_text(doc, "sub") {
        Some(s) => s,
        None => { return None; },
    };
    let iat = match json_number(doc, "iat") {
        Some(n) => n,
        None => { return None; },
    };
    let exp = match json_number(doc, "exp") {
        Some(n) => n,
        None => { return None; },
    };
    let salt = match json_text(doc, "salt") {
        Some(s) => s,
        None => { return None; },
    };
    let typ_name = match json_text(doc, "typ") {
        Some(s) => s,
        None => { return None; },
    };
    let typ = match TokenClass::from_wire(typ_name.as_str()) {
        Some(t) => t,
        None => { return None; },
    };
    if sub.as_str().is_empty() || iat >= exp {
        return None;
    }
    Some(TokenClaims { sub, iat, exp, salt, typ })
}

/// Opens `token` at the instant `now`: checks the signature under `secret`,
/// reads the claims, and compares the expiry with `now`.
pub fn decode_jwt_token_at(token: &str, secret: &[u8], now: i64) -> (r: Result<TokenClaims>)
    ensures
        is_claims_result(r, opened_at(jwt_decoded(token@, secret@), now)),
        r matches Ok(c) ==> c.wf() && now <= c.exp,
        dot_count(token@) < 2 ==> r matches Err(Error::TokenDecodeFailed),
{
    match jwt_decode(token, secret) {
        Err(fault) => Err(Error::from(fault)),
        Ok(doc) => match claims_from_doc(&doc) {
            None => Err(Error::TokenDecodeFailed),
            Some(claims) => {
                if now >= 0 && (now as u64) > claims.exp {
                    Err(Error::ExpiredToken)
                } else {
                    Ok(claims)
                }
            },
        },
    }
}

/// Opens `token` now, by the system clock.
pub fn decode_jwt_token(token: &str, secret: &[u8]) -> (r: Result<TokenClaims>)
    ensures
        exists|now: i64|
            now >= 0 && is_claims_result(r, #[trigger] opened_at(jwt_decoded(token@, secret@), now)),
        r matches Ok(c) ==> c.wf(),
        dot_count(token@) < 2 ==> r matches Err(Error::TokenDecodeFailed),
{
    let now = unix_now();
    let r = decode_jwt_token_at(token, secret, now);
    assert(is_claims_result(r, opened_at(jwt_decoded(token@, secret@), now)));
    r
}

/// What minting an access and a refresh token for one principal returns at
/// the instant `now`: the pair, or the first failure.
pub open spec fn web_tokens_at(
    config: &AuthConfig,
    user: Seq<char>,
    salt: Seq<char>,
    now: i64,
) -> core::result::Result<(Seq<char>, Seq<char>), Error> {
    match minted_at(
        user,
        config.token_key@,
        config.access_token_ttl,
        salt,
        TokenClass::Access,
        now,
    ) {
        Err(e) => Err(e),
        Ok(access) => match minted_at(
            user,
            config.token_key@,
            config.refresh_token_ttl,
            salt,
            TokenClass::Refresh,
            now,
        ) {
            Err(e) => Err(e),
            Ok(refresh) => Ok((access, refresh)),
        },
    }
}

/// `r` is the exec value of the spec result `spec`.
pub open spec fn is_pair_result(
    r: Result<(String, String)>,
    spec: core::result::Result<(Seq<char>, Seq<char>), Error>,
) -> bool {
    match r {
        Ok((a, b)) => spec == Ok::<(Seq<char>, Seq<char>), Error>((a@, b@)),
        Err(e) => spec == Err::<(Seq<char>, Seq<char>), Error>(e),
    }
}

/// Both tokens of a pair open, under the configured secret, to the claims
/// that minting at `now` gives their class.
pub open spec fn pair_opens(
    config: &AuthConfig,
    pair: (Seq<char>, Seq<char>),
    user: Seq<char>,
    salt: Seq<char>,
    now: i64,
) -> bool {
    &&& opens_to(
        pair.0,
        config.token_key@,
        minted_claims(user, config.access_token_ttl, salt, TokenClass::Access, now)->0,
    )
    &&& opens_to(
        pair.1,
        config.token_key@,
        minted_claims(user, config.refresh_token_ttl, salt, TokenClass::Refresh, now)->0,
    )
}

/// Mints an access token for `user` at the instant `now`.
pub fn generate_access_token_at(config: &AuthConfig, user: &str, salt: &str, now: i64) -> (r:
    Result<String>)
    ensures
        is_text_result(
            r,
            minted_at(
                user@,
                config.token_key@,
                config.access_token_ttl,
                salt@,
                TokenClass::Access,
                now,
            ),
        ),
        r matches Ok(token) ==> opens_to(
            token@,
            config.token_key@,
            minted_claims(user@, config.access_token_ttl, salt@, TokenClass::Access, now)->0,
        ),
{
    create_jwt_token_at(
        user,
        config.token_key.as_slice(),
        config.access_token_ttl,
        salt,
        TokenClass::Access,
        now,
    )
}

/// Mints a refresh token for `user` at the instant `now`.
pub fn generate_refresh_token_at(config: &AuthConfig, user: &str, salt: &str, now: i64) -> (r:
    Result<String>)
    ensures
        is_text_result(
            r,
            minted_at(
                user@,
                config.token_key@,
                config.refresh_token_ttl,
                salt@,
                TokenClass::Refresh,
                now,
            ),
        ),
        r matches Ok(token) ==> opens_to(
            token@,
            config.token_key@,
            minted_claims(user@, config.refresh_token_ttl, salt@, TokenClass::Refresh, now)->0,
        ),
{
    create_jwt_token_at(
        user,
        config.token_key.as_slice(),
        config.refresh_token_ttl,
        salt,
        TokenClass::Refresh,
        now,
    )
}

/// Mints the access and refresh pair for `user` at the instant `now`.
pub fn generate_web_tokens_at(config: &AuthConfig, user: &str, salt: &str, now: i64) -> (r: Result<
    (String, String),
>)
    ensures
        is_pair_result(r, web_tokens_at(config, user@, salt@, now)),
        r matches Ok(pair) ==> pair_opens(config, (pair.0@, pair.1@), user@, salt@, now),
{
    let access_token = match generate_access_token_at(config, user, salt, now) {
        Ok(t) => t,
        Err(e) => { return Err(e); },
    };
    let refresh_token = match generate_refresh_token_at(config, user, salt, now) {
        Ok(t) => t,
        Err(e) => { return Err(e); },
    };
    Ok((access_token, refresh_token))
}

/// Mints the access and refresh pair for `user` now, by the system clock.
/// Both tokens carry the same instant of issue.
pub fn generate_web_tokens(config: &AuthConfig, user: &str, salt: &str) -> (r: Result<
    (String, String),
>)
    ensures
        exists|now: i64|
            {
                &&& now >= 0
                &&& is_pair_result(r, #[trigger] web_tokens_at(config, user@, salt@, now))
                &&& r matches Ok(pair) ==> pair_opens(
                    config,
                    (pair.0@, pair.1@),
                    user@,
                    salt@,
                    now,
                )
            },
        r == Err::<(String, String), Error>(Error::InvalidSubject) <==> user@.len() == 0,
        user@.len() > 0 && config.wf() ==> r != Err::<(String, String), Error>(
            Error::TokenCreationFailed,
        ),
{
    let now = unix_now();
    let r = generate_web_tokens_at(config, user, salt, now);
    assert(is_pair_result(r, web_tokens_at(config, user@, salt@, now)));
    r
}

/// Opens `token` under the configured secret at the instant `now`.
pub fn validate_web_token_at(config: &AuthConfig, token: &String, now: i64) -> (r: Result<
    TokenClaims,
>)
    ensures
        is_claims_result(r, opened_at(jwt_decoded(token@, config.token_key@), now)),
        r matches Ok(c) ==> c.wf() && now <= c.exp,
        dot_count(token@) < 2 ==> r matches Err(Error::TokenDecodeFailed),
{
    decode_jwt_token_at(token.as_str(), config.token_key.as_slice(), now)
}

/// Opens `token` under the configured secret now, by the system clock.
pub fn validate_web_token(config: &AuthConfig, token: &String) -> (r: Result<TokenClaims>)
    ensures
        exists|now: i64|
            now >= 0 && is_claims_result(
                r,
                #[trigger] opened_at(jwt_decoded(token@, config.token_key@), now),
            ),
        r matches Ok(c) ==> c.wf(),
        dot_count(token@) < 2 ==> r matches Err(Error::TokenDecodeFailed),
{
    decode_jwt_token(token.as_str(), config.token_key.as_slice())
}

/// The configured lifetime of an access token, in seconds.
pub fn access_token_ttl(config: &AuthConfig) -> (seconds: i64)
    ensures
        seconds == config.access_token_ttl,
{
    config.access_token_ttl
}

/// A token is used only for what it was minted for: `InvalidToken` where the
/// claims' class is not the one the operation expects.
pub fn check_token_class(claims: &TokenClaims, expected: TokenClass) -> (r: Result<()>)
    ensures
        r == if claims.typ == expected {
            Ok::<(), Error>(())
        } else {
            Err::<(), Error>(Error::InvalidToken)
        },
{
    if claims.typ == expected {
        Ok(())
    } else {
        Err(Error::InvalidToken)
    }
}

} // verus!
