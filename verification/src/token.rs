//! The token codec: minting and verifying signed, time-bounded identity
//! claims in the compact form `header.payload.signature`. The signing
//! library frames, signs and checks the token; what a claim must hold and
//! how long it is in force is decided here.

use crate::dto::auth::{Claims, ClaimsView};
use crate::infrastructure::errors::{AppError, AppResult};
use crate::json::{
    json_string_literal, json_text_member, json_text_of, json_u64_member, text_member, u64_member,
};
use crate::text::{decimal, decimal_text};
use crate::validation::opt_text;
use vstd::prelude::*;
use vstd::utf8::encode_utf8;

verus! {

/// Why the signing library does not hand out the claims of a token.
#[derive(Debug, Clone, Copy, PartialEq, Eq, Structural)]
pub enum DecodeFailure {
    /// The signature is not the one the secret gives for header and payload.
    InvalidSignature,
    /// Anything else: the token does not have three segments, its header
    /// cannot be read or names another algorithm than HS256, its payload
    /// cannot be read, or it is meant for an audience.
    Other,
}

/// The token that `jsonwebtoken::encode` makes of a JSON document of claims
/// under a secret, with the default header (algorithm HS256); `None` where
/// the document is no JSON or cannot be encoded.
pub uninterp spec fn jwt_encoded(claims: Seq<char>, secret: Seq<u8>) -> Option<Seq<char>>;

/// What `jsonwebtoken::decode` makes of a token under a secret when HS256
/// is the one algorithm allowed and the clock is left out: the claims as
/// compact JSON, or the failure.
pub uninterp spec fn jwt_decoded(token: Seq<char>, secret: Seq<u8>) -> Result<
    Seq<char>,
    DecodeFailure,
>;

/// Parses the claims with `serde_json::from_str` into a `serde_json::Value`
/// and calls `jsonwebtoken::encode` on them with `Header::default()` and a
/// key made by `EncodingKey::from_secret`. The contract names the result
/// [`jwt_encoded`].
#[verifier::external_body]
fn jwt_encode(claims: &str, secret: &[u8]) -> (r: Option<String>)
    ensures
        match r {
            Some(token) => jwt_encoded(claims@, secret@) == Some(token@),
            None => jwt_encoded(claims@, secret@) is None,
        },
{
    let claims = serde_json::from_str::<serde_json::Value>(claims).ok()?;
    let key = jsonwebtoken::EncodingKey::from_secret(secret);
    jsonwebtoken::encode(&jsonwebtoken::Header::default(), &claims, &key).ok()
}

/// Calls `jsonwebtoken::decode` for claims of type `serde_json::Value` with
/// a key made by `DecodingKey::from_secret` and `Validation::new(HS256)`, in
/// which the check of the expiry time is switched off and no claim is
/// required: so the call does not look at the clock. The claims are written
/// with their `Display`, which gives compact JSON; of the failures the
/// signature that does not match is told from the rest. The contract names
/// the result [`jwt_decoded`].
#[verifier::external_body]
fn jwt_decode(token: &str, secret: &[u8]) -> (r: Result<String, DecodeFailure>)
    ensures
        match r {
            Ok(claims) => jwt_decoded(token@, secret@) == Ok::<Seq<char>, DecodeFailure>(claims@),
            Err(failure) => jwt_decoded(token@, secret@) == Err::<Seq<char>, DecodeFailure>(
                failure,
            ),
        },
{
    let mut validation = jsonwebtoken::Validation::new(jsonwebtoken::Algorithm::HS256);
    validation.validate_exp = false;
    validation.required_spec_claims.clear();
    let key = jsonwebtoken::DecodingKey::from_secret(secret);
    match jsonwebtoken::decode::<serde_json::Value>(token, &key, &validation) {
        Ok(data) => Ok(data.claims.to_string()),
        Err(e) => match e.kind() {
            jsonwebtoken::errors::ErrorKind::InvalidSignature => Err(
                DecodeFailure::InvalidSignature,
            ),
            _ => Err(DecodeFailure::Other),
        },
    }
}

/// Why a token was not accepted.
#[derive(Debug, Clone, Copy, PartialEq, Eq, Structural)]
pub enum TokenError {
    /// The token does not have three segments, its header is not that of an
    /// HS256 token, or its payload does not hold the claim.
    Malformed,
    /// The signature is not the one the secret gives for header and payload.
    BadSignature,
    /// The claim's expiry time is not after the current time.
    Expired,
}

/// The claim that the members of a payload make up: all three are there and
/// the two times fit the machine's word.
pub open spec fn claims_of_members(
    sub: Option<Seq<char>>,
    iat: Option<u64>,
    exp: Option<u64>,
) -> Option<ClaimsView> {
    if sub is Some && iat is Some && exp is Some && iat->0 <= usize::MAX && exp->0 <= usize::MAX {
        Some(ClaimsView { exp: exp->0 as nat, iat: iat->0 as nat, sub: sub->0 })
    } else {
        None
    }
}

/// The claim that a payload document holds under `sub`, `iat` and `exp`.
pub open spec fn payload_claims(doc: Seq<u8>) -> Option<ClaimsView> {
    claims_of_members(
        json_text_member(doc, "sub"@),
        json_u64_member(doc, "iat"@),
        json_u64_member(doc, "exp"@),
    )
}

/// The JSON document of a claim.
pub open spec fn claims_json(c: ClaimsView) -> Seq<char> {
    "{\"exp\":"@ + decimal(c.exp) + ",\"iat\":"@ + decimal(c.iat) + ",\"sub\":"@
        + json_string_literal(c.sub) + "}"@
}

/// The token that carries claim `c` under `secret`, if the signing library
/// makes one.
pub open spec fn minted(secret: Seq<char>, c: ClaimsView) -> Option<Seq<char>> {
    jwt_encoded(claims_json(c), encode_utf8(secret))
}

/// The claim that the outcome of decoding holds: a signature that does not
/// match is told as such, every other failure and a payload without the
/// claim as a malformed token.
pub open spec fn decoded_claims(decoded: Result<Seq<char>, DecodeFailure>) -> Result<
    ClaimsView,
    TokenError,
> {
    match decoded {
        Err(DecodeFailure::InvalidSignature) => Err(TokenError::BadSignature),
        Err(DecodeFailure::Other) => Err(TokenError::Malformed),
        Ok(doc) => match payload_claims(encode_utf8(doc)) {
            Some(c) => Ok(c),
            None => Err(TokenError::Malformed),
        },
    }
}

/// What reading a token under `secret` gives, the clock aside: the claim of
/// a well-framed HS256 token with the right signature and a readable payload.
pub open spec fn token_claims(token: Seq<char>, secret: Seq<char>) -> Result<
    ClaimsView,
    TokenError,
> {
    decoded_claims(jwt_decoded(token, encode_utf8(secret)))
}

/// A claim is in force while the clock stands before its expiry time.
pub open spec fn in_force(c: ClaimsView, now: nat) -> Result<ClaimsView, TokenError> {
    if c.exp > now {
        Ok(c)
    } else {
        Err(TokenError::Expired)
    }
}

/// What verifying a token under `secret` at time `now` gives.
pub open spec fn token_outcome(token: Seq<char>, secret: Seq<char>, now: nat) -> Result<
    ClaimsView,
    TokenError,
> {
    match token_claims(token, secret) {
        Ok(c) => in_force(c, now),
        Err(e) => Err(e),
    }
}

/// The model of a verification result.
pub open spec fn outcome_view(r: Result<Claims, TokenError>) -> Result<ClaimsView, TokenError> {
    match r {
        Ok(c) => Ok(c@),
        Err(e) => Err(e),
    }
}

/// The model of the outcome of decoding.
pub open spec fn decoded_view(decoded: Result<String, DecodeFailure>) -> Result<
    Seq<char>,
    DecodeFailure,
> {
    match decoded {
        Ok(doc) => Ok(doc@),
        Err(failure) => Err(failure),
    }
}

/// The claim that a token issued at `now` for `ttl` seconds carries for `subject`.
pub open spec fn fresh_claim(subject: Seq<char>, now: u64, ttl: u64) -> ClaimsView {
    ClaimsView { exp: (now + ttl) as nat, iat: now as nat, sub: subject }
}

/// Whether a token for claim `c` can be handed out under `secret`: the
/// signing library makes one and reads the same claim back from it.
pub open spec fn mintable(secret: Seq<char>, c: ClaimsView) -> bool {
    minted(secret, c) matches Some(token) && token_claims(token, secret) == Ok::<
        ClaimsView,
        TokenError,
    >(c)
}

impl Claims {
    /// The claim made of the three members of a payload, if all are there
    /// and the times fit.
    pub fn from_members(sub: Option<String>, iat: Option<u64>, exp: Option<u64>) -> (r: Option<
        Claims,
    >)
        ensures
            match r {
                Some(c) => Some(c@),
                None => None,
            } == claims_of_members(opt_text(sub), iat, exp),
    {
        match (sub, iat, exp) {
            (Some(sub), Some(iat), Some(exp)) => {
                if iat <= usize::MAX as u64 && exp <= usize::MAX as u64 {
                    Some(Claims { exp: exp as usize, iat: iat as usize, sub })
                } else {
                    None
                }
            },
            _ => None,
        }
    }

    /// Reads the claim from a payload document.
    pub fn from_payload(doc: &[u8]) -> (r: Option<Claims>)
        ensures
            match r {
                Some(c) => Some(c@),
                None => None,
            } == payload_claims(doc@),
    {
        let sub = text_member(doc, "sub");
        let iat = u64_member(doc, "iat");
        let exp = u64_member(doc, "exp");
        Claims::from_members(sub, iat, exp)
    }

    /// The claim that the outcome of decoding a token holds.
    pub fn from_decoded(decoded: Result<String, DecodeFailure>) -> (r: Result<Claims, TokenError>)
        ensures
            outcome_view(r) == decoded_claims(decoded_view(decoded)),
    {
        match decoded {
            Err(DecodeFailure::InvalidSignature) => Err(TokenError::BadSignature),
            Err(DecodeFailure::Other) => Err(TokenError::Malformed),
            Ok(doc) => match Claims::from_payload(doc.as_str().as_bytes()) {
                Some(claims) => Ok(claims),
                None => Err(TokenError::Malformed),
            },
        }
    }

    /// Writes the claim as a JSON document.
    pub fn to_json(&self) -> (doc: String)
        ensures
            doc@ == claims_json(self@),
    {
        let mut doc = String::from_str("{\"exp\":");
        doc.append(decimal_text(self.exp as u64).as_str());
        doc.append(",\"iat\":");
        doc.append(decimal_text(self.iat as u64).as_str());
        doc.append(",\"sub\":");
        doc.append(json_text_of(self.sub.as_str()).as_str());
        doc.append("}");
        doc
    }

    /// Accepts the claim while `now` is before its expiry time. No leeway is given.
    pub fn check_expiry(self, now: u64) -> (r: Result<Claims, TokenError>)
        ensures
            r == if self.exp > now {
                Ok::<Claims, TokenError>(self)
            } else {
                Err(TokenError::Expired)
            },
            outcome_view(r) == in_force(self@, now as nat),
    {
        if self.exp as u64 > now {
            Ok(self)
        } else {
            Err(TokenError::Expired)
        }
    }
}

/// Mints and verifies tokens under one secret.
pub struct TokenCodec {
    secret: String,
}

impl TokenCodec {
    /// The secret that signs the tokens.
    pub closed spec fn secret(&self) -> Seq<char> {
        self.secret@
    }

    /// A codec for the given secret.
    pub fn new(secret: &str) -> (codec: Self)
        ensures
            codec.secret() == secret@,
    {
        TokenCodec { secret: String::from_str(secret) }
    }

    /// Reads a token without looking at the clock: the signing library
    /// checks its frame, its header and its signature, then the claim is
    /// read from the payload.
    pub fn decode(&self, token: &str) -> (r: Result<Claims, TokenError>)
        ensures
            outcome_view(r) == token_claims(token@, self.secret()),
    {
        Claims::from_decoded(jwt_decode(token, self.secret.as_str().as_bytes()))
    }

    /// Verifies a token at time `now`: a malformed token, a wrong signature
    /// and an expired claim are told apart, in this order.
    pub fn verify(&self, token: &str, now: u64) -> (r: Result<Claims, TokenError>)
        ensures
            outcome_view(r) == token_outcome(token@, self.secret(), now as nat),
    {
        match self.decode(token) {
            Ok(claims) => claims.check_expiry(now),
            Err(e) => Err(e),
        }
    }

    /// Mints a token for `subject`, issued at `now` and expiring `ttl`
    /// seconds later. The token is read back before it is handed out, so a
    /// token that comes back verifies under this codec until it expires.
    /// The token is handed out exactly where the times fit the machine's
    /// word and the signing library makes a token that reads back as the
    /// claim; everything else is an internal error.
    pub fn mint(&self, subject: &str, now: u64, ttl: u64) -> (r: AppResult<String>)
        ensures
            match r {
                Ok(token) => {
                    let c = fresh_claim(subject@, now, ttl);
                    &&& minted(self.secret(), c) == Some(token@)
                    &&& token_claims(token@, self.secret()) == Ok::<ClaimsView, TokenError>(c)
                    &&& forall|at: nat| #[trigger]
                        token_outcome(token@, self.secret(), at) == in_force(c, at)
                },
                Err(e) => e == AppError::InternalServerError,
            },
            r is Ok <==> now + ttl <= usize::MAX && mintable(
                self.secret(),
                fresh_claim(subject@, now, ttl),
            ),
    {
        if now > usize::MAX as u64 || ttl > (usize::MAX as u64) - now {
            return Err(AppError::InternalServerError);
        }
        let claims = Claims {
            exp: (now + ttl) as usize,
            iat: now as usize,
            sub: String::from_str(subject),
        };
        let token = match jwt_encode(claims.to_json().as_str(), self.secret.as_str().as_bytes()) {
            Some(token) => token,
            None => {
                return Err(AppError::InternalServerError);
            },
        };
        match self.decode(token.as_str()) {
            Ok(read) => {
                if read.exp == claims.exp && read.iat == claims.iat && read.sub == claims.sub {
                    assert(read@ == claims@);
                    Ok(token)
                } else {
                    Err(AppError::InternalServerError)
                }
            },
            Err(_) => Err(AppError::InternalServerError),
        }
    }
}

/// A token that reads as claim `c` verifies while the clock stands before the
/// claim's expiry time, and fails as expired from that time on.
pub proof fn lemma_valid_until_expiry(token: Seq<char>, secret: Seq<char>, c: ClaimsView, now: nat)
    requires
        token_claims(token, secret) == Ok::<ClaimsView, TokenError>(c),
    ensures
        now < c.exp ==> token_outcome(token, secret, now) == Ok::<ClaimsView, TokenError>(c),
        now >= c.exp ==> token_outcome(token, secret, now) == Err::<ClaimsView, TokenError>(
            TokenError::Expired,
        ),
{
}

/// A claim issued at `now` for `ttl` seconds is in force at `now` exactly
/// where `ttl` is positive, stays in force until `ttl` seconds have passed
/// and is expired from then on.
pub proof fn lemma_in_force_for_ttl(sub: Seq<char>, now: nat, ttl: nat, later: nat)
    requires
        later >= now,
    ensures
        ({
            let c = ClaimsView { exp: now + ttl, iat: now, sub };
            &&& in_force(c, now) is Ok <==> ttl > 0
            &&& later < now + ttl ==> in_force(c, later) == Ok::<ClaimsView, TokenError>(c)
            &&& later >= now + ttl ==> in_force(c, later) == Err::<ClaimsView, TokenError>(
                TokenError::Expired,
            )
        }),
{
}

/// A token whose signature the signing library finds wrong fails with
/// `BadSignature` at any time, whatever its payload says of its expiry: a
/// wrong signature is never told as an expired or a valid token.
pub proof fn lemma_wrong_signature_is_told_first(token: Seq<char>, secret: Seq<char>, now: nat)
    requires
        jwt_decoded(token, encode_utf8(secret)) == Err::<Seq<char>, DecodeFailure>(
            DecodeFailure::InvalidSignature,
        ),
    ensures
        token_outcome(token, secret, now) == Err::<ClaimsView, TokenError>(
            TokenError::BadSignature,
        ),
{
}

} // verus!
