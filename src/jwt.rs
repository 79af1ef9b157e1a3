use crate::auth::{AuthError, Claims};
use biscuit::jwa::SignatureAlgorithm;
use biscuit::jws::{RegisteredHeader, Secret};
use std::collections::BTreeMap;
use vstd::prelude::*;

verus! {

/// Latest expiry (in seconds since the epoch) a token may carry: the last second of year 9999.
pub const MAX_EXPIRY: i64 = 253402300799;

/// Seconds of clock skew tolerated past a token's expiry.
pub const EXPIRY_SKEW: i64 = 2;

/// The compact HS256 token that signing `{exp: expiry, cid}` with `secret` yields.
pub uninterp spec fn signed_token(secret: Seq<char>, cid: Seq<char>, expiry: int) -> Seq<char>;

/// The JSON payload that `signed_token(_, cid, expiry)` carries.
pub uninterp spec fn claims_json(cid: Seq<char>, expiry: int) -> Seq<u8>;

/// The payload of a compact token whose HS256 header and signature check out
/// under `secret`; `None` when they do not.
pub uninterp spec fn token_payload(secret: Seq<char>, token: Seq<char>) -> Option<Seq<u8>>;

/// The `cid` string and `exp` integer of a JSON claims payload; `None` when the
/// payload is not a JSON object holding both.
pub uninterp spec fn payload_claims(payload: Seq<u8>) -> Option<(Seq<char>, int)>;

/// `t` is `signed` with its signature (what follows the last `.`) changed,
/// its length and everything up to that `.` kept.
pub open spec fn signature_altered(t: Seq<char>, signed: Seq<char>) -> bool {
    exists|k: int|
        0 <= k < signed.len() && signed[k] == '.' && (forall|j: int| k < j < signed.len() ==> signed[j] != '.')
            && t.len() == signed.len() && t.subrange(0, k + 1) == signed.subrange(0, k + 1) && t != signed
}

pub open spec fn bytes_view(r: Option<Vec<u8>>) -> Option<Seq<u8>> {
    match r {
        Some(p) => Some(p@),
        None => None,
    }
}

pub open spec fn claims_view(r: Option<(String, i64)>) -> Option<(Seq<char>, int)> {
    match r {
        Some((c, e)) => Some((c@, e as int)),
        None => None,
    }
}

/// Relies on biscuit's `JWT::into_encoded` with an HS256 header and
/// `Secret::bytes_from_str`: the claims `{exp, cid}` are serialised and signed,
/// which cannot fail for these types and an HMAC secret.
/// `Timestamp::from(i64)` panics outside chrono's range, hence the bound.
#[verifier::external_body]
fn sign_claims(secret: &str, cid: &str, expiry: i64) -> (r: Option<String>)
    requires
        0 <= expiry <= MAX_EXPIRY,
    ensures
        r is Some,
        r->0@ == signed_token(secret@, cid@, expiry as int),
{
    let registered = biscuit::RegisteredClaims { expiry: Some(biscuit::Timestamp::from(expiry)), ..Default::default() };
    let mut private = BTreeMap::new();
    private.insert("cid".to_string(), cid.to_string());
    let header = RegisteredHeader { algorithm: SignatureAlgorithm::HS256, ..Default::default() };
    let jwt = biscuit::JWT::new_decoded(From::from(header), biscuit::ClaimsSet { registered, private });
    jwt.into_encoded(&Secret::bytes_from_str(secret)).ok().map(|t| t.unwrap_encoded().to_string())
}

/// Relies on biscuit's `jws::Compact::into_decoded` (HS256, `Secret::bytes_from_str`)
/// with the payload kept as raw bytes. The signature is recomputed over the
/// first two parts and compared byte for byte with the strictly decoded third
/// part, so a token signed by `sign_claims` opens to the payload it was signed
/// over, and one whose signature part was changed does not open.
#[verifier::external_body]
fn open_token(secret: &str, token: &str) -> (r: Option<Vec<u8>>)
    ensures
        bytes_view(r) == token_payload(secret@, token@),
        forall|c: Seq<char>, e: int|
            0 <= e <= MAX_EXPIRY && token@ == #[trigger] signed_token(secret@, c, e) ==> (r is Some && r->0@
                == claims_json(c, e)),
        forall|c: Seq<char>, e: int|
            0 <= e <= MAX_EXPIRY && signature_altered(token@, #[trigger] signed_token(secret@, c, e)) ==> r is None,
{
    let jws = biscuit::jws::Compact::<Vec<u8>, biscuit::Empty>::new_encoded(token);
    let jws = jws.into_decoded(&Secret::bytes_from_str(secret), SignatureAlgorithm::HS256).ok()?;
    jws.payload().ok().cloned()
}

/// Relies on `serde_json::from_slice` into a map of JSON values: the `cid`
/// string and the `exp` integer, read as they were written by `sign_claims`.
#[verifier::external_body]
fn read_claims(payload: &[u8]) -> (r: Option<(String, i64)>)
    ensures
        claims_view(r) == payload_claims(payload@),
        forall|c: Seq<char>, e: int|
            0 <= e <= MAX_EXPIRY && payload@ == #[trigger] claims_json(c, e) ==> claims_view(r) == Some((c, e)),
{
    let claims: BTreeMap<String, serde_json::Value> = serde_json::from_slice(payload).ok()?;
    let cid = claims.get("cid")?.as_str()?.to_string();
    let exp = claims.get("exp")?.as_i64()?;
    Some((cid, exp))
}

/// Relies on chrono's `Utc::now`: the current time in whole seconds since the
/// epoch (it panics rather than return a time before the epoch).
#[verifier::external_body]
pub(crate) fn now_seconds() -> (r: i64)
    ensures
        0 <= r,
{
    chrono::Utc::now().timestamp()
}

/// The channel a token grants at time `now`: it verifies, carries `cid` and
/// `exp`, and that expiry plus the skew allowance has not passed.
pub open spec fn verified_cid(secret: Seq<char>, token: Seq<char>, now: int) -> Option<Seq<char>> {
    match token_payload(secret, token) {
        Some(p) => match payload_claims(p) {
            Some((c, e)) => if now - e > EXPIRY_SKEW {
                None
            } else {
                Some(c)
            },
            None => None,
        },
        None => None,
    }
}

/// Signs and checks channel tokens with a shared secret.
#[derive(Clone, Debug)]
pub struct Jwt {
    secret: String,
}

impl Jwt {
    pub closed spec fn secret(&self) -> Seq<char> {
        self.secret@
    }

    pub fn new(secret: &str) -> (r: Self)
        ensures
            r.secret() == secret@,
    {
        Jwt { secret: secret.to_string() }
    }

    /// Issues a token for `claims.cid` that expires at `expiry` (seconds since the epoch).
    pub fn encode(&self, claims: Claims, expiry: i64) -> (r: Option<String>)
        requires
            0 <= expiry <= MAX_EXPIRY,
        ensures
            r matches Some(t) && t@ == signed_token(self.secret(), claims.cid@, expiry as int),
    {
        sign_claims(self.secret.as_str(), claims.cid.as_str(), expiry)
    }

    /// Checks `token` at time `now`: its signature, then its expiry with the skew
    /// allowance. Every failure is the same `InvalidCredentials`.
    pub fn decode(&self, token: &str, now: i64) -> (r: Result<Claims, AuthError>)
        ensures
            match verified_cid(self.secret(), token@, now as int) {
                Some(c) => (r matches Ok(claims) && claims.cid@ == c),
                None => r == Err::<Claims, AuthError>(AuthError::InvalidCredentials),
            },
            forall|c: Seq<char>, e: int|
                0 <= e <= MAX_EXPIRY && token@ == #[trigger] signed_token(self.secret(), c, e) ==> if now <= e
                    + EXPIRY_SKEW {
                    r matches Ok(claims) && claims.cid@ == c
                } else {
                    r is Err
                },
            forall|c: Seq<char>, e: int|
                0 <= e <= MAX_EXPIRY && signature_altered(token@, #[trigger] signed_token(self.secret(), c, e))
                    ==> r is Err,
    {
        match open_token(self.secret.as_str(), token) {
            Some(payload) => match read_claims(payload.as_slice()) {
                Some((cid, exp)) => {
                    if (now as i128) - (exp as i128) > EXPIRY_SKEW as i128 {
                        Err(AuthError::InvalidCredentials)
                    } else {
                        Ok(Claims { cid })
                    }
                },
                None => Err(AuthError::InvalidCredentials),
            },
            None => Err(AuthError::InvalidCredentials),
        }
    }

    /// Checks `token` against the clock. Whatever the time, success only ever
    /// names the channel sealed in a token that this secret signed.
    pub fn verify(&self, token: &str) -> (r: Result<Claims, AuthError>)
        ensures
            r matches Ok(claims) ==> (token_payload(self.secret(), token@) matches Some(p) && payload_claims(
                p,
            ) matches Some((c, _)) && claims.cid@ == c),
            r is Err ==> r == Err::<Claims, AuthError>(AuthError::InvalidCredentials),
    {
        let now = now_seconds();
        self.decode(token, now)
    }
}

/// A token whose expiry lies more than the skew allowance before `now` is refused,
/// whatever it grants.
pub proof fn expired_token_refused(secret: Seq<char>, token: Seq<char>, now: int)
    requires
        token_payload(secret, token) matches Some(p) && payload_claims(p) matches Some((_, e)) && now > e
            + EXPIRY_SKEW,
    ensures
        verified_cid(secret, token, now) is None,
{
}

} // verus!
