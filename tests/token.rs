use biscuit::jwa::SignatureAlgorithm;
use biscuit::jws::{RegisteredHeader, Secret};
use std::collections::BTreeMap;
use webchannel::auth::{AuthError, Claims};
use webchannel::jwt::Jwt;

const NOW: i64 = 1_700_000_000;

fn issue(jwt: &Jwt, cid: &str, expiry: i64) -> String {
    jwt.encode(Claims { cid: cid.to_string() }, expiry).expect("signing succeeds")
}

#[test]
fn issued_token_verifies_with_its_channel() {
    let jwt = Jwt::new("moo");
    let token = issue(&jwt, "foo", NOW + 3600);
    let claims = jwt.decode(&token, NOW).unwrap();
    assert_eq!(claims.cid, "foo");
}

#[test]
fn issued_token_verifies_against_the_clock() {
    let jwt = Jwt::new("moo");
    let now = chrono::Utc::now().timestamp();
    let token = issue(&jwt, "chan-1", now + 60);
    assert_eq!(jwt.verify(&token).unwrap().cid, "chan-1");
}

#[test]
fn token_is_accepted_within_the_skew_allowance() {
    let jwt = Jwt::new("moo");
    let token = issue(&jwt, "foo", NOW);
    assert!(jwt.decode(&token, NOW + 2).is_ok());
}

#[test]
fn token_is_refused_past_expiry_and_skew() {
    let jwt = Jwt::new("moo");
    let token = issue(&jwt, "foo", NOW);
    assert!(matches!(jwt.decode(&token, NOW + 3), Err(AuthError::InvalidCredentials)));
}

#[test]
fn token_with_altered_signature_byte_is_refused() {
    let jwt = Jwt::new("moo");
    let token = issue(&jwt, "foo", NOW + 3600);
    let sig_start = token.rfind('.').unwrap() + 1;
    for i in sig_start..token.len() {
        let mut bytes = token.clone().into_bytes();
        bytes[i] = if bytes[i] == b'A' { b'B' } else { b'A' };
        let altered = String::from_utf8(bytes).unwrap();
        assert!(jwt.decode(&altered, NOW).is_err(), "byte {} altered", i);
    }
}

#[test]
fn token_signed_with_another_secret_is_refused() {
    let token = issue(&Jwt::new("other"), "foo", NOW + 3600);
    assert!(Jwt::new("moo").decode(&token, NOW).is_err());
}

#[test]
fn garbage_token_is_refused() {
    let jwt = Jwt::new("moo");
    assert!(jwt.decode("", NOW).is_err());
    assert!(jwt.decode("not.a.token", NOW).is_err());
}

#[test]
fn token_has_three_parts() {
    let token = issue(&Jwt::new("moo"), "foo", NOW + 1);
    assert_eq!(token.split('.').count(), 3);
}

#[test]
fn token_without_expiry_is_refused() {
    let mut private = BTreeMap::new();
    private.insert("cid".to_string(), "foo".to_string());
    let claims = biscuit::ClaimsSet { registered: biscuit::RegisteredClaims::default(), private };
    let header = RegisteredHeader { algorithm: SignatureAlgorithm::HS256, ..Default::default() };
    let jwt = biscuit::JWT::<BTreeMap<String, String>, biscuit::Empty>::new_decoded(From::from(header), claims);
    let token = jwt.into_encoded(&Secret::bytes_from_str("moo")).unwrap().unwrap_encoded().to_string();
    assert!(Jwt::new("moo").decode(&token, NOW).is_err());
}

#[test]
fn signed_token_with_huge_expiry_does_not_panic() {
    let header = RegisteredHeader { algorithm: SignatureAlgorithm::HS256, ..Default::default() };
    let payload = br#"{"exp":9223372036854775807,"cid":"foo"}"#.to_vec();
    let jws = biscuit::jws::Compact::<Vec<u8>, biscuit::Empty>::new_decoded(From::from(header), payload);
    let token = jws.into_encoded(&Secret::bytes_from_str("moo")).unwrap().unwrap_encoded().to_string();
    let claims = Jwt::new("moo").decode(&token, NOW).unwrap();
    assert_eq!(claims.cid, "foo");
}

#[test]
fn equal_inputs_sign_alike() {
    let a = Jwt::new("moo").encode(Claims { cid: "foo".to_string() }, NOW).unwrap();
    let b = Jwt::new("moo").encode(Claims { cid: "foo".to_string() }, NOW).unwrap();
    assert_eq!(a, b);
}
