use judge_auth::token::{
    decode_jwt, decode_jwt_at, encode_jwt_at, generate_jwt_access_token,
    generate_jwt_refresh_token, DecodeError, SECONDS_IN_1_WEEK, SECONDS_IN_20_MINUTES,
};

fn now_unix_seconds() -> u64 {
    std::time::SystemTime::now()
        .duration_since(std::time::UNIX_EPOCH)
        .map(|d| d.as_secs())
        .unwrap_or(0)
}

const KEY: &str = "test-signing-key";

#[test]
fn round_trip_returns_claims_unchanged() {
    let now: u64 = 1_000_000;
    let token = encode_jwt_at(KEY, "alice", SECONDS_IN_20_MINUTES, false, now);
    let claims = decode_jwt_at(KEY, &token, now).unwrap();
    assert_eq!(claims.sub, "alice");
    assert!(!claims.refresh);
    assert_eq!(claims.exp, now + SECONDS_IN_20_MINUTES);

    let refresh_token = encode_jwt_at(KEY, "alice", SECONDS_IN_1_WEEK, true, now);
    let claims = decode_jwt_at(KEY, &refresh_token, now).unwrap();
    assert_eq!(claims.sub, "alice");
    assert!(claims.refresh);
    assert_eq!(claims.exp, now + SECONDS_IN_1_WEEK);
}

#[test]
fn decode_with_other_key_is_signature_error() {
    let now: u64 = 1_000_000;
    let token = encode_jwt_at(KEY, "alice", SECONDS_IN_20_MINUTES, false, now);
    let r = decode_jwt_at("another-key", &token, now);
    assert_eq!(r.unwrap_err(), DecodeError::InvalidSignature);
}

#[test]
fn zero_ttl_token_expires_at_issuance() {
    let now: u64 = 1_000_000;
    let token = encode_jwt_at(KEY, "alice", 0, false, now);
    // Exactly at the expiry instant counts as expired.
    assert_eq!(decode_jwt_at(KEY, &token, now).unwrap_err(), DecodeError::Expired);
    assert_eq!(decode_jwt_at(KEY, &token, now + 1).unwrap_err(), DecodeError::Expired);
    // The instant before, it is still alive.
    assert!(decode_jwt_at(KEY, &token, now - 1).is_ok());
}

#[test]
fn garbage_token_is_malformed() {
    let now: u64 = 1_000_000;
    assert_eq!(decode_jwt_at(KEY, "not-a-token", now).unwrap_err(), DecodeError::Malformed);
    assert_eq!(decode_jwt_at(KEY, "", now).unwrap_err(), DecodeError::Malformed);
    assert_eq!(decode_jwt_at(KEY, "a.b.c", now).unwrap_err(), DecodeError::Malformed);
}

#[test]
fn decoding_is_deterministic_in_key_and_token() {
    let now: u64 = 1_000_000;
    let token = encode_jwt_at(KEY, "alice", SECONDS_IN_20_MINUTES, false, now);

    let a = decode_jwt_at(KEY, &token, now).unwrap();
    let b = decode_jwt_at(KEY, &token, now).unwrap();
    assert_eq!((a.exp, a.sub, a.refresh), (b.exp, b.sub, b.refresh));

    // Foreign strings fail the same way on every call.
    assert_eq!(
        decode_jwt_at(KEY, "x.y.z", now).unwrap_err(),
        decode_jwt_at(KEY, "x.y.z", now).unwrap_err()
    );
    assert_eq!(
        decode_jwt_at("another-key", &token, now).unwrap_err(),
        decode_jwt_at("another-key", &token, now).unwrap_err()
    );
}

#[test]
fn issued_access_token_is_fresh_and_access_class() {
    let before = now_unix_seconds();
    let token = generate_jwt_access_token(KEY, "bob");
    let after = now_unix_seconds();
    assert!(!token.is_empty());
    let claims = decode_jwt(KEY, &token).unwrap();
    assert_eq!(claims.sub, "bob");
    assert!(!claims.refresh);
    assert!(claims.exp >= before + SECONDS_IN_20_MINUTES);
    assert!(claims.exp <= after + SECONDS_IN_20_MINUTES);
}

#[test]
fn issued_refresh_token_is_refresh_class() {
    let before = now_unix_seconds();
    let token = generate_jwt_refresh_token(KEY, "bob");
    let after = now_unix_seconds();
    assert!(!token.is_empty());
    let claims = decode_jwt(KEY, &token).unwrap();
    assert_eq!(claims.sub, "bob");
    assert!(claims.refresh);
    assert!(claims.exp >= before + SECONDS_IN_1_WEEK);
    assert!(claims.exp <= after + SECONDS_IN_1_WEEK);
}
