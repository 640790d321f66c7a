use alcoholic_jwt::JWKS;
use myblog_api::auth::bearer::bearer_token;
use myblog_api::auth::claims::Principal;
use myblog_api::auth::clock::{now_seconds, seconds_of};
use myblog_api::auth::interceptor::{intercept, rejection_message, AuthError, Interceptor, Outcome};
use myblog_api::auth::keys::{KeySet, NotFound};
use myblog_api::auth::machine::{run, step, State};
use myblog_api::auth::token::{parse, read_algorithm, Malformed};
use myblog_api::auth::validate::{first_failed_check, validate, Check, Expected};
use openssl::hash::MessageDigest;
use openssl::pkey::{PKey, Private};
use openssl::rsa::Rsa;
use openssl::sign::Signer;
use std::time::{Duration, UNIX_EPOCH};

const ALPHABET: &[u8; 64] = b"ABCDEFGHIJKLMNOPQRSTUVWXYZabcdefghijklmnopqrstuvwxyz0123456789-_";

const ISSUER: &str = "https://issuer.test/";
const AUDIENCE: &str = "blog-api";
const NOW: u64 = 1_700_000_000;

fn b64url(data: &[u8]) -> String {
    let mut out = String::new();
    for chunk in data.chunks(3) {
        let b0: u32 = chunk[0] as u32;
        let b1: u32 = *chunk.get(1).unwrap_or(&0) as u32;
        let b2: u32 = *chunk.get(2).unwrap_or(&0) as u32;
        let n: u32 = (b0 << 16) | (b1 << 8) | b2;
        out.push(ALPHABET[((n >> 18) & 63) as usize] as char);
        out.push(ALPHABET[((n >> 12) & 63) as usize] as char);
        if chunk.len() > 1 {
            out.push(ALPHABET[((n >> 6) & 63) as usize] as char);
        }
        if chunk.len() > 2 {
            out.push(ALPHABET[(n & 63) as usize] as char);
        }
    }
    out
}

struct Signing {
    kid: String,
    key: PKey<Private>,
}

fn new_signing(kid: &str) -> Signing {
    let rsa = Rsa::generate(2048).unwrap();
    Signing { kid: String::from(kid), key: PKey::from_rsa(rsa).unwrap() }
}

fn jwk_json(signing: &Signing) -> String {
    let rsa = signing.key.rsa().unwrap();
    format!(
        "{{\"kty\":\"RSA\",\"alg\":\"RS256\",\"use\":\"sig\",\"kid\":\"{}\",\"n\":\"{}\",\"e\":\"{}\"}}",
        signing.kid,
        b64url(&rsa.n().to_vec()),
        b64url(&rsa.e().to_vec())
    )
}

fn jwks_of(signings: &[&Signing]) -> JWKS {
    let keys: Vec<String> = signings.iter().map(|s| jwk_json(s)).collect();
    serde_json::from_str(&format!("{{\"keys\":[{}]}}", keys.join(","))).unwrap()
}

fn sign_with_header(signing: &Signing, header: &str, claims: &str) -> String {
    let input = format!("{}.{}", b64url(header.as_bytes()), b64url(claims.as_bytes()));
    let mut signer = Signer::new(MessageDigest::sha256(), &signing.key).unwrap();
    signer.update(input.as_bytes()).unwrap();
    let signature = signer.sign_to_vec().unwrap();
    format!("{}.{}", input, b64url(&signature))
}

fn sign(signing: &Signing, claims: &str) -> String {
    let header = format!("{{\"alg\":\"RS256\",\"typ\":\"JWT\",\"kid\":\"{}\"}}", signing.kid);
    sign_with_header(signing, &header, claims)
}

fn claims(iss: &str, aud: &str, sub: &str, exp: u64, permissions: &[&str]) -> String {
    let quoted: Vec<String> = permissions.iter().map(|p| format!("\"{}\"", p)).collect();
    format!(
        "{{\"iss\":\"{}\",\"aud\":\"{}\",\"sub\":\"{}\",\"exp\":{},\"permissions\":[{}]}}",
        iss,
        aud,
        sub,
        exp,
        quoted.join(",")
    )
}

fn good_claims(exp: u64) -> String {
    claims(ISSUER, AUDIENCE, "auth0|alice", exp, &["read:posts", "write:comments"])
}

fn interceptor_for(signings: &[&Signing]) -> Interceptor {
    intercept(String::from(ISSUER), String::from(AUDIENCE), jwks_of(signings))
}

fn expected() -> Expected {
    Expected { issuer: String::from(ISSUER), audience: String::from(AUDIENCE) }
}

fn bearer(token: &str) -> String {
    format!("Bearer {}", token)
}

fn alice() -> Principal {
    Principal {
        subject: String::from("auth0|alice"),
        permissions: vec![String::from("read:posts"), String::from("write:comments")],
    }
}

#[test]
fn round_trip_gives_back_the_principal() {
    let signing = new_signing("k1");
    let interceptor = interceptor_for(&[&signing]);
    let token = sign(&signing, &good_claims(NOW + 60));
    assert_eq!(Ok(alice()), interceptor.authenticate(&token, NOW));
    assert_eq!(Outcome::Forward(Some(alice())), interceptor.decide_at(Some(&bearer(&token)), NOW));
}

#[test]
fn round_trip_keeps_order_and_repeats_of_permissions() {
    let signing = new_signing("k1");
    let interceptor = interceptor_for(&[&signing]);
    let token = sign(&signing, &claims(ISSUER, AUDIENCE, "bob", NOW + 1, &["b", "a", "b"]));
    let principal = interceptor.authenticate(&token, NOW).unwrap();
    assert_eq!("bob", principal.subject);
    assert_eq!(vec![String::from("b"), String::from("a"), String::from("b")], principal.permissions);
}

#[test]
fn round_trip_at_the_process_clock() {
    let signing = new_signing("k1");
    let interceptor = interceptor_for(&[&signing]);
    let now = now_seconds().unwrap();
    let token = sign(&signing, &good_claims(now + 3600));
    assert_eq!(Outcome::Forward(Some(alice())), interceptor.call(Some(&bearer(&token))));
}

#[test]
fn token_expired_a_second_ago_is_rejected() {
    let signing = new_signing("k1");
    let interceptor = interceptor_for(&[&signing]);
    let token = sign(&signing, &good_claims(NOW - 1));
    assert_eq!(Err(AuthError::Invalid), interceptor.authenticate(&token, NOW));
    assert_eq!(Outcome::Reject, interceptor.decide_at(Some(&bearer(&token)), NOW));
    let now = now_seconds().unwrap();
    let token = sign(&signing, &good_claims(now - 1));
    assert_eq!(Outcome::Reject, interceptor.call(Some(&bearer(&token))));
}

#[test]
fn token_expiring_in_an_hour_is_accepted() {
    let signing = new_signing("k1");
    let interceptor = interceptor_for(&[&signing]);
    let token = sign(&signing, &good_claims(NOW + 3600));
    assert_eq!(Outcome::Forward(Some(alice())), interceptor.decide_at(Some(&bearer(&token)), NOW));
}

#[test]
fn token_expiring_now_is_rejected() {
    let signing = new_signing("k1");
    let interceptor = interceptor_for(&[&signing]);
    let token = sign(&signing, &good_claims(NOW));
    assert_eq!(Err(AuthError::Invalid), interceptor.authenticate(&token, NOW));
    assert_eq!(Ok(alice()), interceptor.authenticate(&token, NOW - 1));
}

#[test]
fn clock_skew_tolerance_moves_the_expiry_out() {
    let signing = new_signing("k1");
    let interceptor = interceptor_for(&[&signing]);
    assert_eq!(0, interceptor.clock_skew_tolerance());
    let interceptor = interceptor.with_clock_skew_tolerance(30);
    assert_eq!(30, interceptor.clock_skew_tolerance());
    let token = sign(&signing, &good_claims(NOW));
    assert_eq!(Ok(alice()), interceptor.authenticate(&token, NOW + 29));
    assert_eq!(Err(AuthError::Invalid), interceptor.authenticate(&token, NOW + 30));
}

#[test]
fn unknown_key_is_rejected() {
    let known = new_signing("k1");
    let unknown = new_signing("k2");
    let interceptor = interceptor_for(&[&known]);
    let token = sign(&unknown, &good_claims(NOW + 60));
    assert_eq!(Err(AuthError::UnknownKey), interceptor.authenticate(&token, NOW));
    assert_eq!(Outcome::Reject, interceptor.decide_at(Some(&bearer(&token)), NOW));
}

#[test]
fn empty_key_set_rejects_every_token() {
    let signing = new_signing("k1");
    let interceptor = interceptor_for(&[]);
    let token = sign(&signing, &good_claims(NOW + 60));
    assert_eq!(Err(AuthError::UnknownKey), interceptor.authenticate(&token, NOW));
}

#[test]
fn lowercase_scheme_is_rejected() {
    let signing = new_signing("k1");
    let interceptor = interceptor_for(&[&signing]);
    let token = sign(&signing, &good_claims(NOW + 60));
    assert_eq!(Outcome::Reject, interceptor.decide_at(Some(&format!("bearer {}", token)), NOW));
    assert_eq!(Outcome::Reject, interceptor.decide_at(Some(&format!("BEARER {}", token)), NOW));
    assert_eq!(Outcome::Reject, interceptor.decide_at(Some(&token), NOW));
    assert_eq!(
        Outcome::Forward(Some(alice())),
        interceptor.decide_at(Some(&format!("Bearer {}", token)), NOW)
    );
}

#[test]
fn missing_header_is_forwarded_without_principal() {
    let signing = new_signing("k1");
    let interceptor = interceptor_for(&[&signing]);
    assert_eq!(Outcome::Forward(None), interceptor.decide_at(None, NOW));
    assert_eq!(Outcome::Forward(None), interceptor.call(None));
}

#[test]
fn empty_header_is_rejected() {
    let signing = new_signing("k1");
    let interceptor = interceptor_for(&[&signing]);
    assert_eq!(Outcome::Reject, interceptor.decide_at(Some(""), NOW));
    assert_eq!(Outcome::Reject, interceptor.decide_at(Some("Bearer"), NOW));
    assert_eq!(Outcome::Reject, interceptor.decide_at(Some("Bearer "), NOW));
    assert_eq!(Outcome::Reject, interceptor.call(Some("")));
}

#[test]
fn wrong_audience_is_rejected() {
    let signing = new_signing("k1");
    let interceptor = interceptor_for(&[&signing]);
    let token = sign(&signing, &claims(ISSUER, "shop-api", "auth0|alice", NOW + 60, &[]));
    assert_eq!(Err(AuthError::Invalid), interceptor.authenticate(&token, NOW));
    assert_eq!(Outcome::Reject, interceptor.decide_at(Some(&bearer(&token)), NOW));
}

#[test]
fn wrong_issuer_is_rejected() {
    let signing = new_signing("k1");
    let interceptor = interceptor_for(&[&signing]);
    let token = sign(&signing, &claims("https://issuer.test", AUDIENCE, "auth0|alice", NOW + 60, &[]));
    assert_eq!(Err(AuthError::Invalid), interceptor.authenticate(&token, NOW));
    assert_eq!(Outcome::Reject, interceptor.decide_at(Some(&bearer(&token)), NOW));
}

#[test]
fn empty_or_missing_subject_is_rejected() {
    let signing = new_signing("k1");
    let interceptor = interceptor_for(&[&signing]);
    let token = sign(&signing, &claims(ISSUER, AUDIENCE, "", NOW + 60, &[]));
    assert_eq!(Err(AuthError::Invalid), interceptor.authenticate(&token, NOW));
    let no_subject = format!("{{\"iss\":\"{}\",\"aud\":\"{}\",\"exp\":{}}}", ISSUER, AUDIENCE, NOW + 60);
    let token = sign(&signing, &no_subject);
    assert_eq!(Err(AuthError::Invalid), interceptor.authenticate(&token, NOW));
}

#[test]
fn missing_expiry_is_rejected() {
    let signing = new_signing("k1");
    let interceptor = interceptor_for(&[&signing]);
    let no_expiry = format!("{{\"iss\":\"{}\",\"aud\":\"{}\",\"sub\":\"u\"}}", ISSUER, AUDIENCE);
    let token = sign(&signing, &no_expiry);
    assert_eq!(Err(AuthError::Invalid), interceptor.authenticate(&token, 0));
}

#[test]
fn missing_permissions_give_a_principal_without_any() {
    let signing = new_signing("k1");
    let interceptor = interceptor_for(&[&signing]);
    let bare = format!(
        "{{\"iss\":\"{}\",\"aud\":\"{}\",\"sub\":\"u\",\"exp\":{}}}",
        ISSUER,
        AUDIENCE,
        NOW + 60
    );
    let token = sign(&signing, &bare);
    assert_eq!(
        Ok(Principal { subject: String::from("u"), permissions: Vec::new() }),
        interceptor.authenticate(&token, NOW)
    );
}

#[test]
fn tampered_claims_are_rejected() {
    let signing = new_signing("k1");
    let interceptor = interceptor_for(&[&signing]);
    let token = sign(&signing, &good_claims(NOW + 60));
    let parts: Vec<&str> = token.split('.').collect();
    let forged_claims = claims(ISSUER, AUDIENCE, "auth0|mallory", NOW + 60, &["admin"]);
    let forged = format!("{}.{}.{}", parts[0], b64url(forged_claims.as_bytes()), parts[2]);
    assert_eq!(Err(AuthError::Invalid), interceptor.authenticate(&forged, NOW));
    assert_eq!(Outcome::Reject, interceptor.decide_at(Some(&bearer(&forged)), NOW));
}

#[test]
fn key_of_the_same_name_but_other_material_is_rejected() {
    let published = new_signing("k1");
    let impostor = new_signing("k1");
    let interceptor = interceptor_for(&[&published]);
    let token = sign(&impostor, &good_claims(NOW + 60));
    assert_eq!(Err(AuthError::Invalid), interceptor.authenticate(&token, NOW));
}

#[test]
fn header_algorithm_is_not_trusted() {
    let signing = new_signing("k1");
    let interceptor = interceptor_for(&[&signing]);
    let token = sign(&signing, &good_claims(NOW + 60));
    let parts: Vec<&str> = token.split('.').collect();
    let header = "{\"alg\":\"none\",\"typ\":\"JWT\",\"kid\":\"k1\"}";
    let unsigned = format!("{}.{}.", b64url(header.as_bytes()), parts[1]);
    assert_eq!(Err(AuthError::Invalid), interceptor.authenticate(&unsigned, NOW));
}

#[test]
fn malformed_tokens_are_rejected() {
    let signing = new_signing("k1");
    let interceptor = interceptor_for(&[&signing]);
    let token = sign(&signing, &good_claims(NOW + 60));
    let parts: Vec<&str> = token.split('.').collect();
    assert_eq!(Err(AuthError::Malformed), interceptor.authenticate("", NOW));
    assert_eq!(Err(AuthError::Malformed), interceptor.authenticate("abc", NOW));
    assert_eq!(Err(AuthError::Malformed), interceptor.authenticate("a.b.c", NOW));
    let two = format!("{}.{}", parts[0], parts[1]);
    assert_eq!(Err(AuthError::Malformed), interceptor.authenticate(&two, NOW));
    let four = format!("{}.extra", token);
    assert_eq!(Err(AuthError::Malformed), interceptor.authenticate(&four, NOW));
    assert_eq!(Outcome::Reject, interceptor.decide_at(Some("Bearer a.b.c"), NOW));
    assert_eq!(Outcome::Reject, interceptor.decide_at(Some(&bearer(&four)), NOW));
}

#[test]
fn parse_splits_the_three_segments() {
    let signing = new_signing("key-7");
    let token = sign(&signing, &good_claims(NOW));
    let parts: Vec<&str> = token.split('.').collect();
    let parsed = parse(&token).unwrap();
    assert_eq!("key-7", parsed.kid);
    assert_eq!(Some(String::from("RS256")), parsed.algorithm);
    assert_eq!(parts[0], parsed.header);
    assert_eq!(parts[1], parsed.claims);
    assert_eq!(parts[2], parsed.signature);
    assert_eq!(format!("{}.{}", parts[0], parts[1]), parsed.signing_input());
    assert_eq!(token, parsed.compact());
}

#[test]
fn parse_wants_exactly_two_dots() {
    let header = b64url(b"{\"alg\":\"RS256\",\"kid\":\"k\"}");
    assert_eq!(Err(Malformed), parse(&header));
    assert_eq!(Err(Malformed), parse(&format!("{}.", header)));
    assert_eq!(Err(Malformed), parse(&format!("{}.x", header)));
    assert!(parse(&format!("{}..", header)).is_ok());
    assert!(parse(&format!("{}.x.y", header)).is_ok());
    assert_eq!(Err(Malformed), parse(&format!("{}.x.y.", header)));
    assert_eq!(Err(Malformed), parse(&format!("{}.x.y.z", header)));
    assert_eq!(Err(Malformed), parse(".."));
    assert_eq!(Err(Malformed), parse(""));
}

#[test]
fn parse_wants_a_header_that_decodes_and_names_a_key() {
    let no_kid = b64url(b"{\"alg\":\"RS256\"}");
    assert_eq!(Err(Malformed), parse(&format!("{}.x.y", no_kid)));
    let not_json = b64url(b"not json");
    assert_eq!(Err(Malformed), parse(&format!("{}.x.y", not_json)));
    assert_eq!(Err(Malformed), parse("!!!.x.y"));
    let header = b64url(b"{\"kid\":\"k\"}");
    assert_eq!(Err(Malformed), parse(&format!("{}.x.\u{e9}", header)));
    assert_eq!("k", parse(&format!("{}.x.y", header)).unwrap().kid);
}

#[test]
fn bearer_token_is_the_second_word() {
    assert_eq!(Some("abc"), bearer_token("Bearer abc"));
    assert_eq!(Some("a.b.c"), bearer_token("Bearer a.b.c"));
    assert_eq!(Some("abc"), bearer_token("  Bearer \t abc  "));
    assert_eq!(Some("abc"), bearer_token("Bearer abc def"));
    assert_eq!(Some("B"), bearer_token("Bearer B"));
}

#[test]
fn bearer_scheme_is_spelled_exactly() {
    assert_eq!(None, bearer_token("bearer abc"));
    assert_eq!(None, bearer_token("BEARER abc"));
    assert_eq!(None, bearer_token("Bearerabc"));
    assert_eq!(None, bearer_token("Bearer"));
    assert_eq!(None, bearer_token("Bearer   "));
    assert_eq!(None, bearer_token("Basic abc"));
    assert_eq!(None, bearer_token("Bear abc"));
    assert_eq!(None, bearer_token("Bearers abc"));
    assert_eq!(None, bearer_token("abc"));
    assert_eq!(None, bearer_token(""));
    assert_eq!(None, bearer_token("Bearer t\u{f6}ken"));
}

#[test]
fn resolve_finds_the_key_by_its_identifier() {
    let first = new_signing("k1");
    let second = new_signing("k2");
    let keys = KeySet::new(jwks_of(&[&first, &second]));
    assert_eq!(Some("k1"), keys.resolve("k1").unwrap().kid());
    assert_eq!(Some("k2"), keys.resolve("k2").unwrap().kid());
    assert_eq!(Some(NotFound), keys.resolve("k3").err());
    assert_eq!(Some(NotFound), keys.resolve("").err());
    assert_eq!(Some(NotFound), keys.resolve("K1").err());
}

#[test]
fn resolve_takes_the_first_of_two_keys_with_one_identifier() {
    let first = new_signing("k1");
    let second = new_signing("k1");
    let interceptor = interceptor_for(&[&first, &second]);
    let by_first = sign(&first, &good_claims(NOW + 60));
    let by_second = sign(&second, &good_claims(NOW + 60));
    assert_eq!(Ok(alice()), interceptor.authenticate(&by_first, NOW));
    assert_eq!(Err(AuthError::Invalid), interceptor.authenticate(&by_second, NOW));
}

#[test]
fn validate_gives_the_claim_set() {
    let signing = new_signing("k1");
    let jwks = jwks_of(&[&signing]);
    let key = jwks.find("k1").unwrap();
    let token = parse(&sign(&signing, &good_claims(NOW + 60))).unwrap();
    let set = validate(&token, key, &expected(), NOW, 0).unwrap();
    assert_eq!("auth0|alice", set.subject);
    assert_eq!(ISSUER, set.issuer);
    assert_eq!(vec![String::from(AUDIENCE)], set.audience);
    assert_eq!(NOW + 60, set.expires_at);
    assert_eq!(vec![String::from("read:posts"), String::from("write:comments")], set.permissions);
    assert!(validate(&token, key, &expected(), NOW + 60, 0).is_err());
}

#[test]
fn checks_fail_in_their_order() {
    let signing = new_signing("k1");
    let other = new_signing("k1");
    let jwks = jwks_of(&[&signing]);
    let key = jwks.find("k1").unwrap();
    let good = parse(&sign(&signing, &good_claims(NOW + 60))).unwrap();
    assert_eq!(None, first_failed_check(&good, key, &expected(), NOW, 0));
    assert_eq!(Some(Check::Expiry), first_failed_check(&good, key, &expected(), NOW + 60, 0));
    let all_wrong = claims("elsewhere", "shop-api", "", NOW - 1, &[]);
    let unsigned = parse(&sign(&other, &all_wrong)).unwrap();
    assert_eq!(Some(Check::Signature), first_failed_check(&unsigned, key, &expected(), NOW, 0));
    let signed = parse(&sign(&signing, &all_wrong)).unwrap();
    assert_eq!(Some(Check::Issuer), first_failed_check(&signed, key, &expected(), NOW, 0));
    let wrong_audience = claims(ISSUER, "shop-api", "", NOW - 1, &[]);
    let signed = parse(&sign(&signing, &wrong_audience)).unwrap();
    assert_eq!(Some(Check::Audience), first_failed_check(&signed, key, &expected(), NOW, 0));
    let no_subject = claims(ISSUER, AUDIENCE, "", NOW - 1, &[]);
    let signed = parse(&sign(&signing, &no_subject)).unwrap();
    assert_eq!(Some(Check::Subject), first_failed_check(&signed, key, &expected(), NOW, 0));
}

#[test]
fn rejection_says_no_more_than_unauthorized() {
    assert_eq!("unauthorized", rejection_message());
}

#[test]
fn the_clock_reads_seconds_since_the_epoch() {
    let first = now_seconds().unwrap();
    let second = now_seconds().unwrap();
    assert!(first > 1_600_000_000);
    assert!(second >= first);
    assert!(second - first < 60);
}

#[test]
fn parse_tells_the_declared_algorithm() {
    let none = b64url(b"{\"alg\":\"none\",\"kid\":\"k\"}");
    assert_eq!(Some(String::from("none")), parse(&format!("{}.x.y", none)).unwrap().algorithm);
    let silent = b64url(b"{\"kid\":\"k\"}");
    assert_eq!(None, parse(&format!("{}.x.y", silent)).unwrap().algorithm);
    let odd = b64url(b"{\"alg\":256,\"kid\":\"k\"}");
    assert_eq!(None, parse(&format!("{}.x.y", odd)).unwrap().algorithm);
}

#[test]
fn read_algorithm_decodes_the_header_segment() {
    assert_eq!(Some(String::from("ES256")), read_algorithm(&b64url(b"{\"alg\":\"ES256\"}")));
    assert_eq!(Some(String::from("RS256")), read_algorithm("eyJhbGciOiJSUzI1NiJ9"));
    assert_eq!(Some(String::from("HS256")), read_algorithm("eyJhbGciOiJIUzI1NiIsInR5cCI6IkpXVCJ9"));
    assert_eq!(None, read_algorithm("not base64url!"));
    assert_eq!(None, read_algorithm(&b64url(b"not json")));
    assert_eq!(None, read_algorithm(&b64url(b"[\"alg\"]")));
    assert_eq!(None, read_algorithm(""));
}

#[test]
fn copies_of_the_interceptor_decide_alike() {
    let signing = new_signing("k1");
    let interceptor = interceptor_for(&[&signing]).with_clock_skew_tolerance(5);
    let copy = interceptor.clone();
    assert_eq!(5, copy.clock_skew_tolerance());
    let token = sign(&signing, &good_claims(NOW));
    for now in [NOW - 1, NOW + 4, NOW + 5] {
        let header = bearer(&token);
        assert_eq!(interceptor.decide_at(Some(&header), now), copy.decide_at(Some(&header), now));
    }
    assert_eq!(Outcome::Forward(Some(alice())), copy.decide_at(Some(&bearer(&token)), NOW + 4));
    assert_eq!(Outcome::Reject, copy.decide_at(Some(&bearer(&token)), NOW + 5));
    let keys = KeySet::new(jwks_of(&[&signing]));
    let shared = keys.clone();
    assert_eq!(Some("k1"), shared.resolve("k1").unwrap().kid());
    assert_eq!(Some(NotFound), shared.resolve("k2").err());
}

#[test]
fn a_good_call_passes_through_every_state() {
    let signing = new_signing("k1");
    let keys = KeySet::new(jwks_of(&[&signing]));
    let header = bearer(&sign(&signing, &good_claims(NOW + 60)));
    let state = State::Start { header: Some(&header) };
    assert!(!state.is_final());
    let state = step(&expected(), &keys, 0, NOW, state);
    assert!(matches!(state, State::HeaderRead { header: Some(h) } if h == header));
    let state = step(&expected(), &keys, 0, NOW, state);
    assert!(matches!(state, State::HeaderPresent { value } if value == header));
    let state = step(&expected(), &keys, 0, NOW, state);
    assert!(matches!(state, State::TokenExtracted { raw } if raw == &header[7..]));
    let state = step(&expected(), &keys, 0, NOW, state);
    assert!(matches!(&state, State::Parsed { token } if token.kid == "k1"));
    let state = step(&expected(), &keys, 0, NOW, state);
    assert!(matches!(&state, State::KeyResolved { key, .. } if key.kid() == Some("k1")));
    let state = step(&expected(), &keys, 0, NOW, state);
    assert!(matches!(&state, State::Validated { claims } if claims.subject == "auth0|alice"));
    let state = step(&expected(), &keys, 0, NOW, state);
    assert!(matches!(&state, State::ContextAttached { principal } if *principal == alice()));
    assert!(!state.is_final());
    let state = step(&expected(), &keys, 0, NOW, state);
    assert!(matches!(&state, State::Forward { caller: Some(p) } if *p == alice()));
    assert!(state.is_final());
    let state = step(&expected(), &keys, 0, NOW, state);
    assert!(matches!(&state, State::Forward { caller: Some(p) } if *p == alice()));
}

#[test]
fn a_call_without_header_goes_straight_on() {
    let keys = KeySet::new(jwks_of(&[]));
    let state = step(&expected(), &keys, 0, NOW, State::Start { header: None });
    assert!(matches!(state, State::HeaderRead { header: None }));
    let state = step(&expected(), &keys, 0, NOW, state);
    assert!(matches!(state, State::NoHeader));
    let state = step(&expected(), &keys, 0, NOW, state);
    assert!(matches!(state, State::Forward { caller: None }));
    let end = run(&expected(), &keys, 0, NOW, State::Start { header: None });
    assert!(matches!(end, State::Forward { caller: None }));
}

#[test]
fn every_step_that_can_fail_leads_to_the_rejection() {
    let signing = new_signing("k1");
    let stranger = new_signing("k2");
    let keys = KeySet::new(jwks_of(&[&signing]));
    let state = step(&expected(), &keys, 0, NOW, State::HeaderPresent { value: "bearer x" });
    assert!(matches!(state, State::Reject));
    let state = step(&expected(), &keys, 0, NOW, State::TokenExtracted { raw: "a.b" });
    assert!(matches!(state, State::Reject));
    let unknown = parse(&sign(&stranger, &good_claims(NOW + 60))).unwrap();
    let state = step(&expected(), &keys, 0, NOW, State::Parsed { token: unknown });
    assert!(matches!(state, State::Reject));
    let jwks = jwks_of(&[&signing]);
    let key = jwks.find("k1").unwrap();
    let expired = parse(&sign(&signing, &good_claims(NOW))).unwrap();
    let state = step(&expected(), &keys, 0, NOW, State::KeyResolved { token: expired, key });
    assert!(matches!(state, State::Reject));
    assert!(State::Reject.is_final());
    let state = step(&expected(), &keys, 0, NOW, State::Reject);
    assert!(matches!(state, State::Reject));
}

#[test]
fn run_takes_a_call_to_its_end() {
    let signing = new_signing("k1");
    let keys = KeySet::new(jwks_of(&[&signing]));
    let header = bearer(&sign(&signing, &good_claims(NOW + 60)));
    let end = run(&expected(), &keys, 0, NOW, State::Start { header: Some(&header) });
    assert!(matches!(&end, State::Forward { caller: Some(p) } if *p == alice()));
    let end = run(&expected(), &keys, 0, NOW + 60, State::Start { header: Some(&header) });
    assert!(matches!(end, State::Reject));
    let end = run(&expected(), &keys, 0, NOW, State::TokenExtracted { raw: &header[7..] });
    assert!(matches!(&end, State::Forward { caller: Some(p) } if *p == alice()));
    let end = run(&expected(), &keys, 0, NOW, State::Start { header: Some("Basic abc") });
    assert!(matches!(end, State::Reject));
}

#[test]
fn a_measurement_comes_to_its_whole_seconds() {
    assert_eq!(Some(0), seconds_of(Ok(Duration::from_secs(0))));
    assert_eq!(Some(1), seconds_of(Ok(Duration::from_millis(1_999))));
    assert_eq!(Some(1_700_000_000), seconds_of(Ok(Duration::new(1_700_000_000, 999_999_999))));
    assert_eq!(Some(u64::MAX), seconds_of(Ok(Duration::from_secs(u64::MAX))));
    let later = UNIX_EPOCH + Duration::from_secs(5);
    assert_eq!(Some(5), seconds_of(later.duration_since(UNIX_EPOCH)));
    assert_eq!(None, seconds_of(UNIX_EPOCH.duration_since(later)));
}
