use myblog_api::auth::claims::{extract, ClaimSet, DecodedClaims, Principal};
use myblog_api::auth::json::{read_list, read_text, read_unsigned};
use myblog_api::auth::validate::{check_claims, is_unexpired, validate_claims, Check, Expected};
use serde_json::Value;

fn json(text: &str) -> Value {
    serde_json::from_str(text).unwrap()
}

fn expected() -> Expected {
    Expected { issuer: String::from("https://issuer.test/"), audience: String::from("blog-api") }
}

fn good_claims() -> Value {
    json(
        "{\"iss\":\"https://issuer.test/\",\"aud\":\"blog-api\",\"sub\":\"auth0|42\",\
         \"exp\":2000,\"permissions\":[\"read:posts\",\"write:comments\"],\"extra\":true}",
    )
}

#[test]
fn read_text_gives_the_member_not_the_key() {
    let v = json("{\"sub\":\"alice\",\"n\":1}");
    assert_eq!(Some(String::from("alice")), read_text(&v, "sub"));
    assert_eq!(None, read_text(&v, "n"));
    assert_eq!(None, read_text(&v, "missing"));
    assert_eq!(None, read_text(&json("[\"sub\"]"), "sub"));
    assert_eq!(None, read_text(&json("\"sub\""), "sub"));
}

#[test]
fn read_unsigned_takes_only_unsigned_integers() {
    let v = json("{\"a\":64,\"b\":-64,\"c\":256.0,\"d\":\"7\",\"e\":18446744073709551615}");
    assert_eq!(Some(64), read_unsigned(&v, "a"));
    assert_eq!(None, read_unsigned(&v, "b"));
    assert_eq!(None, read_unsigned(&v, "c"));
    assert_eq!(None, read_unsigned(&v, "d"));
    assert_eq!(Some(u64::MAX), read_unsigned(&v, "e"));
    assert_eq!(None, read_unsigned(&v, "f"));
}

#[test]
fn read_list_takes_arrays_of_strings() {
    let v = json("{\"p\":[\"a\",\"b\",\"a\"],\"q\":[\"a\",1],\"r\":\"solo\",\"s\":[],\"t\":{}}");
    assert_eq!(vec![String::from("a"), String::from("b"), String::from("a")], read_list(&v, "p", false));
    assert_eq!(Vec::<String>::new(), read_list(&v, "q", false));
    assert_eq!(Vec::<String>::new(), read_list(&v, "r", false));
    assert_eq!(vec![String::from("solo")], read_list(&v, "r", true));
    assert_eq!(vec![String::from("a"), String::from("b"), String::from("a")], read_list(&v, "p", true));
    assert_eq!(Vec::<String>::new(), read_list(&v, "s", true));
    assert_eq!(Vec::<String>::new(), read_list(&v, "t", true));
    assert_eq!(Vec::<String>::new(), read_list(&v, "missing", true));
}

#[test]
fn decode_reads_the_named_claims() {
    let d = DecodedClaims::decode(&good_claims());
    assert_eq!(Some(String::from("https://issuer.test/")), d.issuer);
    assert_eq!(vec![String::from("blog-api")], d.audience);
    assert_eq!(Some(String::from("auth0|42")), d.subject);
    assert_eq!(Some(2000), d.expires_at);
    assert_eq!(vec![String::from("read:posts"), String::from("write:comments")], d.permissions);
}

#[test]
fn decode_counts_ill_shaped_members_as_absent() {
    let d = DecodedClaims::decode(&json(
        "{\"iss\":1,\"aud\":{\"x\":1},\"sub\":null,\"exp\":\"soon\",\"permissions\":\"admin\"}",
    ));
    assert_eq!(None, d.issuer);
    assert!(d.audience.is_empty());
    assert_eq!(None, d.subject);
    assert_eq!(None, d.expires_at);
    assert!(d.permissions.is_empty());
}

#[test]
fn expiry_is_strict() {
    assert!(!is_unexpired(999, 1000, 0));
    assert!(!is_unexpired(1000, 1000, 0));
    assert!(is_unexpired(1001, 1000, 0));
    assert!(is_unexpired(4600, 1000, 0));
}

#[test]
fn expiry_moves_out_by_the_tolerance() {
    assert!(!is_unexpired(940, 1000, 60));
    assert!(is_unexpired(941, 1000, 60));
    assert!(is_unexpired(1000, 1000, 1));
    assert!(is_unexpired(u64::MAX, u64::MAX, 1));
    assert!(!is_unexpired(u64::MAX, u64::MAX, 0));
    assert!(is_unexpired(5, u64::MAX - 1, u64::MAX));
}

#[test]
fn checks_pass_on_good_claims() {
    let d = DecodedClaims::decode(&good_claims());
    assert_eq!(None, check_claims(&d, &expected(), 1999, 0));
}

#[test]
fn checks_name_the_first_failure() {
    let mut d = DecodedClaims::decode(&good_claims());
    assert_eq!(Some(Check::Expiry), check_claims(&d, &expected(), 2000, 0));
    d.expires_at = None;
    assert_eq!(Some(Check::Expiry), check_claims(&d, &expected(), 0, 0));
    d.subject = Some(String::new());
    assert_eq!(Some(Check::Subject), check_claims(&d, &expected(), 0, 0));
    d.subject = None;
    assert_eq!(Some(Check::Subject), check_claims(&d, &expected(), 0, 0));
    d.audience = vec![String::from("other-api")];
    assert_eq!(Some(Check::Audience), check_claims(&d, &expected(), 0, 0));
    d.audience = Vec::new();
    assert_eq!(Some(Check::Audience), check_claims(&d, &expected(), 0, 0));
    d.issuer = Some(String::from("https://issuer.test"));
    assert_eq!(Some(Check::Issuer), check_claims(&d, &expected(), 0, 0));
    d.issuer = None;
    assert_eq!(Some(Check::Issuer), check_claims(&d, &expected(), 0, 0));
}

#[test]
fn audience_may_be_one_of_several() {
    let v = json(
        "{\"iss\":\"https://issuer.test/\",\"aud\":[\"userinfo\",\"blog-api\"],\"sub\":\"u\",\"exp\":10}",
    );
    let claims = validate_claims(&v, &expected(), 9, 0).unwrap();
    assert_eq!(vec![String::from("userinfo"), String::from("blog-api")], claims.audience);
    let other = json(
        "{\"iss\":\"https://issuer.test/\",\"aud\":[\"userinfo\",\"shop-api\"],\"sub\":\"u\",\"exp\":10}",
    );
    assert!(validate_claims(&other, &expected(), 9, 0).is_err());
}

#[test]
fn validate_claims_makes_the_claim_set() {
    let claims = validate_claims(&good_claims(), &expected(), 1000, 0).unwrap();
    assert_eq!("auth0|42", claims.subject);
    assert_eq!("https://issuer.test/", claims.issuer);
    assert_eq!(vec![String::from("blog-api")], claims.audience);
    assert_eq!(2000, claims.expires_at);
    assert_eq!(vec![String::from("read:posts"), String::from("write:comments")], claims.permissions);
}

#[test]
fn validate_claims_rejects_what_a_check_fails() {
    assert!(validate_claims(&good_claims(), &expected(), 2000, 0).is_err());
    assert!(validate_claims(&good_claims(), &expected(), 2000, 1).is_ok());
    let other = Expected { issuer: String::from("https://issuer.test/"), audience: String::from("x") };
    assert!(validate_claims(&good_claims(), &other, 1000, 0).is_err());
    let other = Expected { issuer: String::from("x"), audience: String::from("blog-api") };
    assert!(validate_claims(&good_claims(), &other, 1000, 0).is_err());
    assert!(validate_claims(&json("{}"), &expected(), 0, 0).is_err());
    assert!(validate_claims(&json("[]"), &expected(), 0, 0).is_err());
}

#[test]
fn absent_permissions_are_no_permissions() {
    let v = json("{\"iss\":\"https://issuer.test/\",\"aud\":\"blog-api\",\"sub\":\"u\",\"exp\":10}");
    let claims = validate_claims(&v, &expected(), 1, 0).unwrap();
    assert!(claims.permissions.is_empty());
    let principal = extract(claims);
    assert_eq!(Principal { subject: String::from("u"), permissions: Vec::new() }, principal);
}

#[test]
fn extract_projects_subject_and_permissions() {
    let claims = ClaimSet {
        subject: String::from("alice"),
        issuer: String::from("i"),
        audience: vec![String::from("a")],
        expires_at: 1,
        permissions: vec![String::from("read:posts"), String::from("write:posts")],
    };
    let principal = extract(claims);
    assert_eq!("alice", principal.subject);
    assert_eq!(vec![String::from("read:posts"), String::from("write:posts")], principal.permissions);
    assert!(principal.has_permission("read:posts"));
    assert!(principal.has_permission("write:posts"));
    assert!(!principal.has_permission("read"));
    assert!(!principal.has_permission(""));
}
