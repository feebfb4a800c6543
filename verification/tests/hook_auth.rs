use rifling::Delivery;
use rifling::Headers;
use rifling::Hook;
use rifling::HookFunc;

use hmac::Hmac;
use hmac::KeyInit;
use hmac::Mac;
use sha1::Sha1;

type HmacSha1 = Hmac<Sha1>;

struct Quiet;

impl HookFunc for Quiet {
    fn run(&self, _delivery: &Delivery) {}
}

/// Test GitHub payload authentication with `ring`: Valid signature
#[test]
fn payload_authentication_github_ring() {
    let secret = String::from("secret");
    let hook = Hook::new("*", Some(secret.clone()), Quiet);
    let payload = String::from(r#"{"zen": "Bazinga!"}"#);
    let request_body = payload.clone();
    let secret_bytes = secret.as_bytes();
    let request_bytes = request_body.as_bytes();
    let key = ring::hmac::Key::new(ring::hmac::HMAC_SHA1_FOR_LEGACY_USE_ONLY, secret_bytes);
    let signature = hex::encode(ring::hmac::sign(&key, request_bytes).as_ref());
    let signature_field = format!("sha1={}", signature);
    let mut headers = Headers::new();
    headers.insert("X-Github-Event".to_string(), "push".to_string());
    headers.insert("X-Hub-Signature".to_string(), signature_field);
    let delivery = Delivery::new(headers, Some(request_body));
    assert!(hook.auth(&delivery.unwrap()));
}

/// Test GitHub payload authentication with crates from RustCrypto team: Valid signature
#[test]
fn payload_authentication_github_rustcrypto() {
    let secret = String::from("secret");
    let hook = Hook::new("*", Some(secret.clone()), Quiet);
    let payload = String::from(r#"{"zen": "Bazinga!"}"#);
    let request_body = payload.clone();
    let secret_bytes = secret.as_bytes();
    let request_bytes = request_body.as_bytes();
    let mut mac = HmacSha1::new_from_slice(secret_bytes).expect("Invalid key");
    mac.update(request_bytes);
    let signature = hex::encode(mac.finalize().into_bytes());
    let signature_field = format!("sha1={}", signature);
    let mut headers = Headers::new();
    headers.insert("X-Github-Event".to_string(), "push".to_string());
    headers.insert("X-Hub-Signature".to_string(), signature_field);
    let delivery = Delivery::new(headers, Some(request_body));
    assert!(hook.auth(&delivery.unwrap()));
}

/// Test GitHub payload authentication: Invalid signature
#[test]
fn payload_authentication_github_fail() {
    let secret = String::from("secret");
    let hook = Hook::new("*", Some(secret.clone()), Quiet);
    let payload = String::from(r#"{"zen": "Another test!"}"#);
    let request_body = payload.clone();
    let signature_field = String::from("sha1=ec760ee6d10bf638089f078b5a0c23f6575821e7");
    let mut headers = Headers::new();
    headers.insert("X-Github-Event".to_string(), "push".to_string());
    headers.insert("X-Hub-Signature".to_string(), signature_field);
    let delivery = Delivery::new(headers, Some(request_body));
    assert_eq!(hook.auth(&delivery.unwrap()), false);
}

/// Test GitLab payload authentication: Valid token
#[test]
fn payload_authentication_gitlab() {
    let secret = String::from("secret");
    let hook = Hook::new("*", Some(secret), Quiet);
    let mut headers = Headers::new();
    headers.insert("X-Gitlab-Event".to_string(), "push".to_string());
    headers.insert("X-Gitlab-Token".to_string(), "secret".to_string());
    let delivery = Delivery::new(headers, None);
    assert!(hook.auth(&delivery.unwrap()));
}

/// Test GitLab payload authentication: Invalid token
#[test]
fn payload_authentication_gitlab_fail() {
    let secret = String::from("secret");
    let hook = Hook::new("*", Some(String::from("AnotherSecret")), Quiet);
    let mut headers = Headers::new();
    headers.insert("X-Gitlab-Event".to_string(), "push".to_string());
    headers.insert("X-Gitlab-Token".to_string(), secret);
    let delivery = Delivery::new(headers, None);
    assert_eq!(hook.auth(&delivery.unwrap()), false);
}

/// Flipping one body byte invalidates a previously valid GitHub signature.
#[test]
fn github_signature_fails_on_flipped_body() {
    let secret = String::from("secret");
    let hook = Hook::new("*", Some(secret.clone()), Quiet);
    let payload = String::from(r#"{"zen":"Bazinga!"}"#);
    let key = ring::hmac::Key::new(ring::hmac::HMAC_SHA1_FOR_LEGACY_USE_ONLY, secret.as_bytes());
    let signature = hex::encode(ring::hmac::sign(&key, payload.as_bytes()).as_ref());
    let signature_field = format!("sha1={}", signature);
    let flipped = String::from(r#"{"zen":"Bazingb!"}"#);
    let mut headers = Headers::new();
    headers.insert("X-Github-Event".to_string(), "push".to_string());
    headers.insert("X-Hub-Signature".to_string(), signature_field);
    let delivery = Delivery::new(headers, Some(flipped));
    assert_eq!(hook.auth(&delivery.unwrap()), false);
}

/// The GitLab token comparison is case-sensitive.
#[test]
fn gitlab_token_comparison_is_case_sensitive() {
    let hook = Hook::new("*", Some(String::from("secret")), Quiet);
    let mut headers = Headers::new();
    headers.insert("X-Gitlab-Event".to_string(), "push".to_string());
    headers.insert("X-Gitlab-Token".to_string(), "Secret".to_string());
    let delivery = Delivery::new(headers, None);
    assert_eq!(hook.auth(&delivery.unwrap()), false);
}

/// A hook with no configured secret authenticates true whatever the
/// signature header holds, and also when it is missing.
#[test]
fn no_secret_authenticates_regardless() {
    let hook = Hook::new("*", None, Quiet);
    let mut headers = Headers::new();
    headers.insert("X-Github-Event".to_string(), "push".to_string());
    headers.insert("X-Hub-Signature".to_string(), "garbled-nonsense".to_string());
    let delivery = Delivery::new(headers, Some(String::from("body"))).unwrap();
    assert!(hook.auth(&delivery));

    let mut headers2 = Headers::new();
    headers2.insert("X-Github-Event".to_string(), "push".to_string());
    let delivery2 = Delivery::new(headers2, None).unwrap();
    assert!(hook.auth(&delivery2));
}

/// A DockerHub delivery never authenticates against a configured secret.
#[test]
fn dockerhub_with_secret_rejected() {
    let hook = Hook::new("*", Some(String::from("secret")), Quiet);
    let mut headers = Headers::new();
    headers.insert("X-Newrelic-Id".to_string(), "UQUFVFJUGwUJVlhaBgY=".to_string());
    let delivery = Delivery::new(headers, Some(String::from("{}"))).unwrap();
    assert_eq!(hook.auth(&delivery), false);
}

/// A signature header without the sha1= prefix is rejected.
#[test]
fn github_signature_bad_prefix_fails() {
    let hook = Hook::new("*", Some(String::from("secret")), Quiet);
    let mut headers = Headers::new();
    headers.insert("X-Github-Event".to_string(), "push".to_string());
    headers.insert(
        "X-Hub-Signature".to_string(),
        "md5=ec760ee6d10bf638089f078b5a0c23f6575821e7".to_string(),
    );
    let delivery = Delivery::new(headers, Some(String::from("{}"))).unwrap();
    assert_eq!(hook.auth(&delivery), false);
}

/// A signature whose digest portion is not hexadecimal is rejected.
#[test]
fn github_signature_non_hex_fails() {
    let hook = Hook::new("*", Some(String::from("secret")), Quiet);
    let mut headers = Headers::new();
    headers.insert("X-Github-Event".to_string(), "push".to_string());
    headers.insert("X-Hub-Signature".to_string(), "sha1=zz".to_string());
    let delivery = Delivery::new(headers, Some(String::from("{}"))).unwrap();
    assert_eq!(hook.auth(&delivery), false);
}

/// A signature header shorter than the prefix is rejected.
#[test]
fn github_signature_too_short_fails() {
    let hook = Hook::new("*", Some(String::from("secret")), Quiet);
    let mut headers = Headers::new();
    headers.insert("X-Github-Event".to_string(), "push".to_string());
    headers.insert("X-Hub-Signature".to_string(), "sha".to_string());
    let delivery = Delivery::new(headers, Some(String::from("{}"))).unwrap();
    assert_eq!(hook.auth(&delivery), false);
}

/// With a secret but no buffered body, GitHub authentication fails even
/// if the signature header is present and well-formed.
#[test]
fn github_missing_body_fails() {
    let secret = String::from("secret");
    let hook = Hook::new("*", Some(secret.clone()), Quiet);
    let payload = String::from(r#"{"zen": "Bazinga!"}"#);
    let key = ring::hmac::Key::new(ring::hmac::HMAC_SHA1_FOR_LEGACY_USE_ONLY, secret.as_bytes());
    let signature = hex::encode(ring::hmac::sign(&key, payload.as_bytes()).as_ref());
    let mut headers = Headers::new();
    headers.insert("X-Github-Event".to_string(), "push".to_string());
    headers.insert("X-Hub-Signature".to_string(), format!("sha1={}", signature));
    let delivery = Delivery::new(headers, None).unwrap();
    assert_eq!(hook.auth(&delivery), false);
}
