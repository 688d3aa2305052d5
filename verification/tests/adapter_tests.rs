use hmac::{Hmac, Mac};
use sha2::Sha256;

use webhook_runner::adapter::github;
use webhook_runner::adapter::{
    select, run_adapter, Adapter, AuthError, VerifierConfig, WebhookRequest,
};
use webhook_runner::dispatch::{dispatch, handle_request};

const SECRET: &[u8] = b"It's a Secret to Everybody";
const PUSH_BODY: &[u8] =
    br#"{"ref":"refs/heads/main","deleted":false,"repository":{"git_url":"git://x/y"}}"#;

fn sign(key: &[u8], body: &[u8]) -> String {
    let mut m = Hmac::<Sha256>::new_from_slice(key).unwrap();
    m.update(body);
    let digest = m.finalize().into_bytes();
    let mut s = String::from("sha256=");
    for b in digest.iter() {
        s.push_str(&format!("{:02x}", b));
    }
    s
}

fn signed_request(body: &[u8]) -> WebhookRequest {
    WebhookRequest {
        user_agent: Some("GitHub-Hookshot/abc".to_string()),
        event: Some("push".to_string()),
        delivery: Some("delivery-1".to_string()),
        signature: Some(sign(SECRET, body)),
        body: body.to_vec(),
    }
}

fn secret_config() -> VerifierConfig {
    VerifierConfig { secret: Some(SECRET.to_vec()) }
}

#[test]
fn select_maps_known_names() {
    assert_eq!(select("none"), Some(Adapter::NoAuth));
    assert_eq!(select("github"), Some(Adapter::Github));
    assert_eq!(select("gitlab"), None);
    assert_eq!(select(""), None);
}

#[test]
fn none_adapter_always_accepts() {
    let req = WebhookRequest {
        user_agent: None,
        event: None,
        delivery: None,
        signature: Some("not even a signature".to_string()),
        body: b"garbage".to_vec(),
    };
    let config = VerifierConfig { secret: None };
    let outcome = run_adapter(&Adapter::NoAuth, &config, &req).unwrap();
    assert!(outcome.authenticated);
    assert!(outcome.context.is_none());
    let d = dispatch(Ok(outcome));
    assert_eq!(d.status, 200);
    assert!(d.launch);
}

#[test]
fn missing_any_header_rejected() {
    let full = signed_request(PUSH_BODY);
    let without = [
        WebhookRequest { user_agent: None, ..full.clone() },
        WebhookRequest { event: None, ..full.clone() },
        WebhookRequest { delivery: None, ..full.clone() },
        WebhookRequest { signature: None, ..full.clone() },
    ];
    for req in without.iter() {
        let outcome = github::auth_and_env(req, &SECRET.to_vec()).unwrap();
        assert!(!outcome.authenticated);
        assert!(outcome.context.is_none());
        let d = dispatch(Ok(outcome));
        assert_eq!(d.status, 401);
        assert!(!d.launch);
    }
}

#[test]
fn wrong_agent_prefix_rejected() {
    let mut req = signed_request(PUSH_BODY);
    req.user_agent = Some("curl/8.0".to_string());
    let outcome = github::auth_and_env(&req, &SECRET.to_vec()).unwrap();
    assert!(!outcome.authenticated);
}

#[test]
fn valid_signature_authenticates() {
    let req = signed_request(PUSH_BODY);
    let outcome = github::auth_and_env(&req, &SECRET.to_vec()).unwrap();
    assert!(outcome.authenticated);
    let ctx = outcome.context.unwrap();
    assert_eq!(ctx.ref_field, "refs/heads/main");
    assert_eq!(ctx.url, "git://x/y");
}

#[test]
fn flipped_body_byte_rejected() {
    let mut req = signed_request(PUSH_BODY);
    req.body[0] ^= 0x01;
    let outcome = github::auth_and_env(&req, &SECRET.to_vec()).unwrap();
    assert!(!outcome.authenticated);
    assert!(outcome.context.is_none());
}

#[test]
fn flipped_signature_byte_rejected() {
    let req = signed_request(PUSH_BODY);
    let sig = req.signature.clone().unwrap();
    let mut bytes = sig.into_bytes();
    let last = bytes.len() - 1;
    bytes[last] = if bytes[last] == b'0' { b'1' } else { b'0' };
    let mut tampered = req.clone();
    tampered.signature = Some(String::from_utf8(bytes).unwrap());
    let outcome = github::auth_and_env(&tampered, &SECRET.to_vec()).unwrap();
    assert!(!outcome.authenticated);
}

#[test]
fn uppercased_signature_rejected() {
    let req = signed_request(PUSH_BODY);
    let sig = req.signature.clone().unwrap();
    let upper = format!("sha256={}", sig["sha256=".len()..].to_uppercase());
    assert_ne!(upper, sig);
    let mut tampered = req.clone();
    tampered.signature = Some(upper);
    let outcome = github::auth_and_env(&tampered, &SECRET.to_vec()).unwrap();
    assert!(!outcome.authenticated);
}

#[test]
fn deleted_event_authenticates_without_context() {
    let body: &[u8] =
        br#"{"ref":"refs/heads/gone","deleted":true,"repository":{"git_url":"git://x/y"}}"#;
    let req = signed_request(body);
    let outcome = github::auth_and_env(&req, &SECRET.to_vec()).unwrap();
    assert!(outcome.authenticated);
    assert!(outcome.context.is_none());
    let d = dispatch(Ok(outcome));
    assert_eq!(d.status, 200);
    assert!(d.launch);
    assert!(d.context.is_none());
}

#[test]
fn malformed_payload_is_error() {
    let body: &[u8] = b"not json at all";
    let req = signed_request(body);
    let err = github::auth_and_env(&req, &SECRET.to_vec()).unwrap_err();
    assert_eq!(err, AuthError::MalformedPayload);
    let d = dispatch(Err(err));
    assert_eq!(d.status, 500);
    assert!(!d.launch);
}

#[test]
fn payload_missing_fields_is_error() {
    let body: &[u8] = br#"{"ref":"refs/heads/main"}"#;
    let req = signed_request(body);
    let err = github::auth_and_env(&req, &SECRET.to_vec()).unwrap_err();
    assert_eq!(err, AuthError::MalformedPayload);
}

#[test]
fn missing_secret_is_error() {
    let req = signed_request(PUSH_BODY);
    let config = VerifierConfig { secret: None };
    let err = run_adapter(&Adapter::Github, &config, &req).unwrap_err();
    assert_eq!(err, AuthError::MissingSecret);
    let d = dispatch(Err(err));
    assert_eq!(d.status, 500);
    assert!(!d.launch);
}

#[test]
fn header_only_github_adapter_extracts_nothing() {
    let req = signed_request(PUSH_BODY);
    let (authenticated, env) = webhook_runner::adapter::github(&req, &SECRET.to_vec());
    assert!(authenticated);
    assert!(env.is_none());
}

#[test]
fn end_to_end_push_launches_with_context() {
    let adapter = select("github").unwrap();
    let req = signed_request(PUSH_BODY);
    let d = handle_request(&adapter, &secret_config(), &req);
    assert_eq!(d.status, 200);
    assert!(d.launch);
    let ctx = d.context.unwrap();
    assert_eq!(ctx.ref_field, "refs/heads/main");
    assert_eq!(ctx.url, "git://x/y");
}

#[test]
fn end_to_end_tampered_signature_never_launches() {
    let adapter = select("github").unwrap();
    let mut req = signed_request(PUSH_BODY);
    let sig = req.signature.take().unwrap();
    let mut bytes = sig.into_bytes();
    bytes[10] = if bytes[10] == b'a' { b'b' } else { b'a' };
    req.signature = Some(String::from_utf8(bytes).unwrap());
    let d = handle_request(&adapter, &secret_config(), &req);
    assert_eq!(d.status, 401);
    assert!(!d.launch);
    assert!(d.context.is_none());
}
