//! GitHub-style webhook verification.
//!
//! A request is authenticated when all four webhook headers are present,
//! the client identifier carries the expected vendor prefix, and the
//! signature header holds the keyed SHA-256 digest of the exact raw body
//! bytes as a tagged lowercase hex string. Only then is the body read as a
//! push payload; an authenticated request whose payload does not parse is a
//! contract break with the trusted sender and surfaces as an error rather
//! than as a rejection.

use vstd::prelude::*;
use crate::adapter::{
    AuthError, AuthOutcome, AuthOutcomeView, ExecutionContext, ExecutionContextView,
    WebhookRequest, WebhookRequestView, result_view,
};
use crate::hex::{
    hex_decode, hex_decode_spec, hex_encode_spec, lemma_hex_decode_encode, lemma_hex_encode_decode,
};
use crate::mac::{hmac_sha256, hmac_sha256_of};
use crate::strutil::{bytes_eq, str_starts_with};

verus! {

/// Prefix every trusted webhook sender's client identifier must carry.
pub open spec fn agent_prefix() -> Seq<char> {
    "GitHub-Hookshot/"@
}

/// Algorithm tag that opens the signature header.
pub open spec fn sig_prefix() -> Seq<char> {
    "sha256="@
}

/// Whether a client-identifier header names the trusted sender.
pub open spec fn agent_ok(ua: Seq<char>) -> bool {
    ua.len() >= agent_prefix().len() && ua.subrange(0, agent_prefix().len() as int)
        == agent_prefix()
}

/// Whether a signature header matches a digest: the algorithm tag followed
/// by hex digits whose decoded bytes equal the digest exactly.
pub open spec fn sig_matches(sig: Seq<char>, digest: Seq<u8>) -> bool {
    &&& sig.len() >= sig_prefix().len()
    &&& sig.subrange(0, sig_prefix().len() as int) == sig_prefix()
    &&& hex_decode_spec(sig.skip(sig_prefix().len() as int)) == Some(digest)
}

/// Whether a request authenticates under a given signing key.
pub open spec fn github_authenticated(req: WebhookRequestView, key: Seq<u8>) -> bool {
    &&& req.user_agent matches Some(ua) && agent_ok(ua)
    &&& req.event is Some
    &&& req.delivery is Some
    &&& req.signature matches Some(sig) && sig_matches(sig, hmac_sha256_of(key, req.body))
}

/// Checks a signature header against a computed digest.
fn signature_valid(sig: &str, digest: &Vec<u8>) -> (b: bool)
    ensures
        b == sig_matches(sig@, digest@),
{
    proof {
        reveal_strlit("sha256=");
    }
    if !str_starts_with(sig, "sha256=") {
        return false;
    }
    let n = sig.unicode_len();
    let hexpart = sig.substring_char(7, n);
    proof {
        assert(hexpart@ =~= sig@.skip(sig_prefix().len() as int));
    }
    match hex_decode(hexpart) {
        Some(d) => bytes_eq(&d, digest),
        None => false,
    }
}

/// Decides authentication alone: headers present, trusted prefix, valid
/// keyed digest over the raw body.
pub fn authenticated(req: &WebhookRequest, secret: &Vec<u8>) -> (b: bool)
    ensures
        b == github_authenticated(req@, secret@),
{
    match (&req.user_agent, &req.event, &req.delivery, &req.signature) {
        (Some(ua), Some(_event), Some(_delivery), Some(sig)) => {
            if !str_starts_with(ua.as_str(), "GitHub-Hookshot/") {
                false
            } else {
                let digest = hmac_sha256(secret, &req.body);
                signature_valid(sig.as_str(), &digest)
            }
        },
        _ => false,
    }
}

/// The fields of the push payload this system consumes: the pushed ref, the
/// deletion flag, and the repository's git URL.
#[derive(Clone, Debug, PartialEq, Eq)]
pub struct PushPayload {
    pub ref_field: String,
    pub deleted: bool,
    pub git_url: String,
}

pub uninterp spec fn parsed_push_of(body: Seq<u8>) -> Option<(Seq<char>, bool, Seq<char>)>;

/// Relies on `serde_json::from_slice` to parse the body as JSON and on
/// `serde_json::Value::{get, as_str, as_bool}` to read the `ref` and
/// `deleted` fields and the repository's `git_url` field: the result is a
/// function of the body bytes alone.
#[verifier::external_body]
fn parse_push_payload(body: &Vec<u8>) -> (r: Option<PushPayload>)
    ensures
        r is Some <==> parsed_push_of(body@) is Some,
        r matches Some(p) ==> parsed_push_of(body@) == Some((p.ref_field@, p.deleted, p.git_url@)),
{
    let v: serde_json::Value = serde_json::from_slice(body.as_slice()).ok()?;
    Some(PushPayload {
        ref_field: v.get("ref")?.as_str()?.to_string(),
        deleted: v.get("deleted")?.as_bool()?,
        git_url: v.get("repository")?.get("git_url")?.as_str()?.to_string(),
    })
}

/// The full outcome of GitHub-style verification of one request.
pub open spec fn github_auth_result(req: WebhookRequestView, key: Seq<u8>) -> Result<
    AuthOutcomeView,
    AuthError,
> {
    if !github_authenticated(req, key) {
        Ok(AuthOutcomeView { authenticated: false, context: None })
    } else {
        match parsed_push_of(req.body) {
            None => Err(AuthError::MalformedPayload),
            Some(p) => Ok(
                AuthOutcomeView {
                    authenticated: true,
                    context: if p.1 {
                        None
                    } else {
                        Some(ExecutionContextView { ref_field: p.0, url: p.2 })
                    },
                },
            ),
        }
    }
}

/// Authenticates a request and, on success, extracts the execution context
/// from its payload; a deletion event authenticates but yields none.
pub fn auth_and_env(req: &WebhookRequest, secret: &Vec<u8>) -> (r: Result<AuthOutcome, AuthError>)
    ensures
        result_view(r) == github_auth_result(req@, secret@),
{
    if !authenticated(req, secret) {
        return Ok(AuthOutcome { authenticated: false, context: None });
    }
    match parse_push_payload(&req.body) {
        None => Err(AuthError::MalformedPayload),
        Some(payload) => {
            if payload.deleted {
                Ok(AuthOutcome { authenticated: true, context: None })
            } else {
                Ok(
                    AuthOutcome {
                        authenticated: true,
                        context: Some(
                            ExecutionContext {
                                ref_field: payload.ref_field,
                                url: payload.git_url,
                            },
                        ),
                    },
                )
            }
        },
    }
}

/// A request that lacks any one of the four required headers is never
/// authenticated, and its outcome rejects the caller without error.
pub proof fn lemma_missing_header_rejected(req: WebhookRequestView, key: Seq<u8>)
    requires
        req.user_agent is None || req.event is None || req.delivery is None || req.signature
            is None,
    ensures
        !github_authenticated(req, key),
        github_auth_result(req, key) == Ok::<AuthOutcomeView, AuthError>(
            AuthOutcomeView { authenticated: false, context: None },
        ),
{
}

/// Exactly one signature header matches a given digest: the algorithm tag
/// followed by the canonical lowercase hex encoding of the digest.
pub proof fn lemma_signature_canonical(sig: Seq<char>, digest: Seq<u8>)
    ensures
        sig_matches(sig, digest) <==> sig == sig_prefix() + hex_encode_spec(digest),
{
    if sig_matches(sig, digest) {
        lemma_hex_decode_encode(sig.skip(sig_prefix().len() as int), digest);
        assert(sig =~= sig.subrange(0, sig_prefix().len() as int) + sig.skip(
            sig_prefix().len() as int,
        ));
    }
    if sig == sig_prefix() + hex_encode_spec(digest) {
        lemma_hex_encode_decode(digest);
        assert(sig.subrange(0, sig_prefix().len() as int) =~= sig_prefix());
        assert(sig.skip(sig_prefix().len() as int) =~= hex_encode_spec(digest));
    }
}

/// A signature header holding the keyed digest of the body, hex-encoded and
/// prefixed with its algorithm tag, authenticates whenever the other
/// required headers are in order.
pub proof fn lemma_valid_signature_authenticates(req: WebhookRequestView, key: Seq<u8>)
    requires
        req.user_agent matches Some(ua) && agent_ok(ua),
        req.event is Some,
        req.delivery is Some,
        req.signature == Some(sig_prefix() + hex_encode_spec(hmac_sha256_of(key, req.body))),
    ensures
        github_authenticated(req, key),
{
    lemma_signature_canonical(req.signature->0, hmac_sha256_of(key, req.body));
}

/// Any change to the signature header of an authenticated request — a
/// single character or more — makes authentication fail for the same key
/// and body.
pub proof fn lemma_altered_signature_rejected(
    req: WebhookRequestView,
    key: Seq<u8>,
    other: Seq<char>,
)
    requires
        github_authenticated(req, key),
        other != req.signature->0,
    ensures
        !github_authenticated(
            (WebhookRequestView { signature: Some(other), ..req }),
            key,
        ),
{
    let digest = hmac_sha256_of(key, req.body);
    lemma_signature_canonical(req.signature->0, digest);
    lemma_signature_canonical(other, digest);
}

/// An authenticated deletion event yields "authenticated, nothing to run":
/// the outcome carries no context even though the signature was valid.
pub proof fn lemma_deleted_yields_no_context(req: WebhookRequestView, key: Seq<u8>)
    requires
        github_authenticated(req, key),
        parsed_push_of(req.body) matches Some(p) && p.1,
    ensures
        github_auth_result(req, key) == Ok::<AuthOutcomeView, AuthError>(
            AuthOutcomeView { authenticated: true, context: None },
        ),
{
}

/// An authenticated push that is not a deletion yields a context whose ref
/// and URL equal the payload's ref and repository git URL exactly.
pub proof fn lemma_push_context_fields(req: WebhookRequestView, key: Seq<u8>)
    requires
        github_authenticated(req, key),
        parsed_push_of(req.body) matches Some(p) && !p.1,
    ensures
        github_auth_result(req, key) == Ok::<AuthOutcomeView, AuthError>(
            AuthOutcomeView {
                authenticated: true,
                context: Some(
                    ExecutionContextView {
                        ref_field: (parsed_push_of(req.body)->0).0,
                        url: (parsed_push_of(req.body)->0).2,
                    },
                ),
            },
        ),
{
}

/// Author identity block of a push payload's head commit; part of the
/// upstream schema, not consumed by the verifier.
#[derive(Default, Debug, Clone, Eq, PartialEq)]
pub struct Author {
    pub name: String,
    pub email: String,
    pub username: String,
}

/// Committer identity block of a push payload's head commit; part of the
/// upstream schema, not consumed by the verifier.
#[derive(Default, Debug, Clone, Eq, PartialEq)]
pub struct Committer {
    pub name: String,
    pub email: String,
    pub username: String,
}

/// Repository owner block of a push payload; part of the upstream schema,
/// not consumed by the verifier.
#[derive(Default, Debug, Clone, Eq, PartialEq)]
pub struct Owner {
    pub name: String,
    pub email: String,
    pub login: String,
    pub id: i64,
    pub node_id: String,
    pub avatar_url: String,
    pub gravatar_id: String,
    pub url: String,
    pub html_url: String,
    pub followers_url: String,
    pub following_url: String,
    pub gists_url: String,
    pub starred_url: String,
    pub subscriptions_url: String,
    pub organizations_url: String,
    pub repos_url: String,
    pub events_url: String,
    pub received_events_url: String,
    pub type_field: String,
    pub site_admin: bool,
}

/// Pusher identity block of a push payload; part of the upstream schema,
/// not consumed by the verifier.
#[derive(Default, Debug, Clone, Eq, PartialEq)]
pub struct Pusher {
    pub name: String,
    pub email: String,
}

/// Sender identity block of a push payload; part of the upstream schema,
/// not consumed by the verifier.
#[derive(Default, Debug, Clone, Eq, PartialEq)]
pub struct Sender {
    pub login: String,
    pub id: i64,
    pub node_id: String,
    pub avatar_url: String,
    pub gravatar_id: String,
    pub url: String,
    pub html_url: String,
    pub followers_url: String,
    pub following_url: String,
    pub gists_url: String,
    pub starred_url: String,
    pub subscriptions_url: String,
    pub organizations_url: String,
    pub repos_url: String,
    pub events_url: String,
    pub received_events_url: String,
    pub type_field: String,
    pub site_admin: bool,
}

} // verus!
