//! Credential-verifier adapters and the types they share.
//!
//! A request reaches the library as plain values: the four webhook headers,
//! each optional, and the raw body bytes. An adapter decides whether the
//! caller is authorized and, if so, derives an optional execution context.
//! The set of adapters is a closed enumeration, selected once at startup
//! from a configuration string; an unknown name selects nothing and the
//! caller treats that as a fatal configuration error.

pub mod github;

use vstd::prelude::*;
use crate::strutil::str_eq;

verus! {

/// Context type of the header-only verifier below: it extracts nothing.
#[derive(Clone, Copy, Debug)]
pub struct Environment;

/// One HTTP request, reduced to the values the verifiers read.
#[derive(Clone, Debug)]
pub struct WebhookRequest {
    pub user_agent: Option<String>,
    pub event: Option<String>,
    pub delivery: Option<String>,
    pub signature: Option<String>,
    pub body: Vec<u8>,
}

pub struct WebhookRequestView {
    pub user_agent: Option<Seq<char>>,
    pub event: Option<Seq<char>>,
    pub delivery: Option<Seq<char>>,
    pub signature: Option<Seq<char>>,
    pub body: Seq<u8>,
}

impl View for WebhookRequest {
    type V = WebhookRequestView;

    open spec fn view(&self) -> WebhookRequestView {
        WebhookRequestView {
            user_agent: match self.user_agent {
                Some(s) => Some(s@),
                None => None,
            },
            event: match self.event {
                Some(s) => Some(s@),
                None => None,
            },
            delivery: match self.delivery {
                Some(s) => Some(s@),
                None => None,
            },
            signature: match self.signature {
                Some(s) => Some(s@),
                None => None,
            },
            body: self.body@,
        }
    }
}

/// Minimal data handed to the spawned command: a ref/branch identifier and a
/// source URL. Never the full payload.
#[derive(Clone, Debug, PartialEq, Eq)]
pub struct ExecutionContext {
    pub ref_field: String,
    pub url: String,
}

pub struct ExecutionContextView {
    pub ref_field: Seq<char>,
    pub url: Seq<char>,
}

impl View for ExecutionContext {
    type V = ExecutionContextView;

    open spec fn view(&self) -> ExecutionContextView {
        ExecutionContextView { ref_field: self.ref_field@, url: self.url@ }
    }
}

/// What a verifier decided: the context is present only on authenticated
/// requests, and an authenticated deletion event carries none.
#[derive(Clone, Debug, PartialEq, Eq)]
pub struct AuthOutcome {
    pub authenticated: bool,
    pub context: Option<ExecutionContext>,
}

pub struct AuthOutcomeView {
    pub authenticated: bool,
    pub context: Option<ExecutionContextView>,
}

impl View for AuthOutcome {
    type V = AuthOutcomeView;

    open spec fn view(&self) -> AuthOutcomeView {
        AuthOutcomeView {
            authenticated: self.authenticated,
            context: match self.context {
                Some(c) => Some(c@),
                None => None,
            },
        }
    }
}

/// Verification failed outright, as opposed to rejecting the caller.
#[derive(Clone, Copy, Debug, PartialEq, Eq, Structural)]
pub enum AuthError {
    /// The process configuration holds no signing secret, so a signed
    /// request cannot be checked at all.
    MissingSecret,
    /// The caller was authenticated but its payload did not parse: a
    /// contract break with the trusted sender, not an attack.
    MalformedPayload,
}

pub open spec fn result_view(r: Result<AuthOutcome, AuthError>) -> Result<
    AuthOutcomeView,
    AuthError,
> {
    match r {
        Ok(o) => Ok(o@),
        Err(e) => Err(e),
    }
}

/// Process-wide verifier configuration, read once at startup and immutable
/// afterwards. An absent secret fails signed verification at call time.
#[derive(Clone, Debug)]
pub struct VerifierConfig {
    pub secret: Option<Vec<u8>>,
}

impl View for VerifierConfig {
    type V = Option<Seq<u8>>;

    open spec fn view(&self) -> Option<Seq<u8>> {
        match self.secret {
            Some(k) => Some(k@),
            None => None,
        }
    }
}

/// The closed set of credential verifiers.
#[derive(Clone, Copy, Debug, PartialEq, Eq, Structural)]
pub enum Adapter {
    /// Trusts every caller and extracts nothing; for local triggers.
    NoAuth,
    /// GitHub-style webhook verification: headers, keyed digest, payload.
    Github,
}

pub open spec fn spec_select(name: Seq<char>) -> Option<Adapter> {
    if name == "none"@ {
        Some(Adapter::NoAuth)
    } else if name == "github"@ {
        Some(Adapter::Github)
    } else {
        None
    }
}

/// Maps a configuration string to an adapter; unknown names select nothing
/// and the caller fails closed.
pub fn select(name: &str) -> (r: Option<Adapter>)
    ensures
        r == spec_select(name@),
{
    if str_eq(name, "none") {
        Some(Adapter::NoAuth)
    } else if str_eq(name, "github") {
        Some(Adapter::Github)
    } else {
        None
    }
}

/// Outcome of running one adapter on one request under one configuration.
pub open spec fn adapter_outcome(
    adapter: Adapter,
    secret: Option<Seq<u8>>,
    req: WebhookRequestView,
) -> Result<AuthOutcomeView, AuthError> {
    match adapter {
        Adapter::NoAuth => Ok(AuthOutcomeView { authenticated: true, context: None }),
        Adapter::Github => match secret {
            None => Err(AuthError::MissingSecret),
            Some(key) => github::github_auth_result(req, key),
        },
    }
}

/// Runs the selected adapter on a request.
pub fn run_adapter(adapter: &Adapter, config: &VerifierConfig, req: &WebhookRequest) -> (r: Result<
    AuthOutcome,
    AuthError,
>)
    ensures
        result_view(r) == adapter_outcome(*adapter, config@, req@),
{
    match adapter {
        Adapter::NoAuth => Ok(AuthOutcome { authenticated: true, context: None }),
        Adapter::Github => match &config.secret {
            None => Err(AuthError::MissingSecret),
            Some(key) => github::auth_and_env(req, key),
        },
    }
}

/// The trusted/local adapter authenticates every request and never yields a
/// context, whatever the headers, body, or configuration hold.
pub proof fn lemma_no_auth_adapter_accepts(secret: Option<Seq<u8>>, req: WebhookRequestView)
    ensures
        adapter_outcome(Adapter::NoAuth, secret, req) == Ok::<AuthOutcomeView, AuthError>(
            AuthOutcomeView { authenticated: true, context: None },
        ),
{
}

/// Header-only GitHub verification: authenticates exactly as the full
/// adapter does, but extracts no context.
pub fn github(req: &WebhookRequest, secret: &Vec<u8>) -> (r: (bool, Option<Environment>))
    ensures
        r.0 == github::github_authenticated(req@, secret@),
        r.1 is None,
{
    (github::authenticated(req, secret), None)
}

} // verus!
