//! Per-request dispatch: from a verifier outcome to exactly one HTTP
//! status, plus the decision whether the configured command is launched.
//!
//! A rejected caller gets `401`; a verification error gets `500`; an
//! authenticated caller gets `200` and the command launches — with the
//! extracted context when one was produced, detached from the response.

use vstd::prelude::*;
use crate::adapter::{
    Adapter, AuthError, AuthOutcome, AuthOutcomeView, ExecutionContext, ExecutionContextView,
    VerifierConfig, WebhookRequest, WebhookRequestView, adapter_outcome, result_view, run_adapter,
};
use crate::adapter::github::lemma_missing_header_rejected;

verus! {

/// What the dispatcher decided for one request: the status to answer, and
/// whether (and with which context) the command is launched.
#[derive(Clone, Debug)]
pub struct Dispatch {
    pub status: u16,
    pub launch: bool,
    pub context: Option<ExecutionContext>,
}

pub struct DispatchView {
    pub status: u16,
    pub launch: bool,
    pub context: Option<ExecutionContextView>,
}

impl View for Dispatch {
    type V = DispatchView;

    open spec fn view(&self) -> DispatchView {
        DispatchView {
            status: self.status,
            launch: self.launch,
            context: match self.context {
                Some(c) => Some(c@),
                None => None,
            },
        }
    }
}

/// The dispatch rule: errors answer 500, rejections 401, authenticated
/// requests 200 with a launch.
pub open spec fn dispatch_spec(outcome: Result<AuthOutcomeView, AuthError>) -> DispatchView {
    match outcome {
        Err(_) => DispatchView { status: 500, launch: false, context: None },
        Ok(o) => if !o.authenticated {
            DispatchView { status: 401, launch: false, context: None }
        } else {
            DispatchView { status: 200, launch: true, context: o.context }
        },
    }
}

/// Maps a verifier outcome to the one response and launch decision.
pub fn dispatch(outcome: Result<AuthOutcome, AuthError>) -> (d: Dispatch)
    ensures
        d@ == dispatch_spec(result_view(outcome)),
{
    match outcome {
        Err(_) => Dispatch { status: 500, launch: false, context: None },
        Ok(o) => if !o.authenticated {
            Dispatch { status: 401, launch: false, context: None }
        } else {
            Dispatch { status: 200, launch: true, context: o.context }
        },
    }
}

/// Serves one verified exchange: runs the selected adapter on the request
/// and dispatches its outcome.
pub fn handle_request(adapter: &Adapter, config: &VerifierConfig, req: &WebhookRequest) -> (d:
    Dispatch)
    ensures
        d@ == dispatch_spec(adapter_outcome(*adapter, config@, req@)),
{
    let outcome = run_adapter(adapter, config, req);
    dispatch(outcome)
}

/// A rejected caller is answered 401 and nothing is launched.
pub proof fn lemma_unauthenticated_is_401(outcome: Result<AuthOutcomeView, AuthError>)
    requires
        outcome matches Ok(o) && !o.authenticated,
    ensures
        dispatch_spec(outcome) == (DispatchView { status: 401, launch: false, context: None }),
{
}

/// A webhook request missing any one of the four required headers is
/// answered 401 by the GitHub adapter, and the command never launches.
pub proof fn lemma_missing_header_yields_401(req: WebhookRequestView, key: Seq<u8>)
    requires
        req.user_agent is None || req.event is None || req.delivery is None || req.signature
            is None,
    ensures
        dispatch_spec(adapter_outcome(Adapter::Github, Some(key), req)) == (DispatchView {
            status: 401,
            launch: false,
            context: None,
        }),
{
    lemma_missing_header_rejected(req, key);
}

} // verus!
