//! Exchanges with the authority: the requests the agent makes and what it
//! concludes from the answers.

use crate::error::AgentError;
use crate::policy::{policy_result_view, policy_view, ForbiddenApp, ForbiddenAppView};
use vstd::prelude::*;

verus! {

/// Seconds after which a request to the authority is given up, so that an
/// authority that does not answer cannot stall the agent.
pub const REQUEST_TIMEOUT_SECS: u64 = 30;

/// An authenticated request: where it goes, the `Authorization` header it
/// carries, and the seconds after which it is given up.
#[derive(Debug)]
pub struct Request {
    pub url: String,
    pub authorization: String,
    pub timeout_secs: u64,
}

/// What a [`Request`] says, as mathematical values.
pub struct RequestView {
    pub url: Seq<char>,
    pub authorization: Seq<char>,
    pub timeout_secs: u64,
}

impl View for Request {
    type V = RequestView;

    open spec fn view(&self) -> RequestView {
        RequestView {
            url: self.url@,
            authorization: self.authorization@,
            timeout_secs: self.timeout_secs,
        }
    }
}

/// The answer to a request for the policy.
#[derive(Debug)]
pub enum FetchResponse {
    /// No answer: the transport failed.
    Unreachable,
    /// An answer with its status code and, where its body is a list of rules,
    /// that list.
    Answered { status: u16, body: Option<Vec<ForbiddenApp>> },
}

/// What a [`FetchResponse`] says, as mathematical values.
pub enum FetchResponseView {
    Unreachable,
    Answered { status: u16, body: Option<Seq<ForbiddenAppView>> },
}

impl View for FetchResponse {
    type V = FetchResponseView;

    open spec fn view(&self) -> FetchResponseView {
        match *self {
            FetchResponse::Unreachable => FetchResponseView::Unreachable,
            FetchResponse::Answered { status, body } => FetchResponseView::Answered {
                status,
                body: match body {
                    Some(apps) => Some(policy_view(apps@)),
                    None => None,
                },
            },
        }
    }
}

/// The answer to the submission of a violation.
#[derive(Debug, Clone, Copy, PartialEq, Eq, Structural)]
pub enum ReportResponse {
    /// No answer: the transport failed.
    Unreachable,
    /// An answer with its status code.
    Answered { status: u16 },
}

/// A status code in the range of successes.
pub open spec fn is_success(status: u16) -> bool {
    200 <= status < 300
}

/// The header value that authorises a request with the bearer credential `token`.
pub open spec fn bearer(token: Seq<char>) -> Seq<char> {
    "Bearer "@ + token
}

/// The request that fetches the policy from the authority at `api_url`.
pub open spec fn forbidden_list_request_spec(api_url: Seq<char>, token: Seq<char>) -> RequestView {
    RequestView {
        url: api_url + "/api/forbidden-apps"@,
        authorization: bearer(token),
        timeout_secs: REQUEST_TIMEOUT_SECS,
    }
}

/// The request that submits one violation to the authority at `api_url`.
pub open spec fn alert_request_spec(api_url: Seq<char>, token: Seq<char>) -> RequestView {
    RequestView {
        url: api_url + "/api/alerts"@,
        authorization: bearer(token),
        timeout_secs: REQUEST_TIMEOUT_SECS,
    }
}

/// What the answer to a request for the policy amounts to.
pub open spec fn fetch_outcome(response: FetchResponseView) -> Result<
    Seq<ForbiddenAppView>,
    AgentError,
> {
    match response {
        FetchResponseView::Unreachable => Err(AgentError::Network),
        FetchResponseView::Answered { status, body } => if !is_success(status) {
            Err(AgentError::Auth { status })
        } else {
            match body {
                Some(apps) => Ok(apps),
                None => Err(AgentError::Parse),
            }
        },
    }
}

/// What the answer to the submission of a violation amounts to.
pub open spec fn report_outcome(response: ReportResponse) -> Result<(), AgentError> {
    match response {
        ReportResponse::Unreachable => Err(AgentError::Network),
        ReportResponse::Answered { status } => if is_success(status) {
            Ok(())
        } else {
            Err(AgentError::Auth { status })
        },
    }
}

/// Asks `reqwest::StatusCode` about a status code. `StatusCode::from_u16`
/// accepts the numbers from 100 to 999 and nothing else; of those,
/// `StatusCode::is_success` holds for 200 to 299.
#[verifier::external_body]
fn status_success(status: u16) -> (success: Option<bool>)
    ensures
        success == if 100 <= status <= 999 {
            Some(is_success(status))
        } else {
            None::<bool>
        },
{
    match reqwest::StatusCode::from_u16(status) {
        Ok(code) => Some(code.is_success()),
        Err(_) => None,
    }
}

/// Whether an answer with this status code is a success, and so has a body
/// worth reading.
pub fn status_is_success(status: u16) -> (success: bool)
    ensures
        success == is_success(status),
{
    match status_success(status) {
        Some(success) => success,
        None => false,
    }
}

fn bearer_header(token: &str) -> (header: String)
    ensures
        header@ == bearer(token@),
{
    "Bearer ".to_owned().concat(token)
}

/// Builds the request that fetches the policy.
pub fn forbidden_list_request(api_url: &str, token: &str) -> (request: Request)
    ensures
        request@ == forbidden_list_request_spec(api_url@, token@),
{
    Request {
        url: api_url.to_owned().concat("/api/forbidden-apps"),
        authorization: bearer_header(token),
        timeout_secs: REQUEST_TIMEOUT_SECS,
    }
}

/// Builds the request that submits a violation.
pub fn alert_request(api_url: &str, token: &str) -> (request: Request)
    ensures
        request@ == alert_request_spec(api_url@, token@),
{
    Request {
        url: api_url.to_owned().concat("/api/alerts"),
        authorization: bearer_header(token),
        timeout_secs: REQUEST_TIMEOUT_SECS,
    }
}

/// Concludes the fetch of the policy from the authority's answer: the list of
/// rules where the answer is a success and holds one; otherwise the error,
/// [`AgentError::Network`] without an answer, [`AgentError::Auth`] for a status
/// that is no success, [`AgentError::Parse`] for a body that is no list of rules.
pub fn fetch_forbidden_list(response: FetchResponse) -> (fetched: Result<
    Vec<ForbiddenApp>,
    AgentError,
>)
    ensures
        policy_result_view(fetched) == fetch_outcome(response@),
{
    match response {
        FetchResponse::Unreachable => Err(AgentError::Network),
        FetchResponse::Answered { status, body } => {
            if !status_is_success(status) {
                Err(AgentError::Auth { status })
            } else {
                match body {
                    Some(apps) => Ok(apps),
                    None => Err(AgentError::Parse),
                }
            }
        },
    }
}

/// Concludes the submission of one violation from the authority's answer:
/// success for a status of success; otherwise [`AgentError::Network`] without an
/// answer and [`AgentError::Auth`] for any other status.
pub fn report_violation(response: ReportResponse) -> (reported: Result<(), AgentError>)
    ensures
        reported == report_outcome(response),
{
    match response {
        ReportResponse::Unreachable => Err(AgentError::Network),
        ReportResponse::Answered { status } => {
            if status_is_success(status) {
                Ok(())
            } else {
                Err(AgentError::Auth { status })
            }
        },
    }
}

} // verus!
