//! What the callback listener answers to one redirect, and when it stops.

use vstd::prelude::*;
use vstd::string::*;
use crate::flow::{FlowState, FlowView};

verus! {

/// Body of the answer to a redirect whose `state` is missing or wrong.
pub const INVALID_STATE_BODY: &'static str = "Invalid state!";

/// Body of the answer to a redirect without a `code`.
pub const MISSING_CODE_BODY: &'static str = "must provide code";

/// The page shown to the user once the redirect was accepted.
pub const CONFIRMATION_PAGE: &'static str = "<!DOCTYPE html>
<html lang=\"en\">
<head>
    <meta charset=\"UTF-8\">
    <style type=\"text/css\">body{
    margin:40px auto;
    max-width:650px;
    line-height:1.6;
    font-size:18px;
    color:#888;
    background-color:#111;
    padding:0 10px
    }
    h1{line-height:1.2}
    </style>
    <title>TART OAuth</title>
</head>
<body>
    <h1>Thanks for Authenticating with TART OAuth!</h1>
You may now close this page.
</body>
</html>";

/// Milliseconds between two looks at the shared record, on either side.
pub const POLL_INTERVAL_MS: u64 = 16;

/// How the body of an answer is to be labelled.
#[derive(Clone, Copy, Debug, PartialEq, Eq, Structural)]
pub enum ContentType {
    Text,
    Html,
}

/// The listener's answer to one request.
pub struct CallbackResponse {
    pub status_code: u16,
    pub content_type: ContentType,
    pub body: String,
}

/// An answer as a mathematical value.
pub struct ResponseView {
    pub status_code: u16,
    pub content_type: ContentType,
    pub body: Seq<char>,
}

impl View for CallbackResponse {
    type V = ResponseView;

    open spec fn view(&self) -> ResponseView {
        ResponseView {
            status_code: self.status_code,
            content_type: self.content_type,
            body: self.body@,
        }
    }
}

/// What the listener makes of one redirect.
pub enum Verdict {
    /// `state` is absent or differs from the expected value.
    InvalidState,
    /// `state` is right and `code` is absent.
    MissingCode,
    /// `state` is right and the redirect carries this code.
    Accepted(Seq<char>),
}

/// A query parameter as a mathematical value.
pub open spec fn text_of(value: Option<String>) -> Option<Seq<char>> {
    match value {
        Some(text) => Some(text@),
        None => None,
    }
}

/// The verdict on a redirect with the given `state` and `code` parameters.
pub open spec fn verdict(
    expected_state: Seq<char>,
    state: Option<Seq<char>>,
    code: Option<Seq<char>>,
) -> Verdict {
    if state != Some(expected_state) {
        Verdict::InvalidState
    } else {
        match code {
            None => Verdict::MissingCode,
            Some(code) => Verdict::Accepted(code),
        }
    }
}

/// The answer that goes with a verdict.
pub open spec fn reply(verdict: Verdict) -> ResponseView {
    match verdict {
        Verdict::InvalidState => ResponseView {
            status_code: 401,
            content_type: ContentType::Text,
            body: INVALID_STATE_BODY@,
        },
        Verdict::MissingCode => ResponseView {
            status_code: 400,
            content_type: ContentType::Text,
            body: MISSING_CODE_BODY@,
        },
        Verdict::Accepted(_) => ResponseView {
            status_code: 200,
            content_type: ContentType::Html,
            body: CONFIRMATION_PAGE@,
        },
    }
}

/// What a verdict does to the shared record: only an accepted redirect
/// touches it, and then the first code wins.
pub open spec fn effect(flow: FlowView, verdict: Verdict) -> FlowView {
    match verdict {
        Verdict::Accepted(code) => flow.with_code(code),
        _ => flow,
    }
}

/// Answers one redirect and records its code where it is the first valid one.
pub fn handle_callback(
    flow: &mut FlowState,
    expected_state: &String,
    state: Option<String>,
    code: Option<String>,
) -> (response: CallbackResponse)
    ensures
        response@ == reply(verdict(expected_state@, text_of(state), text_of(code))),
        final(flow)@ == effect(
            old(flow)@,
            verdict(expected_state@, text_of(state), text_of(code)),
        ),
{
    let state_ok = match &state {
        Some(actual) => *actual == *expected_state,
        None => false,
    };
    if !state_ok {
        return CallbackResponse {
            status_code: 401,
            content_type: ContentType::Text,
            body: String::from_str(INVALID_STATE_BODY),
        };
    }
    match code {
        None => CallbackResponse {
            status_code: 400,
            content_type: ContentType::Text,
            body: String::from_str(MISSING_CODE_BODY),
        },
        Some(code) => {
            flow.record_code(code);
            CallbackResponse {
                status_code: 200,
                content_type: ContentType::Html,
                body: String::from_str(CONFIRMATION_PAGE),
            }
        },
    }
}

/// `rouille::Request`: a request as `rouille` hands it to the listener's
/// handler. Nothing inside it is visible here.
#[verifier::external_type_specification]
#[verifier::external_body]
pub struct ExRequest(rouille::Request);

/// The value that `rouille::Request::get_param` finds for the query
/// parameter `name` of `request`.
pub uninterp spec fn request_param(request: rouille::Request, name: Seq<char>) -> Option<
    Seq<char>,
>;

/// Calls `rouille::Request::get_param`. It takes the first pair of the raw
/// query string that is `name` or begins with `name=`, and returns its value
/// with `+` and percent escapes decoded; `None` where there is no such pair.
/// Trusted, not proved: that the result depends on the request and the name
/// alone. The contract gives that result a name and says no more of it.
#[verifier::external_body]
fn get_param(request: &rouille::Request, name: &str) -> (value: Option<String>)
    ensures
        text_of(value) == request_param(*request, name@),
{
    request.get_param(name)
}

/// Answers the redirect `request`: reads its `state` and `code` parameters
/// and hands them to `handle_callback`.
pub fn answer_request(
    flow: &mut FlowState,
    expected_state: &String,
    request: &rouille::Request,
) -> (response: CallbackResponse)
    ensures
        response@ == reply(
            verdict(
                expected_state@,
                request_param(*request, "state"@),
                request_param(*request, "code"@),
            ),
        ),
        final(flow)@ == effect(
            old(flow)@,
            verdict(
                expected_state@,
                request_param(*request, "state"@),
                request_param(*request, "code"@),
            ),
        ),
{
    let state = get_param(request, "state");
    let code = get_param(request, "code");
    handle_callback(flow, expected_state, state, code)
}

/// A redirect whose `state` is not the expected one is answered with 401 and
/// leaves the shared record as it was, whatever else it carries.
pub proof fn lemma_wrong_state_is_rejected(
    flow: FlowView,
    expected_state: Seq<char>,
    state: Option<Seq<char>>,
    code: Option<Seq<char>>,
)
    requires
        state != Some(expected_state),
    ensures
        reply(verdict(expected_state, state, code)).status_code == 401,
        reply(verdict(expected_state, state, code)).body == INVALID_STATE_BODY@,
        effect(flow, verdict(expected_state, state, code)) == flow,
{
}

/// A redirect with the right `state` and no `code` is answered with 400 and
/// leaves the shared record as it was.
pub proof fn lemma_missing_code_is_rejected(flow: FlowView, expected_state: Seq<char>)
    ensures
        reply(verdict(expected_state, Some(expected_state), None)).status_code == 400,
        reply(verdict(expected_state, Some(expected_state), None)).body == MISSING_CODE_BODY@,
        effect(flow, verdict(expected_state, Some(expected_state), None)) == flow,
{
}

/// The first redirect with the right `state` and a non-empty code stores that
/// code and is answered with 200; a second such redirect is answered with 200
/// too and does not replace the stored code.
pub proof fn lemma_first_valid_redirect_wins(
    flow: FlowView,
    expected_state: Seq<char>,
    first: Seq<char>,
    second: Seq<char>,
)
    requires
        flow.authorization_code is None,
        first.len() > 0,
    ensures
        ({
            let once = effect(flow, verdict(expected_state, Some(expected_state), Some(first)));
            let twice = effect(once, verdict(expected_state, Some(expected_state), Some(second)));
            &&& once.authorization_code == Some(first)
            &&& twice == once
            &&& reply(verdict(expected_state, Some(expected_state), Some(first))).status_code
                == 200
            &&& reply(verdict(expected_state, Some(expected_state), Some(second))).status_code
                == 200
        }),
{
}

/// What the listener does between two rounds of serving requests.
#[derive(Clone, Copy, Debug, PartialEq, Eq, Structural)]
pub enum ListenerStep {
    /// Serve what has arrived, wait `POLL_INTERVAL_MS`, and look again.
    Serve,
    /// Stop accepting: the record now says closed.
    Stop,
}

/// Looks at the shutdown flag: once shutdown was requested the listener is
/// recorded as closed and told to stop; until then it keeps serving.
pub fn listener_step(flow: &mut FlowState) -> (step: ListenerStep)
    ensures
        final(flow)@ == old(flow)@.closed(),
        step == if old(flow)@.shutdown_requested {
            ListenerStep::Stop
        } else {
            ListenerStep::Serve
        },
{
    flow.check_wf();
    if flow.mark_closed() {
        ListenerStep::Stop
    } else {
        ListenerStep::Serve
    }
}

} // verus!
