//! The orchestrator of one authorization flow, as a state machine.
//!
//! The caller performs each action that `AuthCoordinator::step` hands out
//! (starting the listener, sleeping, opening the browser, posting the code)
//! and reports what came of it as the next event. Which action follows which
//! event is decided here.

use vstd::prelude::*;
use vstd::string::*;
use crate::address::SocketAddress;
use crate::csrf::CsrfToken;
use crate::flow::{FlowState, FlowView};
use crate::token::{conclude, exchange_view, outcome_of, ExchangeError, ExchangeReply,
    ExchangeView, TokenPair};
use crate::urls::{authorization_pairs, authorization_url, endpoint_url, token_pairs, token_url,
    UrlError};
use crate::AuthSpec;

verus! {

/// Where the flow stands.
#[derive(Clone, Copy, Debug, PartialEq, Eq, Structural)]
pub enum Phase {
    /// Nothing has been asked for yet.
    Idle,
    /// The listener was asked to start and has not reported ready.
    ServerStarting,
    /// The listener is ready and the browser is being opened.
    ServerReady,
    /// The browser is open and no redirect has delivered a code.
    AwaitingRedirect,
    /// A code has arrived; passed through within the step that sends it on.
    CodeReceived,
    /// The code is being exchanged for tokens.
    Exchanging,
    /// The listener was asked to stop and has not reported closed.
    Closing,
    /// The flow is over and produced tokens.
    Closed,
    /// The flow is over and produced none.
    Failed,
}

impl Phase {
    /// Whether the flow is over.
    pub open spec fn is_terminal(self) -> bool {
        self == Phase::Closed || self == Phase::Failed
    }

    /// How far along the flow a phase lies.
    pub open spec fn rank(self) -> nat {
        match self {
            Phase::Idle => 0,
            Phase::ServerStarting => 1,
            Phase::ServerReady => 2,
            Phase::AwaitingRedirect => 3,
            Phase::CodeReceived => 4,
            Phase::Exchanging => 5,
            Phase::Closing => 6,
            Phase::Closed => 7,
            Phase::Failed => 7,
        }
    }
}

/// Why a flow produced no tokens.
#[derive(Debug)]
pub enum AuthFailure {
    /// The listener could not bind its address.
    Bind(String),
    /// The authorization URL or the token URL could not be built.
    Url(UrlError),
    /// The browser could not be opened.
    Launch(String),
    /// The token endpoint did not hand out tokens.
    Exchange(ExchangeError),
    /// The listener did not get ready, or no redirect arrived, within the
    /// number of waits that the caller allowed.
    Timeout,
    /// An event arrived that the phase does not expect.
    Protocol,
}

/// How a flow ends, as a mathematical value.
pub enum OutcomeView {
    Tokens { access_token: Seq<char>, refresh_token: Seq<char> },
    Bind(Seq<char>),
    Url(UrlError),
    Launch(Seq<char>),
    Transport(Seq<char>),
    Parse(Seq<char>),
    EmptyAccessToken,
    Timeout,
    Protocol,
}

/// How an exchange ends, as the end of the flow.
pub open spec fn from_exchange(view: ExchangeView) -> OutcomeView {
    match view {
        ExchangeView::Tokens { access_token, refresh_token } => OutcomeView::Tokens {
            access_token,
            refresh_token,
        },
        ExchangeView::Transport(reason) => OutcomeView::Transport(reason),
        ExchangeView::Parse(reason) => OutcomeView::Parse(reason),
        ExchangeView::EmptyAccessToken => OutcomeView::EmptyAccessToken,
    }
}

/// The result of a flow as a mathematical value.
pub open spec fn outcome_view(result: Result<TokenPair, AuthFailure>) -> OutcomeView {
    match result {
        Ok(pair) => OutcomeView::Tokens {
            access_token: pair.access_token@,
            refresh_token: pair.refresh_token@,
        },
        Err(AuthFailure::Bind(reason)) => OutcomeView::Bind(reason@),
        Err(AuthFailure::Url(error)) => OutcomeView::Url(error),
        Err(AuthFailure::Launch(reason)) => OutcomeView::Launch(reason@),
        Err(AuthFailure::Exchange(error)) => from_exchange(
            exchange_view(Err::<TokenPair, ExchangeError>(error)),
        ),
        Err(AuthFailure::Timeout) => OutcomeView::Timeout,
        Err(AuthFailure::Protocol) => OutcomeView::Protocol,
    }
}

/// The result of a flow, where there is one, as a mathematical value.
pub open spec fn pending_view(outcome: Option<Result<TokenPair, AuthFailure>>) -> Option<
    OutcomeView,
> {
    match outcome {
        Some(result) => Some(outcome_view(result)),
        None => None,
    }
}

/// Whether the flow is decided to end with tokens.
pub open spec fn has_tokens(outcome: Option<OutcomeView>) -> bool {
    match outcome {
        Some(OutcomeView::Tokens { .. }) => true,
        _ => false,
    }
}

/// What the caller reports to the orchestrator.
pub enum Event {
    /// The flow is to begin.
    Begin,
    /// The listener could not bind its address; the text says why.
    BindFailed(String),
    /// A look at the shared record, taken after the last action was done.
    Observed(FlowState),
    /// The browser was opened.
    BrowserOpened,
    /// The browser could not be opened; the text says why.
    BrowserFailed(String),
    /// The token endpoint was asked, with this result.
    Exchanged(ExchangeReply),
}

/// What the orchestrator asks the caller to do next.
pub enum Action {
    /// Start the listener on `addr`, answering redirects whose `state` is
    /// `expected_state`, then report `Observed` or `BindFailed`.
    StartServer { addr: SocketAddress, expected_state: String },
    /// Sleep for the poll interval, then report `Observed`.
    Wait,
    /// Open this URL in the browser, then report `BrowserOpened` or
    /// `BrowserFailed`.
    OpenBrowser(String),
    /// Post to this URL, then report `Exchanged`.
    Exchange(String),
    /// Ask the listener to stop, then report `Observed`.
    RequestShutdown,
    /// Nothing is left to do: take the result.
    Finish,
}

/// An action as a mathematical value.
pub enum ActionView {
    StartServer { addr: SocketAddress, expected_state: Seq<char> },
    Wait,
    OpenBrowser(Seq<char>),
    Exchange(Seq<char>),
    RequestShutdown,
    Finish,
}

impl View for Action {
    type V = ActionView;

    open spec fn view(&self) -> ActionView {
        match *self {
            Action::StartServer { addr, expected_state } => ActionView::StartServer {
                addr,
                expected_state: expected_state@,
            },
            Action::Wait => ActionView::Wait,
            Action::OpenBrowser(url) => ActionView::OpenBrowser(url@),
            Action::Exchange(url) => ActionView::Exchange(url@),
            Action::RequestShutdown => ActionView::RequestShutdown,
            Action::Finish => ActionView::Finish,
        }
    }
}

/// The orchestrator as a mathematical value.
pub struct CoordinatorView {
    pub phase: Phase,
    /// How the flow ends, once that is decided.
    pub outcome: Option<OutcomeView>,
    pub addr: SocketAddress,
    pub redirect_uri: Seq<char>,
    pub client_id: Seq<char>,
    pub client_secret: Seq<char>,
    pub base_url: Seq<char>,
    pub scope: Seq<char>,
    /// The CSRF token in its decimal form.
    pub state_key: Seq<char>,
    /// How many waits in a row the caller allows before the listener is
    /// ready, and again before a code arrives; `None` allows any number.
    pub wait_limit: Option<u64>,
    /// How many waits in a row have been asked for, counted only under a
    /// limit.
    pub waited: u64,
}

impl CoordinatorView {
    /// The end of the flow is decided exactly from `Closing` on; a flow that
    /// closed has tokens and one that failed has none.
    pub open spec fn wf(self) -> bool {
        &&& self.outcome is Some <==> self.phase.rank() >= Phase::Closing.rank()
        &&& self.phase == Phase::Closed ==> has_tokens(self.outcome)
        &&& self.phase == Phase::Failed ==> !has_tokens(self.outcome)
        &&& match self.wait_limit {
            Some(limit) => self.waited <= limit,
            None => self.waited == 0,
        }
    }

    /// The URL that the browser is sent to.
    pub open spec fn authorization_url(self) -> Result<Seq<char>, UrlError> {
        endpoint_url(
            self.base_url,
            "authorize"@,
            authorization_pairs(self.client_id, self.redirect_uri, self.scope, self.state_key),
        )
    }

    /// The URL to which `code` is posted.
    pub open spec fn token_url(self, code: Seq<char>) -> Result<Seq<char>, UrlError> {
        endpoint_url(
            self.base_url,
            "token"@,
            token_pairs(self.client_id, self.client_secret, self.redirect_uri, code),
        )
    }

    /// The flow is over with `outcome`, and the listener is not running.
    pub open spec fn ended(self, outcome: OutcomeView) -> (CoordinatorView, ActionView) {
        (
            CoordinatorView {
                phase: if outcome is Tokens {
                    Phase::Closed
                } else {
                    Phase::Failed
                },
                outcome: Some(outcome),
                ..self
            },
            ActionView::Finish,
        )
    }

    /// The end of the flow is decided; the listener is asked to stop first.
    pub open spec fn winding_down(self, outcome: OutcomeView) -> (CoordinatorView, ActionView) {
        (
            CoordinatorView { phase: Phase::Closing, outcome: Some(outcome), ..self },
            ActionView::RequestShutdown,
        )
    }

    /// The flow moves to `phase` and asks for `action`.
    pub open spec fn moving(self, phase: Phase, action: ActionView) -> (
        CoordinatorView,
        ActionView,
    ) {
        (CoordinatorView { phase, waited: 0, ..self }, action)
    }

    /// What the flow waits for has not happened: it waits once more, unless
    /// the caller's limit is used up, in which case it times out.
    pub open spec fn waiting(self) -> (CoordinatorView, ActionView) {
        match self.wait_limit {
            Some(limit) => if self.waited >= limit {
                self.winding_down(OutcomeView::Timeout)
            } else {
                (CoordinatorView { waited: (self.waited + 1) as u64, ..self }, ActionView::Wait)
            },
            None => (self, ActionView::Wait),
        }
    }
}

/// The orchestrator after `event`, and the action it asks for.
pub open spec fn next(c: CoordinatorView, event: Event) -> (CoordinatorView, ActionView) {
    match c.phase {
        Phase::Idle => match event {
            Event::Begin => c.moving(
                Phase::ServerStarting,
                ActionView::StartServer { addr: c.addr, expected_state: c.state_key },
            ),
            _ => c.ended(OutcomeView::Protocol),
        },
        Phase::ServerStarting => match event {
            Event::BindFailed(reason) => c.ended(OutcomeView::Bind(reason@)),
            Event::Observed(flow) => if flow@.server_ready {
                match c.authorization_url() {
                    Ok(url) => c.moving(Phase::ServerReady, ActionView::OpenBrowser(url)),
                    Err(error) => c.winding_down(OutcomeView::Url(error)),
                }
            } else {
                c.waiting()
            },
            _ => c.winding_down(OutcomeView::Protocol),
        },
        Phase::ServerReady => match event {
            Event::BrowserOpened => c.moving(Phase::AwaitingRedirect, ActionView::Wait),
            Event::BrowserFailed(reason) => c.winding_down(OutcomeView::Launch(reason@)),
            _ => c.winding_down(OutcomeView::Protocol),
        },
        Phase::AwaitingRedirect => match event {
            Event::Observed(flow) => match flow@.authorization_code {
                Some(code) => match c.token_url(code) {
                    Ok(url) => c.moving(Phase::Exchanging, ActionView::Exchange(url)),
                    Err(error) => c.winding_down(OutcomeView::Url(error)),
                },
                None => c.waiting(),
            },
            _ => c.winding_down(OutcomeView::Protocol),
        },
        Phase::CodeReceived => c.winding_down(OutcomeView::Protocol),
        Phase::Exchanging => match event {
            Event::Exchanged(reply) => c.winding_down(from_exchange(outcome_of(reply))),
            _ => c.winding_down(OutcomeView::Protocol),
        },
        Phase::Closing => match event {
            Event::Observed(flow) => if flow@.server_closed {
                c.ended(c.outcome->0)
            } else if flow@.shutdown_requested {
                c.moving(Phase::Closing, ActionView::Wait)
            } else {
                c.moving(Phase::Closing, ActionView::RequestShutdown)
            },
            Event::BindFailed(_) => c.ended(c.outcome->0),
            _ => c.moving(Phase::Closing, ActionView::Wait),
        },
        Phase::Closed => (c, ActionView::Finish),
        Phase::Failed => (c, ActionView::Finish),
    }
}

/// The orchestrator after a sequence of events, reported first to last.
pub open spec fn run(c: CoordinatorView, events: Seq<Event>) -> CoordinatorView
    decreases events.len(),
{
    if events.len() == 0 {
        c
    } else {
        next(run(c, events.drop_last()), events.last()).0
    }
}

/// The orchestrator of one flow.
pub struct AuthCoordinator {
    spec: AuthSpec,
    base_url: String,
    scope: String,
    state_key: String,
    phase: Phase,
    outcome: Option<Result<TokenPair, AuthFailure>>,
    wait_limit: Option<u64>,
    waited: u64,
}

impl View for AuthCoordinator {
    type V = CoordinatorView;

    closed spec fn view(&self) -> CoordinatorView {
        CoordinatorView {
            phase: self.phase,
            outcome: if self.phase.rank() >= Phase::Closing.rank() {
                pending_view(self.outcome)
            } else {
                None
            },
            addr: self.spec.addr,
            redirect_uri: self.spec.addr_string@,
            client_id: self.spec.app_id@,
            client_secret: self.spec.app_secret@,
            base_url: self.base_url@,
            scope: self.scope@,
            state_key: self.state_key@,
            wait_limit: self.wait_limit,
            waited: self.waited,
        }
    }
}

impl AuthCoordinator {
    #[verifier::type_invariant]
    spec fn inv(self) -> bool {
        self@.wf()
    }

    /// An orchestrator for `spec` that has not begun and waits as long as
    /// it takes. The provider's endpoints lie under `base_url`, and `token`
    /// is the CSRF token of this flow.
    pub fn new(spec: AuthSpec, base_url: &str, scope: &str, token: &CsrfToken) -> (coordinator:
        AuthCoordinator)
        ensures
            coordinator@ == (CoordinatorView {
                phase: Phase::Idle,
                outcome: None,
                addr: spec.addr,
                redirect_uri: spec.addr_string@,
                client_id: spec.app_id@,
                client_secret: spec.app_secret@,
                base_url: base_url@,
                scope: scope@,
                state_key: token.rendered(),
                wait_limit: None,
                waited: 0,
            }),
    {
        AuthCoordinator {
            spec,
            base_url: String::from_str(base_url),
            scope: String::from_str(scope),
            state_key: token.render(),
            phase: Phase::Idle,
            outcome: None,
            wait_limit: None,
            waited: 0,
        }
    }

    /// The same orchestrator, which from now on gives up with `Timeout`
    /// once it has waited `limit` times in a row for the listener to get
    /// ready, or for a code to arrive. The wait for the listener to close
    /// has no limit: ending it early would leave the listener running.
    pub fn with_wait_limit(self, limit: u64) -> (coordinator: AuthCoordinator)
        ensures
            coordinator@ == (CoordinatorView { wait_limit: Some(limit), waited: 0, ..self@ }),
    {
        proof {
            use_type_invariant(&self);
        }
        let mut coordinator = self;
        coordinator.waited = 0;
        coordinator.wait_limit = Some(limit);
        coordinator
    }

    /// Every orchestrator that exists is well formed.
    pub fn check_wf(&self)
        ensures
            self@.wf(),
    {
        proof {
            use_type_invariant(self);
        }
    }

    pub fn phase(&self) -> (phase: Phase)
        ensures
            phase == self@.phase,
    {
        self.phase
    }

    /// Whether the flow is over.
    pub fn is_finished(&self) -> (finished: bool)
        ensures
            finished == self@.phase.is_terminal(),
    {
        self.phase == Phase::Closed || self.phase == Phase::Failed
    }

    /// The result of the flow once it is over, `None` before.
    pub fn into_result(self) -> (result: Option<Result<TokenPair, AuthFailure>>)
        ensures
            result is Some <==> self@.phase.is_terminal(),
            result matches Some(r) ==> self@.outcome == Some(outcome_view(r)),
    {
        proof {
            use_type_invariant(&self);
        }
        if self.phase == Phase::Closed || self.phase == Phase::Failed {
            self.outcome
        } else {
            None
        }
    }

    fn end(&mut self, result: Result<TokenPair, AuthFailure>) -> (action: Action)
        requires
            old(self)@.wf(),
            old(self)@.phase.rank() < Phase::Closing.rank(),
        ensures
            (final(self)@, action@) == old(self)@.ended(outcome_view(result)),
            final(self)@.wf(),
    {
        let tokens = result.is_ok();
        self.outcome = Some(result);
        self.phase = if tokens {
            Phase::Closed
        } else {
            Phase::Failed
        };
        Action::Finish
    }

    fn wind_down(&mut self, result: Result<TokenPair, AuthFailure>) -> (action: Action)
        requires
            old(self)@.wf(),
            old(self)@.phase.rank() < Phase::Closing.rank(),
        ensures
            (final(self)@, action@) == old(self)@.winding_down(outcome_view(result)),
            final(self)@.wf(),
    {
        self.outcome = Some(result);
        self.phase = Phase::Closing;
        Action::RequestShutdown
    }

    fn wait_more(&mut self) -> (action: Action)
        requires
            old(self)@.wf(),
            old(self)@.phase.rank() < Phase::Closing.rank(),
        ensures
            (final(self)@, action@) == old(self)@.waiting(),
            final(self)@.wf(),
    {
        match self.wait_limit {
            Some(limit) => {
                if self.waited >= limit {
                    self.wind_down(Err(AuthFailure::Timeout))
                } else {
                    self.waited = self.waited + 1;
                    Action::Wait
                }
            },
            None => Action::Wait,
        }
    }

    /// Takes the next event and says what to do next.
    pub fn step(&mut self, event: Event) -> (action: Action)
        ensures
            (final(self)@, action@) == next(old(self)@, event),
    {
        proof {
            use_type_invariant(&*self);
        }
        match self.phase {
            Phase::Idle => match event {
                Event::Begin => {
                    self.waited = 0;
                    self.phase = Phase::ServerStarting;
                    Action::StartServer {
                        addr: self.spec.addr,
                        expected_state: self.state_key.clone(),
                    }
                },
                _ => self.end(Err(AuthFailure::Protocol)),
            },
            Phase::ServerStarting => match event {
                Event::BindFailed(reason) => self.end(Err(AuthFailure::Bind(reason))),
                Event::Observed(flow) => {
                    if flow.server_ready() {
                        let built = authorization_url(
                            self.base_url.as_str(),
                            self.spec.app_id.as_str(),
                            self.spec.addr_string.as_str(),
                            self.scope.as_str(),
                            self.state_key.as_str(),
                        );
                        match built {
                            Ok(url) => {
                                self.waited = 0;
                                self.phase = Phase::ServerReady;
                                Action::OpenBrowser(url)
                            },
                            Err(error) => self.wind_down(Err(AuthFailure::Url(error))),
                        }
                    } else {
                        self.wait_more()
                    }
                },
                _ => self.wind_down(Err(AuthFailure::Protocol)),
            },
            Phase::ServerReady => match event {
                Event::BrowserOpened => {
                    self.waited = 0;
                    self.phase = Phase::AwaitingRedirect;
                    Action::Wait
                },
                Event::BrowserFailed(reason) => self.wind_down(Err(AuthFailure::Launch(reason))),
                _ => self.wind_down(Err(AuthFailure::Protocol)),
            },
            Phase::AwaitingRedirect => match event {
                Event::Observed(flow) => match flow.authorization_code() {
                    Some(code) => {
                        let built = token_url(
                            self.base_url.as_str(),
                            self.spec.app_id.as_str(),
                            self.spec.app_secret.as_str(),
                            self.spec.addr_string.as_str(),
                            code.as_str(),
                        );
                        match built {
                            Ok(url) => {
                                self.waited = 0;
                                self.phase = Phase::Exchanging;
                                Action::Exchange(url)
                            },
                            Err(error) => self.wind_down(Err(AuthFailure::Url(error))),
                        }
                    },
                    None => self.wait_more(),
                },
                _ => self.wind_down(Err(AuthFailure::Protocol)),
            },
            Phase::CodeReceived => self.wind_down(Err(AuthFailure::Protocol)),
            Phase::Exchanging => match event {
                Event::Exchanged(reply) => {
                    let result = match conclude(reply) {
                        Ok(pair) => Ok(pair),
                        Err(error) => Err(AuthFailure::Exchange(error)),
                    };
                    self.wind_down(result)
                },
                _ => self.wind_down(Err(AuthFailure::Protocol)),
            },
            Phase::Closing => {
                let over = match event {
                    Event::Observed(flow) => {
                        if flow.server_closed() {
                            true
                        } else if flow.shutdown_requested() {
                            self.waited = 0;
                            return Action::Wait;
                        } else {
                            self.waited = 0;
                            return Action::RequestShutdown;
                        }
                    },
                    Event::BindFailed(_) => true,
                    _ => {
                        self.waited = 0;
                        return Action::Wait;
                    },
                };
                let tokens = match &self.outcome {
                    Some(Ok(_)) => true,
                    _ => false,
                };
                self.phase = if tokens {
                    Phase::Closed
                } else {
                    Phase::Failed
                };
                Action::Finish
            },
            Phase::Closed => Action::Finish,
            Phase::Failed => Action::Finish,
        }
    }
}

/// Every step keeps the orchestrator well formed.
pub proof fn lemma_next_keeps_wf(c: CoordinatorView, event: Event)
    requires
        c.wf(),
    ensures
        next(c, event).0.wf(),
{
}

/// What the flow was started with never changes.
pub proof fn lemma_inputs_are_fixed(c: CoordinatorView, event: Event)
    ensures
        ({
            let after = next(c, event).0;
            &&& after.addr == c.addr
            &&& after.redirect_uri == c.redirect_uri
            &&& after.client_id == c.client_id
            &&& after.client_secret == c.client_secret
            &&& after.base_url == c.base_url
            &&& after.scope == c.scope
            &&& after.state_key == c.state_key
            &&& after.wait_limit == c.wait_limit
        }),
{
}

/// Without a limit the flow waits for as long as it takes: no step times
/// out.
pub proof fn lemma_no_limit_no_timeout(c: CoordinatorView, event: Event)
    requires
        c.wf(),
        c.wait_limit is None,
        c.outcome != Some(OutcomeView::Timeout),
    ensures
        next(c, event).0.outcome != Some(OutcomeView::Timeout),
{
}

/// Under a limit, a step times out exactly where the flow has waited that
/// many times in a row and what it waits for has still not happened.
pub proof fn lemma_timeout_at_the_limit(c: CoordinatorView, flow: FlowState, limit: u64)
    requires
        c.wf(),
        c.wait_limit == Some(limit),
        c.phase == Phase::ServerStarting && !flow@.server_ready || c.phase
            == Phase::AwaitingRedirect && flow@.authorization_code is None,
    ensures
        c.waited < limit ==> next(c, Event::Observed(flow)).1 == ActionView::Wait && next(
            c,
            Event::Observed(flow),
        ).0.waited == c.waited + 1 && next(c, Event::Observed(flow)).0.phase == c.phase,
        c.waited == limit ==> next(c, Event::Observed(flow)) == c.winding_down(
            OutcomeView::Timeout,
        ),
{
}

/// The flow never goes back to an earlier phase.
pub proof fn lemma_phases_advance(c: CoordinatorView, event: Event)
    ensures
        next(c, event).0.phase.rank() >= c.phase.rank(),
{
}

/// Once the end of the flow is decided, no later event changes it.
pub proof fn lemma_outcome_is_kept(c: CoordinatorView, event: Event)
    requires
        c.wf(),
        c.outcome is Some,
    ensures
        next(c, event).0.outcome == c.outcome,
{
}

/// The caller is told to finish exactly when the flow is over.
pub proof fn lemma_finish_iff_over(c: CoordinatorView, event: Event)
    ensures
        next(c, event).1 is Finish <==> next(c, event).0.phase.is_terminal(),
{
}

/// No step leaves the flow in `CodeReceived`: a code that has arrived is
/// sent on, or found unusable, in the step that receives it.
pub proof fn lemma_code_is_sent_on_at_once(c: CoordinatorView, event: Event)
    requires
        c.phase != Phase::CodeReceived,
    ensures
        next(c, event).0.phase != Phase::CodeReceived,
{
}

/// Ready before the browser: the browser is opened only by the step that
/// saw the listener ready, and only at the authorization URL of this flow.
pub proof fn lemma_ready_before_browser(c: CoordinatorView, event: Event)
    requires
        next(c, event).1 is OpenBrowser,
    ensures
        c.phase == Phase::ServerStarting,
        match event {
            Event::Observed(flow) => flow@.server_ready,
            _ => false,
        },
        c.authorization_url() == Ok::<Seq<char>, UrlError>(next(c, event).1->OpenBrowser_0),
{
}

/// Code before the exchange: the token endpoint is asked only by the step
/// that saw a stored code, and only for that code.
pub proof fn lemma_code_before_exchange(c: CoordinatorView, event: Event)
    requires
        next(c, event).1 is Exchange,
    ensures
        c.phase == Phase::AwaitingRedirect,
        match event {
            Event::Observed(flow) => match flow@.authorization_code {
                Some(code) => c.token_url(code) == Ok::<Seq<char>, UrlError>(
                    next(c, event).1->Exchange_0,
                ),
                None => false,
            },
            _ => false,
        },
{
}

/// Whatever the token endpoint answers, the listener is asked to stop
/// before anything else happens, and the answer decides how the flow ends.
pub proof fn lemma_exchange_winds_down(c: CoordinatorView, reply: ExchangeReply)
    requires
        c.phase == Phase::Exchanging,
    ensures
        next(c, Event::Exchanged(reply)).1 == ActionView::RequestShutdown,
        next(c, Event::Exchanged(reply)).0.phase == Phase::Closing,
        next(c, Event::Exchanged(reply)).0.outcome == Some(from_exchange(outcome_of(reply))),
{
}

/// The flow enters `Closing` only by asking the listener to stop.
pub proof fn lemma_closing_asks_for_shutdown(c: CoordinatorView, event: Event)
    requires
        c.phase != Phase::Closing,
        next(c, event).0.phase == Phase::Closing,
    ensures
        next(c, event).1 == ActionView::RequestShutdown,
{
}

/// Whether the step from `c` on `event` is taken with no listener running:
/// the listener was never asked for, it could not bind, or it was seen
/// closed after it had been asked to stop.
pub open spec fn listener_is_down(c: CoordinatorView, event: Event) -> bool {
    c.phase == Phase::Idle || match event {
        Event::BindFailed(_) => c.phase == Phase::ServerStarting || c.phase == Phase::Closing,
        Event::Observed(flow) => c.phase == Phase::Closing && flow@.server_closed,
        _ => false,
    }
}

/// Shutdown before the end: a step ends the flow only where no listener is
/// running.
pub proof fn lemma_shutdown_before_end(c: CoordinatorView, event: Event)
    requires
        !c.phase.is_terminal(),
        next(c, event).0.phase.is_terminal(),
    ensures
        listener_is_down(c, event),
{
}

/// A listener that is seen closed had been asked to stop.
pub proof fn lemma_closed_was_requested(flow: FlowView)
    requires
        flow.wf(),
        flow.server_closed,
    ensures
        flow.shutdown_requested,
{
}

/// Every run keeps the orchestrator well formed.
pub proof fn lemma_run_keeps_wf(c: CoordinatorView, events: Seq<Event>)
    requires
        c.wf(),
    ensures
        run(c, events).wf(),
    decreases events.len(),
{
    if events.len() > 0 {
        lemma_run_keeps_wf(c, events.drop_last());
        lemma_next_keeps_wf(run(c, events.drop_last()), events.last());
    }
}

/// A flow that is over stays as it is, whatever is reported to it.
pub proof fn lemma_over_is_final(c: CoordinatorView, events: Seq<Event>)
    requires
        c.phase.is_terminal(),
    ensures
        run(c, events) == c,
    decreases events.len(),
{
    if events.len() > 0 {
        lemma_over_is_final(c, events.drop_last());
    }
}

/// No flow returns while its listener runs: in every run that ends the
/// flow, some step was taken with the listener down.
pub proof fn lemma_no_listener_left(c: CoordinatorView, events: Seq<Event>)
    requires
        !c.phase.is_terminal(),
        run(c, events).phase.is_terminal(),
    ensures
        exists|i: int|
            0 <= i < events.len() && listener_is_down(
                #[trigger] run(c, events.subrange(0, i)),
                events[i],
            ),
    decreases events.len(),
{
    let before = events.drop_last();
    let last = events.len() - 1;
    assert(events.len() > 0);
    if run(c, before).phase.is_terminal() {
        lemma_no_listener_left(c, before);
        let i = choose|i: int|
            0 <= i < before.len() && listener_is_down(
                #[trigger] run(c, before.subrange(0, i)),
                before[i],
            );
        assert(before.subrange(0, i) =~= events.subrange(0, i));
        assert(listener_is_down(run(c, events.subrange(0, i)), events[i]));
    } else {
        lemma_shutdown_before_end(run(c, before), events.last());
        assert(events.subrange(0, last) =~= before);
        assert(listener_is_down(run(c, events.subrange(0, last)), events[last]));
    }
}

} // verus!
