//! The record that the callback listener and the orchestrator share.

use vstd::prelude::*;

verus! {

/// The shared record as a mathematical value.
pub struct FlowView {
    pub authorization_code: Option<Seq<char>>,
    pub server_ready: bool,
    pub shutdown_requested: bool,
    pub server_closed: bool,
}

impl FlowView {
    /// The record of a flow in which nothing has happened yet.
    pub open spec fn initial() -> FlowView {
        FlowView {
            authorization_code: None,
            server_ready: false,
            shutdown_requested: false,
            server_closed: false,
        }
    }

    /// A listener is closed only after it was asked to stop, and a stored
    /// code is never empty.
    pub open spec fn wf(self) -> bool {
        &&& self.server_closed ==> self.shutdown_requested
        &&& self.authorization_code matches Some(code) ==> code.len() > 0
    }

    /// The listener has bound its socket.
    pub open spec fn ready(self) -> FlowView {
        FlowView { server_ready: true, ..self }
    }

    /// A redirect delivered `code`. The first non-empty code is kept; later
    /// ones, and empty ones, change nothing.
    pub open spec fn with_code(self, code: Seq<char>) -> FlowView {
        if self.authorization_code is Some || code.len() == 0 {
            self
        } else {
            FlowView { authorization_code: Some(code), ..self }
        }
    }

    /// The orchestrator asks the listener to stop.
    pub open spec fn shutdown(self) -> FlowView {
        FlowView { shutdown_requested: true, ..self }
    }

    /// The listener stops, which it may only do once it was asked to.
    pub open spec fn closed(self) -> FlowView {
        if self.shutdown_requested {
            FlowView { server_closed: true, ..self }
        } else {
            self
        }
    }
}

/// One change of the shared record.
pub enum Transition {
    MarkReady,
    RecordCode(Seq<char>),
    RequestShutdown,
    MarkClosed,
}

/// The record after one change.
pub open spec fn apply(view: FlowView, transition: Transition) -> FlowView {
    match transition {
        Transition::MarkReady => view.ready(),
        Transition::RecordCode(code) => view.with_code(code),
        Transition::RequestShutdown => view.shutdown(),
        Transition::MarkClosed => view.closed(),
    }
}

/// The record after a sequence of changes, applied first to last.
pub open spec fn apply_all(view: FlowView, transitions: Seq<Transition>) -> FlowView
    decreases transitions.len(),
{
    if transitions.len() == 0 {
        view
    } else {
        apply(apply_all(view, transitions.drop_last()), transitions.last())
    }
}

/// The state shared by the listener and the orchestrator of one flow.
pub struct FlowState {
    authorization_code: Option<String>,
    server_ready: bool,
    shutdown_requested: bool,
    server_closed: bool,
}

impl View for FlowState {
    type V = FlowView;

    closed spec fn view(&self) -> FlowView {
        FlowView {
            authorization_code: match self.authorization_code {
                Some(code) => Some(code@),
                None => None,
            },
            server_ready: self.server_ready,
            shutdown_requested: self.shutdown_requested,
            server_closed: self.server_closed,
        }
    }
}

impl FlowState {
    #[verifier::type_invariant]
    spec fn inv(self) -> bool {
        self@.wf()
    }

    /// The record of a flow that has not started.
    pub fn new() -> (state: FlowState)
        ensures
            state@ == FlowView::initial(),
    {
        FlowState {
            authorization_code: None,
            server_ready: false,
            shutdown_requested: false,
            server_closed: false,
        }
    }

    /// Every record that exists is well formed.
    pub fn check_wf(&self)
        ensures
            self@.wf(),
    {
        proof {
            use_type_invariant(self);
        }
    }

    /// Records that the listener has bound its socket.
    pub fn mark_ready(&mut self)
        ensures
            final(self)@ == old(self)@.ready(),
    {
        proof {
            use_type_invariant(&*self);
        }
        self.server_ready = true;
    }

    /// Stores `code` if none is stored yet and `code` is not empty. Returns
    /// whether this call stored it.
    pub fn record_code(&mut self, code: String) -> (stored: bool)
        ensures
            final(self)@ == old(self)@.with_code(code@),
            stored == (old(self)@.authorization_code is None && code@.len() > 0),
    {
        proof {
            use_type_invariant(&*self);
        }
        if self.authorization_code.is_some() || code.as_str().is_empty() {
            false
        } else {
            self.authorization_code = Some(code);
            true
        }
    }

    /// Asks the listener to stop. Asking again changes nothing.
    pub fn request_shutdown(&mut self)
        ensures
            final(self)@ == old(self)@.shutdown(),
    {
        proof {
            use_type_invariant(&*self);
        }
        self.shutdown_requested = true;
    }

    /// Records that the listener has stopped, provided it was asked to.
    /// Returns whether the record now says closed.
    pub fn mark_closed(&mut self) -> (closed: bool)
        ensures
            final(self)@ == old(self)@.closed(),
            closed == final(self)@.server_closed,
    {
        proof {
            use_type_invariant(&*self);
        }
        if self.shutdown_requested {
            self.server_closed = true;
        }
        self.server_closed
    }

    /// The stored authorization code, if any.
    pub fn authorization_code(&self) -> (code: Option<String>)
        ensures
            code is Some == self@.authorization_code is Some,
            code matches Some(c) ==> self@.authorization_code == Some(c@),
    {
        match &self.authorization_code {
            Some(code) => Some(code.clone()),
            None => None,
        }
    }

    pub fn server_ready(&self) -> (ready: bool)
        ensures
            ready == self@.server_ready,
    {
        self.server_ready
    }

    pub fn shutdown_requested(&self) -> (requested: bool)
        ensures
            requested == self@.shutdown_requested,
    {
        self.shutdown_requested
    }

    pub fn server_closed(&self) -> (closed: bool)
        ensures
            closed == self@.server_closed,
    {
        self.server_closed
    }

    /// A copy of the record as it is now.
    pub fn snapshot(&self) -> (copy: FlowState)
        ensures
            copy@ == self@,
    {
        proof {
            use_type_invariant(self);
        }
        FlowState {
            authorization_code: match &self.authorization_code {
                Some(code) => Some(code.clone()),
                None => None,
            },
            server_ready: self.server_ready,
            shutdown_requested: self.shutdown_requested,
            server_closed: self.server_closed,
        }
    }
}

/// Every change keeps the record well formed.
pub proof fn lemma_transition_keeps_wf(view: FlowView, transition: Transition)
    requires
        view.wf(),
    ensures
        apply(view, transition).wf(),
{
}

/// Whatever happens in a flow, its record is well formed: in particular the
/// listener is never recorded as closed before it was asked to stop.
pub proof fn lemma_flow_is_wf(transitions: Seq<Transition>)
    ensures
        apply_all(FlowView::initial(), transitions).wf(),
    decreases transitions.len(),
{
    if transitions.len() > 0 {
        lemma_flow_is_wf(transitions.drop_last());
        lemma_transition_keeps_wf(
            apply_all(FlowView::initial(), transitions.drop_last()),
            transitions.last(),
        );
    }
}

/// A stored authorization code is never cleared or overwritten.
pub proof fn lemma_code_is_kept(view: FlowView, transitions: Seq<Transition>)
    requires
        view.authorization_code is Some,
    ensures
        apply_all(view, transitions).authorization_code == view.authorization_code,
    decreases transitions.len(),
{
    if transitions.len() > 0 {
        lemma_code_is_kept(view, transitions.drop_last());
    }
}

/// The first redirect that carries a non-empty code decides the stored code;
/// a second one does not overwrite it.
pub proof fn lemma_first_code_wins(view: FlowView, first: Seq<char>, second: Seq<char>)
    requires
        view.authorization_code is None,
        first.len() > 0,
    ensures
        view.with_code(first).authorization_code == Some(first),
        view.with_code(first).with_code(second) == view.with_code(first),
{
}

/// The three flags only ever go from false to true.
pub proof fn lemma_flags_are_monotone(view: FlowView, transitions: Seq<Transition>)
    ensures
        view.server_ready ==> apply_all(view, transitions).server_ready,
        view.shutdown_requested ==> apply_all(view, transitions).shutdown_requested,
        view.server_closed ==> apply_all(view, transitions).server_closed,
    decreases transitions.len(),
{
    if transitions.len() > 0 {
        lemma_flags_are_monotone(view, transitions.drop_last());
    }
}

/// Asking for shutdown twice is the same as asking once, and so is closing
/// twice.
pub proof fn lemma_shutdown_is_idempotent(view: FlowView)
    ensures
        view.shutdown().shutdown() == view.shutdown(),
        view.closed().closed() == view.closed(),
        view.shutdown().closed().shutdown() == view.shutdown().closed(),
{
}

} // verus!
