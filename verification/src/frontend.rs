//! The call flows: the decision logic of the asynchronous operations that
//! talk to the backend through the connection guard.
//!
//! Each flow is a little state machine that the driver walks: it performs
//! the step the flow asks for — establishing a connection, sending a call —
//! and feeds the result back, until the flow reports the overall outcome.
//! The flows only decide; every await, socket and lock stays with the
//! driver.

use vstd::prelude::*;

use crate::data::{
    GetItemsResponse, GetItemsView, Items, LoginResult, RpcCallResult, Token,
};

verus! {

/// Where a login (or register-and-login) flow stands.
#[derive(Debug, PartialEq, Eq, Structural, Clone, Copy)]
pub enum AuthPhase {
    /// Waiting for exclusive possession of the connection slot.
    AtSlot,
    /// A connection is being established.
    AwaitConnect,
    /// The registration call is in flight.
    AwaitRegister,
    /// The credential exchange is in flight.
    AwaitAuth,
    /// The flow has reported its outcome.
    Done,
}

/// What an authentication flow asks the driver to do next.
#[derive(Debug)]
pub enum AuthStep {
    /// Establish a connection to the configured address.
    Connect,
    /// Send the registration call.
    Register,
    /// Send the credential exchange.
    Auth,
    /// The flow is over without a credential exchange: report this failure.
    Fail(LoginResult),
}

/// The decisions of one login attempt: take the slot, establish a
/// connection if the slot is empty (failing with `NotConnected` if that
/// fails, without attempting the exchange), optionally register first (a
/// registration failure short-circuits), then exchange credentials.  The
/// handle is returned to the slot in every outcome but a failed
/// establishment, which leaves the slot empty.
pub struct AuthFlow {
    register_first: bool,
    phase: AuthPhase,
}

impl AuthFlow {
    /// Which phase the flow is in.
    pub closed spec fn phase(self) -> AuthPhase {
        self.phase
    }

    /// Whether this flow registers before exchanging credentials.
    pub closed spec fn registers_first(self) -> bool {
        self.register_first
    }

    /// The step that follows a successfully borrowed, occupied-or-connected
    /// slot: register first if this flow wants to, else exchange.
    pub open spec fn spec_call_step(self) -> (AuthPhase, AuthStep) {
        if self.registers_first() {
            (AuthPhase::AwaitRegister, AuthStep::Register)
        } else {
            (AuthPhase::AwaitAuth, AuthStep::Auth)
        }
    }

    /// A fresh flow, about to wait for the slot.
    pub fn new(register_first: bool) -> (f: AuthFlow)
        ensures
            f.phase() == AuthPhase::AtSlot,
            f.registers_first() == register_first,
    {
        AuthFlow { register_first, phase: AuthPhase::AtSlot }
    }

    /// The slot was borrowed; `present` says whether it held a handle.
    /// With a handle the calls start; without one a connection must first
    /// be established.
    pub fn on_slot(&mut self, present: bool) -> (s: AuthStep)
        requires
            old(self).phase() == AuthPhase::AtSlot,
        ensures
            final(self).registers_first() == old(self).registers_first(),
            present ==> final(self).phase() == old(self).spec_call_step().0 && s
                == old(self).spec_call_step().1,
            !present ==> final(self).phase() == AuthPhase::AwaitConnect && s matches
                AuthStep::Connect,
    {
        if present {
            self.call_step()
        } else {
            self.phase = AuthPhase::AwaitConnect;
            AuthStep::Connect
        }
    }

    /// The establishment attempt came back.  On failure the flow is over
    /// with `NotConnected`: no call is attempted, and the slot stays empty.
    pub fn on_connect_finished(&mut self, ok: bool) -> (s: AuthStep)
        requires
            old(self).phase() == AuthPhase::AwaitConnect,
        ensures
            final(self).registers_first() == old(self).registers_first(),
            ok ==> final(self).phase() == old(self).spec_call_step().0 && s == old(
                self,
            ).spec_call_step().1,
            !ok ==> final(self).phase() == AuthPhase::Done && s matches AuthStep::Fail(
                LoginResult::NotConnected,
            ),
    {
        if ok {
            self.call_step()
        } else {
            self.phase = AuthPhase::Done;
            AuthStep::Fail(LoginResult::NotConnected)
        }
    }

    /// The registration call came back.  Failure short-circuits the flow
    /// with `RegisterFailed` before any credential exchange; success moves
    /// on to the exchange.
    pub fn on_register_result(&mut self, ok: bool) -> (s: AuthStep)
        requires
            old(self).phase() == AuthPhase::AwaitRegister,
        ensures
            ok ==> final(self).phase() == AuthPhase::AwaitAuth && s matches AuthStep::Auth,
            !ok ==> final(self).phase() == AuthPhase::Done && s matches AuthStep::Fail(
                LoginResult::RegisterFailed,
            ),
    {
        if ok {
            self.phase = AuthPhase::AwaitAuth;
            AuthStep::Auth
        } else {
            self.phase = AuthPhase::Done;
            AuthStep::Fail(LoginResult::RegisterFailed)
        }
    }

    /// The credential exchange came back: the flow is over.  A token is
    /// passed through; a rejection becomes `ServerError` carrying the
    /// rendering of the server's status.
    pub fn on_auth_result(&mut self, result: Result<Token, String>) -> (r: Result<
        Token,
        LoginResult,
    >)
        requires
            old(self).phase() == AuthPhase::AwaitAuth,
        ensures
            final(self).phase() == AuthPhase::Done,
            match result {
                Ok(t) => r matches Ok(t2) && t2.deep_view() == t.deep_view(),
                Err(status) => r matches Err(LoginResult::ServerError(s)) && s@ == status@,
            },
    {
        self.phase = AuthPhase::Done;
        match result {
            Ok(t) => Ok(t),
            Err(status) => Err(LoginResult::ServerError(status)),
        }
    }

    /// Move to the first call of the flow.
    fn call_step(&mut self) -> (s: AuthStep)
        ensures
            final(self).registers_first() == old(self).registers_first(),
            final(self).phase() == old(self).spec_call_step().0,
            s == old(self).spec_call_step().1,
    {
        if self.register_first {
            self.phase = AuthPhase::AwaitRegister;
            AuthStep::Register
        } else {
            self.phase = AuthPhase::AwaitAuth;
            AuthStep::Auth
        }
    }
}

/// Where a data-call flow stands.
#[derive(Debug, PartialEq, Eq, Structural, Clone, Copy)]
pub enum CallPhase {
    /// Waiting for exclusive possession of the connection slot.
    AtSlot,
    /// A connection is being established.
    AwaitConnect,
    /// The call is in flight.
    AwaitCall,
    /// The flow has reported its outcome.
    Done,
}

/// What a data-call flow asks the driver to do next.
#[derive(Debug)]
pub enum CallStep {
    /// Establish a connection to the configured address.
    Connect,
    /// Send the call.
    Call,
    /// The flow is over without the call: report this failure.
    Fail(RpcCallResult),
}

/// The decisions of one data call through the guard: take the slot,
/// establish a connection if the slot is empty (failing with
/// `NotConnected`, without attempting the call, if that fails), then send
/// the call.  The handle is returned to the slot afterwards; a failed call
/// is reported as `CallFailed` with the error's rendering.
pub struct CallFlow {
    phase: CallPhase,
}

impl CallFlow {
    /// Which phase the flow is in.
    pub closed spec fn phase(self) -> CallPhase {
        self.phase
    }

    /// A fresh flow, about to wait for the slot.
    pub fn new() -> (f: CallFlow)
        ensures
            f.phase() == CallPhase::AtSlot,
    {
        CallFlow { phase: CallPhase::AtSlot }
    }

    /// The slot was borrowed; `present` says whether it held a handle.
    pub fn on_slot(&mut self, present: bool) -> (s: CallStep)
        requires
            old(self).phase() == CallPhase::AtSlot,
        ensures
            present ==> final(self).phase() == CallPhase::AwaitCall && s matches CallStep::Call,
            !present ==> final(self).phase() == CallPhase::AwaitConnect && s matches
                CallStep::Connect,
    {
        if present {
            self.phase = CallPhase::AwaitCall;
            CallStep::Call
        } else {
            self.phase = CallPhase::AwaitConnect;
            CallStep::Connect
        }
    }

    /// The establishment attempt came back.  On failure the flow is over
    /// with `NotConnected`: the call is never attempted.
    pub fn on_connect_finished(&mut self, ok: bool) -> (s: CallStep)
        requires
            old(self).phase() == CallPhase::AwaitConnect,
        ensures
            ok ==> final(self).phase() == CallPhase::AwaitCall && s matches CallStep::Call,
            !ok ==> final(self).phase() == CallPhase::Done && s matches CallStep::Fail(
                RpcCallResult::NotConnected,
            ),
    {
        if ok {
            self.phase = CallPhase::AwaitCall;
            CallStep::Call
        } else {
            self.phase = CallPhase::Done;
            CallStep::Fail(RpcCallResult::NotConnected)
        }
    }

    /// The call came back: the flow is over.  An error becomes
    /// `CallFailed` carrying the rendering the driver made of it.
    pub fn on_call_error(&mut self, message: String) -> (e: RpcCallResult)
        requires
            old(self).phase() == CallPhase::AwaitCall,
        ensures
            final(self).phase() == CallPhase::Done,
            e matches RpcCallResult::CallFailed(m) && m@ == message@,
    {
        self.phase = CallPhase::Done;
        RpcCallResult::CallFailed(message)
    }

    /// The call came back successfully: the flow is over.
    pub fn on_call_ok(&mut self)
        requires
            old(self).phase() == CallPhase::AwaitCall,
        ensures
            final(self).phase() == CallPhase::Done,
    {
        self.phase = CallPhase::Done;
    }
}

/// Shape an item fetch's flat response by the scope that was asked for: a
/// fetch scoped to one shelf comes back tagged with that shelf, an unscoped
/// fetch as the full flat list.
pub fn classify_items_response(shelf_id: Option<String>, items: Items) -> (r: GetItemsResponse)
    ensures
        r.deep_view() == match shelf_id.deep_view() {
            Some(s) => GetItemsView::ShelfItems(s, items.deep_view()),
            None => GetItemsView::AllItems(items.deep_view()),
        },
{
    match shelf_id {
        Some(shelf) => GetItemsResponse::ShelfItems(shelf, items),
        None => GetItemsResponse::AllItems(items),
    }
}

} // verus!
