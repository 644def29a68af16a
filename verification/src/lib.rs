//! Coordination of a browser-driven OAuth2 authorization-code flow.
//!
//! The crate holds the decisions of the flow: what the callback listener
//! answers, how the shared flow record may change, which step the
//! orchestrator takes next, and which addresses and URLs are used. Sockets,
//! threads, the browser and the HTTP client stay with the caller.

use std::path::PathBuf;
use vstd::prelude::*;

pub mod address;
pub mod callback;
pub mod calls;
pub mod coordinator;
pub mod csrf;
pub mod flags;
pub mod flow;
pub mod token;
pub mod urls;

verus! {

/// `std::path::PathBuf`: a path of the standard library, carried through
/// unread.
#[verifier::external_type_specification]
#[verifier::external_body]
pub struct ExPathBuf(PathBuf);

/// An access token that the user already holds.
pub type Token = String;

/// What the invocation is to do once it holds a token.
pub enum SpecKind {
    GetRewards,
    /// Apply the modifications that the Lua file at this path selects.
    ModifyRewards(PathBuf),
}

/// Where the access token comes from.
pub enum TokenSpec {
    Token(Token),
    Auth(AuthSpec),
}

/// One invocation, validated.
pub struct Spec {
    pub login_name: String,
    pub kind: SpecKind,
    pub token_spec: TokenSpec,
}

/// What one authorization flow needs. It does not change while the flow
/// runs.
pub struct AuthSpec {
    /// The address on which the callback listener listens.
    pub addr: address::SocketAddress,
    /// The address as the user typed it, which serves as the redirect URI.
    pub addr_string: String,
    /// The client id.
    pub app_id: String,
    /// The client secret.
    pub app_secret: String,
}

} // verus!
