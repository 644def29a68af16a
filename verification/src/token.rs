//! What the token endpoint's answer amounts to.

use vstd::prelude::*;
use vstd::string::*;

verus! {

/// The two tokens that the provider issues for an authorization code.
#[derive(Debug, PartialEq, Eq)]
pub struct TokenPair {
    pub access_token: String,
    pub refresh_token: String,
}

/// What came back from posting the code to the token endpoint.
#[derive(Debug, PartialEq, Eq)]
pub enum ExchangeReply {
    /// The request did not get an answer that could be read; the text says
    /// why.
    TransportFailed(String),
    /// The answer was not a JSON object with the strings `access_token` and
    /// `refresh_token`; the text says why.
    Malformed(String),
    /// The answer carried these two strings.
    Tokens { access_token: String, refresh_token: String },
}

/// Why the exchange produced no tokens.
#[derive(Debug, PartialEq, Eq)]
pub enum ExchangeError {
    Transport(String),
    Parse(String),
    /// The answer was well formed and its access token is empty.
    EmptyAccessToken,
}

/// The outcome of an exchange as a mathematical value.
pub enum ExchangeView {
    Tokens { access_token: Seq<char>, refresh_token: Seq<char> },
    Transport(Seq<char>),
    Parse(Seq<char>),
    EmptyAccessToken,
}

/// What a reply amounts to: tokens where it carries a non-empty access
/// token, and the matching error where not.
pub open spec fn outcome_of(reply: ExchangeReply) -> ExchangeView {
    match reply {
        ExchangeReply::TransportFailed(reason) => ExchangeView::Transport(reason@),
        ExchangeReply::Malformed(reason) => ExchangeView::Parse(reason@),
        ExchangeReply::Tokens { access_token, refresh_token } => if access_token@.len() == 0 {
            ExchangeView::EmptyAccessToken
        } else {
            ExchangeView::Tokens { access_token: access_token@, refresh_token: refresh_token@ }
        },
    }
}

/// The result of an exchange as a mathematical value.
pub open spec fn exchange_view(result: Result<TokenPair, ExchangeError>) -> ExchangeView {
    match result {
        Ok(pair) => ExchangeView::Tokens {
            access_token: pair.access_token@,
            refresh_token: pair.refresh_token@,
        },
        Err(ExchangeError::Transport(reason)) => ExchangeView::Transport(reason@),
        Err(ExchangeError::Parse(reason)) => ExchangeView::Parse(reason@),
        Err(ExchangeError::EmptyAccessToken) => ExchangeView::EmptyAccessToken,
    }
}

/// Turns the reply of the token endpoint into the token pair, or into the
/// error that it stands for.
pub fn conclude(reply: ExchangeReply) -> (result: Result<TokenPair, ExchangeError>)
    ensures
        exchange_view(result) == outcome_of(reply),
{
    match reply {
        ExchangeReply::TransportFailed(reason) => Err(ExchangeError::Transport(reason)),
        ExchangeReply::Malformed(reason) => Err(ExchangeError::Parse(reason)),
        ExchangeReply::Tokens { access_token, refresh_token } => {
            if access_token.as_str().is_empty() {
                Err(ExchangeError::EmptyAccessToken)
            } else {
                Ok(TokenPair { access_token, refresh_token })
            }
        },
    }
}

/// An exchange succeeds exactly when the reply carries a non-empty access
/// token, and then it returns the two tokens of the reply; a reply with an
/// empty access token is the error `EmptyAccessToken`.
pub proof fn lemma_exchange_succeeds_iff_token(reply: ExchangeReply)
    ensures
        match reply {
            ExchangeReply::Tokens { access_token, refresh_token } => if access_token@.len() > 0 {
                outcome_of(reply) == (ExchangeView::Tokens {
                    access_token: access_token@,
                    refresh_token: refresh_token@,
                })
            } else {
                outcome_of(reply) == ExchangeView::EmptyAccessToken
            },
            _ => !(outcome_of(reply) is Tokens) && !(outcome_of(reply) is EmptyAccessToken),
        },
{
}

} // verus!
