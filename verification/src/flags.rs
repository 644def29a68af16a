//! What the command line has to supply, and what is wrong when it does not.

use std::path::PathBuf;
use vstd::prelude::*;
use vstd::string::*;
use crate::address::SocketAddress;
use crate::{AuthSpec, Spec, SpecKind, TokenSpec};

verus! {

/// `std::io::Error`: an I/O error of the standard library, carried through
/// unread.
#[verifier::external_type_specification]
#[verifier::external_body]
pub struct ExIoError(std::io::Error);

/// Why the invocation cannot be turned into a job.
#[derive(Debug)]
pub enum Error {
    AppIdMissing,
    AppSecretMissing,
    AddressMissing,
    /// Neither as a URL nor as a bare host did this string lead to an
    /// address.
    InvalidAddress(String),
    UrlParse(url::ParseError),
    Io(std::io::Error),
}

impl Error {
    /// The text shown to the user for this error.
    pub open spec fn message_text(self) -> Seq<char> {
        match self {
            Error::AppIdMissing => "--app_id flag missing"@,
            Error::AppSecretMissing => "--app_secret flag missing"@,
            Error::AddressMissing => "--address flag missing"@,
            Error::InvalidAddress(address) => "\""@ + address@ + "\" is not a valid address."@,
            Error::UrlParse(_) => "Url parse error"@,
            Error::Io(_) => "I/O error"@,
        }
    }

    /// Whether the error wraps the error of a lower layer.
    pub open spec fn wraps_cause(self) -> bool {
        self is UrlParse || self is Io
    }

    /// Renders the error for the user.
    pub fn message(&self) -> (text: String)
        ensures
            text@ == self.message_text(),
    {
        match self {
            Error::AppIdMissing => String::from_str("--app_id flag missing"),
            Error::AppSecretMissing => String::from_str("--app_secret flag missing"),
            Error::AddressMissing => String::from_str("--address flag missing"),
            Error::InvalidAddress(address) => {
                let mut text = String::from_str("\"");
                text.append(address.as_str());
                text.append("\" is not a valid address.");
                text
            },
            Error::UrlParse(_) => String::from_str("Url parse error"),
            Error::Io(_) => String::from_str("I/O error"),
        }
    }

    /// Whether a lower layer's error stands behind this one: true of a URL
    /// that did not parse and of a failed I/O operation.
    pub fn has_source(&self) -> (wrapped: bool)
        ensures
            wrapped == self.wraps_cause(),
    {
        match self {
            Error::UrlParse(_) => true,
            Error::Io(_) => true,
            _ => false,
        }
    }
}

/// The subcommand of an invocation.
pub enum ArgsCmd {
    GetRewards,
    ModifyRewards {
        /// Path of the Lua file that selects the modifications.
        lua: PathBuf,
    },
}

/// The command line, parsed and not yet validated.
pub struct Args {
    /// The login of the user with the necessary permissions.
    pub login_name: String,
    /// The access token, where the user already has one.
    pub token: Option<String>,
    pub app_id: Option<String>,
    pub app_secret: Option<String>,
    /// Address of the local listener, as registered with the provider.
    pub address: Option<String>,
    pub subcommand: ArgsCmd,
}

/// An invocation that is complete but for the listener's socket address.
pub struct PendingSpec {
    pub login_name: String,
    pub kind: SpecKind,
    pub app_id: String,
    pub app_secret: String,
    /// The address to resolve.
    pub address: String,
}

/// What validation leaves to do.
pub enum Draft {
    /// The user supplied a token: nothing is left to do.
    Ready(Spec),
    /// The flow is to run, once the address is resolved.
    NeedsAddress(PendingSpec),
}

/// The job that a subcommand stands for.
pub open spec fn kind_of(subcommand: ArgsCmd) -> SpecKind {
    match subcommand {
        ArgsCmd::GetRewards => SpecKind::GetRewards,
        ArgsCmd::ModifyRewards { lua } => SpecKind::ModifyRewards(lua),
    }
}

impl Args {
    /// What `to_spec` returns. A token settles everything. Without one the
    /// client id, the client secret and the address are required, and
    /// reported missing in that order.
    pub open spec fn validated(self) -> Result<Draft, Error> {
        match self.token {
            Some(token) => Ok(
                Draft::Ready(
                    Spec {
                        login_name: self.login_name,
                        kind: kind_of(self.subcommand),
                        token_spec: TokenSpec::Token(token),
                    },
                ),
            ),
            None => match (self.app_id, self.app_secret, self.address) {
                (None, _, _) => Err(Error::AppIdMissing),
                (Some(_), None, _) => Err(Error::AppSecretMissing),
                (Some(_), Some(_), None) => Err(Error::AddressMissing),
                (Some(app_id), Some(app_secret), Some(address)) => Ok(
                    Draft::NeedsAddress(
                        PendingSpec {
                            login_name: self.login_name,
                            kind: kind_of(self.subcommand),
                            app_id,
                            app_secret,
                            address,
                        },
                    ),
                ),
            },
        }
    }

    /// Validates the command line. Where the flow is to run, the address is
    /// still to be resolved: `PendingSpec::resolved` completes the job.
    pub fn to_spec(self) -> (result: Result<Draft, Error>)
        ensures
            result == self.validated(),
    {
        let kind = match self.subcommand {
            ArgsCmd::GetRewards => SpecKind::GetRewards,
            ArgsCmd::ModifyRewards { lua } => SpecKind::ModifyRewards(lua),
        };
        if let Some(token) = self.token {
            return Ok(
                Draft::Ready(
                    Spec { login_name: self.login_name, kind, token_spec: TokenSpec::Token(token) },
                ),
            );
        }
        let app_id = match self.app_id {
            Some(app_id) => app_id,
            None => {
                return Err(Error::AppIdMissing);
            },
        };
        let app_secret = match self.app_secret {
            Some(app_secret) => app_secret,
            None => {
                return Err(Error::AppSecretMissing);
            },
        };
        let address = match self.address {
            Some(address) => address,
            None => {
                return Err(Error::AddressMissing);
            },
        };
        Ok(
            Draft::NeedsAddress(
                PendingSpec { login_name: self.login_name, kind, app_id, app_secret, address },
            ),
        )
    }
}

impl PendingSpec {
    /// The job with its flow, now that the listener's address is known.
    pub fn resolved(self, addr: SocketAddress) -> (spec: Spec)
        ensures
            spec == (Spec {
                login_name: self.login_name,
                kind: self.kind,
                token_spec: TokenSpec::Auth(
                    AuthSpec {
                        addr,
                        addr_string: self.address,
                        app_id: self.app_id,
                        app_secret: self.app_secret,
                    },
                ),
            }),
    {
        Spec {
            login_name: self.login_name,
            kind: self.kind,
            token_spec: TokenSpec::Auth(
                AuthSpec {
                    addr,
                    addr_string: self.address,
                    app_id: self.app_id,
                    app_secret: self.app_secret,
                },
            ),
        }
    }
}

} // verus!
