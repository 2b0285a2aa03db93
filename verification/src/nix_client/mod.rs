//! A client of the nix daemon.
pub mod closure;
pub mod framing;
pub mod handshake;
pub mod operations;
pub mod order;
pub mod push;
pub mod stderr;
pub mod stderr_laws;

use crate::text::{decimal, decimal_of, quote, quoted};
use vstd::prelude::*;

verus! {

/// A version of the daemon protocol.
#[derive(Clone, Copy, Debug, PartialEq, Eq, Structural)]
pub struct ProtocolVersion {
    pub major: u8,
    pub minor: u8,
}

impl ProtocolVersion {
    /// A version from its parts.
    pub fn from_parts(major: u8, minor: u8) -> (r: Self)
        ensures
            r == (ProtocolVersion { major, minor }),
    {
        ProtocolVersion { major, minor }
    }

    /// Whether this version is the other or a later one.
    pub open spec fn is_at_least(self, major: u8, minor: u8) -> bool {
        self.major > major || self.major == major && self.minor >= minor
    }

    /// Tells whether this version is the other or a later one.
    pub fn at_least(&self, major: u8, minor: u8) -> (r: bool)
        ensures
            r == self.is_at_least(major, minor),
    {
        self.major > major || self.major == major && self.minor >= minor
    }
}

/// Why the daemon could not do what it was asked.
#[derive(Debug)]
pub enum NixDaemonClientError {
    /// Reading or writing failed.
    NixDaemonIO(String),
    NixDaemonInvalidResponse(String),
    NixDaemonOperationFailed(String),
    NixDaemonConnectionFailure(String),
    /// The daemon is too old for the operation.
    NixDaemonProtocolVersion { wanted: ProtocolVersion, have: ProtocolVersion, operation: String },
    /// The daemon reports an error.
    NixDaemonOperationError { name: String, msg: String },
    /// The user asked for an early end.
    Sigint,
}

/// A version as it is shown.
pub open spec fn version_text(version: ProtocolVersion) -> Seq<char> {
    decimal(version.major as nat) + "."@ + decimal(version.minor as nat)
}

impl ProtocolVersion {
    /// The version as it is shown.
    pub fn to_string(&self) -> (s: String)
        ensures
            s@ == version_text(*self),
    {
        let mut s = decimal_of(self.major as u64);
        s.push_str(".");
        s.push_str(decimal_of(self.minor as u64).as_str());
        s
    }
}

impl NixDaemonClientError {
    /// What is said of the error.
    pub open spec fn text(self) -> Seq<char> {
        match self {
            NixDaemonClientError::NixDaemonIO(_) => "nix daemon io error"@,
            NixDaemonClientError::NixDaemonInvalidResponse(text) => {
                "nix daemon returned an invalid response: "@ + text@
            },
            NixDaemonClientError::NixDaemonOperationFailed(text) => {
                "nix daemon operation failed: "@ + text@
            },
            NixDaemonClientError::NixDaemonConnectionFailure(_) => {
                "failed to connect to nix daemon"@
            },
            NixDaemonClientError::NixDaemonProtocolVersion { wanted, have, operation } => {
                "the nix daemon protocol version is too old for wire to perform "@ + quoted(
                    operation@,
                ) + "! want atleast "@ + version_text(wanted) + ", have "@ + version_text(have)
            },
            NixDaemonClientError::NixDaemonOperationError { name, msg } => name@ + ": "@ + msg@,
            NixDaemonClientError::Sigint => "SIGINT received, shut down"@,
        }
    }

    /// What is said of the error.
    pub fn to_string(&self) -> (s: String)
        ensures
            s@ == self.text(),
    {
        match self {
            NixDaemonClientError::NixDaemonIO(_) => "nix daemon io error".to_owned(),
            NixDaemonClientError::NixDaemonInvalidResponse(text) => {
                let mut s = "nix daemon returned an invalid response: ".to_owned();
                s.push_str(text.as_str());
                s
            },
            NixDaemonClientError::NixDaemonOperationFailed(text) => {
                let mut s = "nix daemon operation failed: ".to_owned();
                s.push_str(text.as_str());
                s
            },
            NixDaemonClientError::NixDaemonConnectionFailure(_) => {
                "failed to connect to nix daemon".to_owned()
            },
            NixDaemonClientError::NixDaemonProtocolVersion { wanted, have, operation } => {
                let mut s =
                    "the nix daemon protocol version is too old for wire to perform ".to_owned();
                s.push_str(quote(operation.as_str()).as_str());
                s.push_str("! want atleast ");
                s.push_str(wanted.to_string().as_str());
                s.push_str(", have ");
                s.push_str(have.to_string().as_str());
                s
            },
            NixDaemonClientError::NixDaemonOperationError { name, msg } => {
                let mut s = name.clone();
                s.push_str(": ");
                s.push_str(msg.as_str());
                s
            },
            NixDaemonClientError::Sigint => "SIGINT received, shut down".to_owned(),
        }
    }

    /// What is said of the error that led to this one, where there is one.
    pub open spec fn cause_text(self) -> Option<Seq<char>> {
        match self {
            NixDaemonClientError::NixDaemonIO(cause) => Some(cause@),
            NixDaemonClientError::NixDaemonConnectionFailure(cause) => Some(cause@),
            _ => None,
        }
    }

    /// What is said of the error that led to this one, where there is one.
    pub fn source(&self) -> (r: Option<String>)
        ensures
            match r {
                Some(s) => self.cause_text() == Some(s@),
                None => self.cause_text() is None,
            },
    {
        match self {
            NixDaemonClientError::NixDaemonIO(cause) => Some(cause.clone()),
            NixDaemonClientError::NixDaemonConnectionFailure(cause) => Some(cause.clone()),
            _ => None,
        }
    }
}

} // verus!
