//! How a client and a daemon get to know each other.
use crate::nix_client::{NixDaemonClientError, ProtocolVersion};
use crate::text::{decimal, decimal_of};
use vstd::prelude::*;

verus! {

/// The number that a client introduces itself with.
pub const CLIENT_ONE: u64 = 0x6e69_7863;

/// The number that a daemon answers with.
pub const SERVER_ONE: u64 = 0x6478_696f;

/// The version that the client speaks, 1.35, as it is written in the handshake.
pub const CLIENT_VERSION: u64 = 0x0123;

/// How far a handshake is.
#[derive(Clone, Copy, Debug, PartialEq, Eq, Structural)]
pub enum Handshake {
    /// The client has introduced itself.
    Greeted,
    /// The daemon has answered.
    Answered,
    /// The versions are known.
    Agreed(ProtocolVersion),
    /// The daemon has told which nix it belongs to.
    Described(ProtocolVersion),
}

/// What was read from the daemon.
#[derive(Debug)]
pub enum HandshakeEvent {
    /// A number.
    Number(u64),
    /// A number that stands for a version, or what is wrong with it.
    Version(Result<ProtocolVersion, String>),
    /// A text.
    Text(String),
}

/// What a handshake needs next.
#[derive(Debug)]
pub enum HandshakeAction {
    /// Write these numbers, then read a number.
    ReadNumber(Vec<u64>),
    /// Read a number that stands for a version.
    ReadVersion,
    /// Write these numbers, then read a text of at most so many bytes.
    ReadText(Vec<u64>, usize),
    /// The handshake is over. What the daemon still has to say follows.
    Finish(Result<ProtocolVersion, NixDaemonClientError>),
}

/// The longest text that names a version of nix.
pub const LONGEST_NIX_VERSION: usize = 10;

/// What is said of a daemon that answers with another number.
pub open spec fn magic_text(magic: u64) -> Seq<char> {
    "daemon returned invalid magic in handshake: "@ + decimal(magic as nat)
}

impl Handshake {
    /// Whether an event is what the handshake waits for.
    pub open spec fn awaits(self, event: HandshakeEvent) -> bool {
        match self {
            Handshake::Greeted => event is Number,
            Handshake::Answered => event is Version,
            Handshake::Agreed(_) => event is Text,
            Handshake::Described(_) => event is Number,
        }
    }

    /// Begins a handshake: the client introduces itself.
    pub fn start() -> (r: (Self, HandshakeAction))
        ensures
            r.0 == Handshake::Greeted,
            r.1 matches HandshakeAction::ReadNumber(written) && written@ == seq![CLIENT_ONE],
    {
        let written: Vec<u64> = vec![CLIENT_ONE];
        assert(written@ =~= seq![CLIENT_ONE]);
        (Handshake::Greeted, HandshakeAction::ReadNumber(written))
    }

    /// Goes on with what was read. Only a daemon of nix is talked to; it is told the version that
    /// the client speaks, and two numbers that mean nothing any more. What it says of itself and of
    /// its trust changes nothing. The version that counts is that of the daemon.
    pub fn next(self, event: HandshakeEvent) -> (r: (Self, HandshakeAction))
        requires
            self.awaits(event),
        ensures
            match (self, event) {
                (Handshake::Greeted, HandshakeEvent::Number(magic)) => if magic == SERVER_ONE {
                    r.0 == Handshake::Answered && r.1 is ReadVersion
                } else {
                    r.1 matches HandshakeAction::Finish(
                        Err(NixDaemonClientError::NixDaemonInvalidResponse(text)),
                    ) && text@ == magic_text(magic)
                },
                (Handshake::Answered, HandshakeEvent::Version(Ok(version))) => r.0
                    == Handshake::Agreed(version) && (
                r.1 matches HandshakeAction::ReadText(written, longest) && written@ == seq![
                    CLIENT_VERSION,
                    0u64,
                    0u64,
                ] && longest == LONGEST_NIX_VERSION),
                (Handshake::Answered, HandshakeEvent::Version(Err(error))) => r.1
                    == HandshakeAction::Finish(
                    Err(NixDaemonClientError::NixDaemonInvalidResponse(error)),
                ),
                (Handshake::Agreed(version), _) => r.0 == Handshake::Described(version) && (
                r.1 matches HandshakeAction::ReadNumber(written) && written@.len() == 0),
                (Handshake::Described(version), _) => r.1 == HandshakeAction::Finish(Ok(version)),
                _ => true,
            },
    {
        match (self, event) {
            (Handshake::Greeted, HandshakeEvent::Number(magic)) => {
                if magic != SERVER_ONE {
                    let mut text = "daemon returned invalid magic in handshake: ".to_owned();
                    text.push_str(decimal_of(magic).as_str());
                    return (
                        self,
                        HandshakeAction::Finish(
                            Err(NixDaemonClientError::NixDaemonInvalidResponse(text)),
                        ),
                    );
                }
                (Handshake::Answered, HandshakeAction::ReadVersion)
            },
            (Handshake::Answered, HandshakeEvent::Version(Ok(version))) => {
                let written: Vec<u64> = vec![CLIENT_VERSION, 0, 0];
                assert(written@ =~= seq![CLIENT_VERSION, 0u64, 0u64]);
                (
                    Handshake::Agreed(version),
                    HandshakeAction::ReadText(written, LONGEST_NIX_VERSION),
                )
            },
            (Handshake::Answered, HandshakeEvent::Version(Err(error))) => (
                self,
                HandshakeAction::Finish(
                    Err(NixDaemonClientError::NixDaemonInvalidResponse(error)),
                ),
            ),
            (Handshake::Agreed(version), _) => (
                Handshake::Described(version),
                HandshakeAction::ReadNumber(Vec::new()),
            ),
            (Handshake::Described(version), _) => (self, HandshakeAction::Finish(Ok(version))),
            _ => (self, HandshakeAction::ReadVersion),
        }
    }
}

} // verus!
