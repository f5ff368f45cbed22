//! The protocol state machine: shared vocabulary of its sub-protocols.

use vstd::prelude::*;
use std::sync::Arc;
use vstd::string::*;
use crate::chain::ServiceFlags;
use crate::net::SocketAddr;
use crate::text::{decimal, push_decimal};

pub mod event;
pub mod output;
pub mod pingmgr;

verus! {

/// Identifies a peer: its network address.
pub type PeerId = SocketAddr;

/// Block height.
pub type Height = u64;

/// Why a peer is being disconnected by the state machine.
#[derive(Clone, Copy, Debug, PartialEq, Eq)]
pub enum DisconnectReason {
    /// The peer is misbehaving, for the given reason.
    PeerMisbehaving(&'static str),
    /// The peer's protocol version is too old or too recent.
    PeerProtocolVersion(u32),
    /// The peer does not offer the required services.
    PeerServices(ServiceFlags),
    /// The peer's chain is too far behind.
    PeerHeight(Height),
    /// The peer sent a message with the wrong network magic.
    PeerMagic(u32),
    /// The peer did not answer in time; names the sub-protocol that waited.
    PeerTimeout(&'static str),
    /// A connection to ourselves was detected.
    SelfConnection,
    /// The limit on inbound connections was reached.
    ConnectionLimit,
    /// An external command asked for the disconnection.
    Command,
    /// Another reason.
    Other(&'static str),
}

/// A fault reported by the environment, known by its message only.
#[derive(Clone, Debug, PartialEq, Eq)]
pub struct Fault {
    /// What went wrong, in words.
    pub message: String,
}

/// Why a peer got disconnected.
#[derive(Clone, Debug)]
pub enum Disconnect {
    /// The connection could not be established.
    DialError(Arc<Fault>),
    /// The connection broke.
    ConnectionError(Arc<Fault>),
    /// The state machine asked for the disconnection.
    StateMachine(DisconnectReason),
}

/// Transaction fee rates of a block, in satoshis per virtual byte.
#[derive(Clone, Copy, Debug, PartialEq, Eq, Structural)]
pub struct FeeEstimate {
    /// The lowest fee rate included in the block.
    pub low: u64,
    /// The median fee rate of the block.
    pub median: u64,
    /// The highest fee rate included in the block.
    pub high: u64,
}

impl DisconnectReason {
    /// The reason in words.
    pub open spec fn text(self) -> Seq<char> {
        match self {
            DisconnectReason::PeerMisbehaving(reason) => "peer misbehaving: "@ + reason@,
            DisconnectReason::PeerProtocolVersion(_) => "peer protocol version mismatch"@,
            DisconnectReason::PeerServices(_) => "peer doesn't have the required services"@,
            DisconnectReason::PeerHeight(_) => "peer is too far behind"@,
            DisconnectReason::PeerMagic(magic) => "received message with invalid magic: "@
                + decimal(magic as nat),
            DisconnectReason::PeerTimeout(what) => "peer timed out: \""@ + what@ + "\""@,
            DisconnectReason::SelfConnection => "detected self-connection"@,
            DisconnectReason::ConnectionLimit => "inbound connection limit reached"@,
            DisconnectReason::Command => "received external command"@,
            DisconnectReason::Other(reason) => reason@,
        }
    }

    /// Appends the reason in words to `s`.
    pub fn push_to(&self, s: &mut String)
        ensures
            final(s)@ == old(s)@ + self.text(),
    {
        match *self {
            DisconnectReason::PeerMisbehaving(reason) => {
                s.append("peer misbehaving: ");
                s.append(reason);
            },
            DisconnectReason::PeerProtocolVersion(_) => {
                s.append("peer protocol version mismatch");
            },
            DisconnectReason::PeerServices(_) => {
                s.append("peer doesn't have the required services");
            },
            DisconnectReason::PeerHeight(_) => {
                s.append("peer is too far behind");
            },
            DisconnectReason::PeerMagic(magic) => {
                s.append("received message with invalid magic: ");
                push_decimal(s, magic as u128);
            },
            DisconnectReason::PeerTimeout(what) => {
                s.append("peer timed out: \"");
                s.append(what);
                s.append("\"");
            },
            DisconnectReason::SelfConnection => {
                s.append("detected self-connection");
            },
            DisconnectReason::ConnectionLimit => {
                s.append("inbound connection limit reached");
            },
            DisconnectReason::Command => {
                s.append("received external command");
            },
            DisconnectReason::Other(reason) => {
                s.append(reason);
            },
        }
        assert(s@ =~= old(s)@ + self.text());
    }

    /// The reason in words.
    pub fn to_string(&self) -> (s: String)
        ensures
            s@ == self.text(),
    {
        let mut s = String::new();
        self.push_to(&mut s);
        assert(s@ =~= self.text());
        s
    }
}

impl Disconnect {
    /// The cause of the disconnection in words: the message of the fault, or
    /// the state machine's reason.
    pub open spec fn text(self) -> Seq<char> {
        match self {
            Disconnect::DialError(fault) => fault.message@,
            Disconnect::ConnectionError(fault) => fault.message@,
            Disconnect::StateMachine(reason) => reason.text(),
        }
    }

    /// Appends the cause of the disconnection in words to `s`.
    pub fn push_to(&self, s: &mut String)
        ensures
            final(s)@ == old(s)@ + self.text(),
    {
        match self {
            Disconnect::DialError(fault) => {
                s.append(fault.message.as_str());
            },
            Disconnect::ConnectionError(fault) => {
                s.append(fault.message.as_str());
            },
            Disconnect::StateMachine(reason) => {
                reason.push_to(s);
            },
        }
    }
}

} // verus!
