//! Effects of the state machine and the queue they wait in.

use std::collections::VecDeque;
use vstd::prelude::*;
use crate::fsm::{DisconnectReason, PeerId};
use crate::time::LocalDuration;

verus! {

/// A protocol message, as far as the state machine looks into it.
#[derive(Clone, Copy, Debug, PartialEq, Eq)]
pub enum NetworkMessage {
    /// A `ping` carrying a nonce.
    Ping(u64),
    /// A `pong` echoing the nonce of a `ping`.
    Pong(u64),
    /// Any other message, known by its command name only.
    Other { command: &'static str },
}

impl NetworkMessage {
    /// The command name of the message.
    pub open spec fn command(self) -> Seq<char> {
        match self {
            NetworkMessage::Ping(_) => "ping"@,
            NetworkMessage::Pong(_) => "pong"@,
            NetworkMessage::Other { command } => command@,
        }
    }

    /// Return the message command as a static string reference.
    pub fn cmd(&self) -> (name: &'static str)
        ensures
            name@ == self.command(),
    {
        match *self {
            NetworkMessage::Ping(_) => "ping",
            NetworkMessage::Pong(_) => "pong",
            NetworkMessage::Other { command } => command,
        }
    }
}

/// An action for the environment to carry out.
#[derive(Clone, Debug, PartialEq, Eq)]
pub enum Io {
    /// Send a message to a peer.
    Write(PeerId, NetworkMessage),
    /// Ask to be woken up after the given duration.
    SetTimer(LocalDuration),
    /// Disconnect from a peer.
    Disconnect(PeerId, DisconnectReason),
}

/// A queue of pending effects, drained in the order they were queued.
#[derive(Debug)]
pub struct Outbox {
    outbound: VecDeque<Io>,
}

impl View for Outbox {
    type V = Seq<Io>;

    /// The queued effects, oldest first.
    closed spec fn view(&self) -> Seq<Io> {
        self.outbound@
    }
}

impl Outbox {
    /// An empty queue.
    pub fn new() -> (o: Outbox)
        ensures
            o@ == Seq::<Io>::empty(),
    {
        Outbox { outbound: VecDeque::new() }
    }

    /// Queues an effect behind those already waiting.
    pub fn push(&mut self, io: Io)
        ensures
            final(self)@ == old(self)@.push(io),
    {
        self.outbound.push_back(io);
    }

    /// Queues a message to a peer.
    pub fn message(&mut self, addr: PeerId, message: NetworkMessage)
        ensures
            final(self)@ == old(self)@.push(Io::Write(addr, message)),
    {
        self.push(Io::Write(addr, message));
    }

    /// Queues a `ping` to a peer.
    pub fn ping(&mut self, addr: PeerId, nonce: u64)
        ensures
            final(self)@ == old(self)@.push(Io::Write(addr, NetworkMessage::Ping(nonce))),
    {
        self.message(addr, NetworkMessage::Ping(nonce));
    }

    /// Queues a `pong` to a peer.
    pub fn pong(&mut self, addr: PeerId, nonce: u64)
        ensures
            final(self)@ == old(self)@.push(Io::Write(addr, NetworkMessage::Pong(nonce))),
    {
        self.message(addr, NetworkMessage::Pong(nonce));
    }

    /// Queues a disconnection from a peer.
    pub fn disconnect(&mut self, addr: PeerId, reason: DisconnectReason)
        ensures
            final(self)@ == old(self)@.push(Io::Disconnect(addr, reason)),
    {
        self.push(Io::Disconnect(addr, reason));
    }

    /// Queues a request to be woken up after `duration`.
    pub fn set_timer(&mut self, duration: LocalDuration)
        ensures
            final(self)@ == old(self)@.push(Io::SetTimer(duration)),
    {
        self.push(Io::SetTimer(duration));
    }

    /// Takes the oldest queued effect out, if there is one.
    pub fn next(&mut self) -> (io: Option<Io>)
        ensures
            old(self)@.len() == 0 ==> io.is_none() && final(self)@ == old(self)@,
            old(self)@.len() > 0 ==> io == Some(old(self)@[0]) && final(self)@ == old(
                self,
            )@.subrange(1, old(self)@.len() as int),
    {
        self.outbound.pop_front()
    }

    /// The number of queued effects.
    pub fn len(&self) -> (n: usize)
        ensures
            n == self@.len(),
    {
        self.outbound.len()
    }
}

} // verus!
