//! Ping manager.
//!
//! Detects dead peer connections and responds to peer `ping` messages.
//!
//! Each negotiated peer has one record. A record is either waiting for a
//! `pong` or idle; a tick sends a new `ping` to an idle peer once the ping
//! interval has passed, and asks for the disconnection of a peer that has
//! left a `ping` unanswered for the ping timeout.

use std::collections::VecDeque;
use vstd::prelude::*;
use crate::fsm::{DisconnectReason, PeerId};
use crate::fsm::event::Event;
use crate::fsm::output::{Io, NetworkMessage, Outbox};
use crate::rng::next_u64;
use crate::time::{Clock, LocalDuration, LocalTime};

verus! {

/// Time interval to wait between sent pings, in milliseconds: two minutes.
pub const PING_INTERVAL_MILLIS: u128 = 120_000;

/// Time to wait to receive a pong when sending a ping, in milliseconds: ten
/// minutes.
pub const PING_TIMEOUT_MILLIS: u128 = 600_000;

/// Time interval to wait between sent pings.
pub open spec fn ping_interval_spec() -> LocalDuration {
    LocalDuration { millis: PING_INTERVAL_MILLIS }
}

/// Time interval to wait between sent pings.
#[verifier::when_used_as_spec(ping_interval_spec)]
pub fn ping_interval() -> (d: LocalDuration)
    ensures
        d == ping_interval_spec(),
{
    LocalDuration { millis: PING_INTERVAL_MILLIS }
}

/// Time to wait to receive a pong when sending a ping.
pub open spec fn ping_timeout_spec() -> LocalDuration {
    LocalDuration { millis: PING_TIMEOUT_MILLIS }
}

/// Time to wait to receive a pong when sending a ping.
#[verifier::when_used_as_spec(ping_timeout_spec)]
pub fn ping_timeout() -> (d: LocalDuration)
    ensures
        d == ping_timeout_spec(),
{
    LocalDuration { millis: PING_TIMEOUT_MILLIS }
}

/// Maximum number of latencies recorded per peer.
pub const MAX_RECORDED_LATENCIES: usize = 64;

/// Liveness state of a peer.
#[derive(Clone, Copy, Debug, PartialEq, Eq, Structural)]
pub enum State {
    /// A `ping` with this nonce was sent at `since` and is unanswered.
    AwaitingPong { nonce: u64, since: LocalTime },
    /// No `ping` is in flight; the last `pong` arrived at `since`.
    Idle { since: LocalTime },
}

/// What a peer record holds, as a mathematical value.
pub struct PeerView {
    /// The peer's address.
    pub address: PeerId,
    /// The peer's liveness state.
    pub state: State,
    /// Observed round-trip latencies, newest first.
    pub latencies: Seq<LocalDuration>,
}

/// The record kept for one negotiated peer.
#[derive(Debug)]
pub struct Peer {
    address: PeerId,
    state: State,
    /// Observed round-trip latencies for this peer, newest first.
    latencies: VecDeque<LocalDuration>,
}

/// Sum of the given durations, in milliseconds.
pub open spec fn total(samples: Seq<LocalDuration>) -> nat
    decreases samples.len(),
{
    if samples.len() == 0 {
        0
    } else {
        total(samples.drop_last()) + samples.last().millis as nat
    }
}

/// Arithmetic mean of the given durations, in whole milliseconds.
pub open spec fn mean(samples: Seq<LocalDuration>) -> nat
    recommends
        samples.len() > 0,
{
    total(samples) / samples.len()
}

/// The latency history after a new sample: the sample comes first, and
/// whatever no longer fits within the limit falls off the far end.
pub open spec fn recorded(latencies: Seq<LocalDuration>, sample: LocalDuration) -> Seq<
    LocalDuration,
> {
    let all = seq![sample] + latencies;
    if all.len() > MAX_RECORDED_LATENCIES {
        all.subrange(0, MAX_RECORDED_LATENCIES as int)
    } else {
        all
    }
}

/// The sum of a prefix grows by the element that the prefix gains.
proof fn lemma_total_step(samples: Seq<LocalDuration>, i: int)
    requires
        0 <= i < samples.len(),
    ensures
        total(samples.take(i + 1)) == total(samples.take(i)) + samples[i].millis,
{
    assert(samples.take(i + 1).drop_last() =~= samples.take(i));
}

/// A sum of durations is at most as many times the largest duration that
/// can be represented as there are durations.
proof fn lemma_total_bound(samples: Seq<LocalDuration>)
    ensures
        total(samples) <= samples.len() * u128::MAX,
    decreases samples.len(),
{
    if samples.len() > 0 {
        lemma_total_bound(samples.drop_last());
        assert((samples.len() - 1) * u128::MAX + u128::MAX == samples.len() * u128::MAX)
            by (nonlinear_arith);
    }
}

/// Taking one duration out of a sequence takes it out of the sum.
proof fn lemma_total_remove(samples: Seq<LocalDuration>, i: int)
    requires
        0 <= i < samples.len(),
    ensures
        total(samples) == total(samples.remove(i)) + samples[i].millis,
    decreases samples.len(),
{
    if i == samples.len() - 1 {
        assert(samples.remove(i) =~= samples.drop_last());
    } else {
        lemma_total_remove(samples.drop_last(), i);
        assert(samples.remove(i).drop_last() =~= samples.drop_last().remove(i));
        assert(samples.remove(i).last() == samples.last());
    }
}

/// The mean latency does not depend on the order of the samples: two
/// histories that hold the same samples, each as often as the other, have
/// the same sum and the same mean.
pub proof fn lemma_mean_ignores_order(a: Seq<LocalDuration>, b: Seq<LocalDuration>)
    requires
        a.to_multiset() == b.to_multiset(),
    ensures
        total(a) == total(b),
        mean(a) == mean(b),
    decreases a.len(),
{
    broadcast use vstd::seq_lib::group_to_multiset_ensures;

    assert(a.len() == a.to_multiset().len());
    assert(b.len() == b.to_multiset().len());
    if a.len() > 0 {
        let x = a.last();
        assert(a.to_multiset().count(x) > 0);
        assert(b.contains(x));
        let i = b.index_of(x);
        assert(a.drop_last() =~= a.remove(a.len() - 1));
        lemma_total_remove(b, i);
        lemma_mean_ignores_order(a.drop_last(), b.remove(i));
    }
}

/// The reason given when a peer leaves a `ping` unanswered for too long.
pub open spec fn ping_timed_out() -> DisconnectReason {
    DisconnectReason::PeerTimeout("ping")
}

impl PeerView {
    /// The history holds no more than the maximum number of samples.
    pub open spec fn wf(self) -> bool {
        self.latencies.len() <= MAX_RECORDED_LATENCIES
    }

    /// The record of a peer to which a `ping` with `nonce` is sent at `now`.
    pub open spec fn fresh(address: PeerId, nonce: u64, now: LocalTime) -> PeerView {
        PeerView { address, state: State::AwaitingPong { nonce, since: now }, latencies: Seq::empty() }
    }

    /// Whether a `pong` with this nonce answers the outstanding `ping`.
    pub open spec fn accepts(self, nonce: u64) -> bool {
        self.state matches State::AwaitingPong { nonce: expected, .. } && expected == nonce
    }

    /// The record after a `pong` with `nonce` arrives at `now`: the answer
    /// to the outstanding `ping` makes the peer idle and records how long
    /// the round trip took; any other `pong` changes nothing.
    pub open spec fn ponged(self, nonce: u64, now: LocalTime) -> PeerView {
        match self.state {
            State::AwaitingPong { nonce: expected, since } if expected == nonce => PeerView {
                address: self.address,
                state: State::Idle { since: now },
                latencies: recorded(self.latencies, now.since(since)),
            },
            _ => self,
        }
    }

    /// Whether at `now` an unanswered `ping` is older than `timeout`.
    pub open spec fn timed_out(self, now: LocalTime, timeout: LocalDuration) -> bool {
        self.state matches State::AwaitingPong { since, .. } && now.since(since).millis
            >= timeout.millis
    }

    /// Whether at `now` the peer has been idle for the ping interval.
    pub open spec fn ping_due(self, now: LocalTime) -> bool {
        self.state matches State::Idle { since } && now.since(since).millis
            >= PING_INTERVAL_MILLIS
    }

    /// The record after a tick at `now`: an idle peer whose `ping` is due is
    /// sent one with `nonce`; nothing else changes, and in particular a peer
    /// that timed out keeps waiting.
    pub open spec fn ticked(self, now: LocalTime, nonce: u64) -> PeerView {
        if self.ping_due(now) {
            PeerView {
                address: self.address,
                state: State::AwaitingPong { nonce, since: now },
                latencies: self.latencies,
            }
        } else {
            self
        }
    }

    /// What a tick at `now` queues for this peer: one disconnection if it
    /// timed out; one `ping` with `nonce` and two timers if a `ping` is due;
    /// nothing otherwise.
    pub open spec fn tick_effects(self, now: LocalTime, timeout: LocalDuration, nonce: u64) -> Seq<
        Io,
    > {
        if self.timed_out(now, timeout) {
            seq![Io::Disconnect(self.address, ping_timed_out())]
        } else if self.ping_due(now) {
            seq![
                Io::Write(self.address, NetworkMessage::Ping(nonce)),
                Io::SetTimer(timeout),
                Io::SetTimer(ping_interval_spec()),
            ]
        } else {
            Seq::empty()
        }
    }
}

impl View for Peer {
    type V = PeerView;

    closed spec fn view(&self) -> PeerView {
        PeerView { address: self.address, state: self.state, latencies: self.latencies@ }
    }
}

impl Peer {
    /// A record for a peer to which a `ping` with `nonce` is sent at `now`.
    pub fn new(address: PeerId, nonce: u64, now: LocalTime) -> (peer: Peer)
        ensures
            peer@ == PeerView::fresh(address, nonce, now),
            peer@.wf(),
    {
        Peer { address, state: State::AwaitingPong { nonce, since: now }, latencies: VecDeque::new() }
    }

    /// The peer's address.
    pub fn address(&self) -> (a: PeerId)
        ensures
            a == self@.address,
    {
        self.address
    }

    /// The peer's liveness state.
    pub fn state(&self) -> (s: State)
        ensures
            s == self@.state,
    {
        self.state
    }

    /// The number of latency samples held.
    pub fn samples(&self) -> (n: usize)
        ensures
            n == self@.latencies.len(),
    {
        self.latencies.len()
    }

    /// The latency sample at position `i`, the newest being at position 0.
    pub fn sample(&self, i: usize) -> (d: Option<LocalDuration>)
        ensures
            d == if i < self@.latencies.len() {
                Some(self@.latencies[i as int])
            } else {
                None
            },
    {
        if i < self.latencies.len() {
            Some(self.latencies[i])
        } else {
            None
        }
    }

    /// Whether at `now` an unanswered `ping` is older than `timeout`.
    pub fn timed_out(&self, now: LocalTime, timeout: LocalDuration) -> (b: bool)
        ensures
            b == self@.timed_out(now, timeout),
    {
        match self.state {
            State::AwaitingPong { since, .. } => now.duration_since(since).at_least(timeout),
            State::Idle { .. } => false,
        }
    }

    /// Whether at `now` the peer has been idle for the ping interval.
    pub fn ping_due(&self, now: LocalTime) -> (b: bool)
        ensures
            b == self@.ping_due(now),
    {
        match self.state {
            State::AwaitingPong { .. } => false,
            State::Idle { since } => now.duration_since(since).at_least(ping_interval()),
        }
    }

    /// Notes that a `ping` with `nonce` was sent to the peer at `now`.
    pub fn ping_sent(&mut self, nonce: u64, now: LocalTime)
        ensures
            final(self)@ == (PeerView {
                state: State::AwaitingPong { nonce, since: now },
                ..old(self)@
            }),
    {
        self.state = State::AwaitingPong { nonce, since: now };
    }

    /// Handles a `pong` with `nonce` that arrives at `now`. Returns whether
    /// it answered the outstanding `ping`.
    pub fn pong(&mut self, nonce: u64, now: LocalTime) -> (accepted: bool)
        requires
            old(self)@.wf(),
        ensures
            accepted == old(self)@.accepts(nonce),
            final(self)@ == old(self)@.ponged(nonce, now),
            final(self)@.wf(),
    {
        match self.state {
            State::AwaitingPong { nonce: last_nonce, since } => {
                if nonce == last_nonce {
                    self.record_latency(now.duration_since(since));
                    self.state = State::Idle { since: now };
                    return true;
                }
            },
            // Unsolicited or redundant `pong`. Ignore.
            State::Idle { .. } => {},
        }
        false
    }

    /// Calculate the average latency of this peer: the arithmetic mean of
    /// the samples held, in whole milliseconds.
    pub fn latency(&self) -> (d: LocalDuration)
        requires
            self@.latencies.len() > 0,
        ensures
            d.millis == mean(self@.latencies),
    {
        let n: usize = self.latencies.len();
        let wide: u128 = n as u128;
        let mut quotients: u128 = 0;
        let mut remainders: u128 = 0;
        let mut i: usize = 0;
        while i < n
            invariant
                0 < n == self.latencies@.len(),
                wide == n,
                i <= n,
                wide * quotients + remainders == total(self.latencies@.take(i as int)),
                remainders <= i * (wide - 1),
            decreases n - i,
        {
            let x: u128 = self.latencies[i].millis;
            proof {
                lemma_total_step(self.latencies@, i as int);
                lemma_total_bound(self.latencies@.take(i + 1));
                let w = wide as int;
                let q = quotients as int;
                let r = remainders as int;
                let xi = x as int;
                let k = i as int;
                let t = total(self.latencies@.take(i + 1)) as int;
                assert(w * (q + xi / w) + (r + xi % w) == t) by (nonlinear_arith)
                    requires
                        w > 0,
                        w * q + r + xi == t,
                ;
                assert(q + xi / w <= u128::MAX) by (nonlinear_arith)
                    requires
                        w > 0,
                        r + xi % w >= 0,
                        w * (q + xi / w) + (r + xi % w) == t,
                        t <= (k + 1) * u128::MAX,
                        k + 1 <= w,
                ;
                assert(r + xi % w <= (k + 1) * (w - 1)) by (nonlinear_arith)
                    requires
                        w > 0,
                        r <= k * (w - 1),
                        0 <= xi % w < w,
                ;
                assert((k + 1) * (w - 1) <= u128::MAX) by (nonlinear_arith)
                    requires
                        0 <= k + 1 <= w,
                        0 < w <= 0xffff_ffff_ffff_ffff,
                ;
            }
            quotients = quotients + x / wide;
            remainders = remainders + x % wide;
            i = i + 1;
        }
        proof {
            assert(self.latencies@.take(n as int) =~= self.latencies@);
            let w = wide as int;
            let q = quotients as int;
            let r = remainders as int;
            assert((w * q + r) / w == q + r / w) by (nonlinear_arith)
                requires
                    w > 0,
                    r >= 0,
            ;
            lemma_total_bound(self.latencies@);
            assert((w * q + r) / w <= u128::MAX) by (nonlinear_arith)
                requires
                    w > 0,
                    0 <= w * q + r <= w * u128::MAX,
            ;
        }
        LocalDuration { millis: quotients + remainders / wide }
    }

    /// Records a latency sample as the newest one, dropping the oldest when
    /// the history is full.
    pub fn record_latency(&mut self, sample: LocalDuration)
        ensures
            final(self)@.address == old(self)@.address,
            final(self)@.state == old(self)@.state,
            final(self)@.latencies == recorded(old(self)@.latencies, sample),
            final(self)@.wf(),
    {
        self.latencies.push_front(sample);
        self.latencies.truncate(MAX_RECORDED_LATENCIES);
    }
}

/// What a ping manager holds, as a mathematical value.
pub struct ManagerView {
    /// The peer records, in the order the peers were first negotiated.
    pub peers: Seq<PeerView>,
    /// How long a `ping` may stay unanswered.
    pub ping_timeout: LocalDuration,
    /// The queued effects, oldest first.
    pub outbox: Seq<Io>,
}

/// What a tick at `now` queues for the first `k` peers, in their order,
/// where `nonces[i]` is the nonce drawn for peer `i`.
pub open spec fn tick_effects_upto(
    peers: Seq<PeerView>,
    now: LocalTime,
    timeout: LocalDuration,
    nonces: Seq<u64>,
    k: int,
) -> Seq<Io>
    decreases k,
{
    if k <= 0 {
        Seq::empty()
    } else {
        tick_effects_upto(peers, now, timeout, nonces, k - 1) + peers[k - 1].tick_effects(
            now,
            timeout,
            nonces[k - 1],
        )
    }
}

impl ManagerView {
    /// No two records are for the same peer, and every record is well
    /// formed.
    pub open spec fn wf(self) -> bool {
        &&& forall|i: int, j: int|
            0 <= i < j < self.peers.len() ==> self.peers[i].address != self.peers[j].address
        &&& forall|i: int| 0 <= i < self.peers.len() ==> (#[trigger] self.peers[i]).wf()
    }

    /// Whether there is a record for the peer.
    pub open spec fn knows(self, addr: PeerId) -> bool {
        exists|i: int| 0 <= i < self.peers.len() && (#[trigger] self.peers[i]).address == addr
    }

    /// The position of the peer's record, where there is one.
    pub open spec fn slot(self, addr: PeerId) -> int {
        choose|i: int| 0 <= i < self.peers.len() && (#[trigger] self.peers[i]).address == addr
    }

    /// The peer's record, where there is one.
    pub open spec fn record(self, addr: PeerId) -> PeerView {
        self.peers[self.slot(addr)]
    }

    /// The manager after `addr` is negotiated at `now` and `nonce` is drawn:
    /// the peer has a fresh record, in place of any earlier one, and one
    /// `ping` with that nonce is queued.
    pub open spec fn negotiated(self, addr: PeerId, nonce: u64, now: LocalTime) -> ManagerView {
        ManagerView {
            peers: if self.knows(addr) {
                self.peers.update(self.slot(addr), PeerView::fresh(addr, nonce, now))
            } else {
                self.peers.push(PeerView::fresh(addr, nonce, now))
            },
            ping_timeout: self.ping_timeout,
            outbox: self.outbox.push(Io::Write(addr, NetworkMessage::Ping(nonce))),
        }
    }

    /// The manager after `addr` is disconnected: its record, if any, is gone.
    pub open spec fn disconnected(self, addr: PeerId) -> ManagerView {
        ManagerView {
            peers: if self.knows(addr) {
                self.peers.remove(self.slot(addr))
            } else {
                self.peers
            },
            ping_timeout: self.ping_timeout,
            outbox: self.outbox,
        }
    }

    /// The manager after a `ping` from `addr`: a known peer is answered with
    /// a `pong` that echoes the nonce, an unknown one is ignored.
    pub open spec fn pinged(self, addr: PeerId, nonce: u64) -> ManagerView {
        ManagerView {
            peers: self.peers,
            ping_timeout: self.ping_timeout,
            outbox: if self.knows(addr) {
                self.outbox.push(Io::Write(addr, NetworkMessage::Pong(nonce)))
            } else {
                self.outbox
            },
        }
    }

    /// Whether a `pong` from `addr` with `nonce` answers an outstanding
    /// `ping`.
    pub open spec fn accepts(self, addr: PeerId, nonce: u64) -> bool {
        self.knows(addr) && self.record(addr).accepts(nonce)
    }

    /// The manager after a `pong` from `addr` with `nonce` arrives at `now`.
    /// Nothing is ever queued, and nothing changes unless the `pong` answers
    /// the outstanding `ping` of a known peer.
    pub open spec fn ponged(self, addr: PeerId, nonce: u64, now: LocalTime) -> ManagerView {
        ManagerView {
            peers: if self.knows(addr) {
                self.peers.update(self.slot(addr), self.record(addr).ponged(nonce, now))
            } else {
                self.peers
            },
            ping_timeout: self.ping_timeout,
            outbox: self.outbox,
        }
    }

    /// The manager after an event is delivered, where `nonce` is the nonce
    /// drawn and `now` the time read while handling it. A negotiation, a
    /// disconnection, a `ping` and a `pong` are handled; every other event
    /// changes nothing.
    pub open spec fn received(self, event: Event, nonce: u64, now: LocalTime) -> ManagerView {
        match event {
            Event::PeerNegotiated { addr, .. } => self.negotiated(addr, nonce, now),
            Event::PeerDisconnected { addr, .. } => self.disconnected(addr),
            Event::MessageReceived { from, message } => match *message {
                NetworkMessage::Ping(echo) => self.pinged(from, echo),
                NetworkMessage::Pong(echo) => self.ponged(from, echo, now),
                _ => self,
            },
            _ => self,
        }
    }

    /// The manager after a tick at `now`, where `nonces[i]` is the nonce
    /// drawn for peer `i`: every record is ticked, and the effects are
    /// queued peer by peer.
    pub open spec fn ticked(self, now: LocalTime, nonces: Seq<u64>) -> ManagerView {
        ManagerView {
            peers: Seq::new(self.peers.len(), |i: int| self.peers[i].ticked(now, nonces[i])),
            ping_timeout: self.ping_timeout,
            outbox: self.outbox + tick_effects_upto(
                self.peers,
                now,
                self.ping_timeout,
                nonces,
                self.peers.len() as int,
            ),
        }
    }
}

/// What a tick queues for the first `k` peers depends on the first `k`
/// nonces only.
proof fn lemma_tick_effects_prefix(
    peers: Seq<PeerView>,
    now: LocalTime,
    timeout: LocalDuration,
    a: Seq<u64>,
    b: Seq<u64>,
    k: int,
)
    requires
        forall|i: int| 0 <= i < k ==> a[i] == b[i],
    ensures
        tick_effects_upto(peers, now, timeout, a, k) == tick_effects_upto(peers, now, timeout, b, k),
    decreases k,
{
    if k > 0 {
        lemma_tick_effects_prefix(peers, now, timeout, a, b, k - 1);
    }
}

/// A known peer's record is where its address is found, and nowhere else.
proof fn lemma_slot(m: ManagerView, i: int)
    requires
        m.wf(),
        0 <= i < m.peers.len(),
    ensures
        m.knows(m.peers[i].address),
        m.slot(m.peers[i].address) == i,
{
    let addr = m.peers[i].address;
    assert(m.peers[i].address == addr);
    let k = m.slot(addr);
    assert(m.peers[k].address == addr);
}

/// Negotiating a peer queues exactly one effect, a `ping` to that peer, and
/// leaves the peer with a fresh record that waits for the `pong` with the
/// very nonce that the `ping` carries.
pub proof fn lemma_negotiation_queues_one_ping(
    m: ManagerView,
    addr: PeerId,
    nonce: u64,
    now: LocalTime,
)
    requires
        m.wf(),
    ensures
        m.negotiated(addr, nonce, now).wf(),
        m.negotiated(addr, nonce, now).outbox == m.outbox.push(
            Io::Write(addr, NetworkMessage::Ping(nonce)),
        ),
        m.negotiated(addr, nonce, now).knows(addr),
        m.negotiated(addr, nonce, now).record(addr) == PeerView::fresh(addr, nonce, now),
        m.negotiated(addr, nonce, now).record(addr).accepts(nonce),
{
    let after = m.negotiated(addr, nonce, now);
    let at = if m.knows(addr) {
        m.slot(addr)
    } else {
        m.peers.len() as int
    };
    assert(after.peers[at] == PeerView::fresh(addr, nonce, now));
    assert forall|i: int, j: int| 0 <= i < j < after.peers.len() implies after.peers[i].address
        != after.peers[j].address by {
        if i != at && j != at {
            assert(after.peers[i] == m.peers[i]);
            assert(after.peers[j] == m.peers[j]);
        } else if i == at {
            assert(after.peers[j] == m.peers[j]);
        } else {
            assert(after.peers[i] == m.peers[i]);
        }
    }
    assert forall|i: int| 0 <= i < after.peers.len() implies (#[trigger] after.peers[i]).wf() by {
        if i != at {
            assert(after.peers[i] == m.peers[i]);
        }
    }
    lemma_slot(after, at);
}

/// A `pong` that does not answer the outstanding `ping` of a known peer
/// (the peer is unknown, or idle, or waits for another nonce) changes
/// nothing: no state changes, nothing is queued, no latency is recorded.
pub proof fn lemma_unexpected_pong_is_ignored(
    m: ManagerView,
    addr: PeerId,
    nonce: u64,
    now: LocalTime,
)
    requires
        m.wf(),
        !m.accepts(addr, nonce),
    ensures
        m.ponged(addr, nonce, now) == m,
{
    assert(m.ponged(addr, nonce, now).peers =~= m.peers);
}

/// A `pong` that answers the outstanding `ping` makes the peer idle as of
/// the time it arrives, and records exactly one latency sample, the time
/// since the `ping` was sent, as the newest; nothing is queued and no other
/// peer changes.
pub proof fn lemma_expected_pong_is_recorded(
    m: ManagerView,
    addr: PeerId,
    nonce: u64,
    now: LocalTime,
)
    requires
        m.wf(),
        m.accepts(addr, nonce),
    ensures
        m.ponged(addr, nonce, now).wf(),
        m.ponged(addr, nonce, now).outbox == m.outbox,
        m.ponged(addr, nonce, now).knows(addr),
        m.record(addr).state is AwaitingPong,
        m.ponged(addr, nonce, now).record(addr).state == (State::Idle { since: now }),
        m.ponged(addr, nonce, now).record(addr).latencies == recorded(
            m.record(addr).latencies,
            now.since(m.record(addr).state->AwaitingPong_since),
        ),
        m.ponged(addr, nonce, now).record(addr).latencies[0] == now.since(
            m.record(addr).state->AwaitingPong_since,
        ),
        m.ponged(addr, nonce, now).record(addr).latencies.len() == if m.record(
            addr,
        ).latencies.len() < MAX_RECORDED_LATENCIES {
            m.record(addr).latencies.len() + 1
        } else {
            MAX_RECORDED_LATENCIES as nat
        },
        m.ponged(addr, nonce, now).peers.len() == m.peers.len(),
        forall|i: int|
            0 <= i < m.peers.len() && i != m.slot(addr) ==> #[trigger] m.ponged(
                addr,
                nonce,
                now,
            ).peers[i] == m.peers[i],
{
    let after = m.ponged(addr, nonce, now);
    let at = m.slot(addr);
    assert(m.peers[at].address == addr);
    assert(after.peers[at] == m.record(addr).ponged(nonce, now));
    assert forall|i: int, j: int| 0 <= i < j < after.peers.len() implies after.peers[i].address
        != after.peers[j].address by {
        assert(after.peers[i].address == m.peers[i].address);
        assert(after.peers[j].address == m.peers[j].address);
    }
    assert forall|i: int| 0 <= i < after.peers.len() implies (#[trigger] after.peers[i]).wf() by {
        assert(m.peers[i].wf());
    }
    lemma_slot(after, at);
}

/// The latency history never holds more than the maximum number of samples,
/// and a sample recorded into a full history evicts the oldest one.
pub proof fn lemma_history_is_bounded(latencies: Seq<LocalDuration>, sample: LocalDuration)
    ensures
        recorded(latencies, sample).len() <= MAX_RECORDED_LATENCIES,
        recorded(latencies, sample).len() > 0,
        recorded(latencies, sample)[0] == sample,
        latencies.len() < MAX_RECORDED_LATENCIES ==> recorded(latencies, sample) == seq![sample]
            + latencies,
        latencies.len() == MAX_RECORDED_LATENCIES ==> recorded(latencies, sample) == seq![sample]
            + latencies.drop_last(),
{
    if latencies.len() == MAX_RECORDED_LATENCIES {
        assert(recorded(latencies, sample) =~= seq![sample] + latencies.drop_last());
    }
}

/// A peer that left its `ping` unanswered for the timeout is asked to be
/// disconnected by every tick, once per tick, until its record is removed:
/// the tick queues exactly one disconnection for it, with the reason that
/// names `ping`, and leaves its record as it was, so that any later tick
/// finds it timed out again.
pub proof fn lemma_timeout_is_signalled_every_tick(
    peer: PeerView,
    timeout: LocalDuration,
    now: LocalTime,
    nonce: u64,
    later: LocalTime,
    later_nonce: u64,
)
    requires
        peer.timed_out(now, timeout),
        later.millis >= now.millis,
    ensures
        peer.tick_effects(now, timeout, nonce) == seq![
            Io::Disconnect(peer.address, DisconnectReason::PeerTimeout("ping")),
        ],
        peer.ticked(now, nonce) == peer,
        peer.ticked(now, nonce).timed_out(later, timeout),
        peer.ticked(now, nonce).tick_effects(later, timeout, later_nonce) == seq![
            Io::Disconnect(peer.address, DisconnectReason::PeerTimeout("ping")),
        ],
{
}

/// How many of the effects ask for the disconnection of `addr`.
pub open spec fn disconnections(effects: Seq<Io>, addr: PeerId) -> nat
    decreases effects.len(),
{
    if effects.len() == 0 {
        0
    } else {
        disconnections(effects.drop_last(), addr) + if effects.last() matches Io::Disconnect(
            whom,
            _,
        ) && whom == addr {
            1nat
        } else {
            0nat
        }
    }
}

/// Effects queued one after the other ask for as many disconnections as
/// they do apart.
proof fn lemma_disconnections_add(a: Seq<Io>, b: Seq<Io>, addr: PeerId)
    ensures
        disconnections(a + b, addr) == disconnections(a, addr) + disconnections(b, addr),
    decreases b.len(),
{
    if b.len() == 0 {
        assert(a + b =~= a);
    } else {
        lemma_disconnections_add(a, b.drop_last(), addr);
        assert((a + b).drop_last() =~= a + b.drop_last());
    }
}

/// What a tick queues for one peer asks for the disconnection of `addr`
/// once if that peer is `addr` and timed out, and not at all otherwise.
proof fn lemma_disconnections_of_peer(
    peer: PeerView,
    now: LocalTime,
    timeout: LocalDuration,
    nonce: u64,
    addr: PeerId,
)
    ensures
        disconnections(peer.tick_effects(now, timeout, nonce), addr) == if peer.address == addr
            && peer.timed_out(now, timeout) {
            1nat
        } else {
            0nat
        },
{
    let effects = peer.tick_effects(now, timeout, nonce);
    if effects.len() == 1 {
        assert(disconnections(effects.drop_last(), addr) == 0);
    } else if effects.len() == 3 {
        let two = effects.drop_last();
        let one = two.drop_last();
        assert(disconnections(one.drop_last(), addr) == 0);
        assert(one.last() is Write);
        assert(disconnections(one, addr) == 0);
        assert(two.last() is SetTimer);
        assert(disconnections(two, addr) == 0);
        assert(effects.last() is SetTimer);
    }
}

/// Among what a tick queues for the first `k` peers, the disconnection of a
/// timed-out peer is asked for once if that peer is among them, and not at
/// all otherwise.
proof fn lemma_disconnections_upto(
    m: ManagerView,
    addr: PeerId,
    now: LocalTime,
    nonces: Seq<u64>,
    k: int,
)
    requires
        m.wf(),
        m.knows(addr),
        m.record(addr).timed_out(now, m.ping_timeout),
        0 <= k <= m.peers.len(),
    ensures
        disconnections(tick_effects_upto(m.peers, now, m.ping_timeout, nonces, k), addr) == if m.slot(
            addr,
        ) < k {
            1nat
        } else {
            0nat
        },
    decreases k,
{
    if k > 0 {
        lemma_disconnections_upto(m, addr, now, nonces, k - 1);
        lemma_disconnections_add(
            tick_effects_upto(m.peers, now, m.ping_timeout, nonces, k - 1),
            m.peers[k - 1].tick_effects(now, m.ping_timeout, nonces[k - 1]),
            addr,
        );
        lemma_disconnections_of_peer(m.peers[k - 1], now, m.ping_timeout, nonces[k - 1], addr);
        lemma_slot(m, k - 1);
        assert(m.peers[m.slot(addr)].address == addr);
    }
}

/// While a peer waits for a `pong` and the timeout has passed, every tick
/// queues exactly one disconnection of that peer and keeps its record as it
/// is: the next tick signals again, until a disconnection removes the
/// record.
pub proof fn lemma_tick_signals_timeout_once(
    m: ManagerView,
    addr: PeerId,
    now: LocalTime,
    nonces: Seq<u64>,
)
    requires
        m.wf(),
        m.knows(addr),
        m.record(addr).timed_out(now, m.ping_timeout),
    ensures
        m.ticked(now, nonces).outbox == m.outbox + tick_effects_upto(
            m.peers,
            now,
            m.ping_timeout,
            nonces,
            m.peers.len() as int,
        ),
        disconnections(
            tick_effects_upto(m.peers, now, m.ping_timeout, nonces, m.peers.len() as int),
            addr,
        ) == 1,
        m.ticked(now, nonces).knows(addr),
        m.ticked(now, nonces).record(addr) == m.record(addr),
        forall|later: LocalTime|
            later.millis >= now.millis ==> #[trigger] m.ticked(now, nonces).record(addr).timed_out(
                later,
                m.ping_timeout,
            ),
{
    let after = m.ticked(now, nonces);
    let at = m.slot(addr);
    assert(m.peers[at].address == addr);
    lemma_disconnections_upto(m, addr, now, nonces, m.peers.len() as int);
    lemma_tick_keeps_records(m, now, nonces);
    assert(after.peers[at] == m.peers[at]);
    lemma_slot(after, at);
}

/// A tick never forgets a peer: whatever it queues, every record stays, for
/// the same peer and with the same latency history.
pub proof fn lemma_tick_keeps_records(m: ManagerView, now: LocalTime, nonces: Seq<u64>)
    requires
        m.wf(),
    ensures
        m.ticked(now, nonces).wf(),
        m.ticked(now, nonces).peers.len() == m.peers.len(),
        forall|i: int|
            0 <= i < m.peers.len() ==> (#[trigger] m.ticked(now, nonces).peers[i]).address
                == m.peers[i].address && m.ticked(now, nonces).peers[i].latencies
                == m.peers[i].latencies,
        forall|addr: PeerId| m.knows(addr) ==> #[trigger] m.ticked(now, nonces).knows(addr),
{
    let after = m.ticked(now, nonces);
    assert forall|i: int| 0 <= i < after.peers.len() implies (#[trigger] after.peers[i]).wf() by {
        assert(m.peers[i].wf());
    }
    assert forall|addr: PeerId| m.knows(addr) implies #[trigger] after.knows(addr) by {
        let i = m.slot(addr);
        assert(m.peers[i].address == addr);
        assert(after.peers[i].address == addr);
    }
}

/// A disconnection always removes the peer's record, whatever its state,
/// and touches nothing else; disconnecting a peer that has no record changes
/// nothing, so a second disconnection is harmless.
pub proof fn lemma_disconnection_forgets_the_peer(m: ManagerView, addr: PeerId)
    requires
        m.wf(),
    ensures
        m.disconnected(addr).wf(),
        !m.disconnected(addr).knows(addr),
        m.disconnected(addr).outbox == m.outbox,
        !m.knows(addr) ==> m.disconnected(addr) == m,
        m.disconnected(addr).disconnected(addr) == m.disconnected(addr),
        forall|other: PeerId|
            other != addr && m.knows(other) ==> #[trigger] m.disconnected(addr).knows(other)
                && m.disconnected(addr).record(other) == m.record(other),
{
    let after = m.disconnected(addr);
    if m.knows(addr) {
        let at = m.slot(addr);
        assert(m.peers[at].address == addr);
        assert forall|i: int| 0 <= i < after.peers.len() implies #[trigger] after.peers[i]
            == m.peers[if i < at {
            i
        } else {
            i + 1
        }] by {}
        assert forall|i: int, j: int| 0 <= i < j < after.peers.len() implies after.peers[i].address
            != after.peers[j].address by {
            assert(after.peers[i] == m.peers[if i < at { i } else { i + 1 }]);
            assert(after.peers[j] == m.peers[if j < at { j } else { j + 1 }]);
        }
        assert forall|i: int| 0 <= i < after.peers.len() implies (#[trigger] after.peers[i]).wf() by {
            assert(after.peers[i] == m.peers[if i < at { i } else { i + 1 }]);
            assert(m.peers[if i < at { i } else { i + 1 }].wf());
        }
        assert(!after.knows(addr)) by {
            if after.knows(addr) {
                let i = after.slot(addr);
                assert(after.peers[i].address == addr);
                assert(after.peers[i] == m.peers[if i < at { i } else { i + 1 }]);
            }
        }
        assert forall|other: PeerId| other != addr && m.knows(other) implies #[trigger] after.knows(
            other,
        ) && after.record(other) == m.record(other) by {
            let i = m.slot(other);
            assert(m.peers[i].address == other);
            let j = if i < at { i } else { i - 1 };
            assert(after.peers[j] == m.peers[i]);
            lemma_slot(after, j);
        }
    } else {
        assert forall|other: PeerId| other != addr && m.knows(other) implies #[trigger] after.knows(
            other,
        ) && after.record(other) == m.record(other) by {}
    }
}

/// Detects dead peer connections.
#[derive(Debug)]
pub struct PingManager<C> {
    peers: Vec<Peer>,
    ping_timeout: LocalDuration,
    /// Random number generator.
    rng: fastrand::Rng,
    outbox: Outbox,
    clock: C,
}

impl<C> View for PingManager<C> {
    type V = ManagerView;

    closed spec fn view(&self) -> ManagerView {
        ManagerView {
            peers: Seq::new(self.peers@.len(), |i: int| self.peers@[i]@),
            ping_timeout: self.ping_timeout,
            outbox: self.outbox@,
        }
    }
}

impl<C: Clock> PingManager<C> {
    /// Create a new ping manager.
    pub fn new(ping_timeout: LocalDuration, rng: fastrand::Rng, clock: C) -> (mgr: Self)
        ensures
            mgr@.peers.len() == 0,
            mgr@.ping_timeout == ping_timeout,
            mgr@.outbox.len() == 0,
            mgr@.wf(),
    {
        Self { peers: Vec::new(), ping_timeout, rng, outbox: Outbox::new(), clock }
    }

    /// The number of peers that have a record.
    pub fn len(&self) -> (n: usize)
        ensures
            n == self@.peers.len(),
    {
        self.peers.len()
    }

    /// Where the record of `addr` is, if there is one.
    fn position(&self, addr: &PeerId) -> (at: Option<usize>)
        requires
            self@.wf(),
        ensures
            at.is_some() == self@.knows(*addr),
            at matches Some(i) ==> i == self@.slot(*addr) && i < self@.peers.len(),
    {
        let mut i: usize = 0;
        while i < self.peers.len()
            invariant
                self@.wf(),
                i <= self.peers@.len(),
                forall|j: int| 0 <= j < i ==> (#[trigger] self@.peers[j]).address != *addr,
            decreases self.peers@.len() - i,
        {
            if self.peers[i].address() == *addr {
                proof {
                    assert(self@.peers[i as int].address == *addr);
                    let k = self@.slot(*addr);
                    assert(self@.peers[k].address == *addr);
                    assert(k == i);
                }
                return Some(i);
            }
            i = i + 1;
        }
        None
    }

    /// The record of `addr`, if there is one.
    pub fn get(&self, addr: &PeerId) -> (peer: Option<&Peer>)
        requires
            self@.wf(),
        ensures
            peer.is_some() == self@.knows(*addr),
            peer matches Some(p) ==> p@ == self@.record(*addr),
    {
        match self.position(addr) {
            Some(i) => Some(&self.peers[i]),
            None => None,
        }
    }

    /// Event received.
    pub fn received_event<T>(&mut self, event: Event, _tree: &T)
        requires
            old(self)@.wf(),
        ensures
            exists|nonce: u64, now: LocalTime|
                final(self)@ == #[trigger] old(self)@.received(event, nonce, now),
            final(self)@.wf(),
    {
        let ghost before = self@;
        let ghost epoch = LocalTime { millis: 0 };
        match event {
            Event::PeerNegotiated { addr, .. } => {
                self.peer_negotiated(addr);
                proof {
                    let (nonce, now) = choose|nonce: u64, now: LocalTime|
                        self@ == #[trigger] before.negotiated(addr, nonce, now);
                    assert(self@ == before.received(event, nonce, now));
                }
            },
            Event::PeerDisconnected { addr, .. } => {
                self.peer_disconnected(&addr);
                assert(self@ == before.received(event, 0, epoch));
            },
            Event::MessageReceived { from, message } => match *message {
                NetworkMessage::Ping(nonce) => {
                    self.received_ping(from, nonce);
                    assert(self@ == before.received(event, 0, epoch));
                },
                NetworkMessage::Pong(nonce) => {
                    self.received_pong(from, nonce);
                    proof {
                        let now = choose|now: LocalTime|
                            self@ == #[trigger] before.ponged(from, nonce, now);
                        assert(self@ == before.received(event, 0, now));
                    }
                },
                _ => {
                    assert(self@ == before.received(event, 0, epoch));
                },
            },
            _ => {
                assert(self@ == before.received(event, 0, epoch));
            },
        }
    }

    /// Handles the negotiation of `address` at `now`, with `nonce` as the
    /// nonce of the first `ping`.
    pub fn negotiate(&mut self, address: PeerId, nonce: u64, now: LocalTime)
        requires
            old(self)@.wf(),
        ensures
            final(self)@ == old(self)@.negotiated(address, nonce, now),
            final(self)@.wf(),
    {
        self.outbox.ping(address, nonce);
        match self.position(&address) {
            Some(i) => {
                self.peers.set(i, Peer::new(address, nonce, now));
                assert(self@.peers =~= old(self)@.negotiated(address, nonce, now).peers);
            },
            None => {
                self.peers.push(Peer::new(address, nonce, now));
                assert(self@.peers =~= old(self)@.negotiated(address, nonce, now).peers);
            },
        }
    }

    /// Called when a peer is negotiated: draws a nonce, reads the clock, and
    /// handles the negotiation with what came back.
    pub fn peer_negotiated(&mut self, address: PeerId)
        requires
            old(self)@.wf(),
        ensures
            exists|nonce: u64, now: LocalTime|
                final(self)@ == #[trigger] old(self)@.negotiated(address, nonce, now),
            final(self)@.wf(),
    {
        let nonce = next_u64(&self.rng);
        let now = self.clock.local_time();

        self.negotiate(address, nonce, now);
    }

    /// Called when a peer is disconnected: forgets its record, if it has
    /// one.
    pub fn peer_disconnected(&mut self, addr: &PeerId)
        requires
            old(self)@.wf(),
        ensures
            final(self)@ == old(self)@.disconnected(*addr),
            !final(self)@.knows(*addr),
            final(self)@.wf(),
    {
        match self.position(addr) {
            Some(i) => {
                self.peers.remove(i);
                assert(self@.peers =~= old(self)@.disconnected(*addr).peers);
            },
            None => {
                assert(self@.peers =~= old(self)@.peers);
            },
        }
    }

    /// Called when a `ping` is received. Returns whether the peer is known
    /// and was answered.
    pub fn received_ping(&mut self, addr: PeerId, nonce: u64) -> (answered: bool)
        requires
            old(self)@.wf(),
        ensures
            answered == old(self)@.knows(addr),
            final(self)@ == old(self)@.pinged(addr, nonce),
            final(self)@.wf(),
    {
        if self.position(&addr).is_some() {
            self.outbox.pong(addr, nonce);

            return true;
        }
        false
    }

    /// Handles a `pong` from `addr` with `nonce` that arrives at `now`.
    /// Returns whether it answered an outstanding `ping`.
    pub fn pong_at(&mut self, addr: PeerId, nonce: u64, now: LocalTime) -> (accepted: bool)
        requires
            old(self)@.wf(),
        ensures
            accepted == old(self)@.accepts(addr, nonce),
            final(self)@ == old(self)@.ponged(addr, nonce, now),
            final(self)@.wf(),
    {
        match self.position(&addr) {
            Some(i) => {
                let accepted = self.peers[i].pong(nonce, now);
                assert(self@.peers =~= old(self)@.ponged(addr, nonce, now).peers);
                accepted
            },
            None => {
                assert(self@.peers =~= old(self)@.peers);
                false
            },
        }
    }

    /// Called when a `pong` is received: reads the clock and handles the
    /// `pong` at that time. Returns whether it answered an outstanding
    /// `ping`.
    pub fn received_pong(&mut self, addr: PeerId, nonce: u64) -> (accepted: bool)
        requires
            old(self)@.wf(),
        ensures
            accepted == old(self)@.accepts(addr, nonce),
            exists|now: LocalTime| final(self)@ == #[trigger] old(self)@.ponged(addr, nonce, now),
            final(self)@.wf(),
    {
        let now = self.clock.local_time();

        self.pong_at(addr, nonce, now)
    }

    /// Handles a tick at `now`: asks for the disconnection of every peer
    /// that timed out, and sends a `ping` with a newly drawn nonce to every
    /// idle peer whose `ping` is due.
    pub fn tick(&mut self, now: LocalTime)
        requires
            old(self)@.wf(),
        ensures
            exists|nonces: Seq<u64>|
                nonces.len() == old(self)@.peers.len() && final(self)@ == #[trigger] old(
                    self,
                )@.ticked(now, nonces),
            final(self)@.wf(),
    {
        let ghost before = self@;
        let ghost mut nonces: Seq<u64> = Seq::empty();
        let mut i: usize = 0;
        while i < self.peers.len()
            invariant
                before.wf(),
                i <= self.peers@.len() == before.peers.len(),
                nonces.len() == i,
                self@.ping_timeout == before.ping_timeout,
                forall|j: int|
                    0 <= j < i ==> (#[trigger] self@.peers[j]) == before.peers[j].ticked(
                        now,
                        nonces[j],
                    ),
                forall|j: int|
                    i <= j < self.peers@.len() ==> (#[trigger] self@.peers[j]) == before.peers[j],
                self@.outbox == before.outbox + tick_effects_upto(
                    before.peers,
                    now,
                    before.ping_timeout,
                    nonces,
                    i as int,
                ),
            decreases self.peers@.len() - i,
        {
            let ghost earlier = nonces;
            let ghost queued = self@.outbox;
            let ghost records = self@.peers;
            assert(self@.peers[i as int] == before.peers[i as int]);
            let address = self.peers[i].address();

            if self.peers[i].timed_out(now, self.ping_timeout) {
                // A ping was sent and we're waiting for a `pong`. Too much
                // time has passed: we consider this peer dead, and
                // disconnect from them.
                self.outbox.disconnect(address, DisconnectReason::PeerTimeout("ping"));
                proof {
                    nonces = nonces.push(0);
                }
            } else if self.peers[i].ping_due(now) {
                // We aren't waiting for any `pong`, and enough time has
                // passed since we received the last one: send a new `ping`.
                let nonce = next_u64(&self.rng);

                self.outbox.ping(address, nonce);
                self.outbox.set_timer(self.ping_timeout);
                self.outbox.set_timer(ping_interval());
                self.peers[i].ping_sent(nonce, now);
                proof {
                    nonces = nonces.push(nonce);
                }
            } else {
                proof {
                    nonces = nonces.push(0);
                }
            }
            proof {
                assert forall|j: int| 0 <= j < records.len() && j != i implies (
                #[trigger] self@.peers[j]) == records[j] by {
                    assert(self.peers@[j]@ == records[j]);
                }
                assert(self@.peers[i as int] == before.peers[i as int].ticked(
                    now,
                    nonces[i as int],
                ));
                lemma_tick_effects_prefix(
                    before.peers,
                    now,
                    before.ping_timeout,
                    earlier,
                    nonces,
                    i as int,
                );
                let step = before.peers[i as int].tick_effects(
                    now,
                    before.ping_timeout,
                    nonces[i as int],
                );
                assert(self@.outbox =~= queued + step);
                assert(self@.outbox =~= before.outbox + tick_effects_upto(
                    before.peers,
                    now,
                    before.ping_timeout,
                    nonces,
                    i + 1,
                ));
            }
            i = i + 1;
        }
        proof {
            assert(self@.peers =~= before.ticked(now, nonces).peers);
            assert(self@ == before.ticked(now, nonces));
        }
    }

    /// Called when a tick is received: reads the clock and handles a tick at
    /// that time.
    pub fn timer_expired(&mut self)
        requires
            old(self)@.wf(),
        ensures
            exists|now: LocalTime, nonces: Seq<u64>|
                nonces.len() == old(self)@.peers.len() && final(self)@ == #[trigger] old(
                    self,
                )@.ticked(now, nonces),
            final(self)@.wf(),
    {
        let now = self.clock.local_time();

        self.tick(now);
    }

    /// Takes the oldest queued effect out, if there is one.
    pub fn next(&mut self) -> (io: Option<Io>)
        ensures
            old(self)@.outbox.len() == 0 ==> io.is_none() && final(self)@ == old(self)@,
            old(self)@.outbox.len() > 0 ==> io == Some(old(self)@.outbox[0]) && final(self)@ == (
            ManagerView {
                outbox: old(self)@.outbox.subrange(1, old(self)@.outbox.len() as int),
                ..old(self)@
            }),
    {
        self.outbox.next()
    }
}

} // verus!
