//! The acceptor of inbound peers: when it is healthy, which sockets are given
//! a handshake, and what becomes of a handshake.

use vstd::prelude::*;

use crate::digest::{hex_encode, hex_text};
use crate::handle::SendOutcome;
use crate::net::PeerAddr;
use crate::network_budget::{GlobalNetworkBudget, PeerSlot};
use crate::peer_ingress::{
    freed, of_ip, released, IngressState, PeerIngressBudget, PeerIngressPermit, PeerIngressReject,
    PeerIngressStats,
};
use crate::text::join2;

verus! {

/// The bytes of a peer handshake.
pub const HANDSHAKE_LEN: usize = 68;

/// How long the acceptor waits after a failure, in nanoseconds.
pub const ACCEPT_BACKOFF_NANOS: u64 = 50_000_000;

/// How an inbound peer came in.
#[derive(Clone, Copy, Debug, PartialEq, Eq, Structural)]
pub enum InboundTransport {
    Tcp,
    Utp,
}

/// Why no uTP peer could be accepted.
#[derive(Debug)]
pub enum UtpError {
    Closed,
    Io(String),
    Timeout,
    InvalidStatePacket,
    Other(String),
}

/// Whether the uTP endpoint will never accept a peer again, as opposed to one
/// peer having misbehaved.
pub fn utp_accept_failure_is_fatal(error: &UtpError) -> (r: bool)
    ensures
        r == (error is Closed || error is Io),
{
    match error {
        UtpError::Closed | UtpError::Io(_) => true,
        _ => false,
    }
}

/// The acceptor of inbound peers.
#[derive(Clone, Copy, Debug, PartialEq, Eq, Structural)]
pub struct PeerListener {
    /// Peers can come in.
    pub healthy: bool,
    /// The acceptor has ended.
    pub done: bool,
    /// uTP peers are accepted as well.
    pub utp: bool,
}

/// What is done about a request to listen on another port.
#[derive(Debug)]
pub enum RebindStep {
    /// Nothing is to be bound; the request is answered.
    Answer(Result<(), String>),
    /// Bind these sockets; the answer is what comes of it.
    Bind { port: u16, utp: bool },
}

/// What is done with a socket that has come in.
pub enum Admission {
    /// Its handshake is read, for that long at most.
    Handshake { permit: PeerIngressPermit, slot: PeerSlot, timeout: u128 },
    /// The handshake budget refuses it.
    RefusedByHandshakeBudget(PeerIngressReject),
    /// The connection budget refuses it.
    RefusedByConnectionBudget,
}

/// What the acceptor does after a failure.
#[derive(Clone, Copy, Debug, PartialEq, Eq, Structural)]
pub enum AfterFailure {
    Backoff,
    End,
}

/// How reading a handshake ended.
#[derive(Debug)]
pub enum HandshakeRead {
    /// All bytes came in and were understood; this is the torrent they ask for.
    Understood { info_hash: [u8; 20] },
    /// All bytes came in and made no sense; this is what was wrong with them.
    Malformed(String),
    Failed,
    TimedOut,
}

impl PeerListener {
    /// An acceptor that has bound its sockets.
    pub fn new(utp: bool) -> (r: Self)
        ensures
            r == (PeerListener { healthy: true, done: false, utp }),
    {
        PeerListener { healthy: true, done: false, utp }
    }

    /// The stop signal has changed, or nobody can give it any more. Tells
    /// whether the acceptor ends.
    pub fn on_stop_signal(&self, closed: bool, stop: bool) -> (end: bool)
        ensures
            end == (closed || stop),
    {
        closed || stop
    }

    /// The pause after a failure is over, or the stop signal has changed.
    /// Tells whether the acceptor ends.
    pub fn on_backoff_end(&self, closed: bool, stop: bool) -> (end: bool)
        ensures
            end == (closed || stop),
    {
        closed || stop
    }

    /// Another port is asked for. The port that is bound already is kept.
    pub fn on_rebind(&self, port: u16, current_port: Result<u16, String>) -> (r: RebindStep)
        ensures
            match current_port {
                Ok(current) => if current == port {
                    r == RebindStep::Answer(Ok(()))
                } else {
                    r == (RebindStep::Bind { port, utp: self.utp })
                },
                Err(error) => r matches RebindStep::Answer(Err(e)) && e@
                    == "read peer listener address: "@ + error@,
            },
    {
        match current_port {
            Ok(current) => if current == port {
                RebindStep::Answer(Ok(()))
            } else {
                RebindStep::Bind { port, utp: self.utp }
            },
            Err(error) => RebindStep::Answer(
                Err(join2("read peer listener address: ", error.as_str())),
            ),
        }
    }

    /// A socket has come in. It takes a slot of both budgets or of none: where
    /// the connection budget has no slot left, the handshake admission is
    /// rolled back.
    pub fn on_accepted(
        &mut self,
        transport: InboundTransport,
        peer_addr: PeerAddr,
        now: u128,
        ingress: &mut PeerIngressBudget,
        budget: &mut GlobalNetworkBudget,
    ) -> (r: Admission)
        requires
            old(ingress).wf(),
            old(budget).wf(),
        ensures
            final(ingress).wf(),
            final(budget).wf(),
            *final(self) == (PeerListener {
                healthy: old(self).healthy || transport == InboundTransport::Tcp,
                ..*old(self)
            }),
            final(budget).slots() == old(budget).slots(),
            final(budget).free_slots() == old(budget).free_slots() - if r is Handshake {
                1int
            } else {
                0int
            },
            r is RefusedByHandshakeBudget && r->RefusedByHandshakeBudget_0
                == PeerIngressReject::PerIpBudget <==> old(ingress)@.ip_refused(peer_addr.ip, now),
            r is RefusedByHandshakeBudget && r->RefusedByHandshakeBudget_0
                == PeerIngressReject::GlobalBudget <==> !old(ingress)@.ip_refused(
                peer_addr.ip,
                now,
            ) && old(ingress)@.available == 0,
            r is RefusedByConnectionBudget <==> !old(ingress)@.ip_refused(peer_addr.ip, now) && old(
                ingress)@.available > 0 && old(budget).free_slots() == 0,
            r matches Admission::Handshake { permit, timeout, .. } ==> permit@ == (
                peer_addr.ip,
                old(ingress)@.next_id,
            ) && timeout == old(ingress)@.config.handshake_timeout,
            final(ingress)@.config == old(ingress)@.config,
            final(ingress)@.next_id == old(ingress)@.next_id.wrapping_add(1),
            final(ingress)@.available == old(ingress)@.available - if r is Handshake {
                1int
            } else {
                0int
            },
            final(ingress)@.table == match r {
                Admission::Handshake { .. } => old(ingress)@.reserved(peer_addr.ip, now),
                Admission::RefusedByHandshakeBudget(PeerIngressReject::PerIpBudget) => old(
                    ingress)@.current(peer_addr.ip, now),
                _ => released(
                    old(ingress)@.reserved(peer_addr.ip, now),
                    peer_addr.ip,
                    old(ingress)@.next_id,
                ),
            },
            final(ingress)@.counters == accept_counters(old(ingress)@.counters, r),
    {
        if transport == InboundTransport::Tcp {
            self.healthy = true;
        }
        proof {
            crate::peer_ingress::law_budget_keeps_its_bounds(*ingress);
        }
        match ingress.try_begin(peer_addr, now) {
            Ok(permit) => match budget.try_acquire_peer() {
                Some(slot) => {
                    let timeout = ingress.config().handshake_timeout;
                    Admission::Handshake { permit, slot, timeout }
                },
                None => {
                    ingress.record_peer_connection_budget_rejection();
                    permit.cancel(ingress);
                    Admission::RefusedByConnectionBudget
                },
            },
            Err(reason) => Admission::RefusedByHandshakeBudget(reason),
        }
    }

    /// No TCP peer could be accepted: the acceptor is unhealthy until one is.
    pub fn on_tcp_failure(&mut self) -> (r: AfterFailure)
        ensures
            *final(self) == (PeerListener { healthy: false, ..*old(self) }),
            r == AfterFailure::Backoff,
    {
        self.healthy = false;
        AfterFailure::Backoff
    }

    /// No uTP peer could be accepted. An endpoint that will never accept again
    /// ends the acceptor, which is unhealthy from then on.
    pub fn on_utp_failure(&mut self, error: &UtpError) -> (r: AfterFailure)
        ensures
            error is Closed || error is Io ==> r == AfterFailure::End && *final(self) == (
            PeerListener { healthy: false, ..*old(self) }),
            !(error is Closed || error is Io) ==> r == AfterFailure::Backoff && *final(self)
                == *old(self),
    {
        if utp_accept_failure_is_fatal(error) {
            self.healthy = false;
            AfterFailure::End
        } else {
            AfterFailure::Backoff
        }
    }

    /// The acceptor has ended, for whatever reason.
    pub fn on_end(&mut self)
        ensures
            *final(self) == (PeerListener { healthy: false, done: true, ..*old(self) }),
    {
        self.healthy = false;
        self.done = true;
    }
}

/// The counters after a socket has come in.
pub open spec fn accept_counters(before: PeerIngressStats, r: Admission) -> PeerIngressStats {
    match r {
        Admission::Handshake { .. } => PeerIngressStats {
            accepted: before.accepted.wrapping_add(1),
            ..before
        },
        Admission::RefusedByHandshakeBudget(PeerIngressReject::PerIpBudget) => PeerIngressStats {
            rejected_ip_budget: before.rejected_ip_budget.wrapping_add(1),
            ..before
        },
        Admission::RefusedByHandshakeBudget(PeerIngressReject::GlobalBudget) => PeerIngressStats {
            rejected_global_budget: before.rejected_global_budget.wrapping_add(1),
            ..before
        },
        Admission::RefusedByConnectionBudget => PeerIngressStats {
            accepted: before.accepted.wrapping_add(1),
            rejected_peer_connection_budget: before.rejected_peer_connection_budget.wrapping_add(1),
            ..before
        },
    }
}

/// The counters after a handshake.
pub open spec fn handshake_counters(before: PeerIngressStats, read: HandshakeRead) -> PeerIngressStats {
    match read {
        HandshakeRead::Understood { .. } => before,
        HandshakeRead::Malformed(_) => PeerIngressStats {
            malformed_handshakes: before.malformed_handshakes.wrapping_add(1),
            ..before
        },
        HandshakeRead::Failed => PeerIngressStats {
            handshake_read_errors: before.handshake_read_errors.wrapping_add(1),
            ..before
        },
        HandshakeRead::TimedOut => PeerIngressStats {
            handshake_timeouts: before.handshake_timeouts.wrapping_add(1),
            ..before
        },
    }
}

/// A peer whose handshake was understood. It keeps its slot of the handshake
/// budget until it is routed.
pub struct UnderstoodPeer {
    /// The torrent that the peer asks for, as the wire names it.
    pub info_hash: String,
    pub permit: PeerIngressPermit,
}

/// Takes in what was read of a handshake. The slot of the handshake budget is
/// free again where nothing could be made of it; else the peer is to be routed
/// with its slot.
pub fn handle_incoming(
    transport: InboundTransport,
    permit: PeerIngressPermit,
    ingress: &mut PeerIngressBudget,
    read: HandshakeRead,
) -> (r: Result<UnderstoodPeer, String>)
    requires
        old(ingress).wf(),
    ensures
        final(ingress).wf(),
        final(ingress)@ == (IngressState {
            available: if read is Understood {
                old(ingress)@.available
            } else {
                freed(old(ingress)@.available, old(ingress)@.config)
            },
            counters: handshake_counters(old(ingress)@.counters, read),
            ..old(ingress)@
        }),
        match (read, transport) {
            (HandshakeRead::Understood { info_hash }, _) => r matches Ok(peer)
                && peer.info_hash@ == hex_text(info_hash@) && peer.permit == permit,
            (HandshakeRead::Malformed(error), _) => r matches Err(e) && e@ == error@,
            (HandshakeRead::Failed, InboundTransport::Tcp) => r matches Err(e) && e@
                == "incoming TCP peer handshake read failed"@,
            (HandshakeRead::Failed, InboundTransport::Utp) => r matches Err(e) && e@
                == "incoming uTP peer handshake read failed"@,
            (HandshakeRead::TimedOut, InboundTransport::Tcp) => r matches Err(e) && e@
                == "incoming TCP peer handshake timed out"@,
            (HandshakeRead::TimedOut, InboundTransport::Utp) => r matches Err(e) && e@
                == "incoming uTP peer handshake timed out"@,
        },
{
    match read {
        HandshakeRead::Understood { info_hash } => Ok(
            UnderstoodPeer { info_hash: hex_encode(info_hash.as_slice()), permit },
        ),
        HandshakeRead::Malformed(error) => {
            ingress.record_malformed_handshake();
            ingress.release(permit);
            Err(error)
        },
        HandshakeRead::Failed => {
            ingress.record_handshake_read_error();
            ingress.release(permit);
            match transport {
                InboundTransport::Tcp => Err("incoming TCP peer handshake read failed".to_owned()),
                InboundTransport::Utp => Err("incoming uTP peer handshake read failed".to_owned()),
            }
        },
        HandshakeRead::TimedOut => {
            ingress.record_handshake_timeout();
            ingress.release(permit);
            match transport {
                InboundTransport::Tcp => Err("incoming TCP peer handshake timed out".to_owned()),
                InboundTransport::Utp => Err("incoming uTP peer handshake timed out".to_owned()),
            }
        },
    }
}

/// Ends the handshake of a peer that was handed to the session, or could not
/// be: only now is its slot of the handshake budget free again.
pub fn route_incoming_command(
    permit: PeerIngressPermit,
    ingress: &mut PeerIngressBudget,
    outcome: SendOutcome,
) -> (r: Result<(), String>)
    requires
        old(ingress).wf(),
    ensures
        final(ingress).wf(),
        final(ingress)@ == (IngressState {
            available: freed(old(ingress)@.available, old(ingress)@.config),
            ..old(ingress)@
        }),
        match outcome {
            SendOutcome::Sent => r is Ok,
            SendOutcome::Closed => r matches Err(e) && e@
                == "engine stopped while routing inbound peer"@,
            SendOutcome::TimedOut => r matches Err(e) && e@ == "engine command queue timed out"@,
        },
{
    ingress.release(permit);
    match outcome {
        SendOutcome::Sent => Ok(()),
        SendOutcome::Closed => Err("engine stopped while routing inbound peer".to_owned()),
        SendOutcome::TimedOut => Err("engine command queue timed out".to_owned()),
    }
}

/// A socket that the connection budget refuses leaves nothing behind: neither
/// a slot nor a reservation, as long as the numbers of reservations have not
/// started over.
pub proof fn law_refused_socket_leaves_nothing(
    before: IngressState,
    peer_addr: PeerAddr,
    now: u128,
)
    requires
        before.valid(),
        before.verdict(peer_addr.ip, now) is Ok,
        forall|i: int|
            0 <= i < of_ip(before.table, peer_addr.ip).len() ==> (#[trigger] of_ip(
                before.table,
                peer_addr.ip,
            )[i]).id != before.next_id,
    ensures
        ({
            let after = before.begun(peer_addr.ip, now).cancelled(peer_addr.ip, before.next_id);
            &&& after.available == before.available
            &&& after.table == before.current(peer_addr.ip, now)
        }),
{
    crate::peer_ingress::law_cancel_undoes_reservation(before, peer_addr.ip, now);
}

/// A socket that has come in is counted by what became of it and by nothing else:
/// as accepted where its handshake is read, under the budget that refused it
/// otherwise. One that only the connection budget refuses counts as accepted
/// and as refused.
pub proof fn law_sockets_are_counted_by_their_fate(before: PeerIngressStats, r: Admission)
    ensures
        ({
            let after = accept_counters(before, r);
            let taken = r is Handshake || r is RefusedByConnectionBudget;
            &&& after.accepted == if taken {
                before.accepted.wrapping_add(1)
            } else {
                before.accepted
            }
            &&& after.rejected_ip_budget == if r is RefusedByHandshakeBudget
                && r->RefusedByHandshakeBudget_0 == PeerIngressReject::PerIpBudget {
                before.rejected_ip_budget.wrapping_add(1)
            } else {
                before.rejected_ip_budget
            }
            &&& after.rejected_global_budget == if r is RefusedByHandshakeBudget
                && r->RefusedByHandshakeBudget_0 == PeerIngressReject::GlobalBudget {
                before.rejected_global_budget.wrapping_add(1)
            } else {
                before.rejected_global_budget
            }
            &&& after.rejected_peer_connection_budget == if r is RefusedByConnectionBudget {
                before.rejected_peer_connection_budget.wrapping_add(1)
            } else {
                before.rejected_peer_connection_budget
            }
            &&& after.handshake_timeouts == before.handshake_timeouts
                && after.handshake_read_errors == before.handshake_read_errors
                && after.malformed_handshakes == before.malformed_handshakes
        }),
{
}

/// A handshake that was understood is counted nowhere, and one that was not is
/// counted by how it failed and by nothing else.
pub proof fn law_handshakes_are_counted_by_their_failure(
    before: PeerIngressStats,
    read: HandshakeRead,
)
    ensures
        ({
            let after = handshake_counters(before, read);
            &&& read is Understood ==> after == before
            &&& after.handshake_timeouts == if read is TimedOut {
                before.handshake_timeouts.wrapping_add(1)
            } else {
                before.handshake_timeouts
            }
            &&& after.handshake_read_errors == if read is Failed {
                before.handshake_read_errors.wrapping_add(1)
            } else {
                before.handshake_read_errors
            }
            &&& after.malformed_handshakes == if read is Malformed {
                before.malformed_handshakes.wrapping_add(1)
            } else {
                before.malformed_handshakes
            }
            &&& after.accepted == before.accepted && after.rejected_ip_budget
                == before.rejected_ip_budget && after.rejected_global_budget
                == before.rejected_global_budget && after.rejected_peer_connection_budget
                == before.rejected_peer_connection_budget
        }),
{
}

/// An acceptor that cannot accept TCP peers is unhealthy and tries again; a uTP
/// endpoint that is gone ends it, and one peer that misbehaves changes nothing. One
/// that has ended is done and unhealthy.
pub proof fn law_failures_are_told_apart(error: &UtpError)
    ensures
        forall|l: &mut PeerListener, r: AfterFailure| #[trigger]
            call_ensures(PeerListener::on_tcp_failure, (l,), r) ==> {
                &&& r == AfterFailure::Backoff
                &&& !final(l).healthy && final(l).done == l.done && final(l).utp == l.utp
            },
        forall|l: &mut PeerListener, r: AfterFailure| #[trigger]
            call_ensures(PeerListener::on_utp_failure, (l, error), r) ==> {
                &&& error is Closed || error is Io ==> r == AfterFailure::End && !final(l).healthy
                &&& error is Timeout || error is InvalidStatePacket || error is Other ==> r
                    == AfterFailure::Backoff && *final(l) == *l
                &&& final(l).done == l.done && final(l).utp == l.utp
            },
        forall|l: &mut PeerListener| #[trigger]
            call_ensures(PeerListener::on_end, (l,), ()) ==> !final(l).healthy && final(l).done
                && final(l).utp == l.utp,
        forall|r: bool| #[trigger]
            call_ensures(utp_accept_failure_is_fatal, (error,), r) ==> (r <==> error is Closed
                || error is Io),
{
}

/// A port that is bound already is kept; another one is bound, for uTP as well where
/// uTP peers are accepted; where the port cannot be read, that is told.
pub proof fn law_rebinding_keeps_what_is_bound(
    listener: &PeerListener,
    port: u16,
    current: Result<u16, String>,
    r: RebindStep,
)
    requires
        call_ensures(PeerListener::on_rebind, (listener, port, current), r),
    ensures
        current == Ok::<u16, String>(port) ==> r == RebindStep::Answer(Ok(())),
        current matches Ok(bound) ==> (bound != port ==> (r matches RebindStep::Bind {
            port: p,
            utp,
        } && p == port && utp == listener.utp)),
        current is Err ==> (r matches RebindStep::Answer(answer) && answer is Err),
{
}

/// An acceptor ends when it is told to, or when nobody can tell it any more, also
/// while it waits after a failure.
pub proof fn law_acceptors_end_when_told(
    listener: &PeerListener,
    closed: bool,
    stop: bool,
    at_signal: bool,
    at_backoff: bool,
    fresh: PeerListener,
    utp: bool,
)
    requires
        call_ensures(PeerListener::on_stop_signal, (listener, closed, stop), at_signal),
        call_ensures(PeerListener::on_backoff_end, (listener, closed, stop), at_backoff),
        call_ensures(PeerListener::new, (utp,), fresh),
    ensures
        at_signal <==> stop || closed,
        at_backoff == at_signal,
        fresh.healthy && !fresh.done && fresh.utp == utp,
{
}

} // verus!
