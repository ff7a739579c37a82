//! One announce to one tracker, over HTTP or UDP: what is sent, which answers
//! count, and how failures are told.

use vstd::prelude::*;

use crate::metadata_announce::TrackerError;
use crate::metadata_peers::MAX_TRACKER_PEERS;
use crate::net::PeerAddr;

verus! {

/// The answer of a tracker.
#[derive(Debug)]
pub struct AnnounceResponse {
    /// When to announce again, in seconds.
    pub interval: u32,
    pub peers: Vec<PeerAddr>,
    pub complete: Option<u32>,
    pub incomplete: Option<u32>,
}

/// How many peers of an answer are read.
pub fn response_peer_limit(max_peers: usize) -> (r: usize)
    ensures
        r == if max_peers < MAX_TRACKER_PEERS {
            max_peers
        } else {
            MAX_TRACKER_PEERS
        },
{
    if max_peers < MAX_TRACKER_PEERS {
        max_peers
    } else {
        MAX_TRACKER_PEERS
    }
}

/// What came of a request over HTTP.
#[derive(Debug)]
pub enum HttpOutcome {
    /// It failed on the way; `timed_out` tells whether it took too long.
    Failed { timed_out: bool, error: String },
    /// The tracker answered.
    Status { status: u16, success: bool },
}

/// Decides about a request over HTTP: only an answer that tells success is
/// read.
pub fn http_verdict(outcome: HttpOutcome) -> (r: Result<(), TrackerError>)
    ensures
        match outcome {
            HttpOutcome::Failed { timed_out: true, .. } => r == Err::<(), TrackerError>(
                TrackerError::Timeout,
            ),
            HttpOutcome::Failed { timed_out: false, error } => r == Err::<(), TrackerError>(
                TrackerError::Network(error),
            ),
            HttpOutcome::Status { status, success } => if success {
                r is Ok
            } else {
                r == Err::<(), TrackerError>(TrackerError::Http { status })
            },
        },
{
    match outcome {
        HttpOutcome::Failed { timed_out, error } => if timed_out {
            Err(TrackerError::Timeout)
        } else {
            Err(TrackerError::Network(error))
        },
        HttpOutcome::Status { status, success } => if success {
            Ok(())
        } else {
            Err(TrackerError::Http { status })
        },
    }
}

/// What is to be done next in an announce over UDP.
#[derive(Debug)]
pub enum UdpAction {
    /// Find the addresses of the tracker that may be contacted.
    Resolve,
    /// Open a socket to this address.
    Open { addr: PeerAddr },
    /// Send a request to connect.
    SendConnect,
    /// Get memory for the answers.
    Reserve,
    /// Await the answer to the request to connect.
    ReceiveConnect,
    /// Send the announce.
    SendAnnounce { connection_id: u64 },
    /// Await the answer to the announce.
    ReceiveAnnounce,
    Finish(Result<AnnounceResponse, TrackerError>),
}

/// What came of an action.
#[derive(Debug)]
pub enum UdpOutcome {
    Done,
    /// The network failed.
    Failed(String),
    /// No answer came in time.
    TimedOut,
    /// There was no memory, or the answer could not be read.
    Refused(TrackerError),
    Resolved(Vec<PeerAddr>),
    /// A request was sent under this number.
    Sent { transaction_id: u32 },
    Connected { transaction_id: u32, connection_id: u64 },
    Announced {
        transaction_id: u32,
        interval: u32,
        seeders: u32,
        leechers: u32,
        peers: Vec<PeerAddr>,
    },
}

/// How far an announce over UDP has come.
#[derive(Clone, Copy, Debug, PartialEq, Eq, Structural)]
pub enum UdpAnnounce {
    Resolving,
    Opening,
    SendingConnect,
    Reserving { transaction_id: u32 },
    ReceivingConnect { transaction_id: u32 },
    SendingAnnounce,
    ReceivingAnnounce { transaction_id: u32 },
    Over,
}

pub open spec fn udp_ended(error: TrackerError) -> (UdpAnnounce, UdpAction) {
    (UdpAnnounce::Over, UdpAction::Finish(Err(error)))
}

/// It failed with this text.
pub open spec fn udp_error(after: (UdpAnnounce, UdpAction), text: Seq<char>) -> bool {
    after.0 == UdpAnnounce::Over && (after.1 matches UdpAction::Finish(Err(TrackerError::Udp(e)))
        && e@ == text)
}

/// What an outcome brings about. An answer to another request than the last one
/// ends the announce.
pub open spec fn udp_relation(
    phase: UdpAnnounce,
    outcome: UdpOutcome,
    after: (UdpAnnounce, UdpAction),
) -> bool {
    match (phase, outcome) {
        (_, UdpOutcome::Failed(e)) => after == udp_ended(TrackerError::Network(e)),
        (_, UdpOutcome::TimedOut) => after == udp_ended(TrackerError::Timeout),
        (_, UdpOutcome::Refused(e)) => after == udp_ended(e),
        (UdpAnnounce::Resolving, UdpOutcome::Resolved(addrs)) => if addrs@.len() > 0 {
            after == (UdpAnnounce::Opening, UdpAction::Open { addr: addrs@[0] })
        } else {
            after.0 == UdpAnnounce::Over && (after.1 matches UdpAction::Finish(
                Err(TrackerError::Network(e)),
            ) && e@ == "no validated tracker address"@)
        },
        (UdpAnnounce::Opening, _) => after == (UdpAnnounce::SendingConnect, UdpAction::SendConnect),
        (UdpAnnounce::SendingConnect, UdpOutcome::Sent { transaction_id }) => after == (
            UdpAnnounce::Reserving { transaction_id },
            UdpAction::Reserve,
        ),
        (UdpAnnounce::Reserving { transaction_id }, _) => after == (
            UdpAnnounce::ReceivingConnect { transaction_id },
            UdpAction::ReceiveConnect,
        ),
        (
            UdpAnnounce::ReceivingConnect { transaction_id: sent },
            UdpOutcome::Connected { transaction_id, connection_id },
        ) => if transaction_id == sent {
            after == (UdpAnnounce::SendingAnnounce, UdpAction::SendAnnounce { connection_id })
        } else {
            udp_error(after, "connect transaction id mismatch"@)
        },
        (UdpAnnounce::SendingAnnounce, UdpOutcome::Sent { transaction_id }) => after == (
            UdpAnnounce::ReceivingAnnounce { transaction_id },
            UdpAction::ReceiveAnnounce,
        ),
        (
            UdpAnnounce::ReceivingAnnounce { transaction_id: sent },
            UdpOutcome::Announced { transaction_id, interval, seeders, leechers, peers },
        ) => if transaction_id == sent {
            after == (
                UdpAnnounce::Over,
                UdpAction::Finish(
                    Ok(
                        AnnounceResponse {
                            interval,
                            peers,
                            complete: Some(seeders),
                            incomplete: Some(leechers),
                        },
                    ),
                ),
            )
        } else {
            udp_error(after, "announce transaction id mismatch"@)
        },
        (_, _) => after == udp_ended(TrackerError::Timeout),
    }
}

impl UdpAnnounce {
    /// Starts an announce over UDP.
    pub fn begin() -> (r: (Self, UdpAction))
        ensures
            r.0 == UdpAnnounce::Resolving,
            r.1 is Resolve,
    {
        (UdpAnnounce::Resolving, UdpAction::Resolve)
    }

    /// Takes the outcome of the last action, and tells the next one.
    pub fn next(self, outcome: UdpOutcome) -> (r: (Self, UdpAction))
        ensures
            udp_relation(self, outcome, r),
    {
        match (self, outcome) {
            (_, UdpOutcome::Failed(e)) => (
                UdpAnnounce::Over,
                UdpAction::Finish(Err(TrackerError::Network(e))),
            ),
            (_, UdpOutcome::TimedOut) => (
                UdpAnnounce::Over,
                UdpAction::Finish(Err(TrackerError::Timeout)),
            ),
            (_, UdpOutcome::Refused(e)) => (UdpAnnounce::Over, UdpAction::Finish(Err(e))),
            (UdpAnnounce::Resolving, UdpOutcome::Resolved(addrs)) => {
                if addrs.len() > 0 {
                    (UdpAnnounce::Opening, UdpAction::Open { addr: addrs[0] })
                } else {
                    (
                        UdpAnnounce::Over,
                        UdpAction::Finish(
                            Err(TrackerError::Network("no validated tracker address".to_owned())),
                        ),
                    )
                }
            },
            (UdpAnnounce::Opening, _) => (UdpAnnounce::SendingConnect, UdpAction::SendConnect),
            (UdpAnnounce::SendingConnect, UdpOutcome::Sent { transaction_id }) => (
                UdpAnnounce::Reserving { transaction_id },
                UdpAction::Reserve,
            ),
            (UdpAnnounce::Reserving { transaction_id }, _) => (
                UdpAnnounce::ReceivingConnect { transaction_id },
                UdpAction::ReceiveConnect,
            ),
            (
                UdpAnnounce::ReceivingConnect { transaction_id: sent },
                UdpOutcome::Connected { transaction_id, connection_id },
            ) => {
                if transaction_id == sent {
                    (UdpAnnounce::SendingAnnounce, UdpAction::SendAnnounce { connection_id })
                } else {
                    (
                        UdpAnnounce::Over,
                        UdpAction::Finish(
                            Err(TrackerError::Udp("connect transaction id mismatch".to_owned())),
                        ),
                    )
                }
            },
            (UdpAnnounce::SendingAnnounce, UdpOutcome::Sent { transaction_id }) => (
                UdpAnnounce::ReceivingAnnounce { transaction_id },
                UdpAction::ReceiveAnnounce,
            ),
            (
                UdpAnnounce::ReceivingAnnounce { transaction_id: sent },
                UdpOutcome::Announced { transaction_id, interval, seeders, leechers, peers },
            ) => {
                if transaction_id == sent {
                    (
                        UdpAnnounce::Over,
                        UdpAction::Finish(
                            Ok(
                                AnnounceResponse {
                                    interval,
                                    peers,
                                    complete: Some(seeders),
                                    incomplete: Some(leechers),
                                },
                            ),
                        ),
                    )
                } else {
                    (
                        UdpAnnounce::Over,
                        UdpAction::Finish(
                            Err(TrackerError::Udp("announce transaction id mismatch".to_owned())),
                        ),
                    )
                }
            },
            (_, _) => (UdpAnnounce::Over, UdpAction::Finish(Err(TrackerError::Timeout))),
        }
    }
}

/// Peers are believed only where the answer carries the number of the announce
/// that was sent.
pub proof fn law_answers_carry_the_number_of_the_request(
    phase: UdpAnnounce,
    outcome: UdpOutcome,
    after: (UdpAnnounce, UdpAction),
)
    requires
        udp_relation(phase, outcome, after),
        after.1 matches UdpAction::Finish(Ok(_)),
    ensures
        phase matches UdpAnnounce::ReceivingAnnounce { transaction_id: sent } && (outcome
            matches UdpOutcome::Announced { transaction_id, .. } && transaction_id == sent),
{
}

/// An announce over UDP whose answers all fit goes through: the first address is
/// opened, a connection is asked for and given, and the announce carries its
/// number. What comes back is the answer of the tracker, unchanged.
pub proof fn law_fitting_answers_go_through(
    addrs: Vec<PeerAddr>,
    opened: UdpOutcome,
    reserved: UdpOutcome,
    connect_id: u32,
    connection_id: u64,
    announce_id: u32,
    interval: u32,
    seeders: u32,
    leechers: u32,
    peers: Vec<PeerAddr>,
    r1: (UdpAnnounce, UdpAction),
    r2: (UdpAnnounce, UdpAction),
    r3: (UdpAnnounce, UdpAction),
    r4: (UdpAnnounce, UdpAction),
    r5: (UdpAnnounce, UdpAction),
    r6: (UdpAnnounce, UdpAction),
    r7: (UdpAnnounce, UdpAction),
)
    requires
        addrs@.len() > 0,
        !(opened is Failed) && !(opened is TimedOut) && !(opened is Refused),
        !(reserved is Failed) && !(reserved is TimedOut) && !(reserved is Refused),
        udp_relation(UdpAnnounce::Resolving, UdpOutcome::Resolved(addrs), r1),
        udp_relation(r1.0, opened, r2),
        udp_relation(r2.0, (UdpOutcome::Sent { transaction_id: connect_id }), r3),
        udp_relation(r3.0, reserved, r4),
        udp_relation(
            r4.0,
            (UdpOutcome::Connected { transaction_id: connect_id, connection_id }),
            r5,
        ),
        udp_relation(r5.0, (UdpOutcome::Sent { transaction_id: announce_id }), r6),
        udp_relation(
            r6.0,
            (UdpOutcome::Announced {
                transaction_id: announce_id,
                interval,
                seeders,
                leechers,
                peers,
            }),
            r7,
        ),
    ensures
        r1.1 == (UdpAction::Open { addr: addrs@[0] }),
        r2.1 is SendConnect,
        r3.1 is Reserve,
        r4.1 is ReceiveConnect,
        r5.1 == (UdpAction::SendAnnounce { connection_id }),
        r6.1 is ReceiveAnnounce,
        r7.1 matches UdpAction::Finish(Ok(response)) && response.interval == interval
            && response.peers == peers && response.complete == Some(seeders) && response.incomplete
            == Some(leechers),
{
}

/// What goes wrong ends the announce and is told: a network that fails, an answer
/// that does not come, one that is refused, a tracker without an address, and an
/// answer that carries another number.
pub proof fn law_broken_announces_are_told(
    phase: UdpAnnounce,
    error: String,
    refused: TrackerError,
    none: Vec<PeerAddr>,
    sent: u32,
    other: u32,
    connection_id: u64,
    failed: (UdpAnnounce, UdpAction),
    late: (UdpAnnounce, UdpAction),
    unread: (UdpAnnounce, UdpAction),
    nowhere: (UdpAnnounce, UdpAction),
    foreign: (UdpAnnounce, UdpAction),
)
    requires
        none@.len() == 0,
        sent != other,
        udp_relation(phase, UdpOutcome::Failed(error), failed),
        udp_relation(phase, UdpOutcome::TimedOut, late),
        udp_relation(phase, UdpOutcome::Refused(refused), unread),
        udp_relation(UdpAnnounce::Resolving, UdpOutcome::Resolved(none), nowhere),
        udp_relation(
            (UdpAnnounce::ReceivingConnect { transaction_id: sent }),
            (UdpOutcome::Connected { transaction_id: other, connection_id }),
            foreign,
        ),
    ensures
        failed.0 == UdpAnnounce::Over && failed.1 == UdpAction::Finish(
            Err(TrackerError::Network(error)),
        ),
        late.0 == UdpAnnounce::Over && late.1 == UdpAction::Finish(Err(TrackerError::Timeout)),
        unread.0 == UdpAnnounce::Over && unread.1 == UdpAction::Finish(Err(refused)),
        nowhere.0 == UdpAnnounce::Over && nowhere.1 matches UdpAction::Finish(
            Err(TrackerError::Network(_)),
        ),
        foreign.0 == UdpAnnounce::Over && foreign.1 matches UdpAction::Finish(
            Err(TrackerError::Udp(_)),
        ),
{
}

/// Over HTTP an answer is read exactly where it tells success; a failure is told as
/// a timeout or with its text, and another status with its number. No more
/// peers are read than are wanted, nor than a tracker may report.
pub proof fn law_http_answers_are_judged(
    timed_out: bool,
    error: String,
    status: u16,
    success: bool,
    failed: Result<(), TrackerError>,
    answered: Result<(), TrackerError>,
    max_peers: usize,
    limit: usize,
)
    requires
        call_ensures(http_verdict, ((HttpOutcome::Failed { timed_out, error }),), failed),
        call_ensures(http_verdict, ((HttpOutcome::Status { status, success }),), answered),
        call_ensures(response_peer_limit, (max_peers,), limit),
    ensures
        failed is Err,
        timed_out <==> failed == Err::<(), TrackerError>(TrackerError::Timeout),
        !timed_out ==> failed == Err::<(), TrackerError>(TrackerError::Network(error)),
        success <==> answered is Ok,
        !success ==> answered == Err::<(), TrackerError>(TrackerError::Http { status }),
        limit <= max_peers && limit <= 16_384,
        limit == max_peers || limit == 16_384,
{
}

/// What an announce waits for is what was last asked for, and it is over exactly when it
/// is finished. An answer to another announce is an error, and so is one that nobody
/// asked for.
pub proof fn law_announces_wait_for_what_they_ask(
    phase: UdpAnnounce,
    outcome: UdpOutcome,
    after: (UdpAnnounce, UdpAction),
)
    requires
        udp_relation(phase, outcome, after),
    ensures
        after.0 is Resolving <==> after.1 is Resolve,
        after.0 is Opening <==> after.1 is Open,
        after.0 is SendingConnect <==> after.1 is SendConnect,
        after.0 is Reserving <==> after.1 is Reserve,
        after.0 is ReceivingConnect <==> after.1 is ReceiveConnect,
        after.0 is SendingAnnounce <==> after.1 is SendAnnounce,
        after.0 is ReceivingAnnounce <==> after.1 is ReceiveAnnounce,
        after.0 is Over <==> after.1 is Finish,
        after.1 matches UdpAction::Finish(Ok(response)) ==> (phase matches
            UdpAnnounce::ReceivingAnnounce { transaction_id: sent } && (outcome matches
            UdpOutcome::Announced { transaction_id, .. } && transaction_id == sent)),
        phase matches UdpAnnounce::ReceivingAnnounce { transaction_id: sent } ==> (outcome matches
            UdpOutcome::Announced { transaction_id, .. } ==> (transaction_id != sent ==> (
        after.1 matches UdpAction::Finish(Err(TrackerError::Udp(_)))))),
        phase is Over && !(outcome is Failed) && !(outcome is Refused) ==> after.1
            == UdpAction::Finish(Err(TrackerError::Timeout)),
{
}

} // verus!
