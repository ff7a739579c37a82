//! The life of a torrent that waits for its metadata: which network work it
//! starts, how commands interrupt it, and what each command is answered.

use vstd::prelude::*;

use crate::metadata_announce::TrackerEvent;
use crate::metadata_memory::{compact_metadata_task_trackers, MetadataTaskMemory};
use crate::metadata_peers::MAX_METADATA_FETCH_CONCURRENCY;
use crate::net::PeerAddr;
use crate::text::{decimal, lowered, to_ascii_lowercase, trim, trimmed};

verus! {

/// Which transports are tried to reach a peer.
#[derive(Clone, Copy, Debug, PartialEq, Eq, Structural)]
pub enum MetadataTransportPolicy {
    TcpOnly,
    PreferUtp,
    UtpOnly,
}

/// The policy that a configured text stands for, in any letter case and with
/// white space around it.
pub open spec fn policy_of(value: Seq<char>) -> MetadataTransportPolicy {
    let word = lowered(trimmed(value));
    if word == "1"@ || word == "true"@ || word == "yes"@ || word == "prefer"@ || word
        == "prefer-utp"@ || word == "utp-prefer"@ {
        MetadataTransportPolicy::PreferUtp
    } else if word == "only"@ || word == "utp"@ || word == "utp-only"@ {
        MetadataTransportPolicy::UtpOnly
    } else {
        MetadataTransportPolicy::TcpOnly
    }
}

fn is_word(text: &String, word: &str) -> (r: bool)
    ensures
        r == (text@ == word@),
{
    *text == word.to_owned()
}

/// Reads a configured policy.
pub fn parse_metadata_transport_policy(value: &str) -> (r: MetadataTransportPolicy)
    ensures
        r == policy_of(value@),
{
    let word = to_ascii_lowercase(trim(value).as_str());
    if is_word(&word, "1") || is_word(&word, "true") || is_word(&word, "yes") || is_word(
        &word,
        "prefer",
    ) || is_word(&word, "prefer-utp") || is_word(&word, "utp-prefer") {
        MetadataTransportPolicy::PreferUtp
    } else if is_word(&word, "only") || is_word(&word, "utp") || is_word(&word, "utp-only") {
        MetadataTransportPolicy::UtpOnly
    } else {
        MetadataTransportPolicy::TcpOnly
    }
}

/// The policy for outgoing metadata connections: what is configured for them,
/// else what is configured for all outgoing connections, else whether the
/// transport is switched on at all.
pub fn metadata_outgoing_transport_policy(
    for_metadata: Option<&str>,
    for_outgoing: Option<&str>,
    enabled: bool,
) -> (r: MetadataTransportPolicy)
    ensures
        r == match (for_metadata, for_outgoing) {
            (Some(value), _) => policy_of(value@),
            (None, Some(value)) => policy_of(value@),
            (None, None) => if enabled {
                MetadataTransportPolicy::PreferUtp
            } else {
                MetadataTransportPolicy::TcpOnly
            },
        },
{
    match for_metadata {
        Some(value) => parse_metadata_transport_policy(value),
        None => match for_outgoing {
            Some(value) => parse_metadata_transport_policy(value),
            None => if enabled {
                MetadataTransportPolicy::PreferUtp
            } else {
                MetadataTransportPolicy::TcpOnly
            },
        },
    }
}

/// One way to reach a peer.
#[derive(Clone, Copy, Debug, PartialEq, Eq, Structural)]
pub enum Transport {
    Tcp,
    Utp,
}

/// The transport to try, after `failed` have failed.
pub fn next_transport(policy: MetadataTransportPolicy, failed: usize) -> (r: Option<Transport>)
    ensures
        r == match (policy, failed) {
            (MetadataTransportPolicy::TcpOnly, 0) => Some(Transport::Tcp),
            (MetadataTransportPolicy::UtpOnly, 0) => Some(Transport::Utp),
            (MetadataTransportPolicy::PreferUtp, 0) => Some(Transport::Utp),
            (MetadataTransportPolicy::PreferUtp, 1) => Some(Transport::Tcp),
            _ => None,
        },
{
    match policy {
        MetadataTransportPolicy::TcpOnly => if failed == 0 {
            Some(Transport::Tcp)
        } else {
            None
        },
        MetadataTransportPolicy::UtpOnly => if failed == 0 {
            Some(Transport::Utp)
        } else {
            None
        },
        MetadataTransportPolicy::PreferUtp => if failed == 0 {
            Some(Transport::Utp)
        } else if failed == 1 {
            Some(Transport::Tcp)
        } else {
            None
        },
    }
}

/// Why a peer is not connected to, if it is not; the first reason counts.
/// `denied` is what the address policy objects to.
pub fn refuse_fetch_attempt(denied: Option<String>, banned: bool, slot_taken: bool) -> (r: Option<
    String,
>)
    ensures
        match denied {
            Some(error) => r matches Some(e) && e@ == "metadata peer denied by egress policy: "@
                + error@,
            None => if banned {
                r matches Some(e) && e@ == "metadata peer is banned"@
            } else if !slot_taken {
                r matches Some(e) && e@ == "global peer connection budget exhausted"@
            } else {
                r is None
            },
        },
{
    if let Some(error) = denied {
        return Some(
            crate::text::join2("metadata peer denied by egress policy: ", error.as_str()),
        );
    }
    if banned {
        return Some("metadata peer is banned".to_owned());
    }
    if !slot_taken {
        return Some("global peer connection budget exhausted".to_owned());
    }
    None
}

/// A command to the task of a torrent.
#[derive(Debug)]
pub enum TaskCommand {
    NewPeers(Vec<PeerAddr>),
    PriorityPeers(Vec<PeerAddr>),
    AcceptPeer,
    AcceptUtpPeer,
    Shutdown,
    Pause,
    Resume,
    Reannounce,
    GetPeers,
    GetPeerSnapshotCount,
    GetPeerSnapshots,
    GetWebseeds,
    GetRuntimeStats,
    QuiesceForStorageMove,
    ResumeAfterStorageMove { resume_paused: bool },
    Recheck,
    CancelJob,
    UpdatePeerExchange,
    BanPeer,
    EvictBannedPeers,
    ReloadFilePolicy,
    UpdateLimits,
    /// `granted` tells whether the memory that the new trackers need could be
    /// had.
    UpdateTrackers { trackers: Vec<String>, granted: bool },
}

/// What a command is answered.
#[derive(Debug)]
pub enum TaskReply {
    /// Nothing: the command expects no answer.
    Silence,
    /// It was done.
    Done,
    /// It was not done, and why.
    Refused(String),
    /// There is nothing to report.
    Nothing,
    /// Whether the task was paused before.
    WasPaused(bool),
}

/// An answer as a mathematical value.
pub enum Answer {
    Silence,
    Done,
    Refused(Seq<char>),
    Nothing,
    WasPaused(bool),
}

impl View for TaskReply {
    type V = Answer;

    open spec fn view(&self) -> Answer {
        match self {
            TaskReply::Silence => Answer::Silence,
            TaskReply::Done => Answer::Done,
            TaskReply::Refused(text) => Answer::Refused(text@),
            TaskReply::Nothing => Answer::Nothing,
            TaskReply::WasPaused(was) => Answer::WasPaused(*was),
        }
    }
}

/// What a command is answered that arrives while the task shuts down.
pub open spec fn shutdown_answer(command: TaskCommand) -> Answer {
    match command {
        TaskCommand::Pause
        | TaskCommand::Resume
        | TaskCommand::ReloadFilePolicy
        | TaskCommand::UpdateLimits
        | TaskCommand::UpdateTrackers { .. }
        | TaskCommand::QuiesceForStorageMove
        | TaskCommand::ResumeAfterStorageMove { .. }
        | TaskCommand::GetPeerSnapshots => Answer::Refused("metadata task is shutting down"@),
        TaskCommand::GetPeers
        | TaskCommand::GetPeerSnapshotCount
        | TaskCommand::GetWebseeds
        | TaskCommand::GetRuntimeStats => Answer::Nothing,
        _ => Answer::Silence,
    }
}

/// Answers a command that arrives while the task shuts down.
pub fn reject_metadata_command_during_shutdown(command: &TaskCommand) -> (r: TaskReply)
    ensures
        r@ == shutdown_answer(*command),
{
    match command {
        TaskCommand::Pause
        | TaskCommand::Resume
        | TaskCommand::ReloadFilePolicy
        | TaskCommand::UpdateLimits
        | TaskCommand::UpdateTrackers { .. }
        | TaskCommand::QuiesceForStorageMove
        | TaskCommand::ResumeAfterStorageMove { .. }
        | TaskCommand::GetPeerSnapshots => TaskReply::Refused(
            "metadata task is shutting down".to_owned(),
        ),
        TaskCommand::GetPeers
        | TaskCommand::GetPeerSnapshotCount
        | TaskCommand::GetWebseeds
        | TaskCommand::GetRuntimeStats => TaskReply::Nothing,
        _ => TaskReply::Silence,
    }
}

/// Pauses a task for storage work; tells whether it was paused before.
pub fn quiesce_metadata_task(paused: &mut bool) -> (was_paused: bool)
    ensures
        was_paused == *old(paused),
        *final(paused),
{
    let was_paused = *paused;
    *paused = true;
    was_paused
}

/// The answer and the pause flag after a command that arrives once the
/// metadata has been handed over; nothing of the flag where the task ends.
pub open spec fn completion_step(paused: bool, command: TaskCommand) -> (Answer, Option<bool>) {
    match command {
        TaskCommand::Shutdown => (Answer::Silence, None),
        TaskCommand::Pause => (Answer::Done, Some(true)),
        TaskCommand::Resume => (Answer::Done, Some(false)),
        TaskCommand::QuiesceForStorageMove => (Answer::WasPaused(paused), Some(true)),
        TaskCommand::ResumeAfterStorageMove { resume_paused } => (
            Answer::Done,
            Some(resume_paused),
        ),
        TaskCommand::ReloadFilePolicy
        | TaskCommand::UpdateLimits
        | TaskCommand::UpdateTrackers { .. } => (Answer::Done, Some(paused)),
        TaskCommand::GetPeers
        | TaskCommand::GetPeerSnapshotCount
        | TaskCommand::GetPeerSnapshots
        | TaskCommand::GetWebseeds
        | TaskCommand::GetRuntimeStats => (Answer::Nothing, Some(paused)),
        _ => (Answer::Silence, Some(paused)),
    }
}

/// Answers a command that arrives once the metadata has been handed over. The
/// task stays until it is told to end.
pub fn wait_for_metadata_completion(paused: &mut bool, command: &TaskCommand) -> (r: (
    TaskReply,
    bool,
))
    ensures
        r.0@ == completion_step(*old(paused), *command).0,
        r.1 == (completion_step(*old(paused), *command).1 is None),
        !r.1 ==> completion_step(*old(paused), *command).1 == Some(*final(paused)),
{
    match command {
        TaskCommand::Shutdown => (TaskReply::Silence, true),
        TaskCommand::Pause => {
            *paused = true;
            (TaskReply::Done, false)
        },
        TaskCommand::Resume => {
            *paused = false;
            (TaskReply::Done, false)
        },
        TaskCommand::QuiesceForStorageMove => {
            let was_paused = quiesce_metadata_task(paused);
            (TaskReply::WasPaused(was_paused), false)
        },
        TaskCommand::ResumeAfterStorageMove { resume_paused } => {
            *paused = *resume_paused;
            (TaskReply::Done, false)
        },
        TaskCommand::ReloadFilePolicy
        | TaskCommand::UpdateLimits
        | TaskCommand::UpdateTrackers { .. } => (TaskReply::Done, false),
        TaskCommand::GetPeers
        | TaskCommand::GetPeerSnapshotCount
        | TaskCommand::GetPeerSnapshots
        | TaskCommand::GetWebseeds
        | TaskCommand::GetRuntimeStats => (TaskReply::Nothing, false),
        _ => (TaskReply::Silence, false),
    }
}

/// Network work of the task that a command can interrupt.
#[derive(Clone, Copy, Debug, PartialEq, Eq, Structural)]
pub enum Operation {
    /// Ask the peers of the magnet link.
    FetchDirect,
    /// Ask peers that were reported.
    FetchPeers,
    /// Ask a peer that has connected.
    FetchIncoming,
    /// One round: the peers of the magnet link, then the trackers.
    Round,
    /// Tell the trackers that the task pauses.
    StopForPause,
    /// Tell the trackers that the task ends.
    StopForShutdown,
}

/// What the task is doing.
#[derive(Clone, Copy, Debug, PartialEq, Eq, Structural)]
pub enum Phase {
    Idle,
    Busy(Operation),
    /// The metadata has been handed over; the engine will end the task.
    HandedOver,
    Ended,
}

/// A torrent that waits for its metadata.
pub struct MetadataTask {
    pub paused: bool,
    /// What the next announce tells the trackers.
    pub tracker_event: TrackerEvent,
    /// The peers of the magnet link are to be asked at once.
    pub direct_peer_retry: bool,
    /// A command that has interrupted an operation.
    pub pending: Option<TaskCommand>,
    pub trackers: Vec<String>,
    pub memory: MetadataTaskMemory,
    pub max_peers: usize,
    pub phase: Phase,
}

/// The state of the task as a mathematical value.
pub struct TaskState {
    pub paused: bool,
    pub tracker_event: TrackerEvent,
    pub direct_peer_retry: bool,
    pub pending: Option<TaskCommand>,
    pub trackers: Seq<String>,
    pub direct_peers: Seq<PeerAddr>,
    pub reserved_bytes: u64,
    pub max_peers: nat,
    pub phase: Phase,
}

impl View for MetadataTask {
    type V = TaskState;

    open spec fn view(&self) -> TaskState {
        TaskState {
            paused: self.paused,
            tracker_event: self.tracker_event,
            direct_peer_retry: self.direct_peer_retry,
            pending: self.pending,
            trackers: self.trackers@,
            direct_peers: self.memory.direct_peers@,
            reserved_bytes: self.memory.reserved_bytes,
            max_peers: self.max_peers as nat,
            phase: self.phase,
        }
    }
}

/// What the task does when it is idle.
#[derive(Debug)]
pub enum TaskStep {
    /// Ask the peers of the magnet link.
    AskDirectPeers,
    /// Handle the command that has interrupted an operation.
    Handle(TaskCommand),
    /// Wait for a command and, where `ticks` is set, for the next round.
    Wait { ticks: bool },
}

/// What a round consists of.
#[derive(Clone, Copy, Debug, PartialEq, Eq, Structural)]
pub struct RoundPlan {
    /// Ask the peers of the magnet link first.
    pub ask_direct_peers: bool,
    /// Then announce to the trackers and ask whom they report.
    pub announce: Option<TrackerEvent>,
}

/// Network work that a command starts.
#[derive(Debug)]
pub enum Start {
    Nothing,
    FetchPeers(Vec<PeerAddr>),
    FetchIncoming,
    AnnounceStopped,
}

/// What a command brings about.
#[derive(Debug)]
pub struct Effect {
    pub reply: TaskReply,
    pub start: Start,
    /// The next round is due at once.
    pub round_due: bool,
    /// All peers may be asked again.
    pub forget_attempts: bool,
}

/// The effect of a command as a mathematical value.
pub struct EffectView {
    pub reply: Answer,
    pub start: Start,
    pub round_due: bool,
    pub forget_attempts: bool,
}

impl View for Effect {
    type V = EffectView;

    open spec fn view(&self) -> EffectView {
        EffectView {
            reply: self.reply@,
            start: self.start,
            round_due: self.round_due,
            forget_attempts: self.forget_attempts,
        }
    }
}

/// A command that is only answered.
pub open spec fn only(reply: Answer) -> EffectView {
    EffectView { reply, start: Start::Nothing, round_due: false, forget_attempts: false }
}

impl TaskState {
    /// There are peers of a magnet link to ask.
    pub open spec fn has_direct_peers(self) -> bool {
        self.direct_peers.len() > 0
    }

    /// Rounds take place.
    pub open spec fn ticks(self) -> bool {
        !self.paused && (self.trackers.len() > 0 || self.has_direct_peers())
    }

    /// The task takes up its work again.
    pub open spec fn resumed(self) -> TaskState {
        TaskState {
            paused: false,
            tracker_event: TrackerEvent::Started,
            direct_peer_retry: self.has_direct_peers(),
            ..self
        }
    }

    /// What the task would keep with other trackers.
    pub open spec fn required(self, trackers: Seq<String>) -> nat {
        crate::validation::capped(
            crate::metadata_memory::task_memory(trackers, self.direct_peers.len(), self.max_peers),
        )
    }
}

/// What a command to an idle task brings about.
pub open spec fn command_step(state: TaskState, command: TaskCommand) -> (TaskState, EffectView) {
    match command {
        TaskCommand::NewPeers(peers) | TaskCommand::PriorityPeers(peers) => if state.paused {
            (state, only(Answer::Silence))
        } else {
            (
                TaskState { phase: Phase::Busy(Operation::FetchPeers), ..state },
                EffectView { start: Start::FetchPeers(peers), ..only(Answer::Silence) },
            )
        },
        TaskCommand::AcceptPeer | TaskCommand::AcceptUtpPeer => if state.paused {
            (state, only(Answer::Silence))
        } else {
            (
                TaskState { phase: Phase::Busy(Operation::FetchIncoming), ..state },
                EffectView { start: Start::FetchIncoming, ..only(Answer::Silence) },
            )
        },
        TaskCommand::Shutdown => if state.paused {
            (TaskState { phase: Phase::Ended, ..state }, only(Answer::Silence))
        } else {
            (
                TaskState { phase: Phase::Busy(Operation::StopForShutdown), ..state },
                EffectView { start: Start::AnnounceStopped, ..only(Answer::Silence) },
            )
        },
        TaskCommand::Pause => if state.paused {
            (state, only(Answer::Done))
        } else {
            (
                TaskState {
                    paused: true,
                    phase: Phase::Busy(Operation::StopForPause),
                    ..state
                },
                EffectView { start: Start::AnnounceStopped, ..only(Answer::Done) },
            )
        },
        TaskCommand::Resume => (
            state.resumed(),
            EffectView { round_due: true, ..only(Answer::Done) },
        ),
        TaskCommand::Reannounce => if state.paused {
            (state, only(Answer::Silence))
        } else {
            (
                TaskState {
                    tracker_event: TrackerEvent::Empty,
                    direct_peer_retry: state.has_direct_peers(),
                    ..state
                },
                EffectView { round_due: true, ..only(Answer::Silence) },
            )
        },
        TaskCommand::GetPeers
        | TaskCommand::GetPeerSnapshotCount
        | TaskCommand::GetPeerSnapshots
        | TaskCommand::GetWebseeds
        | TaskCommand::GetRuntimeStats => (state, only(Answer::Nothing)),
        TaskCommand::QuiesceForStorageMove => (
            TaskState { paused: true, ..state },
            only(Answer::WasPaused(state.paused)),
        ),
        TaskCommand::ResumeAfterStorageMove { resume_paused } => if resume_paused {
            (TaskState { paused: true, ..state }, only(Answer::Done))
        } else {
            (state.resumed(), EffectView { round_due: true, ..only(Answer::Done) })
        },
        TaskCommand::Recheck
        | TaskCommand::CancelJob
        | TaskCommand::UpdatePeerExchange
        | TaskCommand::BanPeer
        | TaskCommand::EvictBannedPeers => (state, only(Answer::Silence)),
        TaskCommand::ReloadFilePolicy | TaskCommand::UpdateLimits => (state, only(Answer::Done)),
        TaskCommand::UpdateTrackers { trackers, granted } => {
            let required = state.required(trackers@);
            if required > state.reserved_bytes && !granted {
                (
                    state,
                    only(
                        Answer::Refused(
                            "metadata task tracker update allocation of "@ + decimal(
                                (required - state.reserved_bytes) as nat,
                            ) + " bytes denied for "@ + decimal(trackers@.len()) + " trackers"@,
                        ),
                    ),
                )
            } else {
                (
                    TaskState {
                        trackers: trackers@,
                        tracker_event: TrackerEvent::Empty,
                        reserved_bytes: if required > state.reserved_bytes {
                            required as u64
                        } else {
                            state.reserved_bytes
                        },
                        ..state
                    },
                    EffectView { round_due: true, forget_attempts: true, ..only(Answer::Done) },
                )
            }
        },
    }
}

/// How an operation ended.
#[derive(Debug)]
pub enum OperationOutcome {
    /// By itself; `found` tells whether the metadata was handed over.
    Completed { found: bool },
    /// A command arrived first, and the operation was called off.
    Interrupted(TaskCommand),
    /// The engine is gone.
    Closed,
}

/// The task after an operation, and the answer to a command that arrived too
/// late.
pub open spec fn operation_step(
    state: TaskState,
    operation: Operation,
    outcome: OperationOutcome,
) -> (TaskState, Answer) {
    if operation == Operation::StopForShutdown {
        (
            TaskState { phase: Phase::Ended, ..state },
            match outcome {
                OperationOutcome::Interrupted(command) => shutdown_answer(command),
                _ => Answer::Silence,
            },
        )
    } else {
        match outcome {
            OperationOutcome::Completed { found } => (
                TaskState {
                    tracker_event: if operation == Operation::Round && state.tracker_event
                        == TrackerEvent::Started {
                        TrackerEvent::Empty
                    } else {
                        state.tracker_event
                    },
                    phase: if found && operation != Operation::StopForPause {
                        Phase::HandedOver
                    } else {
                        Phase::Idle
                    },
                    ..state
                },
                Answer::Silence,
            ),
            OperationOutcome::Interrupted(command) => (
                TaskState {
                    pending: Some(command),
                    direct_peer_retry: state.direct_peer_retry || operation
                        == Operation::FetchDirect,
                    phase: Phase::Idle,
                    ..state
                },
                Answer::Silence,
            ),
            OperationOutcome::Closed => (
                TaskState { phase: Phase::Ended, ..state },
                Answer::Silence,
            ),
        }
    }
}

impl MetadataTask {
    /// A task that has not done anything yet. The peers of a magnet link are
    /// asked at once, unless the task is paused.
    pub fn new(trackers: Vec<String>, memory: MetadataTaskMemory, max_peers: usize, paused: bool) -> (r:
        Self)
        ensures
            r@ == (TaskState {
                paused,
                tracker_event: TrackerEvent::Started,
                direct_peer_retry: !paused && memory.direct_peers@.len() > 0,
                pending: None,
                trackers: trackers@,
                direct_peers: memory.direct_peers@,
                reserved_bytes: memory.reserved_bytes,
                max_peers: max_peers as nat,
                phase: Phase::Idle,
            }),
    {
        let direct_peer_retry = !paused && memory.direct_peers.len() > 0;
        MetadataTask {
            paused,
            tracker_event: TrackerEvent::Started,
            direct_peer_retry,
            pending: None,
            trackers,
            memory,
            max_peers,
            phase: Phase::Idle,
        }
    }

    /// What an idle task does next.
    pub fn next(&mut self) -> (r: TaskStep)
        requires
            old(self).phase == Phase::Idle,
        ensures
            ({
                let before = old(self)@;
                let after = final(self)@;
                if before.direct_peer_retry && !before.paused && before.pending is None {
                    &&& r is AskDirectPeers
                    &&& after == (TaskState {
                        direct_peer_retry: false,
                        phase: Phase::Busy(Operation::FetchDirect),
                        ..before
                    })
                } else {
                    match before.pending {
                        Some(command) => {
                            &&& r == TaskStep::Handle(command)
                            &&& after == (TaskState { pending: None, ..before })
                        },
                        None => {
                            &&& r == (TaskStep::Wait { ticks: before.ticks() })
                            &&& after == before
                        },
                    }
                }
            }),
    {
        if self.direct_peer_retry && !self.paused && self.pending.is_none() {
            self.direct_peer_retry = false;
            self.phase = Phase::Busy(Operation::FetchDirect);
            return TaskStep::AskDirectPeers;
        }
        match self.pending.take() {
            Some(command) => TaskStep::Handle(command),
            None => TaskStep::Wait {
                ticks: !self.paused && (self.trackers.len() > 0 || self.memory.direct_peers.len()
                    > 0),
            },
        }
    }

    /// Starts a round.
    pub fn on_tick(&mut self) -> (r: RoundPlan)
        requires
            old(self).phase == Phase::Idle,
            old(self)@.ticks(),
        ensures
            final(self)@ == (TaskState { phase: Phase::Busy(Operation::Round), ..old(self)@ }),
            r.ask_direct_peers == old(self)@.has_direct_peers(),
            r.announce == if old(self)@.trackers.len() > 0 {
                Some(old(self)@.tracker_event)
            } else {
                None
            },
    {
        self.phase = Phase::Busy(Operation::Round);
        RoundPlan {
            ask_direct_peers: self.memory.direct_peers.len() > 0,
            announce: if self.trackers.len() > 0 {
                Some(self.tracker_event)
            } else {
                None
            },
        }
    }

    /// The engine is gone while the task was idle: nothing is left to do.
    pub fn on_closed(&mut self)
        requires
            old(self).phase == Phase::Idle,
        ensures
            final(self)@ == (TaskState { phase: Phase::Ended, ..old(self)@ }),
    {
        self.phase = Phase::Ended;
    }

    fn take_up_work(&mut self)
        ensures
            final(self)@ == old(self)@.resumed(),
    {
        self.paused = false;
        self.tracker_event = TrackerEvent::Started;
        self.direct_peer_retry = self.memory.direct_peers.len() > 0;
    }

    /// Handles a command while the task is idle.
    pub fn on_command(&mut self, command: TaskCommand) -> (r: Effect)
        requires
            old(self).phase == Phase::Idle,
        ensures
            (final(self)@, r@) == command_step(old(self)@, command),
    {
        let mut reply = TaskReply::Silence;
        let mut start = Start::Nothing;
        let mut round_due = false;
        let mut forget_attempts = false;
        match command {
            TaskCommand::NewPeers(peers) | TaskCommand::PriorityPeers(peers) => {
                if !self.paused {
                    self.phase = Phase::Busy(Operation::FetchPeers);
                    start = Start::FetchPeers(peers);
                }
            },
            TaskCommand::AcceptPeer | TaskCommand::AcceptUtpPeer => {
                if !self.paused {
                    self.phase = Phase::Busy(Operation::FetchIncoming);
                    start = Start::FetchIncoming;
                }
            },
            TaskCommand::Shutdown => {
                if self.paused {
                    self.phase = Phase::Ended;
                } else {
                    self.phase = Phase::Busy(Operation::StopForShutdown);
                    start = Start::AnnounceStopped;
                }
            },
            TaskCommand::Pause => {
                if !self.paused {
                    self.paused = true;
                    self.phase = Phase::Busy(Operation::StopForPause);
                    start = Start::AnnounceStopped;
                }
                reply = TaskReply::Done;
            },
            TaskCommand::Resume => {
                self.take_up_work();
                round_due = true;
                reply = TaskReply::Done;
            },
            TaskCommand::Reannounce => {
                if !self.paused {
                    self.tracker_event = TrackerEvent::Empty;
                    self.direct_peer_retry = self.memory.direct_peers.len() > 0;
                    round_due = true;
                }
            },
            TaskCommand::GetPeers
            | TaskCommand::GetPeerSnapshotCount
            | TaskCommand::GetPeerSnapshots
            | TaskCommand::GetWebseeds
            | TaskCommand::GetRuntimeStats => {
                reply = TaskReply::Nothing;
            },
            TaskCommand::QuiesceForStorageMove => {
                let was_paused = quiesce_metadata_task(&mut self.paused);
                reply = TaskReply::WasPaused(was_paused);
            },
            TaskCommand::ResumeAfterStorageMove { resume_paused } => {
                if resume_paused {
                    self.paused = true;
                } else {
                    self.take_up_work();
                    round_due = true;
                }
                reply = TaskReply::Done;
            },
            TaskCommand::Recheck
            | TaskCommand::CancelJob
            | TaskCommand::UpdatePeerExchange
            | TaskCommand::BanPeer
            | TaskCommand::EvictBannedPeers => {},
            TaskCommand::ReloadFilePolicy | TaskCommand::UpdateLimits => {
                reply = TaskReply::Done;
            },
            TaskCommand::UpdateTrackers { trackers, granted } => {
                let updated = compact_metadata_task_trackers(trackers);
                match self.memory.refresh_trackers(updated.as_slice(), self.max_peers, granted) {
                    Ok(()) => {
                        self.trackers = updated;
                        self.tracker_event = TrackerEvent::Empty;
                        forget_attempts = true;
                        round_due = true;
                        reply = TaskReply::Done;
                    },
                    Err(error) => {
                        reply = TaskReply::Refused(error);
                    },
                }
            },
        }
        Effect { reply, start, round_due, forget_attempts }
    }

    /// Takes the outcome of the operation that the task was busy with.
    pub fn on_operation(&mut self, outcome: OperationOutcome) -> (r: TaskReply)
        requires
            old(self).phase is Busy,
        ensures
            (final(self)@, r@) == operation_step(old(self)@, old(self).phase->Busy_0, outcome),
    {
        let operation = match self.phase {
            Phase::Busy(operation) => operation,
            _ => Operation::Round,
        };
        if operation == Operation::StopForShutdown {
            self.phase = Phase::Ended;
            return match outcome {
                OperationOutcome::Interrupted(command) => reject_metadata_command_during_shutdown(
                    &command,
                ),
                _ => TaskReply::Silence,
            };
        }
        match outcome {
            OperationOutcome::Completed { found } => {
                if operation == Operation::Round && self.tracker_event == TrackerEvent::Started {
                    self.tracker_event = TrackerEvent::Empty;
                }
                self.phase =
                if found && operation != Operation::StopForPause {
                    Phase::HandedOver
                } else {
                    Phase::Idle
                };
            },
            OperationOutcome::Interrupted(command) => {
                self.pending = Some(command);
                if operation == Operation::FetchDirect {
                    self.direct_peer_retry = true;
                }
                self.phase = Phase::Idle;
            },
            OperationOutcome::Closed => {
                self.phase = Phase::Ended;
            },
        }
        TaskReply::Silence
    }
}

/// A paused task is quiet: it asks no peer and announces nothing, whatever
/// command arrives, and no round takes place.
pub proof fn law_paused_task_is_quiet(state: TaskState, command: TaskCommand)
    requires
        state.paused,
        state.phase == Phase::Idle,
    ensures
        command_step(state, command).1.start == Start::Nothing,
        !(command_step(state, command).0.phase is Busy),
        !state.ticks(),
{
}

/// A command that interrupts an operation is not lost: it is handled before
/// anything else is started.
pub proof fn law_interrupting_command_is_kept(
    state: TaskState,
    operation: Operation,
    command: TaskCommand,
)
    requires
        operation != Operation::StopForShutdown,
    ensures
        operation_step(state, operation, OperationOutcome::Interrupted(command)).0.pending == Some(
            command,
        ),
        operation_step(state, operation, OperationOutcome::Interrupted(command)).0.phase
            == Phase::Idle,
{
}

/// What a storage move interrupts, it restores: quiescing reports whether the
/// task was paused, and resuming with that report brings the flag back.
pub proof fn law_storage_move_restores_pause(state: TaskState)
    requires
        state.phase == Phase::Idle,
    ensures
        ({
            let (quiet, effect) = command_step(state, TaskCommand::QuiesceForStorageMove);
            &&& quiet.paused
            &&& effect.reply == Answer::WasPaused(state.paused)
            &&& command_step(
                quiet,
                TaskCommand::ResumeAfterStorageMove { resume_paused: state.paused },
            ).0.paused == state.paused
        }),
{
}

/// Pausing twice is pausing once.
pub proof fn law_pause_is_idempotent(state: TaskState)
    requires
        state.phase == Phase::Idle,
        state.paused,
    ensures
        command_step(state, TaskCommand::Pause) == (state, only(Answer::Done)),
{
}

/// The reservation of a task never shrinks while it lives.
pub proof fn law_reservation_never_shrinks(state: TaskState, command: TaskCommand)
    ensures
        command_step(state, command).0.reserved_bytes >= state.reserved_bytes,
{
}

/// Peers that are asked at the same time, taken from a queue in order.
pub struct FetchQueue {
    candidates: Vec<PeerAddr>,
    next: usize,
    in_flight: usize,
}

/// The state of a queue of peers to ask.
pub struct QueueState {
    pub candidates: Seq<PeerAddr>,
    pub next: nat,
    pub in_flight: nat,
}

impl View for FetchQueue {
    type V = QueueState;

    closed spec fn view(&self) -> QueueState {
        QueueState {
            candidates: self.candidates@,
            next: self.next as nat,
            in_flight: self.in_flight as nat,
        }
    }
}

impl QueueState {
    /// Never more peers are asked at once than may be.
    pub open spec fn valid(self) -> bool {
        &&& self.in_flight <= self.next <= self.candidates.len()
        &&& self.in_flight <= MAX_METADATA_FETCH_CONCURRENCY
    }
}

impl FetchQueue {
    pub closed spec fn wf(&self) -> bool {
        self@.valid()
    }

    /// A queue of which nobody has been asked yet.
    pub fn new(candidates: Vec<PeerAddr>) -> (r: Self)
        ensures
            r.wf(),
            r@ == (QueueState { candidates: candidates@, next: 0, in_flight: 0 }),
    {
        FetchQueue { candidates, next: 0, in_flight: 0 }
    }

    /// The next peer to ask, where there is room for one more.
    pub fn next(&mut self) -> (r: Option<PeerAddr>)
        requires
            old(self).wf(),
        ensures
            final(self).wf(),
            if old(self)@.next < old(self)@.candidates.len() && old(self)@.in_flight
                < MAX_METADATA_FETCH_CONCURRENCY {
                &&& r == Some(old(self)@.candidates[old(self)@.next as int])
                &&& final(self)@ == (QueueState {
                    next: old(self)@.next + 1,
                    in_flight: old(self)@.in_flight + 1,
                    ..old(self)@
                })
            } else {
                r is None && final(self)@ == old(self)@
            },
    {
        if self.next < self.candidates.len() && self.in_flight < MAX_METADATA_FETCH_CONCURRENCY {
            let peer = self.candidates[self.next];
            self.next = self.next + 1;
            self.in_flight = self.in_flight + 1;
            Some(peer)
        } else {
            None
        }
    }

    /// A peer that was asked is done without success.
    pub fn on_failure(&mut self)
        requires
            old(self).wf(),
            old(self)@.in_flight > 0,
        ensures
            final(self).wf(),
            final(self)@ == (QueueState {
                in_flight: (old(self)@.in_flight - 1) as nat,
                ..old(self)@
            }),
    {
        self.in_flight = self.in_flight - 1;
    }

    /// Whether nobody is being asked and nobody is left to ask.
    pub fn is_exhausted(&self) -> (r: bool)
        requires
            self.wf(),
        ensures
            r == (self@.in_flight == 0 && self@.next == self@.candidates.len()),
    {
        self.in_flight == 0 && self.next == self.candidates.len()
    }
}

/// A task that is not paused asks the peers that it is told of, all of them, and a
/// peer that comes in; a paused one asks nobody. Neither is answered.
pub proof fn law_told_peers_are_asked(state: TaskState, peers: Vec<PeerAddr>)
    ensures
        ({
            let new = command_step(state, TaskCommand::NewPeers(peers));
            let urgent = command_step(state, TaskCommand::PriorityPeers(peers));
            let tcp = command_step(state, TaskCommand::AcceptPeer);
            let utp = command_step(state, TaskCommand::AcceptUtpPeer);
            &&& !state.paused ==> {
                &&& new.1.start == Start::FetchPeers(peers)
                &&& urgent.1.start == Start::FetchPeers(peers)
                &&& tcp.1.start is FetchIncoming && utp.1.start is FetchIncoming
                &&& new.0.phase is Busy && urgent.0.phase is Busy && tcp.0.phase is Busy
                    && utp.0.phase is Busy
                &&& new.0.phase == Phase::Busy(Operation::FetchPeers)
                &&& tcp.0.phase == Phase::Busy(Operation::FetchIncoming)
            }
            &&& state.paused ==> new.0 == state && urgent.0 == state && tcp.0 == state && utp.0
                == state
            &&& new.1.reply is Silence && urgent.1.reply is Silence && tcp.1.reply is Silence
                && utp.1.reply is Silence
        }),
{
}

/// Pausing tells the trackers and stops the rounds, resuming starts over: the
/// trackers are told that the torrent has started, the next round is due at
/// once, and the peers of the magnet link are asked where there are any. A
/// storage move that ends resumes in the same way, or leaves the task paused.
pub proof fn law_pause_and_resume_do_what_they_say(state: TaskState)
    ensures
        ({
            let paused = command_step(state, TaskCommand::Pause);
            let resumed = command_step(state, TaskCommand::Resume);
            let moved = command_step(
                state,
                TaskCommand::ResumeAfterStorageMove { resume_paused: false },
            );
            let kept = command_step(
                state,
                TaskCommand::ResumeAfterStorageMove { resume_paused: true },
            );
            &&& paused.0.paused && paused.1.reply is Done && !paused.1.round_due
            &&& !state.paused ==> paused.1.start is AnnounceStopped
            &&& !resumed.0.paused && resumed.1.reply is Done && resumed.1.round_due
                && resumed.1.start is Nothing
            &&& resumed.0.tracker_event == TrackerEvent::Started
            &&& resumed.0.direct_peer_retry <==> state.direct_peers.len() > 0
            &&& resumed.0.trackers == state.trackers && resumed.0.direct_peers
                == state.direct_peers
            &&& moved == resumed
            &&& kept.0 == (TaskState { paused: true, ..state }) && kept.1.reply is Done
                && !kept.1.round_due && kept.1.start is Nothing
        }),
{
}

/// A task that is told to end says goodbye to the trackers unless it is paused, and
/// then ends, whatever comes of that; a command that arrives meanwhile is
/// answered and not kept.
pub proof fn law_shutdown_ends_the_task(state: TaskState, outcome: OperationOutcome)
    ensures
        ({
            let (after, effect) = command_step(state, TaskCommand::Shutdown);
            &&& state.paused ==> after.phase == Phase::Ended && effect.start is Nothing
            &&& !state.paused ==> effect.start is AnnounceStopped && after.phase == Phase::Busy(
                Operation::StopForShutdown,
            )
            &&& operation_step(after, Operation::StopForShutdown, outcome).0.phase == Phase::Ended
            &&& operation_step(after, Operation::StopForShutdown, outcome).0.pending
                == after.pending
            &&& outcome matches OperationOutcome::Interrupted(command) ==> operation_step(
                after,
                Operation::StopForShutdown,
                outcome,
            ).1 == shutdown_answer(command)
            &&& !(outcome is Interrupted) ==> operation_step(
                after,
                Operation::StopForShutdown,
                outcome,
            ).1 is Silence
        }),
{
}

/// A task that is asked to announce again does so at once, unless it is paused.
pub proof fn law_reannounce_is_due_at_once(state: TaskState)
    ensures
        ({
            let (after, effect) = command_step(state, TaskCommand::Reannounce);
            &&& state.paused ==> after == state && !effect.round_due
            &&& !state.paused ==> effect.round_due && after.tracker_event == TrackerEvent::Empty && (
            after.direct_peer_retry <==> state.direct_peers.len() > 0) && !after.paused
            &&& effect.start is Nothing && effect.reply is Silence
        }),
{
}

/// New trackers take the place of the old ones where there is memory for them:
/// then they are asked at once, and every peer may be asked again. Without the
/// memory everything stays as it is, and that is told.
pub proof fn law_new_trackers_need_memory(state: TaskState, trackers: Vec<String>, granted: bool)
    ensures
        ({
            let (after, effect) = command_step(
                state,
                TaskCommand::UpdateTrackers { trackers, granted },
            );
            let required = state.required(trackers@);
            &&& granted || required <= state.reserved_bytes ==> {
                &&& after.trackers == trackers@
                &&& after.tracker_event == TrackerEvent::Empty
                &&& after.reserved_bytes >= required || after.reserved_bytes == state.reserved_bytes
                &&& effect.round_due && effect.forget_attempts && effect.reply is Done
                &&& after.paused == state.paused && after.direct_peers == state.direct_peers
            }
            &&& !granted && required > state.reserved_bytes ==> {
                &&& after == state
                &&& effect.reply is Refused && !effect.round_due && !effect.forget_attempts
            }
            &&& effect.start is Nothing
        }),
{
}

/// Questions to a task without metadata are answered with nothing, settings that do
/// not concern it are accepted, and other commands are passed over; none of
/// them changes the task.
pub proof fn law_other_commands_change_nothing(state: TaskState)
    ensures
        ({
            let asked = |command: TaskCommand|
                command_step(state, command) == (state, only(Answer::Nothing));
            let accepted = |command: TaskCommand|
                command_step(state, command) == (state, only(Answer::Done));
            let ignored = |command: TaskCommand|
                command_step(state, command) == (state, only(Answer::Silence));
            &&& asked(TaskCommand::GetPeers) && asked(TaskCommand::GetPeerSnapshotCount) && asked(
                TaskCommand::GetPeerSnapshots,
            ) && asked(TaskCommand::GetWebseeds) && asked(TaskCommand::GetRuntimeStats)
            &&& accepted(TaskCommand::ReloadFilePolicy) && accepted(TaskCommand::UpdateLimits)
            &&& ignored(TaskCommand::Recheck) && ignored(TaskCommand::CancelJob) && ignored(
                TaskCommand::UpdatePeerExchange,
            ) && ignored(TaskCommand::BanPeer) && ignored(TaskCommand::EvictBannedPeers)
        }),
{
}

/// An operation that finds the metadata hands it over, unless it was the goodbye
/// of a pause; one that does not leaves the task idle. A round tells that the
/// torrent has started only once. An interrupted question to the peers of the
/// magnet link is asked again, and a task whose session is gone ends.
pub proof fn law_operations_end_as_they_went(
    state: TaskState,
    operation: Operation,
    command: TaskCommand,
    found: bool,
)
    requires
        operation != Operation::StopForShutdown,
    ensures
        ({
            let done = operation_step(state, operation, OperationOutcome::Completed { found }).0;
            let stopped = operation_step(state, operation, OperationOutcome::Interrupted(command)).0;
            let closed = operation_step(state, operation, OperationOutcome::Closed).0;
            &&& found && operation != Operation::StopForPause ==> done.phase == Phase::HandedOver
            &&& !found || operation == Operation::StopForPause ==> done.phase == Phase::Idle
            &&& operation == Operation::Round ==> done.tracker_event != TrackerEvent::Started
            &&& operation != Operation::Round || state.tracker_event != TrackerEvent::Started
                ==> done.tracker_event == state.tracker_event
            &&& done.paused == state.paused && done.pending == state.pending && done.trackers
                == state.trackers
            &&& operation == Operation::FetchDirect ==> stopped.direct_peer_retry
            &&& operation != Operation::FetchDirect ==> stopped.direct_peer_retry
                == state.direct_peer_retry
            &&& stopped.tracker_event == state.tracker_event && stopped.paused == state.paused
            &&& closed.phase == Phase::Ended
        }),
{
}

/// A task that shuts down refuses what would change it, answers questions with
/// nothing and passes over the rest.
pub proof fn law_shutdown_refuses_changes(peers: Vec<PeerAddr>, trackers: Vec<String>, flag: bool)
    ensures
        shutdown_answer(TaskCommand::Pause) is Refused,
        shutdown_answer(TaskCommand::Resume) is Refused,
        shutdown_answer(TaskCommand::ReloadFilePolicy) is Refused,
        shutdown_answer(TaskCommand::UpdateLimits) is Refused,
        shutdown_answer((TaskCommand::UpdateTrackers { trackers, granted: flag })) is Refused,
        shutdown_answer(TaskCommand::QuiesceForStorageMove) is Refused,
        shutdown_answer((TaskCommand::ResumeAfterStorageMove { resume_paused: flag })) is Refused,
        shutdown_answer(TaskCommand::GetPeerSnapshots) is Refused,
        shutdown_answer(TaskCommand::GetPeers) is Nothing,
        shutdown_answer(TaskCommand::GetPeerSnapshotCount) is Nothing,
        shutdown_answer(TaskCommand::GetWebseeds) is Nothing,
        shutdown_answer(TaskCommand::GetRuntimeStats) is Nothing,
        shutdown_answer(TaskCommand::NewPeers(peers)) is Silence,
        shutdown_answer(TaskCommand::PriorityPeers(peers)) is Silence,
        shutdown_answer(TaskCommand::AcceptPeer) is Silence,
        shutdown_answer(TaskCommand::AcceptUtpPeer) is Silence,
        shutdown_answer(TaskCommand::Shutdown) is Silence,
        shutdown_answer(TaskCommand::Reannounce) is Silence,
{
}

/// A task that has handed its metadata over stays until it is told to end, and
/// keeps track of whether it is paused: a pause, a resume and a storage move
/// still count, and nothing else changes it.
pub proof fn law_handed_over_tasks_remember_the_pause(paused: bool, command: TaskCommand)
    ensures
        ({
            let (answer, after) = completion_step(paused, command);
            &&& after is None <==> command is Shutdown
            &&& command is Pause ==> after == Some(true) && answer is Done
            &&& command is Resume ==> after == Some(false) && answer is Done
            &&& command is QuiesceForStorageMove ==> after == Some(true) && answer
                == Answer::WasPaused(paused)
            &&& command matches TaskCommand::ResumeAfterStorageMove { resume_paused } ==> after
                == Some(resume_paused) && answer is Done
            &&& !(command is Shutdown || command is Pause || command is Resume || command
                is QuiesceForStorageMove || command is ResumeAfterStorageMove) ==> after == Some(
                paused,
            ) && !(answer is WasPaused) && !(answer is Refused)
            &&& command is ReloadFilePolicy || command is UpdateLimits || command is UpdateTrackers
                ==> answer is Done
            &&& command is GetPeers || command is GetPeerSnapshotCount || command
                is GetPeerSnapshots || command is GetWebseeds || command is GetRuntimeStats
                ==> answer is Nothing
        }),
{
}

/// Which transports are tried depends on the configured word alone, not on its
/// letter case or the white space around it. A word that is not known leaves
/// the default.
pub proof fn law_transport_words_are_read(value: Seq<char>)
    ensures
        ({
            let word = lowered(trimmed(value));
            let prefers = word == "1"@ || word == "true"@ || word == "yes"@ || word == "prefer"@
                || word == "prefer-utp"@ || word == "utp-prefer"@;
            let insists = word == "only"@ || word == "utp"@ || word == "utp-only"@;
            &&& prefers ==> policy_of(value) == MetadataTransportPolicy::PreferUtp
            &&& !prefers && insists ==> policy_of(value) == MetadataTransportPolicy::UtpOnly
            &&& !prefers && !insists ==> policy_of(value) == MetadataTransportPolicy::TcpOnly
        }),
        forall|other: Seq<char>|
            lowered(#[trigger] trimmed(other)) == lowered(trimmed(value)) ==> policy_of(other)
                == policy_of(value),
{
}

/// What is configured for metadata goes before what is configured for all outgoing
/// connections, and that before the switch. Each policy tries its transports
/// in order, none twice, and then gives up.
pub proof fn law_transports_follow_the_policy(
    value: &str,
    other: Option<&str>,
    enabled: bool,
    own: MetadataTransportPolicy,
    general: MetadataTransportPolicy,
    switched: MetadataTransportPolicy,
    policy: MetadataTransportPolicy,
    first: Option<Transport>,
    second: Option<Transport>,
)
    requires
        call_ensures(metadata_outgoing_transport_policy, (Some(value), other, enabled), own),
        call_ensures(metadata_outgoing_transport_policy, (None, Some(value), enabled), general),
        call_ensures(metadata_outgoing_transport_policy, (None, None, enabled), switched),
        call_ensures(next_transport, (policy, 0usize), first),
        call_ensures(next_transport, (policy, 1usize), second),
    ensures
        own == policy_of(value@),
        general == policy_of(value@),
        enabled ==> switched == MetadataTransportPolicy::PreferUtp,
        !enabled ==> switched == MetadataTransportPolicy::TcpOnly,
        policy == MetadataTransportPolicy::TcpOnly ==> first == Some(Transport::Tcp) && second
            is None,
        policy == MetadataTransportPolicy::UtpOnly ==> first == Some(Transport::Utp) && second
            is None,
        policy == MetadataTransportPolicy::PreferUtp ==> first == Some(Transport::Utp) && second
            == Some(Transport::Tcp),
{
}

/// A task that is quieted for storage work is paused, and tells whether it was before.
pub proof fn law_quieted_tasks_are_paused()
    ensures
        forall|paused: &mut bool, was: bool| #[trigger]
            call_ensures(quiesce_metadata_task, (paused,), was) ==> was == *paused && *final(paused),
{
}

/// A peer is asked exactly where the policy allows it, it is not banned and a slot
/// was left for it.
pub proof fn law_only_allowed_peers_are_asked(
    denied: Option<String>,
    banned: bool,
    slot_taken: bool,
    r: Option<String>,
)
    requires
        call_ensures(refuse_fetch_attempt, (denied, banned, slot_taken), r),
    ensures
        r is None <==> denied is None && !banned && slot_taken,
{
}

} // verus!
