use rt_engine::metadata_announce::TrackerEvent;
use rt_engine::metadata_memory::{
    compact_metadata_task_peers, prepare_metadata_task_memory,
    prepare_metadata_task_memory_with_peers, MAX_METADATA_DIRECT_PEERS,
};
use rt_engine::metadata_task::{
    metadata_outgoing_transport_policy, next_transport, refuse_fetch_attempt,
    reject_metadata_command_during_shutdown, wait_for_metadata_completion, FetchQueue,
    MetadataTask, MetadataTransportPolicy, Operation, OperationOutcome, Phase, Start, TaskCommand,
    TaskReply, TaskStep, Transport,
};
use rt_engine::net::{PeerAddr, PeerIp};

fn peer(n: u128) -> PeerAddr {
    PeerAddr { ip: PeerIp { bits: n, v6: false }, port: 6881 }
}

fn task(direct_peers: Vec<PeerAddr>, paused: bool) -> MetadataTask {
    let plan = prepare_metadata_task_memory_with_peers(
        vec!["http://t/a".to_owned()],
        direct_peers,
        100,
    )
    .unwrap();
    let (trackers, memory) = plan.start(true).unwrap();
    MetadataTask::new(trackers, memory, 100, paused)
}

#[test]
fn paused_metadata_reannounce_does_not_resume_tracker_work() {
    let mut task = task(Vec::new(), true);
    let effect = task.on_command(TaskCommand::Reannounce);
    assert!(matches!(effect.start, Start::Nothing));
    assert!(!effect.round_due);
    assert!(task.paused);
    assert_eq!(task.tracker_event, TrackerEvent::Started);
}

#[test]
fn direct_peers_are_asked_first() {
    let mut task = task(vec![peer(1)], false);
    assert!(matches!(task.next(), TaskStep::AskDirectPeers));
    let reply = task.on_operation(OperationOutcome::Interrupted(TaskCommand::Pause));
    assert!(matches!(reply, TaskReply::Silence));
    assert!(task.direct_peer_retry);
    assert!(matches!(task.next(), TaskStep::Handle(TaskCommand::Pause)));
    let effect = task.on_command(TaskCommand::Pause);
    assert!(matches!(effect.reply, TaskReply::Done));
    assert!(matches!(effect.start, Start::AnnounceStopped));
    assert_eq!(task.phase, Phase::Busy(Operation::StopForPause));
    task.on_operation(OperationOutcome::Completed { found: false });
    assert!(matches!(task.next(), TaskStep::Wait { ticks: false }));
}

#[test]
fn a_shutdown_answers_late_commands() {
    let mut task = task(Vec::new(), false);
    let effect = task.on_command(TaskCommand::Shutdown);
    assert!(matches!(effect.start, Start::AnnounceStopped));
    let reply =
        task.on_operation(OperationOutcome::Interrupted(TaskCommand::QuiesceForStorageMove));
    assert!(matches!(reply, TaskReply::Refused(e) if e == "metadata task is shutting down"));
    assert_eq!(task.phase, Phase::Ended);
    assert!(matches!(
        reject_metadata_command_during_shutdown(&TaskCommand::GetPeers),
        TaskReply::Nothing
    ));
    assert!(matches!(
        reject_metadata_command_during_shutdown(&TaskCommand::Shutdown),
        TaskReply::Silence
    ));
}

#[test]
fn a_round_announces_and_hands_over() {
    let mut task = task(vec![peer(1)], true);
    let effect = task.on_command(TaskCommand::Resume);
    assert!(effect.round_due);
    assert!(matches!(task.next(), TaskStep::AskDirectPeers));
    task.on_operation(OperationOutcome::Completed { found: false });
    assert!(matches!(task.next(), TaskStep::Wait { ticks: true }));
    let plan = task.on_tick();
    assert!(plan.ask_direct_peers);
    assert_eq!(plan.announce, Some(TrackerEvent::Started));
    task.on_operation(OperationOutcome::Completed { found: true });
    assert_eq!(task.tracker_event, TrackerEvent::Empty);
    assert_eq!(task.phase, Phase::HandedOver);
    let mut paused = false;
    let (reply, over) = wait_for_metadata_completion(&mut paused, &TaskCommand::Pause);
    assert!(matches!(reply, TaskReply::Done));
    assert!(paused && !over);
    let (_, over) = wait_for_metadata_completion(&mut paused, &TaskCommand::Shutdown);
    assert!(over);
}

#[test]
fn trackers_are_replaced_where_memory_allows() {
    let mut task = task(Vec::new(), false);
    let before = task.memory.reserved_bytes;
    let more = vec!["x".repeat(100_000)];
    let effect =
        task.on_command(TaskCommand::UpdateTrackers { trackers: more.clone(), granted: false });
    assert!(matches!(effect.reply, TaskReply::Refused(_)));
    assert_eq!(task.memory.reserved_bytes, before);
    let effect = task.on_command(TaskCommand::UpdateTrackers { trackers: more, granted: true });
    assert!(matches!(effect.reply, TaskReply::Done));
    assert!(effect.forget_attempts && effect.round_due);
    assert!(task.memory.reserved_bytes > before);
    assert_eq!(task.tracker_event, TrackerEvent::Empty);
}

#[test]
fn a_storage_move_gives_the_pause_back() {
    let mut task = task(Vec::new(), false);
    let effect = task.on_command(TaskCommand::QuiesceForStorageMove);
    assert!(matches!(effect.reply, TaskReply::WasPaused(false)));
    assert!(task.paused);
    task.on_command(TaskCommand::ResumeAfterStorageMove { resume_paused: false });
    assert!(!task.paused);
}

#[test]
fn metadata_fetch_attempt_rejects_loopback_before_connecting() {
    let refused = refuse_fetch_attempt(Some("loopback".to_owned()), false, true).unwrap();
    assert!(refused.contains("metadata peer denied by egress policy"));
}

#[test]
fn metadata_fetch_attempt_rejects_banned_peer_before_connecting() {
    let refused = refuse_fetch_attempt(None, true, true).unwrap();
    assert!(refused.contains("metadata peer is banned"));
    assert_eq!(
        refuse_fetch_attempt(None, false, false).unwrap(),
        "global peer connection budget exhausted"
    );
    assert!(refuse_fetch_attempt(None, false, true).is_none());
}

#[test]
fn transports_are_tried_by_policy() {
    let policy = metadata_outgoing_transport_policy(None, Some(" PREFER "), false);
    assert_eq!(policy, MetadataTransportPolicy::PreferUtp);
    assert_eq!(
        metadata_outgoing_transport_policy(Some("utp"), Some("off"), false),
        MetadataTransportPolicy::UtpOnly
    );
    assert_eq!(
        metadata_outgoing_transport_policy(None, None, false),
        MetadataTransportPolicy::TcpOnly
    );
    assert_eq!(next_transport(policy, 0), Some(Transport::Utp));
    assert_eq!(next_transport(policy, 1), Some(Transport::Tcp));
    assert_eq!(next_transport(policy, 2), None);
}

#[test]
fn peers_are_asked_a_few_at_a_time() {
    let mut queue = FetchQueue::new((0..10).map(peer).collect());
    for n in 0..8 {
        assert_eq!(queue.next(), Some(peer(n)));
    }
    assert_eq!(queue.next(), None);
    queue.on_failure();
    assert_eq!(queue.next(), Some(peer(8)));
    assert!(!queue.is_exhausted());
}

#[test]
fn too_many_direct_peers_are_refused() {
    let peers: Vec<PeerAddr> = (0..MAX_METADATA_DIRECT_PEERS as u128 + 1).map(peer).collect();
    assert_eq!(
        prepare_metadata_task_memory_with_peers(Vec::new(), peers, 1).unwrap_err(),
        "metadata task has 257 direct peers, maximum is 256"
    );
    assert_eq!(compact_metadata_task_peers(vec![peer(2), peer(1), peer(2)]), vec![peer(1), peer(2)]);
    let plan = prepare_metadata_task_memory(Vec::new(), 1).unwrap();
    assert_eq!(plan.bytes, 8_192 + 256 * 256);
    assert_eq!(
        plan.start(false).unwrap_err(),
        "metadata task allocation of 73728 bytes denied for 0 trackers"
    );
}
