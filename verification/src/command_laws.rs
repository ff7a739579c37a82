//! Which commands, torrents and magnet links the engine takes: exactly those of
//! which every part is in bounds, and it takes them as they were given.

use vstd::prelude::*;

use crate::fields_update::fields_problem;
use crate::handle::{
    aborts_session, await_engine_reply, blob_limit_problem, category_path_problem, events_problem,
    execute_problem, hash_check, labels_problem, memory_problem, send_command, slot_problem,
    time_left, wait_for_peer_listener_shutdown, Awaited, EngineCmd, EngineDatabaseWorkerStats,
    EngineHandle, JobRequest, ListenerEnd, QueueMove, ReplyOutcome, SendOutcome, SessionRequest,
    TorrentRequest,
};
use crate::limits::EngineLimits;
use crate::metainfo::{MagnetLink, MetaFields, MetaKind, TorrentMeta};
use crate::net::PeerAddr;
use crate::peer_ingress::PeerIngressStats;
use crate::problem::{first_problem, lemma_no_problem_is_every_item_accepted, CmdResult};
use crate::storage_plan::{PlanPath, StoragePlan};
use crate::text::{byte_len, lowered, trimmed};
use crate::torrent_add::{add_magnet_problem, add_raw_problem, add_torrent_problem, AddOptions};
use crate::validation::{
    canonical_bytes, capped, category_problem, distinct_trackers, exponent_field, fields_tracker_problem,
    files_length, files_problem, has_payload, hash_list_check, hash_list_problem,
    info_hash_problem, item_count_problem, label_problem, magnet_problem, meta_tracker_check,
    meta_trackers, optional_text_problem, over_limit, owned_text, path_check, peer_command_problem, pieces_covering, plan_paths, port_check,
    save_path_problem, storage_plan_problem, tag_list_problem, text_problem,
    torrent_limits_problem, torrent_meta_problem, total_bytes, tracker_fields,
    tracker_list_problem, webseed_problem, EngineTorrentLimits,
};
use crate::validation_laws::law_text_lists_are_bounded;

verus! {

/// A text that is given is no longer than `maximum` bytes.
pub open spec fn fits(value: Option<String>, maximum: usize) -> bool {
    value matches Some(text) ==> byte_len(text@) <= maximum
}

/// Labels are bounded in number and in bytes.
pub open spec fn labels_fit(limits: EngineLimits, values: Seq<String>) -> bool {
    values.len() <= limits.mutation_items && capped(total_bytes(values)) <= limits.label_bytes
}

/// The size of a text is that of its UTF-8 encoding.
pub proof fn law_sizes_are_those_of_the_encoding(s: Seq<char>, n: nat)
    ensures
        vstd::utf8::encode_utf8(s).len() <= usize::MAX ==> byte_len(s) == vstd::utf8::encode_utf8(
            s,
        ).len(),
        n <= usize::MAX ==> capped(n) == n,
        n > usize::MAX ==> capped(n) == usize::MAX,
{
}

/// One text is taken exactly where it is no longer than its bound, a text that is
/// not given is taken, and a number of things is taken exactly where it is no
/// larger than its bound. What is refused is told with both numbers.
pub proof fn law_single_bounds_are_exact(
    limits: EngineLimits,
    value: Option<String>,
    text: Seq<char>,
    count: nat,
    maximum: nat,
    kind: Seq<char>,
)
    ensures
        text_problem(text, maximum, kind) is None <==> byte_len(text) <= maximum,
        item_count_problem(count, maximum, kind) is None <==> count <= maximum,
        peer_command_problem(count, maximum, kind) is None <==> count <= maximum,
        optional_text_problem(owned_text(value), maximum, kind) is None <==> (value matches Some(
            t,
        ) ==> byte_len(t@) <= maximum),
        info_hash_problem(limits, text) is None <==> byte_len(text) <= limits.info_hash_bytes,
        category_problem(limits, owned_text(value)) is None <==> fits(value, limits.category_bytes),
        save_path_problem(limits, owned_text(value)) is None <==> fits(
            value,
            limits.save_path_bytes,
        ),
        category_path_problem(limits, owned_text(value)) is None <==> fits(
            value,
            limits.save_path_bytes,
        ),
{
}

/// Labels, trackers and webseeds are taken exactly where each of them and all of
/// them together are in bounds.
pub proof fn law_list_bounds_are_exact(
    limits: EngineLimits,
    values: Seq<String>,
    kind: Seq<char>,
)
    ensures
        label_problem(limits, values, kind) is None <==> capped(total_bytes(values))
            <= limits.label_bytes,
        tag_list_problem(limits, values, kind) is None <==> labels_fit(limits, values),
        tracker_list_problem(limits, values) is None <==> {
            &&& values.len() <= limits.mutation_items
            &&& forall|i: int|
                0 <= i < values.len() ==> byte_len((#[trigger] values[i])@)
                    <= limits.tracker_url_bytes
            &&& values.len() > 0 ==> capped(total_bytes(values)) <= limits.tracker_bytes
        },
        webseed_problem(limits, values) is None <==> {
            &&& values.len() <= limits.meta_webseeds
            &&& forall|i: int|
                0 <= i < values.len() ==> byte_len((#[trigger] values[i])@)
                    <= limits.tracker_url_bytes
            &&& values.len() > 0 ==> capped(total_bytes(values)) <= limits.meta_webseed_bytes
        },
{
    law_text_lists_are_bounded(
        values,
        limits.tracker_url_bytes as nat,
        limits.tracker_bytes as nat,
        "tracker URL at index "@,
        "tracker list"@,
    );
    law_text_lists_are_bounded(
        values,
        limits.tracker_url_bytes as nat,
        limits.meta_webseed_bytes as nat,
        "metainfo webseed list"@ + " item at index "@,
        "metainfo webseed list"@,
    );
}

/// A list of torrents is taken exactly where it is not too long, each hash is in
/// bounds, and so are their canonical forms together.
pub proof fn law_hash_lists_are_bounded(limits: EngineLimits, info_hashes: Seq<String>)
    ensures
        hash_list_problem(limits, info_hashes) is None <==> {
            &&& info_hashes.len() <= limits.mutation_items
            &&& forall|i: int|
                0 <= i < info_hashes.len() ==> byte_len((#[trigger] info_hashes[i])@)
                    <= limits.info_hash_bytes && capped(
                    canonical_bytes(info_hashes.take(i)) + byte_len(lowered(info_hashes[i]@)),
                ) <= limits.info_hash_list_bytes
        },
        first_problem(info_hashes, hash_check(limits)) is None <==> forall|i: int|
            0 <= i < info_hashes.len() ==> byte_len((#[trigger] info_hashes[i])@)
                <= limits.info_hash_bytes,
{
    lemma_no_problem_is_every_item_accepted(info_hashes, hash_list_check(limits));
    lemma_no_problem_is_every_item_accepted(info_hashes, hash_check(limits));
    let check = hash_list_check(limits);
    let plain = hash_check(limits);
    if first_problem(info_hashes, check) is None {
        assert forall|i: int| 0 <= i < info_hashes.len() implies byte_len(
            (#[trigger] info_hashes[i])@,
        ) <= limits.info_hash_bytes && capped(
            canonical_bytes(info_hashes.take(i)) + byte_len(lowered(info_hashes[i]@)),
        ) <= limits.info_hash_list_bytes by {
            assert(check(info_hashes.take(i), info_hashes[i]) is None);
        }
    }
    if forall|i: int|
        0 <= i < info_hashes.len() ==> byte_len((#[trigger] info_hashes[i])@)
            <= limits.info_hash_bytes && capped(
            canonical_bytes(info_hashes.take(i)) + byte_len(lowered(info_hashes[i]@)),
        ) <= limits.info_hash_list_bytes {
        assert forall|i: int| 0 <= i < info_hashes.len() implies #[trigger] check(
            info_hashes.take(i),
            info_hashes[i],
        ) is None by {}
    }
    if first_problem(info_hashes, plain) is None {
        assert forall|i: int| 0 <= i < info_hashes.len() implies byte_len(
            (#[trigger] info_hashes[i])@,
        ) <= limits.info_hash_bytes by {
            assert(plain(info_hashes.take(i), info_hashes[i]) is None);
        }
    }
    if forall|i: int|
        0 <= i < info_hashes.len() ==> byte_len((#[trigger] info_hashes[i])@)
            <= limits.info_hash_bytes {
        assert forall|i: int| 0 <= i < info_hashes.len() implies #[trigger] plain(
            info_hashes.take(i),
            info_hashes[i],
        ) is None by {}
    }
}

/// A change of labels, of a name or place, of a torrent's limits, and a question
/// for events are taken exactly where all that they name is in bounds.
pub proof fn law_changes_are_bounded(
    limits: EngineLimits,
    hash: Seq<char>,
    category: Option<Option<String>>,
    add_tags: Seq<String>,
    remove_tags: Seq<String>,
    name: Option<String>,
    save_path: Option<String>,
    ratio: EngineTorrentLimits,
    max_bytes: usize,
    info_hash: Option<Seq<char>>,
    levels: Seq<String>,
)
    ensures
        labels_problem(limits, hash, category, add_tags, remove_tags) is None <==> {
            &&& category matches Some(Some(text)) ==> byte_len(text@) <= limits.category_bytes
            &&& labels_fit(limits, add_tags)
            &&& labels_fit(limits, remove_tags)
            &&& byte_len(hash) <= limits.info_hash_bytes
        },
        fields_problem(limits, owned_text(name), owned_text(save_path)) is None <==> fits(
            name,
            limits.name_bytes,
        ) && fits(save_path, limits.save_path_bytes),
        torrent_limits_problem(ratio) is None <==> (ratio.seed_ratio_bits matches Some(bits)
            ==> exponent_field(bits) != 0x7ff),
        blob_limit_problem(max_bytes) is None <==> max_bytes <= 67_108_864,
        events_problem(limits, info_hash, owned_text(name), levels) is None <==> {
            &&& levels.len() <= limits.event_filter_items
            &&& forall|i: int|
                0 <= i < levels.len() ==> byte_len((#[trigger] levels[i])@)
                    <= limits.event_filter_value_bytes
            &&& levels.len() > 0 ==> capped(total_bytes(levels)) <= limits.event_filter_bytes
            &&& fits(name, limits.event_filter_value_bytes)
            &&& info_hash matches Some(h) ==> byte_len(h) <= limits.info_hash_bytes
        },
{
    law_text_lists_are_bounded(
        levels,
        limits.event_filter_value_bytes as nat,
        limits.event_filter_bytes as nat,
        "event level list"@ + " item at index "@,
        "event level list"@,
    );
}

/// A storage plan is taken exactly where it does not say that it can be applied in
/// spite of issues, its lists are not too long, each of its paths is valid UTF-8
/// and in bounds, and so is its serialized form. To be carried out, besides its
/// operation, its torrents and its steps are in bounds.
pub proof fn law_storage_plans_are_bounded(
    limits: EngineLimits,
    plan: StoragePlan,
    serialized: Result<usize, String>,
    operation: Seq<char>,
    affected: Seq<String>,
    completed: nat,
)
    ensures
        storage_plan_problem(limits, plan, serialized) is None ==> {
            &&& plan.can_apply ==> plan.issues@.len() == 0
            &&& plan.issues@.len() <= limits.storage_plan_items
            &&& plan.steps@.len() <= limits.storage_plan_items
            &&& plan.rollback_steps@.len() <= limits.storage_plan_items
            &&& forall|i: int|
                0 <= i < plan_paths(plan).len() ==> ((#[trigger] plan_paths(plan)[i]).path matches
                    PlanPath::Utf8(text) && byte_len(text@) <= limits.storage_plan_path_bytes)
            &&& serialized matches Ok(bytes) && bytes <= limits.storage_plan_serialized_bytes
        },
        plan.can_apply && plan.issues@.len() > 0 ==> storage_plan_problem(limits, plan, serialized)
            is Some,
        execute_problem(limits, operation, affected, plan, serialized, completed) is None <==> {
            &&& storage_plan_problem(limits, plan, serialized) is None
            &&& byte_len(operation) <= limits.storage_operation_bytes
            &&& affected.len() <= limits.storage_plan_affected_torrents
            &&& completed <= limits.mutation_items
            &&& forall|i: int|
                0 <= i < affected.len() ==> byte_len((#[trigger] affected[i])@)
                    <= limits.info_hash_bytes
        },
{
    law_hash_lists_are_bounded(limits, affected);
    if storage_plan_problem(limits, plan, serialized) is None {
        let paths = plan_paths(plan);
        let check = path_check(limits);
        lemma_no_problem_is_every_item_accepted(paths, check);
        assert forall|i: int| 0 <= i < paths.len() implies ((#[trigger] paths[i]).path matches
            PlanPath::Utf8(text) && byte_len(text@) <= limits.storage_plan_path_bytes) by {
            assert(check(paths.take(i), paths[i]) is None);
        }
    }
}

/// A magnet link is taken exactly where its name, its trackers and its peers are in
/// bounds and every peer has a port.
pub proof fn law_magnets_are_bounded(limits: EngineLimits, magnet: MagnetLink)
    ensures
        magnet_problem(limits, magnet) is None <==> {
            &&& fits(magnet.display_name, limits.name_bytes)
            &&& tracker_list_problem(limits, magnet.trackers@) is None
            &&& magnet.peer_addresses@.len() <= limits.magnet_peers
            &&& forall|i: int|
                0 <= i < magnet.peer_addresses@.len() ==> (
                #[trigger] magnet.peer_addresses@[i]).port != 0
        },
{
    let peers = magnet.peer_addresses@;
    let check = port_check();
    lemma_no_problem_is_every_item_accepted(peers, check);
    if first_problem(peers, check) is None {
        assert forall|i: int| 0 <= i < peers.len() implies (#[trigger] peers[i]).port != 0 by {
            assert(check(peers.take(i), peers[i]) is None);
        }
    }
    if forall|i: int| 0 <= i < peers.len() ==> (#[trigger] peers[i]).port != 0 {
        assert forall|i: int| 0 <= i < peers.len() implies #[trigger] check(
            peers.take(i),
            peers[i],
        ) is None by {}
    }
}

/// The texts, trackers and webseeds of metainfo are in bounds.
pub open spec fn texts_fit(limits: EngineLimits, fields: MetaFields) -> bool {
    &&& byte_len(fields.name@) <= limits.name_bytes
    &&& fits(fields.comment, limits.metadata_text_bytes)
    &&& fits(fields.created_by, limits.metadata_text_bytes)
    &&& fields_tracker_problem(limits, fields) is None
    &&& webseed_problem(limits, fields.webseeds@) is None
}

/// A torrent is taken exactly where its file is not too large, its texts and files
/// are in bounds, it holds something, its pieces have a length that fits in
/// thirty-two bits, and their number is that which covers the payload. Both
/// halves of a hybrid must pass, and agree on their files.
pub proof fn law_torrents_are_bounded(limits: EngineLimits, meta: TorrentMeta)
    ensures
        torrent_meta_problem(limits, meta) is None <==> meta.raw@.len() <= 67_108_864
            && match meta.kind {
            MetaKind::V1(v1) => {
                let length = v1.fields.piece_length;
                &&& texts_fit(limits, v1.fields)
                &&& files_problem(limits, v1.fields) is None
                &&& files_length(v1.fields) > 0 && has_payload(v1.fields.files@)
                &&& 0 < length <= u32::MAX
                &&& files_length(v1.fields) + length - 1 <= u64::MAX
                &&& v1.pieces@.len() == pieces_covering(files_length(v1.fields), length as nat)
                &&& v1.pieces@.len() <= limits.meta_pieces
                &&& v1.pieces@.len() <= usize::MAX
            },
            MetaKind::V2(v2) => {
                &&& texts_fit(limits, v2.fields)
                &&& files_problem(limits, v2.fields) is None
                &&& files_length(v2.fields) > 0 && has_payload(v2.fields.files@)
                &&& 0 < v2.fields.piece_length <= u32::MAX
                &&& v2.piece_count <= limits.meta_pieces
            },
            MetaKind::Hybrid { v1, v2, layout_error } => {
                let length = v1.fields.piece_length;
                &&& texts_fit(limits, v1.fields) && texts_fit(limits, v2.fields)
                &&& files_problem(limits, v1.fields) is None
                &&& files_problem(limits, v2.fields) is None
                &&& layout_error is None
                &&& files_length(v1.fields) > 0
                &&& 0 < length <= u32::MAX
                &&& files_length(v1.fields) + length - 1 <= u64::MAX
                &&& v1.pieces@.len() == pieces_covering(files_length(v1.fields), length as nat)
                &&& v1.pieces@.len() <= limits.meta_pieces
                &&& v1.pieces@.len() <= usize::MAX
                &&& 0 < v2.fields.piece_length <= u32::MAX
                &&& v2.piece_count <= limits.meta_pieces
            },
        },
{
}

/// What is added is taken exactly where it is in bounds itself and its category,
/// place and tags are.
pub proof fn law_additions_are_bounded(
    limits: EngineLimits,
    meta: TorrentMeta,
    magnet: MagnetLink,
    raw_len: nat,
    options: AddOptions,
    granted: bool,
    text: Seq<char>,
    memory: CmdResult<()>,
)
    ensures
        ({
            let fit = fits(options.category, limits.category_bytes) && fits(
                options.save_path,
                limits.save_path_bytes,
            ) && labels_fit(limits, options.tags@);
            &&& add_torrent_problem(limits, meta, options) is None <==> torrent_meta_problem(
                limits,
                meta,
            ) is None && fields_tracker_problem(limits, tracker_fields(meta.kind)) is None && fit
            &&& add_raw_problem(limits, raw_len, options) is None <==> raw_len <= 67_108_864 && fit
            &&& add_magnet_problem(limits, magnet, options) is None <==> magnet_problem(
                limits,
                magnet,
            ) is None && fit
        }),
        slot_problem(granted, text) is None <==> granted,
        !granted ==> slot_problem(granted, text) == Some(text),
        memory_problem(memory) is None <==> memory is Ok,
        memory matches Err(error) ==> memory_problem(memory) == Some(error@),
{
    law_list_bounds_are_exact(limits, options.tags@, "torrent tag list"@);
    law_list_bounds_are_exact(limits, magnet.trackers@, "tracker list"@);
}

/// A command to a torrent asks for what it is named after, of the torrent that it
/// names, in any letter case, and only where the name is not too long.
pub proof fn law_torrent_commands_are_what_they_are_called(
    handle: &EngineHandle,
    info_hash: String,
    delete_files: bool,
    paused: CmdResult<EngineCmd>,
    resumed: CmdResult<EngineCmd>,
    rechecked: CmdResult<EngineCmd>,
    reannounced: CmdResult<EngineCmd>,
    removed: CmdResult<EngineCmd>,
)
    requires
        call_ensures(EngineHandle::pause_torrent, (handle, info_hash), paused),
        call_ensures(EngineHandle::resume_torrent, (handle, info_hash), resumed),
        call_ensures(EngineHandle::recheck_torrent, (handle, info_hash), rechecked),
        call_ensures(EngineHandle::reannounce_torrent, (handle, info_hash), reannounced),
        call_ensures(EngineHandle::remove_torrent, (handle, info_hash, delete_files), removed),
    ensures
        ({
            let asks = |r: CmdResult<EngineCmd>, request: TorrentRequest|
                if byte_len(info_hash@) <= handle.limits.info_hash_bytes {
                    r matches Ok(EngineCmd::Torrent { info_hash: h, request: q }) && q == request
                        && h@ == lowered(info_hash@)
                } else {
                    r is Err
                };
            &&& asks(paused, TorrentRequest::Pause)
            &&& asks(resumed, TorrentRequest::Resume)
            &&& asks(rechecked, TorrentRequest::Recheck)
            &&& asks(reannounced, TorrentRequest::Reannounce)
            &&& byte_len(info_hash@) <= handle.limits.info_hash_bytes ==> (removed matches Ok(
                EngineCmd::RemoveTorrent { info_hash: h, delete_files: d },
            ) && h@ == lowered(info_hash@) && d == delete_files)
            &&& byte_len(info_hash@) > handle.limits.info_hash_bytes ==> removed is Err
        }),
{
}

/// A command to a job asks for what it is named after, of the job that it names.
pub proof fn law_job_commands_are_what_they_are_called(
    handle: &EngineHandle,
    job_id: String,
    paused: CmdResult<EngineCmd>,
    resumed: CmdResult<EngineCmd>,
    cancelled: CmdResult<EngineCmd>,
)
    requires
        call_ensures(EngineHandle::pause_job, (handle, job_id), paused),
        call_ensures(EngineHandle::resume_job, (handle, job_id), resumed),
        call_ensures(EngineHandle::cancel_job, (handle, job_id), cancelled),
    ensures
        ({
            let asks = |r: CmdResult<EngineCmd>, request: JobRequest|
                if byte_len(job_id@) <= handle.limits.job_id_bytes {
                    r == Ok::<EngineCmd, String>(EngineCmd::Job { job_id, job_request: request })
                } else {
                    r is Err
                };
            &&& asks(paused, JobRequest::Pause)
            &&& asks(resumed, JobRequest::Resume)
            &&& asks(cancelled, JobRequest::Cancel)
        }),
{
}

/// What is added is handed over as it was given, where it is in bounds, a slot is
/// left and there is memory for it.
pub proof fn law_additions_are_handed_over_unchanged(
    handle: &EngineHandle,
    meta: TorrentMeta,
    raw: Vec<u8>,
    magnet: MagnetLink,
    options: AddOptions,
    slot: bool,
    memory: CmdResult<()>,
    torrent: CmdResult<EngineCmd>,
    unread: CmdResult<EngineCmd>,
    link: CmdResult<EngineCmd>,
)
    requires
        call_ensures(EngineHandle::add_torrent_with_labels, (handle, meta, options, slot), torrent),
        call_ensures(
            EngineHandle::add_torrent_raw_with_labels,
            (handle, raw, options, slot, memory),
            unread,
        ),
        call_ensures(
            EngineHandle::add_magnet_with_labels,
            (handle, magnet, options, slot, memory),
            link,
        ),
    ensures
        slot && add_torrent_problem(handle.limits, meta, options) is None ==> torrent == Ok::<
            EngineCmd,
            String,
        >(EngineCmd::AddTorrent { meta, options }),
        slot && memory is Ok && add_raw_problem(handle.limits, raw@.len(), options) is None
            ==> unread == Ok::<EngineCmd, String>(EngineCmd::AddTorrentRaw { raw, options }),
        slot && memory is Ok && add_magnet_problem(handle.limits, magnet, options) is None ==> link
            == Ok::<EngineCmd, String>(EngineCmd::AddMagnet { magnet, options }),
        !slot ==> torrent is Err && unread is Err && link is Err,
        memory is Err ==> unread is Err && link is Err,
{
}

/// Other changes are handed over as they were given too: settings, categories, the
/// port, the place and trackers of a torrent.
pub proof fn law_settings_are_handed_over_unchanged(
    handle: &EngineHandle,
    key: String,
    value: String,
    save_path: Option<String>,
    port: u16,
    set: CmdResult<EngineCmd>,
    created: CmdResult<EngineCmd>,
    renamed: CmdResult<EngineCmd>,
    listened: CmdResult<EngineCmd>,
)
    requires
        call_ensures(EngineHandle::set_setting, (handle, key, value), set),
        call_ensures(EngineHandle::create_category, (handle, key, save_path), created),
        call_ensures(EngineHandle::rename_category, (handle, key, value, save_path), renamed),
        call_ensures(EngineHandle::update_listen_port, (handle, port), listened),
    ensures
        byte_len(key@) <= handle.limits.setting_key_bytes && byte_len(value@)
            <= handle.limits.setting_value_bytes ==> set == Ok::<EngineCmd, String>(
            (EngineCmd::SetSetting { key, value }),
        ),
        byte_len(key@) > handle.limits.setting_key_bytes || byte_len(value@)
            > handle.limits.setting_value_bytes ==> set is Err,
        byte_len(key@) <= handle.limits.category_bytes && fits(
            save_path,
            handle.limits.save_path_bytes,
        ) ==> created == Ok::<EngineCmd, String>(
            (EngineCmd::CreateCategory { name: key, save_path }),
        ),
        byte_len(key@) <= handle.limits.category_bytes && byte_len(value@)
            <= handle.limits.category_bytes && fits(save_path, handle.limits.save_path_bytes)
            ==> renamed == Ok::<EngineCmd, String>(
            (EngineCmd::RenameCategory { old_name: key, new_name: value, save_path }),
        ),
        port == 0 <==> listened is Err,
        port != 0 ==> listened == Ok::<EngineCmd, String>((EngineCmd::UpdateListenPort { port })),
{
}

/// A session takes commands exactly while it runs and its queue is open; a listener
/// that is not there is not unhealthy.
pub proof fn law_handles_tell_the_truth(
    handle: &EngineHandle,
    alive: bool,
    healthy: bool,
)
    requires
        call_ensures(EngineHandle::is_alive, (handle,), alive),
        call_ensures(EngineHandle::peer_listener_healthy, (handle,), healthy),
    ensures
        alive <==> handle.alive && !handle.queue_closed,
        !healthy <==> handle.listener_healthy == Some(false),
{
}

/// A command that was handed over is waited for, and its answer is told as it is;
/// one that was not handed over, is dropped or takes too long is an error.
pub proof fn law_answers_are_told_as_they_are(
    outcome: SendOutcome,
    sent: CmdResult<()>,
    answer: CmdResult<u64>,
    awaited: Awaited,
    answered: CmdResult<u64>,
    dropped: CmdResult<u64>,
    late: CmdResult<u64>,
)
    requires
        call_ensures(send_command, (outcome,), sent),
        call_ensures(await_engine_reply::<u64>, (ReplyOutcome::Answered(answer), awaited), answered),
        call_ensures(await_engine_reply::<u64>, (ReplyOutcome::Dropped, awaited), dropped),
        call_ensures(await_engine_reply::<u64>, (ReplyOutcome::TimedOut, awaited), late),
    ensures
        sent is Ok <==> outcome == SendOutcome::Sent,
        answered == answer,
        dropped is Err,
        late is Err,
{
}

/// A session that was told to end and has not ended in time is aborted, and so is one
/// that could not be told; one whose queue is closed has ended. A listener is
/// waited for until the deadline and aborted then.
pub proof fn law_sessions_end_in_time(
    answered: bool,
    told: bool,
    closed: bool,
    untold: bool,
    deadline: u128,
    now: u128,
    left: u128,
    running: ListenerEnd,
    ended: ListenerEnd,
    none: ListenerEnd,
)
    requires
        call_ensures(aborts_session, (SendOutcome::Sent, answered), told),
        call_ensures(aborts_session, (SendOutcome::Closed, answered), closed),
        call_ensures(aborts_session, (SendOutcome::TimedOut, answered), untold),
        call_ensures(time_left, (deadline, now), left),
        call_ensures(wait_for_peer_listener_shutdown, (Some(false), deadline, now), running),
        call_ensures(wait_for_peer_listener_shutdown, (Some(true), deadline, now), ended),
        call_ensures(wait_for_peer_listener_shutdown, (None, deadline, now), none),
    ensures
        told <==> !answered,
        !closed,
        untold,
        now <= deadline ==> left == deadline - now,
        now >= deadline ==> left == 0,
        now <= deadline ==> running == (ListenerEnd::Wait { nanos: (deadline - now) as u128 }),
        now > deadline ==> running == ListenerEnd::Abort,
        ended == ListenerEnd::Nothing && none == ListenerEnd::Nothing,
{
}

/// A question about a torrent asks for what it is named after, of the torrent that
/// it names.
pub proof fn law_torrent_questions_are_what_they_are_called(
    handle: &EngineHandle,
    info_hash: String,
)
    requires
        byte_len(info_hash@) <= handle.limits.info_hash_bytes,
    ensures
        forall|r: CmdResult<EngineCmd>| #[trigger]
            call_ensures(EngineHandle::torrent_metadata, (handle, info_hash), r) ==> (r matches Ok(
                EngineCmd::Torrent { info_hash: h, request },
            ) && h@ == lowered(info_hash@) && request == TorrentRequest::Metadata),
        forall|r: CmdResult<EngineCmd>| #[trigger]
            call_ensures(EngineHandle::torrent_blob_size, (handle, info_hash), r) ==> (r matches Ok(
                EngineCmd::Torrent { info_hash: h, request },
            ) && h@ == lowered(info_hash@) && request == TorrentRequest::BlobSize),
        forall|r: CmdResult<EngineCmd>| #[trigger]
            call_ensures(EngineHandle::torrent_trackers, (handle, info_hash), r) ==> (r matches Ok(
                EngineCmd::Torrent { info_hash: h, request },
            ) && h@ == lowered(info_hash@) && request == TorrentRequest::Trackers),
        forall|r: CmdResult<EngineCmd>| #[trigger]
            call_ensures(EngineHandle::torrent_tracker_projection, (handle, info_hash), r) ==> (r matches Ok(
                EngineCmd::Torrent { info_hash: h, request },
            ) && h@ == lowered(info_hash@) && request == TorrentRequest::TrackerProjection),
        forall|r: CmdResult<EngineCmd>| #[trigger]
            call_ensures(EngineHandle::torrent_tracker_urls, (handle, info_hash), r) ==> (r matches Ok(
                EngineCmd::Torrent { info_hash: h, request },
            ) && h@ == lowered(info_hash@) && request == TorrentRequest::TrackerUrls),
        forall|r: CmdResult<EngineCmd>| #[trigger]
            call_ensures(EngineHandle::torrent_tracker_snapshot_size, (handle, info_hash), r) ==> (r matches Ok(
                EngineCmd::Torrent { info_hash: h, request },
            ) && h@ == lowered(info_hash@) && request == TorrentRequest::TrackerSnapshotSize),
        forall|r: CmdResult<EngineCmd>| #[trigger]
            call_ensures(EngineHandle::diagnose_torrent, (handle, info_hash), r) ==> (r matches Ok(
                EngineCmd::Torrent { info_hash: h, request },
            ) && h@ == lowered(info_hash@) && request == TorrentRequest::Diagnose),
        forall|r: CmdResult<EngineCmd>| #[trigger]
            call_ensures(EngineHandle::torrent_limits, (handle, info_hash), r) ==> (r matches Ok(
                EngineCmd::Torrent { info_hash: h, request },
            ) && h@ == lowered(info_hash@) && request == TorrentRequest::Limits),
        forall|r: CmdResult<EngineCmd>| #[trigger]
            call_ensures(EngineHandle::torrent_peers, (handle, info_hash), r) ==> (r matches Ok(
                EngineCmd::Torrent { info_hash: h, request },
            ) && h@ == lowered(info_hash@) && request == TorrentRequest::Peers),
        forall|r: CmdResult<EngineCmd>| #[trigger]
            call_ensures(EngineHandle::torrent_webseeds, (handle, info_hash), r) ==> (r matches Ok(
                EngineCmd::Torrent { info_hash: h, request },
            ) && h@ == lowered(info_hash@) && request == TorrentRequest::Webseeds),
        forall|r: CmdResult<EngineCmd>| #[trigger]
            call_ensures(EngineHandle::queue_priority, (handle, info_hash), r) ==> (r matches Ok(
                EngineCmd::Torrent { info_hash: h, request },
            ) && h@ == lowered(info_hash@) && request == TorrentRequest::QueuePriority),
{
}

/// A question about the session asks for what it is named after.
pub proof fn law_session_questions_are_what_they_are_called(handle: &EngineHandle)
    ensures
        forall|r: EngineCmd| #[trigger]
            call_ensures(EngineHandle::tracker_health, (handle,), r) ==> r == EngineCmd::Session(
                SessionRequest::TrackerHealth,
            ),
        forall|r: EngineCmd| #[trigger]
            call_ensures(EngineHandle::tracker_health_snapshot_size, (handle,), r) ==> r == EngineCmd::Session(
                SessionRequest::TrackerHealthSnapshotSize,
            ),
        forall|r: EngineCmd| #[trigger]
            call_ensures(EngineHandle::list_jobs, (handle,), r) ==> r == EngineCmd::Session(
                SessionRequest::ListJobs,
            ),
        forall|r: EngineCmd| #[trigger]
            call_ensures(EngineHandle::list_storage_roots, (handle,), r) ==> r == EngineCmd::Session(
                SessionRequest::ListStorageRoots,
            ),
        forall|r: EngineCmd| #[trigger]
            call_ensures(EngineHandle::stats, (handle,), r) ==> r == EngineCmd::Session(
                SessionRequest::Stats,
            ),
        forall|r: EngineCmd| #[trigger]
            call_ensures(EngineHandle::subsystem_health, (handle,), r) ==> r == EngineCmd::Session(
                SessionRequest::SubsystemHealth,
            ),
        forall|r: EngineCmd| #[trigger]
            call_ensures(EngineHandle::list_categories, (handle,), r) ==> r == EngineCmd::Session(
                SessionRequest::ListCategories,
            ),
        forall|r: EngineCmd| #[trigger]
            call_ensures(EngineHandle::list_tags, (handle,), r) ==> r == EngineCmd::Session(
                SessionRequest::ListTags,
            ),
        forall|r: EngineCmd| #[trigger]
            call_ensures(EngineHandle::banned_peers, (handle,), r) ==> r == EngineCmd::Session(
                SessionRequest::BannedPeers,
            ),
        forall|r: EngineCmd| #[trigger]
            call_ensures(EngineHandle::active_torrent_peers, (handle,), r) ==> r == EngineCmd::Session(
                SessionRequest::ActiveTorrentPeers,
            ),
        forall|r: EngineCmd| #[trigger]
            call_ensures(EngineHandle::global_limits, (handle,), r) ==> r == EngineCmd::Session(
                SessionRequest::GlobalLimits,
            ),
        forall|r: EngineCmd| #[trigger]
            call_ensures(EngineHandle::network_features, (handle,), r) ==> r == EngineCmd::Session(
                SessionRequest::NetworkFeatures,
            ),
        forall|r: EngineCmd| #[trigger]
            call_ensures(EngineHandle::listen_port, (handle,), r) ==> r == EngineCmd::Session(
                SessionRequest::ListenPort,
            ),
{
}

/// An accepted change of a torrent is of the torrent that it names, and is the one
/// that was asked for.
pub proof fn law_accepted_changes_are_those_asked_for(
    handle: &EngineHandle,
    info_hash: String,
    category: Option<Option<String>>,
    add_tags: Vec<String>,
    remove_tags: Vec<String>,
    name: Option<String>,
    save_path: Option<String>,
    trackers: Vec<String>,
    slot: bool,
    limits: EngineTorrentLimits,
    peers: Vec<PeerAddr>,
)
    ensures
        forall|r: CmdResult<EngineCmd>| #[trigger]
            call_ensures(
                EngineHandle::update_torrent_labels,
                (handle, info_hash, category, add_tags, remove_tags),
                r,
            ) ==> {
                &&& r is Ok <==> labels_problem(
                    handle.limits,
                    info_hash@,
                    category,
                    add_tags@,
                    remove_tags@,
                ) is None
                &&& r matches Ok(cmd) ==> (cmd matches EngineCmd::UpdateTorrentLabels {
                    info_hash: h,
                    category: c,
                    add_tags: a,
                    remove_tags: d,
                } && h@ == lowered(info_hash@) && c == category && a == add_tags && d
                    == remove_tags)
            },
        forall|r: CmdResult<EngineCmd>| #[trigger]
            call_ensures(
                EngineHandle::update_torrent_fields,
                (handle, info_hash, name, save_path),
                r,
            ) ==> {
                &&& r is Ok <==> byte_len(info_hash@) <= handle.limits.info_hash_bytes && fits(
                    name,
                    handle.limits.name_bytes,
                ) && fits(save_path, handle.limits.save_path_bytes)
                &&& r matches Ok(cmd) ==> (cmd matches EngineCmd::UpdateTorrentFields {
                    info_hash: h,
                    torrent_name: n,
                    save_path: p,
                    with_job,
                } && h@ == lowered(info_hash@) && n == name && p == save_path && !with_job)
            },
        forall|r: CmdResult<EngineCmd>| #[trigger]
            call_ensures(
                EngineHandle::update_torrent_fields_with_job,
                (handle, info_hash, name, save_path),
                r,
            ) ==> {
                &&& r is Ok <==> byte_len(info_hash@) <= handle.limits.info_hash_bytes && fits(
                    name,
                    handle.limits.name_bytes,
                ) && fits(save_path, handle.limits.save_path_bytes)
                &&& r matches Ok(cmd) ==> (cmd matches EngineCmd::UpdateTorrentFields {
                    info_hash: h,
                    torrent_name: n,
                    save_path: p,
                    with_job,
                } && h@ == lowered(info_hash@) && n == name && p == save_path && with_job)
            },
        forall|r: CmdResult<EngineCmd>| #[trigger]
            call_ensures(
                EngineHandle::update_torrent_trackers,
                (handle, info_hash, trackers, slot),
                r,
            ) ==> {
                &&& r is Ok <==> slot && byte_len(info_hash@) <= handle.limits.info_hash_bytes
                    && tracker_list_problem(handle.limits, trackers@) is None
                &&& r matches Ok(cmd) ==> (cmd matches EngineCmd::UpdateTorrentTrackers {
                    info_hash: h,
                    trackers: t,
                } && h@ == lowered(info_hash@) && t == trackers)
            },
        forall|r: CmdResult<EngineCmd>| #[trigger]
            call_ensures(
                EngineHandle::update_torrent_limits,
                (handle, info_hash, limits),
                r,
            ) ==> {
                &&& r is Ok <==> byte_len(info_hash@) <= handle.limits.info_hash_bytes
                    && torrent_limits_problem(limits) is None
                &&& r matches Ok(cmd) ==> (cmd matches EngineCmd::UpdateTorrentLimits {
                    info_hash: h,
                    limits: l,
                } && h@ == lowered(info_hash@) && l == limits)
            },
        forall|r: CmdResult<EngineCmd>| #[trigger]
            call_ensures(EngineHandle::add_peers, (handle, info_hash, peers), r) ==> {
                &&& r is Ok <==> byte_len(info_hash@) <= handle.limits.info_hash_bytes
                    && peers@.len() <= handle.limits.manual_peer_addresses
                &&& r matches Ok(cmd) ==> (cmd matches EngineCmd::AddPeers {
                    info_hash: h,
                    peers: p,
                } && h@ == lowered(info_hash@) && p == peers)
            },
        forall|r: CmdResult<EngineCmd>| #[trigger]
            call_ensures(EngineHandle::ban_peers, (handle, peers), r) ==> {
                &&& r is Ok <==> peers@.len() <= handle.limits.banned_peers
                &&& r matches Ok(cmd) ==> cmd == (EngineCmd::BanPeers { peers })
            },
{
}

/// An accepted change of files, queue or labels is the one that was asked for.
pub proof fn law_accepted_orders_are_those_asked_for(
    handle: &EngineHandle,
    info_hash: String,
    file_ids: Vec<u32>,
    priority: i64,
    file_id: u32,
    old_path: String,
    new_path: String,
    info_hashes: Vec<String>,
    queue_move: QueueMove,
    names: Vec<String>,
)
    ensures
        forall|r: CmdResult<EngineCmd>| #[trigger]
            call_ensures(
                EngineHandle::update_file_priorities,
                (handle, info_hash, file_ids, priority),
                r,
            ) ==> {
                &&& r is Ok <==> byte_len(info_hash@) <= handle.limits.info_hash_bytes
                    && file_ids@.len() <= handle.limits.mutation_items
                &&& r matches Ok(cmd) ==> (cmd matches EngineCmd::UpdateFilePriorities {
                    info_hash: h,
                    file_ids: f,
                    priority: p,
                } && h@ == lowered(info_hash@) && f == file_ids && p == priority)
            },
        forall|r: CmdResult<EngineCmd>| #[trigger]
            call_ensures(
                EngineHandle::rename_file_path,
                (handle, info_hash, file_id, new_path),
                r,
            ) ==> {
                &&& r is Ok <==> byte_len(info_hash@) <= handle.limits.info_hash_bytes && byte_len(
                    new_path@,
                ) <= handle.limits.torrent_file_path_bytes
                &&& r matches Ok(cmd) ==> (cmd matches EngineCmd::RenameFilePath {
                    info_hash: h,
                    file_id: f,
                    new_path: p,
                } && h@ == lowered(info_hash@) && f == file_id && p == new_path)
            },
        forall|r: CmdResult<EngineCmd>| #[trigger]
            call_ensures(
                EngineHandle::rename_folder_path,
                (handle, info_hash, old_path, new_path),
                r,
            ) ==> {
                &&& r is Ok <==> byte_len(info_hash@) <= handle.limits.info_hash_bytes && byte_len(
                    old_path@,
                ) <= handle.limits.torrent_file_path_bytes && byte_len(new_path@)
                    <= handle.limits.torrent_file_path_bytes
                &&& r matches Ok(cmd) ==> (cmd matches EngineCmd::RenameFolderPath {
                    info_hash: h,
                    old_path: a,
                    new_path: b,
                } && h@ == lowered(info_hash@) && a == old_path && b == new_path)
            },
        forall|r: CmdResult<EngineCmd>| #[trigger]
            call_ensures(EngineHandle::torrent_live_stats, (handle, info_hashes), r) ==> {
                &&& r is Ok <==> info_hashes@.len() <= handle.limits.live_stats
                    && hash_list_problem(handle.limits, info_hashes@) is None
                &&& r matches Ok(cmd) ==> (cmd matches EngineCmd::GetTorrentLiveStats {
                    info_hashes: l,
                } && l@.len() == info_hashes@.len() && forall|i: int|
                    0 <= i < l@.len() ==> (#[trigger] l@[i])@ == lowered(info_hashes@[i]@))
            },
        forall|r: CmdResult<EngineCmd>| #[trigger]
            call_ensures(EngineHandle::update_queue_order, (handle, info_hashes, queue_move), r)
                ==> {
                &&& r is Ok <==> hash_list_problem(handle.limits, info_hashes@) is None
                &&& r matches Ok(cmd) ==> (cmd matches EngineCmd::UpdateQueueOrder {
                    info_hashes: l,
                    queue_move: m,
                } && m == queue_move && l@.len() == info_hashes@.len() && forall|i: int|
                    0 <= i < l@.len() ==> (#[trigger] l@[i])@ == lowered(info_hashes@[i]@))
            },
        forall|r: CmdResult<EngineCmd>| #[trigger]
            call_ensures(EngineHandle::create_tags, (handle, names), r) ==> {
                &&& r is Ok <==> labels_fit(handle.limits, names@)
                &&& r matches Ok(cmd) ==> cmd == (EngineCmd::CreateTags { names })
            },
        forall|r: CmdResult<EngineCmd>| #[trigger]
            call_ensures(EngineHandle::remove_tags, (handle, names), r) ==> {
                &&& r is Ok <==> labels_fit(handle.limits, names@)
                &&& r matches Ok(cmd) ==> cmd == (EngineCmd::RemoveTags { names })
            },
        forall|r: CmdResult<EngineCmd>| #[trigger]
            call_ensures(EngineHandle::remove_categories, (handle, names), r) ==> {
                &&& r is Ok <==> {
                    &&& names@.len() <= handle.limits.mutation_items
                    &&& forall|i: int|
                        0 <= i < names@.len() ==> byte_len((#[trigger] names@[i])@)
                            <= handle.limits.category_bytes
                    &&& names@.len() > 0 ==> capped(total_bytes(names@))
                        <= handle.limits.category_definition_bytes
                }
                &&& r matches Ok(cmd) ==> cmd == (EngineCmd::RemoveCategories { names })
            },
{
    law_text_lists_are_bounded(
        names@,
        handle.limits.category_bytes as nat,
        handle.limits.category_definition_bytes as nat,
        "category list"@ + " item at index "@,
        "category list"@,
    );
}

/// An accepted question asks for what was asked: a file of a torrent up to a size, the
/// torrents of a tracker, a setting, events.
pub proof fn law_accepted_questions_are_those_asked(
    handle: &EngineHandle,
    info_hash: String,
    max_bytes: usize,
    text: String,
    hash: Option<String>,
    kind: Option<String>,
    levels: Vec<String>,
    last: Option<i64>,
    limit: usize,
)
    ensures
        forall|r: CmdResult<EngineCmd>| #[trigger]
            call_ensures(EngineHandle::torrent_blob, (handle, info_hash), r) ==> {
                &&& r is Ok <==> byte_len(info_hash@) <= handle.limits.info_hash_bytes
                &&& r matches Ok(cmd) ==> (cmd matches EngineCmd::GetTorrentBlob {
                    info_hash: h,
                    max_bytes: m,
                } && h@ == lowered(info_hash@) && m == 67_108_864)
            },
        forall|r: CmdResult<EngineCmd>| #[trigger]
            call_ensures(EngineHandle::torrent_blob_limited, (handle, info_hash, max_bytes), r)
                ==> {
                &&& r is Ok <==> byte_len(info_hash@) <= handle.limits.info_hash_bytes
                    && max_bytes <= 67_108_864
                &&& r matches Ok(cmd) ==> (cmd matches EngineCmd::GetTorrentBlob {
                    info_hash: h,
                    max_bytes: m,
                } && h@ == lowered(info_hash@) && m == max_bytes)
            },
        forall|r: CmdResult<EngineCmd>| #[trigger]
            call_ensures(EngineHandle::torrent_hashes_by_tracker, (handle, text), r) ==> {
                &&& r is Ok <==> byte_len(text@) <= handle.limits.tracker_url_bytes
                &&& r matches Ok(cmd) ==> (cmd matches EngineCmd::ListTorrentHashesByTracker {
                    tracker,
                } && tracker@ == trimmed(text@))
            },
        forall|r: CmdResult<EngineCmd>| #[trigger]
            call_ensures(
                EngineHandle::torrent_hashes_by_tracker_snapshot_size,
                (handle, text),
                r,
            ) ==> {
                &&& r is Ok <==> byte_len(text@) <= handle.limits.tracker_url_bytes
                &&& r matches Ok(cmd) ==> (cmd matches
                    EngineCmd::GetTorrentHashesByTrackerSnapshotSize { tracker } && tracker@
                    == trimmed(text@))
            },
        forall|r: CmdResult<EngineCmd>| #[trigger]
            call_ensures(EngineHandle::get_setting, (handle, text), r) ==> {
                &&& r is Ok <==> byte_len(text@) <= handle.limits.setting_key_bytes
                &&& r matches Ok(cmd) ==> cmd == (EngineCmd::GetSetting { key: text })
            },
        forall|r: CmdResult<EngineCmd>| #[trigger]
            call_ensures(EngineHandle::set_user_agent, (handle, text), r) ==> {
                &&& r is Ok <==> byte_len(text@) <= 256
                &&& r matches Ok(cmd) ==> cmd == (EngineCmd::SetUserAgent { user_agent: text })
            },
        forall|r: CmdResult<EngineCmd>| #[trigger]
            call_ensures(
                EngineHandle::session_events_filtered,
                (handle, hash, kind, levels, last, limit),
                r,
            ) ==> {
                &&& r is Ok <==> events_problem(
                    handle.limits,
                    owned_text(hash),
                    owned_text(kind),
                    levels@,
                ) is None
                &&& r matches Ok(cmd) ==> (cmd matches EngineCmd::ListSessionEvents {
                    filter_hash,
                    kind: k,
                    levels: l,
                    last_known_id,
                    limit: m,
                } && k == kind && l == levels && last_known_id == last && m == limit && (
                filter_hash is Some <==> hash is Some) && (hash matches Some(named)
                    ==> filter_hash->0@ == lowered(named@)))
            },
        forall|r: CmdResult<EngineCmd>| #[trigger]
            call_ensures(EngineHandle::session_events, (handle, hash, limit), r) ==> {
                &&& r is Ok <==> (hash matches Some(named) ==> byte_len(named@)
                    <= handle.limits.info_hash_bytes)
                &&& r matches Ok(cmd) ==> (cmd matches EngineCmd::ListSessionEvents {
                    filter_hash,
                    kind: k,
                    levels: l,
                    last_known_id,
                    limit: m,
                } && k is None && l@.len() == 0 && last_known_id is None && m == limit && (
                filter_hash is Some <==> hash is Some) && (hash matches Some(named)
                    ==> filter_hash->0@ == lowered(named@)))
            },
{
}

/// A plan is handed over as it is, for the torrents that were named.
pub proof fn law_accepted_plans_are_those_handed_in(
    handle: &EngineHandle,
    operation: String,
    affected: Vec<String>,
    plan: StoragePlan,
    completed: Vec<usize>,
    serialized: Result<usize, String>,
    r: CmdResult<EngineCmd>,
)
    requires
        call_ensures(
            EngineHandle::execute_storage_plan,
            (handle, operation, affected, plan, completed, serialized),
            r,
        ),
    ensures
        r is Ok <==> execute_problem(
            handle.limits,
            operation@,
            affected@,
            plan,
            serialized,
            completed@.len(),
        ) is None,
        r matches Ok(cmd) ==> (cmd matches EngineCmd::ExecuteStoragePlan {
            operation: o,
            affected_torrents: a,
            plan: p,
            completed_steps: c,
        } && o == operation && p == plan && c == completed && a@.len() == affected@.len()
            && forall|i: int| 0 <= i < a@.len() ==> (#[trigger] a@[i])@ == lowered(affected@[i]@)),
{
}

/// What a handle shows without asking is what it holds; a session without an ingress
/// budget has counted nothing.
pub proof fn law_handles_show_what_they_hold(
    handle: &EngineHandle,
    ingress: PeerIngressStats,
    database: EngineDatabaseWorkerStats,
)
    requires
        call_ensures(EngineHandle::peer_ingress_stats, (handle,), ingress),
        call_ensures(EngineHandle::database_worker_stats, (handle,), database),
    ensures
        handle.ingress matches Some(stats) ==> ingress == stats,
        handle.ingress is None ==> ingress.accepted == 0 && ingress.rejected_global_budget == 0
            && ingress.rejected_ip_budget == 0 && ingress.rejected_peer_connection_budget == 0
            && ingress.handshake_read_errors == 0 && ingress.handshake_timeouts == 0
            && ingress.malformed_handshakes == 0,
        database == handle.database_worker,
{
}

/// The bytes of a list are those of its texts, one after another; a number is over a
/// bound exactly where it is larger.
pub proof fn law_sizes_are_added_up(
    values: Seq<String>,
    value: String,
    count: nat,
    maximum: nat,
    before: Seq<char>,
    between: Seq<char>,
)
    ensures
        total_bytes(Seq::<String>::empty()) == 0,
        total_bytes(values.push(value)) == total_bytes(values) + byte_len(value@),
        canonical_bytes(Seq::<String>::empty()) == 0,
        canonical_bytes(values.push(value)) == canonical_bytes(values) + byte_len(lowered(value@)),
        over_limit(count, maximum, before, between) is Some <==> count > maximum,
{
    assert(values.push(value).drop_last() =~= values);
}

/// A tracker of a file counts once, white space around it left out, and an empty one
/// does not count.
pub proof fn law_trackers_count_once(trackers: Seq<String>, tracker: String)
    ensures
        distinct_trackers(trackers).no_duplicates(),
        distinct_trackers(trackers.push(tracker)) == if trimmed(tracker@).len() == 0
            || distinct_trackers(trackers).contains(trimmed(tracker@)) {
            distinct_trackers(trackers)
        } else {
            distinct_trackers(trackers).push(trimmed(tracker@))
        },
    decreases trackers.len(),
{
    assert(trackers.push(tracker).drop_last() =~= trackers);
    if trackers.len() > 0 {
        law_trackers_count_once(trackers.drop_last(), tracker);
    }
}

/// A tracker of a file is in bounds, given those before it.
pub open spec fn tracker_fits(limits: EngineLimits, before: Seq<String>, tracker: String) -> bool {
    let url = trimmed(tracker@);
    let seen = distinct_trackers(before);
    &&& byte_len(tracker@) <= limits.tracker_url_bytes
    &&& capped(total_bytes(before) + byte_len(tracker@)) <= limits.tracker_bytes
    &&& url.len() == 0 || seen.contains(url) || seen.len() < limits.mutation_items
}

/// The trackers of a file are taken exactly where there are not too many tiers, each is
/// in bounds, and so are all of them together and the number of different ones.
pub proof fn law_file_trackers_are_bounded(limits: EngineLimits, fields: MetaFields)
    ensures
        fields_tracker_problem(limits, fields) is None <==> {
            let all = meta_trackers(fields.announce, fields.announce_list@);
            &&& fields.announce_list@.len() <= limits.meta_tracker_tiers
            &&& forall|i: int|
                0 <= i < all.len() ==> tracker_fits(limits, #[trigger] all.take(i), all[i])
        },
        fields.announce matches Some(url) ==> meta_trackers(
            fields.announce,
            fields.announce_list@,
        )[0] == url,
{
    let all = meta_trackers(fields.announce, fields.announce_list@);
    let check = meta_tracker_check(limits);
    lemma_no_problem_is_every_item_accepted(all, check);
    if first_problem(all, check) is None {
        assert forall|i: int| 0 <= i < all.len() implies tracker_fits(
            limits,
            #[trigger] all.take(i),
            all[i],
        ) by {
            assert(check(all.take(i), all[i]) is None);
        }
    }
    if forall|i: int|
        0 <= i < all.len() ==> tracker_fits(limits, #[trigger] all.take(i), all[i]) {
        assert forall|i: int| 0 <= i < all.len() implies check(
            #[trigger] all.take(i),
            all[i],
        ) is None by {
            assert(tracker_fits(limits, all.take(i), all[i]));
        }
    }
}

} // verus!
