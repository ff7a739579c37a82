//! Adding torrents and magnet links. A torrent is shown only after everything
//! about it has been checked, and what was shown is taken back where it cannot
//! be stored.

use vstd::prelude::*;

use crate::job::TorrentState;
use crate::limits::{EngineLimits, MAX_TORRENT_BYTES};
use crate::metadata_identity::{
    filed_under, filing_text, magnet_identity, MetadataInfoHash,
};
use crate::metadata_memory::{
    prepare_metadata_task_memory_with_peers, strictly_ascending, task_memory, MetadataTaskPlan,
    MAX_METADATA_DIRECT_PEERS,
};
use crate::metainfo::{MagnetLink, TorrentMeta};
use crate::net::PeerAddr;
use crate::problem::{either, reports, CmdResult, Problem};
use crate::text::{count_text, decimal, join2, join3, join4};
use crate::torrent_state::ShownEntry;
use crate::validation::{
    byte_count_problem, capped, category_problem, fields_tracker_problem, magnet_problem,
    owned_text, save_path_problem, tag_list_problem, torrent_meta_problem, tracker_fields,
    tracker_list_problem, validate_owned_text, validate_tag_list,
    validation_validate_magnet_input, validation_validate_meta_tracker_urls,
    validation_validate_torrent_meta, validation_validate_tracker_urls,
};

verus! {

/// How a torrent is to be filed in the session.
#[derive(Debug)]
pub struct AddOptions {
    pub save_path: Option<String>,
    pub paused: bool,
    pub category: Option<String>,
    pub tags: Vec<String>,
}

pub open spec fn options_problem(limits: EngineLimits, options: AddOptions) -> Problem {
    either(
        category_problem(limits, owned_text(options.category)),
        save_path_problem(limits, owned_text(options.save_path)),
    )
}

pub open spec fn add_tags_problem(limits: EngineLimits, options: AddOptions) -> Problem {
    tag_list_problem(limits, options.tags@, "torrent tag list"@)
}

/// What is wrong with a torrent that is to be added.
pub open spec fn add_torrent_problem(
    limits: EngineLimits,
    meta: TorrentMeta,
    options: AddOptions,
) -> Problem {
    either(
        torrent_meta_problem(limits, meta),
        either(
            options_problem(limits, options),
            either(
                fields_tracker_problem(limits, tracker_fields(meta.kind)),
                add_tags_problem(limits, options),
            ),
        ),
    )
}

fn validate_options(limits: &EngineLimits, options: &AddOptions) -> (r: CmdResult<()>)
    ensures
        reports(r, options_problem(*limits, *options)),
{
    validate_owned_text(&options.category, limits.category_bytes, "category")?;
    validate_owned_text(&options.save_path, limits.save_path_bytes, "save path")
}

/// A torrent that is to be added is bounded in all its parts.
pub fn validate_add_torrent(limits: &EngineLimits, meta: &TorrentMeta, options: &AddOptions) -> (r:
    CmdResult<()>)
    ensures
        reports(r, add_torrent_problem(*limits, *meta, *options)),
{
    validation_validate_torrent_meta(limits, meta)?;
    validate_options(limits, options)?;
    validation_validate_meta_tracker_urls(limits, meta)?;
    validate_tag_list(limits, options.tags.as_slice(), "torrent tag list")
}

/// What is wrong with a torrent file that is to be added unread.
pub open spec fn add_raw_problem(limits: EngineLimits, raw_len: nat, options: AddOptions) -> Problem {
    either(
        byte_count_problem(raw_len, MAX_TORRENT_BYTES as nat, "torrent metainfo"@),
        either(options_problem(limits, options), add_tags_problem(limits, options)),
    )
}

/// A torrent file that is to be added unread is not too large.
pub fn validate_add_raw(limits: &EngineLimits, raw_len: usize, options: &AddOptions) -> (r: CmdResult<
    (),
>)
    ensures
        reports(r, add_raw_problem(*limits, raw_len as nat, *options)),
{
    if raw_len > MAX_TORRENT_BYTES {
        let found = count_text(raw_len);
        let maximum = count_text(MAX_TORRENT_BYTES);
        let before = join2("torrent metainfo", " contains ");
        return Err(
            join4(before.as_str(), found.as_str(), " bytes; maximum is ", maximum.as_str()),
        );
    }
    validate_options(limits, options)?;
    validate_tag_list(limits, options.tags.as_slice(), "torrent tag list")
}

/// What is wrong with a magnet link that is to be added.
pub open spec fn add_magnet_problem(
    limits: EngineLimits,
    magnet: MagnetLink,
    options: AddOptions,
) -> Problem {
    either(
        magnet_problem(limits, magnet),
        either(
            options_problem(limits, options),
            either(
                tracker_list_problem(limits, magnet.trackers@),
                add_tags_problem(limits, options),
            ),
        ),
    )
}

/// A magnet link that is to be added is bounded in all its parts.
pub fn validate_add_magnet(limits: &EngineLimits, magnet: &MagnetLink, options: &AddOptions) -> (r:
    CmdResult<()>)
    ensures
        reports(r, add_magnet_problem(*limits, *magnet, *options)),
{
    validation_validate_magnet_input(limits, magnet)?;
    validate_options(limits, options)?;
    validation_validate_tracker_urls(limits, magnet.trackers.as_slice())?;
    validate_tag_list(limits, options.tags.as_slice(), "torrent tag list")
}

/// What a magnet link will be in the session.
#[derive(Debug)]
pub struct MagnetPlan {
    pub identity: MetadataInfoHash,
    /// What it is filed under.
    pub info_hash: String,
    /// What it is called until its metadata is there.
    pub name: String,
    /// The second digest of a hybrid, which is stored apart.
    pub expected_v2: Option<[u8; 32]>,
    pub state: TorrentState,
    /// What its task will keep.
    pub task: MetadataTaskPlan,
}

/// The state in which a magnet link is filed.
pub open spec fn magnet_state(paused: bool) -> TorrentState {
    if paused {
        TorrentState::Paused
    } else {
        TorrentState::MetadataPending
    }
}

/// Works out what a magnet link will be in the session: refused where it is
/// out of bounds, names too many peers or has no digest.
pub fn plan_magnet(
    limits: &EngineLimits,
    magnet: MagnetLink,
    options: &AddOptions,
    max_peers: usize,
) -> (r: CmdResult<MagnetPlan>)
    ensures
        match add_magnet_problem(*limits, magnet, *options) {
            Some(text) => r matches Err(e) && e@ == text,
            None => match (magnet.info_hash_v1, magnet.info_hash_v2) {
                (None, None) => r matches Err(e) && e@ == "magnet is missing an info hash"@,
                (v1, v2) => match r {
                    Ok(plan) => {
                        &&& plan.identity == match (v1, v2) {
                            (Some(a), Some(b)) => MetadataInfoHash::Hybrid { v1: a, v2: b },
                            (Some(a), None) => MetadataInfoHash::V1(a),
                            (None, Some(b)) => MetadataInfoHash::V2(b),
                            (None, None) => arbitrary(),
                        }
                        &&& plan.info_hash@ == filed_under(plan.identity)
                        &&& plan.name@ == match magnet.display_name {
                            Some(name) => name@,
                            None => plan.info_hash@,
                        }
                        &&& plan.expected_v2 == if v1 is Some {
                            v2
                        } else {
                            None
                        }
                        &&& plan.state == magnet_state(options.paused)
                        &&& plan.task.trackers@ == magnet.trackers@
                        &&& strictly_ascending(plan.task.direct_peers@)
                        &&& forall|p: PeerAddr|
                            plan.task.direct_peers@.contains(p)
                                <==> magnet.peer_addresses@.contains(p)
                        &&& plan.task.bytes == capped(
                            task_memory(
                                magnet.trackers@,
                                plan.task.direct_peers@.len(),
                                max_peers as nat,
                            ),
                        )
                    },
                    Err(e) => exists|distinct: Seq<PeerAddr>|
                        {
                            &&& #[trigger] strictly_ascending(distinct)
                            &&& forall|p: PeerAddr|
                                distinct.contains(p) <==> magnet.peer_addresses@.contains(p)
                            &&& distinct.len() > MAX_METADATA_DIRECT_PEERS
                            &&& e@ == "metadata task has "@ + decimal(distinct.len())
                                + " direct peers, maximum is "@ + decimal(
                                MAX_METADATA_DIRECT_PEERS as nat,
                            )
                        },
                },
            },
        },
{
    validate_add_magnet(limits, &magnet, options)?;
    let identity = match magnet_identity(magnet.info_hash_v1, magnet.info_hash_v2) {
        Some(identity) => identity,
        None => {
            return Err("magnet is missing an info hash".to_owned());
        },
    };
    let expected_v2 = match magnet.info_hash_v1 {
        Some(_) => magnet.info_hash_v2,
        None => None,
    };
    let task = prepare_metadata_task_memory_with_peers(
        magnet.trackers,
        magnet.peer_addresses,
        max_peers,
    )?;
    let info_hash = filing_text(identity);
    let name = match magnet.display_name {
        Some(name) => name,
        None => info_hash.clone(),
    };
    let state = if options.paused {
        TorrentState::Paused
    } else {
        TorrentState::MetadataPending
    };
    Ok(MagnetPlan { identity, info_hash, name, expected_v2, state, task })
}

/// The directory that a torrent is saved in: the one that is asked for, else the
/// one for downloads.
pub open spec fn chosen_directory(save_path: Option<String>, download_dir: String) -> String {
    match save_path {
        Some(path) => path,
        None => download_dir,
    }
}

fn choose_directory(save_path: Option<String>, download_dir: String) -> (r: String)
    ensures
        r == chosen_directory(save_path, download_dir),
{
    match save_path {
        Some(path) => path,
        None => download_dir,
    }
}

/// What the session shows of a torrent that was added: all of its payload is
/// missing. `category` and `tags` are in their normal form.
pub fn torrent_entry(
    name: String,
    total_length: u64,
    save_path: Option<String>,
    download_dir: String,
    category: Option<String>,
    tags: Vec<String>,
    paused: bool,
) -> (r: ShownEntry)
    ensures
        r == (ShownEntry {
            name,
            total_length,
            amount_left: total_length,
            state: if paused {
                TorrentState::Paused
            } else {
                TorrentState::Downloading
            },
            category,
            tags,
            save_path: chosen_directory(save_path, download_dir),
        }),
{
    let state = if paused {
        TorrentState::Paused
    } else {
        TorrentState::Downloading
    };
    ShownEntry {
        name,
        total_length,
        amount_left: total_length,
        state,
        category,
        tags,
        save_path: choose_directory(save_path, download_dir),
    }
}

/// What the session shows of a magnet link that was added: nothing is known of
/// its length. `category` and `tags` are in their normal form.
pub fn magnet_entry(
    plan: &MagnetPlan,
    save_path: Option<String>,
    download_dir: String,
    category: Option<String>,
    tags: Vec<String>,
) -> (r: ShownEntry)
    ensures
        r == (ShownEntry {
            name: plan.name,
            total_length: 0,
            amount_left: 0,
            state: plan.state,
            category,
            tags,
            save_path: chosen_directory(save_path, download_dir),
        }),
{
    ShownEntry {
        name: plan.name.clone(),
        total_length: 0,
        amount_left: 0,
        state: plan.state,
        category,
        tags,
        save_path: choose_directory(save_path, download_dir),
    }
}

/// Why a torrent was not added.
#[derive(Debug)]
pub enum AddFailure {
    /// What stood in the way, as it was reported.
    Reported(String),
    AlreadyAdded { info_hash: String },
    Capacity,
    LostPieceIndex,
    LostMetainfo,
    LostMagnetTask,
}

impl AddFailure {
    pub open spec fn text(self) -> Seq<char> {
        match self {
            AddFailure::Reported(e) => e@,
            AddFailure::AlreadyAdded { info_hash } => "torrent "@ + info_hash@ + " already added"@,
            AddFailure::Capacity => "torrent add preparation capacity exhausted"@,
            AddFailure::LostPieceIndex => "torrent add lost its piece-index memory reservation"@,
            AddFailure::LostMetainfo => "torrent add lost its metadata memory reservation"@,
            AddFailure::LostMagnetTask =>
                "magnet add lost its metadata task memory reservation"@,
        }
    }

    /// The reason in words.
    pub fn to_text(&self) -> (r: String)
        ensures
            r@ == self.text(),
    {
        match self {
            AddFailure::Reported(e) => e.clone(),
            AddFailure::AlreadyAdded { info_hash } => join3(
                "torrent ",
                info_hash.as_str(),
                " already added",
            ),
            AddFailure::Capacity => "torrent add preparation capacity exhausted".to_owned(),
            AddFailure::LostPieceIndex => {
                "torrent add lost its piece-index memory reservation".to_owned()
            },
            AddFailure::LostMetainfo => {
                "torrent add lost its metadata memory reservation".to_owned()
            },
            AddFailure::LostMagnetTask => {
                "magnet add lost its metadata task memory reservation".to_owned()
            },
        }
    }
}

/// Where a torrent is known already.
#[derive(Clone, Copy, Debug, PartialEq, Eq, Structural)]
pub struct Presence {
    pub has_task: bool,
    /// It is being added by another command.
    pub being_added: bool,
    /// The session shows it.
    pub shown: bool,
}

impl Presence {
    pub open spec fn known(self) -> bool {
        self.has_task || self.being_added || self.shown
    }

    /// Whether the torrent is known anywhere.
    pub fn is_known(&self) -> (r: bool)
        ensures
            r == self.known(),
    {
        self.has_task || self.being_added || self.shown
    }
}

/// Decides whether a torrent is prepared for being added: not where it is known
/// already, out of bounds, or no slot is left. `checked` is what is wrong with
/// it. It counts as being added exactly where it is prepared.
pub fn begin_torrent_add(
    info_hash: String,
    presence: Presence,
    checked: CmdResult<()>,
    slot: bool,
) -> (r: Result<(), AddFailure>)
    ensures
        if presence.known() {
            r == Err::<(), AddFailure>(AddFailure::AlreadyAdded { info_hash })
        } else {
            match checked {
                Err(e) => r == Err::<(), AddFailure>(AddFailure::Reported(e)),
                Ok(()) => if slot {
                    r is Ok
                } else {
                    r == Err::<(), AddFailure>(AddFailure::Capacity)
                },
            }
        },
{
    if presence.is_known() {
        return Err(AddFailure::AlreadyAdded { info_hash });
    }
    match checked {
        Err(e) => Err(AddFailure::Reported(e)),
        Ok(()) => if slot {
            Ok(())
        } else {
            Err(AddFailure::Capacity)
        },
    }
}

/// What is to be done next to add a torrent.
#[derive(Debug)]
pub enum AddAction {
    /// Get the memory for its piece index and its metainfo.
    Reserve,
    /// See where it is known already.
    LookUp,
    /// See that its save path lies below a storage root.
    Authorize,
    /// Show it in the session.
    Show { state: TorrentState },
    /// Store it.
    Persist,
    /// Start its task.
    Spawn { paused: bool, state: TorrentState, register_dht: bool },
    /// It was not added. Where `take_back` is set, it is taken out of the
    /// session again, with the torrent file that was written for it.
    Refuse { take_back: bool, why: AddFailure },
}

/// What came of an action.
#[derive(Debug)]
pub enum AddOutcome {
    Done,
    Failed(String),
    /// Where the torrent is known already.
    Presence { info_hash: String, presence: Presence },
    /// What memory could be had.
    Reserved { piece_index: bool, metainfo: bool },
}

/// How far adding a torrent has come.
#[derive(Clone, Copy, Debug, PartialEq, Eq, Structural)]
pub enum AddPhase {
    Reserving,
    LookingUp,
    Authorizing,
    Showing,
    Persisting,
    Over,
}

/// What is being added.
#[derive(Clone, Copy, Debug, PartialEq, Eq, Structural)]
pub enum Added {
    Torrent { private: bool },
    Magnet,
}

/// A torrent or a magnet link that is being added.
#[derive(Clone, Copy, Debug, PartialEq, Eq, Structural)]
pub struct TorrentAdd {
    pub added: Added,
    pub paused: bool,
    pub piece_index: bool,
    pub metainfo: bool,
    pub phase: AddPhase,
}

impl TorrentAdd {
    /// The state in which it is filed.
    pub open spec fn state(self) -> TorrentState {
        if self.paused {
            TorrentState::Paused
        } else if self.added is Magnet {
            TorrentState::MetadataPending
        } else {
            TorrentState::Downloading
        }
    }

    /// It is registered with the distributed hash table. A magnet link is,
    /// because only its metadata tells whether it is private.
    pub open spec fn registers_dht(self) -> bool {
        !self.paused && self.added != (Added::Torrent { private: true })
    }

    /// What follows once it is stored.
    pub open spec fn started(self) -> AddAction {
        if self.added is Magnet && !self.metainfo {
            AddAction::Refuse { take_back: false, why: AddFailure::LostMagnetTask }
        } else if self.added is Torrent && !self.piece_index {
            AddAction::Refuse { take_back: false, why: AddFailure::LostPieceIndex }
        } else if !self.metainfo {
            AddAction::Refuse { take_back: false, why: AddFailure::LostMetainfo }
        } else {
            AddAction::Spawn {
                paused: self.paused,
                state: self.state(),
                register_dht: self.registers_dht(),
            }
        }
    }
}

pub open spec fn refused(add: TorrentAdd, take_back: bool, why: AddFailure) -> (
    TorrentAdd,
    AddAction,
) {
    (TorrentAdd { phase: AddPhase::Over, ..add }, AddAction::Refuse { take_back, why })
}

/// The action after an outcome.
pub open spec fn add_step(add: TorrentAdd, outcome: AddOutcome) -> (TorrentAdd, AddAction) {
    match (add.phase, outcome) {
        (AddPhase::Reserving, AddOutcome::Reserved { piece_index, metainfo }) => (
            TorrentAdd { piece_index, metainfo, phase: AddPhase::LookingUp, ..add },
            AddAction::LookUp,
        ),
        (AddPhase::Reserving, AddOutcome::Failed(e)) => refused(add, false, AddFailure::Reported(e)),
        (AddPhase::LookingUp, AddOutcome::Presence { info_hash, presence }) =>
            if presence.known() {
            refused(add, false, AddFailure::AlreadyAdded { info_hash })
        } else {
            (TorrentAdd { phase: AddPhase::Authorizing, ..add }, AddAction::Authorize)
        },
        (AddPhase::Authorizing, AddOutcome::Failed(e)) => refused(
            add,
            false,
            AddFailure::Reported(e),
        ),
        (AddPhase::Authorizing, _) => (
            TorrentAdd { phase: AddPhase::Showing, ..add },
            AddAction::Show { state: add.state() },
        ),
        (AddPhase::Showing, AddOutcome::Failed(e)) => refused(add, false, AddFailure::Reported(e)),
        (AddPhase::Showing, _) => (
            TorrentAdd { phase: AddPhase::Persisting, ..add },
            AddAction::Persist,
        ),
        (AddPhase::Persisting, AddOutcome::Failed(e)) => refused(add, true, AddFailure::Reported(e)),
        (AddPhase::Persisting, _) => (TorrentAdd { phase: AddPhase::Over, ..add }, add.started()),
        (_, _) => refused(add, false, AddFailure::Capacity),
    }
}

impl TorrentAdd {
    /// Starts on a torrent or magnet link that is in bounds.
    pub fn begin(added: Added, paused: bool) -> (r: (Self, AddAction))
        ensures
            r.0 == (TorrentAdd {
                added,
                paused,
                piece_index: false,
                metainfo: false,
                phase: AddPhase::Reserving,
            }),
            r.1 is Reserve,
    {
        (
            TorrentAdd {
                added,
                paused,
                piece_index: false,
                metainfo: false,
                phase: AddPhase::Reserving,
            },
            AddAction::Reserve,
        )
    }

    fn file_state(&self) -> (r: TorrentState)
        ensures
            r == self.state(),
    {
        if self.paused {
            TorrentState::Paused
        } else {
            match self.added {
                Added::Magnet => TorrentState::MetadataPending,
                Added::Torrent { .. } => TorrentState::Downloading,
            }
        }
    }

    fn start(&self) -> (r: AddAction)
        ensures
            r == self.started(),
    {
        let (is_magnet, is_private) = match self.added {
            Added::Magnet => (true, false),
            Added::Torrent { private } => (false, private),
        };
        if is_magnet && !self.metainfo {
            AddAction::Refuse { take_back: false, why: AddFailure::LostMagnetTask }
        } else if !is_magnet && !self.piece_index {
            AddAction::Refuse { take_back: false, why: AddFailure::LostPieceIndex }
        } else if !self.metainfo {
            AddAction::Refuse { take_back: false, why: AddFailure::LostMetainfo }
        } else {
            AddAction::Spawn {
                paused: self.paused,
                state: self.file_state(),
                register_dht: !self.paused && !is_private,
            }
        }
    }

    /// Takes the outcome of the last action, and tells the next one.
    pub fn next(&mut self, outcome: AddOutcome) -> (r: AddAction)
        ensures
            (*final(self), r) == add_step(*old(self), outcome),
    {
        let phase = self.phase;
        self.phase = AddPhase::Over;
        match (phase, outcome) {
            (AddPhase::Reserving, AddOutcome::Reserved { piece_index, metainfo }) => {
                self.piece_index = piece_index;
                self.metainfo = metainfo;
                self.phase = AddPhase::LookingUp;
                AddAction::LookUp
            },
            (AddPhase::LookingUp, AddOutcome::Presence { info_hash, presence }) => {
                if presence.is_known() {
                    return AddAction::Refuse {
                        take_back: false,
                        why: AddFailure::AlreadyAdded { info_hash },
                    };
                }
                self.phase = AddPhase::Authorizing;
                AddAction::Authorize
            },
            (AddPhase::Reserving, AddOutcome::Failed(e))
            | (AddPhase::Authorizing, AddOutcome::Failed(e))
            | (AddPhase::Showing, AddOutcome::Failed(e)) => AddAction::Refuse {
                take_back: false,
                why: AddFailure::Reported(e),
            },
            (AddPhase::Authorizing, _) => {
                self.phase = AddPhase::Showing;
                AddAction::Show { state: self.file_state() }
            },
            (AddPhase::Showing, _) => {
                self.phase = AddPhase::Persisting;
                AddAction::Persist
            },
            (AddPhase::Persisting, AddOutcome::Failed(e)) => AddAction::Refuse {
                take_back: true,
                why: AddFailure::Reported(e),
            },
            (AddPhase::Persisting, _) => self.start(),
            (_, _) => AddAction::Refuse { take_back: false, why: AddFailure::Capacity },
        }
    }
}

/// A torrent that cannot be stored does not stay in the session, and nothing
/// else is ever taken back.
pub proof fn law_only_unstored_torrents_are_taken_back(add: TorrentAdd, outcome: AddOutcome)
    ensures
        add_step(add, outcome).1 matches AddAction::Refuse { take_back: true, .. } <==> add.phase
            == AddPhase::Persisting && outcome is Failed,
{
}

/// A private torrent is never registered with the distributed hash table, and
/// neither is one that was added paused.
pub proof fn law_private_torrents_stay_private(add: TorrentAdd, outcome: AddOutcome)
    ensures
        add_step(add, outcome).1 matches AddAction::Spawn { paused, register_dht, .. }
            ==> register_dht ==> !paused && add.added != (Added::Torrent { private: true }),
{
}

impl TorrentAdd {
    /// The addition after an outcome.
    pub open spec fn after(self, outcome: AddOutcome) -> TorrentAdd {
        add_step(self, outcome).0
    }

    /// The action that follows on an outcome.
    pub open spec fn told(self, outcome: AddOutcome) -> AddAction {
        add_step(self, outcome).1
    }
}

/// Whatever happens, what was asked for stays what it was, and the task and the
/// entry are as asked: paused exactly where that was asked for. Otherwise a
/// magnet link waits for its metadata and a torrent downloads, and both are
/// registered with the distributed hash table unless the torrent is private.
pub proof fn law_additions_are_as_asked(add: TorrentAdd, outcome: AddOutcome)
    ensures
        add.after(outcome).paused == add.paused,
        add.after(outcome).added == add.added,
        add.told(outcome) matches AddAction::Spawn { paused, state, register_dht } ==> {
            &&& paused == add.paused
            &&& paused <==> state == TorrentState::Paused
            &&& !paused && add.added is Magnet ==> state == TorrentState::MetadataPending
            &&& !paused && add.added is Torrent ==> state == TorrentState::Downloading
            &&& register_dht <==> !add.paused && add.added != (Added::Torrent { private: true })
        },
        add.told(outcome) matches AddAction::Show { state } ==> {
            &&& add.paused <==> state == TorrentState::Paused
            &&& !add.paused && add.added is Magnet ==> state == TorrentState::MetadataPending
            &&& !add.paused && add.added is Torrent ==> state == TorrentState::Downloading
        },
{
}

/// An addition against which nothing speaks is looked up, authorized, shown,
/// stored and started, in this order.
pub proof fn law_sound_additions_are_started(
    added: Added,
    paused: bool,
    info_hash: String,
    authorized: AddOutcome,
    shown: AddOutcome,
    stored: AddOutcome,
)
    requires
        !(authorized is Failed),
        !(shown is Failed),
        !(stored is Failed),
    ensures
        ({
            let reserved = AddOutcome::Reserved { piece_index: true, metainfo: true };
            let unknown = AddOutcome::Presence {
                info_hash,
                presence: Presence { has_task: false, being_added: false, shown: false },
            };
            let m0 = TorrentAdd {
                added,
                paused,
                piece_index: false,
                metainfo: false,
                phase: AddPhase::Reserving,
            };
            let m1 = m0.after(reserved);
            let m2 = m1.after(unknown);
            let m3 = m2.after(authorized);
            let m4 = m3.after(shown);
            &&& m0.told(reserved) is LookUp
            &&& m1.told(unknown) is Authorize
            &&& m2.told(authorized) is Show
            &&& m3.told(shown) is Persist
            &&& m4.told(stored) matches AddAction::Spawn { paused: p, .. } && p == paused
            &&& m4.after(stored).phase == AddPhase::Over
        }),
{
}

/// A torrent that has a task, is being added or is shown is not added again, and
/// one that none of this holds of is.
pub proof fn law_known_torrents_are_refused(
    add: TorrentAdd,
    info_hash: String,
    presence: Presence,
)
    requires
        add.phase == AddPhase::LookingUp,
    ensures
        ({
            let outcome = AddOutcome::Presence { info_hash, presence };
            if presence.has_task || presence.being_added || presence.shown {
                add.told(outcome) == (AddAction::Refuse {
                    take_back: false,
                    why: AddFailure::AlreadyAdded { info_hash },
                }) && add.after(outcome).phase == AddPhase::Over
            } else {
                add.told(outcome) is Authorize && add.after(outcome).phase == AddPhase::Authorizing
            }
        }),
{
}

/// What fails is told as it was reported, and is the end of the addition; only
/// what could not be stored is taken back.
pub proof fn law_failed_additions_are_told(add: TorrentAdd, error: String)
    requires
        add.phase == AddPhase::Reserving || add.phase == AddPhase::Authorizing || add.phase
            == AddPhase::Showing || add.phase == AddPhase::Persisting,
    ensures
        add.told(AddOutcome::Failed(error)) == (AddAction::Refuse {
            take_back: add.phase == AddPhase::Persisting,
            why: AddFailure::Reported(error),
        }),
        add.after(AddOutcome::Failed(error)).phase == AddPhase::Over,
{
}

/// Nothing is started without the memory that it needs, and the lack is told.
pub proof fn law_tasks_need_their_memory(add: TorrentAdd, stored: AddOutcome)
    requires
        add.phase == AddPhase::Persisting,
        !(stored is Failed),
    ensures
        ({
            let lost = |why: AddFailure| AddAction::Refuse { take_back: false, why };
            match add.added {
                Added::Magnet => if add.metainfo {
                    add.told(stored) is Spawn
                } else {
                    add.told(stored) == lost(AddFailure::LostMagnetTask)
                },
                Added::Torrent { .. } => if !add.piece_index {
                    add.told(stored) == lost(AddFailure::LostPieceIndex)
                } else if !add.metainfo {
                    add.told(stored) == lost(AddFailure::LostMetainfo)
                } else {
                    add.told(stored) is Spawn
                },
            }
        }),
{
}

/// The memory that was reserved is what the task is started with.
pub proof fn law_reservations_are_kept(add: TorrentAdd, outcome: AddOutcome)
    ensures
        match (add.phase, outcome) {
            (AddPhase::Reserving, AddOutcome::Reserved { piece_index, metainfo }) => add.after(
                outcome,
            ).piece_index == piece_index && add.after(outcome).metainfo == metainfo,
            _ => add.after(outcome).piece_index == add.piece_index && add.after(outcome).metainfo
                == add.metainfo,
        },
{
}

/// A magnet link is filed as paused where that is asked for, else as waiting for
/// its metadata, and lies where that is asked for, else with the downloads.
pub proof fn law_filing_follows_the_options(
    paused: bool,
    save_path: Option<String>,
    download_dir: String,
)
    ensures
        paused <==> magnet_state(paused) == TorrentState::Paused,
        !paused <==> magnet_state(paused) == TorrentState::MetadataPending,
        save_path is None ==> chosen_directory(save_path, download_dir) == download_dir,
        save_path matches Some(path) ==> chosen_directory(save_path, download_dir) == path,
{
}

/// A torrent is begun on exactly where nobody knows it, it passed its checks and a
/// slot is left; the first of these that fails is told.
pub proof fn law_only_new_torrents_are_begun_on(
    info_hash: String,
    presence: Presence,
    checked: CmdResult<()>,
    slot: bool,
    r: Result<(), AddFailure>,
)
    requires
        call_ensures(begin_torrent_add, (info_hash, presence, checked, slot), r),
    ensures
        ({
            let known = presence.has_task || presence.being_added || presence.shown;
            &&& r is Ok <==> !known && checked is Ok && slot
            &&& known ==> r == Err::<(), AddFailure>((AddFailure::AlreadyAdded { info_hash }))
            &&& !known ==> (checked matches Err(e) ==> r == Err::<(), AddFailure>(
                AddFailure::Reported(e),
            ))
            &&& !known && checked is Ok && !slot ==> r == Err::<(), AddFailure>(
                AddFailure::Capacity,
            )
        }),
{
}

/// An addition is paused exactly where that was asked for, and begins with the
/// memory that it needs.
pub proof fn law_additions_begin_as_asked(added: Added, paused: bool, r: (TorrentAdd, AddAction))
    requires
        call_ensures(TorrentAdd::begin, (added, paused), r),
    ensures
        r.0.added == added && r.0.paused == paused && r.0.phase == AddPhase::Reserving && r.1
            is Reserve,
        !r.0.piece_index && !r.0.metainfo,
{
}

/// What an addition waits for is what was last asked for, and it is over exactly when
/// it has been started or refused.
pub proof fn law_additions_wait_for_what_they_ask(add: TorrentAdd, outcome: AddOutcome)
    ensures
        ({
            let told = add.told(outcome);
            let after = add.after(outcome).phase;
            &&& told is Reserve <==> after is Reserving
            &&& told is LookUp <==> after is LookingUp
            &&& told is Authorize <==> after is Authorizing
            &&& told is Show <==> after is Showing
            &&& told is Persist <==> after is Persisting
            &&& after is Over <==> told is Spawn || told is Refuse
        }),
{
}

} // verus!
