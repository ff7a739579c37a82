//! The whole exchange with one peer that is to serve an info dictionary: the
//! handshakes, the dictionary piece after piece, and the piece layers that its
//! files need. What comes out is what was asked for, whatever the peer sends.

use vstd::prelude::*;

use crate::digest::{equal_bytes, hex_text, sha1_digest, sha256_digest};
use crate::merkle::{hash_views, padded, tree_root};
use crate::metadata_exchange::{
    accept_remote_handshake, check_fetched_metadata, fetched_problem,
    law_pieces_tile_the_dictionary, layer_bytes_total, layer_shape, metadata_fetch_bytes,
    piece_step, plan_piece_layers, remote_handshake_problem, run_step, Assembled, HashMessage,
    HashRequest, LayerFetch, LayerProgress, MetadataAssembly, PieceOutcome, RunOutcome,
    UtMetadataMessage, V2PieceLayerRequirement, MAX_METADATA_SIZE,
};
use crate::metadata_identity::{identity_problem, MetadataInfoHash};
use crate::problem::{CmdResult, Problem};
use crate::text::{decimal, decimal_text, join2, join3};
use crate::torrent_file::{layer_views, PieceLayer};

verus! {

/// What a peer says of itself in the first handshake.
#[derive(Clone, Copy, Debug)]
pub struct RemoteHandshake {
    pub info_hash: [u8; 20],
    /// It speaks the extension protocol.
    pub supports_extension: bool,
    /// It can serve piece layers.
    pub supports_v2: bool,
}

/// A message of the peer.
#[derive(Debug)]
pub enum FetchMessage {
    /// The handshake of the extension protocol.
    Handshake { ut_metadata_id: Option<u8>, metadata_size: Option<u32> },
    Metadata { ext_id: u8, message: UtMetadataMessage },
    Hash(HashMessage),
    Other,
}

/// The piece layers that a dictionary needs.
#[derive(Debug)]
pub struct LayerPlan {
    pub piece_length: u64,
    pub files: Vec<V2PieceLayerRequirement>,
}

/// What came of a step.
#[derive(Debug)]
pub enum FetchInput {
    Sent,
    /// The exchange broke off.
    Failed(String),
    /// The peer has closed the connection.
    Closed,
    Message(FetchMessage),
    Memory { granted: bool },
    /// Whether the dictionary is valid bencoding.
    Decoded { valid: bool },
    /// The layers that the dictionary needs, if it needs any; an error where
    /// its file tree is invalid.
    Layers(Result<Option<LayerPlan>, ()>),
}

/// What is to be done next.
#[derive(Debug)]
pub enum FetchStep {
    /// Send the handshake of the extension protocol.
    SendHandshake,
    /// Tell the peer that its pieces are wanted.
    SendInterested,
    Receive,
    /// Get memory.
    Reserve { bytes: u64 },
    /// Ask for a piece of the dictionary.
    RequestPiece { ext_id: u8, piece: u32 },
    /// Decode the dictionary.
    Decode,
    /// List the layers that the dictionary needs.
    ListLayers,
    RequestHashes(HashRequest),
    /// The dictionary and its layers are there.
    Done,
    Fail(String),
}

/// The layers of a dictionary, one after another.
pub struct LayerWork {
    pub metadata: Vec<u8>,
    pub piece_length: u64,
    pub files: Vec<V2PieceLayerRequirement>,
    /// The layers of the first files.
    pub layers: Vec<PieceLayer>,
}

/// How far the exchange has come.
pub enum FetchPhase {
    Greeting,
    Interesting,
    AwaitingHandshake,
    Reserving { ext_id: u8, size: u32 },
    Asking(MetadataAssembly),
    AwaitingPiece(MetadataAssembly),
    Decoding(Vec<u8>),
    Listing(Vec<u8>),
    Growing { work: LayerWork, bytes: u64 },
    AskingHashes { work: LayerWork, fetch: LayerFetch },
    AwaitingHashes { work: LayerWork, fetch: LayerFetch },
    Done(LayerWork),
    Over,
}

/// The exchange with one peer.
pub struct MetadataFetch {
    pub expected: MetadataInfoHash,
    pub supports_v2: bool,
    /// The address of the peer, as it is shown.
    pub addr: String,
    pub phase: FetchPhase,
}

/// The dictionary is the one that was asked for.
pub open spec fn authentic(metadata: Seq<u8>, expected: MetadataInfoHash) -> bool {
    identity_problem(sha1_digest(metadata), sha256_digest(metadata), expected) is None
}

/// The layer leads to the root of its file.
pub open spec fn layer_is_authentic(layer: PieceLayer, file: V2PieceLayerRequirement) -> bool {
    &&& layer.root@ == file.pieces_root@
    &&& layer.hashes@.len() == file.hash_count
    &&& tree_root(padded(hash_views(layer.hashes@))) == file.pieces_root@
}

impl LayerWork {
    /// The layers that are there are those of the first files.
    pub open spec fn valid(self, expected: MetadataInfoHash) -> bool {
        &&& authentic(self.metadata@, expected)
        &&& layer_bytes_total(self.files@) is Ok
        &&& self.layers@.len() <= self.files@.len()
        &&& forall|i: int|
            0 <= i < self.layers@.len() ==> layer_is_authentic(
                #[trigger] self.layers@[i],
                self.files@[i],
            )
    }
}

/// The layer of the next file is being fetched, and the next run can be asked
/// for.
pub open spec fn fetching(work: LayerWork, fetch: LayerFetch) -> bool {
    &&& work.layers@.len() < work.files@.len()
    &&& fetch.wf()
    &&& fetch@.requirement == work.files@[work.layers@.len() as int]
    &&& fetch@.piece_length == work.piece_length
    &&& !fetch@.complete()
    &&& fetch@.layer.len() <= u32::MAX
}

impl MetadataFetch {
    /// What holds in every phase.
    pub open spec fn wf(&self) -> bool {
        match self.phase {
            FetchPhase::Reserving { size, .. } => 0 < size <= MAX_METADATA_SIZE,
            FetchPhase::Asking(assembly) => assembly.wf() && !assembly@.complete(),
            FetchPhase::AwaitingPiece(assembly) => assembly.wf() && !assembly@.complete(),
            FetchPhase::Listing(metadata) => authentic(metadata@, self.expected),
            FetchPhase::Growing { work, .. } => work.valid(self.expected) && work.layers@.len()
                == 0,
            FetchPhase::AskingHashes { work, fetch } => work.valid(self.expected) && fetching(
                work,
                fetch,
            ),
            FetchPhase::AwaitingHashes { work, fetch } => work.valid(self.expected) && fetching(
                work,
                fetch,
            ),
            FetchPhase::Done(work) => work.valid(self.expected) && work.layers@.len()
                == work.files@.len(),
            _ => true,
        }
    }

    /// It is about the same dictionary and the same peer.
    pub open spec fn same_exchange(self, other: MetadataFetch) -> bool {
        &&& self.expected == other.expected
        &&& self.supports_v2 == other.supports_v2
        &&& self.addr == other.addr
    }
}

/// The exchange has failed for this reason.
pub open spec fn fails(after: FetchPhase, step: FetchStep, text: Seq<char>) -> bool {
    after is Over && (step matches FetchStep::Fail(e) && e@ == text)
}

/// What is wrong with the first handshake of a peer.
pub open spec fn first_handshake_problem(
    expected: MetadataInfoHash,
    addr: Seq<char>,
    remote: RemoteHandshake,
) -> Problem {
    if remote.info_hash@ != expected.wire() {
        Some("info_hash mismatch from "@ + addr)
    } else if !remote.supports_extension {
        Some("peer does not support BEP 10"@)
    } else {
        None
    }
}

/// The next piece of the dictionary is asked for, or it is decoded.
pub open spec fn after_piece(assembled: Assembled, after: FetchPhase, step: FetchStep) -> bool {
    if assembled.complete() {
        after matches FetchPhase::Decoding(metadata) && metadata@ == assembled.bytes && step
            is Decode
    } else {
        after matches FetchPhase::Asking(assembly) && assembly@ == assembled && step == (
        FetchStep::RequestPiece {
            ext_id: assembled.remote_ext_id,
            piece: assembled.next_piece as u32,
        })
    }
}

/// What is known of the layers of a dictionary, as a mathematical value.
pub struct LayersSoFar {
    pub metadata: Seq<u8>,
    pub piece_length: u64,
    pub files: Seq<V2PieceLayerRequirement>,
    pub layers: Seq<(Seq<u8>, Seq<[u8; 32]>)>,
}

impl LayerWork {
    pub open spec fn so_far(self) -> LayersSoFar {
        LayersSoFar {
            metadata: self.metadata@,
            piece_length: self.piece_length,
            files: self.files@,
            layers: layer_views(self.layers@),
        }
    }
}

/// The layer of the next file is begun, or all is there.
pub open spec fn next_layer(known: LayersSoFar, after: FetchPhase, step: FetchStep) -> bool {
    if known.layers.len() == known.files.len() {
        &&& after matches FetchPhase::Done(work) && work.so_far() == known
        &&& step is Done
    } else {
        let file = known.files[known.layers.len() as int];
        match layer_shape(file, known.piece_length) {
            Err(text) => fails(after, step, text),
            Ok(shape) => {
                let begun = LayerProgress {
                    requirement: file,
                    piece_length: known.piece_length,
                    shape,
                    layer: seq![],
                };
                &&& after matches FetchPhase::AskingHashes { work, fetch } && work.so_far()
                    == known && fetch@ == begun
                &&& step == FetchStep::RequestHashes(begun.request())
            },
        }
    }
}

/// What follows after a run of hashes was taken: the next run is asked for, or
/// the layer is accepted and the next one begun.
pub open spec fn after_run(
    known: LayersSoFar,
    progress: LayerProgress,
    after: FetchPhase,
    step: FetchStep,
) -> bool {
    let root = progress.requirement.pieces_root@;
    if !progress.complete() {
        if progress.layer.len() > u32::MAX {
            fails(after, step, "v2 piece-layer request index overflowed"@)
        } else {
            &&& after matches FetchPhase::AskingHashes { work, fetch } && work.so_far() == known
                && fetch@ == progress
            &&& step == FetchStep::RequestHashes(progress.request())
        }
    } else if tree_root(padded(hash_views(progress.layer))) == root {
        next_layer(
            LayersSoFar { layers: known.layers.push((root, progress.layer)), ..known },
            after,
            step,
        )
    } else {
        fails(
            after,
            step,
            "v2 piece layer for "@ + hex_text(root) + " does not reconstruct its pieces root"@,
        )
    }
}

/// Nothing has changed: the peer is listened to.
pub open spec fn listens(before: FetchPhase, after: FetchPhase, step: FetchStep) -> bool {
    after == before && step is Receive
}

/// What an input brings about.
pub open spec fn fetch_relation(
    before: MetadataFetch,
    input: FetchInput,
    after: FetchPhase,
    step: FetchStep,
) -> bool {
    match (before.phase, input) {
        (_, FetchInput::Failed(e)) => after is Over && step == FetchStep::Fail(e),
        (FetchPhase::Greeting, FetchInput::Sent) => after is Interesting && step is SendInterested,
        (FetchPhase::Interesting, FetchInput::Sent) => after is AwaitingHandshake && step
            is Receive,
        (FetchPhase::AwaitingHandshake, FetchInput::Closed) => fails(
            after,
            step,
            "peer closed before extension handshake"@,
        ),
        (
            FetchPhase::AwaitingHandshake,
            FetchInput::Message(FetchMessage::Handshake { ut_metadata_id, metadata_size }),
        ) => match remote_handshake_problem(ut_metadata_id, metadata_size, before.addr@) {
            Some(text) => fails(after, step, text),
            None => {
                let size = metadata_size->0;
                &&& after == (FetchPhase::Reserving { ext_id: ut_metadata_id->0, size })
                &&& step == (FetchStep::Reserve { bytes: (2 * size) as u64 })
            },
        },
        (FetchPhase::Reserving { ext_id, size }, FetchInput::Memory { granted }) => if granted {
            &&& after matches FetchPhase::Asking(assembly) && assembly@ == (Assembled {
                remote_ext_id: ext_id,
                size: size as nat,
                next_piece: 0,
                bytes: seq![],
            })
            &&& step == (FetchStep::RequestPiece { ext_id, piece: 0 })
        } else {
            fails(
                after,
                step,
                "metadata allocation of "@ + decimal((2 * size) as nat) + " bytes denied"@,
            )
        },
        (FetchPhase::Asking(assembly), FetchInput::Sent) => after
            == FetchPhase::AwaitingPiece(assembly) && step is Receive,
        (FetchPhase::AwaitingPiece(_), FetchInput::Closed) => fails(
            after,
            step,
            "peer closed during metadata transfer"@,
        ),
        (
            FetchPhase::AwaitingPiece(assembly),
            FetchInput::Message(FetchMessage::Metadata { ext_id, message }),
        ) => exists|r: CmdResult<PieceOutcome>, assembled: Assembled|
            {
                &&& #[trigger] piece_step(assembly@, ext_id, message, r, assembled)
                &&& match r {
                    Err(e) => after is Over && step == FetchStep::Fail(e),
                    Ok(PieceOutcome::Ignored) => {
                        &&& after matches FetchPhase::AwaitingPiece(same) && same@ == assembled
                        &&& step is Receive
                    },
                    Ok(PieceOutcome::Taken) => after_piece(assembled, after, step),
                }
            },
        (FetchPhase::Decoding(metadata), FetchInput::Decoded { valid }) => match fetched_problem(
            valid,
            identity_problem(
                sha1_digest(metadata@),
                sha256_digest(metadata@),
                before.expected,
            ),
            before.expected,
            before.supports_v2,
        ) {
            Some(text) => fails(after, step, text),
            None => after == FetchPhase::Listing(metadata) && step is ListLayers,
        },
        (FetchPhase::Listing(metadata), FetchInput::Layers(Err(()))) => fails(
            after,
            step,
            "fetched metadata has an invalid v2 file tree"@,
        ),
        (FetchPhase::Listing(metadata), FetchInput::Layers(Ok(None))) => {
            &&& after matches FetchPhase::Done(work) && work.so_far() == (LayersSoFar {
                metadata: metadata@,
                piece_length: 0,
                files: seq![],
                layers: seq![],
            })
            &&& step is Done
        },
        (FetchPhase::Listing(metadata), FetchInput::Layers(Ok(Some(plan)))) => if plan.files@.len()
            > 0 && !before.supports_v2 {
            fails(after, step, "peer does not advertise BEP 52 support for piece layers"@)
        } else {
            match layer_bytes_total(plan.files@) {
                Err(text) => fails(after, step, text),
                Ok(total) => {
                    &&& after matches FetchPhase::Growing { work, bytes } && work.so_far() == (
                    LayersSoFar {
                        metadata: metadata@,
                        piece_length: plan.piece_length,
                        files: plan.files@,
                        layers: seq![],
                    }) && bytes == 2 * total
                    &&& step == (FetchStep::Reserve { bytes: (2 * total) as u64 })
                },
            }
        },
        (FetchPhase::Growing { work, bytes }, FetchInput::Memory { granted }) => if granted {
            next_layer(work.so_far(), after, step)
        } else {
            fails(
                after,
                step,
                "v2 piece-layer allocation of "@ + decimal(bytes as nat) + " bytes denied"@,
            )
        },
        (FetchPhase::AskingHashes { work, fetch }, FetchInput::Sent) => after == (
        FetchPhase::AwaitingHashes { work, fetch }) && step is Receive,
        (FetchPhase::AwaitingHashes { .. }, FetchInput::Closed) => fails(
            after,
            step,
            "peer closed during v2 piece-layer transfer"@,
        ),
        (
            FetchPhase::AwaitingHashes { work, fetch },
            FetchInput::Message(FetchMessage::Hash(message)),
        ) => exists|r: CmdResult<RunOutcome>, progress: LayerProgress|
            {
                &&& #[trigger] run_step(fetch@, before.addr@, message, r, progress)
                &&& match r {
                    Err(e) => after is Over && step == FetchStep::Fail(e),
                    Ok(RunOutcome::Ignored) => {
                        &&& after matches FetchPhase::AwaitingHashes { work: w, fetch: f }
                            && w.so_far() == work.so_far() && f@ == progress
                        &&& step is Receive
                    },
                    Ok(RunOutcome::Taken) => after_run(work.so_far(), progress, after, step),
                }
            },
        (_, _) => listens(before.phase, after, step),
    }
}

fn failed(text: &str) -> (r: (FetchPhase, FetchStep))
    ensures
        fails(r.0, r.1, text@),
{
    (FetchPhase::Over, FetchStep::Fail(text.to_owned()))
}

fn begin_layer(work: LayerWork, expected: MetadataInfoHash) -> (r: (FetchPhase, FetchStep))
    requires
        work.valid(expected),
    ensures
        next_layer(work.so_far(), r.0, r.1),
        match r.0 {
            FetchPhase::AskingHashes { work: w, fetch } => w.valid(expected) && fetching(w, fetch),
            FetchPhase::Done(w) => w.valid(expected) && w.layers@.len() == w.files@.len(),
            FetchPhase::Over => true,
            _ => false,
        },
{
    let n: usize = work.layers.len();
    if n == work.files.len() {
        return (FetchPhase::Done(work), FetchStep::Done);
    }
    let file = work.files[n];
    let fetch = match LayerFetch::begin(file, work.piece_length) {
        Ok(fetch) => fetch,
        Err(e) => {
            return (FetchPhase::Over, FetchStep::Fail(e));
        },
    };
    match fetch.next_request() {
        Ok(Some(request)) => (
            FetchPhase::AskingHashes { work, fetch },
            FetchStep::RequestHashes(request),
        ),
        _ => {
            assert(false);
            failed("")
        },
    }
}

fn continue_layer(work: LayerWork, fetch: LayerFetch, expected: MetadataInfoHash) -> (r: (
    FetchPhase,
    FetchStep,
))
    requires
        work.valid(expected),
        work.layers@.len() < work.files@.len(),
        fetch.wf(),
        fetch@.requirement == work.files@[work.layers@.len() as int],
        fetch@.piece_length == work.piece_length,
    ensures
        after_run(work.so_far(), fetch@, r.0, r.1),
        match r.0 {
            FetchPhase::AskingHashes { work: w, fetch: f } => w.valid(expected) && fetching(w, f),
            FetchPhase::Done(w) => w.valid(expected) && w.layers@.len() == w.files@.len(),
            FetchPhase::Over => true,
            _ => false,
        },
{
    match fetch.next_request() {
        Err(e) => (FetchPhase::Over, FetchStep::Fail(e)),
        Ok(Some(request)) => (
            FetchPhase::AskingHashes { work, fetch },
            FetchStep::RequestHashes(request),
        ),
        Ok(None) => {
            let n: usize = work.layers.len();
            let root = work.files[n].pieces_root;
            let ghost progress = fetch@;
            match fetch.finish() {
                Err(e) => (FetchPhase::Over, FetchStep::Fail(e)),
                Ok(hashes) => {
                    let ghost before = work.layers@;
                    let mut work = work;
                    work.layers.push(PieceLayer { root, hashes });
                    proof {
                        assert(layer_views(work.layers@) =~= layer_views(before).push(
                            (root@, progress.layer),
                        ));
                    }
                    begin_layer(work, expected)
                },
            }
        },
    }
}

fn continue_pieces(assembly: MetadataAssembly) -> (r: (FetchPhase, FetchStep))
    requires
        assembly.wf(),
    ensures
        after_piece(assembly@, r.0, r.1),
        match r.0 {
            FetchPhase::Asking(a) => a.wf() && !a@.complete(),
            FetchPhase::Decoding(_) => true,
            _ => false,
        },
{
    match assembly.next_request() {
        Some(piece) => {
            let ext_id = assembly.ext_id();
            (FetchPhase::Asking(assembly), FetchStep::RequestPiece { ext_id, piece })
        },
        None => (FetchPhase::Decoding(assembly.into_bytes()), FetchStep::Decode),
    }
}

impl MetadataFetch {
    /// Starts on a peer whose first handshake has come in.
    pub fn begin(expected: MetadataInfoHash, addr: String, remote: RemoteHandshake) -> (r: (
        Self,
        FetchStep,
    ))
        ensures
            r.0.wf(),
            r.0.expected == expected,
            r.0.supports_v2 == remote.supports_v2,
            r.0.addr == addr,
            match first_handshake_problem(expected, addr@, remote) {
                Some(text) => fails(r.0.phase, r.1, text),
                None => r.0.phase is Greeting && r.1 is SendHandshake,
            },
    {
        let wire = expected.wire_hash();
        let (phase, step) = if !equal_bytes(remote.info_hash.as_slice(), wire.as_slice()) {
            (
                FetchPhase::Over,
                FetchStep::Fail(join2("info_hash mismatch from ", addr.as_str())),
            )
        } else if !remote.supports_extension {
            failed("peer does not support BEP 10")
        } else {
            (FetchPhase::Greeting, FetchStep::SendHandshake)
        };
        (MetadataFetch { expected, supports_v2: remote.supports_v2, addr, phase }, step)
    }

    /// Takes what came of the last step, and tells the next one.
    pub fn next(self, input: FetchInput) -> (r: (Self, FetchStep))
        requires
            self.wf(),
        ensures
            r.0.wf(),
            r.0.same_exchange(self),
            fetch_relation(self, input, r.0.phase, r.1),
    {
        let expected = self.expected;
        let supports_v2 = self.supports_v2;
        let addr = self.addr;
        let (phase, step) = match (self.phase, input) {
            (_, FetchInput::Failed(e)) => (FetchPhase::Over, FetchStep::Fail(e)),
            (FetchPhase::Greeting, FetchInput::Sent) => (
                FetchPhase::Interesting,
                FetchStep::SendInterested,
            ),
            (FetchPhase::Interesting, FetchInput::Sent) => (
                FetchPhase::AwaitingHandshake,
                FetchStep::Receive,
            ),
            (FetchPhase::AwaitingHandshake, FetchInput::Closed) => failed(
                "peer closed before extension handshake",
            ),
            (
                FetchPhase::AwaitingHandshake,
                FetchInput::Message(FetchMessage::Handshake { ut_metadata_id, metadata_size }),
            ) => match accept_remote_handshake(ut_metadata_id, metadata_size, addr.as_str()) {
                Err(e) => (FetchPhase::Over, FetchStep::Fail(e)),
                Ok((ext_id, size)) => (
                    FetchPhase::Reserving { ext_id, size },
                    FetchStep::Reserve { bytes: metadata_fetch_bytes(size) },
                ),
            },
            (FetchPhase::Reserving { ext_id, size }, FetchInput::Memory { granted }) => {
                if granted {
                    (
                        FetchPhase::Asking(MetadataAssembly::new(ext_id, size)),
                        FetchStep::RequestPiece { ext_id, piece: 0 },
                    )
                } else {
                    let bytes = decimal_text(metadata_fetch_bytes(size));
                    (
                        FetchPhase::Over,
                        FetchStep::Fail(
                            join3("metadata allocation of ", bytes.as_str(), " bytes denied"),
                        ),
                    )
                }
            },
            (FetchPhase::Asking(assembly), FetchInput::Sent) => (
                FetchPhase::AwaitingPiece(assembly),
                FetchStep::Receive,
            ),
            (FetchPhase::AwaitingPiece(_), FetchInput::Closed) => failed(
                "peer closed during metadata transfer",
            ),
            (
                FetchPhase::AwaitingPiece(assembly),
                FetchInput::Message(FetchMessage::Metadata { ext_id, message }),
            ) => {
                let mut assembly = assembly;
                match assembly.on_message(ext_id, message) {
                    Err(e) => (FetchPhase::Over, FetchStep::Fail(e)),
                    Ok(PieceOutcome::Ignored) => (
                        FetchPhase::AwaitingPiece(assembly),
                        FetchStep::Receive,
                    ),
                    Ok(PieceOutcome::Taken) => continue_pieces(assembly),
                }
            },
            (FetchPhase::Decoding(metadata), FetchInput::Decoded { valid }) => {
                match check_fetched_metadata(metadata.as_slice(), valid, expected, supports_v2) {
                    Err(e) => (FetchPhase::Over, FetchStep::Fail(e)),
                    Ok(()) => (FetchPhase::Listing(metadata), FetchStep::ListLayers),
                }
            },
            (FetchPhase::Listing(_), FetchInput::Layers(Err(()))) => failed(
                "fetched metadata has an invalid v2 file tree",
            ),
            (FetchPhase::Listing(metadata), FetchInput::Layers(Ok(None))) => {
                let layers: Vec<PieceLayer> = Vec::new();
                assert(layer_views(layers@) =~= seq![]);
                let work = LayerWork { metadata, piece_length: 0, files: Vec::new(), layers };
                assert(work.files@ =~= seq![]);
                (FetchPhase::Done(work), FetchStep::Done)
            },
            (FetchPhase::Listing(metadata), FetchInput::Layers(Ok(Some(plan)))) => {
                match plan_piece_layers(plan.files.as_slice(), supports_v2) {
                    Err(e) => (FetchPhase::Over, FetchStep::Fail(e)),
                    Ok(bytes) => {
                        let layers: Vec<PieceLayer> = Vec::new();
                        assert(layer_views(layers@) =~= seq![]);
                        let work = LayerWork {
                            metadata,
                            piece_length: plan.piece_length,
                            files: plan.files,
                            layers,
                        };
                        (FetchPhase::Growing { work, bytes }, FetchStep::Reserve { bytes })
                    },
                }
            },
            (FetchPhase::Growing { work, bytes }, FetchInput::Memory { granted }) => {
                if granted {
                    begin_layer(work, expected)
                } else {
                    let bytes = decimal_text(bytes);
                    (
                        FetchPhase::Over,
                        FetchStep::Fail(
                            join3("v2 piece-layer allocation of ", bytes.as_str(), " bytes denied"),
                        ),
                    )
                }
            },
            (FetchPhase::AskingHashes { work, fetch }, FetchInput::Sent) => (
                FetchPhase::AwaitingHashes { work, fetch },
                FetchStep::Receive,
            ),
            (FetchPhase::AwaitingHashes { .. }, FetchInput::Closed) => failed(
                "peer closed during v2 piece-layer transfer",
            ),
            (
                FetchPhase::AwaitingHashes { work, fetch },
                FetchInput::Message(FetchMessage::Hash(message)),
            ) => {
                let mut fetch = fetch;
                match fetch.on_message(addr.as_str(), message) {
                    Err(e) => (FetchPhase::Over, FetchStep::Fail(e)),
                    Ok(RunOutcome::Ignored) => (
                        FetchPhase::AwaitingHashes { work, fetch },
                        FetchStep::Receive,
                    ),
                    Ok(RunOutcome::Taken) => continue_layer(work, fetch, expected),
                }
            },
            (phase, _) => (phase, FetchStep::Receive),
        };
        (MetadataFetch { expected, supports_v2, addr, phase }, step)
    }

    /// The dictionary and its layers, once they are there.
    pub fn into_metadata(self) -> (r: Option<(Vec<u8>, Vec<PieceLayer>)>)
        ensures
            match self.phase {
                FetchPhase::Done(work) => r == Some((work.metadata, work.layers)),
                _ => r is None,
            },
    {
        match self.phase {
            FetchPhase::Done(work) => Some((work.metadata, work.layers)),
            _ => None,
        }
    }
}

/// What an exchange hands over is the dictionary that was asked for, with the
/// layers of its files, whatever the peer has sent.
pub proof fn law_only_authentic_metadata_is_handed_over(fetch: MetadataFetch)
    requires
        fetch.wf(),
        fetch.phase is Done,
    ensures
        ({
            let work = fetch.phase->Done_0;
            &&& match fetch.expected {
                MetadataInfoHash::V1(v1) => sha1_digest(work.metadata@) == v1@,
                MetadataInfoHash::V2(v2) => sha256_digest(work.metadata@) == v2@,
                MetadataInfoHash::Hybrid { v1, v2 } => sha1_digest(work.metadata@) == v1@
                    && sha256_digest(work.metadata@) == v2@,
            }
            &&& work.layers@.len() == work.files@.len()
            &&& forall|i: int|
                0 <= i < work.layers@.len() ==> layer_is_authentic(
                    #[trigger] work.layers@[i],
                    work.files@[i],
                )
        }),
{
}

/// An exchange that breaks off fails for the reason that is told, one whose peer
/// goes away while it is waited for or for which there is no memory fails too, and
/// after a failure nothing is asked for any more.
pub proof fn law_broken_exchanges_are_over(
    before: MetadataFetch,
    input: FetchInput,
    after: FetchPhase,
    step: FetchStep,
)
    requires
        fetch_relation(before, input, after, step),
    ensures
        input matches FetchInput::Failed(e) ==> after is Over && step == FetchStep::Fail(e),
        input is Closed && (before.phase is AwaitingHandshake || before.phase is AwaitingPiece
            || before.phase is AwaitingHashes) ==> after is Over && step is Fail,
        input == (FetchInput::Memory { granted: false }) && (before.phase is Reserving
            || before.phase is Growing) ==> after is Over && step is Fail,
        input == (FetchInput::Decoded { valid: false }) && before.phase is Decoding ==> after
            is Over && step is Fail,
        input == FetchInput::Layers(Err(())) && before.phase is Listing ==> after is Over && step
            is Fail,
        before.phase is Over ==> after is Over && (step is Receive || step is Fail),
        before.phase is Done ==> after is Done && step is Receive || after is Over && step is Fail,
        step is Fail <==> after is Over && (input is Failed || !(before.phase is Over)),
{
}

/// A peer is greeted, told that its pieces are wanted, and listened to; when it has
/// said what it can serve, memory for twice the dictionary is got, and then the
/// first piece is asked for under the number that the peer gave.
pub proof fn law_exchanges_begin_in_order(
    before: MetadataFetch,
    input: FetchInput,
    after: FetchPhase,
    step: FetchStep,
)
    requires
        fetch_relation(before, input, after, step),
    ensures
        before.phase is Greeting && input is Sent ==> after is Interesting && step
            is SendInterested,
        before.phase is Interesting && input is Sent ==> after is AwaitingHandshake && step
            is Receive,
        before.phase is AwaitingHandshake ==> (input matches FetchInput::Message(
            FetchMessage::Handshake { ut_metadata_id: Some(id), metadata_size: Some(n) },
        ) ==> if 1 <= n <= 16_777_216 {
            &&& after == (FetchPhase::Reserving { ext_id: id, size: n })
            &&& step matches FetchStep::Reserve { bytes } && bytes == n + n
        } else {
            after is Over && step is Fail
        }),
        before.phase is AwaitingHandshake ==> (input matches FetchInput::Message(
            FetchMessage::Handshake { ut_metadata_id, metadata_size },
        ) ==> (ut_metadata_id is None || metadata_size is None ==> after is Over && step is Fail)),
        input == (FetchInput::Memory { granted: true }) ==> (before.phase matches
            FetchPhase::Reserving { ext_id, size } ==> {
            &&& step == (FetchStep::RequestPiece { ext_id, piece: 0 })
            &&& after matches FetchPhase::Asking(assembly) && assembly@.size == size
                && assembly@.remote_ext_id == ext_id && assembly@.next_piece == 0
                && assembly@.bytes.len() == 0
        }),
        input is Sent ==> (before.phase matches FetchPhase::Asking(assembly) ==> after
            == FetchPhase::AwaitingPiece(assembly) && step is Receive),
{
}

/// The awaited piece is followed by the request for the next one, under the same
/// number, or, where it was the last, by decoding all pieces in their order.
pub proof fn law_pieces_are_asked_for_in_order(
    before: MetadataFetch,
    piece: u32,
    total_size: u32,
    data: Vec<u8>,
    after: FetchPhase,
    step: FetchStep,
)
    requires
        before.wf(),
        before.phase is AwaitingPiece,
        fetch_relation(
            before,
            FetchInput::Message(
                FetchMessage::Metadata {
                    ext_id: 1,
                    message: UtMetadataMessage::Data { piece, total_size, data },
                },
            ),
            after,
            step,
        ),
    ensures
        before.phase matches FetchPhase::AwaitingPiece(assembly) ==> {
            let known = assembly@;
            let fits = piece * 16_384 + data@.len() <= known.size && (data@.len() == 16_384
                || data@.len() < 16_384 && piece * 16_384 + data@.len() == known.size);
            if piece != known.next_piece {
                step is Receive
            } else if total_size != known.size || !fits {
                after is Over && step is Fail
            } else if known.bytes.len() + data@.len() == known.size {
                &&& step is Decode
                &&& after matches FetchPhase::Decoding(metadata) && metadata@ == known.bytes
                    + data@
            } else {
                step == (FetchStep::RequestPiece {
                    ext_id: known.remote_ext_id,
                    piece: (known.next_piece + 1) as u32,
                })
            }
        },
{
    if let FetchPhase::AwaitingPiece(assembly) = before.phase {
        let known = assembly@;
        let n = known.next_piece;
        assert(n * 16_384 < known.size) by (nonlinear_arith)
            requires
                n < (known.size + 16_384 - 1) / 16_384,
        ;
        assert(n * 16_384 + 16_384 < known.size ==> n + 1 < (known.size + 16_384 - 1) / 16_384)
            by (nonlinear_arith);
        assert(n * 16_384 + 16_384 >= known.size ==> n + 1 >= (known.size + 16_384 - 1) / 16_384)
            by (nonlinear_arith);
        law_pieces_tile_the_dictionary(piece, known.size as u32, total_size, data@.len());
    }
}

/// A dictionary is gone on with only where it is well-formed and is the one that was
/// asked for; its layers are fetched only from a peer that can serve them.
pub proof fn law_only_wanted_dictionaries_are_gone_on_with(
    before: MetadataFetch,
    valid: bool,
    after: FetchPhase,
    step: FetchStep,
)
    requires
        before.phase is Decoding,
        fetch_relation(before, FetchInput::Decoded { valid }, after, step),
    ensures
        before.phase matches FetchPhase::Decoding(metadata) ==> {
            let wanted = match before.expected {
                MetadataInfoHash::V1(v1) => sha1_digest(metadata@) == v1@,
                MetadataInfoHash::V2(v2) => sha256_digest(metadata@) == v2@ && before.supports_v2,
                MetadataInfoHash::Hybrid { v1, v2 } => sha1_digest(metadata@) == v1@
                    && sha256_digest(metadata@) == v2@,
            };
            if valid && wanted {
                after == FetchPhase::Listing(metadata) && step is ListLayers
            } else {
                after is Over && step is Fail
            }
        },
{
}

/// A dictionary without layers is done at once; for one with layers memory for twice
/// their size is got first, and then the first hashes of its first file are asked
/// for.
pub proof fn law_layers_are_fetched_after_the_dictionary(
    before: MetadataFetch,
    input: FetchInput,
    after: FetchPhase,
    step: FetchStep,
)
    requires
        before.wf(),
        fetch_relation(before, input, after, step),
    ensures
        before.phase matches FetchPhase::Listing(metadata) ==> {
            &&& input == FetchInput::Layers(Ok(None)) ==> step is Done && (after matches
                FetchPhase::Done(work) && work.metadata@ == metadata@ && work.layers@.len() == 0)
            &&& input matches FetchInput::Layers(Ok(Some(plan))) ==> {
                &&& !before.supports_v2 && plan.files@.len() > 0 ==> after is Over
                &&& layer_bytes_total(plan.files@) is Err ==> after is Over
                &&& before.supports_v2 ==> (layer_bytes_total(plan.files@) matches Ok(total) ==> (
                step matches FetchStep::Reserve { bytes } && bytes == total + total && (
                after matches FetchPhase::Growing { work, .. } && work.files@ == plan.files@
                    && work.piece_length == plan.piece_length && work.metadata@ == metadata@)))
            }
        },
        input == (FetchInput::Memory { granted: true }) ==> (before.phase matches
            FetchPhase::Growing { work, bytes } ==> {
            &&& work.files@.len() == 0 ==> step is Done && after is Done
            &&& work.files@.len() > 0 && layer_shape(work.files@[0], work.piece_length) is Ok ==> (
            step matches FetchStep::RequestHashes(request) && request.index == 0
                && request.pieces_root == work.files@[0].pieces_root)
            &&& work.files@.len() > 0 && layer_shape(work.files@[0], work.piece_length) is Err
                ==> after is Over && step is Fail
        }),
{
    if let FetchPhase::Done(work) = after {
        assert(layer_views(work.layers@).len() == work.layers@.len());
    }
}

/// When all hashes of a file are there and lead to its root, they are kept as the
/// layer of that file, and the next file is begun or the exchange done; where they do
/// not, the exchange fails.
pub proof fn law_layers_are_kept_file_by_file(
    known: LayersSoFar,
    progress: LayerProgress,
    after: FetchPhase,
    step: FetchStep,
)
    requires
        after_run(known, progress, after, step),
        known.layers.len() < known.files.len(),
    ensures
        ({
            let n = known.layers.len() as int;
            let root = progress.requirement.pieces_root@;
            let whole = progress.layer.len() == progress.requirement.hash_count;
            let genuine = tree_root(padded(hash_views(progress.layer))) == root;
            &&& whole && !genuine ==> after is Over && step is Fail
            &&& whole && genuine && n + 1 == known.files.len() ==> step is Done && (after matches
                FetchPhase::Done(work) && work.metadata@ == known.metadata && layer_views(
                work.layers@,
            ) == known.layers.push((root, progress.layer)))
            &&& whole && genuine && n + 1 < known.files.len() && layer_shape(
                known.files[n + 1],
                known.piece_length,
            ) is Ok ==> (step matches FetchStep::RequestHashes(request) && request.index == 0
                && request.pieces_root == known.files[n + 1].pieces_root)
            &&& !whole && progress.layer.len() <= u32::MAX ==> (step matches
                FetchStep::RequestHashes(request) && request.index == progress.layer.len()
                && request.pieces_root == progress.requirement.pieces_root)
        }),
{
}

/// Only a peer that has the torrent and speaks the extension protocol is asked, and
/// the torrent is known to it by its v1 hash where it has one.
pub proof fn law_only_fitting_peers_are_asked(
    expected: MetadataInfoHash,
    addr: Seq<char>,
    remote: RemoteHandshake,
)
    ensures
        first_handshake_problem(expected, addr, remote) is None <==> remote.supports_extension
            && match expected {
            MetadataInfoHash::V1(v1) => remote.info_hash@ == v1@,
            MetadataInfoHash::V2(v2) => remote.info_hash@ == v2@.subrange(0, 20),
            MetadataInfoHash::Hybrid { v1, .. } => remote.info_hash@ == v1@,
        },
{
}

/// Nothing is handed over before all is there.
pub proof fn law_only_finished_exchanges_hand_over(
    fetch: MetadataFetch,
    r: Option<(Vec<u8>, Vec<PieceLayer>)>,
)
    requires
        call_ensures(MetadataFetch::into_metadata, (fetch,), r),
    ensures
        r is Some <==> fetch.phase is Done,
        r matches Some((metadata, layers)) ==> (fetch.phase matches FetchPhase::Done(work)
            && work.metadata == metadata && work.layers == layers),
{
}

} // verus!
