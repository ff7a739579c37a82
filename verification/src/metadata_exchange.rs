//! Fetching an info dictionary and its piece layers from a peer: which
//! requests are made, and which answers are believed.

use vstd::prelude::*;

use crate::digest::{equal_bytes, hex_encode, hex_text};
use crate::limits::MAX_TORRENT_BYTES;
use crate::merkle::{
    climb, climb_to_root, hash_views, merkle_root, padded, pair_hash, root_of, tree_root,
};
use crate::metadata_identity::{identity_problem, validate_metadata_info_hash, MetadataInfoHash};
use crate::power2::{
    exact_log2, height_for, law_tree_height_is_least, lemma_exact_log2, lemma_log2_of_power,
    lemma_power2_monotone, lemma_power2_positive, lemma_power2_sum, lemma_tree_height_at_most, log2,
    power2, power_of_two, tree_height,
};
use crate::problem::{either, reports, CmdResult, Problem};
use crate::text::{count_text, decimal, decimal_text, join2, join3, join4, join5, join6};

verus! {

/// The bytes of one piece of an info dictionary.
pub const METADATA_PIECE_SIZE: usize = 16_384;

/// The largest info dictionary, in bytes, that is fetched from a peer.
pub const MAX_METADATA_SIZE: u32 = 16_777_216;

/// The message number under which this client takes metadata messages.
pub const LOCAL_UT_METADATA_ID: u8 = 1;

/// The message number of extension handshakes.
pub const EXT_HANDSHAKE_ID: u8 = 0;

/// The bytes of one leaf of a file tree.
pub const V2_BLOCK_SIZE: u64 = 16_384;

/// The most hashes that one request asks for.
pub const MAX_METADATA_HASH_REQUEST_LENGTH: u32 = 512;

/// The length of piece `piece` of a dictionary of `total` bytes.
pub open spec fn piece_len(piece: nat, total: nat) -> int {
    let left = total - piece * METADATA_PIECE_SIZE;
    if left < METADATA_PIECE_SIZE {
        left
    } else {
        METADATA_PIECE_SIZE as int
    }
}

/// What is wrong with a piece of an info dictionary.
pub open spec fn piece_problem(
    piece: u32,
    expected_total_size: u32,
    total_size: u32,
    data_len: nat,
) -> Problem {
    let start = piece * METADATA_PIECE_SIZE;
    if total_size != expected_total_size {
        Some(
            "metadata piece "@ + decimal(piece as nat) + " total_size "@ + decimal(
                total_size as nat,
            ) + " does not match expected "@ + decimal(expected_total_size as nat),
        )
    } else if start > usize::MAX {
        Some("metadata piece offset overflow"@)
    } else if start >= expected_total_size {
        Some("metadata piece "@ + decimal(piece as nat) + " starts past metadata size"@)
    } else if data_len != piece_len(piece as nat, expected_total_size as nat) {
        Some(
            "metadata piece "@ + decimal(piece as nat) + " length "@ + decimal(data_len)
                + " does not match expected "@ + decimal(
                piece_len(piece as nat, expected_total_size as nat) as nat,
            ),
        )
    } else {
        None
    }
}

/// A piece belongs to the dictionary that was announced and has the length
/// that its place asks for.
pub fn validate_metadata_piece(
    piece: u32,
    expected_total_size: u32,
    total_size: u32,
    data_len: usize,
) -> (r: CmdResult<()>)
    ensures
        reports(r, piece_problem(piece, expected_total_size, total_size, data_len as nat)),
{
    let number = decimal_text(piece as u64);
    if total_size != expected_total_size {
        let found = decimal_text(total_size as u64);
        let wanted = decimal_text(expected_total_size as u64);
        return Err(
            join6(
                "metadata piece ",
                number.as_str(),
                " total_size ",
                found.as_str(),
                " does not match expected ",
                wanted.as_str(),
            ),
        );
    }
    let total: usize = expected_total_size as usize;
    let start: usize = match (piece as usize).checked_mul(METADATA_PIECE_SIZE) {
        Some(start) => start,
        None => {
            return Err("metadata piece offset overflow".to_owned());
        },
    };
    if start >= total {
        return Err(join3("metadata piece ", number.as_str(), " starts past metadata size"));
    }
    let left: usize = total - start;
    let expected_len: usize = if left < METADATA_PIECE_SIZE {
        left
    } else {
        METADATA_PIECE_SIZE
    };
    if data_len != expected_len {
        let found = count_text(data_len);
        let wanted = count_text(expected_len);
        return Err(
            join6(
                "metadata piece ",
                number.as_str(),
                " length ",
                found.as_str(),
                " does not match expected ",
                wanted.as_str(),
            ),
        );
    }
    Ok(())
}

/// What is wrong with the extension handshake of a peer that is to serve
/// metadata.
pub open spec fn remote_handshake_problem(
    ut_metadata_id: Option<u8>,
    metadata_size: Option<u32>,
    addr: Seq<char>,
) -> Problem {
    match (ut_metadata_id, metadata_size) {
        (None, _) => Some("peer does not advertise ut_metadata"@),
        (Some(_), None) => Some("peer did not send metadata_size"@),
        (Some(_), Some(size)) => if size == 0 || size > MAX_METADATA_SIZE {
            Some(
                "metadata_size "@ + decimal(size as nat) + " from "@ + addr + " is invalid"@,
            )
        } else {
            None
        },
    }
}

/// Reads what a peer announces of its metadata: the message number that it
/// takes, and the size of the dictionary.
pub fn accept_remote_handshake(
    ut_metadata_id: Option<u8>,
    metadata_size: Option<u32>,
    addr: &str,
) -> (r: CmdResult<(u8, u32)>)
    ensures
        match remote_handshake_problem(ut_metadata_id, metadata_size, addr@) {
            Some(text) => r matches Err(e) && e@ == text,
            None => r == Ok::<(u8, u32), String>((ut_metadata_id->0, metadata_size->0)),
        },
{
    let id = match ut_metadata_id {
        Some(id) => id,
        None => {
            return Err("peer does not advertise ut_metadata".to_owned());
        },
    };
    let size = match metadata_size {
        Some(size) => size,
        None => {
            return Err("peer did not send metadata_size".to_owned());
        },
    };
    if size == 0 || size > MAX_METADATA_SIZE {
        let number = decimal_text(size as u64);
        return Err(join5("metadata_size ", number.as_str(), " from ", addr, " is invalid"));
    }
    Ok((id, size))
}

/// A metadata message of a peer.
#[derive(Debug)]
pub enum UtMetadataMessage {
    Request { piece: u32 },
    Data { piece: u32, total_size: u32, data: Vec<u8> },
    Reject { piece: u32 },
}

/// What a message of a peer meant for the dictionary that is being fetched.
#[derive(Clone, Copy, Debug, PartialEq, Eq, Structural)]
pub enum PieceOutcome {
    /// It was not the awaited piece.
    Ignored,
    /// The awaited piece was taken.
    Taken,
}

/// An info dictionary that is being fetched, piece after piece.
pub struct MetadataAssembly {
    remote_ext_id: u8,
    size: u32,
    next_piece: u32,
    bytes: Vec<u8>,
}

/// The state of a dictionary that is being fetched.
pub struct Assembled {
    pub remote_ext_id: u8,
    pub size: nat,
    pub next_piece: nat,
    pub bytes: Seq<u8>,
}

impl View for MetadataAssembly {
    type V = Assembled;

    closed spec fn view(&self) -> Assembled {
        Assembled {
            remote_ext_id: self.remote_ext_id,
            size: self.size as nat,
            next_piece: self.next_piece as nat,
            bytes: self.bytes@,
        }
    }
}

impl Assembled {
    /// The bytes that are there are the pieces before the awaited one.
    pub open spec fn valid(self) -> bool {
        &&& 0 < self.size <= MAX_METADATA_SIZE
        &&& self.bytes.len() == if self.next_piece * METADATA_PIECE_SIZE < self.size {
            self.next_piece * METADATA_PIECE_SIZE
        } else {
            self.size as int
        }
        &&& self.next_piece <= self.piece_count()
    }

    /// How many pieces the dictionary has.
    pub open spec fn piece_count(self) -> nat {
        ((self.size + METADATA_PIECE_SIZE - 1) / METADATA_PIECE_SIZE as int) as nat
    }

    pub open spec fn complete(self) -> bool {
        self.next_piece == self.piece_count()
    }
}

/// What one message does to a dictionary that is being fetched.
pub open spec fn piece_step(
    before: Assembled,
    ext_id: u8,
    message: UtMetadataMessage,
    r: CmdResult<PieceOutcome>,
    after: Assembled,
) -> bool {
    let awaited = before.next_piece;
    let ignored = r == Ok::<PieceOutcome, String>(PieceOutcome::Ignored) && after == before;
    if ext_id != LOCAL_UT_METADATA_ID {
        ignored
    } else {
        match message {
            UtMetadataMessage::Data { piece, total_size, data } => if piece != awaited {
                ignored
            } else {
                match piece_problem(piece, before.size as u32, total_size, data@.len()) {
                    Some(text) => {
                        &&& r matches Err(e) && e@ == text
                        &&& after == before
                    },
                    None => {
                        &&& r == Ok::<PieceOutcome, String>(PieceOutcome::Taken)
                        &&& after == (Assembled {
                            next_piece: awaited + 1,
                            bytes: before.bytes + data@,
                            ..before
                        })
                    },
                }
            },
            UtMetadataMessage::Reject { piece } => if piece != awaited {
                ignored
            } else {
                &&& r matches Err(e) && e@ == "peer rejected metadata piece "@ + decimal(awaited)
                &&& after == before
            },
            UtMetadataMessage::Request { .. } => ignored,
        }
    }
}

impl MetadataAssembly {
    pub open spec fn wf(&self) -> bool {
        self@.valid()
    }

    /// A dictionary of which nothing is there yet. The size is one that
    /// `accept_remote_handshake` has let through.
    pub fn new(remote_ext_id: u8, size: u32) -> (r: Self)
        requires
            0 < size <= MAX_METADATA_SIZE,
        ensures
            r.wf(),
            r@ == (Assembled {
                remote_ext_id,
                size: size as nat,
                next_piece: 0,
                bytes: seq![],
            }),
    {
        MetadataAssembly { remote_ext_id, size, next_piece: 0, bytes: Vec::new() }
    }

    /// The message number that the peer takes.
    pub fn ext_id(&self) -> (r: u8)
        ensures
            r == self@.remote_ext_id,
    {
        self.remote_ext_id
    }

    /// The piece to ask for next, none when all are there.
    pub fn next_request(&self) -> (r: Option<u32>)
        requires
            self.wf(),
        ensures
            r is None <==> self@.complete(),
            r matches Some(piece) ==> piece == self@.next_piece,
    {
        let count: u32 = (self.size - 1) / 16_384 + 1;
        if self.next_piece < count {
            Some(self.next_piece)
        } else {
            None
        }
    }

    /// Takes a message that a peer sent under `ext_id`. Only the awaited piece
    /// counts; a refusal to send it ends the transfer.
    pub fn on_message(&mut self, ext_id: u8, message: UtMetadataMessage) -> (r: CmdResult<
        PieceOutcome,
    >)
        requires
            old(self).wf(),
            !old(self)@.complete(),
        ensures
            final(self).wf(),
            piece_step(old(self)@, ext_id, message, r, final(self)@),
    {
        if ext_id != LOCAL_UT_METADATA_ID {
            return Ok(PieceOutcome::Ignored);
        }
        match message {
            UtMetadataMessage::Data { piece, total_size, data } => {
                if piece != self.next_piece {
                    return Ok(PieceOutcome::Ignored);
                }
                validate_metadata_piece(piece, self.size, total_size, data.len())?;
                let mut data = data;
                self.bytes.append(&mut data);
                self.next_piece = self.next_piece + 1;
                Ok(PieceOutcome::Taken)
            },
            UtMetadataMessage::Reject { piece } => {
                if piece != self.next_piece {
                    return Ok(PieceOutcome::Ignored);
                }
                let number = decimal_text(piece as u64);
                Err(join2("peer rejected metadata piece ", number.as_str()))
            },
            UtMetadataMessage::Request { .. } => Ok(PieceOutcome::Ignored),
        }
    }

    /// Hands the dictionary over once all pieces are there.
    pub fn into_bytes(self) -> (r: Vec<u8>)
        requires
            self.wf(),
            self@.complete(),
        ensures
            r@ == self@.bytes,
            r@.len() == self@.size,
    {
        self.bytes
    }
}

/// The memory that fetching a dictionary takes: the dictionary and one copy.
pub fn metadata_fetch_bytes(metadata_size: u32) -> (r: u64)
    ensures
        r == 2 * metadata_size,
{
    metadata_size as u64 * 2
}

/// What is wrong with a dictionary that has been fetched as a whole, in the
/// order in which it is found out.
pub open spec fn fetched_problem(
    is_bencode: bool,
    identity: Problem,
    expected: MetadataInfoHash,
    remote_supports_v2: bool,
) -> Problem {
    if !is_bencode {
        Some("fetched metadata is not valid bencode"@)
    } else {
        either(
            identity,
            if expected is V2 && !remote_supports_v2 {
                Some("pure-v2 metadata peer does not advertise BEP 52 support"@)
            } else {
                None
            },
        )
    }
}

/// A fetched dictionary can be read, is the one that was asked for, and its
/// peer can serve what else it needs.
pub fn check_fetched_metadata(
    metadata: &[u8],
    is_bencode: bool,
    expected: MetadataInfoHash,
    remote_supports_v2: bool,
) -> (r: CmdResult<()>)
    ensures
        reports(
            r,
            fetched_problem(
                is_bencode,
                identity_problem(
                    crate::digest::sha1_digest(metadata@),
                    crate::digest::sha256_digest(metadata@),
                    expected,
                ),
                expected,
                remote_supports_v2,
            ),
        ),
{
    if !is_bencode {
        return Err("fetched metadata is not valid bencode".to_owned());
    }
    validate_metadata_info_hash(metadata, expected)?;
    if expected.is_v2() && !remote_supports_v2 {
        return Err("pure-v2 metadata peer does not advertise BEP 52 support".to_owned());
    }
    Ok(())
}

/// The hashes that one file of a dictionary needs.
#[derive(Clone, Copy, Debug)]
pub struct V2PieceLayerRequirement {
    pub pieces_root: [u8; 32],
    pub hash_count: usize,
    pub file_length: u64,
}

/// The bytes of all hashes of a list of files, or what is wrong with it.
pub open spec fn layer_bytes_so_far(files: Seq<V2PieceLayerRequirement>) -> Result<nat, Seq<char>>
    decreases files.len(),
{
    if files.len() == 0 {
        Ok(0)
    } else {
        match layer_bytes_so_far(files.drop_last()) {
            Err(e) => Err(e),
            Ok(bytes) => {
                let count = files.last().hash_count as nat;
                if count < 2 {
                    Err("v2 layered file has fewer than two piece-layer hashes"@)
                } else if bytes + count * 32 > u64::MAX {
                    Err("v2 piece-layer byte count overflowed"@)
                } else {
                    Ok(bytes + count * 32)
                }
            },
        }
    }
}

/// The bytes of all hashes of a list of files, bounded by what a torrent file
/// can hold.
pub open spec fn layer_bytes_total(files: Seq<V2PieceLayerRequirement>) -> Result<nat, Seq<char>> {
    match layer_bytes_so_far(files) {
        Err(e) => Err(e),
        Ok(bytes) => if bytes > MAX_TORRENT_BYTES {
            Err(
                "v2 piece layers require "@ + decimal(bytes) + " bytes, above the "@ + decimal(
                    MAX_TORRENT_BYTES as nat,
                ) + "-byte metainfo limit"@,
            )
        } else {
            Ok(bytes)
        },
    }
}

proof fn lemma_layer_bytes_stays(files: Seq<V2PieceLayerRequirement>, n: int)
    requires
        0 <= n <= files.len(),
        layer_bytes_so_far(files.take(n)) is Err,
    ensures
        layer_bytes_so_far(files) == layer_bytes_so_far(files.take(n)),
    decreases files.len() - n,
{
    if n < files.len() {
        assert(files.take(n + 1).drop_last() =~= files.take(n));
        lemma_layer_bytes_stays(files, n + 1);
    } else {
        assert(files.take(n) =~= files);
    }
}

/// Adds up the hashes that a list of files needs.
pub fn v2_piece_layer_bytes(files: &[V2PieceLayerRequirement]) -> (r: CmdResult<u64>)
    ensures
        match layer_bytes_total(files@) {
            Ok(bytes) => r matches Ok(n) && n == bytes,
            Err(text) => r matches Err(e) && e@ == text,
        },
{
    let mut bytes: u64 = 0;
    let mut i: usize = 0;
    assert(files@.take(0) =~= Seq::<V2PieceLayerRequirement>::empty());
    while i < files.len()
        invariant
            i <= files@.len(),
            layer_bytes_so_far(files@.take(i as int)) == Ok::<nat, Seq<char>>(bytes as nat),
        decreases files@.len() - i,
    {
        proof {
            assert(files@.take(i + 1).drop_last() =~= files@.take(i as int));
            if layer_bytes_so_far(files@.take(i + 1)) is Err {
                lemma_layer_bytes_stays(files@, i + 1);
            }
        }
        if files[i].hash_count < 2 {
            return Err("v2 layered file has fewer than two piece-layer hashes".to_owned());
        }
        let more = match (files[i].hash_count as u64).checked_mul(32) {
            Some(n) => bytes.checked_add(n),
            None => None,
        };
        bytes =
        match more {
            Some(sum) => sum,
            None => {
                return Err("v2 piece-layer byte count overflowed".to_owned());
            },
        };
        i = i + 1;
    }
    assert(files@.take(i as int) =~= files@);
    if bytes > MAX_TORRENT_BYTES as u64 {
        let needed = decimal_text(bytes);
        let limit = count_text(MAX_TORRENT_BYTES);
        return Err(
            join5(
                "v2 piece layers require ",
                needed.as_str(),
                " bytes, above the ",
                limit.as_str(),
                "-byte metainfo limit",
            ),
        );
    }
    Ok(bytes)
}

/// Decides whether the layers of a dictionary are fetched from a peer, and how
/// much more memory that takes.
pub fn plan_piece_layers(files: &[V2PieceLayerRequirement], remote_supports_v2: bool) -> (r:
    CmdResult<u64>)
    ensures
        if files@.len() > 0 && !remote_supports_v2 {
            r matches Err(e) && e@ == "peer does not advertise BEP 52 support for piece layers"@
        } else {
            match layer_bytes_total(files@) {
                Ok(bytes) => r matches Ok(n) && n == 2 * bytes,
                Err(text) => r matches Err(e) && e@ == text,
            }
        },
{
    if files.len() > 0 && !remote_supports_v2 {
        return Err("peer does not advertise BEP 52 support for piece layers".to_owned());
    }
    let bytes = v2_piece_layer_bytes(files)?;
    Ok(bytes * 2)
}

/// How many blocks a file has; an empty file counts one.
pub open spec fn leaf_count(file_length: u64) -> nat {
    let blocks = ((file_length + V2_BLOCK_SIZE - 1) / V2_BLOCK_SIZE as int) as nat;
    if blocks == 0 {
        1
    } else {
        blocks
    }
}

/// The height of the tree of a file.
pub open spec fn file_tree_height(file_length: u64) -> nat {
    tree_height(leaf_count(file_length))
}

proof fn lemma_file_tree_height(file_length: u64)
    requires
        file_length + V2_BLOCK_SIZE - 1 <= u64::MAX,
    ensures
        file_tree_height(file_length) <= 50,
{
    reveal_with_fuel(power2, 51);
    assert(power2(50) == 0x4_0000_0000_0000);
    lemma_tree_height_at_most(leaf_count(file_length), 50);
}

proof fn lemma_base_layer(blocks: nat)
    requires
        blocks <= 0x4_0000_0000_0000,
    ensures
        exact_log2(blocks) matches Some(k) ==> k <= 50,
{
    if let Some(k) = exact_log2(blocks) {
        lemma_exact_log2(blocks);
        reveal_with_fuel(power2, 52);
        if k > 50 {
            lemma_power2_monotone(51, k);
        }
    }
}

fn leaves_of(file_length: u64) -> (r: Option<u64>)
    ensures
        match r {
            Some(n) => file_length + V2_BLOCK_SIZE - 1 <= u64::MAX && n == leaf_count(file_length),
            None => file_length + V2_BLOCK_SIZE - 1 > u64::MAX,
        },
{
    match file_length.checked_add(V2_BLOCK_SIZE - 1) {
        Some(sum) => {
            let blocks: u64 = sum / V2_BLOCK_SIZE;
            if blocks == 0 {
                Some(1)
            } else {
                Some(blocks)
            }
        },
        None => None,
    }
}

/// The layer of a file tree that holds its piece hashes.
#[derive(Clone, Copy, Debug, PartialEq, Eq, Structural)]
pub struct LayerShape {
    /// How far the layer lies above the leaves.
    pub base_layer: u32,
    /// How many layers lie between it and the root.
    pub proof_layers: u32,
    /// How many hashes it holds.
    pub layer_len: u64,
}

/// The shape of the layer, or why the file has none. The number of hashes that
/// the file needs must fit in it.
pub open spec fn layer_shape(requirement: V2PieceLayerRequirement, piece_length: u64) -> Result<
    LayerShape,
    Seq<char>,
> {
    let height = file_tree_height(requirement.file_length);
    match exact_log2((piece_length / V2_BLOCK_SIZE) as nat) {
        Some(base) if piece_length % V2_BLOCK_SIZE == 0 => if requirement.file_length
            + V2_BLOCK_SIZE - 1 > u64::MAX {
            Err("v2 leaf count overflowed"@)
        } else if base >= height {
            Err(
                "v2 piece layer base "@ + decimal(base) + " is not below tree height "@ + decimal(
                    height,
                ),
            )
        } else if requirement.hash_count == 0 || requirement.hash_count > power2(
            (height - base) as nat,
        ) {
            Err(
                "v2 piece-layer count "@ + decimal(requirement.hash_count as nat)
                    + " exceeds padded layer width "@ + decimal(power2((height - base) as nat)),
            )
        } else {
            Ok(
                LayerShape {
                    base_layer: base as u32,
                    proof_layers: (height - base - 1) as u32,
                    layer_len: power2((height - base) as nat) as u64,
                },
            )
        },
        _ => Err(
            "invalid v2 piece length "@ + decimal(piece_length as nat) + " for hash exchange"@,
        ),
    }
}

/// Finds the layer of a file tree that holds its piece hashes.
pub fn v2_piece_layer_shape(requirement: &V2PieceLayerRequirement, piece_length: u64) -> (r:
    CmdResult<LayerShape>)
    ensures
        match layer_shape(*requirement, piece_length) {
            Ok(shape) => r == Ok::<LayerShape, String>(shape),
            Err(text) => r matches Err(e) && e@ == text,
        },
{
    let base: u32 = match log2(piece_length / V2_BLOCK_SIZE) {
        Some(base) if piece_length % V2_BLOCK_SIZE == 0 => base,
        _ => {
            let number = decimal_text(piece_length);
            return Err(
                join3("invalid v2 piece length ", number.as_str(), " for hash exchange"),
            );
        },
    };
    let leaves: u64 = match leaves_of(requirement.file_length) {
        Some(n) => n,
        None => {
            return Err("v2 leaf count overflowed".to_owned());
        },
    };
    proof {
        lemma_file_tree_height(requirement.file_length);
        lemma_base_layer((piece_length / V2_BLOCK_SIZE) as nat);
    }
    let height: u32 = height_for(leaves);
    if base >= height {
        let b = decimal_text(base as u64);
        let h = decimal_text(height as u64);
        return Err(
            join4("v2 piece layer base ", b.as_str(), " is not below tree height ", h.as_str()),
        );
    }
    let layer_len: u64 = power_of_two(height - base);
    let hash_count: u64 = requirement.hash_count as u64;
    if hash_count == 0 || hash_count > layer_len {
        let c = decimal_text(hash_count);
        let w = decimal_text(layer_len);
        return Err(
            join4("v2 piece-layer count ", c.as_str(), " exceeds padded layer width ", w.as_str()),
        );
    }
    Ok(LayerShape { base_layer: base, proof_layers: height - base - 1, layer_len })
}

/// How many hashes are asked for when `remaining` are missing: a power of two
/// from two to the maximum.
pub open spec fn request_length(remaining: nat) -> nat {
    if remaining > MAX_METADATA_HASH_REQUEST_LENGTH {
        MAX_METADATA_HASH_REQUEST_LENGTH as nat
    } else if remaining <= 2 {
        2
    } else {
        power2(tree_height(remaining))
    }
}

proof fn lemma_request_length(remaining: nat)
    ensures
        2 <= request_length(remaining) <= MAX_METADATA_HASH_REQUEST_LENGTH,
        exact_log2(request_length(remaining)) is Some,
        exact_log2(request_length(remaining))->0 <= 9,
        1 <= exact_log2(request_length(remaining))->0,
        remaining <= MAX_METADATA_HASH_REQUEST_LENGTH ==> remaining <= request_length(remaining),
{
    reveal_with_fuel(power2, 10);
    assert(power2(9) == 512);
    assert(power2(1) == 2);
    lemma_log2_of_power(9);
    lemma_log2_of_power(1);
    if 2 < remaining <= MAX_METADATA_HASH_REQUEST_LENGTH {
        let h = tree_height(remaining);
        law_tree_height_is_least(remaining);
        lemma_tree_height_at_most(remaining, 9);
        lemma_power2_monotone(h, 9);
        assert(h >= 2) by {
            if h < 2 {
                lemma_power2_monotone(h, 1);
            }
        }
        lemma_log2_of_power(h);
        lemma_power2_monotone(1, h);
    }
}

/// How many hashes are asked for when `remaining` are missing.
pub fn v2_hash_request_length(remaining: usize) -> (r: CmdResult<u32>)
    ensures
        r matches Ok(length) && length == request_length(remaining as nat),
{
    proof {
        lemma_request_length(remaining as nat);
    }
    if remaining > MAX_METADATA_HASH_REQUEST_LENGTH as usize {
        return Ok(MAX_METADATA_HASH_REQUEST_LENGTH);
    }
    if remaining <= 2 {
        return Ok(2);
    }
    proof {
        reveal_with_fuel(power2, 10);
        lemma_tree_height_at_most(remaining as nat, 9);
    }
    let height: u32 = height_for(remaining as u64);
    Ok(power_of_two(height) as u32)
}

/// A request for a run of hashes of one layer, with the proof that ties them
/// to the root.
#[derive(Clone, Copy, Debug)]
pub struct HashRequest {
    pub pieces_root: [u8; 32],
    pub base_layer: u32,
    pub index: u32,
    pub length: u32,
    pub proof_layers: u32,
}

/// How many hashes of a response are proof: the siblings on the way to the
/// root that the run itself does not span.
pub open spec fn proof_hash_count(length: nat, proof_layers: nat) -> nat {
    let omitted = exact_log2(length)->0;
    if omitted <= proof_layers {
        (proof_layers - omitted + 1) as nat
    } else {
        0
    }
}

/// The root that the hashes of a response lead to.
pub open spec fn response_root(index: nat, length: nat, hashes: Seq<Seq<u8>>) -> Seq<u8> {
    climb(
        tree_root(hashes.take(length as int)),
        hashes.skip(length as int),
        index / length,
    )
}

/// What is wrong with the hashes that a peer sent for a request.
pub open spec fn hashes_problem(
    request: HashRequest,
    file_length: u64,
    piece_length: u64,
    hashes: Seq<[u8; 32]>,
) -> Problem {
    let length = request.length as nat;
    let height = file_tree_height(file_length);
    if length < 2 || exact_log2(length) is None || request.index as nat % length != 0 || length
        > MAX_METADATA_HASH_REQUEST_LENGTH {
        Some("peer returned invalid v2 hash request coordinates"@)
    } else {
        match exact_log2((piece_length / V2_BLOCK_SIZE) as nat) {
            None => Some("invalid v2 piece length in hash response"@),
            Some(base) => if request.base_layer != base {
                Some("peer returned an unexpected v2 hash base layer"@)
            } else if file_length + V2_BLOCK_SIZE - 1 > u64::MAX {
                Some("v2 leaf count overflowed"@)
            } else if base >= height || request.index + length > power2((height - base) as nat) {
                Some("peer returned v2 hash coordinates outside the file tree"@)
            } else if request.proof_layers != height - base - 1 {
                Some("peer returned an incomplete v2 hash proof"@)
            } else {
                let expected = length + proof_hash_count(length, request.proof_layers as nat);
                if hashes.len() != expected {
                    Some(
                        "v2 hashes response contains "@ + decimal(hashes.len()) + ", expected "@
                            + decimal(expected),
                    )
                } else if response_root(request.index as nat, length, hash_views(hashes))
                    != request.pieces_root@ {
                    Some("v2 hashes response proof does not match pieces root"@)
                } else {
                    None
                }
            },
        }
    }
}

/// Checks the hashes that a peer sent for a request: they have the place in
/// the tree that was asked for, and lead to its root.
pub fn validate_v2_hashes_response(
    request: &HashRequest,
    file_length: u64,
    piece_length: u64,
    hashes: &[[u8; 32]],
) -> (r: CmdResult<()>)
    ensures
        reports(r, hashes_problem(*request, file_length, piece_length, hashes@)),
{
    let length: u32 = request.length;
    let omitted = log2(length as u64);
    let omitted: u32 = match omitted {
        Some(k) if length >= 2 && request.index % length == 0 && length
            <= MAX_METADATA_HASH_REQUEST_LENGTH => k,
        _ => {
            return Err("peer returned invalid v2 hash request coordinates".to_owned());
        },
    };
    let base: u32 = match log2(piece_length / V2_BLOCK_SIZE) {
        Some(base) => base,
        None => {
            return Err("invalid v2 piece length in hash response".to_owned());
        },
    };
    if request.base_layer != base {
        return Err("peer returned an unexpected v2 hash base layer".to_owned());
    }
    let leaves: u64 = match leaves_of(file_length) {
        Some(n) => n,
        None => {
            return Err("v2 leaf count overflowed".to_owned());
        },
    };
    proof {
        lemma_file_tree_height(file_length);
        lemma_base_layer((piece_length / V2_BLOCK_SIZE) as nat);
        lemma_exact_log2(length as nat);
    }
    let height: u32 = height_for(leaves);
    if base >= height {
        return Err("peer returned v2 hash coordinates outside the file tree".to_owned());
    }
    let layer_len: u64 = power_of_two(height - base);
    if request.index as u64 + length as u64 > layer_len {
        return Err("peer returned v2 hash coordinates outside the file tree".to_owned());
    }
    if request.proof_layers != height - base - 1 {
        return Err("peer returned an incomplete v2 hash proof".to_owned());
    }
    let proofs: usize = if omitted <= request.proof_layers {
        (request.proof_layers - omitted + 1) as usize
    } else {
        0
    };
    let expected: usize = length as usize + proofs;
    if hashes.len() != expected {
        let found = count_text(hashes.len());
        let wanted = count_text(expected);
        return Err(
            join4("v2 hashes response contains ", found.as_str(), ", expected ", wanted.as_str()),
        );
    }
    let run = vstd::slice::slice_subrange(hashes, 0, length as usize);
    let siblings = vstd::slice::slice_subrange(hashes, length as usize, hashes.len());
    proof {
        let views = hash_views(hashes@);
        assert(hash_views(run@) =~= views.take(length as int));
        assert(hash_views(siblings@) =~= views.skip(length as int));
    }
    let start = root_of(run, Ghost(omitted as nat));
    let root = climb_to_root(start, siblings, request.index as u64 / length as u64);
    if !equal_bytes(root.as_slice(), request.pieces_root.as_slice()) {
        return Err("v2 hashes response proof does not match pieces root".to_owned());
    }
    Ok(())
}

/// A message of a peer that concerns hashes.
#[derive(Debug)]
pub enum HashMessage {
    Hashes { request: HashRequest, hashes: Vec<[u8; 32]> },
    Reject { request: HashRequest },
    /// Anything else.
    Other,
}

/// Two requests ask for the same.
pub open spec fn same_request(a: HashRequest, b: HashRequest) -> bool {
    &&& a.pieces_root@ == b.pieces_root@
    &&& a.base_layer == b.base_layer
    &&& a.index == b.index
    &&& a.length == b.length
    &&& a.proof_layers == b.proof_layers
}

fn is_same_request(a: &HashRequest, b: &HashRequest) -> (r: bool)
    ensures
        r == same_request(*a, *b),
{
    equal_bytes(a.pieces_root.as_slice(), b.pieces_root.as_slice()) && a.base_layer == b.base_layer
        && a.index == b.index && a.length == b.length && a.proof_layers == b.proof_layers
}

/// The hashes of one layer that are being fetched, run after run.
pub struct LayerFetch {
    requirement: V2PieceLayerRequirement,
    piece_length: u64,
    shape: LayerShape,
    layer: Vec<[u8; 32]>,
}

/// The state of a layer that is being fetched.
pub struct LayerProgress {
    pub requirement: V2PieceLayerRequirement,
    pub piece_length: u64,
    pub shape: LayerShape,
    pub layer: Seq<[u8; 32]>,
}

impl View for LayerFetch {
    type V = LayerProgress;

    closed spec fn view(&self) -> LayerProgress {
        LayerProgress {
            requirement: self.requirement,
            piece_length: self.piece_length,
            shape: self.shape,
            layer: self.layer@,
        }
    }
}

impl LayerProgress {
    /// The shape is that of the file; the runs that are there are whole, but
    /// for the last one.
    pub open spec fn valid(self) -> bool {
        &&& layer_shape(self.requirement, self.piece_length) == Ok::<LayerShape, Seq<char>>(
            self.shape,
        )
        &&& self.layer.len() <= self.requirement.hash_count
        &&& self.layer.len() < self.requirement.hash_count ==> self.layer.len() % 512 == 0
    }

    pub open spec fn complete(self) -> bool {
        self.layer.len() == self.requirement.hash_count
    }

    pub open spec fn remaining(self) -> nat {
        (self.requirement.hash_count - self.layer.len()) as nat
    }

    /// The request for the next run.
    pub open spec fn request(self) -> HashRequest {
        HashRequest {
            pieces_root: self.requirement.pieces_root,
            base_layer: self.shape.base_layer,
            index: self.layer.len() as u32,
            length: request_length(self.remaining()) as u32,
            proof_layers: self.shape.proof_layers,
        }
    }

    /// How many hashes of the next run are kept.
    pub open spec fn kept(self) -> nat {
        if self.remaining() < request_length(self.remaining()) {
            self.remaining()
        } else {
            request_length(self.remaining())
        }
    }
}

/// A run of requests never leaves its layer: each request starts at a multiple
/// of its length and ends within the layer.
pub proof fn law_requests_stay_inside_the_layer(progress: LayerProgress)
    requires
        progress.valid(),
        !progress.complete(),
    ensures
        progress.layer.len() % request_length(progress.remaining()) == 0,
        progress.layer.len() + request_length(progress.remaining()) <= progress.shape.layer_len,
{
    let cursor = progress.layer.len();
    let remaining = progress.remaining();
    let count = progress.requirement.hash_count as nat;
    let length = request_length(remaining);
    let height = file_tree_height(progress.requirement.file_length);
    let base = exact_log2((progress.piece_length / V2_BLOCK_SIZE) as nat)->0;
    let w = (height - base) as nat;
    lemma_file_tree_height(progress.requirement.file_length);
    reveal_with_fuel(power2, 51);
    lemma_power2_monotone(w, 50);
    assert(progress.shape.layer_len == power2(w));
    lemma_request_length(remaining);
    let k = exact_log2(length)->0;
    lemma_exact_log2(length);
    // A power of two up to the maximum divides the maximum.
    lemma_power2_sum(k, (9 - k) as nat);
    assert(power2(9) == 512);
    assert(cursor % length == 0) by {
        let q = cursor / 512;
        let other = power2((9 - k) as nat);
        assert(cursor == 512 * q);
        assert(512 == length * other);
        assert(cursor == length * (other * q)) by (nonlinear_arith)
            requires
                cursor == 512 * q,
                512 == length * other,
        ;
        assert((length * (other * q)) % length == 0) by (nonlinear_arith)
            requires
                length > 0,
        ;
    }
    if w >= 9 {
        // The width is a multiple of the maximum, and so is the cursor.
        lemma_power2_sum(9, (w - 9) as nat);
        let many = power2((w - 9) as nat);
        let q = cursor / 512;
        assert(power2(w) == 512 * many);
        assert(cursor < power2(w));
        assert(q < many);
        assert(cursor + 512 <= power2(w));
    } else {
        // All hashes come in one run.
        lemma_power2_monotone(w, 8);
        assert(count <= 256);
        assert(cursor == 0);
        assert(remaining == count);
        lemma_power2_monotone(1, w);
        assert(length <= power2(w)) by {
            if remaining > 2 {
                lemma_tree_height_at_most(remaining, w);
                lemma_power2_monotone(tree_height(remaining), w);
            }
        }
    }
}

/// What the message of a peer meant for the layer that is being fetched.
#[derive(Clone, Copy, Debug, PartialEq, Eq, Structural)]
pub enum RunOutcome {
    /// It had nothing to do with the request.
    Ignored,
    /// The run was taken.
    Taken,
}

/// What one message does to a layer that is being fetched.
pub open spec fn run_step(
    before: LayerProgress,
    addr: Seq<char>,
    message: HashMessage,
    r: CmdResult<RunOutcome>,
    after: LayerProgress,
) -> bool {
    match message {
        HashMessage::Hashes { request, hashes } => if !same_request(request, before.request()) {
            &&& r matches Err(e) && e@ == "peer returned a mismatched v2 hashes response from "@
                + addr
            &&& after == before
        } else {
            match hashes_problem(
                before.request(),
                before.requirement.file_length,
                before.piece_length,
                hashes@,
            ) {
                Some(text) => {
                    &&& r matches Err(e) && e@ == text
                    &&& after == before
                },
                None => {
                    &&& r == Ok::<RunOutcome, String>(RunOutcome::Taken)
                    &&& after == (LayerProgress {
                        layer: before.layer + hashes@.take(before.kept() as int),
                        ..before
                    })
                },
            }
        },
        HashMessage::Reject { request } => if same_request(request, before.request()) {
            &&& r matches Err(e) && e@ == "peer rejected v2 piece-layer request from "@ + addr
            &&& after == before
        } else {
            r == Ok::<RunOutcome, String>(RunOutcome::Ignored) && after == before
        },
        HashMessage::Other => r == Ok::<RunOutcome, String>(RunOutcome::Ignored) && after
            == before,
    }
}

impl LayerFetch {
    pub open spec fn wf(&self) -> bool {
        self@.valid()
    }

    /// Starts on the hashes of one file.
    pub fn begin(requirement: V2PieceLayerRequirement, piece_length: u64) -> (r: CmdResult<Self>)
        ensures
            match layer_shape(requirement, piece_length) {
                Ok(shape) => r matches Ok(fetch) && fetch.wf() && fetch@ == (LayerProgress {
                    requirement,
                    piece_length,
                    shape,
                    layer: seq![],
                }),
                Err(text) => r matches Err(e) && e@ == text,
            },
    {
        let shape = v2_piece_layer_shape(&requirement, piece_length)?;
        Ok(LayerFetch { requirement, piece_length, shape, layer: Vec::new() })
    }

    /// The request for the next run, none when all hashes are there. A layer
    /// whose places do not fit in 32 bits cannot be asked for.
    pub fn next_request(&self) -> (r: CmdResult<Option<HashRequest>>)
        requires
            self.wf(),
        ensures
            if self@.complete() {
                r == Ok::<Option<HashRequest>, String>(None)
            } else if self@.layer.len() > u32::MAX {
                r matches Err(e) && e@ == "v2 piece-layer request index overflowed"@
            } else {
                r == Ok::<Option<HashRequest>, String>(Some(self@.request()))
            },
    {
        let cursor: usize = self.layer.len();
        if cursor >= self.requirement.hash_count {
            return Ok(None);
        }
        let length: u32 = v2_hash_request_length(self.requirement.hash_count - cursor)?;
        if cursor as u64 > u32::MAX as u64 {
            return Err("v2 piece-layer request index overflowed".to_owned());
        }
        Ok(
            Some(
                HashRequest {
                    pieces_root: self.requirement.pieces_root,
                    base_layer: self.shape.base_layer,
                    index: cursor as u32,
                    length,
                    proof_layers: self.shape.proof_layers,
                },
            ),
        )
    }

    /// Takes a message of the peer at `addr` that was asked for the next run.
    pub fn on_message(&mut self, addr: &str, message: HashMessage) -> (r: CmdResult<RunOutcome>)
        requires
            old(self).wf(),
            !old(self)@.complete(),
            old(self)@.layer.len() <= u32::MAX,
        ensures
            final(self).wf(),
            run_step(old(self)@, addr@, message, r, final(self)@),
    {
        let cursor: usize = self.layer.len();
        let remaining: usize = self.requirement.hash_count - cursor;
        let length: u32 = v2_hash_request_length(remaining)?;
        let request = HashRequest {
            pieces_root: self.requirement.pieces_root,
            base_layer: self.shape.base_layer,
            index: cursor as u32,
            length,
            proof_layers: self.shape.proof_layers,
        };
        proof {
            lemma_request_length(remaining as nat);
        }
        match message {
            HashMessage::Hashes { request: answered, hashes } => {
                if !is_same_request(&answered, &request) {
                    return Err(
                        join2("peer returned a mismatched v2 hashes response from ", addr),
                    );
                }
                validate_v2_hashes_response(
                    &request,
                    self.requirement.file_length,
                    self.piece_length,
                    hashes.as_slice(),
                )?;
                let take: usize = if remaining < length as usize {
                    remaining
                } else {
                    length as usize
                };
                let ghost start = self.layer@;
                let mut i: usize = 0;
                assert(start + hashes@.take(0) =~= start);
                while i < take
                    invariant
                        i <= take <= hashes@.len(),
                        self.layer@ == start + hashes@.take(i as int),
                        self.requirement == old(self).requirement,
                        self.piece_length == old(self).piece_length,
                        self.shape == old(self).shape,
                    decreases take - i,
                {
                    self.layer.push(hashes[i]);
                    assert(self.layer@ =~= start + hashes@.take(i + 1));
                    i = i + 1;
                }
                Ok(RunOutcome::Taken)
            },
            HashMessage::Reject { request: answered } => {
                if is_same_request(&answered, &request) {
                    return Err(join2("peer rejected v2 piece-layer request from ", addr));
                }
                Ok(RunOutcome::Ignored)
            },
            HashMessage::Other => Ok(RunOutcome::Ignored),
        }
    }

    /// Hands the layer over once all hashes are there and lead to the root of
    /// the file.
    pub fn finish(self) -> (r: CmdResult<Vec<[u8; 32]>>)
        requires
            self.wf(),
            self@.complete(),
        ensures
            layer_verdict(
                self@.requirement.pieces_root@,
                tree_root(padded(hash_views(self@.layer))),
                self@.layer,
                r,
            ),
    {
        let root = merkle_root(self.layer.as_slice());
        accept_layer(self.requirement.pieces_root, root, self.layer)
    }
}

/// A layer whose root is `root` is accepted for the file with `pieces_root`
/// where the two are the same.
pub open spec fn layer_verdict(
    pieces_root: Seq<u8>,
    root: Seq<u8>,
    layer: Seq<[u8; 32]>,
    r: CmdResult<Vec<[u8; 32]>>,
) -> bool {
    if root == pieces_root {
        r matches Ok(accepted) && accepted@ == layer
    } else {
        r matches Err(e) && e@ == "v2 piece layer for "@ + hex_text(pieces_root)
            + " does not reconstruct its pieces root"@
    }
}

/// Accepts a layer whose root is that of its file.
pub fn accept_layer(pieces_root: [u8; 32], root: [u8; 32], layer: Vec<[u8; 32]>) -> (r: CmdResult<
    Vec<[u8; 32]>,
>)
    ensures
        layer_verdict(pieces_root@, root@, layer@, r),
{
    if equal_bytes(root.as_slice(), pieces_root.as_slice()) {
        Ok(layer)
    } else {
        let name = hex_encode(pieces_root.as_slice());
        Err(
            join3(
                "v2 piece layer for ",
                name.as_str(),
                " does not reconstruct its pieces root",
            ),
        )
    }
}

/// Two pairs of hashes that differ and yet have the same hash.
pub open spec fn collide(a: (Seq<u8>, Seq<u8>), b: (Seq<u8>, Seq<u8>)) -> bool {
    a != b && pair_hash(a.0, a.1) == pair_hash(b.0, b.1)
}

/// The pairs that are hashed on the way from `nodes` to their root.
pub open spec fn tree_pairs(nodes: Seq<Seq<u8>>) -> Set<(Seq<u8>, Seq<u8>)>
    decreases nodes.len(),
{
    if nodes.len() <= 1 {
        Set::empty()
    } else {
        let half = (nodes.len() / 2) as int;
        tree_pairs(nodes.take(half)).union(tree_pairs(nodes.skip(half))).insert(
            (tree_root(nodes.take(half)), tree_root(nodes.skip(half))),
        )
    }
}

/// The pairs that are hashed on the way from `start` to the root.
pub open spec fn climb_pairs(start: Seq<u8>, siblings: Seq<Seq<u8>>, position: nat) -> Set<
    (Seq<u8>, Seq<u8>),
>
    decreases siblings.len(),
{
    if siblings.len() == 0 {
        Set::empty()
    } else {
        let pair = if position % 2 == 0 {
            (start, siblings[0])
        } else {
            (siblings[0], start)
        };
        climb_pairs(pair_hash(pair.0, pair.1), siblings.skip(1), position / 2).insert(pair)
    }
}

/// The pairs that are hashed when a response is checked.
pub open spec fn response_pairs(index: nat, length: nat, hashes: Seq<Seq<u8>>) -> Set<
    (Seq<u8>, Seq<u8>),
> {
    let run = hashes.take(length as int);
    tree_pairs(run).union(
        climb_pairs(tree_root(run), hashes.skip(length as int), index / length),
    )
}

/// Some pair of the one set and some pair of the other collide.
pub open spec fn collision_between(
    a: Set<(Seq<u8>, Seq<u8>)>,
    b: Set<(Seq<u8>, Seq<u8>)>,
) -> bool {
    exists|x: (Seq<u8>, Seq<u8>), y: (Seq<u8>, Seq<u8>)|
        a.contains(x) && b.contains(y) && #[trigger] collide(x, y)
}

proof fn lemma_tree_is_binding(a: Seq<Seq<u8>>, b: Seq<Seq<u8>>, k: nat)
    requires
        a.len() == power2(k),
        b.len() == power2(k),
        tree_root(a) == tree_root(b),
    ensures
        a == b || collision_between(tree_pairs(a), tree_pairs(b)),
    decreases k,
{
    if k == 0 {
        assert(a =~= b);
    } else {
        lemma_power2_positive((k - 1) as nat);
        let half = (a.len() / 2) as int;
        let (al, ar) = (a.take(half), a.skip(half));
        let (bl, br) = (b.take(half), b.skip(half));
        let x = (tree_root(al), tree_root(ar));
        let y = (tree_root(bl), tree_root(br));
        assert(tree_pairs(a).contains(x));
        assert(tree_pairs(b).contains(y));
        if x != y {
            assert(collide(x, y));
        } else {
            lemma_tree_is_binding(al, bl, (k - 1) as nat);
            lemma_tree_is_binding(ar, br, (k - 1) as nat);
            if al == bl && ar == br {
                assert(a =~= al + ar);
                assert(b =~= bl + br);
            } else if al != bl {
                let (p, q) = choose|p: (Seq<u8>, Seq<u8>), q: (Seq<u8>, Seq<u8>)|
                    tree_pairs(al).contains(p) && tree_pairs(bl).contains(q) && #[trigger] collide(
                        p,
                        q,
                    );
                assert(tree_pairs(a).contains(p) && tree_pairs(b).contains(q));
            } else {
                let (p, q) = choose|p: (Seq<u8>, Seq<u8>), q: (Seq<u8>, Seq<u8>)|
                    tree_pairs(ar).contains(p) && tree_pairs(br).contains(q) && #[trigger] collide(
                        p,
                        q,
                    );
                assert(tree_pairs(a).contains(p) && tree_pairs(b).contains(q));
            }
        }
    }
}

proof fn lemma_climb_is_binding(
    a: Seq<u8>,
    b: Seq<u8>,
    up_a: Seq<Seq<u8>>,
    up_b: Seq<Seq<u8>>,
    position: nat,
)
    requires
        up_a.len() == up_b.len(),
        climb(a, up_a, position) == climb(b, up_b, position),
    ensures
        (a == b && up_a == up_b) || collision_between(
            climb_pairs(a, up_a, position),
            climb_pairs(b, up_b, position),
        ),
    decreases up_a.len(),
{
    if up_a.len() == 0 {
        assert(up_a =~= up_b);
    } else {
        let x = if position % 2 == 0 { (a, up_a[0]) } else { (up_a[0], a) };
        let y = if position % 2 == 0 { (b, up_b[0]) } else { (up_b[0], b) };
        let next_a = pair_hash(x.0, x.1);
        let next_b = pair_hash(y.0, y.1);
        lemma_climb_is_binding(next_a, next_b, up_a.skip(1), up_b.skip(1), position / 2);
        let rest_a = climb_pairs(next_a, up_a.skip(1), position / 2);
        let rest_b = climb_pairs(next_b, up_b.skip(1), position / 2);
        assert(climb_pairs(a, up_a, position) == rest_a.insert(x));
        assert(climb_pairs(b, up_b, position) == rest_b.insert(y));
        if collision_between(rest_a, rest_b) {
            let (p, q) = choose|p: (Seq<u8>, Seq<u8>), q: (Seq<u8>, Seq<u8>)|
                rest_a.contains(p) && rest_b.contains(q) && #[trigger] collide(p, q);
            assert(rest_a.insert(x).contains(p) && rest_b.insert(y).contains(q));
        } else if x != y {
            assert(collide(x, y));
            assert(rest_a.insert(x).contains(x) && rest_b.insert(y).contains(y));
        } else {
            assert(up_a =~= seq![up_a[0]] + up_a.skip(1));
            assert(up_b =~= seq![up_b[0]] + up_b.skip(1));
        }
    }
}

/// A response cannot be altered: two responses that are both accepted for one
/// request are the same, unless checking them has hashed two different pairs
/// to one value.
pub proof fn law_hash_responses_are_tamper_resistant(
    request: HashRequest,
    file_length: u64,
    piece_length: u64,
    a: Seq<[u8; 32]>,
    b: Seq<[u8; 32]>,
)
    requires
        hashes_problem(request, file_length, piece_length, a) is None,
        hashes_problem(request, file_length, piece_length, b) is None,
    ensures
        hash_views(a) == hash_views(b) || collision_between(
            response_pairs(request.index as nat, request.length as nat, hash_views(a)),
            response_pairs(request.index as nat, request.length as nat, hash_views(b)),
        ),
{
    let length = request.length as nat;
    let index = request.index as nat;
    let k = exact_log2(length)->0;
    lemma_exact_log2(length);
    let (va, vb) = (hash_views(a), hash_views(b));
    let (ra, rb) = (va.take(length as int), vb.take(length as int));
    let (sa, sb) = (va.skip(length as int), vb.skip(length as int));
    let pa = response_pairs(index, length, va);
    let pb = response_pairs(index, length, vb);
    lemma_climb_is_binding(tree_root(ra), tree_root(rb), sa, sb, index / length);
    let ca = climb_pairs(tree_root(ra), sa, index / length);
    let cb = climb_pairs(tree_root(rb), sb, index / length);
    if collision_between(ca, cb) {
        let (p, q) = choose|p: (Seq<u8>, Seq<u8>), q: (Seq<u8>, Seq<u8>)|
            ca.contains(p) && cb.contains(q) && #[trigger] collide(p, q);
        assert(pa.contains(p) && pb.contains(q));
    } else {
        lemma_tree_is_binding(ra, rb, k);
        if ra == rb {
            assert(va =~= ra + sa);
            assert(vb =~= rb + sb);
        } else {
            let (p, q) = choose|p: (Seq<u8>, Seq<u8>), q: (Seq<u8>, Seq<u8>)|
                tree_pairs(ra).contains(p) && tree_pairs(rb).contains(q) && #[trigger] collide(
                    p,
                    q,
                );
            assert(pa.contains(p) && pb.contains(q));
        }
    }
}

/// Once all pieces are there, the dictionary has the announced size.
pub proof fn law_complete_dictionary_has_announced_size(state: Assembled)
    requires
        state.valid(),
        state.complete(),
    ensures
        state.bytes.len() == state.size,
{
}

/// Every request for hashes asks for a power of two between two and the
/// maximum, and no smaller power of two would do.
pub proof fn law_request_lengths_are_powers_of_two(remaining: nat)
    ensures
        2 <= request_length(remaining) <= MAX_METADATA_HASH_REQUEST_LENGTH,
        exists|k: nat| k >= 1 && request_length(remaining) == #[trigger] power2(k),
        2 < remaining <= MAX_METADATA_HASH_REQUEST_LENGTH ==> request_length(remaining) / 2
            < remaining <= request_length(remaining),
{
    lemma_request_length(remaining);
    lemma_exact_log2(request_length(remaining));
    let k = exact_log2(request_length(remaining))->0;
    assert(request_length(remaining) == power2(k));
    if 2 < remaining <= MAX_METADATA_HASH_REQUEST_LENGTH {
        law_tree_height_is_least(remaining);
        let h = tree_height(remaining);
        assert(h > 0);
        assert(power2(h) == 2 * power2((h - 1) as nat));
    }
}

/// A piece is accepted exactly where it is of a dictionary of the announced size,
/// begins inside it, and has 16 KiB or, at the end, what is left.
pub proof fn law_pieces_tile_the_dictionary(piece: u32, size: u32, total_size: u32, data_len: nat)
    ensures
        piece_problem(piece, size, total_size, data_len) is None <==> {
            &&& total_size == size
            &&& piece * 16_384 < size
            &&& data_len <= 16_384
            &&& piece * 16_384 + data_len <= size
            &&& data_len == 16_384 || piece * 16_384 + data_len == size
        },
{
}

/// A peer can serve metadata exactly where it says under which number and of which
/// size, and the size is from one byte to 16 MiB.
pub proof fn law_serving_peers_say_what_they_have(
    id: Option<u8>,
    size: Option<u32>,
    addr: Seq<char>,
)
    ensures
        remote_handshake_problem(id, size, addr) is None <==> id is Some && (size matches Some(n)
            && 1 <= n <= 16_777_216),
{
}

/// The awaited piece is put behind those that are there, and the next one is
/// awaited; a refusal to send it, or one of the wrong size, is an error. Whatever
/// else comes, nothing changes.
pub proof fn law_only_the_awaited_piece_counts(
    before: Assembled,
    ext_id: u8,
    message: UtMetadataMessage,
    r: CmdResult<PieceOutcome>,
    after: Assembled,
)
    requires
        piece_step(before, ext_id, message, r, after),
        before.valid(),
        !before.complete(),
    ensures
        after.size == before.size && after.remote_ext_id == before.remote_ext_id,
        before.bytes.is_prefix_of(after.bytes),
        r == Ok::<PieceOutcome, String>(PieceOutcome::Taken) <==> after.next_piece
            == before.next_piece + 1,
        r != Ok::<PieceOutcome, String>(PieceOutcome::Taken) ==> after == before,
        r == Ok::<PieceOutcome, String>(PieceOutcome::Taken) <==> ext_id == 1 && (message matches
            UtMetadataMessage::Data { piece, total_size, data } && piece == before.next_piece
            && total_size == before.size && after.bytes == before.bytes + data@ && (data@.len()
            == 16_384 || after.bytes.len() == before.size) && data@.len() <= 16_384
            && after.bytes.len() <= before.size && after.next_piece == before.next_piece + 1),
        r is Err ==> ext_id == 1,
        ext_id == 1 ==> (message matches UtMetadataMessage::Reject { piece } ==> (r is Err
            <==> piece == before.next_piece)),
        ext_id == 1 ==> (message matches UtMetadataMessage::Data { piece, total_size, data } ==> (
        piece != before.next_piece ==> r is Ok)),
        message is Request ==> r == Ok::<PieceOutcome, String>(PieceOutcome::Ignored),
{
    let n = before.next_piece;
    assert(n * 16_384 < before.size) by (nonlinear_arith)
        requires
            n < (before.size + 16_384 - 1) / 16_384,
    ;
    assert(before.bytes.is_prefix_of(before.bytes));
    if let UtMetadataMessage::Data { piece, total_size, data } = message {
        assert((before.bytes + data@).subrange(0, before.bytes.len() as int) =~= before.bytes);
    }
}

/// A dictionary that was fetched is accepted exactly where it is well-formed, is the
/// one that was asked for, and, where it is known by a v2 hash alone, the peer
/// speaks that version.
pub proof fn law_fetched_dictionaries_are_judged(
    is_bencode: bool,
    identity: Problem,
    expected: MetadataInfoHash,
    supports_v2: bool,
)
    ensures
        fetched_problem(is_bencode, identity, expected, supports_v2) is None <==> is_bencode
            && identity is None && (expected is V2 ==> supports_v2),
        is_bencode && identity is Some ==> fetched_problem(
            is_bencode,
            identity,
            expected,
            supports_v2,
        ) == identity,
{
}

/// Each file adds thirty-two bytes for each of its hashes, of which it has at least
/// two; all together fit in the largest torrent file.
pub proof fn law_layers_take_their_hashes(
    files: Seq<V2PieceLayerRequirement>,
    file: V2PieceLayerRequirement,
)
    ensures
        layer_bytes_total(Seq::<V2PieceLayerRequirement>::empty()) == Ok::<nat, Seq<char>>(0),
        layer_bytes_total(files) matches Ok(bytes) ==> {
            let more = bytes + 32 * file.hash_count as nat;
            if file.hash_count >= 2 && more <= 67_108_864 {
                layer_bytes_total(files.push(file)) == Ok::<nat, Seq<char>>(more)
            } else {
                layer_bytes_total(files.push(file)) is Err
            }
        },
        layer_bytes_total(files) is Err ==> layer_bytes_total(files.push(file)) is Err,
{
    let all = files.push(file);
    assert(all.drop_last() =~= files);
    assert(all.last() == file);
}

/// The layers are fetched from peers that can serve them, into twice their size; a
/// dictionary without layers needs neither.
pub proof fn law_layers_need_a_capable_peer(
    files: &[V2PieceLayerRequirement],
    supports_v2: bool,
    r: CmdResult<u64>,
)
    requires
        call_ensures(plan_piece_layers, (files, supports_v2), r),
    ensures
        files@.len() == 0 ==> r == Ok::<u64, String>(0),
        files@.len() > 0 && !supports_v2 ==> r is Err,
        supports_v2 ==> (r is Ok <==> layer_bytes_total(files@) is Ok),
        r matches Ok(n) ==> layer_bytes_total(files@) == Ok::<nat, Seq<char>>((n / 2) as nat) && n
            % 2 == 0,
{
}

/// The blocks of a file cover it, and no fewer would.
pub proof fn law_leaves_cover_the_file(file_length: u64)
    ensures
        leaf_count(file_length) >= 1,
        file_length <= leaf_count(file_length) * 16_384,
        file_length > 0 ==> (leaf_count(file_length) - 1) * 16_384 < file_length,
{
}

proof fn lemma_leaves_span(length: int, leaves: int, b: int, p: int, width: int, piece: int)
    by (nonlinear_arith)
    requires
        length <= leaves * 16_384,
        leaves <= b * p,
        width == p,
        piece == 16_384 * b,
    ensures
        length <= width * piece,
{
}

proof fn lemma_layer_width(file_length: u64, base: nat)
    requires
        file_length + V2_BLOCK_SIZE - 1 <= u64::MAX,
        base <= file_tree_height(file_length),
    ensures
        file_tree_height(file_length) <= 50,
        power2((file_tree_height(file_length) - base) as nat) <= 0x4_0000_0000_0000,
        leaf_count(file_length) <= power2(base) * power2(
            (file_tree_height(file_length) - base) as nat,
        ),
{
    let height = file_tree_height(file_length);
    let w = (height - base) as nat;
    lemma_file_tree_height(file_length);
    lemma_power2_monotone(w, 50);
    assert(power2(50) == 0x4_0000_0000_0000) by {
        reveal_with_fuel(power2, 51);
    }
    law_tree_height_is_least(leaf_count(file_length));
    lemma_power2_sum(base, w);
    assert(base + w == height);
}

/// A layer has one place for each piece: its pieces are as long as the torrent says,
/// it is as wide as the tree over it is high, it covers the file, and the hashes of
/// the file fit in it.
pub proof fn law_layers_fit_their_tree(
    requirement: V2PieceLayerRequirement,
    piece_length: u64,
    shape: LayerShape,
)
    requires
        layer_shape(requirement, piece_length) == Ok::<LayerShape, Seq<char>>(shape),
    ensures
        piece_length == 16_384 * power2(shape.base_layer as nat),
        shape.layer_len == power2((shape.proof_layers + 1) as nat),
        1 <= requirement.hash_count <= shape.layer_len,
        requirement.file_length <= shape.layer_len * piece_length,
{
    let n = (piece_length / V2_BLOCK_SIZE) as nat;
    let base = exact_log2(n)->0;
    let length = requirement.file_length;
    lemma_exact_log2(n);
    lemma_layer_width(length, base);
    assert(shape.base_layer == base);
    let w = (file_tree_height(length) - base) as nat;
    assert((shape.proof_layers + 1) as nat == w);
    assert(length <= leaf_count(length) * 16_384) by {
        law_leaves_cover_the_file(length);
    }
    lemma_leaves_span(
        length as int,
        leaf_count(length) as int,
        power2(base) as int,
        power2(w) as int,
        shape.layer_len as int,
        piece_length as int,
    );
}

/// A run and its proof lead exactly to the root: each hash of the proof doubles the
/// part of the tree that is known.
pub proof fn law_proofs_reach_the_root(k: nat, proof_layers: nat)
    requires
        k <= proof_layers + 1,
    ensures
        power2(k) * power2(proof_hash_count(power2(k), proof_layers)) == power2(proof_layers + 1),
{
    lemma_log2_of_power(k);
    let n = proof_hash_count(power2(k), proof_layers);
    lemma_power2_sum(k, n);
}

/// The hashes of a run are believed only where they begin at a multiple of their
/// number, in the layer of the pieces, and lead to the root of the file.
pub proof fn law_believed_hashes_lead_to_the_root(
    request: HashRequest,
    file_length: u64,
    piece_length: u64,
    hashes: Seq<[u8; 32]>,
)
    requires
        hashes_problem(request, file_length, piece_length, hashes) is None,
    ensures
        2 <= request.length <= 512,
        request.index % request.length == 0,
        piece_length / 16_384 == power2(request.base_layer as nat),
        request.base_layer + request.proof_layers + 1 == tree_height(leaf_count(file_length)),
        request.index + request.length <= power2((request.proof_layers + 1) as nat),
        request.length <= hashes.len(),
        request.pieces_root@ == climb(
            tree_root(hash_views(hashes).take(request.length as int)),
            hash_views(hashes).skip(request.length as int),
            (request.index / request.length) as nat,
        ),
{
    lemma_exact_log2((piece_length / V2_BLOCK_SIZE) as nat);
}

/// The next request is for the hashes behind those that are there, of the same file.
/// An answer to another request is an error, an answer to this one that is believed
/// brings as many of the missing hashes as it holds, and nothing else changes
/// anything.
pub proof fn law_runs_are_taken_in_order(
    before: LayerProgress,
    addr: Seq<char>,
    message: HashMessage,
    r: CmdResult<RunOutcome>,
    after: LayerProgress,
)
    requires
        run_step(before, addr, message, r, after),
        before.valid(),
        !before.complete(),
        before.layer.len() <= u32::MAX,
    ensures
        before.request().index == before.layer.len(),
        before.request().pieces_root == before.requirement.pieces_root,
        after.requirement == before.requirement && after.piece_length == before.piece_length
            && after.shape == before.shape,
        r != Ok::<RunOutcome, String>(RunOutcome::Taken) ==> after == before,
        r == Ok::<RunOutcome, String>(RunOutcome::Taken) ==> {
            &&& message is Hashes
            &&& before.layer.len() < after.layer.len() <= before.requirement.hash_count
            &&& after.complete() || after.layer.len() == before.layer.len()
                + before.request().length
            &&& forall|i: int|
                0 <= i < after.layer.len() ==> #[trigger] after.layer[i] == if i
                    < before.layer.len() {
                    before.layer[i]
                } else {
                    message->hashes@[i - before.layer.len()]
                }
        },
        message is Hashes && !same_request(message->Hashes_request, before.request()) ==> r is Err,
        message is Hashes ==> r != Ok::<RunOutcome, String>(RunOutcome::Ignored),
        message is Reject ==> (r is Err <==> same_request(
            message->Reject_request,
            before.request(),
        )),
        message is Other ==> r is Ok,
{
    lemma_request_length(before.remaining());
}

/// A layer is accepted, as it is, exactly where its root is that of the file.
pub proof fn law_layers_are_accepted_by_their_root(
    pieces_root: [u8; 32],
    root: [u8; 32],
    layer: Vec<[u8; 32]>,
    r: CmdResult<Vec<[u8; 32]>>,
)
    requires
        call_ensures(accept_layer, (pieces_root, root, layer), r),
    ensures
        r is Ok <==> root@ == pieces_root@,
        r matches Ok(accepted) ==> accepted@ == layer@,
{
}

/// Fetching a dictionary takes memory for it and for one copy.
pub proof fn law_dictionaries_are_held_twice(size: u32, r: u64)
    requires
        call_ensures(metadata_fetch_bytes, (size,), r),
    ensures
        r == size + size,
{
}

} // verus!
