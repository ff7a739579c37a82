//! The identity of a torrent whose info dictionary is still to be fetched.

use vstd::prelude::*;

use crate::digest::{
    equal_bytes, hex_bytes, hex_decode, hex_encode, hex_text, is_hex, sha1, sha1_digest, sha256,
    sha256_digest,
};
use crate::problem::{either, reports, CmdResult, Problem};
use crate::text::{join4, lowered};

verus! {

/// The identity that a magnet link gives. The peer wire and tracker protocols
/// use the first twenty bytes of a SHA-256 info hash; the fetched dictionary
/// is compared with the whole digest.
#[derive(Clone, Copy, Debug, PartialEq, Eq)]
pub enum MetadataInfoHash {
    V1([u8; 20]),
    V2([u8; 32]),
    Hybrid { v1: [u8; 20], v2: [u8; 32] },
}

impl MetadataInfoHash {
    /// The twenty bytes that stand for this torrent on the wire.
    pub open spec fn wire(self) -> Seq<u8> {
        match self {
            MetadataInfoHash::V1(hash) => hash@,
            MetadataInfoHash::V2(hash) => hash@.take(20),
            MetadataInfoHash::Hybrid { v1, .. } => v1@,
        }
    }

    /// The twenty bytes that stand for this torrent on the wire.
    pub fn wire_hash(self) -> (r: [u8; 20])
        ensures
            r@ == self.wire(),
    {
        match self {
            MetadataInfoHash::V1(hash) => hash,
            MetadataInfoHash::V2(hash) => first_twenty(&hash),
            MetadataInfoHash::Hybrid { v1, .. } => v1,
        }
    }

    /// Whether the torrent has no SHA-1 identity.
    pub fn is_v2(self) -> (r: bool)
        ensures
            r == (self is V2),
    {
        match self {
            MetadataInfoHash::V2(_) => true,
            _ => false,
        }
    }
}

fn first_twenty(hash: &[u8; 32]) -> (r: [u8; 20])
    ensures
        r@ == hash@.take(20),
{
    let mut r: [u8; 20] = [0u8; 20];
    let mut i: usize = 0;
    while i < 20
        invariant
            i <= 20,
            forall|k: int| 0 <= k < i ==> r@[k] == hash@[k],
        decreases 20 - i,
    {
        r[i] = hash[i];
        i = i + 1;
    }
    assert(r@ =~= hash@.take(20));
    r
}

fn to_twenty(bytes: &Vec<u8>) -> (r: [u8; 20])
    requires
        bytes@.len() == 20,
    ensures
        r@ == bytes@,
{
    let mut r: [u8; 20] = [0u8; 20];
    let mut i: usize = 0;
    while i < 20
        invariant
            i <= 20 == bytes@.len(),
            forall|k: int| 0 <= k < i ==> r@[k] == bytes@[k],
        decreases 20 - i,
    {
        r[i] = bytes[i];
        i = i + 1;
    }
    assert(r@ =~= bytes@);
    r
}

fn to_thirty_two(bytes: &Vec<u8>) -> (r: [u8; 32])
    requires
        bytes@.len() == 32,
    ensures
        r@ == bytes@,
{
    let mut r: [u8; 32] = [0u8; 32];
    let mut i: usize = 0;
    while i < 32
        invariant
            i <= 32 == bytes@.len(),
            forall|k: int| 0 <= k < i ==> r@[k] == bytes@[k],
        decreases 32 - i,
    {
        r[i] = bytes[i];
        i = i + 1;
    }
    assert(r@ =~= bytes@);
    r
}

/// `r` is the identity that `value` writes in hexadecimal: forty digits for a
/// SHA-1 digest, sixty-four for a SHA-256 digest. Anything else is an error.
pub open spec fn parsed_identity(value: Seq<char>, r: Result<MetadataInfoHash, ()>) -> bool {
    if value.len() == 40 && is_hex(value) {
        r matches Ok(MetadataInfoHash::V1(hash)) && hash@ == hex_bytes(value)
    } else if value.len() == 64 && is_hex(value) {
        r matches Ok(MetadataInfoHash::V2(hash)) && hash@ == hex_bytes(value)
    } else {
        r is Err
    }
}

proof fn lemma_hex_is_ascii(text: Seq<char>)
    requires
        is_hex(text),
    ensures
        vstd::utf8::encode_utf8(text).len() == text.len(),
{
    assert forall|i: int| 0 <= i < text.len() implies (#[trigger] text[i]) as nat <= 127 by {
        assert(crate::digest::hex_value(text[i]) is Some);
    }
    vstd::utf8::is_ascii_chars_encode_utf8(text);
}

/// Reads the durable identity of a torrent.
pub fn parse_metadata_info_hash_hex(value: &str) -> (r: Result<MetadataInfoHash, ()>)
    ensures
        parsed_identity(value@, r),
{
    proof {
        if is_hex(value@) {
            lemma_hex_is_ascii(value@);
        }
    }
    let length: usize = value.as_bytes().len();
    if length == 40 {
        match hex_decode(value) {
            Some(bytes) => Ok(MetadataInfoHash::V1(to_twenty(&bytes))),
            None => Err(()),
        }
    } else if length == 64 {
        match hex_decode(value) {
            Some(bytes) => Ok(MetadataInfoHash::V2(to_thirty_two(&bytes))),
            None => Err(()),
        }
    } else {
        Err(())
    }
}

/// Restores the whole identity of a torrent that waits for its metadata. A
/// hybrid is filed under its SHA-1 digest; its SHA-256 digest comes apart. A
/// SHA-256 identity takes no second digest.
pub fn metadata_info_hash_with_v2(value: &str, expected_v2_hash: Option<[u8; 32]>) -> (r: Result<
    MetadataInfoHash,
    (),
>)
    ensures
        match expected_v2_hash {
            None => parsed_identity(value@, r),
            Some(expected) => if value@.len() == 40 && is_hex(value@) {
                r matches Ok(MetadataInfoHash::Hybrid { v1, v2 }) && v1@ == hex_bytes(value@) && v2
                    == expected
            } else {
                r is Err
            },
        },
{
    let identity = parse_metadata_info_hash_hex(value)?;
    match (identity, expected_v2_hash) {
        (MetadataInfoHash::V1(v1), Some(v2)) => Ok(MetadataInfoHash::Hybrid { v1, v2 }),
        (MetadataInfoHash::V2(_), Some(_)) => Err(()),
        (MetadataInfoHash::Hybrid { .. }, _) => Err(()),
        (identity, None) => Ok(identity),
    }
}

/// The problem of a digest that is not the one that was expected.
pub open spec fn digest_problem(label: Seq<char>, actual: Seq<u8>, expected: Seq<u8>) -> Problem {
    if actual != expected {
        Some(label + hex_text(actual) + " does not match expected "@ + hex_text(expected))
    } else {
        None
    }
}

/// Compares a digest with the one that was expected.
pub fn compare_digest(label: &str, actual: &[u8], expected: &[u8]) -> (r: CmdResult<()>)
    ensures
        reports(r, digest_problem(label@, actual@, expected@)),
{
    if equal_bytes(actual, expected) {
        return Ok(());
    }
    let found = hex_encode(actual);
    let wanted = hex_encode(expected);
    Err(join4(label, found.as_str(), " does not match expected ", wanted.as_str()))
}

pub open spec fn v1_problem(actual: Seq<u8>, expected: Seq<u8>) -> Problem {
    digest_problem("fetched metadata v1 infohash "@, actual, expected)
}

pub open spec fn v2_problem(actual: Seq<u8>, expected: Seq<u8>) -> Problem {
    digest_problem("fetched metadata v2 infohash "@, actual, expected)
}

/// What is wrong with an info dictionary whose digests are given.
pub open spec fn identity_problem(
    sha1: Seq<u8>,
    sha256: Seq<u8>,
    expected: MetadataInfoHash,
) -> Problem {
    match expected {
        MetadataInfoHash::V1(hash) => v1_problem(sha1, hash@),
        MetadataInfoHash::V2(hash) => v2_problem(sha256, hash@),
        MetadataInfoHash::Hybrid { v1, v2 } => either(
            v1_problem(sha1, v1@),
            v2_problem(sha256, v2@),
        ),
    }
}

/// The SHA-1 digest of an info dictionary is the expected one.
pub fn validate_metadata_v1_hash(metadata: &[u8], expected: [u8; 20]) -> (r: CmdResult<()>)
    ensures
        reports(r, v1_problem(sha1_digest(metadata@), expected@)),
{
    let actual = sha1(metadata);
    compare_digest("fetched metadata v1 infohash ", actual.as_slice(), expected.as_slice())
}

/// The SHA-256 digest of an info dictionary is the expected one.
pub fn validate_metadata_v2_hash(metadata: &[u8], expected: [u8; 32]) -> (r: CmdResult<()>)
    ensures
        reports(r, v2_problem(sha256_digest(metadata@), expected@)),
{
    let actual = sha256(metadata);
    compare_digest("fetched metadata v2 infohash ", actual.as_slice(), expected.as_slice())
}

/// A fetched info dictionary has the digests that the identity asks for.
pub fn validate_metadata_info_hash(metadata: &[u8], expected: MetadataInfoHash) -> (r: CmdResult<
    (),
>)
    ensures
        reports(
            r,
            identity_problem(sha1_digest(metadata@), sha256_digest(metadata@), expected),
        ),
{
    match expected {
        MetadataInfoHash::V1(hash) => validate_metadata_v1_hash(metadata, hash),
        MetadataInfoHash::V2(hash) => validate_metadata_v2_hash(metadata, hash),
        MetadataInfoHash::Hybrid { v1, v2 } => {
            validate_metadata_v1_hash(metadata, v1)?;
            validate_metadata_v2_hash(metadata, v2)
        },
    }
}

/// The identity that a magnet link gives, if it gives one.
pub fn magnet_identity(info_hash_v1: Option<[u8; 20]>, info_hash_v2: Option<[u8; 32]>) -> (r: Option<
    MetadataInfoHash,
>)
    ensures
        r == match (info_hash_v1, info_hash_v2) {
            (Some(v1), Some(v2)) => Some(MetadataInfoHash::Hybrid { v1, v2 }),
            (Some(v1), None) => Some(MetadataInfoHash::V1(v1)),
            (None, Some(v2)) => Some(MetadataInfoHash::V2(v2)),
            (None, None) => None,
        },
{
    match (info_hash_v1, info_hash_v2) {
        (Some(v1), Some(v2)) => Some(MetadataInfoHash::Hybrid { v1, v2 }),
        (Some(v1), None) => Some(MetadataInfoHash::V1(v1)),
        (None, Some(v2)) => Some(MetadataInfoHash::V2(v2)),
        (None, None) => None,
    }
}

/// The text under which a torrent is filed: its SHA-1 digest where it has
/// one, else its SHA-256 digest.
pub open spec fn filed_under(identity: MetadataInfoHash) -> Seq<char> {
    match identity {
        MetadataInfoHash::V1(hash) => hex_text(hash@),
        MetadataInfoHash::V2(hash) => hex_text(hash@),
        MetadataInfoHash::Hybrid { v1, .. } => hex_text(v1@),
    }
}

/// Writes the text under which a torrent is filed.
pub fn filing_text(identity: MetadataInfoHash) -> (r: String)
    ensures
        r@ == filed_under(identity),
{
    match identity {
        MetadataInfoHash::V1(hash) => hex_encode(hash.as_slice()),
        MetadataInfoHash::V2(hash) => hex_encode(hash.as_slice()),
        MetadataInfoHash::Hybrid { v1, .. } => hex_encode(v1.as_slice()),
    }
}

/// What a torrent is filed under, with the SHA-256 digest of a hybrid, gives
/// its identity back.
pub proof fn law_identity_survives_filing(identity: MetadataInfoHash)
    ensures
        is_hex(filed_under(identity)),
        match identity {
            MetadataInfoHash::V1(hash) => parsed_identity(filed_under(identity), Ok(identity)),
            MetadataInfoHash::V2(hash) => parsed_identity(filed_under(identity), Ok(identity)),
            MetadataInfoHash::Hybrid { v1, .. } => parsed_identity(
                filed_under(identity),
                Ok(MetadataInfoHash::V1(v1)),
            ),
        },
{
    match identity {
        MetadataInfoHash::V1(hash) => crate::digest::law_hex_round_trip(hash@),
        MetadataInfoHash::V2(hash) => crate::digest::law_hex_round_trip(hash@),
        MetadataInfoHash::Hybrid { v1, .. } => crate::digest::law_hex_round_trip(v1@),
    }
}

/// What an identity was read from is its notation: forty digits for a SHA-1
/// digest, sixty-four for a SHA-256 digest, and in lower case what the digest
/// is written as. No text is read as a hybrid, and any other text is refused.
pub proof fn law_identity_is_read_from_its_notation(
    value: Seq<char>,
    r: Result<MetadataInfoHash, ()>,
)
    requires
        parsed_identity(value, r),
    ensures
        match r {
            Ok(MetadataInfoHash::V1(hash)) => value.len() == 40 && hex_text(hash@) == lowered(
                value,
            ),
            Ok(MetadataInfoHash::V2(hash)) => value.len() == 64 && hex_text(hash@) == lowered(
                value,
            ),
            Ok(MetadataInfoHash::Hybrid { .. }) => false,
            Err(()) => !((value.len() == 40 || value.len() == 64) && is_hex(value)),
        },
{
    if is_hex(value) {
        crate::digest::law_hex_is_written_in_lower_case(value);
    }
}

/// A dictionary is accepted for a hybrid only where both digests agree.
pub proof fn law_hybrid_needs_both_digests(
    sha1: Seq<u8>,
    sha256: Seq<u8>,
    v1: [u8; 20],
    v2: [u8; 32],
)
    ensures
        identity_problem(sha1, sha256, MetadataInfoHash::Hybrid { v1, v2 }) is None <==> sha1
            == v1@ && sha256 == v2@,
{
}

/// An info dictionary is accepted exactly where it has every digest that its
/// identity names.
pub proof fn law_dictionaries_need_their_digests(
    sha1: Seq<u8>,
    sha256: Seq<u8>,
    expected: MetadataInfoHash,
)
    ensures
        identity_problem(sha1, sha256, expected) is None <==> match expected {
            MetadataInfoHash::V1(hash) => sha1 == hash@,
            MetadataInfoHash::V2(hash) => sha256 == hash@,
            MetadataInfoHash::Hybrid { v1, v2 } => sha1 == v1@ && sha256 == v2@,
        },
{
}

/// On the wire a torrent shows twenty bytes: its SHA-1 digest where it has one, else
/// the beginning of its SHA-256 digest. It is filed under the digest that it
/// shows, written out in full.
pub proof fn law_wire_and_file_agree(identity: MetadataInfoHash)
    ensures
        identity.wire().len() == 20,
        match identity {
            MetadataInfoHash::V1(hash) => identity.wire() == hash@ && filed_under(identity)
                == hex_text(hash@),
            MetadataInfoHash::V2(hash) => identity.wire() =~= hash@.subrange(0, 20) && filed_under(
                identity,
            ) == hex_text(hash@),
            MetadataInfoHash::Hybrid { v1, v2 } => identity.wire() == v1@ && filed_under(identity)
                == hex_text(v1@),
        },
        forall|i: int| 0 <= i < 40 ==> hex_text(identity.wire())[i] == #[trigger] filed_under(
            identity,
        )[i],
{
}

/// A magnet link has an identity exactly where it names a digest, and the identity
/// holds every digest that it names.
pub proof fn law_magnets_are_known_by_their_digests(
    v1: Option<[u8; 20]>,
    v2: Option<[u8; 32]>,
    r: Option<MetadataInfoHash>,
)
    requires
        call_ensures(magnet_identity, (v1, v2), r),
    ensures
        r is None <==> v1 is None && v2 is None,
        v1 is Some && v2 is Some ==> r == Some(
            MetadataInfoHash::Hybrid { v1: v1->0, v2: v2->0 },
        ),
        v1 is Some && v2 is None ==> r == Some(MetadataInfoHash::V1(v1->0)),
        v1 is None && v2 is Some ==> r == Some(MetadataInfoHash::V2(v2->0)),
{
}

/// A dictionary is known by a v2 hash alone exactly where it has no other.
pub proof fn law_pure_v2_is_told_apart(expected: MetadataInfoHash, r: bool)
    requires
        call_ensures(MetadataInfoHash::is_v2, (expected,), r),
    ensures
        r <==> !(expected is V1) && !(expected is Hybrid),
{
}

} // verus!
