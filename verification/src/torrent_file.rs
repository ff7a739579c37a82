//! Torrent files assembled from a fetched info dictionary.

use vstd::prelude::*;

use crate::limits::MAX_TORRENT_BYTES;
use crate::problem::CmdResult;
use crate::text::{count_text, decimal, join5};
use crate::validation::capped;

verus! {

/// The hashes of the pieces of one file, under the root of their tree.
#[derive(Debug)]
pub struct PieceLayer {
    pub root: [u8; 32],
    pub hashes: Vec<[u8; 32]>,
}

/// Layers as mathematical values: the root and the hashes of each.
pub open spec fn layer_views(layers: Seq<PieceLayer>) -> Seq<(Seq<u8>, Seq<[u8; 32]>)> {
    layers.map_values(|l: PieceLayer| (l.root@, l.hashes@))
}

/// `n` in decimal notation, as ASCII bytes.
pub open spec fn decimal_bytes(n: nat) -> Seq<u8>
    decreases n,
{
    if n < 10 {
        seq![(0x30 + n) as u8]
    } else {
        decimal_bytes(n / 10).push((0x30 + n % 10) as u8)
    }
}

/// A byte string in bencoding: its length, a colon, its bytes.
pub open spec fn bencoded(bytes: Seq<u8>) -> Seq<u8> {
    decimal_bytes(bytes.len()).push(0x3au8) + bytes
}

/// How many decimal digits a number has.
pub fn decimal_digits(value: usize) -> (digits: usize)
    ensures
        digits == decimal_bytes(value as nat).len(),
        1 <= digits <= 20,
{
    let mut rest: usize = value;
    let mut digits: usize = 1;
    proof {
        lemma_digits_bound(value as nat, 20);
    }
    while rest >= 10
        invariant
            digits >= 1,
            digits - 1 + decimal_bytes(rest as nat).len() == decimal_bytes(value as nat).len(),
            decimal_bytes(value as nat).len() <= 20,
        decreases rest,
    {
        rest = rest / 10;
        digits = digits + 1;
        proof {
            lemma_digits_positive(rest as nat);
        }
    }
    digits
}

proof fn lemma_digits_positive(n: nat)
    ensures
        decimal_bytes(n).len() >= 1,
{
}

spec fn power10(k: nat) -> nat
    decreases k,
{
    if k == 0 {
        1
    } else {
        10 * power10((k - 1) as nat)
    }
}

proof fn lemma_digits_power(n: nat, k: nat)
    requires
        k >= 1,
        n < power10(k),
    ensures
        decimal_bytes(n).len() <= k,
    decreases k,
{
    if n >= 10 {
        if k == 1 {
            assert(power10(1) == 10 * power10(0));
        } else {
            lemma_digits_power(n / 10, (k - 1) as nat);
        }
    }
}

proof fn lemma_digits_bound(n: nat, k: nat)
    requires
        n <= u64::MAX,
        k == 20,
    ensures
        decimal_bytes(n).len() <= k,
{
    reveal_with_fuel(power10, 21);
    assert(power10(20) == 100_000_000_000_000_000_000);
    lemma_digits_power(n, 20);
}

/// The size of a byte string of `payload_len` bytes in bencoding.
pub fn bencoded_bytes_len(payload_len: usize) -> (r: usize)
    ensures
        r == capped(decimal_bytes(payload_len as nat).len() + 1 + payload_len as nat),
{
    decimal_digits(payload_len).saturating_add(1).saturating_add(payload_len)
}

/// The UTF-8 bytes of a text.
pub open spec fn utf8(text: Seq<char>) -> Seq<u8> {
    vstd::utf8::encode_utf8(text)
}

/// Each tracker in a tier of its own.
pub open spec fn tier_bytes(trackers: Seq<String>) -> Seq<u8>
    decreases trackers.len(),
{
    if trackers.len() == 0 {
        seq![]
    } else {
        tier_bytes(trackers.drop_last()) + seq![0x6cu8] + bencoded(utf8(trackers.last()@))
            + seq![0x65u8]
    }
}

/// `announce` in ASCII.
pub open spec fn announce_key() -> Seq<u8> {
    seq![0x61u8, 0x6eu8, 0x6eu8, 0x6fu8, 0x75u8, 0x6eu8, 0x63u8, 0x65u8]
}

/// `announce-list` in ASCII.
pub open spec fn announce_list_key() -> Seq<u8> {
    announce_key() + seq![0x2du8, 0x6cu8, 0x69u8, 0x73u8, 0x74u8]
}

/// `info` in ASCII.
pub open spec fn info_key() -> Seq<u8> {
    seq![0x69u8, 0x6eu8, 0x66u8, 0x6fu8]
}

/// `piece layers` in ASCII.
pub open spec fn piece_layers_key() -> Seq<u8> {
    seq![
        0x70u8,
        0x69u8,
        0x65u8,
        0x63u8,
        0x65u8,
        0x20u8,
        0x6cu8,
        0x61u8,
        0x79u8,
        0x65u8,
        0x72u8,
        0x73u8,
    ]
}

/// The tracker entries of a torrent file: the first tracker, and all of them
/// in tiers.
pub open spec fn tracker_bytes(trackers: Seq<String>) -> Seq<u8> {
    if trackers.len() == 0 {
        seq![]
    } else {
        bencoded(announce_key()) + bencoded(utf8(trackers[0]@)) + bencoded(announce_list_key())
            + seq![0x6cu8] + tier_bytes(trackers) + seq![0x65u8]
    }
}

/// Hashes, one after another.
pub open spec fn joined_hashes(hashes: Seq<[u8; 32]>) -> Seq<u8>
    decreases hashes.len(),
{
    if hashes.len() == 0 {
        seq![]
    } else {
        joined_hashes(hashes.drop_last()) + hashes.last()@
    }
}

/// Layers, each under its root.
pub open spec fn layer_entries(layers: Seq<PieceLayer>) -> Seq<u8>
    decreases layers.len(),
{
    if layers.len() == 0 {
        seq![]
    } else {
        layer_entries(layers.drop_last()) + bencoded(layers.last().root@) + bencoded(
            joined_hashes(layers.last().hashes@),
        )
    }
}

/// The layer entries of a torrent file.
pub open spec fn layer_bytes(layers: Seq<PieceLayer>) -> Seq<u8> {
    if layers.len() == 0 {
        seq![]
    } else {
        bencoded(piece_layers_key()) + seq![0x64u8] + layer_entries(layers) + seq![0x65u8]
    }
}

/// A torrent file: a dictionary whose keys are in ascending order.
pub open spec fn torrent_bytes(
    info: Seq<u8>,
    trackers: Seq<String>,
    layers: Seq<PieceLayer>,
) -> Seq<u8> {
    seq![0x64u8] + tracker_bytes(trackers) + bencoded(info_key()) + info + layer_bytes(layers)
        + seq![0x65u8]
}

/// Byte strings in dictionary order.
pub open spec fn bytes_less(a: Seq<u8>, b: Seq<u8>) -> bool
    decreases a.len(),
{
    if b.len() == 0 {
        false
    } else if a.len() == 0 {
        true
    } else if a[0] != b[0] {
        a[0] < b[0]
    } else {
        bytes_less(a.skip(1), b.skip(1))
    }
}

/// `sorted` holds the layers in ascending order of their roots, no root twice.
pub open spec fn is_sorted_by_root(sorted: Seq<PieceLayer>, layers: Seq<PieceLayer>) -> bool {
    &&& sorted.to_multiset() == layers.to_multiset()
    &&& forall|i: int, j: int|
        0 <= i < j < sorted.len() ==> bytes_less(
            (#[trigger] sorted[i]).root@,
            (#[trigger] sorted[j]).root@,
        )
}

/// Two layers have the same root.
pub open spec fn has_duplicate_root(layers: Seq<PieceLayer>) -> bool {
    exists|i: int, j: int|
        0 <= i < j < layers.len() && (#[trigger] layers[i]).root@ == (#[trigger] layers[j]).root@
}

/// Appends bytes.
fn append_bytes(out: &mut Vec<u8>, bytes: &[u8])
    ensures
        final(out)@ == old(out)@ + bytes@,
{
    out.extend_from_slice(bytes);
    assert(out@ =~= old(out)@ + bytes@);
}

fn write_decimal(out: &mut Vec<u8>, n: usize)
    ensures
        final(out)@ == old(out)@ + decimal_bytes(n as nat),
    decreases n,
{
    if n < 10 {
        out.push(0x30u8 + n as u8);
        assert(out@ =~= old(out)@ + decimal_bytes(n as nat));
    } else {
        write_decimal(out, n / 10);
        out.push(0x30u8 + (n % 10) as u8);
        assert(out@ =~= old(out)@ + decimal_bytes(n as nat));
    }
}

/// Appends the length prefix of a byte string.
pub fn write_bytes_len(out: &mut Vec<u8>, len: usize)
    ensures
        final(out)@ == old(out)@ + decimal_bytes(len as nat).push(0x3au8),
{
    write_decimal(out, len);
    out.push(0x3a);
    assert(out@ =~= old(out)@ + decimal_bytes(len as nat).push(0x3au8));
}

/// Appends a byte string in bencoding.
pub fn write_bytes(out: &mut Vec<u8>, bytes: &[u8])
    ensures
        final(out)@ == old(out)@ + bencoded(bytes@),
{
    write_bytes_len(out, bytes.len());
    append_bytes(out, bytes);
    assert(out@ =~= old(out)@ + bencoded(bytes@));
}

/// Appends a dictionary key in bencoding.
pub fn write_bytes_key(out: &mut Vec<u8>, key: &[u8])
    ensures
        final(out)@ == old(out)@ + bencoded(key@),
{
    write_bytes(out, key);
}

/// The sizes of fixed parts.
proof fn lemma_key_sizes()
    ensures
        bencoded(announce_key()).len() == 10,
        bencoded(announce_list_key()).len() == 16,
        bencoded(info_key()).len() == 6,
        bencoded(piece_layers_key()).len() == 15,
        forall|root: Seq<u8>| root.len() == 32 ==> #[trigger] bencoded(root).len() == 35,
{
    reveal_with_fuel(decimal_bytes, 3);
}

/// The size of the tracker entries of a torrent file.
pub fn metadata_completion_tracker_bytes(trackers: &[String]) -> (r: usize)
    ensures
        r == capped(tracker_bytes(trackers@).len()),
{
    if trackers.len() == 0 {
        return 0;
    }
    let mut total: usize = bencoded_bytes_len(8).saturating_add(
        bencoded_bytes_len(trackers[0].as_str().as_bytes().len()),
    ).saturating_add(bencoded_bytes_len(13)).saturating_add(1);
    let ghost head = bencoded(announce_key()) + bencoded(utf8(trackers@[0]@)) + bencoded(
        announce_list_key(),
    ) + seq![0x6cu8];
    let mut i: usize = 0;
    proof {
        lemma_key_sizes();
        reveal_with_fuel(decimal_bytes, 3);
        assert(trackers@.take(0) =~= Seq::<String>::empty());
    }
    while i < trackers.len()
        invariant
            i <= trackers@.len(),
            total == capped(head.len() + tier_bytes(trackers@.take(i as int)).len()),
        decreases trackers@.len() - i,
    {
        proof {
            assert(trackers@.take(i as int + 1).drop_last() =~= trackers@.take(i as int));
        }
        total =
        total.saturating_add(1).saturating_add(
            bencoded_bytes_len(trackers[i].as_str().as_bytes().len()),
        ).saturating_add(1);
        i = i + 1;
    }
    assert(trackers@.take(i as int) =~= trackers@);
    total.saturating_add(1)
}

/// Compares two roots in dictionary order: whether the first comes first, and
/// whether they are the same.
fn root_order(a: &[u8; 32], b: &[u8; 32]) -> (r: (bool, bool))
    ensures
        r.0 == bytes_less(a@, b@),
        r.1 == (a@ == b@),
{
    let mut i: usize = 0;
    assert(a@.skip(0) =~= a@);
    assert(b@.skip(0) =~= b@);
    while i < 32
        invariant
            i <= 32,
            forall|k: int| 0 <= k < i ==> a@[k] == b@[k],
            bytes_less(a@, b@) == bytes_less(a@.skip(i as int), b@.skip(i as int)),
        decreases 32 - i,
    {
        assert(a@.skip(i as int)[0] == a@[i as int]);
        assert(b@.skip(i as int)[0] == b@[i as int]);
        if a[i] != b[i] {
            return (a[i] < b[i], false);
        }
        assert(a@.skip(i as int).skip(1) =~= a@.skip(i + 1));
        assert(b@.skip(i as int).skip(1) =~= b@.skip(i + 1));
        i = i + 1;
    }
    assert(a@ =~= b@);
    (false, true)
}

proof fn lemma_less_total(a: Seq<u8>, b: Seq<u8>)
    requires
        a.len() == b.len(),
    ensures
        bytes_less(a, b) || bytes_less(b, a) || a == b,
    decreases a.len(),
{
    if a.len() > 0 {
        if a[0] == b[0] {
            lemma_less_total(a.skip(1), b.skip(1));
            if a.skip(1) == b.skip(1) {
                assert(a =~= seq![a[0]] + a.skip(1));
                assert(b =~= seq![b[0]] + b.skip(1));
            }
        }
    } else {
        assert(a =~= b);
    }
}

proof fn lemma_less_transitive(a: Seq<u8>, b: Seq<u8>, c: Seq<u8>)
    requires
        bytes_less(a, b),
        bytes_less(b, c),
    ensures
        bytes_less(a, c),
    decreases a.len(),
{
    if a.len() > 0 && a[0] == b[0] && b[0] == c[0] {
        lemma_less_transitive(a.skip(1), b.skip(1), c.skip(1));
    }
}

proof fn lemma_less_irreflexive(a: Seq<u8>)
    ensures
        !bytes_less(a, a),
    decreases a.len(),
{
    if a.len() > 0 {
        lemma_less_irreflexive(a.skip(1));
    }
}

proof fn lemma_insert_multiset<T>(s: Seq<T>, i: int, x: T)
    requires
        0 <= i <= s.len(),
    ensures
        s.insert(i, x).to_multiset() == s.to_multiset().insert(x),
{
    let t = s.insert(i, x);
    assert(t.remove(i) =~= s);
    assert(t[i] == x);
    t.to_multiset_ensures();
    s.to_multiset_ensures();
    assert(t.contains(x));
    assert(t.to_multiset() =~= s.to_multiset().insert(x));
}

/// The layers at the places that `order` lists.
spec fn picked(layers: Seq<PieceLayer>, order: Seq<usize>) -> Seq<PieceLayer> {
    order.map_values(|i: usize| layers[i as int])
}

spec fn lists_place(order: Seq<usize>, k: int) -> bool {
    exists|i: int| 0 <= i < order.len() && #[trigger] order[i] == k
}

/// The places of the layers in ascending order of their roots, or nothing
/// where two have the same root.
fn sort_layers(layers: &[PieceLayer]) -> (r: Option<Vec<usize>>)
    ensures
        match r {
            Some(order) => {
                &&& order@.len() == layers@.len()
                &&& forall|i: int| 0 <= i < order@.len() ==> (#[trigger] order@[i]) < layers@.len()
                &&& is_sorted_by_root(picked(layers@, order@), layers@)
                &&& !has_duplicate_root(layers@)
            },
            None => has_duplicate_root(layers@),
        },
{
    let mut order: Vec<usize> = Vec::new();
    let mut n: usize = 0;
    assert(picked(layers@, order@) =~= layers@.take(0));
    while n < layers.len()
        invariant
            n <= layers@.len(),
            order@.len() == n,
            forall|i: int| 0 <= i < order@.len() ==> (#[trigger] order@[i]) < n,
            forall|k: int| 0 <= k < n ==> #[trigger] lists_place(order@, k),
            is_sorted_by_root(picked(layers@, order@), layers@.take(n as int)),
            !has_duplicate_root(layers@.take(n as int)),
        decreases layers@.len() - n,
    {
        let ghost before = order@;
        let ghost sorted = picked(layers@, order@);
        let ghost item = layers@[n as int];
        let mut at: usize = 0;
        let mut found = false;
        while at < order.len() && !found
            invariant
                at <= order@.len(),
                order@ == before,
                n < layers@.len(),
                sorted == picked(layers@, before),
                item == layers@[n as int],
                forall|i: int| 0 <= i < order@.len() ==> (#[trigger] order@[i]) < n,
                forall|i: int| 0 <= i < at ==> bytes_less((#[trigger] sorted[i]).root@, item.root@),
                found ==> at < order@.len() && bytes_less(item.root@, sorted[at as int].root@),
            ensures
                at <= order@.len(),
                forall|i: int| 0 <= i < at ==> bytes_less((#[trigger] sorted[i]).root@, item.root@),
                at < order@.len() ==> bytes_less(item.root@, sorted[at as int].root@),
            decreases order@.len() - at, if found { 0int } else { 1int },
        {
            let other = order[at];
            assert(sorted[at as int] == layers@[other as int]);
            let (less, same) = root_order(&layers[other].root, &layers[n].root);
            if same {
                assert(layers@[other as int].root@ == layers@[n as int].root@);
                return None;
            }
            if less {
                at = at + 1;
            } else {
                proof {
                    lemma_less_total(layers@[other as int].root@, item.root@);
                }
                found = true;
            }
        }
        order.insert(at, n);
        proof {
            let after = picked(layers@, order@);
            assert(after =~= sorted.insert(at as int, item));
            lemma_insert_multiset(sorted, at as int, item);
            let upto = layers@.take(n as int);
            assert(layers@.take(n + 1) =~= upto.push(item));
            upto.to_multiset_ensures();
            assert(after.to_multiset() =~= layers@.take(n + 1).to_multiset());
            assert forall|i: int, j: int| 0 <= i < j < after.len() implies bytes_less(
                (#[trigger] after[i]).root@,
                (#[trigger] after[j]).root@,
            ) by {
                let a = if i < at { i } else { i - 1 };
                let b = if j < at { j } else { j - 1 };
                if i == at {
                    assert(after[j] == sorted[b]);
                    if b > at {
                        lemma_less_transitive(item.root@, sorted[at as int].root@, sorted[b].root@);
                    }
                } else if j == at {
                    assert(after[i] == sorted[a]);
                } else {
                    assert(after[i] == sorted[a]);
                    assert(after[j] == sorted[b]);
                }
            }
            assert forall|k: int| 0 <= k < n + 1 implies #[trigger] lists_place(order@, k) by {
                if k == n {
                    assert(order@[at as int] == k);
                } else {
                    assert(lists_place(before, k));
                    let i = choose|i: int| 0 <= i < before.len() && #[trigger] before[i] == k;
                    if i < at {
                        assert(order@[i] == k);
                    } else {
                        assert(order@[i + 1] == k);
                    }
                }
            }
            assert forall|i: int, j: int| 0 <= i < j < n + 1 implies (
            #[trigger] layers@.take(n + 1)[i]).root@ != (#[trigger] layers@.take(n + 1)[j]).root@ by {
                assert(lists_place(order@, i) && lists_place(order@, j));
                let p = choose|p: int| 0 <= p < order@.len() && #[trigger] order@[p] == i;
                let q = choose|q: int| 0 <= q < order@.len() && #[trigger] order@[q] == j;
                assert(after[p] == layers@[i]);
                assert(after[q] == layers@[j]);
                lemma_less_irreflexive(after[p].root@);
                if p < q {
                    assert(bytes_less(after[p].root@, after[q].root@));
                } else {
                    assert(bytes_less(after[q].root@, after[p].root@));
                }
            }
            assert forall|i: int| 0 <= i < order@.len() implies (#[trigger] order@[i]) < n + 1 by {
                if i < at {
                    assert(order@[i] == before[i]);
                } else if i > at {
                    assert(order@[i] == before[i - 1]);
                }
            }
        }
        n = n + 1;
    }
    assert(layers@.take(n as int) =~= layers@);
    Some(order)
}

/// The size of the entries of `layers` in a torrent file, or why it cannot be
/// told.
pub open spec fn layers_size(layers: Seq<PieceLayer>) -> Result<nat, Seq<char>>
    decreases layers.len(),
{
    if layers.len() == 0 {
        Ok(0)
    } else {
        match layers_size(layers.drop_last()) {
            Err(e) => Err(e),
            Ok(total) => {
                let hash_bytes = layers.last().hashes@.len() * 32;
                let sum = total + 35 + decimal_bytes(hash_bytes).len() + 1 + hash_bytes;
                if hash_bytes > usize::MAX {
                    Err("v2 piece-layer byte count overflowed"@)
                } else if sum > usize::MAX {
                    Err("v2 piece-layer encoding size overflowed"@)
                } else {
                    Ok(sum)
                }
            },
        }
    }
}

proof fn lemma_layers_size_stays(layers: Seq<PieceLayer>, n: int)
    requires
        0 <= n <= layers.len(),
        layers_size(layers.take(n)) is Err,
    ensures
        layers_size(layers) == layers_size(layers.take(n)),
    decreases layers.len() - n,
{
    if n < layers.len() {
        assert(layers.take(n + 1).drop_last() =~= layers.take(n));
        lemma_layers_size_stays(layers, n + 1);
    } else {
        assert(layers.take(n) =~= layers);
    }
}

proof fn lemma_joined_len(hashes: Seq<[u8; 32]>)
    ensures
        joined_hashes(hashes).len() == hashes.len() * 32,
    decreases hashes.len(),
{
    if hashes.len() > 0 {
        lemma_joined_len(hashes.drop_last());
    }
}

/// Where the size can be told, it is the size.
proof fn lemma_layers_size(layers: Seq<PieceLayer>)
    ensures
        layers_size(layers) matches Ok(n) ==> layer_entries(layers).len() == n,
    decreases layers.len(),
{
    if layers.len() > 0 {
        lemma_layers_size(layers.drop_last());
        lemma_joined_len(layers.last().hashes@);
        lemma_key_sizes();
        assert(layers.last().root@.len() == 32);
    }
}

/// Why no torrent file is made of the parts, if none is; `sorted` holds the
/// layers in the order in which they are written.
pub open spec fn torrent_refusal(
    info: Seq<u8>,
    trackers: Seq<String>,
    sorted: Seq<PieceLayer>,
) -> Option<Seq<char>> {
    match layers_size(sorted) {
        Err(e) => Some(e),
        Ok(entries) => {
            let size = torrent_bytes(info, trackers, sorted).len();
            if sorted.len() > 0 && 15 + 1 + entries + 1 > usize::MAX {
                Some("v2 piece-layer encoding size overflowed"@)
            } else if size > MAX_TORRENT_BYTES {
                Some(
                    "raw metainfo requires "@ + decimal(capped(size)) + " bytes, above the "@
                        + decimal(MAX_TORRENT_BYTES as nat) + "-byte limit"@,
                )
            } else {
                None
            }
        },
    }
}

/// Adds up the entries of the layers in the order in which they are written.
fn measure_layers(layers: &[PieceLayer], order: &Vec<usize>) -> (r: CmdResult<usize>)
    requires
        forall|i: int| 0 <= i < order@.len() ==> (#[trigger] order@[i]) < layers@.len(),
    ensures
        match layers_size(picked(layers@, order@)) {
            Ok(n) => r matches Ok(m) && m == n,
            Err(text) => r matches Err(e) && e@ == text,
        },
{
    let ghost sorted = picked(layers@, order@);
    let mut total: usize = 0;
    let mut i: usize = 0;
    assert(sorted.take(0) =~= Seq::<PieceLayer>::empty());
    while i < order.len()
        invariant
            i <= order@.len(),
            sorted == picked(layers@, order@),
            forall|k: int| 0 <= k < order@.len() ==> (#[trigger] order@[k]) < layers@.len(),
            layers_size(sorted.take(i as int)) == Ok::<nat, Seq<char>>(total as nat),
        decreases order@.len() - i,
    {
        let layer = &layers[order[i]];
        proof {
            assert(sorted[i as int] == *layer);
            assert(sorted.take(i + 1).drop_last() =~= sorted.take(i as int));
            assert(sorted.take(i + 1).last() == *layer);
            if layers_size(sorted.take(i + 1)) is Err {
                lemma_layers_size_stays(sorted, i + 1);
            }
        }
        let hash_bytes: usize = match layer.hashes.len().checked_mul(32) {
            Some(n) => n,
            None => {
                return Err("v2 piece-layer byte count overflowed".to_owned());
            },
        };
        let sum = match total.checked_add(35) {
            Some(n) => n.checked_add(bencoded_bytes_len(hash_bytes)),
            None => None,
        };
        total =
        match sum {
            Some(n) => n,
            None => {
                return Err("v2 piece-layer encoding size overflowed".to_owned());
            },
        };
        i = i + 1;
    }
    assert(sorted.take(i as int) =~= sorted);
    Ok(total)
}

fn write_layers(out: &mut Vec<u8>, layers: &[PieceLayer], order: &Vec<usize>)
    requires
        forall|i: int| 0 <= i < order@.len() ==> (#[trigger] order@[i]) < layers@.len(),
        layers_size(picked(layers@, order@)) is Ok,
    ensures
        final(out)@ == old(out)@ + layer_entries(picked(layers@, order@)),
{
    let ghost sorted = picked(layers@, order@);
    let ghost start = out@;
    let mut i: usize = 0;
    proof {
        assert(sorted.take(0) =~= Seq::<PieceLayer>::empty());
        assert(start + layer_entries(sorted.take(0)) =~= start);
    }
    while i < order.len()
        invariant
            i <= order@.len(),
            sorted == picked(layers@, order@),
            layers_size(sorted) is Ok,
            forall|k: int| 0 <= k < order@.len() ==> (#[trigger] order@[k]) < layers@.len(),
            out@ == start + layer_entries(sorted.take(i as int)),
        decreases order@.len() - i,
    {
        let layer = &layers[order[i]];
        proof {
            assert(sorted[i as int] == *layer);
            assert(sorted.take(i + 1).drop_last() =~= sorted.take(i as int));
            assert(sorted.take(i + 1).last() == *layer);
            if layers_size(sorted.take(i + 1)) is Err {
                lemma_layers_size_stays(sorted, i + 1);
            }
            lemma_joined_len(layer.hashes@);
        }
        write_bytes(out, layer.root.as_slice());
        let ghost mid = out@;
        write_bytes_len(out, layer.hashes.len() * 32);
        let ghost prefixed = out@;
        let mut k: usize = 0;
        assert(layer.hashes@.take(0) =~= Seq::<[u8; 32]>::empty());
        assert(prefixed + joined_hashes(layer.hashes@.take(0)) =~= prefixed);
        while k < layer.hashes.len()
            invariant
                k <= layer.hashes@.len(),
                out@ == prefixed + joined_hashes(layer.hashes@.take(k as int)),
            decreases layer.hashes@.len() - k,
        {
            proof {
                assert(layer.hashes@.take(k + 1).drop_last() =~= layer.hashes@.take(k as int));
            }
            append_bytes(out, layer.hashes[k].as_slice());
            assert(out@ =~= prefixed + joined_hashes(layer.hashes@.take(k + 1)));
            k = k + 1;
        }
        proof {
            assert(layer.hashes@.take(k as int) =~= layer.hashes@);
            assert(out@ =~= start + layer_entries(sorted.take(i + 1)));
        }
        i = i + 1;
    }
    assert(sorted.take(i as int) =~= sorted);
}

fn write_trackers(out: &mut Vec<u8>, trackers: &[String])
    ensures
        final(out)@ == old(out)@ + tracker_bytes(trackers@),
{
    let ghost start = out@;
    if trackers.len() == 0 {
        assert(out@ =~= start + tracker_bytes(trackers@));
        return ;
    }
    let announce: [u8; 8] = [0x61, 0x6e, 0x6e, 0x6f, 0x75, 0x6e, 0x63, 0x65];
    let announce_list: [u8; 13] = [
        0x61,
        0x6e,
        0x6e,
        0x6f,
        0x75,
        0x6e,
        0x63,
        0x65,
        0x2d,
        0x6c,
        0x69,
        0x73,
        0x74,
    ];
    assert(announce@ =~= announce_key());
    assert(announce_list@ =~= announce_list_key());
    write_bytes_key(out, announce.as_slice());
    write_bytes(out, trackers[0].as_str().as_bytes());
    write_bytes_key(out, announce_list.as_slice());
    out.push(0x6c);
    let ghost head = bencoded(announce_key()) + bencoded(utf8(trackers@[0]@)) + bencoded(
        announce_list_key(),
    ) + seq![0x6cu8];
    assert(out@ =~= start + head);
    let mut i: usize = 0;
    proof {
        assert(trackers@.take(0) =~= Seq::<String>::empty());
        assert(start + head + tier_bytes(trackers@.take(0)) =~= start + head);
    }
    while i < trackers.len()
        invariant
            i <= trackers@.len(),
            out@ == start + head + tier_bytes(trackers@.take(i as int)),
        decreases trackers@.len() - i,
    {
        proof {
            assert(trackers@.take(i + 1).drop_last() =~= trackers@.take(i as int));
        }
        out.push(0x6c);
        write_bytes(out, trackers[i].as_str().as_bytes());
        out.push(0x65);
        assert(out@ =~= start + head + tier_bytes(trackers@.take(i + 1)));
        i = i + 1;
    }
    assert(trackers@.take(i as int) =~= trackers@);
    out.push(0x65);
    assert(out@ =~= start + tracker_bytes(trackers@));
}

/// A torrent file, or why there is none, as a mathematical value.
pub open spec fn file_view(r: CmdResult<Vec<u8>>) -> Result<Seq<u8>, Seq<char>> {
    match r {
        Ok(out) => Ok(out@),
        Err(e) => Err(e@),
    }
}

/// `r` is what comes of an info dictionary, trackers and piece layers: the file
/// with the layers in the order of their roots, or why there is none.
pub open spec fn is_built(
    info: Seq<u8>,
    trackers: Seq<String>,
    layers: Seq<PieceLayer>,
    r: Result<Seq<u8>, Seq<char>>,
) -> bool {
    if has_duplicate_root(layers) {
        r == Err::<Seq<u8>, Seq<char>>("duplicate v2 piece-layer root"@)
    } else {
        exists|sorted: Seq<PieceLayer>| #[trigger]
            is_sorted_by_root(sorted, layers) && r == match torrent_refusal(
                info,
                trackers,
                sorted,
            ) {
                Some(text) => Err(text),
                None => Ok(torrent_bytes(info, trackers, sorted)),
            }
    }
}

/// Makes a torrent file of an info dictionary, trackers and piece layers. The
/// layers are written in the order of their roots; two layers with one root,
/// and a file that is too large to be read again, are refused.
pub fn build_torrent_from_info(info: &[u8], trackers: &[String], piece_layers: &[PieceLayer]) -> (r:
    CmdResult<Vec<u8>>)
    ensures
        is_built(info@, trackers@, piece_layers@, file_view(r)),
{
    let order = match sort_layers(piece_layers) {
        Some(order) => order,
        None => {
            return Err("duplicate v2 piece-layer root".to_owned());
        },
    };
    let ghost sorted = picked(piece_layers@, order@);
    assert(is_sorted_by_root(sorted, piece_layers@));
    let entries: usize = measure_layers(piece_layers, &order)?;
    proof {
        lemma_layers_size(sorted);
        lemma_key_sizes();
    }
    let layers_capacity: usize = if order.len() == 0 {
        0
    } else {
        match entries.checked_add(17) {
            Some(n) => n,
            None => {
                return Err("v2 piece-layer encoding size overflowed".to_owned());
            },
        }
    };
    let capacity: usize = 1usize.saturating_add(
        metadata_completion_tracker_bytes(trackers),
    ).saturating_add(6).saturating_add(info.len()).saturating_add(layers_capacity).saturating_add(
        1,
    );
    assert(capacity == capped(torrent_bytes(info@, trackers@, sorted).len()));
    if capacity > MAX_TORRENT_BYTES {
        let needed = count_text(capacity);
        let limit = count_text(MAX_TORRENT_BYTES);
        return Err(
            join5(
                "raw metainfo requires ",
                needed.as_str(),
                " bytes, above the ",
                limit.as_str(),
                "-byte limit",
            ),
        );
    }
    let mut out: Vec<u8> = Vec::with_capacity(capacity);
    let info_name: [u8; 4] = [0x69, 0x6e, 0x66, 0x6f];
    assert(info_name@ =~= info_key());
    out.push(0x64);
    write_trackers(&mut out, trackers);
    write_bytes_key(&mut out, info_name.as_slice());
    append_bytes(&mut out, info);
    if order.len() > 0 {
        let layers_name: [u8; 12] = [
            0x70,
            0x69,
            0x65,
            0x63,
            0x65,
            0x20,
            0x6c,
            0x61,
            0x79,
            0x65,
            0x72,
            0x73,
        ];
        assert(layers_name@ =~= piece_layers_key());
        write_bytes_key(&mut out, layers_name.as_slice());
        out.push(0x64);
        write_layers(&mut out, piece_layers, &order);
        out.push(0x65);
    }
    out.push(0x65);
    assert(out@ =~= torrent_bytes(info@, trackers@, sorted));
    Ok(out)
}

proof fn lemma_mapped_permutation<A, B>(p: Seq<A>, q: Seq<A>, f: spec_fn(A) -> B)
    requires
        p.to_multiset() == q.to_multiset(),
    ensures
        p.map_values(f).to_multiset() == q.map_values(f).to_multiset(),
    decreases p.len(),
{
    p.to_multiset_ensures();
    q.to_multiset_ensures();
    let pf = p.map_values(f);
    let qf = q.map_values(f);
    assert(p.len() == q.len());
    if p.len() == 0 {
        assert(pf =~= qf);
    } else {
        let n = p.len() - 1;
        assert(p.contains(p[n]));
        assert(q.to_multiset().count(p[n]) > 0);
        assert(q.contains(p[n]));
        let j = choose|j: int| 0 <= j < q.len() && q[j] == p[n];
        let fewer_p = p.remove(n);
        let fewer_q = q.remove(j);
        assert(fewer_p.to_multiset() == fewer_q.to_multiset());
        lemma_mapped_permutation(fewer_p, fewer_q, f);
        assert(fewer_p.map_values(f) =~= pf.remove(n));
        assert(fewer_q.map_values(f) =~= qf.remove(j));
        assert(pf =~= fewer_p.map_values(f).push(f(p[n])));
        assert(qf =~= fewer_q.map_values(f).insert(j, f(p[n])));
        fewer_p.map_values(f).to_multiset_ensures();
        vstd::seq_lib::to_multiset_insert(fewer_q.map_values(f), j, f(p[n]));
    }
}

/// In ascending order of their roots, no root twice.
spec fn is_ascending(layers: Seq<(Seq<u8>, Seq<[u8; 32]>)>) -> bool {
    forall|i: int, j: int|
        0 <= i < j < layers.len() ==> bytes_less(
            (#[trigger] layers[i]).0,
            (#[trigger] layers[j]).0,
        )
}

proof fn lemma_ascending_is_unique(
    a: Seq<(Seq<u8>, Seq<[u8; 32]>)>,
    b: Seq<(Seq<u8>, Seq<[u8; 32]>)>,
)
    requires
        a.to_multiset() == b.to_multiset(),
        is_ascending(a),
        is_ascending(b),
    ensures
        a == b,
    decreases a.len(),
{
    a.to_multiset_ensures();
    b.to_multiset_ensures();
    assert(a.len() == b.len());
    if a.len() == 0 {
        assert(a =~= b);
    } else {
        let x = a.last();
        let y = b.last();
        assert(a.contains(x));
        assert(b.to_multiset().count(x) > 0);
        assert(b.contains(x));
        assert(b.contains(y));
        assert(a.to_multiset().count(y) > 0);
        assert(a.contains(y));
        let i = choose|i: int| 0 <= i < b.len() && b[i] == x;
        let j = choose|j: int| 0 <= j < a.len() && a[j] == y;
        if x != y {
            assert(bytes_less(b[i].0, b[b.len() - 1].0));
            assert(bytes_less(a[j].0, a[a.len() - 1].0));
            lemma_less_transitive(x.0, y.0, x.0);
            lemma_less_irreflexive(x.0);
        }
        assert(a.drop_last() =~= a.remove(a.len() - 1));
        assert(b.drop_last() =~= b.remove(b.len() - 1));
        lemma_ascending_is_unique(a.drop_last(), b.drop_last());
        assert(a =~= a.drop_last().push(x));
        assert(b =~= b.drop_last().push(y));
    }
}

proof fn lemma_file_depends_on_views(a: Seq<PieceLayer>, b: Seq<PieceLayer>)
    requires
        layer_views(a) == layer_views(b),
    ensures
        layer_entries(a) == layer_entries(b),
        layers_size(a) == layers_size(b),
        a.len() == b.len(),
    decreases a.len(),
{
    assert(layer_views(a).len() == a.len() && layer_views(b).len() == b.len());
    if a.len() > 0 {
        let n = a.len() - 1;
        assert(layer_views(a)[n] == layer_views(b)[n]);
        assert(layer_views(a.drop_last()) =~= layer_views(a).drop_last());
        assert(layer_views(b.drop_last()) =~= layer_views(b).drop_last());
        lemma_file_depends_on_views(a.drop_last(), b.drop_last());
    }
}

spec fn roots(layers: Seq<PieceLayer>) -> Seq<Seq<u8>> {
    layer_views(layers).map_values(|l: (Seq<u8>, Seq<[u8; 32]>)| l.0)
}

proof fn lemma_duplicate_root(layers: Seq<PieceLayer>)
    ensures
        has_duplicate_root(layers) == !roots(layers).no_duplicates(),
{
    let r = roots(layers);
    assert forall|i: int| 0 <= i < layers.len() implies r[i] == (#[trigger] layers[i]).root@ by {}
    if has_duplicate_root(layers) {
        let (i, j) = choose|i: int, j: int|
            0 <= i < j < layers.len() && (#[trigger] layers[i]).root@ == (
            #[trigger] layers[j]).root@;
        assert(r[i] == r[j]);
    }
    if !r.no_duplicates() {
        let (i, j) = choose|i: int, j: int|
            0 <= i < r.len() && 0 <= j < r.len() && i != j && r[i] == r[j];
        assert(layers[i].root@ == layers[j].root@);
        if i < j {
            assert(has_duplicate_root(layers));
        } else {
            assert(layers[j].root@ == layers[i].root@);
            assert(has_duplicate_root(layers));
        }
    }
}

/// The order in which the layers are given does not matter: a permutation of
/// them, each with the same root and hashes, has a root twice exactly where
/// they have, and gives the same file or the same refusal.
pub proof fn law_layers_may_come_in_any_order(
    info: Seq<u8>,
    trackers: Seq<String>,
    p: Seq<PieceLayer>,
    q: Seq<PieceLayer>,
    r: Result<Seq<u8>, Seq<char>>,
    s: Result<Seq<u8>, Seq<char>>,
)
    requires
        layer_views(p).to_multiset() == layer_views(q).to_multiset(),
        is_built(info, trackers, p, r),
        is_built(info, trackers, q, s),
    ensures
        has_duplicate_root(p) == has_duplicate_root(q),
        r == s,
{
    let root = |l: (Seq<u8>, Seq<[u8; 32]>)| l.0;
    let view = |l: PieceLayer| (l.root@, l.hashes@);
    lemma_duplicate_root(p);
    lemma_duplicate_root(q);
    lemma_mapped_permutation(layer_views(p), layer_views(q), root);
    assert(roots(p) =~= layer_views(p).map_values(root));
    assert(roots(q) =~= layer_views(q).map_values(root));
    if roots(p).no_duplicates() {
        roots(p).lemma_multiset_has_no_duplicates();
        roots(q).lemma_multiset_has_no_duplicates_conv();
    }
    if roots(q).no_duplicates() {
        roots(q).lemma_multiset_has_no_duplicates();
        roots(p).lemma_multiset_has_no_duplicates_conv();
    }
    if !has_duplicate_root(p) {
        let a = choose|sorted: Seq<PieceLayer>| #[trigger]
            is_sorted_by_root(sorted, p) && r == match torrent_refusal(info, trackers, sorted) {
                Some(text) => Err(text),
                None => Ok(torrent_bytes(info, trackers, sorted)),
            };
        let b = choose|sorted: Seq<PieceLayer>| #[trigger]
            is_sorted_by_root(sorted, q) && s == match torrent_refusal(info, trackers, sorted) {
                Some(text) => Err(text),
                None => Ok(torrent_bytes(info, trackers, sorted)),
            };
        lemma_mapped_permutation(a, p, view);
        lemma_mapped_permutation(b, q, view);
        assert(layer_views(a) =~= a.map_values(view));
        assert(layer_views(b) =~= b.map_values(view));
        assert(layer_views(p) =~= p.map_values(view));
        assert(layer_views(q) =~= q.map_values(view));
        assert forall|i: int, j: int| 0 <= i < j < layer_views(a).len() implies bytes_less(
            (#[trigger] layer_views(a)[i]).0,
            (#[trigger] layer_views(a)[j]).0,
        ) by {
            assert(bytes_less(a[i].root@, a[j].root@));
        }
        assert forall|i: int, j: int| 0 <= i < j < layer_views(b).len() implies bytes_less(
            (#[trigger] layer_views(b)[i]).0,
            (#[trigger] layer_views(b)[j]).0,
        ) by {
            assert(bytes_less(b[i].root@, b[j].root@));
        }
        lemma_ascending_is_unique(layer_views(a), layer_views(b));
        lemma_file_depends_on_views(a, b);
    }
}

/// The number that decimal digits stand for.
pub open spec fn digits_value(digits: Seq<u8>) -> int
    decreases digits.len(),
{
    if digits.len() == 0 {
        0
    } else {
        10 * digits_value(digits.drop_last()) + (digits.last() - 0x30)
    }
}

/// Lengths are written in decimal digits, with no zero in front.
pub proof fn law_lengths_are_written_in_decimal(n: nat)
    ensures
        digits_value(decimal_bytes(n)) == n,
        forall|i: int|
            0 <= i < decimal_bytes(n).len() ==> 0x30 <= #[trigger] decimal_bytes(n)[i] <= 0x39,
        n > 0 ==> decimal_bytes(n)[0] != 0x30,
        decimal_bytes(n).len() > 0,
    decreases n,
{
    let digits = decimal_bytes(n);
    if n < 10 {
        assert(digits.drop_last() =~= Seq::<u8>::empty());
        assert(digits_value(digits.drop_last()) == 0);
    } else {
        law_lengths_are_written_in_decimal(n / 10);
        assert(digits.drop_last() =~= decimal_bytes(n / 10));
        assert(digits[0] == decimal_bytes(n / 10)[0]);
    }
}

/// A byte string is its length, a colon and its bytes, and none is read for another:
/// what begins with one begins with no other, so that each can be read back.
pub proof fn law_byte_strings_are_read_back(a: Seq<u8>, b: Seq<u8>, x: Seq<u8>, y: Seq<u8>)
    requires
        bencoded(a) + x == bencoded(b) + y,
    ensures
        a == b,
        x == y,
        bencoded(a).len() == decimal_bytes(a.len()).len() + 1 + a.len(),
{
    let p = decimal_bytes(a.len());
    let q = decimal_bytes(b.len());
    let all = bencoded(a) + x;
    law_lengths_are_written_in_decimal(a.len());
    law_lengths_are_written_in_decimal(b.len());
    assert forall|i: int| 0 <= i < p.len() implies #[trigger] all[i] == p[i] by {}
    assert(all[p.len() as int] == 0x3au8);
    let other = bencoded(b) + y;
    assert forall|i: int| 0 <= i < q.len() implies #[trigger] other[i] == q[i] by {}
    assert(other[q.len() as int] == 0x3au8);
    if p.len() < q.len() {
        assert(other[p.len() as int] == q[p.len() as int]);
    }
    if q.len() < p.len() {
        assert(all[q.len() as int] == p[q.len() as int]);
    }
    assert(p =~= q) by {
        assert forall|i: int| 0 <= i < p.len() implies p[i] == q[i] by {
            assert(all[i] == p[i]);
            assert(other[i] == q[i]);
        }
    }
    let start = (p.len() + 1) as int;
    assert(all.subrange(start, start + a.len()) =~= a);
    assert(other.subrange(start, start + b.len()) =~= b);
    assert(all.skip(start + a.len()) =~= x);
    assert(other.skip(start + b.len()) =~= y);
}

/// The keys of a torrent file are those that its readers look for.
pub proof fn law_keys_are_spelled_right()
    ensures
        forall|i: int| 0 <= i < 8 ==> #[trigger] announce_key()[i] as char == "announce"@[i],
        forall|i: int|
            0 <= i < 13 ==> #[trigger] announce_list_key()[i] as char == "announce-list"@[i],
        forall|i: int| 0 <= i < 4 ==> #[trigger] info_key()[i] as char == "info"@[i],
        forall|i: int|
            0 <= i < 12 ==> #[trigger] piece_layers_key()[i] as char == "piece layers"@[i],
        announce_key().len() == 8 && announce_list_key().len() == 13 && info_key().len() == 4
            && piece_layers_key().len() == 12,
{
    reveal_strlit("announce");
    reveal_strlit("announce-list");
    reveal_strlit("info");
    reveal_strlit("piece layers");
}

/// A file without trackers and layers holds the dictionary alone, as it is.
pub proof fn law_plain_files_hold_the_dictionary(
    info: Seq<u8>,
    trackers: Seq<String>,
    layers: Seq<PieceLayer>,
)
    ensures
        torrent_bytes(info, Seq::<String>::empty(), Seq::<PieceLayer>::empty()) == seq![0x64u8]
            + bencoded(info_key()) + info + seq![0x65u8],
        torrent_bytes(info, trackers, layers)[0] == 0x64,
        torrent_bytes(info, trackers, layers).last() == 0x65,
        torrent_bytes(info, trackers, layers).len() == 8 + info.len() + tracker_bytes(
            trackers,
        ).len() + layer_bytes(layers).len(),
        trackers.len() > 0 ==> bencoded(announce_key()).is_prefix_of(tracker_bytes(trackers)),
        layers.len() > 0 ==> bencoded(piece_layers_key()).is_prefix_of(layer_bytes(layers)),
{
    lemma_key_sizes();
    let none = tracker_bytes(Seq::<String>::empty());
    assert(torrent_bytes(info, Seq::<String>::empty(), Seq::<PieceLayer>::empty()) =~= seq![0x64u8]
        + bencoded(info_key()) + info + seq![0x65u8]);
    if trackers.len() > 0 {
        assert(tracker_bytes(trackers).subrange(0, bencoded(announce_key()).len() as int)
            =~= bencoded(announce_key()));
    }
    if layers.len() > 0 {
        assert(layer_bytes(layers).subrange(0, bencoded(piece_layers_key()).len() as int)
            =~= bencoded(piece_layers_key()));
    }
}

/// Trackers, hashes and layers are written in their order: each tracker as a list of
/// its own, each hash behind the last, each layer behind its root.
pub proof fn law_parts_are_written_in_order(
    trackers: Seq<String>,
    tracker: String,
    hashes: Seq<[u8; 32]>,
    hash: [u8; 32],
    layers: Seq<PieceLayer>,
    layer: PieceLayer,
)
    ensures
        tier_bytes(trackers.push(tracker)) == tier_bytes(trackers) + (seq![0x6cu8] + bencoded(
            vstd::utf8::encode_utf8(tracker@),
        ) + seq![0x65u8]),
        joined_hashes(hashes.push(hash)) == joined_hashes(hashes) + hash@,
        layer_entries(layers.push(layer)) == layer_entries(layers) + (bencoded(layer.root@)
            + bencoded(joined_hashes(layer.hashes@))),
        tier_bytes(Seq::<String>::empty()).len() == 0,
        joined_hashes(Seq::<[u8; 32]>::empty()).len() == 0,
        layer_entries(Seq::<PieceLayer>::empty()).len() == 0,
{
    assert(trackers.push(tracker).drop_last() =~= trackers);
    assert(hashes.push(hash).drop_last() =~= hashes);
    assert(layers.push(layer).drop_last() =~= layers);
    assert(tier_bytes(trackers.push(tracker)) =~= tier_bytes(trackers) + (seq![0x6cu8] + bencoded(
        vstd::utf8::encode_utf8(tracker@),
    ) + seq![0x65u8]));
    assert(layer_entries(layers.push(layer)) =~= layer_entries(layers) + (bencoded(layer.root@)
        + bencoded(joined_hashes(layer.hashes@))));
}

/// Byte strings are in dictionary order: the first byte in which they differ decides,
/// and where there is none the shorter one is less.
pub proof fn law_first_difference_decides(
    common: Seq<u8>,
    x: u8,
    y: u8,
    a: Seq<u8>,
    b: Seq<u8>,
)
    requires
        x < y,
    ensures
        bytes_less(common + seq![x] + a, common + seq![y] + b),
        !bytes_less(common + seq![y] + b, common + seq![x] + a),
        bytes_less(common, common + seq![x] + a),
        !bytes_less(common, common),
        !bytes_less(common + seq![x] + a, common),
    decreases common.len(),
{
    let p = common + seq![x] + a;
    let q = common + seq![y] + b;
    if common.len() > 0 {
        let rest = common.skip(1);
        law_first_difference_decides(rest, x, y, a, b);
        assert(p.skip(1) =~= rest + seq![x] + a);
        assert(q.skip(1) =~= rest + seq![y] + b);
        assert(p[0] == common[0] && q[0] == common[0]);
    } else {
        assert(p[0] == x && q[0] == y);
    }
}

proof fn lemma_layers_size_exact(layers: Seq<PieceLayer>)
    ensures
        layers_size(layers) is Ok <==> layer_entries(layers).len() <= usize::MAX,
        layers_size(layers) matches Ok(n) ==> n == layer_entries(layers).len(),
    decreases layers.len(),
{
    lemma_layers_size(layers);
    if layers.len() > 0 {
        lemma_layers_size_exact(layers.drop_last());
        lemma_joined_len(layers.last().hashes@);
        lemma_key_sizes();
        assert(layers.last().root@.len() == 32);
    }
}

/// A file is refused exactly where it would be larger than the largest torrent file.
pub proof fn law_only_large_files_are_refused(
    info: Seq<u8>,
    trackers: Seq<String>,
    sorted: Seq<PieceLayer>,
)
    ensures
        torrent_refusal(info, trackers, sorted) is None <==> torrent_bytes(
            info,
            trackers,
            sorted,
        ).len() <= 67_108_864,
{
    lemma_layers_size_exact(sorted);
    lemma_key_sizes();
}

/// What is built is the file with every layer in the order of their roots; two layers
/// with one root are refused.
pub proof fn law_built_files_hold_what_was_given(
    info: &[u8],
    trackers: &[String],
    layers: &[PieceLayer],
    r: CmdResult<Vec<u8>>,
)
    requires
        call_ensures(build_torrent_from_info, (info, trackers, layers), r),
    ensures
        has_duplicate_root(layers@) ==> r is Err,
        r matches Ok(out) ==> out@.len() <= 67_108_864 && exists|sorted: Seq<PieceLayer>|
            {
                &&& #[trigger] sorted.to_multiset() == layers@.to_multiset()
                &&& out@ == torrent_bytes(info@, trackers@, sorted)
            },
        layers@.len() == 0 ==> (r is Ok <==> torrent_bytes(
            info@,
            trackers@,
            Seq::<PieceLayer>::empty(),
        ).len() <= 67_108_864),
{
    if !has_duplicate_root(layers@) {
        let v = file_view(r);
        let sorted = choose|sorted: Seq<PieceLayer>| #[trigger]
            is_sorted_by_root(sorted, layers@) && v == match torrent_refusal(
                info@,
                trackers@,
                sorted,
            ) {
                Some(text) => Err::<Seq<u8>, Seq<char>>(text),
                None => Ok(torrent_bytes(info@, trackers@, sorted)),
            };
        assert(is_sorted_by_root(sorted, layers@));
        law_only_large_files_are_refused(info@, trackers@, sorted);
        assert(sorted.to_multiset() == layers@.to_multiset());
        if layers@.len() == 0 {
            layers@.to_multiset_ensures();
            sorted.to_multiset_ensures();
            assert(sorted =~= Seq::<PieceLayer>::empty());
        }
    }
}

} // verus!
