//! Binary hash trees over SHA-256.

use vstd::prelude::*;

use crate::digest::{sha256, sha256_digest};
use crate::power2::{
    height_for, law_tree_height_is_least, lemma_power2_64, lemma_power2_monotone,
    lemma_power2_positive, power2, power_of_two, tree_height,
};

verus! {

/// The hash of an inner node, from those of its two children.
pub open spec fn pair_hash(left: Seq<u8>, right: Seq<u8>) -> Seq<u8> {
    sha256_digest(left + right)
}

/// The views of a list of hashes.
pub open spec fn hash_views(hashes: Seq<[u8; 32]>) -> Seq<Seq<u8>> {
    hashes.map_values(|h: [u8; 32]| h@)
}

/// The root over `nodes`, whose number is a power of two.
pub open spec fn tree_root(nodes: Seq<Seq<u8>>) -> Seq<u8>
    decreases nodes.len(),
{
    if nodes.len() <= 1 {
        nodes[0]
    } else {
        let half = (nodes.len() / 2) as int;
        pair_hash(tree_root(nodes.take(half)), tree_root(nodes.skip(half)))
    }
}

/// The root that is reached from `start` by way of its siblings; `position`
/// is the place of `start` in its layer.
pub open spec fn climb(start: Seq<u8>, siblings: Seq<Seq<u8>>, position: nat) -> Seq<u8>
    decreases siblings.len(),
{
    if siblings.len() == 0 {
        start
    } else {
        climb(
            if position % 2 == 0 {
                pair_hash(start, siblings[0])
            } else {
                pair_hash(siblings[0], start)
            },
            siblings.skip(1),
            position / 2,
        )
    }
}

/// The next layer: the hash of each pair.
spec fn paired(nodes: Seq<Seq<u8>>) -> Seq<Seq<u8>> {
    Seq::new(nodes.len() / 2, |i: int| pair_hash(nodes[2 * i], nodes[2 * i + 1]))
}

/// Pairing keeps the root.
proof fn lemma_paired_root(nodes: Seq<Seq<u8>>, k: nat)
    requires
        nodes.len() == power2(k),
        k >= 1,
    ensures
        paired(nodes).len() == power2((k - 1) as nat),
        tree_root(paired(nodes)) == tree_root(nodes),
    decreases k,
{
    reveal_with_fuel(tree_root, 2);
    let half = (nodes.len() / 2) as int;
    assert(power2(k) == 2 * power2((k - 1) as nat));
    lemma_power2_positive((k - 1) as nat);
    if k == 1 {
        assert(power2(0) == 1);
        assert(nodes.take(1)[0] == nodes[0]);
        assert(nodes.skip(1)[0] == nodes[1]);
        assert(paired(nodes)[0] == pair_hash(nodes[0], nodes[1]));
    } else {
        assert(power2((k - 1) as nat) == 2 * power2((k - 2) as nat));
        lemma_power2_positive((k - 2) as nat);
        let low = nodes.take(half);
        let high = nodes.skip(half);
        lemma_paired_root(low, (k - 1) as nat);
        lemma_paired_root(high, (k - 1) as nat);
        let up = paired(nodes);
        let quarter = half / 2;
        assert(up.take(quarter) =~= paired(low));
        assert(up.skip(quarter) =~= paired(high));
    }
}

/// The hash of an inner node, from those of its two children.
pub fn hash_pair(left: &[u8; 32], right: &[u8; 32]) -> (r: [u8; 32])
    ensures
        r@ == pair_hash(left@, right@),
{
    let mut both: Vec<u8> = Vec::with_capacity(64);
    both.extend_from_slice(left.as_slice());
    both.extend_from_slice(right.as_slice());
    assert(both@ =~= left@ + right@);
    sha256(both.as_slice())
}

/// The root over a list of hashes whose number is a power of two.
pub(crate) fn root_of(hashes: &[[u8; 32]], Ghost(k): Ghost<nat>) -> (r: [u8; 32])
    requires
        hashes@.len() == power2(k),
    ensures
        r@ == tree_root(hash_views(hashes@)),
{
    let mut nodes: Vec<[u8; 32]> = Vec::new();
    let mut i: usize = 0;
    while i < hashes.len()
        invariant
            i <= hashes@.len(),
            nodes@ == hashes@.take(i as int),
        decreases hashes@.len() - i,
    {
        nodes.push(hashes[i]);
        assert(nodes@ =~= hashes@.take(i + 1));
        i = i + 1;
    }
    assert(nodes@ =~= hashes@);
    let ghost mut level = k;
    proof {
        lemma_power2_positive(k);
    }
    while nodes.len() > 1
        invariant
            nodes@.len() == power2(level),
            nodes@.len() >= 1,
            tree_root(hash_views(nodes@)) == tree_root(hash_views(hashes@)),
        decreases nodes@.len(),
    {
        proof {
            assert(level >= 1);
            lemma_paired_root(hash_views(nodes@), level);
            lemma_power2_positive((level - 1) as nat);
        }
        let mut next: Vec<[u8; 32]> = Vec::with_capacity(nodes.len() / 2);
        let width: usize = nodes.len();
        let pairs: usize = width / 2;
        let mut j: usize = 0;
        while j < pairs
            invariant
                j <= pairs,
                width == nodes@.len(),
                pairs == width / 2,
                next@.len() == j,
                forall|m: int| 0 <= m < j ==> (#[trigger] next@[m])@ == paired(hash_views(nodes@))[m],
            decreases pairs - j,
        {
            let parent = hash_pair(&nodes[2 * j], &nodes[2 * j + 1]);
            next.push(parent);
            j = j + 1;
        }
        assert(hash_views(next@) =~= paired(hash_views(nodes@)));
        nodes = next;
        proof {
            level = (level - 1) as nat;
        }
    }
    nodes[0]
}

/// The root that is reached from `start` by way of `siblings`.
pub fn climb_to_root(start: [u8; 32], siblings: &[[u8; 32]], position: u64) -> (r: [u8; 32])
    ensures
        r@ == climb(start@, hash_views(siblings@), position as nat),
{
    let ghost all = hash_views(siblings@);
    let mut current: [u8; 32] = start;
    let mut at: u64 = position;
    let mut i: usize = 0;
    assert(all.skip(0) =~= all);
    while i < siblings.len()
        invariant
            i <= siblings@.len(),
            all == hash_views(siblings@),
            climb(start@, all, position as nat) == climb(
                current@,
                all.skip(i as int),
                at as nat,
            ),
        decreases siblings@.len() - i,
    {
        proof {
            assert(all.skip(i as int)[0] == siblings@[i as int]@);
            assert(all.skip(i as int).skip(1) =~= all.skip(i + 1));
        }
        current =
        if at % 2 == 0 {
            hash_pair(&current, &siblings[i])
        } else {
            hash_pair(&siblings[i], &current)
        };
        at = at / 2;
        i = i + 1;
    }
    current
}

/// A hash of zeros, which stands for a leaf that is not there.
pub open spec fn zero_hash() -> Seq<u8> {
    Seq::new(32, |i: int| 0u8)
}

/// `nodes` brought to the width of the smallest tree that holds them.
pub open spec fn padded(nodes: Seq<Seq<u8>>) -> Seq<Seq<u8>> {
    let width = power2(tree_height(nodes.len()));
    Seq::new(
        width,
        |i: int|
            if i < nodes.len() {
                nodes[i]
            } else {
                zero_hash()
            },
    )
}

/// The root over the `power2(height)` places of a padded layer that begin at
/// `start`.
fn padded_root(layer: &[[u8; 32]], start: u64, height: u32) -> (r: [u8; 32])
    requires
        height <= 64,
        start + power2(height as nat) <= power2(tree_height(layer@.len())),
        power2(tree_height(layer@.len())) <= power2(64),
    ensures
        r@ == tree_root(
            padded(hash_views(layer@)).subrange(start as int, start + power2(height as nat)),
        ),
    decreases height,
{
    let ghost all = padded(hash_views(layer@));
    let ghost part = all.subrange(start as int, start + power2(height as nat));
    if height == 0 {
        if start < layer.len() as u64 {
            let leaf = layer[start as usize];
            assert(part[0] == leaf@);
            leaf
        } else {
            let zero: [u8; 32] = [0u8; 32];
            assert(zero@ =~= zero_hash());
            assert(part[0] == zero@);
            zero
        }
    } else {
        let half: u64 = power_of_two(height - 1);
        proof {
            lemma_power2_positive((height - 1) as nat);
            lemma_power2_64();
            assert(power2(height as nat) == 2 * power2((height - 1) as nat));
        }
        let left = padded_root(layer, start, height - 1);
        let right = padded_root(layer, start + half, height - 1);
        proof {
            assert(part.take(half as int) =~= all.subrange(start as int, start + half));
            assert(part.skip(half as int) =~= all.subrange(start + half, start + half + half));
        }
        hash_pair(&left, &right)
    }
}

/// The root over a layer of any width; what is missing counts as zeros.
pub fn merkle_root(layer: &[[u8; 32]]) -> (r: [u8; 32])
    ensures
        r@ == tree_root(padded(hash_views(layer@))),
{
    let ghost all = padded(hash_views(layer@));
    let height: u32 = height_for(layer.len() as u64);
    proof {
        lemma_power2_monotone(height as nat, 64);
        assert(all.subrange(0, all.len() as int) =~= all);
    }
    padded_root(layer, 0, height)
}

/// The root of a tree is the hash of the roots of its halves, the left one first,
/// and each half proves the other: from the left half one climbs from an even
/// place, from the right half from an odd one.
pub proof fn law_halves_prove_each_other(left: Seq<Seq<u8>>, right: Seq<Seq<u8>>)
    requires
        left.len() == right.len(),
        left.len() > 0,
    ensures
        tree_root(left + right) == sha256_digest(tree_root(left) + tree_root(right)),
        climb(tree_root(left), seq![tree_root(right)], 0) == tree_root(left + right),
        climb(tree_root(right), seq![tree_root(left)], 1) == tree_root(left + right),
{
    reveal_with_fuel(climb, 2);
    let all = left + right;
    let half = (all.len() / 2) as int;
    assert(all.take(half) =~= left);
    assert(all.skip(half) =~= right);
}

/// The root of a single leaf is the leaf, and one that needs no proof is its own root.
pub proof fn law_leaves_are_their_own_roots(leaf: Seq<u8>, position: nat)
    ensures
        tree_root(seq![leaf]) == leaf,
        climb(leaf, seq![], position) == leaf,
        padded(seq![leaf]) == seq![leaf],
{
    assert(power2(0) == 1);
    assert(padded(seq![leaf]) =~= seq![leaf]);
}

/// A climb of two parts is the climb of the second from where the first ends.
pub proof fn law_climbs_are_joined(
    start: Seq<u8>,
    sibling: Seq<u8>,
    rest: Seq<Seq<u8>>,
    position: nat,
)
    ensures
        climb(start, seq![sibling] + rest, 2 * position) == climb(
            sha256_digest(start + sibling),
            rest,
            position,
        ),
        climb(start, seq![sibling] + rest, 2 * position + 1) == climb(
            sha256_digest(sibling + start),
            rest,
            position,
        ),
{
    let all = seq![sibling] + rest;
    assert(all.skip(1) =~= rest);
    assert(all[0] == sibling);
}

/// A layer is filled up with zero hashes to the next power of two, and no further.
pub proof fn law_layers_are_filled_up_with_zeros(nodes: Seq<Seq<u8>>)
    ensures
        nodes.is_prefix_of(padded(nodes)),
        forall|i: int, b: int|
            nodes.len() <= i < padded(nodes).len() && 0 <= b < 32 ==> padded(nodes)[i].len() == 32
                && #[trigger] padded(nodes)[i][b] == 0,
        nodes.len() > 1 ==> padded(nodes).len() < 2 * nodes.len(),
        exists|k: nat| padded(nodes).len() == #[trigger] power2(k),
{
    let h = tree_height(nodes.len());
    law_tree_height_is_least(nodes.len());
    assert(padded(nodes).len() == power2(h));
    assert(padded(nodes).subrange(0, nodes.len() as int) =~= nodes);
}

} // verus!
