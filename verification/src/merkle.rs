use vstd::prelude::*;

use crate::digest::combine_digests;
use crate::digest::hash_pair_spec;
use crate::digest::zero_digest;
use crate::digest::zero_digest_bytes;

verus! {

/// The views of an ordered list of digests: the leaf level of the tree.
pub open spec fn leaves_of(s: Seq<[u8; 32]>) -> Seq<Seq<u8>> {
    s.map_values(|d: [u8; 32]| d@)
}

/// One bottom-up step: hash adjacent pairs left to right; an unpaired last
/// node is carried forward unchanged (no duplication, no padding).
pub open spec fn combine_level(level: Seq<Seq<u8>>) -> Seq<Seq<u8>>
    decreases level.len(),
{
    if level.len() >= 2 {
        seq![hash_pair_spec(level[0], level[1])] + combine_level(level.skip(2))
    } else {
        level
    }
}

/// The Merkle root of a level: the all-zero sentinel for an empty list, the
/// single node itself, and otherwise the root of the combined level above.
pub open spec fn merkle_root_of(level: Seq<Seq<u8>>) -> Seq<u8>
    decreases level.len(),
    via merkle_root_of_decreases
{
    if level.len() == 0 {
        zero_digest()
    } else if level.len() == 1 {
        level[0]
    } else {
        merkle_root_of(combine_level(level))
    }
}

#[via_fn]
proof fn merkle_root_of_decreases(level: Seq<Seq<u8>>) {
    if level.len() >= 2 {
        lemma_combine_level_len(level);
    }
}

/// Combining a level halves it, rounding up: the carried odd node counts.
pub proof fn lemma_combine_level_len(level: Seq<Seq<u8>>)
    ensures
        combine_level(level).len() == (level.len() + 1) / 2,
    decreases level.len(),
{
    if level.len() >= 2 {
        lemma_combine_level_len(level.skip(2));
    }
}

proof fn lemma_combine_level_snoc_pair(s: Seq<Seq<u8>>, a: Seq<u8>, b: Seq<u8>)
    requires
        s.len() % 2 == 0,
    ensures
        combine_level(s + seq![a, b]) == combine_level(s) + seq![hash_pair_spec(a, b)],
    decreases s.len(),
{
    let t = s + seq![a, b];
    if s.len() == 0 {
        assert(t.skip(2) =~= Seq::<Seq<u8>>::empty());
        assert(combine_level(t.skip(2)) == t.skip(2));
        assert(combine_level(t) =~= combine_level(s) + seq![hash_pair_spec(a, b)]);
    } else {
        assert(t.skip(2) =~= s.skip(2) + seq![a, b]);
        lemma_combine_level_snoc_pair(s.skip(2), a, b);
        assert(combine_level(t) =~= combine_level(s) + seq![hash_pair_spec(a, b)]);
    }
}

proof fn lemma_combine_level_snoc_one(s: Seq<Seq<u8>>, a: Seq<u8>)
    requires
        s.len() % 2 == 0,
    ensures
        combine_level(s + seq![a]) == combine_level(s) + seq![a],
    decreases s.len(),
{
    let t = s + seq![a];
    if s.len() == 0 {
        assert(t =~= seq![a]);
        assert(combine_level(t) == t);
        assert(combine_level(t) =~= combine_level(s) + seq![a]);
    } else {
        assert(t.skip(2) =~= s.skip(2) + seq![a]);
        lemma_combine_level_snoc_one(s.skip(2), a);
        assert(combine_level(t) =~= combine_level(s) + seq![a]);
    }
}

/// Builds the binary Merkle tree bottom-up over the ordered commitments and
/// returns its root; an empty list yields the all-zero sentinel, and the
/// last node of an odd level is carried forward unchanged.
pub fn build_root(commitments: &Vec<[u8; 32]>) -> (root: [u8; 32])
    ensures
        root@ == merkle_root_of(leaves_of(commitments@)),
{
    if commitments.len() == 0 {
        proof {
            assert(leaves_of(commitments@) =~= Seq::<Seq<u8>>::empty());
        }
        return zero_digest_bytes();
    }
    let mut level: Vec<[u8; 32]> = Vec::new();
    let mut i: usize = 0;
    while i < commitments.len()
        invariant
            i <= commitments@.len(),
            level@ == commitments@.take(i as int),
        decreases commitments@.len() - i,
    {
        level.push(commitments[i]);
        proof {
            assert(level@ =~= commitments@.take(i + 1 as int));
        }
        i = i + 1;
    }
    proof {
        assert(commitments@.take(commitments@.len() as int) =~= commitments@);
    }
    while level.len() > 1
        invariant
            1 <= level@.len(),
            merkle_root_of(leaves_of(level@)) == merkle_root_of(leaves_of(commitments@)),
        decreases level@.len(),
    {
        let ghost prev = level@;
        let mut next: Vec<[u8; 32]> = Vec::new();
        let mut j: usize = 0;
        while j + 1 < level.len()
            invariant
                j % 2 == 0,
                j <= level@.len(),
                level@ == prev,
                leaves_of(next@) == combine_level(leaves_of(level@.take(j as int))),
                next@.len() == j / 2,
            decreases level@.len() - j,
        {
            let parent = combine_digests(&level[j], &level[j + 1]);
            next.push(parent);
            proof {
                let taken = leaves_of(level@.take(j as int));
                assert(taken.len() == j);
                lemma_combine_level_snoc_pair(taken, level@[j as int]@, level@[j + 1 as int]@);
                assert(leaves_of(level@.take(j + 2 as int)) =~= taken + seq![
                    level@[j as int]@,
                    level@[j + 1 as int]@,
                ]);
                assert(leaves_of(next@) =~= combine_level(taken) + seq![
                    hash_pair_spec(level@[j as int]@, level@[j + 1 as int]@),
                ]);
            }
            j = j + 2;
        }
        if j < level.len() {
            let last = level[j];
            next.push(last);
            proof {
                let taken = leaves_of(level@.take(j as int));
                assert(taken.len() == j);
                lemma_combine_level_snoc_one(taken, level@[j as int]@);
                assert(level@.take(j + 1 as int) =~= level@);
                assert(leaves_of(level@.take(j + 1 as int)) =~= taken + seq![level@[j as int]@]);
                assert(leaves_of(next@) =~= combine_level(taken) + seq![level@[j as int]@]);
            }
        } else {
            proof {
                assert(level@.take(j as int) =~= level@);
            }
        }
        proof {
            assert(leaves_of(next@) == combine_level(leaves_of(level@)));
            lemma_combine_level_len(leaves_of(level@));
            assert(leaves_of(level@).len() == level@.len());
            assert(leaves_of(next@).len() == next@.len());
            assert(next@.len() < level@.len());
            assert(merkle_root_of(leaves_of(level@)) == merkle_root_of(combine_level(leaves_of(
                level@,
            ))));
        }
        level = next;
    }
    let root = level[0];
    proof {
        assert(leaves_of(level@).len() == 1);
        assert(merkle_root_of(leaves_of(level@)) == leaves_of(level@)[0]);
    }
    root
}

/// An empty list of commitments has the all-zero sentinel root.
pub proof fn lemma_root_empty()
    ensures
        merkle_root_of(Seq::<Seq<u8>>::empty()) == zero_digest(),
{
}

/// A single commitment is its own root.
pub proof fn lemma_root_single(c: Seq<u8>)
    ensures
        merkle_root_of(seq![c]) == c,
{
}

/// Two commitments hash pairwise into the root.
pub proof fn lemma_root_pair(a: Seq<u8>, b: Seq<u8>)
    ensures
        merkle_root_of(seq![a, b]) == hash_pair_spec(a, b),
{
    let l = seq![a, b];
    assert(l.skip(2) =~= Seq::<Seq<u8>>::empty());
    assert(combine_level(l.skip(2)) == l.skip(2));
    assert(combine_level(l) =~= seq![hash_pair_spec(a, b)]);
    assert(merkle_root_of(seq![hash_pair_spec(a, b)]) == hash_pair_spec(a, b));
}

/// With three commitments the odd node is carried, not duplicated:
/// the root is the hash of `hash(a || b)` with `c`.
pub proof fn lemma_root_triple(a: Seq<u8>, b: Seq<u8>, c: Seq<u8>)
    ensures
        merkle_root_of(seq![a, b, c]) == hash_pair_spec(hash_pair_spec(a, b), c),
{
    let l = seq![a, b, c];
    assert(l.skip(2) =~= seq![c]);
    assert(combine_level(l.skip(2)) == l.skip(2));
    assert(combine_level(l) =~= seq![hash_pair_spec(a, b), c]);
    lemma_root_pair(hash_pair_spec(a, b), c);
}

} // verus!
