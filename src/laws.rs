//! What holds of the transform across calls and for every input.
use crate::feistel::{left_half, right_half, round_count, round_mask, round_spec, rounds_spec,
    transform_spec, xor_seq};
use vstd::prelude::*;

verus! {

/// Masking a sequence twice with the same mask of its own length gives it back.
pub proof fn lemma_xor_twice(a: Seq<u8>, m: Seq<u8>)
    requires
        m.len() == a.len(),
    ensures
        xor_seq(a, m).len() == a.len(),
        xor_seq(xor_seq(a, m), m) == a,
{
    assert forall|i: int| 0 <= i < a.len() implies (#[trigger] a[i] ^ m[i]) ^ m[i] == a[i] by {
        let x = a[i];
        let y = m[i];
        assert((x ^ y) ^ y == x) by (bit_vector);
    }
    assert(xor_seq(xor_seq(a, m), m) =~= a);
}

/// Rounds keep both halves at their common length.
pub proof fn lemma_rounds_len(left: Seq<u8>, right: Seq<u8>, key: Seq<u8>, n: nat)
    requires
        left.len() == right.len(),
    ensures
        rounds_spec(left, right, key, n).0.len() == left.len(),
        rounds_spec(left, right, key, n).1.len() == left.len(),
    decreases n,
{
    if n > 0 {
        lemma_rounds_len(left, right, key, (n - 1) as nat);
    }
}

/// Starting from the halves after `n` rounds, swapped, `j` more rounds undo
/// the last `j` of them: they reach the halves after `n - j` rounds, swapped.
pub proof fn lemma_rounds_unwind(left: Seq<u8>, right: Seq<u8>, key: Seq<u8>, n: nat, j: nat)
    requires
        j <= n,
    ensures
        ({
            let end = rounds_spec(left, right, key, n);
            let mid = rounds_spec(left, right, key, (n - j) as nat);
            rounds_spec(end.1, end.0, key, j) == (mid.1, mid.0)
        }),
    decreases j,
{
    if j > 0 {
        lemma_rounds_unwind(left, right, key, n, (j - 1) as nat);
        let mid = rounds_spec(left, right, key, (n - j) as nat);
        let a = mid.0;
        let b = mid.1;
        let m = round_mask(b, key, a.len());
        lemma_xor_twice(a, m);
        assert(rounds_spec(left, right, key, (n - (j - 1)) as nat) == round_spec(a, b, key));
    }
}

/// Applying the transform twice with the same key and round count gives the
/// block back, for every even-length block.
pub proof fn lemma_round_trip(block: Seq<u8>, key: Seq<u8>, rounds: i32)
    requires
        block.len() % 2 == 0,
    ensures
        transform_spec(transform_spec(block, key, rounds), key, rounds) == block,
{
    let n = round_count(rounds);
    let l0 = left_half(block);
    let r0 = right_half(block);
    let end = rounds_spec(l0, r0, key, n);
    lemma_rounds_len(l0, r0, key, n);
    let c = transform_spec(block, key, rounds);
    assert(left_half(c) =~= end.1);
    assert(right_half(c) =~= end.0);
    lemma_rounds_unwind(l0, r0, key, n, n);
    assert(block =~= l0 + r0);
}

/// The transform keeps the length of every even-length block.
pub proof fn lemma_length_preserved(block: Seq<u8>, key: Seq<u8>, rounds: i32)
    requires
        block.len() % 2 == 0,
    ensures
        transform_spec(block, key, rounds).len() == block.len(),
{
    lemma_rounds_len(left_half(block), right_half(block), key, round_count(rounds));
}

/// With no rounds the transform only swaps the two halves of the block.
pub proof fn lemma_zero_rounds(block: Seq<u8>, key: Seq<u8>)
    ensures
        transform_spec(block, key, 0) == right_half(block) + left_half(block),
{
}

/// The transform depends on the block, the key and the round count alone:
/// equal arguments give equal results.
pub proof fn lemma_deterministic(
    block1: Seq<u8>,
    key1: Seq<u8>,
    rounds1: i32,
    block2: Seq<u8>,
    key2: Seq<u8>,
    rounds2: i32,
)
    requires
        block1 == block2,
        key1 == key2,
        rounds1 == rounds2,
    ensures
        transform_spec(block1, key1, rounds1) == transform_spec(block2, key2, rounds2),
{
}

} // verus!
