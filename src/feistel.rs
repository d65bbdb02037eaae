//! A Feistel network over an even-length byte block. The round function
//! hashes the right half followed by the key with SHA-256 and truncates the
//! digest to the half-block length. The same call both encrypts and decrypts.
use sha2::{Digest, Sha256};
use vstd::prelude::*;

verus! {

/// Byte-wise exclusive or of the common prefix of `a` and `b`.
pub open spec fn xor_seq(a: Seq<u8>, b: Seq<u8>) -> Seq<u8> {
    Seq::new(
        if a.len() <= b.len() { a.len() } else { b.len() },
        |i: int| a[i] ^ b[i],
    )
}

/// XORs `a` with `b` byte by byte; the result is as long as the shorter one.
pub fn xor(a: &[u8], b: &[u8]) -> (r: Vec<u8>)
    ensures
        r@ == xor_seq(a@, b@),
{
    let n: usize = if a.len() <= b.len() { a.len() } else { b.len() };
    let mut r: Vec<u8> = Vec::with_capacity(n);
    let mut i: usize = 0;
    while i < n
        invariant
            n == if a@.len() <= b@.len() { a@.len() } else { b@.len() },
            i <= n,
            r@.len() == i,
            forall|j: int| 0 <= j < i ==> r@[j] == a@[j] ^ b@[j],
        decreases n - i,
    {
        r.push(a[i] ^ b[i]);
        i = i + 1;
    }
    assert(r@ =~= xor_seq(a@, b@));
    r
}

/// Length in bytes of a SHA-256 digest, the most one half-block may use.
pub const DIGEST_LEN: usize = 32;

/// Why a block cannot be transformed.
#[derive(Debug, Clone, Copy, PartialEq, Eq, Structural)]
pub enum FeistelError {
    /// The block has an odd number of bytes, so it has no two equal halves.
    InvalidInputLength,
    /// Half the block is longer than a digest, so a round could not mask it.
    BlockTooLarge,
}

/// The SHA-256 digest of `data`.
pub uninterp spec fn sha256_of(data: Seq<u8>) -> Seq<u8>;

/// Hashes `input` followed by `key`, with no separator between them.
///
/// Relies on `sha2::Sha256` (`Digest::new`, `update`, `finalize`): feeding
/// two buffers in turn digests their concatenation, and the output is
/// 32 bytes long.
#[verifier::external_body]
fn hash(input: &[u8], key: &[u8]) -> (r: Vec<u8>)
    ensures
        r@ == sha256_of(input@ + key@),
        r@.len() == DIGEST_LEN,
{
    let mut h = Sha256::new();
    h.update(input);
    h.update(key);
    h.finalize().to_vec()
}

/// The first `len` bytes of the digest of `half` followed by `key`.
pub open spec fn round_mask(half: Seq<u8>, key: Seq<u8>, len: nat) -> Seq<u8> {
    Seq::new(len, |i: int| sha256_of(half + key)[i])
}

/// One round: the right half moves left, and the left half, masked by the
/// round function of the right half, becomes the new right half.
pub open spec fn round_spec(left: Seq<u8>, right: Seq<u8>, key: Seq<u8>) -> (Seq<u8>, Seq<u8>) {
    (right, xor_seq(left, round_mask(right, key, left.len())))
}

/// The halves after `n` rounds starting from `(left, right)`.
pub open spec fn rounds_spec(left: Seq<u8>, right: Seq<u8>, key: Seq<u8>, n: nat) -> (Seq<u8>, Seq<u8>)
    decreases n,
{
    if n == 0 {
        (left, right)
    } else {
        let prev = rounds_spec(left, right, key, (n - 1) as nat);
        round_spec(prev.0, prev.1, key)
    }
}

/// How many rounds a signed round count stands for: none when it is not positive.
pub open spec fn round_count(rounds: i32) -> nat {
    if rounds <= 0 {
        0
    } else {
        rounds as nat
    }
}

/// First half of a block.
pub open spec fn left_half(block: Seq<u8>) -> Seq<u8> {
    block.subrange(0, (block.len() / 2) as int)
}

/// Second half of a block.
pub open spec fn right_half(block: Seq<u8>) -> Seq<u8> {
    block.subrange((block.len() / 2) as int, block.len() as int)
}

/// The whole transform: split, run the rounds, then emit the halves swapped.
pub open spec fn transform_spec(block: Seq<u8>, key: Seq<u8>, rounds: i32) -> Seq<u8> {
    let last = rounds_spec(left_half(block), right_half(block), key, round_count(rounds));
    last.1 + last.0
}

/// Whether a block can be transformed: its length is even and each half fits
/// in one digest.
pub open spec fn block_ok(block: Seq<u8>) -> bool {
    block.len() % 2 == 0 && block.len() / 2 <= DIGEST_LEN
}

/// Copies `s[lo..hi]` into a new vector.
fn copy_range(s: &[u8], lo: usize, hi: usize) -> (r: Vec<u8>)
    requires
        lo <= hi <= s@.len(),
    ensures
        r@ == s@.subrange(lo as int, hi as int),
{
    let mut r: Vec<u8> = Vec::with_capacity(hi - lo);
    let mut i: usize = lo;
    while i < hi
        invariant
            lo <= i <= hi <= s@.len(),
            r@ == s@.subrange(lo as int, i as int),
        decreases hi - i,
    {
        r.push(s[i]);
        i = i + 1;
        assert(r@ =~= s@.subrange(lo as int, i as int));
    }
    r
}

/// One round given the digest of `right` (and the key): returns the new
/// `(left, right)`, that is `right` and `left` XORed with the first
/// `left.len()` bytes of `digest`.
pub fn feistel_round(left: Vec<u8>, right: Vec<u8>, digest: &[u8]) -> (r: (Vec<u8>, Vec<u8>))
    requires
        left@.len() <= digest@.len(),
    ensures
        r.0@ == right@,
        r.1@ == xor_seq(left@, digest@.subrange(0, left@.len() as int)),
{
    let truncated = copy_range(digest, 0, left.len());
    let new_right = xor(left.as_slice(), truncated.as_slice());
    (right, new_right)
}

/// Encrypts or decrypts `input` under `key` with `rounds` Feistel rounds (none
/// when `rounds` is not positive). Applying it twice with the same key and
/// round count gives the input back.
pub fn feistel(input: &[u8], key: &[u8], rounds: i32) -> (r: Result<Vec<u8>, FeistelError>)
    ensures
        input@.len() % 2 == 1 ==> r == Err::<Vec<u8>, FeistelError>(FeistelError::InvalidInputLength),
        input@.len() % 2 == 0 && input@.len() / 2 > DIGEST_LEN
            ==> r == Err::<Vec<u8>, FeistelError>(FeistelError::BlockTooLarge),
        block_ok(input@) ==> r is Ok,
        r matches Ok(v) ==> v@ == transform_spec(input@, key@, rounds),
        r matches Ok(v) ==> v@.len() == input@.len(),
{
    if input.len() % 2 != 0 {
        return Err(FeistelError::InvalidInputLength);
    }
    let half_len = input.len() / 2;
    if half_len > DIGEST_LEN {
        return Err(FeistelError::BlockTooLarge);
    }
    let mut left = copy_range(input, 0, half_len);
    let mut right = copy_range(input, half_len, input.len());
    let ghost l0 = left@;
    let ghost r0 = right@;
    let mut i: i32 = 0;
    while i < rounds
        invariant
            0 <= i,
            rounds > 0 ==> i <= rounds,
            rounds <= 0 ==> i == 0,
            half_len <= DIGEST_LEN,
            left@.len() == half_len,
            right@.len() == half_len,
            (left@, right@) == rounds_spec(l0, r0, key@, i as nat),
        decreases rounds - i,
    {
        let digest = hash(right.as_slice(), key);
        assert(digest@.subrange(0, half_len as int) =~= round_mask(right@, key@, half_len as nat));
        let (l, r) = feistel_round(left, right, digest.as_slice());
        left = l;
        right = r;
        i = i + 1;
    }
    assert(i as nat == round_count(rounds));
    right.append(&mut left);
    Ok(right)
}

} // verus!
