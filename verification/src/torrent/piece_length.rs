//! Piece length selection and hashing thread count for torrent creation.
use vstd::prelude::*;

verus! {

/// Maximum number of threads used to hash pieces while creating a torrent.
pub const MAX_THREADS: usize = 4;

/// Smallest piece length in bytes (16 KiB).
pub const MIN_PIECE_LENGTH: u64 = 16384;

/// Largest piece length in bytes (16 MiB).
pub const MAX_PIECE_LENGTH: u64 = 16777216;

/// Two to the power `e`.
pub open spec fn exp2(e: nat) -> nat
    decreases e,
{
    if e == 0 {
        1
    } else {
        2 * exp2((e - 1) as nat)
    }
}

/// The number of doublings of 1 needed to reach at least `n`: the least `k`
/// with `2^k >= n`.
pub open spec fn ceil_log2(n: nat) -> nat
    decreases n,
{
    if n <= 1 {
        0
    } else {
        1 + ceil_log2(((n + 1) / 2) as nat)
    }
}

/// `v` limited to the range `lo..=hi`.
pub open spec fn clamp(v: int, lo: int, hi: int) -> int {
    if v < lo {
        lo
    } else if v > hi {
        hi
    } else {
        v
    }
}

/// The piece length chosen for content of `content_size` bytes: two to the
/// power of half the rounded-up binary logarithm of the size (a size of 0
/// counts as 1) plus four, limited to the range 16 KiB to 16 MiB.
pub open spec fn spec_piece_length(content_size: nat) -> int {
    let size = if content_size < 1 {
        1
    } else {
        content_size
    };
    clamp(
        exp2(ceil_log2(size) / 2 + 4) as int,
        MIN_PIECE_LENGTH as int,
        MAX_PIECE_LENGTH as int,
    )
}

proof fn lemma_exp2_positive(e: nat)
    ensures
        exp2(e) >= 1,
    decreases e,
{
    if e > 0 {
        lemma_exp2_positive((e - 1) as nat);
    }
}

proof fn lemma_exp2_monotone(a: nat, b: nat)
    requires
        a <= b,
    ensures
        exp2(a) <= exp2(b),
    decreases b,
{
    if a < b {
        lemma_exp2_monotone(a, (b - 1) as nat);
        lemma_exp2_positive((b - 1) as nat);
    }
}

proof fn lemma_ceil_log2_bound(n: nat, k: nat)
    requires
        n <= exp2(k),
    ensures
        ceil_log2(n) <= k,
    decreases n,
{
    if n > 1 {
        assert(k > 0);
        lemma_ceil_log2_bound(((n + 1) / 2) as nat, (k - 1) as nat);
    }
}

proof fn lemma_ceil_log2_monotone(a: nat, b: nat)
    requires
        a <= b,
    ensures
        ceil_log2(a) <= ceil_log2(b),
    decreases b,
{
    if a > 1 {
        lemma_ceil_log2_monotone(((a + 1) / 2) as nat, ((b + 1) / 2) as nat);
    }
}

/// The least `k` with `2^k >= n`, for `n >= 1`.
fn ceil_log2_u64(n: u64) -> (res: u32)
    requires
        n >= 1,
    ensures
        res as nat == ceil_log2(n as nat),
        res <= 64,
    decreases n,
{
    proof {
        reveal_with_fuel(exp2, 65);
        assert(exp2(64) == 0x1_0000_0000_0000_0000);
        lemma_ceil_log2_bound(n as nat, 64);
    }
    if n <= 1 {
        0
    } else {
        let half = (n - 1) / 2 + 1;
        assert(half == (n + 1) / 2);
        1 + ceil_log2_u64(half)
    }
}

/// Select piece length.
///
/// Follows the conventions of the intermodal piece length picker: two to the
/// power of half the rounded-up binary logarithm of the content size, plus
/// four, limited to 16 KiB..=16 MiB.
pub fn piece_length(content_size: u64) -> (res: i64)
    ensures
        res as int == spec_piece_length(content_size as nat),
{
    let size: u64 = if content_size < 1 {
        1
    } else {
        content_size
    };
    let log2 = ceil_log2_u64(size);
    let half_exp = log2 / 2 + 4;
    let mut length: u64 = 1;
    let mut i: u32 = 0;
    proof {
        reveal_with_fuel(exp2, 37);
        assert(exp2(36) == 0x10_0000_0000);
        lemma_exp2_monotone(half_exp as nat, 36);
    }
    while i < half_exp
        invariant
            i <= half_exp,
            half_exp <= 36,
            exp2(half_exp as nat) <= 0x10_0000_0000,
            length as nat == exp2(i as nat),
        decreases half_exp - i,
    {
        proof {
            lemma_exp2_monotone((i + 1) as nat, half_exp as nat);
        }
        length = length * 2;
        i = i + 1;
    }
    let clamped = if length < MIN_PIECE_LENGTH {
        MIN_PIECE_LENGTH
    } else if length > MAX_PIECE_LENGTH {
        MAX_PIECE_LENGTH
    } else {
        length
    };
    clamped as i64
}

/// Every chosen piece length is a power of two from 16 KiB to 16 MiB.
pub proof fn piece_length_is_bounded_power_of_two(content_size: nat)
    ensures
        exists|e: nat|
            14 <= e <= 24 && #[trigger] exp2(e) as int == spec_piece_length(content_size),
{
    let size = if content_size < 1 {
        1
    } else {
        content_size
    };
    let e = ceil_log2(size) / 2 + 4;
    reveal_with_fuel(exp2, 25);
    assert(exp2(14) == 16384);
    assert(exp2(24) == 16777216);
    if e < 14 {
        lemma_exp2_monotone(e, 14);
        assert(exp2(14) as int == spec_piece_length(content_size));
    } else if e > 24 {
        lemma_exp2_monotone(24, e);
        assert(exp2(24) as int == spec_piece_length(content_size));
    } else {
        assert(exp2(e) as int == spec_piece_length(content_size));
    }
}

/// Larger content never gets a smaller piece length.
pub proof fn piece_length_is_monotone(a: nat, b: nat)
    requires
        a <= b,
    ensures
        spec_piece_length(a) <= spec_piece_length(b),
{
    let sa: nat = if a < 1 {
        1
    } else {
        a
    };
    let sb: nat = if b < 1 {
        1
    } else {
        b
    };
    lemma_ceil_log2_monotone(sa, sb);
    lemma_exp2_monotone(ceil_log2(sa) / 2 + 4, ceil_log2(sb) / 2 + 4);
}

/// Number of CPUs reported by `num_cpus::get`.
///
/// Trusted: the count depends on the machine; only that it is at least one,
/// as the crate documents, is claimed.
#[verifier::external_body]
fn cpu_count() -> (res: usize)
    ensures
        res >= 1,
{
    num_cpus::get()
}

/// The number of threads used to hash pieces: the CPU count, at most
/// [`MAX_THREADS`].
pub fn num_threads() -> (res: usize)
    ensures
        1 <= res <= MAX_THREADS,
{
    threads_for(cpu_count())
}

/// The number of hashing threads for a machine with `cpus` CPUs.
pub fn threads_for(cpus: usize) -> (res: usize)
    ensures
        res == if cpus < MAX_THREADS {
            cpus
        } else {
            MAX_THREADS
        },
{
    if cpus < MAX_THREADS {
        cpus
    } else {
        MAX_THREADS
    }
}

} // verus!
