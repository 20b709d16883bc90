//! Caller-supplied delegation configuration and its fixed-layout binary
//! encoding.
//!
//! The parameter record travels as exactly twelve bytes: the synchronization
//! interval as a little-endian 32-bit word followed by the time limit as a
//! little-endian 64-bit word, with no padding. A time limit of zero means the
//! delegation is unbounded.

use vstd::arithmetic::div_mod::{lemma_fundamental_div_mod, lemma_mod_bound};
use vstd::prelude::*;

use crate::errors::LifecycleError;

verus! {

/// Caller-supplied configuration for the delegate transition: how often the
/// external service snapshots state back to the base layer, and an optional
/// absolute time limit (zero = unbounded).
#[derive(Clone, Copy, Debug, PartialEq, Eq, Structural)]
pub struct DelegateMarketParams {
    /// How often to sync state with the base layer (in milliseconds).
    pub update_frequency_ms: u32,
    /// Time limit for delegation (0 = no limit).
    pub time_limit: u64,
}

/// 256 raised to `n`: the number of values a little-endian word of `n` bytes
/// can hold.
pub open spec fn pow_256(n: nat) -> int
    decreases n,
{
    if n == 0 {
        1
    } else {
        256 * pow_256((n - 1) as nat)
    }
}

/// The `n` little-endian bytes of the value `v`.
pub open spec fn le_bytes(v: int, n: nat) -> Seq<u8>
    decreases n,
{
    if n == 0 {
        Seq::empty()
    } else {
        seq![(v % 256) as u8] + le_bytes(v / 256, (n - 1) as nat)
    }
}

/// The value of a byte string read as one little-endian word.
pub open spec fn le_word_value(s: Seq<u8>) -> int
    decreases s.len(),
{
    if s.len() == 0 {
        0
    } else {
        s[0] + 256 * le_word_value(s.subrange(1, s.len() as int))
    }
}

/// The twelve-byte encoding of a parameter record.
pub open spec fn params_bytes(p: DelegateMarketParams) -> Seq<u8> {
    le_bytes(p.update_frequency_ms as int, 4) + le_bytes(p.time_limit as int, 8)
}

/// The parameter record held by a byte string, if it is well-formed: exactly
/// twelve bytes, interval first, time limit second.
pub open spec fn parsed_params(s: Seq<u8>) -> Option<DelegateMarketParams> {
    if s.len() == 12 {
        Some(
            DelegateMarketParams {
                update_frequency_ms: le_word_value(s.subrange(0, 4)) as u32,
                time_limit: le_word_value(s.subrange(4, 12)) as u64,
            },
        )
    } else {
        None
    }
}

/// The word sizes this record uses, spelled out.
pub proof fn lemma_pow_256_words()
    ensures
        pow_256(4) == 4294967296,
        pow_256(8) == 18446744073709551616,
{
    assert(pow_256(0) == 1);
    assert(pow_256(1) == 256);
    assert(pow_256(2) == 65536);
    assert(pow_256(3) == 16777216);
    assert(pow_256(4) == 4294967296);
    assert(pow_256(5) == 1099511627776);
    assert(pow_256(6) == 281474976710656);
    assert(pow_256(7) == 72057594037927936);
    assert(pow_256(8) == 18446744073709551616);
}

pub proof fn lemma_pow_256_pos(n: nat)
    ensures
        pow_256(n) >= 1,
    decreases n,
{
    if n > 0 {
        lemma_pow_256_pos((n - 1) as nat);
    }
}

pub proof fn lemma_le_bytes_len(v: int, n: nat)
    ensures
        le_bytes(v, n).len() == n,
    decreases n,
{
    if n > 0 {
        lemma_le_bytes_len(v / 256, (n - 1) as nat);
    }
}

/// A little-endian word of `n` bytes holds a value below `pow_256(n)`.
pub proof fn lemma_le_word_value_bound(s: Seq<u8>)
    ensures
        0 <= le_word_value(s) < pow_256(s.len()),
    decreases s.len(),
{
    if s.len() == 0 {
    } else {
        lemma_le_word_value_bound(s.subrange(1, s.len() as int));
    }
}

/// Reading back the little-endian bytes of a value in range recovers it.
pub proof fn lemma_le_round_trip(v: int, n: nat)
    requires
        0 <= v < pow_256(n),
    ensures
        le_word_value(le_bytes(v, n)) == v,
    decreases n,
{
    if n == 0 {
    } else {
        lemma_fundamental_div_mod(v, 256);
        lemma_mod_bound(v, 256);
        lemma_pow_256_pos((n - 1) as nat);
        assert(v / 256 < pow_256((n - 1) as nat));
        lemma_le_round_trip(v / 256, (n - 1) as nat);
        lemma_le_bytes_len(v / 256, (n - 1) as nat);
        let s = le_bytes(v, n);
        assert(s.subrange(1, s.len() as int) =~= le_bytes(v / 256, (n - 1) as nat));
    }
}

/// Decoding an encoded parameter record gives back the record, for every
/// `(update_frequency_ms, time_limit)` pair.
pub proof fn lemma_params_round_trip(p: DelegateMarketParams)
    ensures
        parsed_params(params_bytes(p)) == Some(p),
{
    let f = p.update_frequency_ms as int;
    let t = p.time_limit as int;
    lemma_le_bytes_len(f, 4);
    lemma_le_bytes_len(t, 8);
    let s = params_bytes(p);
    assert(s.subrange(0, 4) =~= le_bytes(f, 4));
    assert(s.subrange(4, 12) =~= le_bytes(t, 8));
    lemma_pow_256_words();
    lemma_le_round_trip(f, 4);
    lemma_le_round_trip(t, 8);
}

impl DelegateMarketParams {
    /// Serialize the record to its twelve-byte little-endian layout.
    pub fn encode(&self) -> (r: Vec<u8>)
        ensures
            r@ == params_bytes(*self),
    {
        let mut out: Vec<u8> = Vec::new();
        let f: u32 = self.update_frequency_ms;
        let f1: u32 = f / 256;
        let f2: u32 = f1 / 256;
        let f3: u32 = f2 / 256;
        out.push((f % 256) as u8);
        out.push((f1 % 256) as u8);
        out.push((f2 % 256) as u8);
        out.push((f3 % 256) as u8);
        let t: u64 = self.time_limit;
        let t1: u64 = t / 256;
        let t2: u64 = t1 / 256;
        let t3: u64 = t2 / 256;
        let t4: u64 = t3 / 256;
        let t5: u64 = t4 / 256;
        let t6: u64 = t5 / 256;
        let t7: u64 = t6 / 256;
        out.push((t % 256) as u8);
        out.push((t1 % 256) as u8);
        out.push((t2 % 256) as u8);
        out.push((t3 % 256) as u8);
        out.push((t4 % 256) as u8);
        out.push((t5 % 256) as u8);
        out.push((t6 % 256) as u8);
        out.push((t7 % 256) as u8);
        proof {
            assert(le_bytes(f3 as int / 256, 0) =~= Seq::<u8>::empty());
            assert(le_bytes(f3 as int, 1) =~= seq![(f3 % 256) as u8]);
            assert(le_bytes(f2 as int, 2) =~= seq![(f2 % 256) as u8] + le_bytes(f3 as int, 1));
            assert(le_bytes(f1 as int, 3) =~= seq![(f1 % 256) as u8] + le_bytes(f2 as int, 2));
            assert(le_bytes(f as int, 4) =~= seq![(f % 256) as u8] + le_bytes(f1 as int, 3));
            assert(le_bytes(t7 as int / 256, 0) =~= Seq::<u8>::empty());
            assert(le_bytes(t7 as int, 1) =~= seq![(t7 % 256) as u8]);
            assert(le_bytes(t6 as int, 2) =~= seq![(t6 % 256) as u8] + le_bytes(t7 as int, 1));
            assert(le_bytes(t5 as int, 3) =~= seq![(t5 % 256) as u8] + le_bytes(t6 as int, 2));
            assert(le_bytes(t4 as int, 4) =~= seq![(t4 % 256) as u8] + le_bytes(t5 as int, 3));
            assert(le_bytes(t3 as int, 5) =~= seq![(t3 % 256) as u8] + le_bytes(t4 as int, 4));
            assert(le_bytes(t2 as int, 6) =~= seq![(t2 % 256) as u8] + le_bytes(t3 as int, 5));
            assert(le_bytes(t1 as int, 7) =~= seq![(t1 % 256) as u8] + le_bytes(t2 as int, 6));
            assert(le_bytes(t as int, 8) =~= seq![(t % 256) as u8] + le_bytes(t1 as int, 7));
            assert(out@ =~= params_bytes(*self));
        }
        out
    }

    /// Parse a twelve-byte little-endian record; any other length is rejected
    /// as malformed parameter bytes.
    pub fn decode(data: &Vec<u8>) -> (r: Result<DelegateMarketParams, LifecycleError>)
        ensures
            r is Ok <==> parsed_params(data@) is Some,
            r is Ok ==> r->Ok_0 == parsed_params(data@)->0,
            r is Err ==> r->Err_0 == LifecycleError::InvalidOrMismatchedAccountData,
    {
        if data.len() != 12 {
            return Err(LifecycleError::InvalidOrMismatchedAccountData);
        }
        let update_frequency_ms: u32 = le32_from_bytes(data[0], data[1], data[2], data[3]);
        let time_limit: u64 = le64_from_bytes(
            data[4],
            data[5],
            data[6],
            data[7],
            data[8],
            data[9],
            data[10],
            data[11],
        );
        proof {
            let s = data@;
            assert(seq![data@[0], data@[1], data@[2], data@[3]] =~= s.subrange(0, 4));
            assert(seq![
                data@[4],
                data@[5],
                data@[6],
                data@[7],
                data@[8],
                data@[9],
                data@[10],
                data@[11],
            ] =~= s.subrange(4, 12));
            lemma_le_word_value_bound(s.subrange(0, 4));
            lemma_le_word_value_bound(s.subrange(4, 12));
            lemma_pow_256_words();
        }
        Ok(DelegateMarketParams { update_frequency_ms, time_limit })
    }
}

/// The value of four bytes read as one little-endian 32-bit word.
fn le32_from_bytes(b0: u8, b1: u8, b2: u8, b3: u8) -> (r: u32)
    ensures
        r as int == le_word_value(seq![b0, b1, b2, b3]),
{
    let r = b0 as u32 + 256 * (b1 as u32 + 256 * (b2 as u32 + 256 * (b3 as u32)));
    proof {
        let s = seq![b0, b1, b2, b3];
        assert(s.subrange(1, 4) =~= seq![b1, b2, b3]);
        assert(seq![b1, b2, b3].subrange(1, 3) =~= seq![b2, b3]);
        assert(seq![b2, b3].subrange(1, 2) =~= seq![b3]);
        assert(seq![b3].subrange(1, 1) =~= Seq::<u8>::empty());
        assert(le_word_value(Seq::<u8>::empty()) == 0);
        assert(le_word_value(seq![b3]) == b3 as int);
        assert(le_word_value(seq![b2, b3]) == b2 + 256 * (b3 as int));
        assert(le_word_value(seq![b1, b2, b3]) == b1 + 256 * (b2 + 256 * (b3 as int)));
        assert(le_word_value(seq![b0, b1, b2, b3]) == b0 + 256 * (b1 + 256 * (b2 + 256 * (
        b3 as int))));
    }
    r
}

/// The value of eight bytes read as one little-endian 64-bit word.
fn le64_from_bytes(b0: u8, b1: u8, b2: u8, b3: u8, b4: u8, b5: u8, b6: u8, b7: u8) -> (r: u64)
    ensures
        r as int == le_word_value(seq![b0, b1, b2, b3, b4, b5, b6, b7]),
{
    let r = b0 as u64 + 256 * (b1 as u64 + 256 * (b2 as u64 + 256 * (b3 as u64 + 256 * (b4 as u64
        + 256 * (b5 as u64 + 256 * (b6 as u64 + 256 * (b7 as u64)))))));
    proof {
        let s = seq![b0, b1, b2, b3, b4, b5, b6, b7];
        assert(s.subrange(1, 8) =~= seq![b1, b2, b3, b4, b5, b6, b7]);
        assert(seq![b1, b2, b3, b4, b5, b6, b7].subrange(1, 7) =~= seq![b2, b3, b4, b5, b6, b7]);
        assert(seq![b2, b3, b4, b5, b6, b7].subrange(1, 6) =~= seq![b3, b4, b5, b6, b7]);
        assert(seq![b3, b4, b5, b6, b7].subrange(1, 5) =~= seq![b4, b5, b6, b7]);
        assert(seq![b4, b5, b6, b7].subrange(1, 4) =~= seq![b5, b6, b7]);
        assert(seq![b5, b6, b7].subrange(1, 3) =~= seq![b6, b7]);
        assert(seq![b6, b7].subrange(1, 2) =~= seq![b7]);
        assert(seq![b7].subrange(1, 1) =~= Seq::<u8>::empty());
        assert(le_word_value(Seq::<u8>::empty()) == 0);
        assert(le_word_value(seq![b7]) == b7 as int);
        assert(le_word_value(seq![b6, b7]) == b6 + 256 * (b7 as int));
        assert(le_word_value(seq![b5, b6, b7]) == b5 + 256 * (b6 + 256 * (b7 as int)));
        assert(le_word_value(seq![b4, b5, b6, b7]) == b4 + 256 * (b5 + 256 * (b6 + 256 * (
        b7 as int))));
        assert(le_word_value(seq![b3, b4, b5, b6, b7]) == b3 + 256 * (b4 + 256 * (b5 + 256 * (b6
            + 256 * (b7 as int)))));
        assert(le_word_value(seq![b2, b3, b4, b5, b6, b7]) == b2 + 256 * (b3 + 256 * (b4 + 256 * (
        b5 + 256 * (b6 + 256 * (b7 as int))))));
        assert(le_word_value(seq![b1, b2, b3, b4, b5, b6, b7]) == b1 + 256 * (b2 + 256 * (b3 + 256
            * (b4 + 256 * (b5 + 256 * (b6 + 256 * (b7 as int)))))));
        assert(le_word_value(seq![b0, b1, b2, b3, b4, b5, b6, b7]) == b0 + 256 * (b1 + 256 * (b2
            + 256 * (b3 + 256 * (b4 + 256 * (b5 + 256 * (b6 + 256 * (b7 as int))))))));
    }
    r
}

} // verus!
