//! Byte-bounded chunking of a batch before shipment.
//!
//! Logs are packed greedily, in order, into chunks whose summed wire size
//! stays at or under the destination's byte cap. A single log larger than
//! the cap is never split: it travels as a chunk of its own.
use vstd::prelude::*;

use crate::models::spec_log_size;
use crate::models::Log;

verus! {

/// The wire size of one log.
pub open spec fn spec_size(l: Log) -> nat {
    spec_log_size(l@)
}

/// The summed wire size of a batch.
pub open spec fn spec_sum_sizes(s: Seq<Log>) -> nat
    decreases s.len(),
{
    if s.len() == 0 {
        0
    } else {
        spec_sum_sizes(s.drop_last()) + spec_size(s.last())
    }
}

/// Where the first chunk of `s` ends, scanning from `i` with `acc` bytes
/// already packed: the first index whose log no longer fits under `cap`,
/// or the end of the batch.
pub open spec fn chunk_split(s: Seq<Log>, cap: nat, i: int, acc: nat) -> int
    decreases s.len() - i,
{
    if i < 0 || i >= s.len() {
        s.len() as int
    } else if acc + spec_size(s[i]) > cap {
        i
    } else {
        chunk_split(s, cap, i + 1, acc + spec_size(s[i]))
    }
}

/// How many logs the first chunk takes: as many as fit, but always at
/// least one, so an oversized log goes out alone.
pub open spec fn first_chunk_len(s: Seq<Log>, cap: nat) -> int {
    let k = chunk_split(s, cap, 0, 0);
    if k == 0 {
        1int
    } else {
        k
    }
}

proof fn lemma_chunk_split_bounds(s: Seq<Log>, cap: nat, i: int, acc: nat)
    requires
        0 <= i <= s.len(),
    ensures
        i <= chunk_split(s, cap, i, acc) <= s.len(),
    decreases s.len() - i,
{
    if i < s.len() && !(acc + spec_size(s[i]) > cap) {
        lemma_chunk_split_bounds(s, cap, i + 1, acc + spec_size(s[i]));
    }
}

/// The greedy chunking of a batch: the first chunk, then the chunking of
/// the rest.
pub open spec fn spec_chunks(s: Seq<Log>, cap: nat) -> Seq<Seq<Log>>
    decreases s.len(),
    via spec_chunks_dec
{
    if s.len() == 0 {
        Seq::empty()
    } else {
        seq![s.take(first_chunk_len(s, cap))] + spec_chunks(s.skip(first_chunk_len(s, cap)), cap)
    }
}

#[via_fn]
proof fn spec_chunks_dec(s: Seq<Log>, cap: nat) {
    if s.len() > 0 {
        lemma_chunk_split_bounds(s, cap, 0, 0);
    }
}

/// Split a batch into its greedy chunks.
#[verifier::loop_isolation(false)]
pub fn chunk_logs(logs: Vec<Log>, cap: usize) -> (r: Vec<Vec<Log>>)
    ensures
        r@.map_values(|c: Vec<Log>| c@) == spec_chunks(logs@, cap as nat),
{
    let ghost orig: Seq<Log> = logs@;
    let mut rest = logs;
    let mut chunks: Vec<Vec<Log>> = Vec::new();
    proof {
        assert(chunks@.map_values(|c: Vec<Log>| c@) + spec_chunks(orig, cap as nat) =~= spec_chunks(
            orig,
            cap as nat,
        ));
    }
    while rest.len() > 0
        invariant
            spec_chunks(orig, cap as nat) == chunks@.map_values(|c: Vec<Log>| c@) + spec_chunks(
                rest@,
                cap as nat,
            ),
        decreases rest@.len(),
    {
        let ghost s = rest@;
        let ghost prev = chunks@;
        let k = measure_first_chunk(&rest, cap);
        proof {
            lemma_chunk_split_bounds(s, cap as nat, 0, 0);
        }
        let mut chunk: Vec<Log> = Vec::new();
        let mut t: usize = 0;
        while t < k
            invariant
                0 < k <= s.len(),
                0 <= t <= k,
                chunk@ == s.take(t as int),
                rest@ == s.skip(t as int),
            decreases k - t,
        {
            let moved = rest.remove(0);
            proof {
                assert(moved == s.skip(t as int)[0]);
                assert(moved == s[t as int]);
            }
            chunk.push(moved);
            proof {
                assert(s.take(t + 1) =~= s.take(t as int).push(s[t as int]));
                assert(s.skip(t as int).remove(0) =~= s.skip(t + 1));
            }
            t = t + 1;
        }
        chunks.push(chunk);
        proof {
            let f = |c: Vec<Log>| c@;
            assert(spec_chunks(s, cap as nat) == seq![s.take(k as int)] + spec_chunks(
                s.skip(k as int),
                cap as nat,
            ));
            assert(chunks@.map_values(f) =~= prev.map_values(f).push(s.take(k as int)));
            assert(prev.map_values(f).push(s.take(k as int)) + spec_chunks(s.skip(k as int), cap as nat)
                =~= prev.map_values(f) + (seq![s.take(k as int)] + spec_chunks(
                s.skip(k as int),
                cap as nat,
            )));
        }
    }
    proof {
        assert(spec_chunks(rest@, cap as nat) == Seq::<Seq<Log>>::empty());
        assert(chunks@.map_values(|c: Vec<Log>| c@) + Seq::<Seq<Log>>::empty() =~= chunks@.map_values(
            |c: Vec<Log>| c@,
        ));
    }
    chunks
}

/// The summed size of one more log at the end of a prefix.
proof fn lemma_sum_take_snoc(s: Seq<Log>, i: int)
    requires
        0 <= i < s.len(),
    ensures
        spec_sum_sizes(s.take(i + 1)) == spec_sum_sizes(s.take(i)) + spec_size(s[i]),
{
    assert(s.take(i + 1).drop_last() =~= s.take(i));
    assert(s.take(i + 1).last() == s[i]);
}

/// Scanning from a prefix whose sizes sum to `acc <= cap`, the prefix the
/// scan settles on still sums to at most `cap`.
proof fn lemma_split_sum(s: Seq<Log>, cap: nat, i: int, acc: nat)
    requires
        0 <= i <= s.len(),
        acc == spec_sum_sizes(s.take(i)),
        acc <= cap,
    ensures
        spec_sum_sizes(s.take(chunk_split(s, cap, i, acc))) <= cap,
    decreases s.len() - i,
{
    if i < s.len() {
        if acc + spec_size(s[i]) > cap {
        } else {
            lemma_sum_take_snoc(s, i);
            lemma_split_sum(s, cap, i + 1, acc + spec_size(s[i]));
        }
    } else {
        assert(s.take(i) =~= s);
        assert(s.take(s.len() as int) =~= s);
    }
}

/// Every chunk fits under the cap, except a chunk that holds a single
/// oversized log.
pub proof fn lemma_chunk_bounded(s: Seq<Log>, cap: nat, i: int)
    requires
        0 <= i < spec_chunks(s, cap).len(),
    ensures
        spec_sum_sizes(spec_chunks(s, cap)[i]) <= cap || spec_chunks(s, cap)[i].len() == 1,
    decreases s.len(),
{
    let k = first_chunk_len(s, cap);
    lemma_chunk_split_bounds(s, cap, 0, 0);
    if i == 0 {
        if chunk_split(s, cap, 0, 0) == 0 {
            assert(spec_chunks(s, cap)[0] == s.take(1));
        } else {
            assert(s.take(0) =~= Seq::<Log>::empty());
            lemma_split_sum(s, cap, 0, 0);
            assert(spec_chunks(s, cap)[0] == s.take(k));
        }
    } else {
        lemma_chunk_bounded(s.skip(k), cap, i - 1);
        assert(spec_chunks(s, cap)[i] == spec_chunks(s.skip(k), cap)[i - 1]);
    }
}

/// Every log in any chunk is a log of the batch.
pub proof fn lemma_chunk_elements(s: Seq<Log>, cap: nat, i: int, j: int)
    requires
        0 <= i < spec_chunks(s, cap).len(),
        0 <= j < spec_chunks(s, cap)[i].len(),
    ensures
        exists|k: int| 0 <= k < s.len() && spec_chunks(s, cap)[i][j] == s[k],
    decreases s.len(),
{
    let k = first_chunk_len(s, cap);
    lemma_chunk_split_bounds(s, cap, 0, 0);
    if i == 0 {
        assert(spec_chunks(s, cap)[0] == s.take(k));
        assert(spec_chunks(s, cap)[0][j] == s[j]);
    } else {
        lemma_chunk_elements(s.skip(k), cap, i - 1, j);
        assert(spec_chunks(s, cap)[i] == spec_chunks(s.skip(k), cap)[i - 1]);
        let m = choose|m: int|
            0 <= m < s.skip(k).len() && spec_chunks(s.skip(k), cap)[i - 1][j] == s.skip(k)[m];
        assert(s.skip(k)[m] == s[k + m]);
    }
}

/// The chunks of a batch, concatenated in order, are exactly the batch:
/// chunking neither loses, duplicates, nor reorders a log.
pub proof fn lemma_chunks_concat(s: Seq<Log>, cap: nat)
    ensures
        spec_chunks(s, cap).flatten() == s,
    decreases s.len(),
{
    if s.len() == 0 {
        assert(spec_chunks(s, cap).flatten() =~= s);
    } else {
        let k = first_chunk_len(s, cap);
        lemma_chunk_split_bounds(s, cap, 0, 0);
        lemma_chunks_concat(s.skip(k), cap);
        let cs = spec_chunks(s, cap);
        assert(cs.first() == s.take(k));
        assert(cs.drop_first() =~= spec_chunks(s.skip(k), cap));
        assert(cs.flatten() == cs.first() + cs.drop_first().flatten());
        assert(s.take(k) + s.skip(k) =~= s);
    }
}

/// How many logs the first chunk of `rest` takes.
#[verifier::loop_isolation(false)]
fn measure_first_chunk(rest: &Vec<Log>, cap: usize) -> (k: usize)
    requires
        rest@.len() > 0,
    ensures
        k == first_chunk_len(rest@, cap as nat),
{
    let first_size = rest[0].bytes_size();
    if first_size > cap {
        proof {
            assert(chunk_split(rest@, cap as nat, 0, 0) == 0);
        }
        return 1;
    }
    let mut acc: usize = first_size;
    let mut j: usize = 1;
    while j < rest.len()
        invariant
            1 <= j <= rest@.len(),
            acc <= cap,
            chunk_split(rest@, cap as nat, 0, 0) == chunk_split(rest@, cap as nat, j as int, acc as nat),
        decreases rest@.len() - j,
    {
        let sz = rest[j].bytes_size();
        if sz > cap - acc {
            assert(chunk_split(rest@, cap as nat, j as int, acc as nat) == j);
            return j;
        }
        acc = acc + sz;
        j = j + 1;
    }
    assert(chunk_split(rest@, cap as nat, j as int, acc as nat) == rest@.len());
    j
}

} // verus!
