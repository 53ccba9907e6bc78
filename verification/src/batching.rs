//! The subset-fetch discipline of the external APIs: partitioning id lists
//! into the fixed-size batches they are polled with, and the comma-joined
//! id list one such fetch carries.

use vstd::prelude::*;

verus! {

/// Largest number of ids one subset fetch may carry.
pub const SYNC_BATCH_SIZE: usize = 200;

/// Where batch `b` of a list of `len` ids ends: one past its last index.
pub open spec fn batch_end(len: int, b: int) -> int {
    if 200 * (b + 1) <= len {
        200 * (b + 1)
    } else {
        len
    }
}

/// Whether `batches` is the batch partition of `ids`: consecutive slices of
/// 200 ids each, the last one shorter when the length is no multiple of 200.
pub open spec fn batch_partition(batches: Seq<Vec<u32>>, ids: Seq<u32>) -> bool {
    &&& batches.len() == (ids.len() + 199) / 200
    &&& forall|b: int|
        0 <= b < batches.len() ==> (#[trigger] batches[b])@ == ids.subrange(
            200 * b,
            batch_end(ids.len() as int, b),
        )
}

/// Split an id list into the batches a sync run fetches, in order: each
/// batch holds `SYNC_BATCH_SIZE` ids but the last, which holds the rest.
pub fn chunk_ids(ids: &Vec<u32>) -> (batches: Vec<Vec<u32>>)
    ensures
        batch_partition(batches@, ids@),
{
    let n = ids.len();
    let mut batches: Vec<Vec<u32>> = Vec::new();
    let mut start: usize = 0;
    while start < n
        invariant
            n == ids@.len(),
            start <= n,
            if start < n {
                start == 200 * batches@.len()
            } else {
                batches@.len() == (n + 199) / 200
            },
            forall|b: int|
                0 <= b < batches@.len() ==> (#[trigger] batches@[b])@ == ids@.subrange(
                    200 * b,
                    batch_end(n as int, b),
                ),
        decreases n - start,
    {
        let end = if n - start > SYNC_BATCH_SIZE {
            start + SYNC_BATCH_SIZE
        } else {
            n
        };
        let mut chunk: Vec<u32> = Vec::new();
        let mut k = start;
        while k < end
            invariant
                n == ids@.len(),
                start <= k <= end <= n,
                chunk@ == ids@.subrange(start as int, k as int),
            decreases end - k,
        {
            chunk.push(ids[k]);
            k = k + 1;
            proof {
                assert(chunk@ =~= ids@.subrange(start as int, k as int));
            }
        }
        batches.push(chunk);
        start = end;
    }
    batches
}

/// The shortest decimal rendering of `n`, as ASCII bytes.
pub open spec fn decimal_bytes(n: int) -> Seq<u8>
    decreases n,
{
    if n < 10 {
        seq![(n + 48) as u8]
    } else {
        decimal_bytes(n / 10).push((n % 10 + 48) as u8)
    }
}

/// The comma-joined decimal id list of one subset fetch, as ASCII bytes.
pub open spec fn joined_ids(ids: Seq<u32>) -> Seq<u8>
    decreases ids.len(),
{
    if ids.len() == 0 {
        Seq::empty()
    } else if ids.len() == 1 {
        decimal_bytes(ids[0] as int)
    } else {
        joined_ids(ids.drop_last()) + seq![44u8] + decimal_bytes(ids.last() as int)
    }
}

/// Append the decimal rendering of `n`.
fn push_decimal(n: u32, out: &mut Vec<u8>)
    ensures
        final(out)@ == old(out)@ + decimal_bytes(n as int),
    decreases n,
{
    if n >= 10 {
        push_decimal(n / 10, out);
    }
    out.push((n % 10) as u8 + 48);
    proof {
        assert(out@ =~= old(out)@ + decimal_bytes(n as int));
    }
}

/// Render the id list of one subset fetch: each id in decimal, joined with
/// commas, as ASCII bytes.
pub fn ids_query(ids: &Vec<u32>) -> (out: Vec<u8>)
    ensures
        out@ == joined_ids(ids@),
{
    let n = ids.len();
    let mut out: Vec<u8> = Vec::new();
    assert(out@ =~= joined_ids(ids@.subrange(0, 0)));
    for i in 0..n
        invariant
            n == ids@.len(),
            out@ == joined_ids(ids@.subrange(0, i as int)),
    {
        if i > 0 {
            out.push(44);
        }
        push_decimal(ids[i], &mut out);
        proof {
            let prefix = ids@.subrange(0, i + 1);
            assert(prefix.drop_last() =~= ids@.subrange(0, i as int));
            assert(prefix.last() == ids@[i as int]);
            assert(out@ =~= joined_ids(prefix));
        }
    }
    proof {
        assert(ids@.subrange(0, n as int) =~= ids@);
    }
    out
}

} // verus!
