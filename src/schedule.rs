use rand::seq::SliceRandom;
use vstd::prelude::*;

use crate::shape::width;

verus! {

/// The indices `0..n` in increasing order.
pub open spec fn index_seq(n: nat) -> Seq<usize> {
    Seq::new(n, |i: int| i as usize)
}

/// `order` holds each index below `n` exactly once, in some order.
pub open spec fn is_index_order(order: Seq<usize>, n: nat) -> bool {
    order.to_multiset() == index_seq(n).to_multiset()
}

/// `batches` cuts `order` into consecutive pieces of `batch_size` entries,
/// the last one possibly shorter, none empty.
pub open spec fn is_batching(batches: Seq<Vec<usize>>, order: Seq<usize>, batch_size: nat) -> bool {
    &&& batches.len() * batch_size >= order.len()
    &&& batches.len() > 0 ==> (batches.len() - 1) * batch_size < order.len()
    &&& forall|b: int|
        0 <= b < batches.len() ==> #[trigger] batches[b]@ == order.subrange(
            b * batch_size,
            if b * batch_size + batch_size <= order.len() {
                b * batch_size + batch_size
            } else {
                order.len() as int
            },
        )
}

/// `batches` is one epoch of training over `n` examples: a shuffle of the
/// indices `0..n` cut into batches of `batch_size`.
pub open spec fn is_epoch(batches: Seq<Vec<usize>>, n: nat, batch_size: nat) -> bool {
    exists|order: Seq<usize>| is_index_order(order, n) && #[trigger] is_batching(batches, order, batch_size)
}

/// Relies on rand's `SliceRandom::shuffle`, driven by `thread_rng`: it only
/// swaps entries, so what comes out is a rearrangement of what went in.
#[verifier::external_body]
fn shuffle(v: &mut Vec<usize>)
    ensures
        final(v)@.len() == old(v)@.len(),
        final(v)@.to_multiset() == old(v)@.to_multiset(),
{
    v.shuffle(&mut rand::thread_rng());
}

/// The indices `0..n` in a uniformly random order.
pub fn shuffled_indices(n: usize) -> (r: Vec<usize>)
    ensures
        r@.len() == n,
        is_index_order(r@, n as nat),
{
    let mut v: Vec<usize> = Vec::new();
    let mut i: usize = 0;
    while i < n
        invariant
            i <= n,
            v@ == index_seq(i as nat),
        decreases n - i,
    {
        v.push(i);
        i = i + 1;
        assert(v@ =~= index_seq(i as nat));
    }
    shuffle(&mut v);
    v
}

/// Cuts `order` into consecutive batches of `batch_size` entries; the last
/// batch holds what is left and may be shorter.
pub fn batches(order: &Vec<usize>, batch_size: usize) -> (r: Vec<Vec<usize>>)
    requires
        batch_size > 0,
    ensures
        is_batching(r@, order@, batch_size as nat),
{
    let len = order.len();
    let mut r: Vec<Vec<usize>> = Vec::new();
    let mut start: usize = 0;
    while start < len
        invariant
            len == order@.len(),
            batch_size > 0,
            start <= len,
            r@.len() * batch_size >= start,
            start < len ==> start == r@.len() * batch_size,
            r@.len() > 0 ==> (r@.len() - 1) * batch_size < len,
            forall|b: int|
                0 <= b < r@.len() ==> #[trigger] r@[b]@ == order@.subrange(
                    b * batch_size,
                    if b * batch_size + batch_size <= len {
                        b * batch_size + batch_size
                    } else {
                        len as int
                    },
                ),
        decreases len - start,
    {
        let end = if len - start > batch_size { start + batch_size } else { len };
        let mut chunk: Vec<usize> = Vec::new();
        let mut i: usize = start;
        while i < end
            invariant
                start <= i <= end <= len,
                len == order@.len(),
                chunk@ == order@.subrange(start as int, i as int),
            decreases end - i,
        {
            chunk.push(order[i]);
            i = i + 1;
            assert(chunk@ =~= order@.subrange(start as int, i as int));
        }
        let ghost k = r@.len();
        proof {
            assert((k + 1) * batch_size == k * batch_size + batch_size) by (nonlinear_arith);
        }
        r.push(chunk);
        start = end;
    }
    r
}

/// The batches of a training run: for each of `epochs` epochs (none when
/// `epochs` is not positive), the examples that both lists hold, indices
/// `0..min(n_inputs, n_targets)`, shuffled and cut into batches of
/// `batch_size`.
pub fn training_schedule(epochs: i32, n_inputs: usize, n_targets: usize, batch_size: usize) -> (r: Vec<Vec<Vec<usize>>>)
    requires
        epochs <= 0 || batch_size > 0,
    ensures
        r@.len() == width(epochs),
        epochs <= 0 ==> r@.len() == 0,
        forall|e: int|
            0 <= e < r@.len() ==> is_epoch(
                #[trigger] r@[e]@,
                if n_inputs <= n_targets {
                    n_inputs as nat
                } else {
                    n_targets as nat
                },
                batch_size as nat,
            ),
{
    let n = if n_inputs <= n_targets { n_inputs } else { n_targets };
    let mut r: Vec<Vec<Vec<usize>>> = Vec::new();
    let mut e: i32 = 0;
    while e < epochs
        invariant
            epochs > 0 ==> batch_size > 0,
            0 <= e,
            epochs > 0 ==> e <= epochs,
            epochs <= 0 ==> e == 0,
            r@.len() == e,
            forall|j: int| 0 <= j < r@.len() ==> is_epoch(#[trigger] r@[j]@, n as nat, batch_size as nat),
        decreases epochs - e,
    {
        let order = shuffled_indices(n);
        let epoch = batches(&order, batch_size);
        assert(is_index_order(order@, n as nat) && is_batching(epoch@, order@, batch_size as nat));
        r.push(epoch);
        e = e + 1;
    }
    r
}

} // verus!
