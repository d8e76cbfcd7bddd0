//! Cutting a run of items into buckets of bounded size.

use vstd::prelude::*;

verus! {

/// `items` cut into consecutive buckets of `size` items each, but for the
/// last, which holds what is left. No items give no bucket.
pub open spec fn chunks<T>(items: Seq<T>, size: nat) -> Seq<Seq<T>>
    decreases items.len(),
{
    if items.len() == 0 {
        Seq::empty()
    } else if size == 0 || items.len() <= size {
        seq![items]
    } else {
        seq![items.take(size as int)] + chunks(items.skip(size as int), size)
    }
}

/// Cutting loses nothing and repeats nothing: the buckets, one after the
/// other, hold the items in their order.
pub proof fn lemma_chunks_flatten<T>(items: Seq<T>, size: nat)
    ensures
        chunks(items, size).flatten() == items,
    decreases items.len(),
{
    if items.len() == 0 {
        // no bucket, and nothing to hold
    } else if size == 0 || items.len() <= size {
        seq![items].lemma_flatten_one_element();
    } else {
        let head = items.take(size as int);
        let tail = items.skip(size as int);
        lemma_chunks_flatten(tail, size);
        lemma_flatten_prepend(head, chunks(tail, size));
    }
}

/// Flattening a bucket followed by more buckets gives the bucket followed
/// by the flattened rest.
proof fn lemma_flatten_prepend<T>(head: Seq<T>, rest: Seq<Seq<T>>)
    ensures
        (seq![head] + rest).flatten() == head + rest.flatten(),
{
    let whole = seq![head] + rest;
    assert(whole.drop_first() == rest);
}

/// Under a positive size every bucket holds at least one item and at most
/// `size`, and every bucket but the last holds exactly `size`.
pub proof fn lemma_chunks_sizes<T>(items: Seq<T>, size: nat)
    requires
        size > 0,
    ensures
        forall|i: int|
            0 <= i < chunks(items, size).len() ==> 0 < (#[trigger] chunks(items, size)[i]).len()
                <= size,
        forall|i: int|
            0 <= i < chunks(items, size).len() - 1 ==> (#[trigger] chunks(items, size)[i]).len()
                == size,
    decreases items.len(),
{
    if items.len() > size {
        let tail = items.skip(size as int);
        lemma_chunks_sizes(tail, size);
        assert forall|i: int| 0 <= i < chunks(items, size).len() implies 0 < (#[trigger] chunks(
            items,
            size,
        )[i]).len() <= size && (i < chunks(items, size).len() - 1 ==> chunks(items, size)[i].len()
            == size) by {
            if i > 0 {
                assert(chunks(items, size)[i] == chunks(tail, size)[i - 1]);
            }
        }
    }
}

/// Under a positive size there are as many buckets as the items need and no
/// more: all of them together have room for the items, and without the last
/// they have not.
pub proof fn lemma_chunks_count<T>(items: Seq<T>, size: nat)
    requires
        size > 0,
    ensures
        items.len() <= chunks(items, size).len() * size,
        items.len() > 0 ==> (chunks(items, size).len() - 1) * size < items.len(),
        items.len() == 0 ==> chunks(items, size).len() == 0,
    decreases items.len(),
{
    if items.len() > size {
        let tail = items.skip(size as int);
        lemma_chunks_count(tail, size);
        let n = chunks(tail, size).len();
        assert(chunks(items, size).len() == n + 1);
        assert((n + 1) * size == n * size + size) by (nonlinear_arith);
        assert((n - 1) * size + size == n * size) by (nonlinear_arith);
    } else if items.len() > 0 {
        assert(chunks(items, size).len() == 1);
    }
}

/// The views of the buckets of `buckets`, in order.
pub open spec fn bucket_views<T>(buckets: Seq<Vec<T>>) -> Seq<Seq<T>> {
    Seq::new(buckets.len(), |i: int| buckets[i]@)
}

/// Cuts `items` into buckets of at most `size` items, keeping their order.
pub fn split_into_buckets<T>(items: Vec<T>, size: usize) -> (buckets: Vec<Vec<T>>)
    requires
        size > 0,
    ensures
        bucket_views(buckets@) == chunks(items@, size as nat),
{
    let mut buckets: Vec<Vec<T>> = Vec::new();
    let mut rest = items;
    while rest.len() > size
        invariant
            size > 0,
            bucket_views(buckets@) + chunks(rest@, size as nat) == chunks(items@, size as nat),
        decreases rest.len(),
    {
        let tail = rest.split_off(size);
        buckets.push(rest);
        rest = tail;
    }
    if rest.len() > 0 {
        buckets.push(rest);
    }
    buckets
}

} // verus!
