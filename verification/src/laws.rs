//! What holds of every traversal, proved of the state machine that the
//! iterators implement.

use crate::model::{batch_count, batches, Call, Cursor, Flat, Read, Reply};
use vstd::arithmetic::div_mod::{lemma_fundamental_div_mod, lemma_fundamental_div_mod_converse};
use vstd::arithmetic::mul::{
    lemma_mul_inequality, lemma_mul_inequality_converse, lemma_mul_is_commutative,
};
use vstd::prelude::*;
use vstd::seq_lib::lemma_flatten_concat;

verus! {

/// The batch count `q` is the one number with `(q - 1) * size < total <= q * size`.
pub proof fn lemma_batch_count_bounds(total: nat, size: nat)
    requires
        size > 0,
    ensures
        (batch_count(total, size) - 1) * size < total <= batch_count(total, size) * size,
{
    let x: int = total + size - 1;
    let q: int = x / (size as int);
    lemma_fundamental_div_mod(x, size as int);
    lemma_mul_is_commutative(size as int, q);
    assert((q - 1) * size == q * size - size) by (nonlinear_arith);
}

/// The batch at index `k` exists exactly when some file lies at or after
/// `k * size`.
pub proof fn lemma_batch_index(total: nat, size: nat, k: nat)
    requires
        size > 0,
    ensures
        k < batch_count(total, size) <==> k * size < total,
{
    let q: nat = batch_count(total, size);
    lemma_batch_count_bounds(total, size);
    if k < q {
        lemma_mul_inequality(k as int, q - 1, size as int);
    } else {
        lemma_mul_inequality(q as int, k as int, size as int);
    }
}

/// The position stays within the listing and never recedes: each delivery
/// moves it forward by one file or leaves it, and keeps the cursor well formed.
pub proof fn law_position_only_advances<V>(c: Cursor<V>, reads: Seq<Read<V>>)
    requires
        c.wf(),
    ensures
        c.after_all(reads).wf(),
        c.position <= c.after_all(reads).position <= c.position + reads.len(),
        c.after_all(reads).position <= c.paths.len(),
    decreases reads.len(),
{
    if reads.len() > 0 {
        law_position_only_advances(c, reads.drop_last());
        law_length_is_fixed(c, reads.drop_last());
    }
}

/// The listing is fixed: however many reads are delivered, the paths, their
/// number and the batch size stay what they were.
pub proof fn law_length_is_fixed<V>(c: Cursor<V>, reads: Seq<Read<V>>)
    ensures
        c.after_all(reads).paths == c.paths,
        c.after_all(reads).paths.len() == c.paths.len(),
        c.after_all(reads).batch_size == c.batch_size,
    decreases reads.len(),
{
    if reads.len() > 0 {
        law_length_is_fixed(c, reads.drop_last());
    }
}

/// The same of a flattened traversal, whatever is delivered to it or taken
/// from it.
pub proof fn law_flattened_length_is_fixed<V>(f: Flat<V>, calls: Seq<Call<V>>)
    ensures
        f.after_calls(calls).cursor.paths == f.cursor.paths,
        f.after_calls(calls).cursor.paths.len() == f.cursor.paths.len(),
        f.after_calls(calls).cursor.batch_size == f.cursor.batch_size,
    decreases calls.len(),
{
    if calls.len() > 0 {
        law_flattened_length_is_fixed(f, calls.drop_last());
    }
}

/// Exhaustion is final: a traversal that is over asks for no read, answers
/// "done" to whatever is delivered, and is not changed by any number of
/// deliveries.
pub proof fn law_exhaustion_is_final<V>(c: Cursor<V>, reads: Seq<Read<V>>, read: Read<V>)
    requires
        c.exhausted(),
    ensures
        c.after_all(reads) == c,
        c.after_all(reads).exhausted(),
        !c.after_all(reads).wants_read(),
        c.after_all(reads).reply(read) == Reply::<V>::Done,
    decreases reads.len(),
{
    if reads.len() > 0 {
        law_exhaustion_is_final(c, reads.drop_last(), read);
    }
}

/// The same of a flattened traversal: once it is over it hands out nothing,
/// asks for no read, and is not changed by any number of calls.
pub proof fn law_flattened_exhaustion_is_final<V>(f: Flat<V>, calls: Seq<Call<V>>, read: Read<V>)
    requires
        f.exhausted(),
    ensures
        f.after_calls(calls) == f,
        f.after_calls(calls).exhausted(),
        !f.after_calls(calls).wants_read(),
        f.after_calls(calls).front() == None::<V>,
        f.after_calls(calls).reply(read) == Reply::<V>::Done,
    decreases calls.len(),
{
    if calls.len() > 0 {
        law_flattened_exhaustion_is_final(f, calls.drop_last(), read);
    }
}

/// Nothing is handed out for an empty listing: both traversals are over from
/// the start, whatever the batch size, and their length is zero.
pub proof fn law_empty_listing_is_exhausted<V>(batch_size: nat)
    ensures
        Cursor::<V>::start(Seq::empty(), batch_size).exhausted(),
        Cursor::<V>::start(Seq::empty(), batch_size).paths.len() == 0,
        Flat::<V>::start(Seq::empty(), batch_size).exhausted(),
        Flat::<V>::start(Seq::empty(), batch_size).front() == None::<V>,
        Flat::<V>::start(Seq::empty(), batch_size).cursor.paths.len() == 0,
{
}

/// Whether the batch under construction holds the items of the files read for
/// it.
spec fn in_step<V>(c: Cursor<V>, items: Seq<V>) -> bool {
    &&& c.wf()
    &&& items.len() == c.paths.len()
    &&& c.pending == items.subrange(c.batch_start(), c.position as int)
}

proof fn lemma_yields_from<V>(c: Cursor<V>, items: Seq<V>, k: nat)
    requires
        in_step(c, items),
        c.batch_size > 0,
        c.batch_start() == k * c.batch_size,
    ensures
        c.yields(items) == batches(items, c.batch_size).skip(k as int),
    decreases c.paths.len() - c.position,
{
    let size: nat = c.batch_size;
    let total: nat = items.len();
    let all = batches(items, size);
    lemma_batch_index(total, size, k);
    lemma_batch_count_bounds(total, size);
    if c.wants_read() {
        let read = Ok(items[c.position as int]);
        let next = c.after(read);
        let grown = c.pending.push(items[c.position as int]);
        assert(grown =~= items.subrange(c.batch_start(), c.position as int + 1));
        assert(k * size < total);
        if c.completes() {
            assert(all[k as int] =~= grown);
            assert(next.pending =~= items.subrange(next.batch_start(), next.position as int));
            if next.position < total {
                assert((k + 1) * size == k * size + size) by (nonlinear_arith);
                lemma_yields_from(next, items, (k + 1) as nat);
            } else {
                assert(next.yields(items) =~= Seq::<Seq<V>>::empty());
                lemma_batch_index(total, size, (k + 1) as nat);
                assert((k + 1) * size == k * size + size) by (nonlinear_arith);
                assert(all.len() == k + 1);
            }
            assert(next.yields(items) == all.skip(k as int + 1));
            assert(seq![grown] + all.skip(k as int + 1) =~= all.skip(k as int));
        } else {
            assert(next.pending =~= items.subrange(next.batch_start(), next.position as int));
            lemma_yields_from(next, items, k);
        }
    } else {
        assert(c.pending.len() == 0);
        lemma_mul_inequality_converse(k as int, batch_count(total, size) as int, size as int);
        assert(k == all.len());
        assert(c.yields(items) =~= all.skip(k as int));
    }
}

proof fn lemma_batches_flatten_from<V>(items: Seq<V>, size: nat, k: nat)
    requires
        size > 0,
        k <= batch_count(items.len(), size),
    ensures
        batches(items, size).skip(k as int).flatten() == items.skip(
            if k * size <= items.len() {
                (k * size) as int
            } else {
                items.len() as int
            },
        ),
    decreases batch_count(items.len(), size) - k,
{
    let all = batches(items, size);
    let rest = all.skip(k as int);
    lemma_batch_index(items.len(), size, k);
    lemma_batch_count_bounds(items.len(), size);
    if k < all.len() {
        lemma_batches_flatten_from(items, size, (k + 1) as nat);
        assert((k + 1) * size == k * size + size) by (nonlinear_arith);
        assert(rest.drop_first() =~= all.skip(k as int + 1));
        assert(rest.first() == all[k as int]);
        assert(rest.flatten() == rest.first() + rest.drop_first().flatten());
        assert(rest.flatten() =~= items.skip((k * size) as int));
    } else {
        assert(rest.flatten() =~= Seq::<V>::empty());
        if k * size <= items.len() {
            assert(k * size == items.len());
        }
    }
}

/// A batched traversal of `N` files hands out `N / B` batches, rounded up: the
/// `k`-th holds the items of the files from `k * B` up to `k * B + B`, the
/// last one those that are left.
pub proof fn law_batches_cut_the_listing<V>(paths: Seq<Seq<char>>, batch_size: nat, items: Seq<V>)
    requires
        batch_size > 0,
        items.len() == paths.len(),
    ensures
        Cursor::<V>::start(paths, batch_size).yields(items) == batches(items, batch_size),
{
    let c = Cursor::<V>::start(paths, batch_size);
    assert(c.pending =~= items.subrange(c.batch_start(), c.position as int));
    assert(0 * batch_size == 0) by (nonlinear_arith);
    lemma_yields_from(c, items, 0);
    assert(batches(items, batch_size).skip(0) =~= batches(items, batch_size));
}

/// The sizes of the batches of `N` items are `B, B, ..`, then `N mod B`, or `B`
/// where `B` divides `N`; there are `N / B` of them, rounded up, and together
/// they hold the `N` items in their order.
pub proof fn law_batch_sizes<V>(items: Seq<V>, batch_size: nat)
    requires
        batch_size > 0,
    ensures
        batches(items, batch_size).len() == batch_count(items.len(), batch_size),
        batch_count(items.len(), batch_size) == (items.len() + batch_size - 1) / (
        batch_size as int),
        forall|k: int|
            0 <= k < batches(items, batch_size).len() - 1 ==> (#[trigger] batches(
                items,
                batch_size,
            )[k]).len() == batch_size,
        items.len() > 0 ==> batches(items, batch_size).len() > 0 && batches(
            items,
            batch_size,
        ).last().len() == (if items.len() % batch_size == 0 {
            batch_size
        } else {
            items.len() % batch_size
        }),
        items.len() == 0 ==> batches(items, batch_size).len() == 0,
        batches(items, batch_size).flatten() == items,
        batches(items, batch_size).flatten().len() == items.len(),
{
    let all = batches(items, batch_size);
    let total: nat = items.len();
    let q: nat = batch_count(total, batch_size);
    lemma_batch_count_bounds(total, batch_size);
    assert forall|k: int| 0 <= k < all.len() - 1 implies (#[trigger] all[k]).len()
        == batch_size by {
        lemma_mul_inequality(k + 1, q - 1, batch_size as int);
        assert((k + 1) * batch_size == k * batch_size + batch_size) by (nonlinear_arith);
    }
    if total > 0 {
        lemma_batch_index(total, batch_size, 0);
        assert(0 * batch_size == 0) by (nonlinear_arith);
        assert(q > 0);
        let left: int = total - (q - 1) * batch_size;
        assert((q - 1) * batch_size + batch_size == q * batch_size) by (nonlinear_arith);
        assert(all.last().len() == left);
        if left == batch_size {
            lemma_fundamental_div_mod_converse(total as int, batch_size as int, q as int, 0);
        } else {
            lemma_fundamental_div_mod_converse(total as int, batch_size as int, q - 1, left);
        }
    } else {
        lemma_batch_index(total, batch_size, 0);
    }
    assert(0 * batch_size == 0) by (nonlinear_arith);
    lemma_batches_flatten_from(items, batch_size, 0);
    assert(all.skip(0) =~= all);
    assert(items.skip(0) =~= items);
}

/// Flattening keeps the order: the items that a flattened traversal hands out
/// one by one are what is buffered, then the batches of the traversal
/// underneath laid end to end.
pub proof fn law_flatten_keeps_order<V>(f: Flat<V>, items: Seq<V>)
    ensures
        f.drained(items) == f.buffer + f.cursor.yields(items).flatten(),
    decreases f.cursor.paths.len() - f.cursor.position, f.buffer.len(),
{
    let batched = f.cursor.yields(items);
    if f.buffer.len() > 0 {
        law_flatten_keeps_order(f.after_take(), items);
        assert(seq![f.buffer[0]] + (f.buffer.drop_first() + batched.flatten()) =~= f.buffer
            + batched.flatten());
    } else if f.cursor.wants_read() {
        let read = Ok(items[f.cursor.position as int]);
        let next = f.after_read(read);
        law_flatten_keeps_order(next, items);
        match f.cursor.reply(read) {
            Reply::Batch(batch) => {
                lemma_flatten_concat(seq![batch], next.cursor.yields(items));
                seq![batch].lemma_flatten_one_element();
            },
            _ => {},
        }
        assert(f.drained(items) =~= f.buffer + batched.flatten());
    } else {
        assert(batched.flatten() =~= Seq::<V>::empty());
        assert(f.drained(items) =~= f.buffer + batched.flatten());
    }
}

/// A flattened traversal of `N` files hands out exactly the `N` items, one for
/// each file, in listing order, whatever the batch size underneath; these are
/// the items of the batched traversal, batch after batch.
pub proof fn law_flatten_yields_every_item<V>(
    paths: Seq<Seq<char>>,
    batch_size: nat,
    items: Seq<V>,
)
    requires
        batch_size > 0,
        items.len() == paths.len(),
    ensures
        Flat::<V>::start(paths, batch_size).drained(items) == items,
        Flat::<V>::start(paths, batch_size).drained(items).len() == paths.len(),
        Flat::<V>::start(paths, batch_size).drained(items) == Cursor::<V>::start(
            paths,
            batch_size,
        ).yields(items).flatten(),
{
    let f = Flat::<V>::start(paths, batch_size);
    law_flatten_keeps_order(f, items);
    law_batches_cut_the_listing(paths, batch_size, items);
    law_batch_sizes(items, batch_size);
    assert(f.buffer + items =~= items);
}

} // verus!
