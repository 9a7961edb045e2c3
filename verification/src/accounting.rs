//! What holds of the cursor accounting, whatever the writer and its
//! readers have done so far.

use crate::circular_buffer::{
    advance, lemma_double_fits, lemma_space_is, read_gap, write_gap, Reader, WriterView,
};
use vstd::arithmetic::div_mod::lemma_fundamental_div_mod_converse;
use vstd::prelude::*;

verus! {

/// A cursor that moves on by at most one capacity either stays below the
/// end of the buffer or wraps around it once.
pub proof fn lemma_advance(offset: int, amount: int, capacity: int)
    requires
        0 <= offset < capacity,
        0 <= amount <= capacity,
    ensures
        advance(offset, amount, capacity) == (if offset + amount < capacity {
            offset + amount
        } else {
            offset + amount - capacity
        }),
        0 <= advance(offset, amount, capacity) < capacity,
{
    if offset + amount < capacity {
        lemma_fundamental_div_mod_converse(offset + amount, capacity, 0, offset + amount);
    } else {
        lemma_fundamental_div_mod_converse(
            offset + amount,
            capacity,
            1,
            offset + amount - capacity,
        );
    }
}

/// What is unread and what may still be written add up to the capacity
/// less the one slot that stays free.
pub proof fn lemma_gaps_add_up(reader: int, writer: int, capacity: int)
    ensures
        read_gap(reader, writer, capacity) + write_gap(reader, writer, capacity) == capacity - 1,
{
}

/// Writing `amount` items, no more than the gap allows, takes them from
/// the gap and adds them to what is unread.
pub proof fn lemma_produce_moves_gap(reader: int, writer: int, amount: int, capacity: int)
    requires
        0 <= reader < capacity,
        0 <= writer < capacity,
        0 <= amount <= write_gap(reader, writer, capacity),
    ensures
        write_gap(reader, advance(writer, amount, capacity), capacity) == write_gap(
            reader,
            writer,
            capacity,
        ) - amount,
        read_gap(reader, advance(writer, amount, capacity), capacity) == read_gap(
            reader,
            writer,
            capacity,
        ) + amount,
{
    lemma_advance(writer, amount, capacity);
}

/// Reading `amount` items, no more than are unread, takes them from what
/// is unread and adds them to the gap.
pub proof fn lemma_consume_moves_gap(reader: int, writer: int, amount: int, capacity: int)
    requires
        0 <= reader < capacity,
        0 <= writer < capacity,
        0 <= amount <= read_gap(reader, writer, capacity),
    ensures
        read_gap(advance(reader, amount, capacity), writer, capacity) == read_gap(
            reader,
            writer,
            capacity,
        ) - amount,
        write_gap(advance(reader, amount, capacity), writer, capacity) == write_gap(
            reader,
            writer,
            capacity,
        ) + amount,
{
    lemma_advance(reader, amount, capacity);
}

/// What the writer may write and what a reader may read never share an
/// item: the `i`-th free slot behind the writer's cursor is not the
/// `j`-th unread item behind the reader's, so both sides can work on the
/// buffer at once.
pub proof fn lemma_spans_disjoint(reader: int, writer: int, i: int, j: int, capacity: int)
    requires
        0 <= reader < capacity,
        0 <= writer < capacity,
        0 <= i < write_gap(reader, writer, capacity),
        0 <= j < read_gap(reader, writer, capacity),
    ensures
        advance(writer, i, capacity) != advance(reader, j, capacity),
{
    lemma_advance(writer, i, capacity);
    lemma_advance(reader, j, capacity);
}

/// Round trip: after `k` items are written and the same `k` items are
/// read, the distance between the two cursors is what it was, in both
/// directions.
pub proof fn lemma_round_trip(reader: int, writer: int, k: int, capacity: int)
    requires
        0 <= reader < capacity,
        0 <= writer < capacity,
        0 <= k <= write_gap(reader, writer, capacity),
    ensures
        read_gap(advance(reader, k, capacity), advance(writer, k, capacity), capacity) == read_gap(
            reader,
            writer,
            capacity,
        ),
        write_gap(advance(reader, k, capacity), advance(writer, k, capacity), capacity)
            == write_gap(reader, writer, capacity),
{
    lemma_advance(writer, k, capacity);
    lemma_advance(reader, k, capacity);
}

/// A writer always has a space available: the registry is finite, so one
/// of the gaps is the smallest.
pub proof fn lemma_space_exists(w: WriterView)
    requires
        w.readers.dom().finite(),
    ensures
        w.is_space(w.space()),
    decreases w.readers.dom().len(),
{
    if w.readers.dom().len() == 0 {
        w.readers.dom().lemma_len0_is_empty();
        assert(w.is_space(w.capacity));
    } else {
        let id = w.readers.dom().choose();
        assert(w.readers.contains_key(id));
        let rest = WriterView { readers: w.readers.remove(id), ..w };
        lemma_space_exists(rest);
        let below = rest.space();
        let s = if w.gap(id) < below {
            w.gap(id)
        } else {
            below
        };
        assert forall|k: usize| #[trigger] w.readers.contains_key(k) implies s <= w.gap(k) by {
            if k != id {
                assert(rest.readers.contains_key(k));
                assert(rest.gap(k) == w.gap(k));
            }
        }
        if s != w.capacity && s != w.gap(id) {
            let k = choose|k: usize| #[trigger]
                rest.readers.contains_key(k) && below == rest.gap(k);
            assert(w.readers.contains_key(k) && s == w.gap(k));
        }
        assert(w.is_space(s));
    }
}

/// The writer may add `amount` items exactly when `amount` is no more
/// than the space available: anything above it would reach a reader.
pub proof fn lemma_can_produce_up_to_space(w: WriterView, amount: int)
    requires
        w.wf(),
    ensures
        w.can_produce(amount) <==> amount <= w.space(),
{
    lemma_space_exists(w);
}

/// Without a reader the whole capacity is available.
pub proof fn lemma_space_without_readers(w: WriterView)
    requires
        w.readers.dom().finite(),
        w.readers.dom().len() == 0,
    ensures
        w.space() == w.capacity,
{
    lemma_space_exists(w);
    w.readers.dom().lemma_len0_is_empty();
}

/// With a reader registered, one slot stays free: the space available is
/// at most the capacity less one, and never negative.
pub proof fn lemma_space_reserves_slot(w: WriterView, id: usize)
    requires
        w.wf(),
        w.readers.contains_key(id),
    ensures
        0 <= w.space() <= w.capacity - 1,
{
    lemma_space_exists(w);
    assert(w.space() <= w.gap(id));
    if w.space() != w.capacity {
        let k = choose|k: usize| #[trigger] w.readers.contains_key(k) && w.space() == w.gap(k);
        assert(w.readers[k] < w.capacity);
    }
}

/// Every cursor stays below the capacity when the writer adds what it may.
pub proof fn lemma_produced_wf(w: WriterView, amount: int)
    requires
        w.wf(),
        0 <= amount,
        w.can_produce(amount),
    ensures
        w.produced(amount).wf(),
{
    lemma_advance(w.offset, amount, w.capacity);
}

/// Every cursor stays below the capacity when a reader consumes what is
/// unread.
pub proof fn lemma_consumed_wf(w: WriterView, id: usize, amount: int)
    requires
        w.wf(),
        w.readers.contains_key(id),
        0 <= amount <= w.unread(id),
    ensures
        w.consumed(id, amount).wf(),
        w.consumed(id, amount).readers[id] == advance(w.readers[id] as int, amount, w.capacity),
{
    lemma_double_fits(w.capacity, w.item_size);
    lemma_advance(w.readers[id] as int, amount, w.capacity);
    let after = w.consumed(id, amount);
    assert forall|k: usize| #[trigger] after.readers.contains_key(k) implies after.readers[k]
        < after.capacity by {
        if k != id {
            assert(w.readers.contains_key(k));
        }
    }
}

/// Every cursor stays below the capacity when a reader is registered, and
/// the new reader has nothing to read.
pub proof fn lemma_with_reader_wf(w: WriterView, id: usize)
    requires
        w.wf(),
    ensures
        w.with_reader(id).wf(),
        w.with_reader(id).unread(id) == 0,
        w.with_reader(id).gap(id) == w.capacity - 1,
{
    lemma_double_fits(w.capacity, w.item_size);
    let after = w.with_reader(id);
    assert forall|k: usize| #[trigger] after.readers.contains_key(k) implies after.readers[k]
        < after.capacity by {
        if k != id {
            assert(w.readers.contains_key(k));
        }
    }
}

/// A reader that leaves takes no space from the writer: the space
/// available is at least what it was.
pub proof fn lemma_without_reader_frees(w: WriterView, id: usize)
    requires
        w.wf(),
    ensures
        w.without_reader(id).wf(),
        w.without_reader(id).space() >= w.space(),
{
    let after = w.without_reader(id);
    lemma_space_exists(w);
    lemma_space_exists(after);
    if after.space() != after.capacity {
        let k = choose|k: usize| #[trigger]
            after.readers.contains_key(k) && after.space() == after.gap(k);
        assert(w.readers.contains_key(k));
        assert(w.gap(k) == after.gap(k));
    }
}

/// Adding `amount` items takes them from the space available, where a
/// reader is registered.
pub proof fn lemma_produce_takes_space(w: WriterView, id: usize, amount: int)
    requires
        w.wf(),
        w.readers.contains_key(id),
        0 <= amount,
        w.can_produce(amount),
    ensures
        w.produced(amount).space() == w.space() - amount,
{
    lemma_space_exists(w);
    lemma_space_reserves_slot(w, id);
    let after = w.produced(amount);
    assert forall|k: usize| #[trigger] w.readers.contains_key(k) implies after.gap(k) == w.gap(k)
        - amount by {
        lemma_produce_moves_gap(w.readers[k] as int, w.offset, amount, w.capacity);
    }
    let least = choose|k: usize| #[trigger] w.readers.contains_key(k) && w.space() == w.gap(k);
    assert(after.readers.contains_key(least) && w.space() - amount == after.gap(least));
    assert forall|k: usize| #[trigger] after.readers.contains_key(k) implies w.space() - amount
        <= after.gap(k) by {
        assert(w.readers.contains_key(k));
    }
    assert(after.is_space(w.space() - amount));
    lemma_space_is(after, w.space() - amount);
}

/// Boundary: a writer that adds all the space available, with a reader
/// registered, has no space left.
pub proof fn lemma_produce_all(w: WriterView, id: usize)
    requires
        w.wf(),
        w.readers.contains_key(id),
    ensures
        w.can_produce(w.space()),
        w.produced(w.space()).space() == 0,
{
    lemma_space_exists(w);
    lemma_space_reserves_slot(w, id);
    lemma_produce_takes_space(w, id, w.space());
}

/// Round trip on the writer: after `k` items are added and reader `id`
/// has consumed `k` items, that reader's distance to the writer is what
/// it was, in both directions.
pub proof fn lemma_writer_round_trip(w: WriterView, id: usize, k: int)
    requires
        w.wf(),
        w.readers.contains_key(id),
        0 <= k,
        w.can_produce(k),
    ensures
        k <= w.produced(k).unread(id),
        w.produced(k).consumed(id, k).unread(id) == w.unread(id),
        w.produced(k).consumed(id, k).gap(id) == w.gap(id),
{
    let reader = w.readers[id] as int;
    lemma_double_fits(w.capacity, w.item_size);
    assert(k <= w.gap(id));
    lemma_advance(w.offset, k, w.capacity);
    lemma_advance(reader, k, w.capacity);
    lemma_produce_moves_gap(reader, w.offset, k, w.capacity);
    lemma_round_trip(reader, w.offset, k, w.capacity);
}

/// Whether a handle holds the cursors that the writer holds for it.
pub open spec fn mirrors(reader: Reader, w: WriterView) -> bool {
    &&& w.readers.contains_key(reader.id)
    &&& w.readers[reader.id] == reader.read_offset
    &&& w.offset == reader.write_offset
    &&& w.capacity == reader.capacity
    &&& w.item_size == reader.item_size
}

/// A handle that mirrors the writer sees what the writer sees, and still
/// mirrors it after both were told of the same `produce`, or of the same
/// `consume`.
pub proof fn lemma_mirror_kept(reader: Reader, w: WriterView, amount: int)
    requires
        w.wf(),
        mirrors(reader, w),
        0 <= amount,
    ensures
        reader.wf(),
        reader.unread() == w.unread(reader.id),
        reader.gap() == w.gap(reader.id),
        w.can_produce(amount) ==> amount <= reader.gap() && mirrors(
            Reader {
                write_offset: advance(reader.write_offset as int, amount, w.capacity) as usize,
                ..reader
            },
            w.produced(amount),
        ),
        amount <= reader.unread() ==> mirrors(
            Reader {
                read_offset: advance(reader.read_offset as int, amount, w.capacity) as usize,
                ..reader
            },
            w.consumed(reader.id, amount),
        ),
{
    lemma_double_fits(w.capacity, w.item_size);
    if w.can_produce(amount) {
        assert(amount <= w.gap(reader.id));
        lemma_advance(w.offset, amount, w.capacity);
    }
    if amount <= reader.unread() {
        lemma_advance(reader.read_offset as int, amount, w.capacity);
    }
}

} // verus!
