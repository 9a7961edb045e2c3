//! The cursors of a circular buffer with one writer and any number of
//! readers. Offsets, capacity and space are counted in items, not bytes.
//!
//! The buffer's memory is mapped twice in a row, so a span that starts
//! below the capacity and is at most one capacity long never wraps. The
//! types here do the accounting and say where the spans lie; the memory
//! itself belongs to whoever maps it.

use crate::accounting::lemma_can_produce_up_to_space;
use crate::error::BufferError;
use crate::registry::{
    arena_entries, arena_get, arena_insert, arena_len, arena_new, arena_remove, arena_set,
    arena_slots, lists_slots, no_slots,
};
use crate::sizing::{buffer_size, fits, is_buffer_size};
use vec_arena::Arena;
use vstd::prelude::*;

verus! {

/// How many items a writer at `writer` may add before it would reach a
/// reader at `reader`. One slot always stays free, so that a full buffer
/// and an empty one differ.
pub open spec fn write_gap(reader: int, writer: int, capacity: int) -> int {
    if reader <= writer {
        reader + capacity - 1 - writer
    } else {
        reader - 1 - writer
    }
}

/// How many items lie between a reader at `reader` and the writer at
/// `writer`: what is written and not yet read.
pub open spec fn read_gap(reader: int, writer: int, capacity: int) -> int {
    if reader > writer {
        writer + capacity - reader
    } else {
        writer - reader
    }
}

/// A cursor moved on by `amount` items, around the end of the buffer.
pub open spec fn advance(offset: int, amount: int, capacity: int) -> int {
    (offset + amount) % capacity
}

/// What a writer is: its cursor, its geometry, and the cursor of each
/// registered reader under the reader's identifier.
pub struct WriterView {
    pub offset: int,
    pub capacity: int,
    pub item_size: int,
    pub readers: Map<usize, usize>,
}

impl WriterView {
    /// The invariant of a writer: a buffer of at least one item whose double
    /// mapping is addressable, and every cursor below the capacity.
    pub open spec fn wf(self) -> bool {
        &&& self.item_size > 0
        &&& self.capacity > 0
        &&& 2 * (self.capacity * self.item_size) <= usize::MAX
        &&& 0 <= self.offset < self.capacity
        &&& self.readers.dom().finite()
        &&& forall|id: usize| #[trigger]
            self.readers.contains_key(id) ==> self.readers[id] < self.capacity
    }

    /// The items the writer may add before it would reach reader `id`.
    pub open spec fn gap(self, id: usize) -> int {
        write_gap(self.readers[id] as int, self.offset, self.capacity)
    }

    /// The items reader `id` has not consumed yet.
    pub open spec fn unread(self, id: usize) -> int {
        read_gap(self.readers[id] as int, self.offset, self.capacity)
    }

    /// Whether the writer may add `amount` items without reaching any reader.
    pub open spec fn can_produce(self, amount: int) -> bool {
        &&& amount <= self.capacity
        &&& forall|id: usize| #[trigger]
            self.readers.contains_key(id) ==> amount <= self.gap(id)
    }

    /// Whether `space` is the smallest gap to a reader, or the whole
    /// capacity where there is no reader.
    pub open spec fn is_space(self, space: int) -> bool {
        &&& self.can_produce(space)
        &&& (space == self.capacity || exists|id: usize| #[trigger]
            self.readers.contains_key(id) && space == self.gap(id))
    }

    /// The space available to the writer.
    pub open spec fn space(self) -> int {
        choose|space: int| self.is_space(space)
    }

    /// The writer after it has added `amount` items.
    pub open spec fn produced(self, amount: int) -> WriterView {
        WriterView { offset: advance(self.offset, amount, self.capacity), ..self }
    }

    /// The writer after reader `id` has consumed `amount` items.
    pub open spec fn consumed(self, id: usize, amount: int) -> WriterView {
        WriterView {
            readers: self.readers.insert(
                id,
                advance(self.readers[id] as int, amount, self.capacity) as usize,
            ),
            ..self
        }
    }

    /// The writer after reader `id` has left.
    pub open spec fn without_reader(self, id: usize) -> WriterView {
        WriterView { readers: self.readers.remove(id), ..self }
    }

    /// The writer after a reader has been registered under `id`.
    pub open spec fn with_reader(self, id: usize) -> WriterView {
        WriterView { readers: self.readers.insert(id, self.offset as usize), ..self }
    }
}

/// The writing side of the buffer, with the registry of its readers.
#[derive(Debug)]
pub struct Writer {
    offset: usize,
    readers: Arena<usize>,
    capacity: usize,
    item_size: usize,
}

impl View for Writer {
    type V = WriterView;

    closed spec fn view(&self) -> WriterView {
        WriterView {
            offset: self.offset as int,
            capacity: self.capacity as int,
            item_size: self.item_size as int,
            readers: arena_slots(self.readers),
        }
    }
}

/// A reader's own copy of the two cursors, by which it tells how much it
/// can read without asking the writer. Whoever connects the two sides
/// repeats each `produce` and `consume` on both.
#[derive(Debug)]
pub struct Reader {
    pub write_offset: usize,
    pub read_offset: usize,
    pub capacity: usize,
    pub item_size: usize,
    pub id: usize,
}

/// There is at most one space available.
pub proof fn lemma_space_unique(w: WriterView, a: int, b: int)
    requires
        w.is_space(a),
        w.is_space(b),
    ensures
        a == b,
{
}

/// Wherever some number is the space available, `space` is that number.
pub proof fn lemma_space_is(w: WriterView, s: int)
    requires
        w.is_space(s),
    ensures
        w.space() == s,
{
    lemma_space_unique(w, s, w.space());
}

impl Writer {
    /// A writer for items of `item_size` bytes over the smallest buffer of
    /// whole pages and whole items that holds at least `min_bytes` bytes,
    /// with its cursor at 0 and no reader.
    pub fn new(item_size: usize, min_bytes: usize, page_size: usize) -> (r: Result<
        Writer,
        BufferError,
    >)
        requires
            item_size > 0,
            page_size > 0,
        ensures
            match r {
                Ok(w) => {
                    &&& w@.wf()
                    &&& w@.offset == 0
                    &&& w@.item_size == item_size
                    &&& w@.readers == no_slots()
                    &&& is_buffer_size(
                        w@.capacity * w@.item_size,
                        item_size as int,
                        min_bytes as int,
                        page_size as int,
                    )
                },
                Err(e) => {
                    &&& e == BufferError::Configuration
                    &&& forall|s: int| #[trigger]
                        fits(s, item_size as int, min_bytes as int, page_size as int) ==> 2 * s
                            > usize::MAX
                },
            },
    {
        match buffer_size(item_size, min_bytes, page_size) {
            None => Err(BufferError::Configuration),
            Some(size) => {
                let capacity: usize = size / item_size;
                proof {
                    vstd::arithmetic::div_mod::lemma_fundamental_div_mod(
                        size as int,
                        item_size as int,
                    );
                    assert(capacity * item_size == size && capacity > 0) by (nonlinear_arith)
                        requires
                            size == item_size * capacity + 0,
                            size > 0,
                            item_size > 0,
                    ;
                }
                let w = Writer { offset: 0, readers: arena_new(), capacity, item_size };
                Ok(w)
            },
        }
    }

    /// The number of items the writer may add now without reaching any
    /// reader: the smallest gap, or the capacity where there is no reader.
    pub fn space_available(&self) -> (space: usize)
        requires
            self@.wf(),
        ensures
            self@.is_space(space as int),
            space == self@.space(),
            self@.readers == no_slots() ==> space == self@.capacity,
            forall|id: usize| #[trigger]
                self@.readers.contains_key(id) ==> space <= self@.capacity - 1,
    {
        let entries = arena_entries(&self.readers);
        let mut space: usize = self.capacity;
        let mut i: usize = 0;
        while i < entries.len()
            invariant
                0 <= i <= entries.len(),
                self@.wf(),
                lists_slots(entries@, self@.readers),
                space <= self.capacity,
                forall|j: int| 0 <= j < i ==> space <= self@.gap((#[trigger] entries[j]).0),
                space == self.capacity || exists|j: int|
                    0 <= j < i && space == self@.gap((#[trigger] entries[j]).0),
            decreases entries.len() - i,
        {
            let cursor: usize = entries[i].1;
            assert(self@.readers.contains_pair(entries[i as int].0, cursor));
            proof {
                lemma_double_fits(self@.capacity, self@.item_size);
            }
            let gap: usize = if cursor <= self.offset {
                cursor + self.capacity - 1 - self.offset
            } else {
                cursor - 1 - self.offset
            };
            assert(gap == self@.gap(entries[i as int].0));
            if gap < space {
                space = gap;
            }
            i += 1;
        }
        proof {
            assert forall|id: usize| #[trigger] self@.readers.contains_key(id) implies space
                <= self@.gap(id) by {
                let j = choose|j: int| 0 <= j < entries.len() && (#[trigger] entries[j]).0 == id;
                assert(space <= self@.gap(entries[j].0));
            }
            if space != self.capacity {
                let j = choose|j: int| 0 <= j < i && space == self@.gap((#[trigger] entries[j]).0);
                assert(self@.readers.contains_key(entries[j].0));
            }
            lemma_space_is(self@, space as int);
        }
        space
    }

    /// Moves the writer's cursor on by `amount` items, which may be no more
    /// than the space available.
    pub fn produce(&mut self, amount: usize)
        requires
            old(self)@.wf(),
            amount <= old(self)@.space(),
        ensures
            final(self)@ == old(self)@.produced(amount as int),
            final(self)@.wf(),
    {
        proof {
            lemma_double_fits(self@.capacity, self@.item_size);
            lemma_can_produce_up_to_space(self@, amount as int);
        }
        self.offset = (self.offset + amount) % self.capacity;
    }

    /// Moves the cursor of reader `reader_id` on by `amount` items, which
    /// the reader has consumed and which may be no more than it has left
    /// unread. An identifier that is not registered is
    /// refused and changes nothing.
    pub fn consume(&mut self, reader_id: usize, amount: usize) -> (r: Result<(), BufferError>)
        requires
            old(self)@.wf(),
            old(self)@.readers.contains_key(reader_id) ==> amount <= old(self)@.unread(reader_id),
        ensures
            match r {
                Ok(_) => {
                    &&& old(self)@.readers.contains_key(reader_id)
                    &&& final(self)@ == old(self)@.consumed(reader_id, amount as int)
                },
                Err(e) => {
                    &&& e == BufferError::UnknownReader
                    &&& !old(self)@.readers.contains_key(reader_id)
                    &&& final(self)@ == old(self)@
                },
            },
            final(self)@.wf(),
    {
        match arena_get(&self.readers, reader_id) {
            None => Err(BufferError::UnknownReader),
            Some(cursor) => {
                proof {
                    lemma_double_fits(self@.capacity, self@.item_size);
                }
                let moved: usize = (cursor + amount) % self.capacity;
                arena_set(&mut self.readers, reader_id, moved);
                Ok(())
            },
        }
    }

    /// The number of items that reader `reader_id` has not consumed yet, as
    /// the writer knows it; `None` for an identifier that is not registered.
    pub fn unread(&self, reader_id: usize) -> (r: Option<usize>)
        requires
            self@.wf(),
        ensures
            r == (if self@.readers.contains_key(reader_id) {
                Some(self@.unread(reader_id) as usize)
            } else {
                None
            }),
            r is Some ==> r.unwrap() == self@.unread(reader_id),
    {
        match arena_get(&self.readers, reader_id) {
            None => None,
            Some(cursor) => {
                proof {
                    lemma_double_fits(self@.capacity, self@.item_size);
                }
                if cursor > self.offset {
                    Some(self.offset + self.capacity - cursor)
                } else {
                    Some(self.offset - cursor)
                }
            },
        }
    }

    /// Where the writer may write: the byte offset of its cursor in the
    /// mapping and the length in bytes of the space available. The span
    /// ends inside the double mapping.
    pub fn buffer_bytes(&self) -> (span: (usize, usize))
        requires
            self@.wf(),
        ensures
            span.0 == self@.offset * self@.item_size,
            span.1 == self@.space() * self@.item_size,
            span.0 + span.1 <= 2 * (self@.capacity * self@.item_size),
    {
        let space = self.space_available();
        proof {
            lemma_span_fits(
                self@.offset,
                space as int,
                self@.capacity,
                self@.item_size,
            );
        }
        (self.offset * self.item_size, space * self.item_size)
    }

    /// Registers a reader at the writer's cursor, under an identifier that
    /// no registered reader has, and returns the reader's handle.
    pub fn add_reader(&mut self) -> (reader: Reader)
        requires
            old(self)@.wf(),
        ensures
            !old(self)@.readers.contains_key(reader.id),
            final(self)@ == old(self)@.with_reader(reader.id),
            final(self)@.wf(),
            reader.wf(),
            reader.unread() == 0,
            reader.read_offset == old(self)@.offset,
            reader.write_offset == old(self)@.offset,
            reader.capacity == old(self)@.capacity,
            reader.item_size == old(self)@.item_size,
    {
        let id = arena_insert(&mut self.readers, self.offset);
        Reader {
            write_offset: self.offset,
            read_offset: self.offset,
            capacity: self.capacity,
            item_size: self.item_size,
            id,
        }
    }

    /// Takes reader `reader_id` out of the registry, so that it no longer
    /// holds the writer back. An identifier that is not registered is
    /// refused and changes nothing.
    pub fn remove_reader(&mut self, reader_id: usize) -> (r: Result<(), BufferError>)
        requires
            old(self)@.wf(),
        ensures
            match r {
                Ok(_) => old(self)@.readers.contains_key(reader_id),
                Err(e) => e == BufferError::UnknownReader && !old(self)@.readers.contains_key(
                    reader_id,
                ),
            },
            final(self)@ == old(self)@.without_reader(reader_id),
            final(self)@.wf(),
    {
        match arena_remove(&mut self.readers, reader_id) {
            None => {
                assert(self@.readers =~= old(self)@.readers);
                Err(BufferError::UnknownReader)
            },
            Some(_) => Ok(()),
        }
    }

    /// The size of an item in bytes.
    pub fn item_size(&self) -> (n: usize)
        ensures
            n == self@.item_size,
    {
        self.item_size
    }

    /// The number of items the buffer has room for.
    pub fn capacity(&self) -> (n: usize)
        ensures
            n == self@.capacity,
    {
        self.capacity
    }

    /// The number of registered readers.
    pub fn n_reader(&self) -> (n: usize)
        ensures
            n == self@.readers.dom().len(),
    {
        arena_len(&self.readers)
    }
}

impl Reader {
    /// The invariant of a handle: the writer's geometry, and both cursors
    /// below the capacity.
    pub open spec fn wf(&self) -> bool {
        &&& self.item_size > 0
        &&& self.capacity > 0
        &&& 2 * (self.capacity * self.item_size) <= usize::MAX
        &&& self.read_offset < self.capacity
        &&& self.write_offset < self.capacity
    }

    /// The items this reader has not consumed yet.
    pub open spec fn unread(&self) -> int {
        read_gap(self.read_offset as int, self.write_offset as int, self.capacity as int)
    }

    /// The items the writer may add before it would reach this reader.
    pub open spec fn gap(&self) -> int {
        write_gap(self.read_offset as int, self.write_offset as int, self.capacity as int)
    }

    /// The number of items that are written and not yet read.
    pub fn space_available(&self) -> (space: usize)
        requires
            self.wf(),
        ensures
            space == self.unread(),
            space <= self.capacity - 1,
    {
        proof {
            lemma_double_fits(self.capacity as int, self.item_size as int);
        }
        if self.read_offset > self.write_offset {
            self.write_offset + self.capacity - self.read_offset
        } else {
            self.write_offset - self.read_offset
        }
    }

    /// Where the reader may read: the byte offset of its cursor in the
    /// mapping and the length in bytes of what is unread. The span ends
    /// inside the double mapping.
    pub fn buffer_bytes(&self) -> (span: (usize, usize))
        requires
            self.wf(),
        ensures
            span.0 == self.read_offset * self.item_size,
            span.1 == self.unread() * self.item_size,
            span.0 + span.1 <= 2 * (self.capacity * self.item_size),
    {
        let space = self.space_available();
        proof {
            lemma_span_fits(
                self.read_offset as int,
                space as int,
                self.capacity as int,
                self.item_size as int,
            );
        }
        (self.read_offset * self.item_size, space * self.item_size)
    }

    /// Moves the copy of the writer's cursor on by `amount` items, which
    /// the writer has added.
    pub fn produce(&mut self, amount: usize)
        requires
            old(self).wf(),
            amount <= old(self).gap(),
        ensures
            final(self).write_offset == advance(
                old(self).write_offset as int,
                amount as int,
                old(self).capacity as int,
            ),
            final(self).read_offset == old(self).read_offset,
            final(self).capacity == old(self).capacity,
            final(self).item_size == old(self).item_size,
            final(self).id == old(self).id,
            final(self).wf(),
    {
        proof {
            lemma_double_fits(self.capacity as int, self.item_size as int);
        }
        self.write_offset = (self.write_offset + amount) % self.capacity;
    }

    /// Moves the read cursor on by `amount` items, which the reader has
    /// consumed.
    pub fn consume(&mut self, amount: usize)
        requires
            old(self).wf(),
            amount <= old(self).unread(),
        ensures
            final(self).read_offset == advance(
                old(self).read_offset as int,
                amount as int,
                old(self).capacity as int,
            ),
            final(self).write_offset == old(self).write_offset,
            final(self).capacity == old(self).capacity,
            final(self).item_size == old(self).item_size,
            final(self).id == old(self).id,
            final(self).wf(),
    {
        proof {
            lemma_double_fits(self.capacity as int, self.item_size as int);
        }
        self.read_offset = (self.read_offset + amount) % self.capacity;
    }

    /// The number of items the buffer has room for.
    pub fn capacity(&self) -> (n: usize)
        ensures
            n == self.capacity,
    {
        self.capacity
    }

    /// The size of an item in bytes.
    pub fn item_size(&self) -> (n: usize)
        ensures
            n == self.item_size,
    {
        self.item_size
    }

    /// The identifier under which the writer keeps this reader's cursor.
    pub fn id(&self) -> (n: usize)
        ensures
            n == self.id,
    {
        self.id
    }
}

/// Twice the capacity is addressable where twice the buffer's bytes are.
pub proof fn lemma_double_fits(capacity: int, item_size: int)
    requires
        item_size > 0,
        capacity > 0,
        2 * (capacity * item_size) <= usize::MAX,
    ensures
        2 * capacity <= usize::MAX,
{
    assert(capacity * item_size >= capacity) by (nonlinear_arith)
        requires
            item_size >= 1,
            capacity > 0,
    ;
}

/// A span that starts at an item below the capacity and is at most one
/// capacity long ends inside the double mapping.
proof fn lemma_span_fits(offset: int, space: int, capacity: int, item_size: int)
    requires
        item_size > 0,
        0 <= offset < capacity,
        0 <= space <= capacity,
    ensures
        0 <= offset * item_size <= capacity * item_size,
        0 <= space * item_size <= capacity * item_size,
        offset * item_size + space * item_size <= 2 * (capacity * item_size),
{
    assert(0 <= offset * item_size <= capacity * item_size) by (nonlinear_arith)
        requires
            item_size > 0,
            0 <= offset < capacity,
    ;
    assert(0 <= space * item_size <= capacity * item_size) by (nonlinear_arith)
        requires
            item_size > 0,
            0 <= space <= capacity,
    ;
}

} // verus!
