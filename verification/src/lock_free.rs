//! Triple buffer for handing the latest value from a writer to a reader.
//!
//! Three slots rotate between the roles write, read and back. The writer
//! fills its write slot, swaps it with the back slot and marks the back slot
//! fresh; the reader, when the back slot is fresh, swaps its read slot with
//! the back slot, and reads its read slot. Every read thus gives the value
//! of the latest write. The roles are packed into one byte:
//! [unused:2][back:2][read:2][write:2].

use vstd::prelude::*;

verus! {

pub const WRITE_MASK: u8 = 0b00000011;
pub const READ_MASK: u8 = 0b00001100;
pub const BACK_MASK: u8 = 0b00110000;
pub const WRITE_SHIFT: u8 = 0;
pub const READ_SHIFT: u8 = 2;
pub const BACK_SHIFT: u8 = 4;

/// The slot that holds the writer's role in the packed indices.
pub open spec fn write_slot(x: u8) -> u8 {
    x & 0x03
}

/// The slot that holds the reader's role in the packed indices.
pub open spec fn read_slot(x: u8) -> u8 {
    (x >> 2) & 0x03
}

/// The slot that holds the back role in the packed indices.
pub open spec fn back_slot(x: u8) -> u8 {
    (x >> 4) & 0x03
}

/// Whether the packed indices give each of the three slots exactly one role.
pub open spec fn roles_valid(x: u8) -> bool {
    &&& write_slot(x) < 3 && read_slot(x) < 3 && back_slot(x) < 3
    &&& write_slot(x) != read_slot(x) && read_slot(x) != back_slot(x) && write_slot(x) != back_slot(x)
}

/// Triple buffer for real-time parameter updates: the writer publishes values,
/// the reader picks up the most recently published one.
pub struct TripleBuffer<T> {
    buffers: Vec<T>,
    /// Packed indices: bits 0-1 = write, bits 2-3 = read, bits 4-5 = back
    indices: u8,
    /// The back slot holds a value the reader has not taken yet.
    fresh: bool,
}

impl<T: Clone> TripleBuffer<T> {
    /// The three slots.
    pub closed spec fn slots(&self) -> Seq<T> {
        self.buffers@
    }

    /// The packed role indices.
    pub closed spec fn packed(&self) -> u8 {
        self.indices
    }

    /// Well-formedness: three slots, each with one role.
    pub open spec fn wf(&self) -> bool {
        self.slots().len() == 3 && roles_valid(self.packed())
    }

    /// Whether the back slot holds a value the reader has not taken yet.
    pub closed spec fn is_fresh(&self) -> bool {
        self.fresh
    }

    /// The value the reader currently holds.
    pub open spec fn current(&self) -> T {
        self.slots()[read_slot(self.packed()) as int]
    }

    /// The value the next read gives: the latest value written.
    pub open spec fn latest(&self) -> T {
        if self.is_fresh() {
            self.slots()[back_slot(self.packed()) as int]
        } else {
            self.current()
        }
    }

    /// The state after a write of `data` starting from `self`: the latest
    /// value is `data`, and the value the reader holds is untouched.
    pub open spec fn wrote(&self, next: &Self, data: T) -> bool {
        &&& next.wf()
        &&& next.latest() == data
        &&& next.current() == self.current()
    }

    /// The state after a read that returned `value`, starting from `self`:
    /// the read gave the latest value, which stays the latest and is now the
    /// value the reader holds.
    pub open spec fn was_read(&self, next: &Self, value: T) -> bool {
        &&& next.wf()
        &&& value == self.latest()
        &&& next.latest() == self.latest()
        &&& next.current() == value
    }

    /// A buffer whose next read gives `initial_value`; the reader starts out
    /// holding a clone of it.
    pub fn new(initial_value: T) -> (b: Self)
        ensures
            b.wf(),
            b.latest() == initial_value,
            cloned(initial_value, b.current()),
    {
        // Initial state: write=0, read=1, back=2
        let initial_indices: u8 = (1u8 << READ_SHIFT) | (2u8 << BACK_SHIFT);
        assert(initial_indices == 0x24) by (bit_vector)
            requires
                initial_indices == (1u8 << 2u8) | (2u8 << 4u8),
        ;
        assert((0x24u8 & 0x03u8) == 0 && ((0x24u8 >> 2u8) & 0x03u8) == 1 && ((0x24u8 >> 4u8) & 0x03u8) == 2)
            by (bit_vector);
        let first = initial_value.clone();
        let second = initial_value.clone();
        let mut buffers: Vec<T> = Vec::new();
        buffers.push(first);
        buffers.push(second);
        buffers.push(initial_value);
        TripleBuffer { buffers, indices: initial_indices, fresh: true }
    }

    /// Write new data: fill the write slot, swap write and back, mark the back
    /// slot fresh.
    pub fn write(&mut self, data: T)
        requires
            old(self).wf(),
        ensures
            old(self).wrote(&*final(self), data),
    {
        let current = self.indices;
        let write_idx = (current & WRITE_MASK) >> WRITE_SHIFT;
        let back_idx = (current & BACK_MASK) >> BACK_SHIFT;
        proof {
            lemma_fields(current);
        }
        self.buffers.set(write_idx as usize, data);
        // New state: swap write and back
        let new_indices = (current & READ_MASK) // keep read
            | (back_idx << WRITE_SHIFT)  // back becomes write
            | (write_idx << BACK_SHIFT); // write becomes back
        proof {
            lemma_swap_write_back(current, new_indices);
        }
        self.indices = new_indices;
        self.fresh = true;
    }

    /// Read the latest data: when the back slot is fresh, swap read and back
    /// first; then return the read slot.
    pub fn read(&mut self) -> (r: &T)
        requires
            old(self).wf(),
        ensures
            old(self).was_read(&*final(self), *r),
    {
        let current = self.indices;
        let read_idx = (current & READ_MASK) >> READ_SHIFT;
        let back_idx = (current & BACK_MASK) >> BACK_SHIFT;
        proof {
            lemma_fields(current);
        }
        if !self.fresh {
            return &self.buffers[read_idx as usize];
        }
        // New state: swap read and back
        let new_indices = (current & WRITE_MASK) // keep write
            | (back_idx << READ_SHIFT)  // back becomes read
            | (read_idx << BACK_SHIFT); // read becomes back
        proof {
            lemma_swap_read_back(current, new_indices);
        }
        self.indices = new_indices;
        self.fresh = false;
        &self.buffers[back_idx as usize]
    }

    /// Peek at current read buffer without swapping.
    pub fn peek(&self) -> (r: &T)
        requires
            self.wf(),
        ensures
            *r == self.current(),
    {
        let current = self.indices;
        let read_idx = (current & READ_MASK) >> READ_SHIFT;
        proof {
            lemma_fields(current);
        }
        &self.buffers[read_idx as usize]
    }
}

proof fn lemma_fields(x: u8)
    ensures
        (x & WRITE_MASK) >> WRITE_SHIFT == write_slot(x),
        (x & READ_MASK) >> READ_SHIFT == read_slot(x),
        (x & BACK_MASK) >> BACK_SHIFT == back_slot(x),
        write_slot(x) <= 3 && read_slot(x) <= 3 && back_slot(x) <= 3,
{
    assert((x & 0x03) >> 0 == x & 0x03) by (bit_vector);
    assert((x & 0x0C) >> 2 == (x >> 2) & 0x03) by (bit_vector);
    assert((x & 0x30) >> 4 == (x >> 4) & 0x03) by (bit_vector);
    assert(x & 0x03 <= 3 && (x >> 2) & 0x03 <= 3 && (x >> 4) & 0x03 <= 3) by (bit_vector);
}

proof fn lemma_swap_write_back(x: u8, y: u8)
    requires
        y == (x & READ_MASK) | (((x & BACK_MASK) >> BACK_SHIFT) << WRITE_SHIFT) | (((x & WRITE_MASK) >> WRITE_SHIFT) << BACK_SHIFT),
    ensures
        write_slot(y) == back_slot(x),
        read_slot(y) == read_slot(x),
        back_slot(y) == write_slot(x),
{
    assert(y & 0x03 == (x >> 4) & 0x03 && (y >> 2) & 0x03 == (x >> 2) & 0x03 && (y >> 4) & 0x03 == x & 0x03)
        by (bit_vector)
        requires
            y == (x & READ_MASK) | (((x & BACK_MASK) >> BACK_SHIFT) << WRITE_SHIFT) | (((x & WRITE_MASK) >> WRITE_SHIFT) << BACK_SHIFT),
    ;
}

proof fn lemma_swap_read_back(x: u8, y: u8)
    requires
        y == (x & WRITE_MASK) | (((x & BACK_MASK) >> BACK_SHIFT) << READ_SHIFT) | (((x & READ_MASK) >> READ_SHIFT) << BACK_SHIFT),
    ensures
        write_slot(y) == write_slot(x),
        read_slot(y) == back_slot(x),
        back_slot(y) == read_slot(x),
{
    assert(y & 0x03 == x & 0x03 && (y >> 2) & 0x03 == (x >> 4) & 0x03 && (y >> 4) & 0x03 == (x >> 2) & 0x03)
        by (bit_vector)
        requires
            y == (x & WRITE_MASK) | (((x & BACK_MASK) >> BACK_SHIFT) << READ_SHIFT) | (((x & READ_MASK) >> READ_SHIFT) << BACK_SHIFT),
    ;
}

/// Every read after a write gives the value written, however many reads
/// follow, until the next write.
pub proof fn lemma_reads_give_latest_write<T: Clone>(
    b0: TripleBuffer<T>,
    b1: TripleBuffer<T>,
    b2: TripleBuffer<T>,
    b3: TripleBuffer<T>,
    data: T,
    first: T,
    second: T,
)
    requires
        b0.wf(),
        b0.wrote(&b1, data),
        b1.was_read(&b2, first),
        b2.was_read(&b3, second),
    ensures
        first == data,
        second == data,
        b3.latest() == data,
{
}

} // verus!
