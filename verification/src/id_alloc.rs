use vstd::prelude::*;

verus! {

/// A durable counter cell of the stable-structures crate.
///
/// Verus refuses a declaration of the cell's type (its memory parameter is
/// interiorly mutable), so the cell sits in a private field of this opaque
/// struct, and the trusted functions below carry its contract.
#[verifier::external_body]
pub struct CounterCell {
    cell: ic_stable_structures::cell::Cell<u64, ic_stable_structures::DefaultMemoryImpl>,
}

/// The value currently held by a durable counter cell.
pub uninterp spec fn cell_value(c: CounterCell) -> u64;

/// Relies on ic_stable_structures::cell::Cell::init: a fresh vector memory
/// has size zero, so the cell takes the given default value and writes it
/// to the memory.
#[verifier::external_body]
fn counter_cell_new() -> (r: CounterCell)
    ensures
        cell_value(r) == 0,
{
    CounterCell {
        cell: ic_stable_structures::cell::Cell::init(
            ic_stable_structures::DefaultMemoryImpl::default(),
            0,
        ),
    }
}

/// Relies on ic_stable_structures::cell::Cell::get: it returns the value
/// the cell holds.
#[verifier::external_body]
fn counter_cell_get(c: &CounterCell) -> (r: u64)
    ensures
        r == cell_value(*c),
{
    *c.cell.get()
}

/// Relies on ic_stable_structures::cell::Cell::set: it writes the new
/// value to the memory, stores it in the cell, and returns the previous
/// value.  An eight-byte value never exceeds the cell's size limit, and a
/// vector memory always grows when asked.
#[verifier::external_body]
fn counter_cell_set(c: &mut CounterCell, v: u64) -> (r: u64)
    ensures
        cell_value(*final(c)) == v,
        r == cell_value(*old(c)),
{
    c.cell.set(v)
}

/// The identifier allocator: issues unique, strictly increasing 64-bit
/// identifiers from a durable counter cell, initialized to zero.
pub struct IdAllocator {
    cell: CounterCell,
}

impl IdAllocator {
    /// The counter's current value: the identifier the next call returns.
    pub closed spec fn value(&self) -> u64 {
        cell_value(self.cell)
    }

    pub fn new() -> (r: Self)
        ensures
            r.value() == 0,
    {
        IdAllocator { cell: counter_cell_new() }
    }

    /// The counter's current value, without advancing it.
    pub fn current(&self) -> (r: u64)
        ensures
            r == self.value(),
    {
        counter_cell_get(&self.cell)
    }

    /// Returns the current counter value and advances the counter by
    /// exactly one, so no two calls ever return the same identifier.
    pub fn next_id(&mut self) -> (r: u64)
        requires
            old(self).value() < u64::MAX,
        ensures
            r == old(self).value(),
            final(self).value() == old(self).value() + 1,
    {
        let cur = counter_cell_get(&self.cell);
        counter_cell_set(&mut self.cell, cur + 1);
        cur
    }
}

} // verus!
