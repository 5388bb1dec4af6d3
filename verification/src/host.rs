//! The host's store of embedded values.
//!
//! An address is the index of a cell. A cell holds its value from allocation
//! until it is reclaimed; a reclaimed cell stays empty for good, so an address
//! is never handed out twice.

use vstd::prelude::*;

verus! {

/// The store: one cell for each address handed out so far.
pub struct Host<T> {
    cells: Vec<Option<T>>,
}

/// Whether the cell at `addr` still holds its value.
pub open spec fn live_in<T>(cells: Seq<Option<T>>, addr: usize) -> bool {
    addr < cells.len() && cells[addr as int] is Some
}

/// The store after `val` was written to the cell at `addr`.
pub open spec fn written<T>(cells: Seq<Option<T>>, addr: usize, val: T) -> Seq<Option<T>> {
    cells.update(addr as int, Some(val))
}

/// The store after the cell at `addr` was emptied; unchanged where that cell
/// does not hold a value.
pub open spec fn reclaimed<T>(cells: Seq<Option<T>>, addr: usize) -> Seq<Option<T>> {
    if live_in(cells, addr) {
        cells.update(addr as int, None)
    } else {
        cells
    }
}

/// What emptying the cell at `addr` hands out: the value, if it was still there.
pub open spec fn reclaimed_value<T>(cells: Seq<Option<T>>, addr: usize) -> Option<T> {
    if live_in(cells, addr) {
        cells[addr as int]
    } else {
        None
    }
}

impl<T> View for Host<T> {
    type V = Seq<Option<T>>;

    closed spec fn view(&self) -> Seq<Option<T>> {
        self.cells@
    }
}

impl<T> Host<T> {
    /// Whether the cell at `addr` still holds its value.
    pub open spec fn live(&self, addr: usize) -> bool {
        live_in(self@, addr)
    }

    /// The value in the cell at `addr`.
    pub open spec fn value(&self, addr: usize) -> T
        recommends
            self.live(addr),
    {
        self@[addr as int]->0
    }

    /// A store with no cell.
    pub fn new() -> (res: Host<T>)
        ensures
            res@ == Seq::<Option<T>>::empty(),
    {
        Host { cells: Vec::new() }
    }

    /// The number of addresses handed out so far.
    pub fn len(&self) -> (n: usize)
        ensures
            n == self@.len(),
    {
        self.cells.len()
    }

    /// Whether the cell at `addr` still holds its value.
    pub fn is_live(&self, addr: usize) -> (b: bool)
        ensures
            b == self.live(addr),
    {
        addr < self.cells.len() && self.cells[addr].is_some()
    }

    /// Moves `val` into a new cell and returns its address.
    pub fn allocate(&mut self, val: T) -> (addr: usize)
        ensures
            addr == old(self)@.len(),
            final(self)@ == old(self)@.push(Some(val)),
    {
        let addr: usize = self.cells.len();
        self.cells.push(Some(val));
        addr
    }

    /// Borrows the value in the cell at `addr`.
    pub fn get(&self, addr: usize) -> (res: &T)
        requires
            self.live(addr),
        ensures
            *res == self.value(addr),
    {
        match &self.cells[addr] {
            Some(v) => v,
            None => vstd::pervasive::unreached(),
        }
    }

    /// Borrows the value in the cell at `addr` for writing. Whatever the
    /// caller leaves behind the borrow is what the cell then holds; no other
    /// cell changes.
    pub fn get_mut(&mut self, addr: usize) -> (res: &mut T)
        requires
            old(self).live(addr),
        ensures
            *res == old(self).value(addr),
            final(self)@ == written(old(self)@, addr, *final(res)),
    {
        match &mut self.cells[addr] {
            Some(v) => v,
            None => vstd::pervasive::unreached(),
        }
    }

    /// Empties the cell at `addr` and hands out its value, which the caller
    /// drops. Where the cell holds no value, nothing changes and nothing is
    /// handed out.
    pub fn reclaim(&mut self, addr: usize) -> (res: Option<T>)
        ensures
            res == reclaimed_value(old(self)@, addr),
            final(self)@ == reclaimed(old(self)@, addr),
            !final(self).live(addr),
    {
        if addr < self.cells.len() {
            let res = self.cells[addr].take();
            assert(self@ =~= reclaimed(old(self)@, addr));
            res
        } else {
            None
        }
    }
}

} // verus!
