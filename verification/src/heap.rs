//! A model of the platform's global heap of movable memory blocks.
//!
//! Blocks are addressed by stable integer handles. Allocating yields a fresh
//! handle to a zero-initialised block; freeing a handle retires it without
//! disturbing any other live block. The heap is viewed abstractly as a map
//! from live handles to the byte contents of their blocks.

use vstd::prelude::*;

verus! {

/// A heap of separately allocated byte blocks, addressed by stable handles.
///
/// A handle stays valid, and its block keeps its address, until the handle is
/// freed; freeing one block never moves or invalidates another.
pub struct GlobalHeap {
    blocks: Vec<Option<Vec<u8>>>,
}

impl View for GlobalHeap {
    type V = Map<int, Seq<u8>>;

    /// The live handles, each mapped to the bytes of its block.
    closed spec fn view(&self) -> Map<int, Seq<u8>> {
        Map::new(
            |h: int| 0 <= h < self.blocks@.len() && self.blocks@[h] is Some,
            |h: int| self.blocks@[h].unwrap()@,
        )
    }
}

impl GlobalHeap {
    /// An empty heap with no live handles.
    pub fn new() -> (r: GlobalHeap)
        ensures
            r@ == Map::<int, Seq<u8>>::empty(),
    {
        let r = GlobalHeap { blocks: Vec::new() };
        proof {
            assert(r@ =~= Map::<int, Seq<u8>>::empty());
        }
        r
    }

    /// Whether `h` is a live handle of this heap.
    pub fn is_live(&self, h: usize) -> (r: bool)
        ensures
            r == self@.contains_key(h as int),
    {
        h < self.blocks.len() && self.blocks[h].is_some()
    }

    /// Allocates a fresh zero-initialised block of `len` bytes and returns its
    /// handle. Every handle that was live before stays live, with its block
    /// unchanged.
    pub fn allocate(&mut self, len: usize) -> (h: usize)
        ensures
            !old(self)@.contains_key(h as int),
            final(self)@ == old(self)@.insert(h as int, Seq::new(len as nat, |j: int| 0u8)),
    {
        let h = self.blocks.len();
        let mut block: Vec<u8> = Vec::new();
        let mut i: usize = 0;
        while i < len
            invariant
                i <= len,
                block@.len() == i,
                forall|j: int| 0 <= j < i ==> block@[j] == 0u8,
            decreases len - i,
        {
            block.push(0u8);
            i += 1;
        }
        self.blocks.push(Some(block));
        proof {
            assert(block@ =~= Seq::new(len as nat, |j: int| 0u8));
            assert(final(self)@ =~= old(self)@.insert(h as int, block@));
        }
        h
    }

    /// The number of bytes in the block of the live handle `h`.
    pub fn block_len(&self, h: usize) -> (r: usize)
        requires
            self@.contains_key(h as int),
        ensures
            r == self@[h as int].len(),
    {
        match &self.blocks[h] {
            Some(block) => block.len(),
            None => vstd::pervasive::unreached(),
        }
    }

    /// Overwrites the byte at offset `i` of the block of the live handle `h`.
    /// No other block, and no other byte of this block, changes.
    pub fn store(&mut self, h: usize, i: usize, b: u8)
        requires
            old(self)@.contains_key(h as int),
            i < old(self)@[h as int].len(),
        ensures
            final(self)@ == old(self)@.insert(h as int, old(self)@[h as int].update(i as int, b)),
    {
        match &mut self.blocks[h] {
            Some(block) => {
                block[i] = b;
            },
            None => vstd::pervasive::unreached(),
        }
        proof {
            assert(final(self)@ =~= old(self)@.insert(
                h as int,
                old(self)@[h as int].update(i as int, b),
            ));
        }
    }

    /// A read-only view of the whole block of the live handle `h`, valid for
    /// as long as the heap is not mutated.
    pub fn block<'a>(&'a self, h: usize) -> (r: &'a [u8])
        requires
            self@.contains_key(h as int),
        ensures
            r@ == self@[h as int],
    {
        match &self.blocks[h] {
            Some(block) => block.as_slice(),
            None => vstd::pervasive::unreached(),
        }
    }

    /// Releases the block of the live handle `h`. The handle stops being
    /// live; every other live handle keeps its block unchanged.
    pub fn free(&mut self, h: usize)
        requires
            old(self)@.contains_key(h as int),
        ensures
            final(self)@ == old(self)@.remove(h as int),
    {
        self.blocks[h] = None;
        proof {
            assert(final(self)@ =~= old(self)@.remove(h as int));
        }
    }
}

} // verus!
