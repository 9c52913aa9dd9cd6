//! A bounds-checked view of a process's RAM.
//!
//! Process memory is shared, mutable memory between the kernel and the one
//! process that owns it. The boundary never trusts an address a process
//! supplied: every access is re-validated against the accessible window
//! `[accessible_memory_start, app_brk)` that the process-memory manager
//! passes in, because an intervening call (a memory-break adjustment) can
//! shrink the window while a batch is still draining.

use vstd::prelude::*;

verus! {

/// Whether the byte range `[addr, addr + nbytes)` lies inside the window
/// `[start, brk)` and starts on a word boundary. Every access the boundary
/// makes on behalf of a process must pass this check first; an unaligned
/// address is rejected like an out-of-bounds one, since the architecture
/// only ever hands the kernel word-aligned frames and cursors.
pub open spec fn spec_range_ok(start: u32, brk: u32, addr: u32, nbytes: int) -> bool {
    &&& start <= addr
    &&& addr + nbytes <= brk
    &&& addr % 4 == 0
}

/// Check that `[addr, addr + nbytes)` lies inside `[start, brk)` and that
/// `addr` is word-aligned.
pub fn range_ok(start: u32, brk: u32, addr: u32, nbytes: u64) -> (r: bool)
    requires
        nbytes <= u64::MAX - u32::MAX,
    ensures
        r == spec_range_ok(start, brk, addr, nbytes as int),
{
    start <= addr && (addr as u64) + nbytes <= (brk as u64) && addr % 4 == 0
}

/// The word stored at address `addr` of a block with base address `base`
/// and contents `words`.
pub open spec fn spec_word_in(base: u32, words: Seq<u32>, addr: u32) -> u32 {
    words[(addr - base) / 4]
}

/// `words` updated so that address `addr` holds `w`, in a block with base
/// address `base`.
pub open spec fn spec_word_updated(base: u32, words: Seq<u32>, addr: u32, w: u32) -> Seq<u32> {
    words.update((addr - base) / 4, w)
}

/// Whether the window `[start, brk)` lies inside a well-formed block with
/// base address `base` and contents `words`.
pub open spec fn spec_window_in(base: u32, words: Seq<u32>, start: u32, brk: u32) -> bool {
    &&& base % 4 == 0
    &&& base + 4 * words.len() <= u32::MAX + 1
    &&& base <= start
    &&& brk <= base + 4 * words.len()
}

/// The word index of a word-aligned address of the block is an index of
/// `words`.
pub proof fn lemma_word_in_index(base: u32, words: Seq<u32>, addr: u32)
    requires
        base % 4 == 0,
        addr % 4 == 0,
        base <= addr,
        addr + 4 <= base + 4 * words.len(),
    ensures
        0 <= (addr - base) / 4 < words.len(),
        base + 4 * ((addr - base) / 4) == addr,
{
    let off = addr - base;
    assert(off % 4 == 0 && off / 4 * 4 == off) by (nonlinear_arith)
        requires
            addr % 4 == 0,
            base % 4 == 0,
            0 <= base <= addr,
            off == addr - base,
    ;
    assert(off / 4 < words.len()) by (nonlinear_arith)
        requires
            off / 4 * 4 == off,
            off + 4 <= 4 * words.len(),
    ;
}

/// Distinct word-aligned addresses of one block have distinct word
/// indexes.
pub proof fn lemma_word_index_distinct(base: u32, a1: u32, a2: u32)
    requires
        base % 4 == 0,
        a1 % 4 == 0,
        a2 % 4 == 0,
        base <= a1,
        base <= a2,
        a1 != a2,
    ensures
        (a1 - base) / 4 != (a2 - base) / 4,
{
    assert((a1 - base) / 4 != (a2 - base) / 4) by (nonlinear_arith)
        requires
            base % 4 == 0,
            a1 % 4 == 0,
            a2 % 4 == 0,
            0 <= base <= a1,
            0 <= base <= a2,
            a1 != a2,
    ;
}

/// The RAM block a process owns, held as a sequence of words above a fixed
/// word-aligned base address. The accessible window `[start, brk)` that
/// callers validate against always lies inside this block; the block
/// itself does not move or resize while the process lives.
pub struct ProcessMemory {
    /// Lowest address of the block. Always word-aligned.
    pub base: u32,
    /// The words of the block, `words[i]` at address `base + 4 * i`.
    pub words: Vec<u32>,
}

impl ProcessMemory {
    /// One past the highest address of the block.
    pub open spec fn spec_limit(&self) -> int {
        self.base + 4 * self.words@.len()
    }

    /// The block is word-aligned and fits in the address space.
    pub open spec fn wf(&self) -> bool {
        &&& self.base % 4 == 0
        &&& self.spec_limit() <= u32::MAX + 1
    }

    /// The word index of an address inside the block.
    pub open spec fn spec_word_index(&self, addr: u32) -> int {
        (addr - self.base) / 4
    }

    /// Whether `addr` is the word-aligned address of a word of the block.
    pub open spec fn spec_contains_word(&self, addr: u32) -> bool {
        &&& self.base <= addr
        &&& addr + 4 <= self.spec_limit()
        &&& addr % 4 == 0
    }

    /// The word stored at address `addr`.
    pub open spec fn spec_word_at(&self, addr: u32) -> u32 {
        spec_word_in(self.base, self.words@, addr)
    }

    /// A window `[start, brk)` that lies inside the block, so that every
    /// access that passes the window check hits a word of the block.
    pub open spec fn spec_holds_window(&self, start: u32, brk: u32) -> bool {
        spec_window_in(self.base, self.words@, start, brk)
    }

    /// A block of `num_words` zeroed words starting at `base`.
    pub fn new(base: u32, num_words: usize) -> (mem: Self)
        requires
            base % 4 == 0,
            base + 4 * num_words <= u32::MAX + 1,
        ensures
            mem.wf(),
            mem.base == base,
            mem.words@.len() == num_words,
            forall|i: int| 0 <= i < num_words ==> mem.words@[i] == 0u32,
    {
        let mut words: Vec<u32> = Vec::new();
        let mut i: usize = 0;
        while i < num_words
            invariant
                i <= num_words,
                words@.len() == i,
                forall|j: int| 0 <= j < i ==> words@[j] == 0u32,
            decreases num_words - i,
        {
            words.push(0);
            i = i + 1;
        }
        ProcessMemory { base, words }
    }

    /// Read the word at address `addr`.
    pub fn read_word(&self, addr: u32) -> (w: u32)
        requires
            self.wf(),
            self.spec_contains_word(addr),
        ensures
            w == self.spec_word_at(addr),
    {
        let index: usize = ((addr - self.base) / 4) as usize;
        proof {
            lemma_word_index_in_range(self, addr);
        }
        self.words[index]
    }

    /// Write the word at address `addr`.
    pub fn write_word(&mut self, addr: u32, w: u32)
        requires
            old(self).wf(),
            old(self).spec_contains_word(addr),
        ensures
            final(self).base == old(self).base,
            final(self).words@ == old(self).words@.update(old(self).spec_word_index(addr), w),
    {
        let index: usize = ((addr - self.base) / 4) as usize;
        proof {
            lemma_word_index_in_range(self, addr);
        }
        self.words[index] = w;
    }
}

/// The word index of an in-block address is an index of `words`.
pub proof fn lemma_word_index_in_range(mem: &ProcessMemory, addr: u32)
    requires
        mem.wf(),
        mem.spec_contains_word(addr),
    ensures
        0 <= mem.spec_word_index(addr) < mem.words@.len(),
        mem.base + 4 * mem.spec_word_index(addr) == addr,
{
    let off = addr - mem.base;
    assert(off % 4 == 0 && off / 4 * 4 == off) by (nonlinear_arith)
        requires
            addr % 4 == 0,
            mem.base % 4 == 0,
            0 <= mem.base <= addr,
            off == addr - mem.base,
    ;
    assert(off / 4 < mem.words@.len()) by (nonlinear_arith)
        requires
            off / 4 * 4 == off,
            off + 4 <= 4 * mem.words@.len(),
    ;
}

/// Every word of a range that passes the window check is a word of the
/// block that holds the window.
pub proof fn lemma_range_words_in_memory(
    mem: &ProcessMemory,
    start: u32,
    brk: u32,
    addr: u32,
    nbytes: int,
)
    requires
        mem.spec_holds_window(start, brk),
        spec_range_ok(start, brk, addr, nbytes),
    ensures
        forall|k: int|
            0 <= k && 4 * k + 4 <= nbytes ==> mem.spec_contains_word(#[trigger] ((addr + 4 * k) as u32)),
{
    assert forall|k: int| 0 <= k && 4 * k + 4 <= nbytes implies mem.spec_contains_word(
        #[trigger] ((addr + 4 * k) as u32),
    ) by {
        let a = (addr + 4 * k) as u32;
        assert(a % 4 == 0) by (nonlinear_arith)
            requires
                addr % 4 == 0,
                a == addr + 4 * k,
                0 <= k,
                addr + 4 * k + 4 <= u32::MAX + 1,
        ;
    }
}

} // verus!
