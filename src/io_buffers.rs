//! The per-queue I/O arena: one page-aligned slot per tag in one allocation,
//! addressed by tag, sector offset and byte offset.
use vstd::prelude::*;

use crate::arith::{checked_next_multiple_of, lemma_round_up, round_up};

verus! {

/// Where the arena lies and how it is cut into slots.
pub struct IoBuffers {
    base: u64,
    elem_size: u64,
    depth: u16,
}

/// The size of one slot: `max_io_buf_bytes` rounded up to whole pages; `None`
/// where that does not fit or the page size is zero.
pub fn slot_size(max_io_buf_bytes: u32, page_size: u64) -> (r: Option<u64>)
    ensures
        r == (if page_size > 0 && round_up(max_io_buf_bytes as int, page_size as int) <= u64::MAX {
            Some(round_up(max_io_buf_bytes as int, page_size as int) as u64)
        } else {
            None
        }),
        r matches Some(s) ==> s % page_size == 0 && s >= max_io_buf_bytes,
{
    let r = checked_next_multiple_of(max_io_buf_bytes as u64, page_size);
    proof {
        if page_size > 0 {
            lemma_round_up(max_io_buf_bytes as int, page_size as int);
        }
    }
    r
}

impl IoBuffers {
    pub closed spec fn base(&self) -> u64 {
        self.base
    }

    pub closed spec fn elem_size(&self) -> u64 {
        self.elem_size
    }

    pub closed spec fn depth(&self) -> u16 {
        self.depth
    }

    pub closed spec fn wf(&self) -> bool {
        self.base + self.elem_size * self.depth <= u64::MAX
    }

    /// The arena of `queue_depth` slots of `elem_size` bytes at address `base`.
    pub fn new(base: u64, elem_size: u64, queue_depth: u16) -> (r: IoBuffers)
        requires
            base + elem_size * queue_depth <= u64::MAX,
        ensures
            r.wf(),
            r.base() == base,
            r.elem_size() == elem_size,
            r.depth() == queue_depth,
    {
        IoBuffers { base, elem_size, depth: queue_depth }
    }

    /// The address of the slot of `tag`.
    pub fn get_buf_addr(&self, tag: u8) -> (r: u64)
        requires
            self.wf(),
            tag < self.depth(),
        ensures
            r == self.base() + self.elem_size() * tag,
    {
        proof {
            vstd::arithmetic::mul::lemma_mul_inequality(tag as int, self.depth as int, self.elem_size as int);
            assert(self.elem_size * tag == tag * self.elem_size) by (nonlinear_arith);
            assert(self.elem_size * self.depth == self.depth * self.elem_size) by (nonlinear_arith);
        }
        self.base + self.elem_size * tag as u64
    }

    /// The address `buf_offset` sectors and `curr_offset` bytes into the slot
    /// of `tag`.
    pub fn get_buf_with_offsets(&self, tag: u8, buf_offset: u32, curr_offset: u32) -> (r: u64)
        requires
            self.wf(),
            tag < self.depth(),
            buf_offset * 512 + curr_offset <= self.elem_size(),
        ensures
            r == self.base() + self.elem_size() * tag + buf_offset * 512 + curr_offset,
    {
        let slot = self.get_buf_addr(tag);
        proof {
            vstd::arithmetic::mul::lemma_mul_inequality(tag as int + 1, self.depth as int, self.elem_size as int);
            assert(self.elem_size * (tag + 1) == self.elem_size * tag + self.elem_size) by (nonlinear_arith);
            assert((tag as int + 1) * self.elem_size == self.elem_size * (tag + 1)) by (nonlinear_arith);
            assert(self.elem_size * self.depth == self.depth * self.elem_size) by (nonlinear_arith);
        }
        slot + buf_offset as u64 * 512 + curr_offset as u64
    }
}

} // verus!
