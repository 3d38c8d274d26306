//! Where each queue's descriptor table lies in the per-device character
//! device, and how a descriptor is read from its bytes.
use vstd::prelude::*;

use crate::abi::{le_value, ublksrv_io_desc, IO_DESC_SIZE, UBLKSRV_CMD_BUF_OFFSET, UBLK_MAX_QUEUE_DEPTH};
use crate::arith::{checked_next_multiple_of, round_up};

verus! {

/// The length of the table of `depth` descriptors, in whole pages.
pub open spec fn table_len(depth: u16, page_size: u64) -> int {
    round_up(depth * IO_DESC_SIZE, page_size as int)
}

/// The length of the mapping of a queue of `depth` descriptors.
pub fn len(depth: u16, page_size: u64) -> (r: u64)
    requires
        0 < page_size <= u32::MAX,
    ensures
        r == table_len(depth, page_size),
{
    proof {
        crate::arith::lemma_round_up(depth * IO_DESC_SIZE, page_size as int);
    }
    match checked_next_multiple_of(depth as u64 * IO_DESC_SIZE, page_size) {
        Some(n) => n,
        None => 0,
    }
}

/// Where the table of queue `queue_id` starts: each queue has room for the
/// largest queue depth.
pub fn offset(queue_id: u16, page_size: u64) -> (r: u64)
    requires
        0 < page_size <= u32::MAX,
    ensures
        r == UBLKSRV_CMD_BUF_OFFSET + table_len(UBLK_MAX_QUEUE_DEPTH, page_size) * queue_id,
{
    let max_len = len(UBLK_MAX_QUEUE_DEPTH, page_size);
    proof {
        crate::arith::lemma_round_up(UBLK_MAX_QUEUE_DEPTH * IO_DESC_SIZE, page_size as int);
        assert(max_len * queue_id <= (98304 + 4294967295) * 65535) by (nonlinear_arith)
            requires max_len <= 98304 + 4294967295, queue_id <= 65535;
    }
    UBLKSRV_CMD_BUF_OFFSET + max_len * queue_id as u64
}

/// The value of `n` little-endian bytes of `b` from `at`.
fn read_le(b: &[u8], at: usize, n: usize) -> (r: u64)
    requires
        n <= 8,
        at + n <= b@.len(),
    ensures
        r == le_value(b@.subrange(at as int, at + n)),
        r < pow256(n as nat),
{
    let blen = b.len();
    let mut v: u64 = 0;
    let mut j: usize = n;
    while j > 0
        invariant
            j <= n <= 8,
            blen == b@.len(),
            at + n <= b@.len(),
            v == le_value(b@.subrange(at + j, at + n)),
            v < pow256((n - j) as nat),
        decreases j,
    {
        let ghost s = b@.subrange(at + j - 1, at + n);
        assert(s.drop_first() == b@.subrange(at + j, at + n));
        proof {
            lemma_pow256_bound((n - j) as nat);
            assert(v * 256 + b[at + j - 1] < pow256((n - j) as nat) * 256) by (nonlinear_arith)
                requires v < pow256((n - j) as nat), b[at + j - 1] < 256;
            assert(b[at + j - 1] + 256 * v < 0x1_0000_0000_0000_0000);
        }
        let k = at + (j - 1);
        v = b[k] as u64 + 256 * v;
        proof {
            assert(pow256((n - j + 1) as nat) == pow256((n - j) as nat) * 256);
        }
        j = j - 1;
    }
    v
}

/// Powers of 256.
pub open spec fn pow256(n: nat) -> nat
    decreases n,
{
    if n == 0 {
        1
    } else {
        256 * pow256((n - 1) as nat)
    }
}

proof fn lemma_pow256_bound(n: nat)
    requires
        n < 8,
    ensures
        pow256(n) * 256 <= 0x1_0000_0000_0000_0000,
        pow256(n + 1) == pow256(n) * 256,
{
    reveal_with_fuel(pow256, 9);
}

impl ublksrv_io_desc {
    /// A descriptor from its 24 bytes in the table: `op_flags`, the sector
    /// count, the start sector and the address, little-endian.
    pub fn from_bytes(b: &[u8]) -> (r: ublksrv_io_desc)
        requires
            b@.len() == IO_DESC_SIZE,
        ensures
            r.op_flags == le_value(b@.subrange(0, 4)),
            r.nr_sectors == le_value(b@.subrange(4, 8)),
            r.start_sector == le_value(b@.subrange(8, 16)),
            r.addr == le_value(b@.subrange(16, 24)),
    {
        let op_flags = read_le(b, 0, 4);
        let nr_sectors = read_le(b, 4, 4);
        let start_sector = read_le(b, 8, 8);
        let addr = read_le(b, 16, 8);
        proof {
            reveal_with_fuel(pow256, 5);
            assert(pow256(4) == 0x1_0000_0000);
        }
        ublksrv_io_desc { op_flags: op_flags as u32, nr_sectors: nr_sectors as u32, start_sector, addr }
    }
}

} // verus!
