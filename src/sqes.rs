//! The submissions the server makes, as plain values: what each queue entry
//! holds. Turning one into the kernel's entry format is a copy of fields.
use vstd::prelude::*;

use crate::abi::{
    le_bytes, push_le, ublksrv_io_desc, FALLOC_FL_KEEP_SIZE, FALLOC_FL_PUNCH_HOLE, FALLOC_FL_ZERO_RANGE,
    RWF_DSYNC, UBLK_IO_F_FUA, UBLK_IO_F_NOUNMAP, UBLK_IO_OP_READ, UBLK_U_IO_COMMIT_AND_FETCH_REQ,
    UBLK_U_IO_FETCH_REQ,
};
use crate::parts::Part;

verus! {

/// One data-plane submission.
#[derive(Debug, Clone, PartialEq, Eq)]
pub enum IoSqe {
    /// Read `len` bytes at byte `offset` of a chunk file into the tag's
    /// buffer, `buf_offset` sectors and `curr_offset` bytes into it.
    Read { file_index: u32, buf_offset: u32, curr_offset: u32, len: u32, offset: u64 },
    /// Write the same way, with the given `RWF_*` flags.
    Write { file_index: u32, buf_offset: u32, curr_offset: u32, len: u32, offset: u64, rw_flags: i32 },
    /// Flush a chunk file.
    Fsync { file_index: u32 },
    /// Zero or punch `len` bytes at byte `offset` of a chunk file.
    Fallocate { file_index: u32, len: u64, offset: u64, mode: i32 },
    /// A command to the per-device character device, with a 16-byte payload.
    Cmd { file_index: u32, op: u32, cmd: Vec<u8> },
}

/// A control command: the command code and its 80-byte payload.
#[derive(Debug, Clone, PartialEq, Eq)]
pub struct CtrlSqe {
    pub op: u32,
    pub cmd: Vec<u8>,
}

/// The two's complement bits of `v` as an unsigned 32-bit value.
pub open spec fn u32_bits(v: i32) -> nat {
    if v < 0 {
        (v + 0x1_0000_0000) as nat
    } else {
        v as nat
    }
}

/// The 16-byte I/O command: queue id, tag, result, buffer address, in the
/// driver's little-endian layout.
pub open spec fn io_cmd_bytes(q_id: u16, tag: u16, result: i32, addr: u64) -> Seq<u8> {
    le_bytes(q_id as nat, 2) + le_bytes(tag as nat, 2) + le_bytes(u32_bits(result), 4) + le_bytes(
        addr as nat,
        8,
    )
}

/// The 32-byte control command, padded with zeros to the 80 bytes of a large
/// queue entry: device id, queue id, payload length and address, one data
/// word, then zeros.
pub open spec fn ctrl_cmd_bytes(dev_id: u32, queue_id: u16, len: u16, addr: u64, data: u64) -> Seq<u8> {
    le_bytes(dev_id as nat, 4) + le_bytes(queue_id as nat, 2) + le_bytes(len as nat, 2) + le_bytes(
        addr as nat,
        8,
    ) + le_bytes(data as nat, 8) + Seq::new(56, |i: int| 0u8)
}

/// Encodes an I/O command.
pub fn io_cmd(q_id: u16, tag: u16, result: i32, addr: u64) -> (r: Vec<u8>)
    ensures
        r@ == io_cmd_bytes(q_id, tag, result, addr),
        r@.len() == 16,
{
    let mut out: Vec<u8> = Vec::new();
    push_le(&mut out, q_id as u64, 2);
    push_le(&mut out, tag as u64, 2);
    let bits: u64 = if result < 0 {
        (result as i64 + 0x1_0000_0000i64) as u64
    } else {
        result as u64
    };
    push_le(&mut out, bits, 4);
    push_le(&mut out, addr, 8);
    proof {
        lemma_le_bytes_len(q_id as nat, 2);
        lemma_le_bytes_len(tag as nat, 2);
        lemma_le_bytes_len(bits as nat, 4);
        lemma_le_bytes_len(addr as nat, 8);
    }
    out
}

/// Encodes a control command.
pub fn ctrl_cmd(dev_id: u32, queue_id: u16, len: u16, addr: u64, data: u64) -> (r: Vec<u8>)
    ensures
        r@ == ctrl_cmd_bytes(dev_id, queue_id, len, addr, data),
        r@.len() == 80,
{
    let mut out: Vec<u8> = Vec::new();
    push_le(&mut out, dev_id as u64, 4);
    push_le(&mut out, queue_id as u64, 2);
    push_le(&mut out, len as u64, 2);
    push_le(&mut out, addr, 8);
    push_le(&mut out, data, 8);
    let ghost head = out@;
    let mut i: usize = 0;
    while i < 56
        invariant
            i <= 56,
            out@ == head + Seq::new(i as nat, |j: int| 0u8),
        decreases 56 - i,
    {
        out.push(0);
        i = i + 1;
        assert(out@ == head + Seq::new(i as nat, |j: int| 0u8));
    }
    proof {
        lemma_le_bytes_len(dev_id as nat, 4);
        lemma_le_bytes_len(queue_id as nat, 2);
        lemma_le_bytes_len(len as nat, 2);
        lemma_le_bytes_len(addr as nat, 8);
        lemma_le_bytes_len(data as nat, 8);
    }
    out
}

/// `le_bytes` gives as many bytes as asked for.
pub proof fn lemma_le_bytes_len(v: nat, n: nat)
    ensures
        le_bytes(v, n).len() == n,
    decreases n,
{
    if n > 0 {
        lemma_le_bytes_len(v / 256, (n - 1) as nat);
    }
}

/// Fetches the next request for `tag`, whose buffer is at `buf_addr`.
pub fn create_fetch_req_sqe(fd: u32, tag: u8, queue_id: u16, buf_addr: u64) -> (r: IoSqe)
    ensures
        r matches IoSqe::Cmd { file_index, op, cmd } && file_index == fd && op == UBLK_U_IO_FETCH_REQ
            && cmd@ == io_cmd_bytes(queue_id, tag as u16, 0, buf_addr),
{
    IoSqe::Cmd { file_index: fd, op: UBLK_U_IO_FETCH_REQ, cmd: io_cmd(queue_id, tag as u16, 0, buf_addr) }
}

/// Reports `result` for `tag` and fetches its next request.
pub fn create_fetch_req_commit_sqe(fd: u32, tag: u8, queue_id: u16, buf_addr: u64, result: i32) -> (r: IoSqe)
    ensures
        r matches IoSqe::Cmd { file_index, op, cmd } && file_index == fd
            && op == UBLK_U_IO_COMMIT_AND_FETCH_REQ && cmd@ == io_cmd_bytes(queue_id, tag as u16, result, buf_addr),
{
    IoSqe::Cmd {
        file_index: fd,
        op: UBLK_U_IO_COMMIT_AND_FETCH_REQ,
        cmd: io_cmd(queue_id, tag as u16, result, buf_addr),
    }
}

/// Whether a part's data fits the `u32` lengths of a read or write.
pub open spec fn rw_fits(part: Part) -> bool {
    part.nr_sectors * 512 <= u32::MAX && part.start_sector * 512 + part.nr_sectors * 512 <= u64::MAX
}

/// Whether a part's byte range fits the `u64` offsets of a zeroing.
pub open spec fn zeroes_fits(part: Part) -> bool {
    part.start_sector * 512 + part.nr_sectors * 512 <= u64::MAX
}

/// The `RWF_*` flags of a write for `desc`: `RWF_DSYNC` where it asks for
/// force unit access.
pub fn fua_flags(desc: &ublksrv_io_desc) -> (r: i32)
    ensures
        r == (if desc.op_flags & UBLK_IO_F_FUA != 0 { RWF_DSYNC } else { 0 }),
{
    if desc.op_flags & UBLK_IO_F_FUA != 0 {
        RWF_DSYNC
    } else {
        0
    }
}

/// The read (for `UBLK_IO_OP_READ`) or write (otherwise) of a part, from its start.
pub fn create_rw_sqe(op: u32, file_index: u32, part: &Part, desc: &ublksrv_io_desc) -> (r: IoSqe)
    requires
        rw_fits(*part),
    ensures
        r == rw_sqe(op, file_index, *part, desc.op_flags, 0),
{
    create_rw_sqe_with_offset(op, file_index, part, desc, 0)
}

/// The read or write of what remains of a part once `curr_offset` bytes of it are done.
pub open spec fn rw_sqe(op: u32, file_index: u32, part: Part, op_flags: u32, curr_offset: u32) -> IoSqe {
    let len = (part.nr_sectors * 512 - curr_offset) as u32;
    let offset = (part.start_sector * 512 + curr_offset) as u64;
    if op == UBLK_IO_OP_READ {
        IoSqe::Read { file_index, buf_offset: part.buf_offset, curr_offset, len, offset }
    } else {
        IoSqe::Write {
            file_index,
            buf_offset: part.buf_offset,
            curr_offset,
            len,
            offset,
            rw_flags: if op_flags & UBLK_IO_F_FUA != 0 { RWF_DSYNC } else { 0 },
        }
    }
}

/// The read or write of what remains of a part once `curr_offset` bytes of it are done.
pub fn create_rw_sqe_with_offset(
    op: u32,
    file_index: u32,
    part: &Part,
    desc: &ublksrv_io_desc,
    curr_offset: u32,
) -> (r: IoSqe)
    requires
        rw_fits(*part),
        curr_offset <= part.nr_sectors * 512,
    ensures
        r == rw_sqe(op, file_index, *part, desc.op_flags, curr_offset),
{
    let len = part.nr_sectors * 512 - curr_offset;
    let offset = part.start_sector * 512 + curr_offset as u64;
    if op == UBLK_IO_OP_READ {
        IoSqe::Read { file_index, buf_offset: part.buf_offset, curr_offset, len, offset }
    } else {
        IoSqe::Write {
            file_index,
            buf_offset: part.buf_offset,
            curr_offset,
            len,
            offset,
            rw_flags: fua_flags(desc),
        }
    }
}

/// Flushes a chunk file.
pub fn create_flush_sqe(file_index: u32) -> (r: IoSqe)
    ensures
        r == (IoSqe::Fsync { file_index }),
{
    IoSqe::Fsync { file_index }
}

/// The `fallocate` mode for zeroing under `desc`: keep the size and zero the
/// range where it asks not to unmap, else keep the size and punch a hole.
pub open spec fn zeroes_mode(op_flags: u32) -> i32 {
    if op_flags & UBLK_IO_F_NOUNMAP != 0 {
        FALLOC_FL_KEEP_SIZE | FALLOC_FL_ZERO_RANGE
    } else {
        FALLOC_FL_KEEP_SIZE | FALLOC_FL_PUNCH_HOLE
    }
}

/// Zeroes a part.
pub fn create_write_zeroes_sqe(file_index: u32, part: &Part, desc: &ublksrv_io_desc) -> (r: IoSqe)
    requires
        zeroes_fits(*part),
    ensures
        r == (IoSqe::Fallocate {
            file_index,
            len: (part.nr_sectors * 512) as u64,
            offset: (part.start_sector * 512) as u64,
            mode: zeroes_mode(desc.op_flags),
        }),
{
    let mode = if desc.op_flags & UBLK_IO_F_NOUNMAP != 0 {
        FALLOC_FL_KEEP_SIZE | FALLOC_FL_ZERO_RANGE
    } else {
        FALLOC_FL_KEEP_SIZE | FALLOC_FL_PUNCH_HOLE
    };
    IoSqe::Fallocate {
        file_index,
        len: part.nr_sectors as u64 * 512,
        offset: part.start_sector * 512,
        mode,
    }
}

} // verus!
