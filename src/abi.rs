//! The driver's ABI: operation codes, flags, device states, command codes and
//! the byte layout of the structures exchanged with it.
use vstd::prelude::*;

verus! {

/// Operation code of a read request.
pub const UBLK_IO_OP_READ: u32 = 0;

/// Operation code of a write request.
pub const UBLK_IO_OP_WRITE: u32 = 1;

/// Operation code of a flush request.
pub const UBLK_IO_OP_FLUSH: u32 = 2;

/// Operation code of a write-zeroes request.
pub const UBLK_IO_OP_WRITE_ZEROES: u32 = 5;

/// Request flag: force unit access.
pub const UBLK_IO_F_FUA: u32 = 0x2000;

/// Request flag: do not release blocks when zeroing.
pub const UBLK_IO_F_NOUNMAP: u32 = 0x8000;

/// Device state: dead, cannot be recovered.
pub const UBLK_S_DEV_DEAD: u16 = 0;

/// Device state: live, served by a running server.
pub const UBLK_S_DEV_LIVE: u16 = 1;

/// Device state: quiesced, waiting for a new server.
pub const UBLK_S_DEV_QUIESCED: u16 = 2;

/// Device state: failing I/O, waiting for a new server.
pub const UBLK_S_DEV_FAIL_IO: u16 = 3;

/// Device flag: the device survives its server and can be recovered.
pub const UBLK_F_USER_RECOVERY: u64 = 8;

/// Device attribute: the device has a volatile write cache.
pub const UBLK_ATTR_VOLATILE_CACHE: u32 = 4;

/// Device attribute: the device supports force unit access.
pub const UBLK_ATTR_FUA: u32 = 8;

/// Parameter set: basic parameters.
pub const UBLK_PARAM_TYPE_BASIC: u32 = 1;

/// Parameter set: DMA alignment.
pub const UBLK_PARAM_TYPE_DMA_ALIGN: u32 = 16;

/// Offset of the first queue's descriptor table in the per-device character device.
pub const UBLKSRV_CMD_BUF_OFFSET: u64 = 0;

/// Largest queue depth the driver supports.
pub const UBLK_MAX_QUEUE_DEPTH: u16 = 4096;

/// Size in bytes of one request descriptor.
pub const IO_DESC_SIZE: u64 = 24;

/// Size in bytes of a control command.
pub const CTRL_CMD_SIZE: u16 = 32;

/// Size in bytes of the device information structure.
pub const DEV_INFO_SIZE: u16 = 64;

/// Size in bytes of the device parameter structure this server fills: the
/// header and the basic, discard, device-number, zoned and DMA-alignment
/// parameter sets.
pub const PARAMS_SIZE: u16 = 120;

/// Queue id that addresses every queue of a device.
pub const ALL_QUEUES: u16 = 0xffff;

/// Command codes: `_IOR('u', nr, 32)` and `_IOWR('u', nr, 32)` for control
/// commands, `_IOWR('u', nr, 16)` for I/O commands.
pub const UBLK_U_CMD_GET_DEV_INFO: u32 = 0x8020_7502;

pub const UBLK_U_CMD_ADD_DEV: u32 = 0xc020_7504;

pub const UBLK_U_CMD_START_DEV: u32 = 0xc020_7506;

pub const UBLK_U_CMD_STOP_DEV: u32 = 0xc020_7507;

pub const UBLK_U_CMD_SET_PARAMS: u32 = 0xc020_7508;

pub const UBLK_U_CMD_START_USER_RECOVERY: u32 = 0xc020_7510;

pub const UBLK_U_CMD_END_USER_RECOVERY: u32 = 0xc020_7511;

pub const UBLK_U_CMD_DEL_DEV_ASYNC: u32 = 0x8020_7514;

pub const UBLK_U_IO_FETCH_REQ: u32 = 0xc010_7520;

pub const UBLK_U_IO_COMMIT_AND_FETCH_REQ: u32 = 0xc010_7521;

/// Linux error numbers the server reacts to.
pub const EINTR: i32 = 4;

pub const EIO: i32 = 5;

pub const EEXIST: i32 = 17;

pub const ENODEV: i32 = 19;

/// Result with which the driver aborts a fetch or commit: `-ENODEV`.
pub const UBLK_IO_RES_ABORT: i32 = -19;

/// `RWF_DSYNC`: the write is durable before it completes.
pub const RWF_DSYNC: i32 = 2;

/// `fallocate` modes.
pub const FALLOC_FL_KEEP_SIZE: i32 = 1;

pub const FALLOC_FL_PUNCH_HOLE: i32 = 2;

pub const FALLOC_FL_ZERO_RANGE: i32 = 16;

/// The value of `n` little-endian bytes.
pub open spec fn le_value(s: Seq<u8>) -> nat
    decreases s.len(),
{
    if s.len() == 0 {
        0
    } else {
        s[0] as nat + 256 * le_value(s.drop_first())
    }
}

/// `v` as `n` little-endian bytes, truncated to `n` bytes.
pub open spec fn le_bytes(v: nat, n: nat) -> Seq<u8>
    decreases n,
{
    if n == 0 {
        Seq::empty()
    } else {
        seq![(v % 256) as u8] + le_bytes(v / 256, (n - 1) as nat)
    }
}

/// Appends the `n` low bytes of `v` to `out`, least significant first.
pub fn push_le(out: &mut Vec<u8>, v: u64, n: usize)
    requires
        n <= 8,
    ensures
        final(out)@ == old(out)@ + le_bytes(v as nat, n as nat),
{
    let mut rest: u64 = v;
    let mut i: usize = 0;
    while i < n
        invariant
            i <= n,
            out@ + le_bytes(rest as nat, (n - i) as nat) == old(out)@ + le_bytes(v as nat, n as nat),
        decreases n - i,
    {
        let ghost before = out@;
        let ghost tail = le_bytes((rest / 256) as nat, (n - i - 1) as nat);
        out.push((rest % 256) as u8);
        assert(le_bytes(rest as nat, (n - i) as nat) == seq![(rest % 256) as u8] + tail);
        assert(out@ + tail == before + (seq![(rest % 256) as u8] + tail));
        rest = rest / 256;
        i = i + 1;
    }
    assert(le_bytes(rest as nat, 0) == Seq::<u8>::empty());
    assert(out@ + Seq::<u8>::empty() == out@);
}

/// A request descriptor as the driver lays it out in the shared table.
#[allow(non_camel_case_types)]
#[derive(Clone, Copy, Debug, PartialEq, Eq, Structural)]
pub struct ublksrv_io_desc {
    /// Low byte: operation code; higher bytes: flags.
    pub op_flags: u32,
    /// Number of sectors (or of zones, for zone operations).
    pub nr_sectors: u32,
    /// First sector of the request on the device.
    pub start_sector: u64,
    /// Buffer address; not used by this server.
    pub addr: u64,
}

impl ublksrv_io_desc {
    /// The operation code: the low byte of `op_flags`.
    pub fn op(&self) -> (r: u32)
        ensures
            r == self.op_flags & 0xff,
    {
        self.op_flags & 0xff
    }

    /// The flags: `op_flags` without its low byte.
    pub fn flags(&self) -> (r: u32)
        ensures
            r == self.op_flags >> 8,
    {
        self.op_flags >> 8
    }
}

} // verus!
