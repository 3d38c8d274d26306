//! The control plane: the device description sent to the driver, the
//! parameters advertised for it, and the control commands.
use vstd::prelude::*;

use crate::abi::{
    ALL_QUEUES, DEV_INFO_SIZE, PARAMS_SIZE, UBLK_ATTR_FUA, UBLK_ATTR_VOLATILE_CACHE,
    UBLK_F_USER_RECOVERY, UBLK_PARAM_TYPE_BASIC, UBLK_PARAM_TYPE_DMA_ALIGN, UBLK_U_CMD_ADD_DEV,
    UBLK_U_CMD_DEL_DEV_ASYNC, UBLK_U_CMD_END_USER_RECOVERY, UBLK_U_CMD_GET_DEV_INFO,
    UBLK_U_CMD_SET_PARAMS, UBLK_U_CMD_START_DEV, UBLK_U_CMD_START_USER_RECOVERY, UBLK_U_CMD_STOP_DEV,
};
use crate::config::{shift_of, Config, ConfigError};
use crate::sqes::{ctrl_cmd, ctrl_cmd_bytes, CtrlSqe};

verus! {

/// Queue depth of every device this server creates.
pub const QUEUE_DEPTH: u16 = 128;

/// Largest I/O buffer of one request, in bytes.
pub const MAX_IO_BUF_BYTES: u32 = 1_048_576;

/// The fields of the driver's device information that the server uses.
#[derive(Debug, Clone, Copy, PartialEq, Eq, Structural)]
pub struct DevInfo {
    pub dev_id: u32,
    pub nr_hw_queues: u16,
    pub queue_depth: u16,
    pub state: u16,
    pub max_io_buf_bytes: u32,
    pub flags: u64,
}

/// The device to ask the driver for: the configured id (or any), one queue
/// per I/O thread, and recovery by a later server enabled.
pub fn new_dev_info(config: &Config, cpus: u16) -> (r: DevInfo)
    ensures
        r.dev_id == match config.dev_id {
            Some(v) => v,
            None => u32::MAX,
        },
        r.nr_hw_queues == match config.threads {
            Some(v) => v,
            None => cpus,
        },
        r.queue_depth == QUEUE_DEPTH,
        r.max_io_buf_bytes == MAX_IO_BUF_BYTES,
        r.flags == UBLK_F_USER_RECOVERY,
        r.state == 0,
{
    DevInfo {
        dev_id: config.dev_id(),
        nr_hw_queues: config.threads(cpus),
        queue_depth: QUEUE_DEPTH,
        state: 0,
        max_io_buf_bytes: MAX_IO_BUF_BYTES,
        flags: UBLK_F_USER_RECOVERY,
    }
}

/// The parameters advertised for a new device.
#[derive(Debug, Clone, Copy, PartialEq, Eq, Structural)]
pub struct DeviceParams {
    pub len: u32,
    pub types: u32,
    pub attrs: u32,
    pub logical_bs_shift: u8,
    pub physical_bs_shift: u8,
    pub io_opt_shift: u8,
    pub io_min_shift: u8,
    pub max_sectors: u32,
    pub dev_sectors: u64,
    pub dma_alignment: u32,
}

/// The attributes of the device under the given limits: a volatile cache
/// where the backing device caches writes, and force unit access where it
/// supports it.
pub open spec fn attrs_of(write_cache: bool, fua: bool) -> u32 {
    (if write_cache { UBLK_ATTR_VOLATILE_CACHE } else { 0u32 }) | (if fua { UBLK_ATTR_FUA } else { 0u32 })
}

/// The device attributes under the loaded limits.
pub fn dev_attrs(config: &Config) -> (r: Result<u32, ConfigError>)
    ensures
        r == match config.queue_limits {
            Some(l) => Ok(attrs_of(l.write_cache, l.fua)),
            None => Err(ConfigError::LimitsNotLoaded),
        },
{
    match &config.queue_limits {
        Some(l) => {
            let cache: u32 = if l.write_cache { UBLK_ATTR_VOLATILE_CACHE } else { 0 };
            let fua: u32 = if l.fua { UBLK_ATTR_FUA } else { 0 };
            Ok(cache | fua)
        },
        None => Err(ConfigError::LimitsNotLoaded),
    }
}

/// The parameters of a new device with `max_io_buf_bytes` of buffer per
/// request: its size in sectors, its attributes and block-size shifts from
/// the loaded limits, and the largest request the buffer holds.
pub fn device_params(config: &Config, max_io_buf_bytes: u32) -> (r: Result<DeviceParams, ConfigError>)
    ensures
        config.queue_limits is None ==> r == Err::<DeviceParams, ConfigError>(ConfigError::LimitsNotLoaded),
        r matches Ok(p) ==> {
            let l = config.queue_limits->0;
            &&& config.queue_limits is Some
            &&& p.len == PARAMS_SIZE
            &&& p.types == UBLK_PARAM_TYPE_BASIC | UBLK_PARAM_TYPE_DMA_ALIGN
            &&& p.attrs == attrs_of(l.write_cache, l.fua)
            &&& shift_of(l.logical_block_size) == Ok::<u8, ConfigError>(p.logical_bs_shift)
            &&& shift_of(l.physical_block_size) == Ok::<u8, ConfigError>(p.physical_bs_shift)
            &&& shift_of(l.minimum_io_size) == Ok::<u8, ConfigError>(p.io_min_shift)
            &&& (if l.optimal_io_size == 0 { p.io_opt_shift == 0 } else { shift_of(l.optimal_io_size)
                == Ok::<u8, ConfigError>(p.io_opt_shift) })
            &&& p.max_sectors == max_io_buf_bytes / 512
            &&& p.dev_sectors == config.size / 512
            &&& p.dma_alignment == l.dma_alignment
        },
        config.queue_limits matches Some(l) ==> (r is Err <==> (l.logical_block_size == 0
            || l.physical_block_size == 0 || l.minimum_io_size == 0)),
{
    let attrs = match dev_attrs(config) {
        Ok(a) => a,
        Err(e) => return Err(e),
    };
    let logical_bs_shift = match config.logical_bs_shift() {
        Ok(v) => v,
        Err(e) => return Err(e),
    };
    let physical_bs_shift = match config.physical_bs_shift() {
        Ok(v) => v,
        Err(e) => return Err(e),
    };
    let io_min_shift = match config.io_min_shift() {
        Ok(v) => v,
        Err(e) => return Err(e),
    };
    let io_opt_shift = match config.io_opt_shift() {
        Ok(v) => v,
        Err(e) => return Err(e),
    };
    let dma_alignment = match config.dma_alignment() {
        Ok(v) => v,
        Err(e) => return Err(e),
    };
    Ok(DeviceParams {
        len: PARAMS_SIZE as u32,
        types: UBLK_PARAM_TYPE_BASIC | UBLK_PARAM_TYPE_DMA_ALIGN,
        attrs,
        logical_bs_shift,
        physical_bs_shift,
        io_opt_shift,
        io_min_shift,
        max_sectors: max_io_buf_bytes / 512,
        dev_sectors: config.size / 512,
        dma_alignment,
    })
}

/// `ADD_DEV`: the driver fills the device information at `info_addr`.
pub fn add_dev_cmd(dev_id: u32, info_addr: u64) -> (r: CtrlSqe)
    ensures
        r.op == UBLK_U_CMD_ADD_DEV,
        r.cmd@ == ctrl_cmd_bytes(dev_id, ALL_QUEUES, DEV_INFO_SIZE, info_addr, 0),
{
    CtrlSqe { op: UBLK_U_CMD_ADD_DEV, cmd: ctrl_cmd(dev_id, ALL_QUEUES, DEV_INFO_SIZE, info_addr, 0) }
}

/// `GET_DEV_INFO`: the driver writes the device information to `info_addr`.
pub fn get_info_cmd(dev_id: u32, info_addr: u64) -> (r: CtrlSqe)
    ensures
        r.op == UBLK_U_CMD_GET_DEV_INFO,
        r.cmd@ == ctrl_cmd_bytes(dev_id, ALL_QUEUES, DEV_INFO_SIZE, info_addr, 0),
{
    CtrlSqe { op: UBLK_U_CMD_GET_DEV_INFO, cmd: ctrl_cmd(dev_id, ALL_QUEUES, DEV_INFO_SIZE, info_addr, 0) }
}

/// `START_USER_RECOVERY`.
pub fn start_recovery_cmd(dev_id: u32) -> (r: CtrlSqe)
    ensures
        r.op == UBLK_U_CMD_START_USER_RECOVERY,
        r.cmd@ == ctrl_cmd_bytes(dev_id, ALL_QUEUES, 0, 0, 0),
{
    CtrlSqe { op: UBLK_U_CMD_START_USER_RECOVERY, cmd: ctrl_cmd(dev_id, ALL_QUEUES, 0, 0, 0) }
}

/// `SET_PARAMS`: the parameters are read from `params_addr`.
pub fn set_params_cmd(dev_id: u32, params_addr: u64) -> (r: CtrlSqe)
    ensures
        r.op == UBLK_U_CMD_SET_PARAMS,
        r.cmd@ == ctrl_cmd_bytes(dev_id, ALL_QUEUES, PARAMS_SIZE, params_addr, 0),
{
    CtrlSqe { op: UBLK_U_CMD_SET_PARAMS, cmd: ctrl_cmd(dev_id, ALL_QUEUES, PARAMS_SIZE, params_addr, 0) }
}

/// `START_DEV` for a new device, `END_USER_RECOVERY` for a recovered one,
/// naming the serving process.
pub fn start_recover_dev_cmd(is_new_device: bool, dev_id: u32, pid: u32) -> (r: CtrlSqe)
    ensures
        r.op == (if is_new_device { UBLK_U_CMD_START_DEV } else { UBLK_U_CMD_END_USER_RECOVERY }),
        r.cmd@ == ctrl_cmd_bytes(dev_id, ALL_QUEUES, 0, 0, pid as u64),
{
    let op = if is_new_device {
        UBLK_U_CMD_START_DEV
    } else {
        UBLK_U_CMD_END_USER_RECOVERY
    };
    CtrlSqe { op, cmd: ctrl_cmd(dev_id, ALL_QUEUES, 0, 0, pid as u64) }
}

/// `STOP_DEV`.
pub fn stop_dev_cmd(dev_id: u32) -> (r: CtrlSqe)
    ensures
        r.op == UBLK_U_CMD_STOP_DEV,
        r.cmd@ == ctrl_cmd_bytes(dev_id, ALL_QUEUES, 0, 0, 0),
{
    CtrlSqe { op: UBLK_U_CMD_STOP_DEV, cmd: ctrl_cmd(dev_id, ALL_QUEUES, 0, 0, 0) }
}

/// `DEL_DEV_ASYNC`.
pub fn del_dev_cmd(dev_id: u32) -> (r: CtrlSqe)
    ensures
        r.op == UBLK_U_CMD_DEL_DEV_ASYNC,
        r.cmd@ == ctrl_cmd_bytes(dev_id, ALL_QUEUES, 0, 0, 0),
{
    CtrlSqe { op: UBLK_U_CMD_DEL_DEV_ASYNC, cmd: ctrl_cmd(dev_id, ALL_QUEUES, 0, 0, 0) }
}

} // verus!
