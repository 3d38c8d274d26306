//! A block-device server that stores a virtual disk in chunk-sized files,
//! created on first write. This library holds its logic: request routing,
//! the per-tag and supervisor state machines, the driver's command layouts,
//! and the command line and configuration formats.
pub mod abi;
pub mod arith;
pub mod cli;
pub mod commands;
pub mod config;
pub mod config_file;
pub mod control;
pub mod file_index;
pub mod io_buffers;
pub mod io_descriptor_map;
pub mod parts;
pub mod queue_limits;
pub mod request;
pub mod runtime;
pub mod sqes;
pub mod supervisor;
pub mod task;
pub mod text;
pub mod util;
