//! The repository's configuration and the limits of the device under it.
use vstd::prelude::*;

use crate::arith::{checked_next_multiple_of, ilog2, lemma_round_up, log2, round_up};
use crate::text::{decimal, push_decimal};

verus! {

/// A setting of the configuration file.
#[derive(Debug, Clone, Copy, PartialEq, Eq, Structural)]
pub enum Setting {
    Version,
    DevId,
    Size,
    ChunkSize,
    Threads,
    Fsuid,
    Fsgid,
    DirectIo,
}

/// Why a configuration could not be read or changed.
#[derive(Debug, Clone, Copy, PartialEq, Eq, Structural)]
pub enum ConfigError {
    /// A line holds a name but no value.
    MissingValue,
    /// A line names no known setting.
    UnknownSetting,
    /// The value of a setting is not valid for it.
    InvalidValue(Setting),
    /// A required setting is absent.
    Missing(Setting),
    /// The size after expansion does not fit.
    InvalidFinalSize,
    /// The device limits have not been loaded.
    LimitsNotLoaded,
    /// A device limit is zero where a power of two is needed.
    InvalidLimit,
}

/// Limits of the block device under the repository.
#[derive(Debug, Clone, Copy, PartialEq, Eq, Structural)]
pub struct QueueLimits {
    pub logical_block_size: u16,
    pub physical_block_size: u16,
    pub minimum_io_size: u16,
    pub optimal_io_size: u16,
    pub dma_alignment: u16,
    pub write_cache: bool,
    pub fua: bool,
}

/// The repository's configuration.
#[derive(Debug, Clone)]
pub struct Config {
    /// The version of the configuration format.
    pub version: u8,
    /// The path of the repository.
    pub repository: String,
    /// The device id; the driver picks one where it is unset.
    pub dev_id: Option<u32>,
    /// The size of the device in bytes.
    pub size: u64,
    /// The size of one chunk in bytes.
    pub chunk_size: u64,
    /// The number of threads that serve I/O.
    pub threads: Option<u16>,
    /// The owner of the files the server creates.
    pub fsuid: Option<u32>,
    /// The group of the files the server creates.
    pub fsgid: Option<u32>,
    /// Whether chunk files are opened for direct I/O.
    pub direct_io: Option<bool>,
    /// The limits of the device under the repository, once loaded.
    pub queue_limits: Option<QueueLimits>,
}

impl Default for QueueLimits {
    /// The limits assumed where the device does not report its own.
    fn default() -> (r: QueueLimits)
        ensures
            r == default_limits(),
    {
        QueueLimits {
            logical_block_size: 512,
            physical_block_size: 4096,
            minimum_io_size: 512,
            optimal_io_size: 4096,
            dma_alignment: 511,
            write_cache: true,
            fua: false,
        }
    }
}

pub open spec fn default_limits() -> QueueLimits {
    QueueLimits {
        logical_block_size: 512,
        physical_block_size: 4096,
        minimum_io_size: 512,
        optimal_io_size: 4096,
        dma_alignment: 511,
        write_cache: true,
        fua: false,
    }
}

/// The size after growing `size` by `bytes`, rounded up to whole chunks.
pub open spec fn expanded_size(size: int, bytes: int, chunk_size: int) -> int {
    round_up(size + bytes, chunk_size)
}

/// Growing a device: the new size is at least the old one plus the growth, a
/// whole number of chunks, and larger than the old one when it grew at all.
pub proof fn lemma_expand(size: nat, bytes: nat, chunk_size: nat)
    requires
        chunk_size > 0,
    ensures
        expanded_size(size as int, bytes as int, chunk_size as int) >= size + bytes,
        expanded_size(size as int, bytes as int, chunk_size as int) % (chunk_size as int) == 0,
        bytes > 0 ==> expanded_size(size as int, bytes as int, chunk_size as int) > size,
{
    lemma_round_up((size + bytes) as int, chunk_size as int);
}

/// The shift that a block size is advertised with.
pub open spec fn shift_of(size: u16) -> Result<u8, ConfigError> {
    if size == 0 {
        Err(ConfigError::InvalidLimit)
    } else {
        Ok(log2(size as nat) as u8)
    }
}

/// `text` followed by a line `name value`.
pub open spec fn with_line(text: Seq<char>, name: Seq<char>, value: Seq<char>) -> Seq<char> {
    text + name + seq![' '] + value + seq!['\n']
}

/// `true` or `false`.
pub open spec fn bool_text(b: bool) -> Seq<char> {
    if b { "true"@ } else { "false"@ }
}

/// The text of a configuration file that holds `c`.
pub open spec fn config_text(c: Config) -> Seq<char> {
    let t = with_line(Seq::empty(), "version"@, decimal(1));
    let t = match c.dev_id { Some(v) => with_line(t, "dev-id"@, decimal(v as nat)), None => t };
    let t = with_line(t, "size"@, decimal(c.size as nat));
    let t = with_line(t, "chunk-size"@, decimal(c.chunk_size as nat));
    let t = match c.threads { Some(v) => with_line(t, "threads"@, decimal(v as nat)), None => t };
    let t = match c.fsuid { Some(v) => with_line(t, "fsuid"@, decimal(v as nat)), None => t };
    let t = match c.fsgid { Some(v) => with_line(t, "fsgid"@, decimal(v as nat)), None => t };
    match c.direct_io { Some(v) => with_line(t, "direct-io"@, bool_text(v)), None => t }
}

/// Appends the line `name value`, with a decimal value.
fn push_line(text: &mut String, name: &str, value: u64)
    ensures
        final(text)@ == with_line(old(text)@, name@, decimal(value as nat)),
{
    proof {
        reveal_strlit(" ");
        reveal_strlit("\n");
    }
    text.append(name);
    text.append(" ");
    push_decimal(text, value);
    text.append("\n");
}

impl Config {
    /// A configuration of the current version, with no limits loaded.
    pub fn new(
        repository: String,
        dev_id: Option<u32>,
        size: u64,
        chunk_size: u64,
        threads: Option<u16>,
        fsuid: Option<u32>,
        fsgid: Option<u32>,
        direct_io: Option<bool>,
    ) -> (r: Config)
        ensures
            r.version == 1,
            r.repository == repository,
            r.dev_id == dev_id,
            r.size == size,
            r.chunk_size == chunk_size,
            r.threads == threads,
            r.fsuid == fsuid,
            r.fsgid == fsgid,
            r.direct_io == direct_io,
            r.queue_limits is None,
    {
        Config {
            version: 1,
            repository,
            dev_id,
            size,
            chunk_size,
            threads,
            fsuid,
            fsgid,
            direct_io,
            queue_limits: None,
        }
    }

    /// Grows the device by `bytes`, rounded up to whole chunks. Fails, and
    /// changes nothing, where the chunk size is zero or the new size does not
    /// fit in a `u64`.
    pub fn expand_size_by_bytes(&mut self, bytes: u64) -> (r: Result<(), ConfigError>)
        ensures
            ({
                let ok = old(self).chunk_size > 0 && expanded_size(
                    old(self).size as int,
                    bytes as int,
                    old(self).chunk_size as int,
                ) <= u64::MAX;
                &&& ok ==> r is Ok && final(self).size == expanded_size(
                    old(self).size as int,
                    bytes as int,
                    old(self).chunk_size as int,
                ) && *final(self) == (Config { size: final(self).size, ..*old(self) })
                &&& !ok ==> r == Err::<(), ConfigError>(ConfigError::InvalidFinalSize) && *final(self) == *old(self)
            }),
    {
        match self.size.checked_add(bytes) {
            Some(total) => match checked_next_multiple_of(total, self.chunk_size) {
                Some(size) => {
                    self.size = size;
                    Ok(())
                },
                None => Err(ConfigError::InvalidFinalSize),
            },
            None => {
                proof {
                    if self.chunk_size > 0 {
                        lemma_round_up(self.size + bytes, self.chunk_size as int);
                    }
                }
                Err(ConfigError::InvalidFinalSize)
            },
        }
    }

    pub fn version(&self) -> (r: u8)
        ensures
            r == self.version,
    {
        self.version
    }

    /// The device id, or `u32::MAX` (let the driver choose) where unset.
    pub fn dev_id(&self) -> (r: u32)
        ensures
            r == match self.dev_id {
                Some(v) => v,
                None => u32::MAX,
            },
    {
        match self.dev_id {
            Some(v) => v,
            None => u32::MAX,
        }
    }

    /// The number of I/O threads, or `cpus` where unset.
    pub fn threads(&self, cpus: u16) -> (r: u16)
        ensures
            r == match self.threads {
                Some(v) => v,
                None => cpus,
            },
    {
        match self.threads {
            Some(v) => v,
            None => cpus,
        }
    }

    /// Whether chunk files are opened for direct I/O; off where unset.
    pub fn direct_io(&self) -> (r: bool)
        ensures
            r == (self.direct_io == Some(true)),
    {
        match self.direct_io {
            Some(v) => v,
            None => false,
        }
    }

    /// The base-2 shift of the logical block size.
    pub fn logical_bs_shift(&self) -> (r: Result<u8, ConfigError>)
        ensures
            r == match self.queue_limits {
                Some(l) => shift_of(l.logical_block_size),
                None => Err(ConfigError::LimitsNotLoaded),
            },
    {
        match &self.queue_limits {
            Some(l) => shift(l.logical_block_size),
            None => Err(ConfigError::LimitsNotLoaded),
        }
    }

    /// The base-2 shift of the physical block size.
    pub fn physical_bs_shift(&self) -> (r: Result<u8, ConfigError>)
        ensures
            r == match self.queue_limits {
                Some(l) => shift_of(l.physical_block_size),
                None => Err(ConfigError::LimitsNotLoaded),
            },
    {
        match &self.queue_limits {
            Some(l) => shift(l.physical_block_size),
            None => Err(ConfigError::LimitsNotLoaded),
        }
    }

    /// The base-2 shift of the minimum I/O size.
    pub fn io_min_shift(&self) -> (r: Result<u8, ConfigError>)
        ensures
            r == match self.queue_limits {
                Some(l) => shift_of(l.minimum_io_size),
                None => Err(ConfigError::LimitsNotLoaded),
            },
    {
        match &self.queue_limits {
            Some(l) => shift(l.minimum_io_size),
            None => Err(ConfigError::LimitsNotLoaded),
        }
    }

    /// The base-2 shift of the optimal I/O size; zero where that size is zero.
    pub fn io_opt_shift(&self) -> (r: Result<u8, ConfigError>)
        ensures
            r == match self.queue_limits {
                Some(l) => if l.optimal_io_size == 0 {
                    Ok(0u8)
                } else {
                    shift_of(l.optimal_io_size)
                },
                None => Err(ConfigError::LimitsNotLoaded),
            },
    {
        match &self.queue_limits {
            Some(l) => if l.optimal_io_size == 0 {
                Ok(0)
            } else {
                shift(l.optimal_io_size)
            },
            None => Err(ConfigError::LimitsNotLoaded),
        }
    }

    pub fn dma_alignment(&self) -> (r: Result<u32, ConfigError>)
        ensures
            r == match self.queue_limits {
                Some(l) => Ok(l.dma_alignment as u32),
                None => Err(ConfigError::LimitsNotLoaded),
            },
    {
        match &self.queue_limits {
            Some(l) => Ok(l.dma_alignment as u32),
            None => Err(ConfigError::LimitsNotLoaded),
        }
    }

    pub fn write_cache(&self) -> (r: Result<bool, ConfigError>)
        ensures
            r == match self.queue_limits {
                Some(l) => Ok(l.write_cache),
                None => Err(ConfigError::LimitsNotLoaded),
            },
    {
        match &self.queue_limits {
            Some(l) => Ok(l.write_cache),
            None => Err(ConfigError::LimitsNotLoaded),
        }
    }

    pub fn fua(&self) -> (r: Result<bool, ConfigError>)
        ensures
            r == match self.queue_limits {
                Some(l) => Ok(l.fua),
                None => Err(ConfigError::LimitsNotLoaded),
            },
    {
        match &self.queue_limits {
            Some(l) => Ok(l.fua),
            None => Err(ConfigError::LimitsNotLoaded),
        }
    }

    /// The path of the configuration file: `config` under the repository.
    pub fn config_path(&self) -> (r: String)
        ensures
            r@ == join_path(self.repository@, "config"@),
    {
        join(&self.repository, "config")
    }

    /// The text of the configuration file.
    pub fn to_string(&self) -> (r: String)
        ensures
            r@ == config_text(*self),
    {
        proof {
            reveal_strlit("true");
            reveal_strlit("false");
        }
        let mut text = String::new();
        push_line(&mut text, "version", 1);
        if let Some(v) = self.dev_id {
            push_line(&mut text, "dev-id", v as u64);
        }
        push_line(&mut text, "size", self.size);
        push_line(&mut text, "chunk-size", self.chunk_size);
        if let Some(v) = self.threads {
            push_line(&mut text, "threads", v as u64);
        }
        if let Some(v) = self.fsuid {
            push_line(&mut text, "fsuid", v as u64);
        }
        if let Some(v) = self.fsgid {
            push_line(&mut text, "fsgid", v as u64);
        }
        if let Some(v) = self.direct_io {
            proof {
                reveal_strlit(" ");
                reveal_strlit("\n");
            }
            text.append("direct-io");
            text.append(" ");
            text.append(if v { "true" } else { "false" });
            text.append("\n");
        }
        text
    }
}

/// The shift of a block size.
fn shift(size: u16) -> (r: Result<u8, ConfigError>)
    ensures
        r == shift_of(size),
{
    if size == 0 {
        Err(ConfigError::InvalidLimit)
    } else {
        Ok(ilog2(size))
    }
}

/// `name` appended to the path `dir`, with a separator unless `dir` is empty
/// or already ends in one.
pub open spec fn join_path(dir: Seq<char>, name: Seq<char>) -> Seq<char> {
    if dir.len() == 0 || dir.last() == '/' {
        dir + name
    } else {
        dir + seq!['/'] + name
    }
}

/// `name` appended to the path `dir`.
pub fn join(dir: &String, name: &str) -> (r: String)
    ensures
        r@ == join_path(dir@, name@),
{
    let mut out = dir.clone();
    proof {
        reveal_strlit("/");
    }
    let n = dir.as_str().unicode_len();
    if n > 0 && dir.as_str().get_char(n - 1) != '/' {
        out.append("/");
    }
    out.append(name);
    out
}

} // verus!
