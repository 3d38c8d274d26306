//! The command line: `<binary> <command> [flags]`.
use vstd::prelude::*;

use crate::arith::{checked_next_multiple_of, lemma_round_up, round_up};
use crate::config::Config;
use crate::text::{parse_dec, parse_unsigned, prefix};

verus! {

/// Print the version.
#[derive(Debug)]
pub struct Version;

/// Print the help text.
#[derive(Debug)]
pub struct Help;

/// Create a repository with this configuration.
#[derive(Debug)]
pub struct Init {
    pub config: Config,
}

impl Init {
    pub fn new(config: Config) -> (r: Init)
        ensures
            r.config == config,
    {
        Init { config }
    }
}

/// Serve the repository at this path.
#[derive(Debug)]
pub struct Start {
    pub repository: String,
}

impl Start {
    pub fn new(repository: String) -> (r: Start)
        ensures
            r.repository == repository,
    {
        Start { repository }
    }
}

/// Grow the device of the repository at this path by `bytes`.
#[derive(Debug)]
pub struct Expand {
    pub repository: String,
    pub bytes: u64,
}

impl Expand {
    pub fn new(repository: String, bytes: u64) -> (r: Expand)
        ensures
            r.repository == repository,
            r.bytes == bytes,
    {
        Expand { repository, bytes }
    }
}

/// A parsed command line.
#[derive(Debug)]
pub enum Command {
    Version(Version),
    Help(Help),
    Init(Init),
    Start(Start),
    Expand(Expand),
}

/// A flag that takes a value.
#[derive(Debug, Clone, Copy, PartialEq, Eq, Structural)]
pub enum Flag {
    Repository,
    DevId,
    Size,
    ChunkSize,
    Threads,
    Fsuid,
    Fsgid,
    Bytes,
}

/// Why a command line was refused.
#[derive(Debug, Clone, PartialEq, Eq)]
pub enum CliError {
    /// Not even the program name is there.
    InvalidInvocation,
    /// The first argument is no command.
    NoCommand,
    /// A flag the command does not take.
    UnknownFlag(String),
    /// A flag at the end, without its value.
    MissingValue(Flag),
    /// A value that is not valid for its flag.
    InvalidValue(Flag),
    /// A required flag is absent.
    Missing(Flag),
    /// The size is below 256 MiB.
    SizeTooSmall,
    /// The chunk size is below 32 MiB.
    ChunkSizeTooSmall,
    /// The chunk size, rounded up to 4 KiB, does not fit.
    InvalidChunkSize,
    /// The size, rounded up to whole chunks, does not fit.
    InvalidSize,
}

pub const MIB: u64 = 1_048_576;

/// Smallest device size: 256 MiB.
pub const MIN_SIZE: u64 = 268_435_456;

/// Smallest chunk size: 32 MiB.
pub const MIN_CHUNK_SIZE: u64 = 33_554_432;

/// Default chunk size: 512 MiB.
pub const DEFAULT_CHUNK_SIZE: u64 = 536_870_912;

/// The bytes of a string, as UTF-8.
pub open spec fn bytes_of(s: String) -> Seq<u8> {
    vstd::utf8::encode_utf8(s@)
}

/// The multiplier a size suffix stands for: `M`, `G` and `T` in either case,
/// powers of 1024.
pub open spec fn suffix_multiplier(c: u8) -> nat {
    if c == 109 || c == 77 {
        1_048_576
    } else if c == 103 || c == 71 {
        1_073_741_824
    } else if c == 116 || c == 84 {
        1_099_511_627_776
    } else {
        1
    }
}

/// The value of a size: a number with an optional suffix; `None` where it is
/// not valid or does not fit in a `u64`.
pub open spec fn size_value(b: Seq<u8>) -> Option<nat> {
    let m = if b.len() > 0 { suffix_multiplier(b.last()) } else { 1 };
    let digits = if m != 1 { b.drop_last() } else { b };
    match parse_unsigned(digits, u64::MAX as nat) {
        Some(v) => if v * m <= u64::MAX { Some(v * m) } else { None },
        None => None,
    }
}

/// The value of a size flag.
pub open spec fn size_arg(flag: Flag, val: Option<String>) -> Result<u64, CliError> {
    match val {
        None => Err(CliError::MissingValue(flag)),
        Some(s) => match size_value(bytes_of(s)) {
            Some(v) => Ok(v as u64),
            None => Err(CliError::InvalidValue(flag)),
        },
    }
}

/// The value of a numeric flag whose type's largest value is `max`.
pub open spec fn num_arg(flag: Flag, val: Option<String>, max: nat) -> Result<u64, CliError> {
    match val {
        None => Err(CliError::MissingValue(flag)),
        Some(s) => match parse_unsigned(bytes_of(s), max) {
            Some(v) => Ok(v as u64),
            None => Err(CliError::InvalidValue(flag)),
        },
    }
}

/// The value of a path flag: any string but the empty one.
pub open spec fn path_arg(flag: Flag, val: Option<String>) -> Result<String, CliError> {
    match val {
        None => Err(CliError::MissingValue(flag)),
        Some(s) => if s@.len() == 0 {
            Err(CliError::InvalidValue(flag))
        } else {
            Ok(s)
        },
    }
}

fn is_arg(a: &String, lit: &str) -> (r: bool)
    ensures
        r == (a@ == lit@),
{
    *a == String::from_str(lit)
}

fn arg_at(args: &Vec<String>, i: usize) -> (r: Option<String>)
    ensures
        r == (if i < args@.len() { Some(args@[i as int]) } else { None::<String> }),
{
    if i < args.len() {
        Some(args[i].clone())
    } else {
        None
    }
}

/// Parses a size with an optional `M`, `G` or `T` suffix.
fn parse_size(flag: Flag, val: Option<String>) -> (r: Result<u64, CliError>)
    ensures
        r == size_arg(flag, val),
{
    let val = match val {
        Some(v) => v,
        None => return Err(CliError::MissingValue(flag)),
    };
    let b = val.as_str().as_bytes();
    let n = b.len();
    let mul: u64 = if n == 0 {
        1
    } else {
        let c = b[n - 1];
        if c == 109 || c == 77 {
            1_048_576
        } else if c == 103 || c == 71 {
            1_073_741_824
        } else if c == 116 || c == 84 {
            1_099_511_627_776
        } else {
            1
        }
    };
    let digits = if mul != 1 {
        prefix(b, n - 1)
    } else {
        prefix(b, n)
    };
    proof {
        assert(b@ == bytes_of(val));
        assert(b@.subrange(0, n as int) == b@);
        if n > 0 {
            assert(b@.subrange(0, n - 1) == b@.drop_last());
        }
    }
    match parse_dec(digits.as_slice(), u64::MAX) {
        Some(v) => match v.checked_mul(mul) {
            Some(x) => Ok(x),
            None => Err(CliError::InvalidValue(flag)),
        },
        None => Err(CliError::InvalidValue(flag)),
    }
}

/// Parses an unsigned number no larger than `max`.
fn parse_num(flag: Flag, val: Option<String>, max: u64) -> (r: Result<u64, CliError>)
    ensures
        r == num_arg(flag, val, max as nat),
{
    let val = match val {
        Some(v) => v,
        None => return Err(CliError::MissingValue(flag)),
    };
    match parse_dec(val.as_str().as_bytes(), max) {
        Some(v) => Ok(v),
        None => Err(CliError::InvalidValue(flag)),
    }
}

/// Takes a path; only the empty path is refused. Making it absolute is left
/// to the caller, which knows the working directory.
fn parse_path(flag: Flag, val: Option<String>) -> (r: Result<String, CliError>)
    ensures
        r == path_arg(flag, val),
{
    match val {
        Some(v) => if v.as_str().is_empty() {
            Err(CliError::InvalidValue(flag))
        } else {
            Ok(v)
        },
        None => Err(CliError::MissingValue(flag)),
    }
}

} // verus!

verus! {

/// The flags of `init` read so far.
#[derive(Debug, Clone)]
pub struct InitFlags {
    pub repository: Option<String>,
    pub dev_id: Option<u32>,
    pub size: Option<u64>,
    pub chunk_size: u64,
    pub threads: Option<u16>,
    pub fsuid: Option<u32>,
    pub fsgid: Option<u32>,
}

/// The value after a flag at the front of `args`.
pub open spec fn value_after(args: Seq<String>) -> Option<String> {
    if args.len() > 1 {
        Some(args[1])
    } else {
        None
    }
}

/// What follows a flag and its value.
pub open spec fn after_value(args: Seq<String>) -> Seq<String> {
    if args.len() > 2 {
        args.subrange(2, args.len() as int)
    } else {
        Seq::empty()
    }
}

/// Reading the flags of `init` from `args` on top of `st`: `Ok(None)` where
/// help is asked for, the flags read where all are known and valid.
pub open spec fn scan_init(args: Seq<String>, st: InitFlags) -> Result<Option<InitFlags>, CliError>
    decreases args.len(),
{
    if args.len() == 0 {
        Ok(Some(st))
    } else {
        let a = args[0]@;
        let v = value_after(args);
        let rest = after_value(args);
        if a == "--help"@ || a == "-h"@ {
            Ok(None)
        } else if a == "--repository"@ || a == "-r"@ {
            match path_arg(Flag::Repository, v) {
                Ok(p) => scan_init(rest, InitFlags { repository: Some(p), ..st }),
                Err(e) => Err(e),
            }
        } else if a == "--dev-id"@ {
            match num_arg(Flag::DevId, v, u32::MAX as nat) {
                Ok(n) => scan_init(rest, InitFlags { dev_id: Some(n as u32), ..st }),
                Err(e) => Err(e),
            }
        } else if a == "--size"@ {
            match size_arg(Flag::Size, v) {
                Ok(n) => scan_init(rest, InitFlags { size: Some(n), ..st }),
                Err(e) => Err(e),
            }
        } else if a == "--chunk-size"@ {
            match size_arg(Flag::ChunkSize, v) {
                Ok(n) => scan_init(rest, InitFlags { chunk_size: n, ..st }),
                Err(e) => Err(e),
            }
        } else if a == "--threads"@ {
            match num_arg(Flag::Threads, v, u16::MAX as nat) {
                Ok(n) => scan_init(rest, InitFlags { threads: Some(n as u16), ..st }),
                Err(e) => Err(e),
            }
        } else if a == "--fsuid"@ {
            match num_arg(Flag::Fsuid, v, u32::MAX as nat) {
                Ok(n) => scan_init(rest, InitFlags { fsuid: Some(n as u32), ..st }),
                Err(e) => Err(e),
            }
        } else if a == "--fsgid"@ {
            match num_arg(Flag::Fsgid, v, u32::MAX as nat) {
                Ok(n) => scan_init(rest, InitFlags { fsgid: Some(n as u32), ..st }),
                Err(e) => Err(e),
            }
        } else {
            Err(CliError::UnknownFlag(args[0]))
        }
    }
}

/// The chunk size and size a new repository gets: sizes below the minima are
/// refused; the chunk size is rounded up to 4 KiB and the size to whole chunks.
pub open spec fn init_sizes_of(size: u64, chunk_size: u64) -> Result<(u64, u64), CliError> {
    if size < MIN_SIZE {
        Err(CliError::SizeTooSmall)
    } else if chunk_size < MIN_CHUNK_SIZE {
        Err(CliError::ChunkSizeTooSmall)
    } else if round_up(chunk_size as int, 4096) > u64::MAX {
        Err(CliError::InvalidChunkSize)
    } else if round_up(size as int, round_up(chunk_size as int, 4096)) > u64::MAX {
        Err(CliError::InvalidSize)
    } else {
        let c = round_up(chunk_size as int, 4096);
        Ok((round_up(size as int, c) as u64, c as u64))
    }
}

/// Checks and rounds the sizes of a new repository; gives `(size, chunk_size)`.
pub fn init_sizes(size: u64, chunk_size: u64) -> (r: Result<(u64, u64), CliError>)
    ensures
        r == init_sizes_of(size, chunk_size),
{
    if size < MIN_SIZE {
        return Err(CliError::SizeTooSmall);
    }
    if chunk_size < MIN_CHUNK_SIZE {
        return Err(CliError::ChunkSizeTooSmall);
    }
    let chunk_size = match checked_next_multiple_of(chunk_size, 4096) {
        Some(c) => c,
        None => return Err(CliError::InvalidChunkSize),
    };
    let size = match checked_next_multiple_of(size, chunk_size) {
        Some(s) => s,
        None => return Err(CliError::InvalidSize),
    };
    Ok((size, chunk_size))
}

/// A new repository's sizes: the chunk size is a multiple of 4 KiB, the size
/// a multiple of the chunk size and no less than asked for.
pub proof fn lemma_init_sizes(size: u64, chunk_size: u64)
    requires
        size >= MIN_SIZE,
        chunk_size >= MIN_CHUNK_SIZE,
    ensures
        init_sizes_of(size, chunk_size) matches Ok((s, c)) ==> c % 4096 == 0 && s % c == 0 && s >= size
            && c >= chunk_size,
        chunk_size <= u64::MAX - 4096 && size <= u64::MAX - round_up(chunk_size as int, 4096)
            ==> init_sizes_of(size, chunk_size) is Ok,
{
    lemma_round_up(chunk_size as int, 4096);
    let c = round_up(chunk_size as int, 4096);
    lemma_round_up(size as int, c);
}

/// The `init` command that the flags read give.
pub open spec fn finish_init(st: InitFlags) -> Result<Command, CliError> {
    match st.repository {
        None => Err(CliError::Missing(Flag::Repository)),
        Some(repository) => match st.size {
            None => Err(CliError::Missing(Flag::Size)),
            Some(size) => match init_sizes_of(size, st.chunk_size) {
                Err(e) => Err(e),
                Ok((s, c)) => Ok(Command::Init(Init {
                    config: Config {
                        version: 1,
                        repository,
                        dev_id: st.dev_id,
                        size: s,
                        chunk_size: c,
                        threads: st.threads,
                        fsuid: st.fsuid,
                        fsgid: st.fsgid,
                        direct_io: None,
                        queue_limits: None,
                    },
                })),
            },
        },
    }
}

pub open spec fn init_start() -> InitFlags {
    InitFlags {
        repository: None,
        dev_id: None,
        size: None,
        chunk_size: DEFAULT_CHUNK_SIZE,
        threads: None,
        fsuid: None,
        fsgid: None,
    }
}

/// What `init` with these flags gives.
pub open spec fn init_command(args: Seq<String>) -> Result<Command, CliError> {
    match scan_init(args, init_start()) {
        Err(e) => Err(e),
        Ok(None) => Ok(Command::Help(Help)),
        Ok(Some(st)) => finish_init(st),
    }
}

/// What `init` gives, whatever its flags: where it gives a configuration,
/// the chunk size is a multiple of 4 KiB and no less than asked for, and the
/// size a multiple of the chunk size and no less than asked for.
pub proof fn lemma_init_command(args: Seq<String>)
    ensures
        init_command(args) matches Ok(Command::Init(i)) ==> {
            &&& i.config.chunk_size % 4096 == 0
            &&& i.config.size % i.config.chunk_size == 0
            &&& scan_init(args, init_start()) matches Ok(Some(st)) && st.size matches Some(s)
                && i.config.size >= s && i.config.chunk_size >= st.chunk_size
        },
{
    if let Ok(Some(st)) = scan_init(args, init_start()) {
        if let Some(s) = st.size {
            if s >= MIN_SIZE && st.chunk_size >= MIN_CHUNK_SIZE {
                lemma_init_sizes(s, st.chunk_size);
            }
        }
    }
}

/// The flags from `i` on.
pub open spec fn args_from(args: Seq<String>, i: int) -> Seq<String> {
    args.subrange(i, args.len() as int)
}

proof fn lemma_from_step(args: Seq<String>, i: int)
    requires
        0 <= i < args.len(),
    ensures
        value_after(args_from(args, i)) == (if i + 1 < args.len() { Some(args[i + 1]) } else { None::<String> }),
        i + 2 <= args.len() ==> after_value(args_from(args, i)) == args_from(args, i + 2),
        args_from(args, i)[0] == args[i],
{
    if i + 2 <= args.len() {
        if i + 2 == args.len() {
            assert(args_from(args, i + 2) =~= Seq::<String>::empty());
        } else {
            assert(after_value(args_from(args, i)) =~= args_from(args, i + 2));
        }
    }
}

/// Parses the flags of `init`, from `args[start]` on.
fn parse_init(args: &Vec<String>, start: usize) -> (r: Result<Command, CliError>)
    requires
        start <= args@.len(),
    ensures
        r == init_command(args_from(args@, start as int)),
{
    let mut st = InitFlags {
        repository: None,
        dev_id: None,
        size: None,
        chunk_size: DEFAULT_CHUNK_SIZE,
        threads: None,
        fsuid: None,
        fsgid: None,
    };
    let mut i = start;
    while i < args.len()
        invariant
            start <= i <= args@.len(),
            scan_init(args_from(args@, i as int), st) == scan_init(args_from(args@, start as int), init_start()),
        decreases args@.len() - i,
    {
        proof {
            lemma_from_step(args@, i as int);
        }
        let a = &args[i];
        let v = arg_at(args, i + 1);
        if is_arg(a, "--help") || is_arg(a, "-h") {
            return Ok(Command::Help(Help));
        } else if is_arg(a, "--repository") || is_arg(a, "-r") {
            st.repository = Some(parse_path(Flag::Repository, v)?);
        } else if is_arg(a, "--dev-id") {
            st.dev_id = Some(parse_num(Flag::DevId, v, u32::MAX as u64)? as u32);
        } else if is_arg(a, "--size") {
            st.size = Some(parse_size(Flag::Size, v)?);
        } else if is_arg(a, "--chunk-size") {
            st.chunk_size = parse_size(Flag::ChunkSize, v)?;
        } else if is_arg(a, "--threads") {
            st.threads = Some(parse_num(Flag::Threads, v, u16::MAX as u64)? as u16);
        } else if is_arg(a, "--fsuid") {
            st.fsuid = Some(parse_num(Flag::Fsuid, v, u32::MAX as u64)? as u32);
        } else if is_arg(a, "--fsgid") {
            st.fsgid = Some(parse_num(Flag::Fsgid, v, u32::MAX as u64)? as u32);
        } else {
            return Err(CliError::UnknownFlag(a.clone()));
        }
        i = i + 2;
    }
    proof {
        assert(args_from(args@, i as int) =~= Seq::<String>::empty());
    }
    let repository = match st.repository {
        Some(p) => p,
        None => return Err(CliError::Missing(Flag::Repository)),
    };
    let size = match st.size {
        Some(s) => s,
        None => return Err(CliError::Missing(Flag::Size)),
    };
    let (size, chunk_size) = init_sizes(size, st.chunk_size)?;
    Ok(Command::Init(Init::new(Config::new(
        repository,
        st.dev_id,
        size,
        chunk_size,
        st.threads,
        st.fsuid,
        st.fsgid,
        None,
    ))))
}

} // verus!

verus! {

/// Reading the flags of `start` (with `bytes`: `expand`) from `args` on top
/// of the repository and byte count read so far.
pub open spec fn scan_repo(
    args: Seq<String>,
    with_bytes: bool,
    repository: Option<String>,
    bytes: Option<u64>,
) -> Result<Option<(Option<String>, Option<u64>)>, CliError>
    decreases args.len(),
{
    if args.len() == 0 {
        Ok(Some((repository, bytes)))
    } else {
        let a = args[0]@;
        let v = value_after(args);
        let rest = after_value(args);
        if a == "--help"@ || a == "-h"@ {
            Ok(None)
        } else if a == "--repository"@ || a == "-r"@ {
            match path_arg(Flag::Repository, v) {
                Ok(p) => scan_repo(rest, with_bytes, Some(p), bytes),
                Err(e) => Err(e),
            }
        } else if with_bytes && a == "--bytes"@ {
            match size_arg(Flag::Bytes, v) {
                Ok(n) => scan_repo(rest, with_bytes, repository, Some(n)),
                Err(e) => Err(e),
            }
        } else {
            Err(CliError::UnknownFlag(args[0]))
        }
    }
}

/// What `start` with these flags gives.
pub open spec fn start_command(args: Seq<String>) -> Result<Command, CliError> {
    match scan_repo(args, false, None, None) {
        Err(e) => Err(e),
        Ok(None) => Ok(Command::Help(Help)),
        Ok(Some((None, _))) => Err(CliError::Missing(Flag::Repository)),
        Ok(Some((Some(repository), _))) => Ok(Command::Start(Start { repository })),
    }
}

/// What `expand` with these flags gives.
pub open spec fn expand_command(args: Seq<String>) -> Result<Command, CliError> {
    match scan_repo(args, true, None, None) {
        Err(e) => Err(e),
        Ok(None) => Ok(Command::Help(Help)),
        Ok(Some((None, _))) => Err(CliError::Missing(Flag::Repository)),
        Ok(Some((Some(_), None))) => Err(CliError::Missing(Flag::Bytes)),
        Ok(Some((Some(repository), Some(bytes)))) => Ok(Command::Expand(Expand { repository, bytes })),
    }
}

/// Reads the repository (and, `with_bytes`, the byte count) from `args[start]` on.
fn scan_repo_flags(args: &Vec<String>, start: usize, with_bytes: bool) -> (r: Result<
    Option<(Option<String>, Option<u64>)>,
    CliError,
>)
    requires
        start <= args@.len(),
    ensures
        r == scan_repo(args_from(args@, start as int), with_bytes, None, None),
{
    let mut repository: Option<String> = None;
    let mut bytes: Option<u64> = None;
    let mut i = start;
    while i < args.len()
        invariant
            start <= i <= args@.len(),
            scan_repo(args_from(args@, i as int), with_bytes, repository, bytes) == scan_repo(
                args_from(args@, start as int),
                with_bytes,
                None,
                None,
            ),
        decreases args@.len() - i,
    {
        proof {
            lemma_from_step(args@, i as int);
        }
        let a = &args[i];
        let v = arg_at(args, i + 1);
        if is_arg(a, "--help") || is_arg(a, "-h") {
            return Ok(None);
        } else if is_arg(a, "--repository") || is_arg(a, "-r") {
            repository = Some(parse_path(Flag::Repository, v)?);
        } else if with_bytes && is_arg(a, "--bytes") {
            bytes = Some(parse_size(Flag::Bytes, v)?);
        } else {
            return Err(CliError::UnknownFlag(a.clone()));
        }
        i = i + 2;
    }
    proof {
        assert(args_from(args@, i as int) =~= Seq::<String>::empty());
    }
    Ok(Some((repository, bytes)))
}

/// Parses the flags of `start`, from `args[start]` on.
fn parse_start(args: &Vec<String>, start: usize) -> (r: Result<Command, CliError>)
    requires
        start <= args@.len(),
    ensures
        r == start_command(args_from(args@, start as int)),
{
    match scan_repo_flags(args, start, false)? {
        None => Ok(Command::Help(Help)),
        Some((None, _)) => Err(CliError::Missing(Flag::Repository)),
        Some((Some(repository), _)) => Ok(Command::Start(Start::new(repository))),
    }
}

/// Parses the flags of `expand`, from `args[start]` on.
fn parse_expand(args: &Vec<String>, start: usize) -> (r: Result<Command, CliError>)
    requires
        start <= args@.len(),
    ensures
        r == expand_command(args_from(args@, start as int)),
{
    match scan_repo_flags(args, start, true)? {
        None => Ok(Command::Help(Help)),
        Some((None, _)) => Err(CliError::Missing(Flag::Repository)),
        Some((Some(_), None)) => Err(CliError::Missing(Flag::Bytes)),
        Some((Some(repository), Some(bytes))) => Ok(Command::Expand(Expand::new(repository, bytes))),
    }
}

/// What a command line gives; `args[0]` is the program's name.
pub open spec fn cli_command(args: Seq<String>) -> Result<Command, CliError> {
    if args.len() == 0 {
        Err(CliError::InvalidInvocation)
    } else if args.len() == 1 {
        Ok(Command::Help(Help))
    } else {
        let c = args[1]@;
        if c == "--version"@ || c == "-v"@ {
            Ok(Command::Version(Version))
        } else if c == "--help"@ || c == "-h"@ {
            Ok(Command::Help(Help))
        } else if c == "init"@ {
            init_command(args_from(args, 2))
        } else if c == "start"@ {
            start_command(args_from(args, 2))
        } else if c == "expand"@ {
            expand_command(args_from(args, 2))
        } else {
            Err(CliError::NoCommand)
        }
    }
}

/// Parses a command line; `args[0]` is the program's name. No command at all
/// asks for help.
pub fn parse_cli(args: &Vec<String>) -> (r: Result<Command, CliError>)
    ensures
        r == cli_command(args@),
{
    if args.len() == 0 {
        return Err(CliError::InvalidInvocation);
    }
    if args.len() == 1 {
        return Ok(Command::Help(Help));
    }
    let c = &args[1];
    if is_arg(c, "--version") || is_arg(c, "-v") {
        Ok(Command::Version(Version))
    } else if is_arg(c, "--help") || is_arg(c, "-h") {
        Ok(Command::Help(Help))
    } else if is_arg(c, "init") {
        parse_init(args, 2)
    } else if is_arg(c, "start") {
        parse_start(args, 2)
    } else if is_arg(c, "expand") {
        parse_expand(args, 2)
    } else {
        Err(CliError::NoCommand)
    }
}

} // verus!
