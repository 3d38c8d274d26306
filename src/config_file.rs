//! The configuration file: one `name value` setting per line; lines that
//! start with `#` are comments.
use vstd::prelude::*;

use crate::config::{Config, ConfigError, Setting};
use crate::text::{parse_dec, parse_unsigned};

verus! {

/// The settings read so far.
#[derive(Debug, Clone, Copy, PartialEq, Eq, Structural)]
pub struct Settings {
    pub version: Option<u8>,
    pub dev_id: Option<u32>,
    pub size: Option<u64>,
    pub chunk_size: Option<u64>,
    pub threads: Option<u16>,
    pub fsuid: Option<u32>,
    pub fsgid: Option<u32>,
    pub direct_io: Option<bool>,
}

/// The bytes of a string literal.
pub open spec fn lit(s: &str) -> Seq<u8> {
    vstd::utf8::encode_utf8(s@)
}

/// Where the line that starts at `i` ends: at the next newline, or at the end.
pub open spec fn line_end(s: Seq<u8>, i: int) -> int
    decreases s.len() - i,
{
    if i >= s.len() {
        s.len() as int
    } else if s[i] == 10 {
        i
    } else {
        line_end(s, i + 1)
    }
}

/// The line from `i` to `end`, without the carriage return of a `\r\n` ending.
pub open spec fn line_at(s: Seq<u8>, i: int, end: int) -> Seq<u8> {
    if end < s.len() && end > i && s[end - 1] == 13 {
        s.subrange(i, end - 1)
    } else {
        s.subrange(i, end)
    }
}

/// Where the first space of `line` is, if it has one.
pub open spec fn space_in(line: Seq<u8>, i: int) -> Option<int>
    decreases line.len() - i,
{
    if i >= line.len() {
        None
    } else if line[i] == 32 {
        Some(i)
    } else {
        space_in(line, i + 1)
    }
}

/// The value of a boolean setting: `1`, `on`, `true`, `0`, `off`, `false`.
pub open spec fn bool_value(v: Seq<u8>) -> Option<bool> {
    if v == lit("1") || v == lit("on") || v == lit("true") {
        Some(true)
    } else if v == lit("0") || v == lit("off") || v == lit("false") {
        Some(false)
    } else {
        None
    }
}

/// The number of a setting whose type's largest value is `max`.
pub open spec fn num_setting(which: Setting, v: Seq<u8>, max: nat) -> Result<nat, ConfigError> {
    match parse_unsigned(v, max) {
        Some(n) => Ok(n),
        None => Err(ConfigError::InvalidValue(which)),
    }
}

/// The settings after one line.
pub open spec fn apply_line(st: Settings, line: Seq<u8>) -> Result<Settings, ConfigError> {
    if line.len() > 0 && line[0] == 35 {
        Ok(st)
    } else {
        match space_in(line, 0) {
            None => Err(ConfigError::MissingValue),
            Some(sp) => {
                let name = line.subrange(0, sp);
                let v = line.subrange(sp + 1, line.len() as int);
                if name == lit("version") {
                    match num_setting(Setting::Version, v, u8::MAX as nat) {
                        Ok(n) => Ok(Settings { version: Some(n as u8), ..st }),
                        Err(e) => Err(e),
                    }
                } else if name == lit("dev-id") {
                    match num_setting(Setting::DevId, v, u32::MAX as nat) {
                        Ok(n) => Ok(Settings { dev_id: Some(n as u32), ..st }),
                        Err(e) => Err(e),
                    }
                } else if name == lit("size") {
                    match num_setting(Setting::Size, v, u64::MAX as nat) {
                        Ok(n) => Ok(Settings { size: Some(n as u64), ..st }),
                        Err(e) => Err(e),
                    }
                } else if name == lit("chunk-size") {
                    match num_setting(Setting::ChunkSize, v, u64::MAX as nat) {
                        Ok(n) => Ok(Settings { chunk_size: Some(n as u64), ..st }),
                        Err(e) => Err(e),
                    }
                } else if name == lit("threads") {
                    match num_setting(Setting::Threads, v, u16::MAX as nat) {
                        Ok(n) => Ok(Settings { threads: Some(n as u16), ..st }),
                        Err(e) => Err(e),
                    }
                } else if name == lit("fsuid") {
                    match num_setting(Setting::Fsuid, v, u32::MAX as nat) {
                        Ok(n) => Ok(Settings { fsuid: Some(n as u32), ..st }),
                        Err(e) => Err(e),
                    }
                } else if name == lit("fsgid") {
                    match num_setting(Setting::Fsgid, v, u32::MAX as nat) {
                        Ok(n) => Ok(Settings { fsgid: Some(n as u32), ..st }),
                        Err(e) => Err(e),
                    }
                } else if name == lit("direct-io") {
                    match bool_value(v) {
                        Some(b) => Ok(Settings { direct_io: Some(b), ..st }),
                        None => Err(ConfigError::InvalidValue(Setting::DirectIo)),
                    }
                } else {
                    Err(ConfigError::UnknownSetting)
                }
            },
        }
    }
}

/// The settings after the lines of `s` from byte `i` on.
pub open spec fn apply_lines(s: Seq<u8>, i: int, st: Settings) -> Result<Settings, ConfigError>
    decreases s.len() - i,
{
    if i < 0 || i >= s.len() {
        Ok(st)
    } else {
        let end = line_end(s, i);
        match apply_line(st, line_at(s, i, end)) {
            Ok(next) => if i <= end < s.len() {
                apply_lines(s, end + 1, next)
            } else {
                Ok(next)
            },
            Err(e) => Err(e),
        }
    }
}

pub open spec fn no_settings() -> Settings {
    Settings {
        version: None,
        dev_id: None,
        size: None,
        chunk_size: None,
        threads: None,
        fsuid: None,
        fsgid: None,
        direct_io: None,
    }
}

/// The configuration of the repository at `repository` whose file holds `text`.
pub open spec fn config_of(repository: String, text: Seq<u8>) -> Result<Config, ConfigError> {
    match apply_lines(text, 0, no_settings()) {
        Err(e) => Err(e),
        Ok(st) => match (st.version, st.size, st.chunk_size) {
            (None, _, _) => Err(ConfigError::Missing(Setting::Version)),
            (Some(_), None, _) => Err(ConfigError::Missing(Setting::Size)),
            (Some(_), Some(_), None) => Err(ConfigError::Missing(Setting::ChunkSize)),
            (Some(version), Some(size), Some(chunk_size)) => Ok(Config {
                version,
                repository,
                dev_id: st.dev_id,
                size,
                chunk_size,
                threads: st.threads,
                fsuid: st.fsuid,
                fsgid: st.fsgid,
                direct_io: st.direct_io,
                queue_limits: None,
            }),
        },
    }
}

/// Bytes `from` to `to` of `s`.
fn copy_range(s: &[u8], from: usize, to: usize) -> (r: Vec<u8>)
    requires
        from <= to <= s@.len(),
    ensures
        r@ == s@.subrange(from as int, to as int),
{
    let mut r: Vec<u8> = Vec::new();
    let mut i = from;
    while i < to
        invariant
            from <= i <= to <= s@.len(),
            r@ == s@.subrange(from as int, i as int),
        decreases to - i,
    {
        r.push(s[i]);
        i = i + 1;
        assert(r@ == s@.subrange(from as int, i as int));
    }
    r
}

/// Whether `a` holds the bytes of `b`.
fn eq_lit(a: &[u8], b: &str) -> (r: bool)
    ensures
        r == (a@ == lit(b)),
{
    let bb = b.as_bytes();
    if a.len() != bb.len() {
        return false;
    }
    let mut i: usize = 0;
    while i < a.len()
        invariant
            i <= a@.len() == bb@.len(),
            bb@ == lit(b),
            a@.subrange(0, i as int) == bb@.subrange(0, i as int),
        decreases a@.len() - i,
    {
        if a[i] != bb[i] {
            proof {
                assert(a@[i as int] != bb@[i as int]);
            }
            return false;
        }
        i = i + 1;
        assert(a@.subrange(0, i as int) == bb@.subrange(0, i as int));
    }
    proof {
        assert(a@ == a@.subrange(0, i as int));
        assert(bb@ == bb@.subrange(0, i as int));
    }
    true
}

fn parse_bool(v: &[u8]) -> (r: Option<bool>)
    ensures
        r == bool_value(v@),
{
    if eq_lit(v, "1") || eq_lit(v, "on") || eq_lit(v, "true") {
        Some(true)
    } else if eq_lit(v, "0") || eq_lit(v, "off") || eq_lit(v, "false") {
        Some(false)
    } else {
        None
    }
}

fn parse_num(which: Setting, v: &[u8], max: u64) -> (r: Result<u64, ConfigError>)
    ensures
        r == (match num_setting(which, v@, max as nat) {
            Ok(n) => Ok(n as u64),
            Err(e) => Err(e),
        }),
{
    match parse_dec(v, max) {
        Some(n) => Ok(n),
        None => Err(ConfigError::InvalidValue(which)),
    }
}

/// The settings after the line `line`.
fn read_line(st: Settings, line: &[u8]) -> (r: Result<Settings, ConfigError>)
    ensures
        r == apply_line(st, line@),
{
    if line.len() > 0 && line[0] == 35 {
        return Ok(st);
    }
    let mut sp: usize = 0;
    while sp < line.len() && line[sp] != 32
        invariant
            sp <= line@.len(),
            space_in(line@, sp as int) == space_in(line@, 0),
        decreases line@.len() - sp,
    {
        sp = sp + 1;
    }
    if sp == line.len() {
        return Err(ConfigError::MissingValue);
    }
    let name = copy_range(line, 0, sp);
    let v = copy_range(line, sp + 1, line.len());
    let name = name.as_slice();
    let v = v.as_slice();
    let mut st = st;
    if eq_lit(name, "version") {
        st.version = Some(parse_num(Setting::Version, v, u8::MAX as u64)? as u8);
    } else if eq_lit(name, "dev-id") {
        st.dev_id = Some(parse_num(Setting::DevId, v, u32::MAX as u64)? as u32);
    } else if eq_lit(name, "size") {
        st.size = Some(parse_num(Setting::Size, v, u64::MAX)?);
    } else if eq_lit(name, "chunk-size") {
        st.chunk_size = Some(parse_num(Setting::ChunkSize, v, u64::MAX)?);
    } else if eq_lit(name, "threads") {
        st.threads = Some(parse_num(Setting::Threads, v, u16::MAX as u64)? as u16);
    } else if eq_lit(name, "fsuid") {
        st.fsuid = Some(parse_num(Setting::Fsuid, v, u32::MAX as u64)? as u32);
    } else if eq_lit(name, "fsgid") {
        st.fsgid = Some(parse_num(Setting::Fsgid, v, u32::MAX as u64)? as u32);
    } else if eq_lit(name, "direct-io") {
        match parse_bool(v) {
            Some(b) => st.direct_io = Some(b),
            None => return Err(ConfigError::InvalidValue(Setting::DirectIo)),
        }
    } else {
        return Err(ConfigError::UnknownSetting);
    }
    Ok(st)
}

/// Reads the settings of a configuration file's text.
fn read_config_file(repository: String, s: &[u8]) -> (r: Result<Config, ConfigError>)
    ensures
        r == config_of(repository, s@),
{
    let mut st = Settings {
        version: None,
        dev_id: None,
        size: None,
        chunk_size: None,
        threads: None,
        fsuid: None,
        fsgid: None,
        direct_io: None,
    };
    let mut i: usize = 0;
    while i < s.len()
        invariant
            i <= s@.len(),
            apply_lines(s@, i as int, st) == apply_lines(s@, 0, no_settings()),
        decreases s@.len() - i,
    {
        let mut end = i;
        while end < s.len() && s[end] != 10
            invariant
                i <= end <= s@.len(),
                line_end(s@, end as int) == line_end(s@, i as int),
            decreases s@.len() - end,
        {
            end = end + 1;
        }
        let stop = if end < s.len() && end > i && s[end - 1] == 13 {
            end - 1
        } else {
            end
        };
        let line = copy_range(s, i, stop);
        st = read_line(st, line.as_slice())?;
        if end < s.len() {
            i = end + 1;
        } else {
            i = s.len();
        }
    }
    match (st.version, st.size, st.chunk_size) {
        (None, _, _) => Err(ConfigError::Missing(Setting::Version)),
        (Some(_), None, _) => Err(ConfigError::Missing(Setting::Size)),
        (Some(_), Some(_), None) => Err(ConfigError::Missing(Setting::ChunkSize)),
        (Some(version), Some(size), Some(chunk_size)) => Ok(Config {
            version,
            repository,
            dev_id: st.dev_id,
            size,
            chunk_size,
            threads: st.threads,
            fsuid: st.fsuid,
            fsgid: st.fsgid,
            direct_io: st.direct_io,
            queue_limits: None,
        }),
    }
}

impl Config {
    /// The configuration of the repository at `repository`, from the text of
    /// its configuration file.
    pub fn from_repository(repository: String, contents: &str) -> (r: Result<Config, ConfigError>)
        ensures
            r == config_of(repository, lit(contents)),
    {
        read_config_file(repository, contents.as_bytes())
    }
}

} // verus!
