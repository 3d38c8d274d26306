//! Reading the limits of the block device under the repository from the
//! texts the kernel publishes for it.
use vstd::prelude::*;

use crate::config::QueueLimits;
use crate::text::{decimal, parse_dec, parse_unsigned, push_decimal};


verus! {

/// Unicode's White_Space property, which `char::is_whitespace` tests.
pub open spec fn is_white_space(c: char) -> bool {
    let u = c as u32;
    (0x9 <= u <= 0xd) || u == 0x20 || u == 0x85 || u == 0xa0 || u == 0x1680 || (0x2000 <= u <= 0x200a)
        || u == 0x2028 || u == 0x2029 || u == 0x202f || u == 0x205f || u == 0x3000
}

/// `s` without its leading white space.
pub open spec fn trim_start(s: Seq<char>) -> Seq<char>
    decreases s.len(),
{
    if s.len() > 0 && is_white_space(s[0]) {
        trim_start(s.drop_first())
    } else {
        s
    }
}

/// `s` without its trailing white space.
pub open spec fn trim_end(s: Seq<char>) -> Seq<char>
    decreases s.len(),
{
    if s.len() > 0 && is_white_space(s.last()) {
        trim_end(s.drop_last())
    } else {
        s
    }
}

/// `s` without leading and trailing white space.
pub open spec fn trimmed(s: Seq<char>) -> Seq<char> {
    trim_end(trim_start(s))
}

/// Relies on `str::trim`: the text without the leading and trailing
/// characters that have Unicode's White_Space property.
#[verifier::external_body]
fn trim(s: &str) -> (r: &str)
    ensures
        r@ == trimmed(s@),
{
    s.trim()
}

/// The major number of a Linux device number.
pub open spec fn major_of(dev: u64) -> u32 {
    (((dev & 0xfff00) >> 8) | ((dev & 0xffff_f000_0000_0000) >> 32)) as u32
}

/// The minor number of a Linux device number.
pub open spec fn minor_of(dev: u64) -> u32 {
    ((dev & 0xff) | ((dev & 0xfff_fff0_0000) >> 12)) as u32
}

/// Relies on libc's `major`: the major number of a Linux device number.
#[verifier::external_body]
fn dev_major(dev: u64) -> (r: u32)
    ensures
        r == major_of(dev),
{
    nix::libc::major(dev)
}

/// Relies on libc's `minor`: the minor number of a Linux device number.
#[verifier::external_body]
fn dev_minor(dev: u64) -> (r: u32)
    ensures
        r == minor_of(dev),
{
    nix::libc::minor(dev)
}

/// The directory of the queue limits of the device `major:minor`.
pub open spec fn limits_dir_of(major: u32, minor: u32) -> Seq<char> {
    "/sys/dev/block/"@ + decimal(major as nat) + ":"@ + decimal(minor as nat) + "/queue"@
}

/// The directory that holds the limits of the device numbered `dev`, or
/// `None` where the device is virtual (major number zero) and the defaults
/// hold.
pub fn limits_dir(dev: u64) -> (r: Option<String>)
    ensures
        major_of(dev) == 0 ==> r is None,
        major_of(dev) != 0 ==> (r matches Some(d) && d@ == limits_dir_of(major_of(dev), minor_of(dev))),
{
    let major = dev_major(dev);
    if major == 0 {
        return None;
    }
    let minor = dev_minor(dev);
    proof {
        reveal_strlit(":");
    }
    let mut d = String::from_str("/sys/dev/block/");
    push_decimal(&mut d, major as u64);
    d.append(":");
    push_decimal(&mut d, minor as u64);
    d.append("/queue");
    Some(d)
}

/// A numeric limit from its already trimmed text, or `default` where the text
/// is no `u16`.
fn int_limit_from_trimmed(t: &str, default: u16) -> (r: u16)
    ensures
        r == match parse_unsigned(vstd::utf8::encode_utf8(t@), u16::MAX as nat) {
            Some(v) => v as u16,
            None => default,
        },
{
    match parse_dec(t.as_bytes(), u16::MAX as u64) {
        Some(v) => v as u16,
        None => default,
    }
}

/// A numeric limit from the text of its file (`None`: unreadable): the
/// trimmed text as a `u16`, or `default`.
pub open spec fn int_limit_of(text: Option<&str>, default: u16) -> u16 {
    match text {
        None => default,
        Some(t) => match parse_unsigned(vstd::utf8::encode_utf8(trimmed(t@)), u16::MAX as nat) {
            Some(v) => v as u16,
            None => default,
        },
    }
}

/// A yes-or-no limit from the text of its file: whether the trimmed text is
/// `expected`; `default` where the file is unreadable.
pub open spec fn flag_limit_of(text: Option<&str>, expected: Seq<char>, default: bool) -> bool {
    match text {
        None => default,
        Some(t) => trimmed(t@) == expected,
    }
}

/// A numeric limit from the text of its file (`None`: unreadable), or
/// `default`.
pub fn int_limit(text: Option<&str>, default: u16) -> (r: u16)
    ensures
        r == int_limit_of(text, default),
{
    match text {
        None => default,
        Some(t) => int_limit_from_trimmed(trim(t), default),
    }
}

/// A yes-or-no limit from the text of its file: whether the trimmed text is
/// `expected`; `default` where the file is unreadable.
pub fn flag_limit(text: Option<&str>, expected: &str, default: bool) -> (r: bool)
    ensures
        r == flag_limit_of(text, expected@, default),
{
    match text {
        None => default,
        Some(t) => flag_from_trimmed(trim(t), expected),
    }
}

/// Whether an already trimmed text is `expected`.
fn flag_from_trimmed(t: &str, expected: &str) -> (r: bool)
    ensures
        r == (t@ == expected@),
{
    String::from_str(t) == String::from_str(expected)
}

/// The limits of a device from the texts of its seven limit files, in the
/// order logical and physical block size, minimum and optimal I/O size, DMA
/// alignment, write cache, force unit access (`None`: unreadable). Numbers
/// that cannot be read keep their defaults; the write cache is on where its
/// text is `write back` and force unit access where its text is `1`.
pub fn limits_from_texts(
    logical_block_size: Option<&str>,
    physical_block_size: Option<&str>,
    minimum_io_size: Option<&str>,
    optimal_io_size: Option<&str>,
    dma_alignment: Option<&str>,
    write_cache: Option<&str>,
    fua: Option<&str>,
) -> (r: QueueLimits)
    ensures
        r.logical_block_size == int_limit_of(logical_block_size, 512),
        r.physical_block_size == int_limit_of(physical_block_size, 4096),
        r.minimum_io_size == int_limit_of(minimum_io_size, 512),
        r.optimal_io_size == int_limit_of(optimal_io_size, 4096),
        r.dma_alignment == int_limit_of(dma_alignment, 511),
        r.write_cache == flag_limit_of(write_cache, "write back"@, true),
        r.fua == flag_limit_of(fua, "1"@, false),
{
    let d = QueueLimits::default();
    QueueLimits {
        logical_block_size: int_limit(logical_block_size, d.logical_block_size),
        physical_block_size: int_limit(physical_block_size, d.physical_block_size),
        minimum_io_size: int_limit(minimum_io_size, d.minimum_io_size),
        optimal_io_size: int_limit(optimal_io_size, d.optimal_io_size),
        dma_alignment: int_limit(dma_alignment, d.dma_alignment),
        write_cache: flag_limit(write_cache, "write back", d.write_cache),
        fua: flag_limit(fua, "1", d.fua),
    }
}

} // verus!
