//! The command line: `--pid <n> --address <a> (--read | --write <v>)`, turned
//! into an [`Invocation`] or an [`ArgError`].

use vstd::prelude::*;
use vstd::string::StrSliceExecFns;

verus! {

/// The operation to perform at the address.
#[derive(Clone, Copy, Debug, PartialEq, Eq, Structural)]
pub enum Operation {
    /// Read one value.
    Read,
    /// Write this value.
    Write(u32),
}

/// A validated request: which process, which address, which operation.
#[derive(Clone, Copy, Debug, PartialEq, Eq, Structural)]
pub struct Invocation {
    pub pid: u32,
    pub address: u64,
    pub operation: Operation,
}

/// Why a command line was refused.
#[derive(Clone, Debug, PartialEq, Eq)]
pub enum ArgError {
    /// Too few arguments to form a request.
    Usage,
    /// The value after `--address` is neither `0x` and hex digits nor decimal.
    InvalidAddress(String),
    /// The value after `--write` is not an unsigned 32-bit integer.
    InvalidWriteValue(String),
    /// An argument that is not a known flag, or a flag without its value.
    Malformed(String),
    /// No `--pid` with an unsigned 32-bit integer after it; a value that is
    /// not one leaves the pid unset.
    MissingPid,
    MissingAddress,
    /// Neither `--read` nor `--write` was given.
    MissingMode,
    /// Both `--read` and `--write` were given.
    ConflictingModes,
}

/// The value of a digit character in radixes up to 36.
pub open spec fn digit_value(c: char) -> Option<nat> {
    let u = c as u32;
    if 48 <= u <= 57 {
        Some((u - 48) as nat)
    } else if 97 <= u <= 122 {
        Some((u - 97 + 10) as nat)
    } else if 65 <= u <= 90 {
        Some((u - 65 + 10) as nat)
    } else {
        None
    }
}

/// The value of a string of digits of `radix`, most significant first; the
/// empty string stands for zero.
pub open spec fn digits_value(s: Seq<char>, radix: nat) -> Option<nat>
    decreases s.len(),
{
    if s.len() == 0 {
        Some(0)
    } else {
        match digits_value(s.drop_last(), radix) {
            Some(high) => match digit_value(s.last()) {
                Some(d) => if d < radix {
                    Some(high * radix + d)
                } else {
                    None
                },
                None => None,
            },
            None => None,
        }
    }
}

/// An optional `+` followed by one or more digits of `radix`.
pub open spec fn radix_value(s: Seq<char>, radix: nat) -> Option<nat> {
    let body = if s.len() > 0 && s[0] == '+' {
        s.drop_first()
    } else {
        s
    };
    if body.len() == 0 {
        None
    } else {
        digits_value(body, radix)
    }
}

/// A string read as a `u32` in `radix`: `None` unless well formed and in range.
pub open spec fn u32_value(s: Seq<char>, radix: nat) -> Option<u32> {
    match radix_value(s, radix) {
        Some(v) => if v <= u32::MAX {
            Some(v as u32)
        } else {
            None
        },
        None => None,
    }
}

/// A string read as a `u64` in `radix`: `None` unless well formed and in range.
pub open spec fn u64_value(s: Seq<char>, radix: nat) -> Option<u64> {
    match radix_value(s, radix) {
        Some(v) => if v <= u64::MAX {
            Some(v as u64)
        } else {
            None
        },
        None => None,
    }
}

/// Relies on `u32`'s `FromStr`: an optional `+` and then only decimal digits,
/// with a value that fits in a `u32`.
#[verifier::external_body]
fn parse_decimal_u32(s: &str) -> (r: Option<u32>)
    ensures
        r == u32_value(s@, 10),
{
    s.parse::<u32>().ok()
}

/// Relies on `u64::from_str_radix`: an optional `+` and then only digits of
/// `radix` (either case for letters), with a value that fits in a `u64`. It
/// panics on a radix outside 2 to 36.
#[verifier::external_body]
fn parse_u64_radix(s: &str, radix: u32) -> (r: Option<u64>)
    requires
        2 <= radix <= 36,
    ensures
        r == u64_value(s@, radix as nat),
{
    u64::from_str_radix(s, radix).ok()
}

/// An address: `0x` and hex digits, or decimal digits.
pub open spec fn address_value(s: Seq<char>) -> Option<u64> {
    if s.len() >= 2 && s[0] == '0' && s[1] == 'x' {
        u64_value(s.subrange(2, s.len() as int), 16)
    } else {
        u64_value(s, 10)
    }
}

/// Reads an address written as `0x` and hex digits, or as decimal digits.
pub fn parse_address(s: &str) -> (r: Option<u64>)
    ensures
        r == address_value(s@),
{
    let n: usize = s.unicode_len();
    if n >= 2 && s.get_char(0) == '0' && s.get_char(1) == 'x' {
        parse_u64_radix(s.substring_char(2, n), 16)
    } else {
        parse_u64_radix(s, 10)
    }
}

/// What the flags seen so far have set.
pub struct ArgScan {
    pub pid: Option<u32>,
    pub address: Option<u64>,
    pub read: bool,
    pub write: Option<u32>,
}

impl ArgScan {
    pub open spec fn start() -> ArgScan {
        ArgScan { pid: None, address: None, read: false, write: None }
    }
}

/// Reads the flags from position `i` on. A later flag of the same kind
/// replaces an earlier one. A `--pid` value that is not a `u32` leaves the pid
/// unset; any other bad argument ends the scan.
pub open spec fn scan_from(args: Seq<String>, i: int, s: ArgScan) -> Result<ArgScan, ArgError>
    decreases args.len() - i,
{
    if i >= args.len() {
        Ok(s)
    } else {
        let a = args[i]@;
        let has_value = i + 1 < args.len();
        if a == "--pid"@ && has_value {
            scan_from(args, i + 2, ArgScan { pid: u32_value(args[i + 1]@, 10), ..s })
        } else if a == "--address"@ && has_value {
            match address_value(args[i + 1]@) {
                Some(v) => scan_from(args, i + 2, ArgScan { address: Some(v), ..s }),
                None => Err(ArgError::InvalidAddress(args[i + 1])),
            }
        } else if a == "--read"@ {
            scan_from(args, i + 1, ArgScan { read: true, ..s })
        } else if a == "--write"@ && has_value {
            match u32_value(args[i + 1]@, 10) {
                Some(v) => scan_from(args, i + 2, ArgScan { write: Some(v), ..s }),
                None => Err(ArgError::InvalidWriteValue(args[i + 1])),
            }
        } else {
            Err(ArgError::Malformed(args[i]))
        }
    }
}

/// The request that a completed scan stands for.
pub open spec fn finish(s: ArgScan) -> Result<Invocation, ArgError> {
    match s.pid {
        None => Err(ArgError::MissingPid),
        Some(pid) => match s.address {
            None => Err(ArgError::MissingAddress),
            Some(address) => match s.write {
                Some(v) => if s.read {
                    Err(ArgError::ConflictingModes)
                } else {
                    Ok(Invocation { pid, address, operation: Operation::Write(v) })
                },
                None => if s.read {
                    Ok(Invocation { pid, address, operation: Operation::Read })
                } else {
                    Err(ArgError::MissingMode)
                },
            },
        },
    }
}

/// The meaning of a whole command line, whose first element is the program's
/// name.
pub open spec fn parse_spec(args: Seq<String>) -> Result<Invocation, ArgError> {
    if args.len() < 5 {
        Err(ArgError::Usage)
    } else {
        match scan_from(args, 1, ArgScan::start()) {
            Err(e) => Err(e),
            Ok(s) => finish(s),
        }
    }
}

/// Whether `arg` is exactly `flag`.
fn is_flag(arg: &String, flag: &str) -> (r: bool)
    ensures
        r == (arg@ == flag@),
{
    let f: String = flag.to_owned();
    arg.eq(&f)
}

/// Turns a command line (program name first) into a request.
pub fn parse_args(args: Vec<String>) -> (r: Result<Invocation, ArgError>)
    ensures
        r == parse_spec(args@),
{
    if args.len() < 5 {
        return Err(ArgError::Usage);
    }
    let mut pid: Option<u32> = None;
    let mut address: Option<u64> = None;
    let mut read: bool = false;
    let mut write: Option<u32> = None;
    let mut i: usize = 1;
    while i < args.len()
        invariant
            5 <= args@.len(),
            1 <= i <= args@.len(),
            scan_from(args@, 1, ArgScan::start()) == scan_from(
                args@,
                i as int,
                ArgScan { pid, address, read, write },
            ),
        decreases args@.len() - i,
    {
        let has_value: bool = i + 1 < args.len();
        if is_flag(&args[i], "--pid") && has_value {
            pid = parse_decimal_u32(args[i + 1].as_str());
            i = i + 2;
        } else if is_flag(&args[i], "--address") && has_value {
            match parse_address(args[i + 1].as_str()) {
                Some(v) => {
                    address = Some(v);
                    i = i + 2;
                },
                None => {
                    return Err(ArgError::InvalidAddress(args[i + 1].clone()));
                },
            }
        } else if is_flag(&args[i], "--read") {
            read = true;
            i = i + 1;
        } else if is_flag(&args[i], "--write") && has_value {
            match parse_decimal_u32(args[i + 1].as_str()) {
                Some(v) => {
                    write = Some(v);
                    i = i + 2;
                },
                None => {
                    return Err(ArgError::InvalidWriteValue(args[i + 1].clone()));
                },
            }
        } else {
            return Err(ArgError::Malformed(args[i].clone()));
        }
    }
    match pid {
        None => Err(ArgError::MissingPid),
        Some(pid) => match address {
            None => Err(ArgError::MissingAddress),
            Some(address) => match write {
                Some(v) => if read {
                    Err(ArgError::ConflictingModes)
                } else {
                    Ok(Invocation { pid, address, operation: Operation::Write(v) })
                },
                None => if read {
                    Ok(Invocation { pid, address, operation: Operation::Read })
                } else {
                    Err(ArgError::MissingMode)
                },
            },
        },
    }
}

} // verus!
