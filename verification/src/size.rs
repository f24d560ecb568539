//! Size arguments such as `20G`, `512M`, `64K` or `100B`: a decimal count
//! followed by a one-character unit.
use vstd::prelude::*;
use crate::number::{IntErrorKind, decimal, lemma_parse_decimal, parse_u64, parse_u64_chars};
use crate::text::chars_of;

verus! {

/// Why a size argument was refused.
#[derive(Clone, Copy, Debug, PartialEq, Eq, Structural)]
pub enum SizeError {
    /// The argument is empty.
    Empty,
    /// The part before the unit is not a `u64` numeral.
    InvalidNumber(IntErrorKind),
    /// The last character is not one of `G`, `M`, `K`, `B` (in either case).
    UnknownUnit,
}

/// Bytes per unit, for the unit letters in either case.
pub open spec fn unit_factor(c: char) -> Option<nat> {
    if c == 'G' || c == 'g' {
        Some(1073741824)
    } else if c == 'M' || c == 'm' {
        Some(1048576)
    } else if c == 'K' || c == 'k' {
        Some(1024)
    } else if c == 'B' || c == 'b' {
        Some(1)
    } else {
        None
    }
}

/// The number of bytes a size argument denotes, before any bound on the result.
pub open spec fn size_value(s: Seq<char>) -> Result<nat, SizeError> {
    if s.len() == 0 {
        Err(SizeError::Empty)
    } else {
        match parse_u64(s.drop_last()) {
            Err(k) => Err(SizeError::InvalidNumber(k)),
            Ok(n) => match unit_factor(s.last()) {
                Some(f) => Ok(n as nat * f),
                None => Err(SizeError::UnknownUnit),
            },
        }
    }
}

/// The arguments on which reading a size completes: the last character is
/// one byte long (the count and the unit are split at the last byte), and a
/// known unit does not carry the byte count past `u64::MAX`.
pub open spec fn size_arg_ok(s: Seq<char>) -> bool {
    s.len() == 0 || ((s.last() as u32) < 0x80 && match size_value(s) {
        Ok(v) => v <= u64::MAX,
        Err(_) => true,
    })
}

/// The byte count of a size argument, as a `u64`.
pub open spec fn size_bytes(s: Seq<char>) -> Result<u64, SizeError> {
    match size_value(s) {
        Ok(v) => Ok(v as u64),
        Err(e) => Err(e),
    }
}

/// Whether reading `s` as a size would not complete (see `size_arg_ok`).
pub fn size_arg_panics(s: &str) -> (b: bool)
    ensures
        b == !size_arg_ok(s@),
{
    let v = chars_of(s);
    let n = v.len();
    if n == 0 {
        return false;
    }
    if (v[n - 1] as u32) >= 0x80 {
        return true;
    }
    match size_of_chars(&v) {
        Ok(_) => false,
        Err(SizeReading::Overflow) => true,
        Err(SizeReading::Refused(_)) => false,
    }
}

/// Outcome of reading a size that does not yield a byte count.
pub enum SizeReading {
    /// The argument is refused.
    Refused(SizeError),
    /// The byte count exceeds `u64::MAX`.
    Overflow,
}

/// Reads `v` as a size argument, reporting an overflow instead of failing.
pub fn size_of_chars(v: &Vec<char>) -> (r: Result<u64, SizeReading>)
    ensures
        match r {
            Ok(b) => size_value(v@) == Ok::<nat, SizeError>(b as nat),
            Err(SizeReading::Refused(e)) => size_value(v@) == Err::<nat, SizeError>(e),
            Err(SizeReading::Overflow) => size_value(v@) matches Ok(x) && x > u64::MAX,
        },
{
    let n = v.len();
    if n == 0 {
        return Err(SizeReading::Refused(SizeError::Empty));
    }
    assert(v@.subrange(0, n - 1) =~= v@.drop_last());
    let num = match parse_u64_chars(v, 0, n - 1) {
        Ok(x) => x,
        Err(k) => {
            return Err(SizeReading::Refused(SizeError::InvalidNumber(k)));
        },
    };
    let c = v[n - 1];
    let factor: u64 = if c == 'G' || c == 'g' {
        1073741824
    } else if c == 'M' || c == 'm' {
        1048576
    } else if c == 'K' || c == 'k' {
        1024
    } else if c == 'B' || c == 'b' {
        1
    } else {
        return Err(SizeReading::Refused(SizeError::UnknownUnit));
    };
    assert(unit_factor(v@.last()) == Some(factor as nat));
    if num > u64::MAX / factor {
        assert(num * factor > u64::MAX) by (nonlinear_arith)
            requires
                num > u64::MAX / factor,
                factor > 0,
        ;
        return Err(SizeReading::Overflow);
    }
    assert(num * factor <= u64::MAX) by (nonlinear_arith)
        requires
            num <= u64::MAX / factor,
            factor > 0,
    ;
    Ok(num * factor)
}

/// Reads a size argument into a byte count.
pub fn size_of_str(s: &str) -> (r: Result<u64, SizeError>)
    requires
        size_arg_ok(s@),
    ensures
        r == size_bytes(s@),
{
    let v = chars_of(s);
    match size_of_chars(&v) {
        Ok(b) => Ok(b),
        Err(SizeReading::Refused(e)) => Err(e),
        Err(SizeReading::Overflow) => {
            assert(false);
            Err(SizeError::UnknownUnit)
        },
    }
}

/// A unit letter and its lower-case form scale a count alike: a decimal
/// count followed by `G`/`g`, `M`/`m`, `K`/`k` or `B`/`b` denotes that count
/// times 2^30, 2^20, 2^10 or 1 bytes.
pub proof fn law_size_units(n: u64)
    ensures
        size_value(decimal(n as nat).push('G')) == Ok::<nat, SizeError>(n as nat * 1073741824),
        size_value(decimal(n as nat).push('g')) == Ok::<nat, SizeError>(n as nat * 1073741824),
        size_value(decimal(n as nat).push('M')) == Ok::<nat, SizeError>(n as nat * 1048576),
        size_value(decimal(n as nat).push('m')) == Ok::<nat, SizeError>(n as nat * 1048576),
        size_value(decimal(n as nat).push('K')) == Ok::<nat, SizeError>(n as nat * 1024),
        size_value(decimal(n as nat).push('k')) == Ok::<nat, SizeError>(n as nat * 1024),
        size_value(decimal(n as nat).push('B')) == Ok::<nat, SizeError>(n as nat),
        size_value(decimal(n as nat).push('b')) == Ok::<nat, SizeError>(n as nat),
{
    lemma_parse_decimal(n);
    let d = decimal(n as nat);
    assert(d.push('G').drop_last() =~= d);
    assert(d.push('g').drop_last() =~= d);
    assert(d.push('M').drop_last() =~= d);
    assert(d.push('m').drop_last() =~= d);
    assert(d.push('K').drop_last() =~= d);
    assert(d.push('k').drop_last() =~= d);
    assert(d.push('B').drop_last() =~= d);
    assert(d.push('b').drop_last() =~= d);
    assert(n as nat * 1 == n as nat);
}

/// The case of the unit letter never matters: any count followed by a unit
/// letter reads as the same count followed by its lower-case form.
pub proof fn law_size_unit_case(count: Seq<char>)
    ensures
        size_value(count.push('G')) == size_value(count.push('g')),
        size_value(count.push('M')) == size_value(count.push('m')),
        size_value(count.push('K')) == size_value(count.push('k')),
        size_value(count.push('B')) == size_value(count.push('b')),
{
    assert(count.push('G').drop_last() =~= count);
    assert(count.push('g').drop_last() =~= count);
    assert(count.push('M').drop_last() =~= count);
    assert(count.push('m').drop_last() =~= count);
    assert(count.push('K').drop_last() =~= count);
    assert(count.push('k').drop_last() =~= count);
    assert(count.push('B').drop_last() =~= count);
    assert(count.push('b').drop_last() =~= count);
}

} // verus!
