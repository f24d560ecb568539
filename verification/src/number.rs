//! Decimal numerals: parsing into `u64` as `u64::from_str` does, and the
//! decimal rendering of a number.
use vstd::prelude::*;

verus! {

/// Why a numeral is not a `u64` (the kinds that `u64::from_str` reports).
#[derive(Clone, Copy, Debug, PartialEq, Eq, Structural)]
pub enum IntErrorKind {
    /// The numeral is empty.
    Empty,
    /// The numeral holds a character that is not a decimal digit.
    InvalidDigit,
    /// The numeral's value exceeds `u64::MAX`.
    PosOverflow,
}

/// An ASCII decimal digit.
pub open spec fn is_digit(c: char) -> bool {
    '0' <= c && c <= '9'
}

/// The value of a decimal digit.
pub open spec fn digit_value(c: char) -> nat {
    (c as int - '0' as int) as nat
}

/// The digit character for `d < 10`.
pub open spec fn digit_char(d: nat) -> char {
    if d == 0 {
        '0'
    } else if d == 1 {
        '1'
    } else if d == 2 {
        '2'
    } else if d == 3 {
        '3'
    } else if d == 4 {
        '4'
    } else if d == 5 {
        '5'
    } else if d == 6 {
        '6'
    } else if d == 7 {
        '7'
    } else if d == 8 {
        '8'
    } else {
        '9'
    }
}

/// Reads the digits `ds` left to right after the value `acc` (as `acc * 10 + d` per digit).
pub open spec fn fold_digits(ds: Seq<char>, acc: nat) -> nat
    decreases ds.len(),
{
    if ds.len() == 0 {
        acc
    } else {
        fold_digits(ds.drop_first(), acc * 10 + digit_value(ds[0]))
    }
}

/// Left-to-right reading of a digit string that stops at the first
/// non-digit (`InvalidDigit`) or at the first step that exceeds `u64::MAX`
/// (`PosOverflow`), whichever comes first.
pub open spec fn accumulate(ds: Seq<char>, acc: nat) -> Result<nat, IntErrorKind>
    decreases ds.len(),
{
    if ds.len() == 0 {
        Ok(acc)
    } else if !is_digit(ds[0]) {
        Err(IntErrorKind::InvalidDigit)
    } else if acc * 10 + digit_value(ds[0]) > u64::MAX {
        Err(IntErrorKind::PosOverflow)
    } else {
        accumulate(ds.drop_first(), acc * 10 + digit_value(ds[0]))
    }
}

/// The numeral without one leading `+`.
pub open spec fn unsigned_digits(s: Seq<char>) -> Seq<char> {
    if s.len() > 0 && s[0] == '+' {
        s.drop_first()
    } else {
        s
    }
}

/// What `u64::from_str` gives for `s`: an optional `+` followed by one or
/// more decimal digits whose value fits in a `u64`.
pub open spec fn parse_u64(s: Seq<char>) -> Result<u64, IntErrorKind> {
    if s.len() == 0 {
        Err(IntErrorKind::Empty)
    } else if s.len() == 1 && (s[0] == '+' || s[0] == '-') {
        Err(IntErrorKind::InvalidDigit)
    } else {
        match accumulate(unsigned_digits(s), 0) {
            Ok(v) => Ok(v as u64),
            Err(e) => Err(e),
        }
    }
}

/// The decimal numeral of `n`, without leading zeros.
pub open spec fn decimal(n: nat) -> Seq<char>
    decreases n,
{
    if n < 10 {
        seq![digit_char(n)]
    } else {
        decimal(n / 10).push(digit_char(n % 10))
    }
}

/// Reading all digits goes no lower than the starting value.
pub proof fn lemma_fold_digits_grows(ds: Seq<char>, acc: nat)
    ensures
        fold_digits(ds, acc) >= acc,
    decreases ds.len(),
{
    if ds.len() > 0 {
        lemma_fold_digits_grows(ds.drop_first(), acc * 10 + digit_value(ds[0]));
    }
}

/// On digits, the reading succeeds exactly when the whole value fits in a `u64`.
pub proof fn lemma_accumulate_digits(ds: Seq<char>, acc: nat)
    requires
        forall|i: int| 0 <= i < ds.len() ==> is_digit(#[trigger] ds[i]),
        acc <= u64::MAX,
    ensures
        accumulate(ds, acc) == (if fold_digits(ds, acc) <= u64::MAX {
            Ok(fold_digits(ds, acc))
        } else {
            Err(IntErrorKind::PosOverflow)
        }),
    decreases ds.len(),
{
    if ds.len() > 0 {
        let a = acc * 10 + digit_value(ds[0]);
        assert(is_digit(ds[0]));
        if a > u64::MAX {
            lemma_fold_digits_grows(ds.drop_first(), a);
        } else {
            assert forall|i: int| 0 <= i < ds.drop_first().len() implies is_digit(
                #[trigger] ds.drop_first()[i],
            ) by {
                assert(ds.drop_first()[i] == ds[i + 1]);
            }
            lemma_accumulate_digits(ds.drop_first(), a);
        }
    }
}

/// Reading a digit string that ends in `c`.
pub proof fn lemma_fold_digits_push(ds: Seq<char>, c: char, acc: nat)
    ensures
        fold_digits(ds.push(c), acc) == fold_digits(ds, acc) * 10 + digit_value(c),
    decreases ds.len(),
{
    if ds.len() == 0 {
        assert(ds.push(c).drop_first() =~= Seq::<char>::empty());
        assert(ds.push(c)[0] == c);
        assert(fold_digits(ds.push(c).drop_first(), acc * 10 + digit_value(c)) == acc * 10
            + digit_value(c));
    } else {
        assert(ds.push(c).drop_first() =~= ds.drop_first().push(c));
        assert(ds.push(c)[0] == ds[0]);
        lemma_fold_digits_push(ds.drop_first(), c, acc * 10 + digit_value(ds[0]));
    }
}

/// The decimal numeral of `n` is a nonempty digit string that reads back as `n`.
pub proof fn lemma_decimal(n: nat)
    ensures
        decimal(n).len() > 0,
        forall|i: int| 0 <= i < decimal(n).len() ==> is_digit(#[trigger] decimal(n)[i]),
        fold_digits(decimal(n), 0) == n,
    decreases n,
{
    if n < 10 {
        assert(fold_digits(decimal(n).drop_first(), digit_value(digit_char(n))) == digit_value(
            digit_char(n),
        ));
    } else {
        lemma_decimal(n / 10);
        let d = decimal(n / 10);
        lemma_fold_digits_push(d, digit_char(n % 10), 0);
        assert forall|i: int| 0 <= i < decimal(n).len() implies is_digit(#[trigger] decimal(n)[i]) by {
            if i < d.len() {
                assert(decimal(n)[i] == d[i]);
            }
        }
    }
}

/// `u64::from_str` reads the decimal numeral of a `u64` back as that number.
pub proof fn lemma_parse_decimal(n: u64)
    ensures
        parse_u64(decimal(n as nat)) == Ok::<u64, IntErrorKind>(n),
{
    lemma_decimal(n as nat);
    let d = decimal(n as nat);
    assert(is_digit(d[0]));
    assert(unsigned_digits(d) == d);
    lemma_accumulate_digits(d, 0);
}

/// Reads `v[lo..hi]` as `u64::from_str` does.
pub fn parse_u64_chars(v: &Vec<char>, lo: usize, hi: usize) -> (r: Result<u64, IntErrorKind>)
    requires
        lo <= hi <= v.len(),
    ensures
        r == parse_u64(v@.subrange(lo as int, hi as int)),
{
    let ghost s = v@.subrange(lo as int, hi as int);
    if lo == hi {
        return Err(IntErrorKind::Empty);
    }
    assert(s.len() == hi - lo && s[0] == v@[lo as int]);
    if hi - lo == 1 && (v[lo] == '+' || v[lo] == '-') {
        return Err(IntErrorKind::InvalidDigit);
    }
    let mut i = lo;
    if v[lo] == '+' {
        i = lo + 1;
    }
    assert(unsigned_digits(s) =~= v@.subrange(i as int, hi as int));
    let mut acc: u64 = 0;
    while i < hi
        invariant
            lo <= i <= hi <= v.len(),
            s == v@.subrange(lo as int, hi as int),
            s.len() > 0,
            !(s.len() == 1 && (s[0] == '+' || s[0] == '-')),
            accumulate(unsigned_digits(s), 0) == accumulate(v@.subrange(i as int, hi as int), acc as nat),
        decreases hi - i,
    {
        let ghost rest = v@.subrange(i as int, hi as int);
        let c = v[i];
        assert(rest.len() > 0 && rest[0] == c);
        if !('0' <= c && c <= '9') {
            return Err(IntErrorKind::InvalidDigit);
        }
        let d = (c as u32 - '0' as u32) as u64;
        assert(d == digit_value(c));
        if acc > (u64::MAX - d) / 10 {
            assert(acc * 10 + d > u64::MAX) by (nonlinear_arith)
                requires
                    acc > (u64::MAX - d) / 10,
                    d <= 9,
            ;
            return Err(IntErrorKind::PosOverflow);
        }
        assert(acc * 10 + d <= u64::MAX) by (nonlinear_arith)
            requires
                acc <= (u64::MAX - d) / 10,
                d <= 9,
        ;
        acc = acc * 10 + d;
        assert(rest.drop_first() =~= v@.subrange(i + 1, hi as int));
        i += 1;
    }
    Ok(acc)
}

/// The decimal numeral of `n` (what `u64`'s `Display` writes).
#[verifier::external_body]
pub(crate) fn decimal_string(n: u64) -> (s: String)
    ensures
        s@ == decimal(n as nat),
{
    n.to_string()
}

} // verus!
