//! Numbers written out as text, and read back.

use vstd::prelude::*;

verus! {

/// The decimal digit for `d`, which is less than ten.
pub open spec fn digit(d: nat) -> char {
    (48 + d) as char
}

/// Whether `c` is an ASCII decimal digit.
pub open spec fn is_digit(c: char) -> bool {
    48 <= c as u32 <= 57
}

/// `n` in decimal, without leading zeros.
pub open spec fn decimal(n: nat) -> Seq<char>
    decreases n,
{
    if n < 10 {
        seq![digit(n)]
    } else {
        decimal(n / 10).push(digit(n % 10))
    }
}

/// What a sequence of decimal digits stands for.
pub open spec fn digits_value(s: Seq<char>) -> nat
    decreases s.len(),
{
    if s.len() == 0 {
        0
    } else {
        digits_value(s.drop_last()) * 10 + (s.last() as u32 - 48) as nat
    }
}

/// Whether `s` holds nothing but decimal digits.
pub open spec fn all_digits(s: Seq<char>) -> bool {
    forall|i: int| 0 <= i < s.len() ==> is_digit(#[trigger] s[i])
}

/// A decimal rendering is made of digits, is never empty, and stands for the
/// number it was made from.
pub proof fn decimal_reads_back(n: nat)
    ensures
        decimal(n).len() > 0,
        all_digits(decimal(n)),
        digits_value(decimal(n)) == n,
    decreases n,
{
    if n < 10 {
        assert(decimal(n).drop_last() == Seq::<char>::empty());
        assert(digits_value(Seq::<char>::empty()) == 0);
    } else {
        decimal_reads_back(n / 10);
        assert(decimal(n).drop_last() == decimal(n / 10));
    }
}

/// Different numbers have different decimal renderings.
pub proof fn decimal_is_injective(a: nat, b: nat)
    requires
        decimal(a) == decimal(b),
    ensures
        a == b,
{
    decimal_reads_back(a);
    decimal_reads_back(b);
}

/// Appends `n` in decimal to `out`.
pub fn push_decimal(out: &mut String, n: u64)
    ensures
        final(out)@ == old(out)@ + decimal(n as nat),
    decreases n,
{
    let ghost before = out@;
    if n >= 10 {
        push_decimal(out, n / 10);
    }
    let d: u8 = (n % 10) as u8;
    out.push((48 + d) as char);
    proof {
        if n < 10 {
            assert(out@ == before + seq![digit(n as nat)]);
        } else {
            assert(out@ == before + decimal((n / 10) as nat).push(digit((n % 10) as nat)));
        }
    }
}

/// `n` in decimal.
pub fn decimal_string(n: u64) -> (s: String)
    ensures
        s@ == decimal(n as nat),
{
    let mut s = String::new();
    push_decimal(&mut s, n);
    assert(Seq::<char>::empty() + decimal(n as nat) == decimal(n as nat));
    s
}

/// The whole number that `s` writes out: digits, after at most one sign.
pub open spec fn written_integer(s: Seq<char>) -> Option<int> {
    let signed = s.len() > 0 && (s.first() == '-' || s.first() == '+');
    let digits = if signed {
        s.drop_first()
    } else {
        s
    };
    if digits.len() == 0 || !all_digits(digits) {
        None
    } else if s.first() == '-' {
        Some(-(digits_value(digits) as int))
    } else {
        Some(digits_value(digits) as int)
    }
}

/// The whole number that `s` writes out, if it fits in 64 bits with a sign.
pub open spec fn written_i64(s: Seq<char>) -> Option<i64> {
    match written_integer(s) {
        Some(v) if i64::MIN <= v <= i64::MAX => Some(v as i64),
        _ => None,
    }
}

proof fn lemma_value_of_prefix(s: Seq<char>, n: int)
    requires
        all_digits(s),
        0 <= n <= s.len(),
    ensures
        digits_value(s.take(n)) <= digits_value(s),
    decreases s.len(),
{
    if n == s.len() {
        assert(s.take(n) == s);
    } else {
        let shorter = s.drop_last();
        assert(s.take(n) == shorter.take(n));
        lemma_value_of_prefix(shorter, n);
    }
}

/// Reads a 64-bit integer from `chars[from..to]`.
pub fn parse_i64(chars: &[char], from: usize, to: usize) -> (n: Option<i64>)
    requires
        from <= to <= chars.len(),
    ensures
        n == written_i64(chars@.subrange(from as int, to as int)),
{
    let ghost s = chars@.subrange(from as int, to as int);
    if from == to {
        return None;
    }
    let negative: bool = chars[from] == '-';
    let start: usize = if negative || chars[from] == '+' {
        from + 1
    } else {
        from
    };
    let ghost digits = chars@.subrange(start as int, to as int);
    proof {
        assert(s.first() == chars@[from as int]);
        if start == from + 1 {
            assert(s.drop_first() == digits);
        }
    }
    if start == to {
        return None;
    }
    let limit: u128 = 0x8000_0000_0000_0000;
    let mut value: u128 = 0;
    let mut i: usize = start;
    assert(digits.take(0).len() == 0);
    while i < to
        invariant
            from <= start <= i <= to <= chars.len(),
            start < to,
            s == chars@.subrange(from as int, to as int),
            digits == chars@.subrange(start as int, to as int),
            limit == 0x8000_0000_0000_0000,
            value <= limit,
            value == digits_value(digits.take(i - start)),
            forall|j: int| 0 <= j < i - start ==> is_digit(#[trigger] digits[j]),
            written_integer(s) == (if digits.len() == 0 || !all_digits(digits) {
                None
            } else if negative {
                Some(-(digits_value(digits) as int))
            } else {
                Some(digits_value(digits) as int)
            }),
        decreases to - i,
    {
        let c: u32 = chars[i] as u32;
        assert(digits[i - start] == chars@[i as int]);
        if c < 48 || 57 < c {
            assert(!is_digit(digits[i - start]));
            return None;
        }
        let next: u128 = value * 10 + (c - 48) as u128;
        proof {
            assert(digits.take(i - start + 1).drop_last() == digits.take(i - start));
        }
        if next > limit {
            proof {
                if all_digits(digits) {
                    lemma_value_of_prefix(digits, i - start + 1);
                }
            }
            return None;
        }
        value = next;
        i += 1;
    }
    assert(digits.take(to - start) == digits);
    if negative {
        if value == limit {
            Some(i64::MIN)
        } else {
            Some(-(value as i64))
        }
    } else if value == limit {
        None
    } else {
        Some(value as i64)
    }
}

/// The value of an ASCII hexadecimal digit, in either case.
pub open spec fn hex_value(b: u8) -> Option<nat> {
    if 0x30 <= b <= 0x39 {
        Some((b - 0x30) as nat)
    } else if 0x41 <= b <= 0x46 {
        Some((b - 0x41 + 10) as nat)
    } else if 0x61 <= b <= 0x66 {
        Some((b - 0x61 + 10) as nat)
    } else {
        None
    }
}

/// The lower-case hexadecimal digit for `d`, which is less than sixteen.
pub open spec fn hex_digit(d: nat) -> u8 {
    if d < 10 {
        (0x30 + d) as u8
    } else {
        (0x61 + d - 10) as u8
    }
}

/// `n` in lower-case hexadecimal, with zeros in front up to `width` digits.
pub open spec fn hex(n: nat, width: nat) -> Seq<u8>
    decreases n, width,
{
    if n < 16 && width <= 1 {
        seq![hex_digit(n)]
    } else {
        hex(n / 16, if width == 0 { 0 } else { (width - 1) as nat }).push(hex_digit(n % 16))
    }
}

/// Whether `s` holds nothing but hexadecimal digits.
pub open spec fn all_hex(s: Seq<u8>) -> bool {
    forall|i: int| 0 <= i < s.len() ==> hex_value(#[trigger] s[i]) is Some
}

/// What a sequence of hexadecimal digits stands for.
pub open spec fn hex_number(s: Seq<u8>) -> nat
    decreases s.len(),
{
    if s.len() == 0 {
        0
    } else {
        hex_number(s.drop_last()) * 16 + hex_value(s.last())->0
    }
}

/// A hexadecimal rendering is made of hexadecimal digits and stands for the
/// number it was made from.
pub proof fn hex_reads_back(n: nat, width: nat)
    ensures
        hex(n, width).len() > 0,
        hex(n, width).len() >= width,
        all_hex(hex(n, width)),
        hex_number(hex(n, width)) == n,
    decreases n, width,
{
    if n < 16 && width <= 1 {
        assert(hex(n, width).drop_last() == Seq::<u8>::empty());
        assert(hex_number(Seq::<u8>::empty()) == 0);
    } else {
        let less: nat = if width == 0 {
            0
        } else {
            (width - 1) as nat
        };
        hex_reads_back(n / 16, less);
        assert(hex(n, width).drop_last() == hex(n / 16, less));
    }
}

/// A number of at most sixteen bits takes exactly four digits.
pub proof fn lemma_four_hex_digits(n: nat)
    requires
        n < 0x10000,
    ensures
        hex(n, 4).len() == 4,
{
    reveal_with_fuel(hex, 5);
}

/// Appends `n` in hexadecimal, at least `width` digits long, to `out`.
pub fn push_hex(out: &mut Vec<u8>, n: u64, width: u64)
    ensures
        final(out)@ == old(out)@ + hex(n as nat, width as nat),
    decreases n, width,
{
    let ghost before = out@;
    if n >= 16 || width > 1 {
        push_hex(
            out,
            n / 16,
            if width == 0 {
                0
            } else {
                width - 1
            },
        );
    }
    let d: u8 = (n % 16) as u8;
    out.push(
        if d < 10 {
            0x30 + d
        } else {
            0x61 + (d - 10)
        },
    );
    proof {
        if n < 16 && width <= 1 {
            assert(out@ == before + seq![hex_digit(n as nat)]);
        } else {
            let less: nat = if width == 0 {
                0
            } else {
                (width - 1) as nat
            };
            assert(out@ == before + hex((n / 16) as nat, less).push(hex_digit((n % 16) as nat)));
        }
    }
}

/// Reads hexadecimal digits, of which there are at most seven.
pub fn parse_hex(digits: &[u8]) -> (n: Option<u32>)
    requires
        digits.len() <= 7,
    ensures
        n == (if digits.len() > 0 && all_hex(digits@) {
            Some(hex_number(digits@) as u32)
        } else {
            None
        }),
        n is Some ==> n->0 as nat == hex_number(digits@),
{
    if digits.len() == 0 {
        return None;
    }
    let mut n: u32 = 0;
    let mut bound: u64 = 1;
    let mut i: usize = 0;
    assert(digits@.take(0).len() == 0);
    while i < digits.len()
        invariant
            i <= digits.len() <= 7,
            n == hex_number(digits@.take(i as int)),
            n < bound,
            i == 0 ==> bound == 1,
            i == 1 ==> bound == 16,
            i == 2 ==> bound == 256,
            i == 3 ==> bound == 4096,
            i == 4 ==> bound == 65536,
            i == 5 ==> bound == 1048576,
            i == 6 ==> bound == 16777216,
            i == 7 ==> bound == 268435456,
            forall|j: int| 0 <= j < i ==> hex_value(#[trigger] digits@[j]) is Some,
        decreases digits.len() - i,
    {
        let b: u8 = digits[i];
        let d: u32 = if 0x30 <= b && b <= 0x39 {
            (b - 0x30) as u32
        } else if 0x41 <= b && b <= 0x46 {
            (b - 0x41 + 10) as u32
        } else if 0x61 <= b && b <= 0x66 {
            (b - 0x61 + 10) as u32
        } else {
            assert(hex_value(digits@[i as int]) is None);
            return None;
        };
        proof {
            assert(digits@.take(i + 1).drop_last() == digits@.take(i as int));
        }
        n = n * 16 + d;
        bound = bound * 16;
        i += 1;
    }
    assert(digits@.take(digits@.len() as int) == digits@);
    Some(n)
}

/// Numbers are read as they are written: with a minus sign or without, with a
/// plus sign or without, and only if they fit.
pub proof fn a_written_number_is_read(
    chars: &[char],
    from: usize,
    to: usize,
    n: nat,
    read: Option<i64>,
)
    requires
        from <= to <= chars@.len(),
        call_ensures(parse_i64, (chars, from, to), read),
    ensures
        ({
            let s = chars@.subrange(from as int, to as int);
            &&& s == decimal(n) || s == seq!['+'] + decimal(n) ==> read == (if n <= i64::MAX {
                Some(n as i64)
            } else {
                None
            })
            &&& s == seq!['-'] + decimal(n) ==> read == (if n <= i64::MAX + 1 {
                Some((-n) as i64)
            } else {
                None
            })
        }),
{
    let s = chars@.subrange(from as int, to as int);
    let digits = decimal(n);
    decimal_reads_back(n);
    assert(is_digit(digits[0]));
    assert((seq!['+'] + digits).drop_first() == digits);
    assert((seq!['-'] + digits).drop_first() == digits);
}

/// What holds anything but digits after at most one sign is no number, and
/// neither is a sign alone, or nothing.
pub proof fn only_digits_make_a_number(
    chars: &[char],
    from: usize,
    to: usize,
    read: Option<i64>,
    i: int,
)
    requires
        from <= to <= chars@.len(),
        call_ensures(parse_i64, (chars, from, to), read),
    ensures
        ({
            let s = chars@.subrange(from as int, to as int);
            &&& 0 <= i < s.len() && !(48 <= s[i] as u32 <= 57) && !(i == 0 && (s[0] == '+' || s[0]
                == '-')) ==> read is None
            &&& s.len() == 0 ==> read is None
            &&& s.len() == 1 && (s[0] == '+' || s[0] == '-') ==> read is None
        }),
{
    let s = chars@.subrange(from as int, to as int);
    if 0 <= i < s.len() && !(48 <= s[i] as u32 <= 57) && !(i == 0 && (s[0] == '+' || s[0] == '-')) {
        assert(!is_digit(s[i]));
        if s.first() == '-' || s.first() == '+' {
            assert(s.drop_first()[i - 1] == s[i]);
        }
    }
}

} // verus!
