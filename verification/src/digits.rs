//! Fixed-width decimal fields: the numeric building block of the wire
//! codec. A value is written as exactly `width` ASCII digits (leading
//! zeros), so that a field's bytes determine its value and the value and
//! width determine the bytes.

use vstd::prelude::*;

verus! {

/// Powers of ten.
pub open spec fn pow10(e: nat) -> nat
    decreases e,
{
    if e == 0 {
        1
    } else {
        10 * pow10((e - 1) as nat)
    }
}

/// The ASCII bytes `'0'` through `'9'`.
pub open spec fn is_dec_digit(b: u8) -> bool {
    48 <= b <= 57
}

pub open spec fn all_dec_digits(s: Seq<u8>) -> bool {
    forall|i: int| 0 <= i < s.len() ==> is_dec_digit(#[trigger] s[i])
}

/// The number a big-endian digit string denotes.
pub open spec fn dec_value(s: Seq<u8>) -> nat
    decreases s.len(),
{
    if s.len() == 0 {
        0
    } else {
        dec_value(s.drop_last()) * 10 + (if s.last() >= 48 {
            (s.last() - 48) as nat
        } else {
            0
        })
    }
}

/// The canonical `width`-digit rendering of `n` (mod `10^width`).
pub open spec fn dec_digits(n: nat, width: nat) -> Seq<u8>
    decreases width,
{
    if width == 0 {
        Seq::empty()
    } else {
        dec_digits(n / 10, (width - 1) as nat).push((48 + n % 10) as u8)
    }
}

/// Concrete powers of ten the codec's widths rest on.
pub proof fn lemma_pow10_values()
    ensures
        pow10(1) == 10,
        pow10(10) == 0x2540be400,
        pow10(19) == 10_000_000_000_000_000_000,
        pow10(20) == 0x56bc75e2d63100000,
        pow10(30) == 0xc9f2c9cd04674edea40000000,
{
    assert(pow10(30) == 0xc9f2c9cd04674edea40000000 && pow10(20) == 0x56bc75e2d63100000 && pow10(
        19,
    ) == 10_000_000_000_000_000_000 && pow10(10) == 0x2540be400 && pow10(1) == 10) by {
        reveal_with_fuel(pow10, 31);
    }
}

pub proof fn lemma_pow10_increases(e1: nat, e2: nat)
    requires
        e1 <= e2,
    ensures
        pow10(e1) <= pow10(e2),
    decreases e2,
{
    if e1 < e2 {
        lemma_pow10_increases(e1, (e2 - 1) as nat);
        assert(pow10(e2) == 10 * pow10((e2 - 1) as nat));
    }
}

/// The canonical rendering of `n < 10^width` is `width` digits long, is all
/// digits, and denotes `n`.
pub proof fn lemma_dec_digits_props(n: nat, width: nat)
    requires
        n < pow10(width),
    ensures
        dec_digits(n, width).len() == width,
        all_dec_digits(dec_digits(n, width)),
        dec_value(dec_digits(n, width)) == n,
    decreases width,
{
    if width == 0 {
        assert(dec_digits(n, width) =~= Seq::<u8>::empty());
    } else {
        let prev = (width - 1) as nat;
        assert(n / 10 < pow10(prev)) by {
            assert(pow10(width) == 10 * pow10(prev));
        }
        lemma_dec_digits_props(n / 10, prev);
        let s = dec_digits(n, width);
        assert(s.drop_last() =~= dec_digits(n / 10, prev));
        assert(dec_value(s) == (n / 10) * 10 + n % 10);
        assert((n / 10) * 10 + n % 10 == n);
    }
}

/// A digit string of length `w` denotes a value below `10^w`.
pub proof fn lemma_dec_value_bound(s: Seq<u8>)
    requires
        all_dec_digits(s),
    ensures
        dec_value(s) < pow10(s.len()),
    decreases s.len(),
{
    if s.len() > 0 {
        let prefix = s.drop_last();
        assert(all_dec_digits(prefix));
        lemma_dec_value_bound(prefix);
        assert(pow10(s.len()) == 10 * pow10(prefix.len()));
    }
}

/// Fixed-width digit strings are canonical: a digit string of length
/// `width` denoting `n` is exactly `dec_digits(n, width)`.
pub proof fn lemma_dec_digits_unique(s: Seq<u8>, width: nat)
    requires
        all_dec_digits(s),
        s.len() == width,
        dec_value(s) < pow10(width),
    ensures
        s == dec_digits(dec_value(s), width),
    decreases width,
{
    if width == 0 {
        assert(s =~= dec_digits(dec_value(s), width));
    } else {
        let n = dec_value(s);
        let prefix = s.drop_last();
        let d = (s.last() - 48) as nat;
        assert(n == dec_value(prefix) * 10 + d);
        assert(d < 10);
        vstd::arithmetic::div_mod::lemma_fundamental_div_mod_converse(
            n as int,
            10,
            dec_value(prefix) as int,
            d as int,
        );
        assert(dec_value(prefix) == n / 10 && d == n % 10);
        assert(all_dec_digits(prefix));
        assert(dec_value(prefix) < pow10((width - 1) as nat)) by {
            assert(pow10(width) == 10 * pow10((width - 1) as nat));
        }
        lemma_dec_digits_unique(prefix, (width - 1) as nat);
        assert(s =~= dec_digits(n, width));
    }
}

/// Append the canonical `width`-digit rendering of `n`.
pub(crate) fn push_dec_u64(out: &mut Vec<u8>, n: u64, width: u32)
    requires
        width <= 20,
        n < pow10(width as nat),
    ensures
        final(out)@ == old(out)@ + dec_digits(n as nat, width as nat),
    decreases width,
{
    if width == 0 {
        assert(final(out)@ =~= old(out)@ + dec_digits(n as nat, 0));
    } else {
        proof {
            assert(pow10(width as nat) == 10 * pow10((width - 1) as nat));
        }
        push_dec_u64(out, n / 10, width - 1);
        out.push(48 + (n % 10) as u8);
        assert(final(out)@ =~= old(out)@ + dec_digits(n as nat, width as nat));
    }
}

/// Read the `width` bytes at `start` as a decimal field. Returns the value
/// exactly when every byte is a digit; the value of `width <= 30` digits
/// always fits a `u128`.
pub(crate) fn parse_dec_u128(v: &Vec<u8>, start: usize, width: usize) -> (r: Option<u128>)
    requires
        start + width <= v.len(),
        width <= 30,
    ensures
        match r {
            Some(x) => {
                &&& all_dec_digits(v@.subrange(start as int, start as int + width as int))
                &&& x == dec_value(v@.subrange(start as int, start as int + width as int))
            },
            None => !all_dec_digits(v@.subrange(start as int, start as int + width as int)),
        },
{
    let ghost field = v@.subrange(start as int, start as int + width as int);
    let mut acc: u128 = 0;
    let mut i: usize = 0;
    while i < width
        invariant
            i <= width <= 30,
            start + width <= v.len(),
            field == v@.subrange(start as int, start as int + width as int),
            all_dec_digits(field.subrange(0, i as int)),
            acc == dec_value(field.subrange(0, i as int)),
            acc < pow10(i as nat),
        decreases width - i,
    {
        let b = v[start + i];
        if b < 48 || b > 57 {
            assert(field[i as int] == b);
            return None;
        }
        let d = (b - 48) as u128;
        proof {
            lemma_pow10_increases((i + 1) as nat, 30);
            lemma_pow10_values();
            let next = field.subrange(0, i + 1 as int);
            assert(next.drop_last() =~= field.subrange(0, i as int));
            assert(next.last() == field[i as int] == b);
            assert(pow10((i + 1) as nat) == 10 * pow10(i as nat));
        }
        acc = acc * 10 + d;
        i = i + 1;
    }
    assert(field =~= field.subrange(0, width as int));
    Some(acc)
}

} // verus!
