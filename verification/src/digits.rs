//! Decimal rendering and parsing of the numeric fields of journal names,
//! specified over `Seq<char>` so the codecs' contracts can speak of the exact
//! text they produce and accept.

use vstd::prelude::*;
use vstd::string::StrSliceExecFns;

verus! {

pub open spec fn digit_char(d: int) -> char {
    if d == 0 {
        '0'
    } else if d == 1 {
        '1'
    } else if d == 2 {
        '2'
    } else if d == 3 {
        '3'
    } else if d == 4 {
        '4'
    } else if d == 5 {
        '5'
    } else if d == 6 {
        '6'
    } else if d == 7 {
        '7'
    } else if d == 8 {
        '8'
    } else {
        '9'
    }
}

pub open spec fn is_digit(c: char) -> bool {
    48 <= c as int <= 57
}

pub open spec fn digit_val(c: char) -> int {
    c as int - 48
}

/// The usual decimal rendering of `n`, without leading zeros.
pub open spec fn dec_digits(n: nat) -> Seq<char>
    decreases n,
{
    if n < 10 {
        seq![digit_char(n as int)]
    } else {
        dec_digits(n / 10) + seq![digit_char((n % 10) as int)]
    }
}

/// Decimal rendering zero-padded to at least two digits.
pub open spec fn pad2_digits(n: nat) -> Seq<char> {
    if n < 10 {
        seq!['0'] + dec_digits(n)
    } else {
        dec_digits(n)
    }
}

/// Decimal rendering zero-padded to at least four digits.
pub open spec fn pad4_digits(n: nat) -> Seq<char> {
    if n < 10 {
        seq!['0', '0', '0'] + dec_digits(n)
    } else if n < 100 {
        seq!['0', '0'] + dec_digits(n)
    } else if n < 1000 {
        seq!['0'] + dec_digits(n)
    } else {
        dec_digits(n)
    }
}

pub open spec fn all_digits(s: Seq<char>) -> bool {
    forall|i: int| 0 <= i < s.len() ==> is_digit(#[trigger] s[i])
}

/// Numeric value of a digit string (0 for the empty string).
pub open spec fn digits_val(s: Seq<char>) -> nat
    decreases s.len(),
{
    if s.len() == 0 {
        0
    } else {
        digits_val(s.drop_last()) * 10 + (if digit_val(s.last()) >= 0 {
            digit_val(s.last()) as nat
        } else {
            0
        })
    }
}

/// What parsing a `u32` from a string of characters yields: the numeric value
/// of a non-empty all-digit string whose value fits, nothing otherwise.
pub open spec fn parse_u32_spec(s: Seq<char>) -> Option<u32> {
    if s.len() > 0 && all_digits(s) && digits_val(s) <= u32::MAX {
        Some(digits_val(s) as u32)
    } else {
        None
    }
}

pub fn digit_char_of(d: u32) -> (c: char)
    requires
        d < 10,
    ensures
        c == digit_char(d as int),
        is_digit(c),
        digit_val(c) == d,
{
    match d {
        0 => '0',
        1 => '1',
        2 => '2',
        3 => '3',
        4 => '4',
        5 => '5',
        6 => '6',
        7 => '7',
        8 => '8',
        _ => '9',
    }
}

/// Appends the decimal rendering of `n`.
pub fn push_u32_decimal(s: &mut String, n: u32)
    ensures
        final(s)@ == old(s)@ + dec_digits(n as nat),
    decreases n,
{
    if n < 10 {
        s.push(digit_char_of(n));
        assert(s@ =~= old(s)@ + dec_digits(n as nat));
    } else {
        push_u32_decimal(s, n / 10);
        s.push(digit_char_of(n % 10));
        assert(s@ =~= old(s)@ + dec_digits(n as nat));
    }
}

/// Appends the decimal rendering of `n`, zero-padded to at least two digits.
pub fn push_u32_pad2(s: &mut String, n: u32)
    ensures
        final(s)@ == old(s)@ + pad2_digits(n as nat),
{
    if n < 10 {
        s.push('0');
    }
    push_u32_decimal(s, n);
    assert(s@ =~= old(s)@ + pad2_digits(n as nat));
}

/// Appends the decimal rendering of `n`, zero-padded to at least four digits.
pub fn push_u32_pad4(s: &mut String, n: u32)
    ensures
        final(s)@ == old(s)@ + pad4_digits(n as nat),
{
    if n < 10 {
        s.push('0');
        s.push('0');
        s.push('0');
    } else if n < 100 {
        s.push('0');
        s.push('0');
    } else if n < 1000 {
        s.push('0');
    }
    push_u32_decimal(s, n);
    assert(s@ =~= old(s)@ + pad4_digits(n as nat));
}

proof fn lemma_digits_val_push(t: Seq<char>, c: char)
    requires
        is_digit(c),
    ensures
        digits_val(t.push(c)) == digits_val(t) * 10 + digit_val(c),
{
    assert(t.push(c).drop_last() =~= t);
    assert(t.push(c).last() == c);
}

/// Parses the character range `[from, to)` of `s` as a decimal `u32`.
pub fn parse_u32_range(s: &str, from: usize, to: usize) -> (r: Option<u32>)
    requires
        from <= to <= s@.len(),
    ensures
        r == parse_u32_spec(s@.subrange(from as int, to as int)),
{
    let ghost seg = s@.subrange(from as int, to as int);
    if from == to {
        return None;
    }
    let mut acc: u64 = 0;
    let mut i: usize = from;
    while i < to
        invariant
            from <= i <= to <= s@.len(),
            seg == s@.subrange(from as int, to as int),
            all_digits(seg.subrange(0, i as int - from as int)),
            digits_val(seg.subrange(0, i as int - from as int)) <= u32::MAX ==> acc == digits_val(
                seg.subrange(0, i as int - from as int),
            ),
            digits_val(seg.subrange(0, i as int - from as int)) > u32::MAX ==> acc > u32::MAX,
            acc <= 0xf_ffff_ffff,
        decreases to - i,
    {
        let c = s.get_char(i);
        proof {
            assert(seg[i as int - from as int] == c);
        }
        let cv = c as u32;
        if cv < 48 || cv > 57 {
            proof {
                assert(!is_digit(seg[i as int - from as int]));
            }
            return None;
        }
        let d = cv - 48;
        let ghost pre = seg.subrange(0, i as int - from as int);
        let ghost post = seg.subrange(0, i as int + 1 - from as int);
        proof {
            assert(post =~= pre.push(c));
            lemma_digits_val_push(pre, c);
        }
        if acc > u32::MAX as u64 {
            acc = 0x1_0000_0000;
        } else {
            acc = acc * 10 + d as u64;
        }
        i = i + 1;
    }
    proof {
        assert(seg.subrange(0, to as int - from as int) =~= seg);
    }
    if acc > u32::MAX as u64 {
        None
    } else {
        Some(acc as u32)
    }
}

pub proof fn lemma_dec_digits_all_digits(n: nat)
    ensures
        all_digits(dec_digits(n)),
        dec_digits(n).len() >= 1,
    decreases n,
{
    if n >= 10 {
        lemma_dec_digits_all_digits(n / 10);
    }
}

pub proof fn lemma_dec_digits_val(n: nat)
    ensures
        digits_val(dec_digits(n)) == n,
    decreases n,
{
    if n < 10 {
        assert(dec_digits(n).drop_last() =~= Seq::<char>::empty());
        assert(digits_val(Seq::<char>::empty()) == 0);
        assert(dec_digits(n).last() == digit_char(n as int));
    } else {
        lemma_dec_digits_val(n / 10);
        assert(dec_digits(n) == dec_digits(n / 10) + seq![digit_char((n % 10) as int)]);
        assert(dec_digits(n).drop_last() =~= dec_digits(n / 10));
        assert(dec_digits(n).last() == digit_char((n % 10) as int));
    }
}

proof fn lemma_digits_val_prepend_zero(t: Seq<char>)
    ensures
        digits_val(seq!['0'] + t) == digits_val(t),
    decreases t.len(),
{
    if t.len() == 0 {
        assert(seq!['0'] + t =~= seq!['0']);
        assert(digits_val(seq!['0']) == 0) by {
            assert(seq!['0'].drop_last() =~= Seq::<char>::empty());
            assert(digits_val(Seq::<char>::empty()) == 0);
        }
    } else {
        assert((seq!['0'] + t).drop_last() =~= seq!['0'] + t.drop_last());
        assert((seq!['0'] + t).last() == t.last());
        lemma_digits_val_prepend_zero(t.drop_last());
    }
}

/// Round trip: the decimal rendering of `n` parses back to `n`.
pub proof fn lemma_parse_of_dec(n: u32)
    ensures
        parse_u32_spec(dec_digits(n as nat)) == Some(n),
{
    lemma_dec_digits_all_digits(n as nat);
    lemma_dec_digits_val(n as nat);
}

/// Round trip: the two-digit-padded rendering of `n` parses back to `n`.
pub proof fn lemma_parse_of_pad2(n: u32)
    ensures
        parse_u32_spec(pad2_digits(n as nat)) == Some(n),
{
    lemma_dec_digits_all_digits(n as nat);
    lemma_dec_digits_val(n as nat);
    if n < 10 {
        lemma_digits_val_prepend_zero(dec_digits(n as nat));
    }
}

/// Round trip: the four-digit-padded rendering of `n` parses back to `n`.
pub proof fn lemma_parse_of_pad4(n: u32)
    ensures
        parse_u32_spec(pad4_digits(n as nat)) == Some(n),
{
    lemma_dec_digits_all_digits(n as nat);
    lemma_dec_digits_val(n as nat);
    if n < 10 {
        assert(pad4_digits(n as nat) =~= seq!['0'] + (seq!['0'] + (seq!['0'] + dec_digits(
            n as nat,
        ))));
        lemma_digits_val_prepend_zero(dec_digits(n as nat));
        lemma_digits_val_prepend_zero(seq!['0'] + dec_digits(n as nat));
        lemma_digits_val_prepend_zero(seq!['0'] + (seq!['0'] + dec_digits(n as nat)));
    } else if n < 100 {
        assert(pad4_digits(n as nat) =~= seq!['0'] + (seq!['0'] + dec_digits(n as nat)));
        lemma_digits_val_prepend_zero(dec_digits(n as nat));
        lemma_digits_val_prepend_zero(seq!['0'] + dec_digits(n as nat));
    } else if n < 1000 {
        lemma_digits_val_prepend_zero(dec_digits(n as nat));
    }
}


/// Padded renderings consist of digits only.
pub proof fn lemma_pad2_all_digits(n: nat)
    ensures
        all_digits(pad2_digits(n)),
        pad2_digits(n).len() >= 1,
{
    lemma_dec_digits_all_digits(n);
    assert(is_digit('0'));
}

pub proof fn lemma_pad4_all_digits(n: nat)
    ensures
        all_digits(pad4_digits(n)),
        pad4_digits(n).len() >= 1,
{
    lemma_dec_digits_all_digits(n);
    assert(is_digit('0'));
}

} // verus!
