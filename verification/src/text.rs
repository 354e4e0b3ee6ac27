//! Small verified text helpers: string comparison, ASCII case folding, and
//! rendering integers as decimal text.

use vstd::prelude::*;

verus! {

/// The code point of a character with an ASCII upper-case letter mapped to
/// its lower-case counterpart; every other character is left as it is.
pub open spec fn lower_code(c: char) -> int {
    if 65 <= c as u32 <= 90 {
        c as u32 + 32
    } else {
        c as u32 as int
    }
}

/// Two character sequences are equal up to ASCII case.
pub open spec fn eq_ignore_ascii_case(a: Seq<char>, b: Seq<char>) -> bool {
    &&& a.len() == b.len()
    &&& forall|i: int| 0 <= i < a.len() ==> lower_code(a[i]) == lower_code(b[i])
}

/// Character-by-character string equality.
pub fn str_eq(a: &str, b: &str) -> (r: bool)
    ensures
        r == (a@ == b@),
{
    let alen = a.unicode_len();
    let blen = b.unicode_len();
    if alen != blen {
        return false;
    }
    let mut i: usize = 0;
    while i < alen
        invariant
            i <= alen,
            alen == a@.len(),
            alen == b@.len(),
            forall|j: int| 0 <= j < i ==> a@[j] == b@[j],
        decreases alen - i,
    {
        if a.get_char(i) != b.get_char(i) {
            return false;
        }
        i = i + 1;
    }
    proof {
        assert(a@ =~= b@);
    }
    true
}

/// String equality up to ASCII case.
pub fn str_eq_ignore_ascii_case(a: &str, b: &str) -> (r: bool)
    ensures
        r == eq_ignore_ascii_case(a@, b@),
{
    let alen = a.unicode_len();
    let blen = b.unicode_len();
    if alen != blen {
        return false;
    }
    let mut i: usize = 0;
    while i < alen
        invariant
            i <= alen,
            alen == a@.len(),
            alen == b@.len(),
            forall|j: int| 0 <= j < i ==> lower_code(a@[j]) == lower_code(b@[j]),
        decreases alen - i,
    {
        let ca: u32 = a.get_char(i) as u32;
        let cb: u32 = b.get_char(i) as u32;
        let la: u32 = if 65 <= ca && ca <= 90 {
            ca + 32
        } else {
            ca
        };
        let lb: u32 = if 65 <= cb && cb <= 90 {
            cb + 32
        } else {
            cb
        };
        if la != lb {
            return false;
        }
        i = i + 1;
    }
    true
}

/// The decimal digit character for a value below ten.
pub open spec fn dec_digit_char(d: int) -> char {
    if d == 0 {
        '0'
    } else if d == 1 {
        '1'
    } else if d == 2 {
        '2'
    } else if d == 3 {
        '3'
    } else if d == 4 {
        '4'
    } else if d == 5 {
        '5'
    } else if d == 6 {
        '6'
    } else if d == 7 {
        '7'
    } else if d == 8 {
        '8'
    } else {
        '9'
    }
}

/// The decimal rendering of a non-negative integer, without sign or
/// leading zeros (except for zero itself).
pub open spec fn dec_str_nat(n: int) -> Seq<char>
    decreases n,
{
    if n < 10 {
        seq![dec_digit_char(n)]
    } else {
        dec_str_nat(n / 10) + seq![dec_digit_char(n % 10)]
    }
}

/// The decimal rendering of an integer: a leading minus sign for negative
/// values, then the digits.
pub open spec fn dec_str(n: int) -> Seq<char> {
    if n < 0 {
        seq!['-'] + dec_str_nat(-n)
    } else {
        dec_str_nat(n)
    }
}

/// The characters of a digit sequence read back to front, least significant
/// digit stored first.
spec fn digits_rev_chars(ds: Seq<u64>) -> Seq<char>
    decreases ds.len(),
{
    if ds.len() == 0 {
        Seq::empty()
    } else {
        seq![dec_digit_char(ds.last() as int)] + digits_rev_chars(ds.drop_last())
    }
}

proof fn lemma_digits_rev_chars_prepend(x: u64, s: Seq<u64>)
    ensures
        digits_rev_chars(seq![x] + s) == digits_rev_chars(s) + seq![dec_digit_char(x as int)],
    decreases s.len(),
{
    if s.len() == 0 {
        let t = seq![x] + s;
        assert(t =~= seq![x]);
        assert(t.last() == x);
        assert(t.drop_last() =~= Seq::<u64>::empty());
        assert(digits_rev_chars(t) == seq![dec_digit_char(x as int)] + digits_rev_chars(
            Seq::<u64>::empty(),
        ));
        assert(seq![dec_digit_char(x as int)] + Seq::<char>::empty() =~= digits_rev_chars(s)
            + seq![dec_digit_char(x as int)]);
    } else {
        let t = seq![x] + s;
        assert(t.last() == s.last());
        assert(t.drop_last() =~= seq![x] + s.drop_last());
        lemma_digits_rev_chars_prepend(x, s.drop_last());
        assert(seq![dec_digit_char(t.last() as int)] + (digits_rev_chars(s.drop_last())
            + seq![dec_digit_char(x as int)]) =~= digits_rev_chars(s) + seq![
            dec_digit_char(x as int),
        ]);
    }
}

/// A single decimal digit as a string slice.
fn digit_str(d: u64) -> (r: &'static str)
    requires
        d < 10,
    ensures
        r@ == seq![dec_digit_char(d as int)],
{
    proof {
        reveal_strlit("0");
        reveal_strlit("1");
        reveal_strlit("2");
        reveal_strlit("3");
        reveal_strlit("4");
        reveal_strlit("5");
        reveal_strlit("6");
        reveal_strlit("7");
        reveal_strlit("8");
        reveal_strlit("9");
    }
    let r = if d == 0 {
        "0"
    } else if d == 1 {
        "1"
    } else if d == 2 {
        "2"
    } else if d == 3 {
        "3"
    } else if d == 4 {
        "4"
    } else if d == 5 {
        "5"
    } else if d == 6 {
        "6"
    } else if d == 7 {
        "7"
    } else if d == 8 {
        "8"
    } else {
        "9"
    };
    proof {
        assert(r@ =~= seq![dec_digit_char(d as int)]);
    }
    r
}

/// Renders an unsigned integer as decimal text.
pub fn u64_to_string(n: u64) -> (r: String)
    ensures
        r@ == dec_str_nat(n as int),
{
    let mut digits: Vec<u64> = Vec::new();
    let mut m: u64 = n;
    while m >= 10
        invariant
            dec_str_nat(n as int) == dec_str_nat(m as int) + digits_rev_chars(digits@),
            forall|j: int| 0 <= j < digits@.len() ==> digits@[j] < 10,
        decreases m,
    {
        let d: u64 = m % 10;
        proof {
            let ds = digits@;
            assert(ds.push(d).last() == d);
            assert(ds.push(d).drop_last() =~= ds);
            assert(digits_rev_chars(ds.push(d)) == seq![dec_digit_char(d as int)]
                + digits_rev_chars(ds));
            assert(dec_str_nat(m as int) == dec_str_nat(m as int / 10) + seq![
                dec_digit_char(m as int % 10),
            ]);
            assert(dec_str_nat(m as int / 10) + (seq![dec_digit_char(d as int)]
                + digits_rev_chars(ds)) =~= (dec_str_nat(m as int / 10) + seq![
                dec_digit_char(d as int),
            ]) + digits_rev_chars(ds));
            assert((dec_str_nat(m as int / 10) + seq![dec_digit_char(d as int)])
                + digits_rev_chars(ds) =~= dec_str_nat(m as int) + digits_rev_chars(ds));
        }
        digits.push(d);
        m = m / 10;
    }
    let dlast: u64 = m;
    proof {
        let ds = digits@;
        assert(ds.push(dlast).last() == dlast);
        assert(ds.push(dlast).drop_last() =~= ds);
        assert(digits_rev_chars(ds.push(dlast)) == seq![dec_digit_char(dlast as int)]
            + digits_rev_chars(ds));
        assert(seq![dec_digit_char(dlast as int)] + digits_rev_chars(ds) =~= dec_str_nat(
            dlast as int,
        ) + digits_rev_chars(ds));
    }
    digits.push(dlast);
    // Digits are stored least significant first; emit them in reverse.
    let mut r = String::new();
    let mut i: usize = digits.len();
    while i > 0
        invariant
            i <= digits@.len(),
            forall|j: int| 0 <= j < digits@.len() ==> digits@[j] < 10,
            dec_str_nat(n as int) == digits_rev_chars(digits@),
            r@ == digits_rev_chars(digits@.subrange(i as int, digits@.len() as int)),
        decreases i,
    {
        i = i - 1;
        let d: u64 = digits[i];
        proof {
            let ds = digits@;
            let tail = ds.subrange(i + 1, ds.len() as int);
            assert(ds.subrange(i as int, ds.len() as int) =~= seq![d] + tail);
            lemma_digits_rev_chars_prepend(d, tail);
        }
        r.append(digit_str(d));
    }
    proof {
        assert(digits@.subrange(0, digits@.len() as int) =~= digits@);
    }
    r
}

/// Renders a signed integer as decimal text.
pub fn i64_to_string(n: i64) -> (r: String)
    ensures
        r@ == dec_str(n as int),
{
    if n < 0 {
        let mut r = String::new();
        r.append("-");
        let magnitude: i128 = -(n as i128);
        let digits = u64_to_string(magnitude as u64);
        r.append(digits.as_str());
        proof {
            reveal_strlit("-");
            assert("-"@ =~= seq!['-']);
            assert(Seq::<char>::empty() + "-"@ =~= seq!['-']);
        }
        r
    } else {
        u64_to_string(n as u64)
    }
}

} // verus!
