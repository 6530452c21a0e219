//! Decimal text for integers.
//!
//! A few wire fields carry 64-bit integers as JSON strings of decimal
//! digits, and JSON object keys are always strings even when the schema
//! keys a map by an integer.  This module gives the library an exact,
//! verified mapping between such text and the integers it denotes.

use vstd::prelude::*;

verus! {

pub open spec fn is_digit(c: char) -> bool {
    '0' <= c && c <= '9'
}

pub open spec fn digit_val(c: char) -> int {
    c as int - '0' as int
}

pub open spec fn all_digits(s: Seq<char>) -> bool {
    forall|i: int| 0 <= i < s.len() ==> is_digit(#[trigger] s[i])
}

/// The integer denoted by a sequence of decimal digits, most significant
/// first.  The empty sequence denotes zero.
pub open spec fn dec_val(s: Seq<char>) -> int
    decreases s.len(),
{
    if s.len() == 0 {
        0
    } else {
        dec_val(s.drop_last()) * 10 + digit_val(s.last())
    }
}

/// The digit part of an unsigned decimal text: a leading `+` is allowed,
/// as `str::parse` allows it.
pub open spec fn unsigned_digits(s: Seq<char>) -> Seq<char> {
    if s.len() > 0 && s[0] == '+' {
        s.skip(1)
    } else {
        s
    }
}

/// Whether `s` is text that `str::parse::<u64>` accepts.
pub open spec fn is_u64_text(s: Seq<char>) -> bool {
    &&& unsigned_digits(s).len() > 0
    &&& all_digits(unsigned_digits(s))
    &&& dec_val(unsigned_digits(s)) <= u64::MAX
}

/// The value of an accepted unsigned decimal text.
pub open spec fn u64_text_val(s: Seq<char>) -> int {
    dec_val(unsigned_digits(s))
}

pub proof fn lemma_dec_val_nonneg(s: Seq<char>)
    requires
        all_digits(s),
    ensures
        dec_val(s) >= 0,
    decreases s.len(),
{
    if s.len() > 0 {
        assert(all_digits(s.drop_last()));
        lemma_dec_val_nonneg(s.drop_last());
    }
}

/// Appending digits never shrinks the denoted value.
pub proof fn lemma_dec_val_prefix(s: Seq<char>, k: int)
    requires
        all_digits(s),
        0 <= k <= s.len(),
    ensures
        dec_val(s) >= dec_val(s.take(k)),
    decreases s.len() - k,
{
    if k < s.len() {
        lemma_dec_val_prefix(s, k + 1);
        assert(s.take(k + 1).drop_last() =~= s.take(k));
        assert(all_digits(s.take(k)));
        lemma_dec_val_nonneg(s.take(k));
        assert(dec_val(s.take(k + 1)) == dec_val(s.take(k)) * 10 + digit_val(s[k]));
    } else {
        assert(s.take(k) =~= s);
    }
}

/// Parses an unsigned decimal text, as `str::parse::<u64>` does: an
/// optional leading `+`, then at least one digit, and the value must fit.
pub fn parse_u64(s: &str) -> (r: Option<u64>)
    ensures
        r matches Some(v) ==> is_u64_text(s@) && v == u64_text_val(s@),
        r is None <==> !is_u64_text(s@),
{
    let n = s.unicode_len();
    let start: usize = if n > 0 && s.get_char(0) == '+' {
        1
    } else {
        0
    };
    let ghost d = unsigned_digits(s@);
    proof {
        assert(d =~= s@.skip(start as int));
        assert(d.take(0) =~= Seq::<char>::empty());
    }
    if n == start {
        return None;
    }
    let mut acc: u64 = 0;
    let mut i: usize = start;
    while i < n
        invariant
            start <= i <= n,
            n == s@.len(),
            d == unsigned_digits(s@),
            d == s@.skip(start as int),
            all_digits(d.take(i - start)),
            acc == dec_val(d.take(i - start)),
        decreases n - i,
    {
        let c = s.get_char(i);
        proof {
            assert(d[i - start] == s@[i as int]);
        }
        if c < '0' || c > '9' {
            proof {
                assert(0 <= i - start < d.len());
                assert(!is_digit(d[i - start]));
                assert(!all_digits(d));
                assert(!is_u64_text(s@));
            }
            return None;
        }
        let dv: u64 = (c as u32 - '0' as u32) as u64;
        proof {
            assert(d.take(i - start + 1).drop_last() =~= d.take(i - start));
            assert(d.take(i - start + 1).last() == d[i - start]);
        }
        if acc > (u64::MAX - dv) / 10 {
            proof {
                assert(dec_val(d.take(i - start + 1)) == acc * 10 + dv);
                assert(acc * 10 + dv > u64::MAX) by (nonlinear_arith)
                    requires
                        acc > (u64::MAX - dv) / 10,
                        dv <= 9,
                ;
                if all_digits(d) {
                    lemma_dec_val_prefix(d, i - start + 1);
                    assert(dec_val(d) > u64::MAX);
                }
                assert(!is_u64_text(s@));
            }
            return None;
        }
        acc = acc * 10 + dv;
        i = i + 1;
    }
    proof {
        assert(d.take(i - start) =~= d);
    }
    Some(acc)
}

pub open spec fn digit_char(d: int) -> char {
    if d == 0 {
        '0'
    } else if d == 1 {
        '1'
    } else if d == 2 {
        '2'
    } else if d == 3 {
        '3'
    } else if d == 4 {
        '4'
    } else if d == 5 {
        '5'
    } else if d == 6 {
        '6'
    } else if d == 7 {
        '7'
    } else if d == 8 {
        '8'
    } else {
        '9'
    }
}

/// The canonical decimal text of a non-negative integer: no sign, no
/// leading zero except for zero itself.
pub open spec fn dec_string(n: int) -> Seq<char>
    recommends
        n >= 0,
    decreases n,
{
    if n < 10 {
        seq![digit_char(n)]
    } else {
        dec_string(n / 10).push(digit_char(n % 10))
    }
}

pub proof fn lemma_dec_string_ok(n: int)
    requires
        n >= 0,
    ensures
        dec_string(n).len() > 0,
        all_digits(dec_string(n)),
        dec_val(dec_string(n)) == n,
        is_digit(dec_string(n)[0]),
    decreases n,
{
    if n < 10 {
        assert(dec_string(n) =~= seq![digit_char(n)]);
        assert(dec_string(n).drop_last() =~= Seq::<char>::empty());
        assert(dec_string(n).last() == digit_char(n));
        assert(digit_val(digit_char(n)) == n);
        assert(dec_val(dec_string(n)) == dec_val(Seq::<char>::empty()) * 10 + n);
    } else {
        lemma_dec_string_ok(n / 10);
        let prev = dec_string(n / 10);
        let whole = prev.push(digit_char(n % 10));
        assert(whole.drop_last() =~= prev);
        assert(whole.last() == digit_char(n % 10));
        assert(dec_val(whole) == dec_val(prev) * 10 + digit_val(digit_char(n % 10)));
        assert(dec_val(whole) == (n / 10) * 10 + n % 10);
        assert(forall|i: int| 0 <= i < whole.len() ==> is_digit(#[trigger] whole[i]));
    }
}

fn digit_str(d: u64) -> (r: &'static str)
    requires
        d < 10,
    ensures
        r@ == seq![digit_char(d as int)],
{
    proof {
        reveal_strlit("0");
        reveal_strlit("1");
        reveal_strlit("2");
        reveal_strlit("3");
        reveal_strlit("4");
        reveal_strlit("5");
        reveal_strlit("6");
        reveal_strlit("7");
        reveal_strlit("8");
        reveal_strlit("9");
    }
    let r = if d == 0 {
        "0"
    } else if d == 1 {
        "1"
    } else if d == 2 {
        "2"
    } else if d == 3 {
        "3"
    } else if d == 4 {
        "4"
    } else if d == 5 {
        "5"
    } else if d == 6 {
        "6"
    } else if d == 7 {
        "7"
    } else if d == 8 {
        "8"
    } else {
        "9"
    };
    proof {
        assert(r@ =~= seq![digit_char(d as int)]);
    }
    r
}

/// Prints an unsigned 64-bit integer as its canonical decimal text.
pub fn u64_to_string(n: u64) -> (r: String)
    ensures
        r@ == dec_string(n as int),
    decreases n,
{
    let last = digit_str(n % 10);
    if n < 10 {
        last.to_owned()
    } else {
        let mut s = u64_to_string(n / 10);
        s.append(last);
        proof {
            assert(dec_string((n / 10) as int).push(digit_char((n % 10) as int))
                =~= dec_string((n / 10) as int) + seq![digit_char((n % 10) as int)]);
        }
        s
    }
}

/// The canonical decimal text of any integer: a `-` sign ahead of the
/// magnitude when negative.
pub open spec fn int_dec_string(n: int) -> Seq<char> {
    if n < 0 {
        seq!['-'] + dec_string(-n)
    } else {
        dec_string(n)
    }
}

/// Prints a signed 64-bit integer as its canonical decimal text.
pub fn i64_to_string(n: i64) -> (r: String)
    ensures
        r@ == int_dec_string(n as int),
{
    if n >= 0 {
        u64_to_string(n as u64)
    } else {
        let mag: u64 = if n == i64::MIN {
            9223372036854775808
        } else {
            (-n) as u64
        };
        let mut s = "-".to_owned();
        let digits = u64_to_string(mag);
        s.append(digits.as_str());
        proof {
            reveal_strlit("-");
            assert(s@ =~= int_dec_string(n as int));
        }
        s
    }
}

/// Printing an unsigned integer and parsing the text again gives the
/// integer back.
pub proof fn lemma_u64_text_round_trip(v: u64)
    ensures
        is_u64_text(dec_string(v as int)),
        u64_text_val(dec_string(v as int)) == v,
{
    lemma_dec_string_ok(v as int);
    assert(dec_string(v as int)[0] != '+');
    assert(unsigned_digits(dec_string(v as int)) == dec_string(v as int));
}

} // verus!
