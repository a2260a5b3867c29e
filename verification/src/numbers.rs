//! Decimal text of integers, and parsing it back.
//!
//! The user-facing messages carry page numbers and counts; the inline
//! keyboard round-trips a page number through callback data.

use vstd::prelude::*;

use vstd::string::StrSliceExecFns;
use vstd::string::StringExecFns;

verus! {

/// The decimal digit character of a value below ten.
pub open spec fn digit_char(d: int) -> char {
    if d == 0 {
        '0'
    } else if d == 1 {
        '1'
    } else if d == 2 {
        '2'
    } else if d == 3 {
        '3'
    } else if d == 4 {
        '4'
    } else if d == 5 {
        '5'
    } else if d == 6 {
        '6'
    } else if d == 7 {
        '7'
    } else if d == 8 {
        '8'
    } else {
        '9'
    }
}

/// The decimal text of a nonnegative value, no leading zeroes.
pub open spec fn dec_digits(n: nat) -> Seq<char>
    decreases n,
{
    if n < 10 {
        seq![digit_char(n as int)]
    } else {
        dec_digits(n / 10) + seq![digit_char((n % 10) as int)]
    }
}

/// The decimal text of a value, a minus sign ahead of a negative one.
pub open spec fn dec_int(n: int) -> Seq<char> {
    if n < 0 {
        seq!['-'] + dec_digits((-n) as nat)
    } else {
        dec_digits(n as nat)
    }
}

/// One decimal digit as text.
fn digit_str(d: u64) -> (r: &'static str)
    requires
        d < 10,
    ensures
        r@ == seq![digit_char(d as int)],
{
    let r: &'static str = match d {
        0 => "0",
        1 => "1",
        2 => "2",
        3 => "3",
        4 => "4",
        5 => "5",
        6 => "6",
        7 => "7",
        8 => "8",
        _ => "9",
    };
    proof {
        reveal_strlit("0");
        reveal_strlit("1");
        reveal_strlit("2");
        reveal_strlit("3");
        reveal_strlit("4");
        reveal_strlit("5");
        reveal_strlit("6");
        reveal_strlit("7");
        reveal_strlit("8");
        reveal_strlit("9");
        assert(r@ =~= seq![digit_char(d as int)]);
    }
    r
}

/// The decimal text of an unsigned value.
pub fn u64_to_dec(n: u64) -> (r: String)
    ensures
        r@ == dec_digits(n as nat),
    decreases n,
{
    if n < 10 {
        String::from_str(digit_str(n))
    } else {
        let mut s = u64_to_dec(n / 10);
        s.append(digit_str(n % 10));
        s
    }
}

/// The decimal text of a signed value.
pub fn i64_to_dec(v: i64) -> (r: String)
    ensures
        r@ == dec_int(v as int),
{
    if v >= 0 {
        u64_to_dec(v as u64)
    } else {
        let mut s = String::from_str("-");
        let mag: u64 = (-(v + 1)) as u64 + 1;
        proof {
            reveal_strlit("-");
            assert(mag as int == -(v as int));
            assert(s@ =~= seq!['-']);
        }
        let digits = u64_to_dec(mag);
        s.append(digits.as_str());
        s
    }
}

/// A decimal digit.
pub open spec fn is_digit(c: char) -> bool {
    '0' <= c <= '9'
}

/// Its value.
pub open spec fn digit_val(c: char) -> int {
    c as int - '0' as int
}

/// Text of digits only.
pub open spec fn all_digits(s: Seq<char>) -> bool {
    forall|i: int| 0 <= i < s.len() ==> is_digit(#[trigger] s[i])
}

/// The value digit text denotes.
pub open spec fn digits_value(s: Seq<char>) -> int
    decreases s.len(),
{
    if s.len() == 0 {
        0
    } else {
        digits_value(s.drop_last()) * 10 + digit_val(s.last())
    }
}

/// The value of a digit prefix never exceeds the whole.
proof fn lemma_digits_value_prefix(s: Seq<char>, i: int)
    requires
        all_digits(s),
        0 <= i <= s.len(),
    ensures
        0 <= digits_value(s.take(i)) <= digits_value(s),
    decreases s.len() - i,
{
    if i == s.len() {
        assert(s.take(i) =~= s);
        lemma_digits_value_nonneg(s);
    } else {
        assert(s.take(i + 1).drop_last() =~= s.take(i));
        assert(s.take(i + 1).last() == s[i]);
        lemma_digits_value_prefix(s, i + 1);
        lemma_digits_value_nonneg(s.take(i));
    }
}

/// Digit text denotes a nonnegative value.
proof fn lemma_digits_value_nonneg(s: Seq<char>)
    requires
        all_digits(s),
    ensures
        digits_value(s) >= 0,
    decreases s.len(),
{
    if s.len() > 0 {
        assert(all_digits(s.drop_last())) by {
            assert(forall|i: int|
                0 <= i < s.drop_last().len() ==> #[trigger] s.drop_last()[i] == s[i]);
        }
        lemma_digits_value_nonneg(s.drop_last());
    }
}

/// Parses nonempty digit text; anything else, and any value beyond
/// `usize`, is `None`.
pub fn parse_usize(s: &str) -> (r: Option<usize>)
    ensures
        match r {
            Some(n) => s@.len() > 0 && all_digits(s@) && n as int == digits_value(s@),
            None => s@.len() == 0 || !all_digits(s@) || digits_value(s@) > usize::MAX as int,
        },
{
    let n = s.unicode_len();
    if n == 0 {
        return None;
    }
    let mut acc: usize = 0;
    let mut i: usize = 0;
    while i < n
        invariant
            0 < n == s@.len(),
            i <= n,
            all_digits(s@.take(i as int)),
            acc as int == digits_value(s@.take(i as int)),
        decreases n - i,
    {
        let c = s.get_char(i);
        let code = c as u32;
        proof {
            assert(s@.take(i + 1 as int).drop_last() =~= s@.take(i as int));
            assert(s@.take(i + 1 as int).last() == s@[i as int]);
        }
        if code < 48 || code > 57 {
            proof {
                assert(!is_digit(s@[i as int]));
            }
            return None;
        }
        let d = (code - 48) as usize;
        proof {
            assert(is_digit(s@[i as int]));
            assert(d as int == digit_val(s@[i as int]));
            assert(all_digits(s@.take(i + 1 as int)));
        }
        if acc > (usize::MAX - d) / 10 {
            proof {
                assert(acc as int * 10 + d as int > usize::MAX as int) by (nonlinear_arith)
                    requires
                        acc as int > (usize::MAX as int - d as int) / 10,
                        0 <= d as int <= 9,
                {
                }
                assert(digits_value(s@.take(i + 1 as int)) == acc as int * 10 + d as int);
                if all_digits(s@) {
                    lemma_digits_value_prefix(s@, i + 1 as int);
                }
            }
            return None;
        }
        proof {
            assert(acc as int * 10 + d as int <= usize::MAX as int) by (nonlinear_arith)
                requires
                    acc as int <= (usize::MAX as int - d as int) / 10,
                    0 <= d as int <= 9,
                    acc as int >= 0,
            {
            }
        }
        acc = acc * 10 + d;
        i += 1;
    }
    proof {
        assert(s@.take(n as int) =~= s@);
    }
    Some(acc)
}

/// Round trip: the decimal text of a value parses back to it.
pub proof fn lemma_dec_digits_value(n: nat)
    ensures
        all_digits(dec_digits(n)),
        digits_value(dec_digits(n)) == n,
        dec_digits(n).len() > 0,
    decreases n,
{
    if n < 10 {
        let s1 = dec_digits(n);
        assert(s1 =~= seq![digit_char(n as int)]);
        assert(s1.drop_last() =~= Seq::<char>::empty());
        assert(digits_value(s1) == digits_value(s1.drop_last()) * 10 + digit_val(s1.last()));
        assert(digit_val(digit_char(n as int)) == n as int);
    } else {
        lemma_dec_digits_value(n / 10);
        let prefix = dec_digits(n / 10);
        let whole = dec_digits(n);
        assert(whole == prefix + seq![digit_char((n % 10) as int)]);
        assert(whole.drop_last() =~= prefix);
        assert(whole.last() == digit_char((n % 10) as int));
        assert(digit_val(digit_char((n % 10) as int)) == (n % 10) as int);
        assert(digits_value(whole) == (n / 10) as int * 10 + (n % 10) as int);
        assert((n / 10) as int * 10 + (n % 10) as int == n as int);
        assert(all_digits(whole)) by {
            assert(forall|i: int|
                0 <= i < prefix.len() ==> #[trigger] whole[i] == prefix[i]);
        }
    }
}

} // verus!
