use vstd::prelude::*;
use vstd::string::{StrSliceExecFns, StringExecFns};

verus! {

broadcast use vstd::string::group_string_axioms;

/// The character of one decimal digit.
pub open spec fn digit_char(d: int) -> char {
    if d == 0 {
        '0'
    } else if d == 1 {
        '1'
    } else if d == 2 {
        '2'
    } else if d == 3 {
        '3'
    } else if d == 4 {
        '4'
    } else if d == 5 {
        '5'
    } else if d == 6 {
        '6'
    } else if d == 7 {
        '7'
    } else if d == 8 {
        '8'
    } else {
        '9'
    }
}

/// The decimal form of a non-negative integer, most significant digit
/// first, with no sign and no leading zero (except for zero itself).
pub open spec fn dec_chars(v: int) -> Seq<char>
    recommends
        v >= 0,
    decreases v,
{
    if v < 10 {
        seq![digit_char(v)]
    } else {
        dec_chars(v / 10) + seq![digit_char(v % 10)]
    }
}

pub open spec fn is_dec_digit(c: char) -> bool {
    48 <= (c as u32) <= 57
}

pub open spec fn all_digits(s: Seq<char>) -> bool {
    forall|i: int| 0 <= i < s.len() ==> is_dec_digit(#[trigger] s[i])
}

/// The value of a digit string, most significant digit first.
pub open spec fn digits_val(s: Seq<char>) -> int
    decreases s.len(),
{
    if s.len() == 0 {
        0
    } else {
        digits_val(s.drop_last()) * 10 + ((s.last() as u32) - 48)
    }
}

/// The digits of a decimal string: an optional leading `+` is skipped.
pub open spec fn dec_body(s: Seq<char>) -> Seq<char> {
    if s.len() > 0 && s[0] == '+' {
        s.drop_first()
    } else {
        s
    }
}

/// The strings accepted as a 128-bit unsigned decimal: an optional
/// leading `+`, then one or more digits, naming a value below `2^128`.
pub open spec fn parses_as_u128(s: Seq<char>) -> bool {
    &&& dec_body(s).len() > 0
    &&& all_digits(dec_body(s))
    &&& digits_val(dec_body(s)) < 0x1_0000_0000_0000_0000_0000_0000_0000_0000
}

/// A one-character string slice for a single decimal digit.
pub(crate) fn digit_str(d: u128) -> (r: &'static str)
    requires
        d < 10,
    ensures
        r@ =~= seq![digit_char(d as int)],
{
    if d == 0 {
        proof {
            reveal_strlit("0");
            assert("0"@ =~= seq!['0']);
        }
        "0"
    } else if d == 1 {
        proof {
            reveal_strlit("1");
            assert("1"@ =~= seq!['1']);
        }
        "1"
    } else if d == 2 {
        proof {
            reveal_strlit("2");
            assert("2"@ =~= seq!['2']);
        }
        "2"
    } else if d == 3 {
        proof {
            reveal_strlit("3");
            assert("3"@ =~= seq!['3']);
        }
        "3"
    } else if d == 4 {
        proof {
            reveal_strlit("4");
            assert("4"@ =~= seq!['4']);
        }
        "4"
    } else if d == 5 {
        proof {
            reveal_strlit("5");
            assert("5"@ =~= seq!['5']);
        }
        "5"
    } else if d == 6 {
        proof {
            reveal_strlit("6");
            assert("6"@ =~= seq!['6']);
        }
        "6"
    } else if d == 7 {
        proof {
            reveal_strlit("7");
            assert("7"@ =~= seq!['7']);
        }
        "7"
    } else if d == 8 {
        proof {
            reveal_strlit("8");
            assert("8"@ =~= seq!['8']);
        }
        "8"
    } else {
        proof {
            reveal_strlit("9");
            assert("9"@ =~= seq!['9']);
        }
        "9"
    }
}

/// Renders a value in its canonical decimal form.
pub fn u128_to_decimal(v: u128) -> (r: String)
    ensures
        r@ == dec_chars(v as int),
    decreases v,
{
    if v < 10 {
        String::from_str(digit_str(v))
    } else {
        let mut s = u128_to_decimal(v / 10);
        s.append(digit_str(v % 10));
        proof {
            assert(s@ =~= dec_chars((v / 10) as int) + seq![digit_char((v % 10) as int)]);
        }
        s
    }
}

/// Reads a decimal string as a 128-bit unsigned value; `None` exactly
/// on input that is not such a numeral or names a value of 129 bits
/// or more.
pub fn parse_u128(s: &str) -> (r: Option<u128>)
    ensures
        parses_as_u128(s@) ==> (r matches Some(v) && v as int == digits_val(dec_body(s@))),
        !parses_as_u128(s@) ==> r is None,
{
    let len = s.unicode_len();
    let mut start: usize = 0;
    if len > 0 && s.get_char(0) == '+' {
        start = 1;
    }
    let ghost body = dec_body(s@);
    proof {
        assert(body =~= s@.skip(start as int));
    }
    if start >= len {
        proof {
            assert(body.len() == 0);
        }
        return None;
    }
    let mut acc: u128 = 0;
    let mut i: usize = start;
    while i < len
        invariant
            start <= i <= len,
            len == s@.len(),
            start <= 1,
            body == dec_body(s@),
            body =~= s@.skip(start as int),
            all_digits(body.take((i - start) as int)),
            acc as int == digits_val(body.take((i - start) as int)),
        decreases len - i,
    {
        let c = s.get_char(i);
        let cu = c as u32;
        let ghost k = (i - start) as int;
        proof {
            assert(body[k] == s@[i as int]);
            assert(body.take(k + 1).drop_last() =~= body.take(k));
            assert(body.take(k + 1).last() == body[k]);
        }
        if cu < 48 || cu > 57 {
            proof {
                assert(!is_dec_digit(body[k]));
                assert(!all_digits(body));
            }
            return None;
        }
        let d = (cu - 48) as u128;
        let acc10 = match acc.checked_mul(10) {
            Some(x) => x,
            None => {
                proof {
                    lemma_overflow_rejects(body, k, acc as int, d as int);
                }
                return None;
            },
        };
        acc = match acc10.checked_add(d) {
            Some(x) => x,
            None => {
                proof {
                    lemma_overflow_rejects(body, k, acc as int, d as int);
                }
                return None;
            },
        };
        i += 1;
    }
    proof {
        assert(body.take((len - start) as int) =~= body);
    }
    Some(acc)
}

/// A digit string's value is non-negative.
proof fn lemma_digits_val_nonneg(s: Seq<char>)
    requires
        all_digits(s),
    ensures
        digits_val(s) >= 0,
    decreases s.len(),
{
    if s.len() > 0 {
        assert(all_digits(s.drop_last())) by {
            assert forall|i: int| 0 <= i < s.len() - 1 implies is_dec_digit(
                #[trigger] s.drop_last()[i],
            ) by {
                assert(s.drop_last()[i] == s[i]);
            }
        }
        lemma_digits_val_nonneg(s.drop_last());
    }
}

/// Extending a digit string never shrinks its value.
proof fn lemma_digits_val_prefix_le(s: Seq<char>, k: int)
    requires
        all_digits(s),
        0 <= k <= s.len(),
    ensures
        digits_val(s.take(k)) <= digits_val(s),
    decreases s.len() - k,
{
    assert(all_digits(s.take(k))) by {
        assert forall|i: int| 0 <= i < k implies is_dec_digit(#[trigger] s.take(k)[i]) by {
            assert(s.take(k)[i] == s[i]);
        }
    }
    if k == s.len() {
        assert(s.take(k) =~= s);
    } else {
        assert(s.take(k + 1).drop_last() =~= s.take(k));
        assert(s.take(k + 1).last() == s[k]);
        lemma_digits_val_nonneg(s.take(k));
        assert(digits_val(s.take(k + 1)) == digits_val(s.take(k)) * 10 + ((s[k] as u32) - 48));
        lemma_digits_val_prefix_le(s, k + 1);
    }
}

/// When the running value would leave 128 bits, the whole string
/// cannot name a 128-bit value either.
proof fn lemma_overflow_rejects(body: Seq<char>, k: int, acc: int, d: int)
    requires
        0 <= k < body.len(),
        acc == digits_val(body.take(k)),
        is_dec_digit(body[k]),
        d == (body[k] as u32) - 48,
        all_digits(body.take(k)),
        acc * 10 + d >= 0x1_0000_0000_0000_0000_0000_0000_0000_0000,
    ensures
        !parses_as_u128(body) || dec_body(body) != body,
        !(all_digits(body) && digits_val(body) < 0x1_0000_0000_0000_0000_0000_0000_0000_0000),
{
    if all_digits(body) {
        assert(body.take(k + 1).drop_last() =~= body.take(k));
        assert(body.take(k + 1).last() == body[k]);
        assert(digits_val(body.take(k + 1)) == acc * 10 + d);
        lemma_digits_val_prefix_le(body, k + 1);
    }
}

/// Round trip: the decimal form of any 128-bit value is a plain digit
/// string that parses back to exactly that value.
pub proof fn lemma_decimal_round_trip(v: u128)
    ensures
        all_digits(dec_chars(v as int)),
        dec_body(dec_chars(v as int)) == dec_chars(v as int),
        digits_val(dec_chars(v as int)) == v as int,
        parses_as_u128(dec_chars(v as int)),
    decreases v,
{
    lemma_digit_char_code();
    if v < 10 {
        let s = dec_chars(v as int);
        assert(s.len() == 1);
        assert(s[0] == digit_char(v as int));
        assert(s.last() == digit_char(v as int));
        assert(s.drop_last() =~= Seq::<char>::empty());
        assert(digits_val(Seq::<char>::empty()) == 0);
        assert(digits_val(s) == digits_val(s.drop_last()) * 10 + ((s.last() as u32) - 48));
    } else {
        lemma_decimal_round_trip(v / 10);
        let s = dec_chars(v as int);
        let p = dec_chars((v / 10) as int);
        assert(s == p + seq![digit_char((v % 10) as int)]);
        assert(s.drop_last() =~= p);
        assert(s.last() == digit_char((v % 10) as int));
        assert forall|i: int| 0 <= i < s.len() implies is_dec_digit(#[trigger] s[i]) by {
            if i < p.len() {
                assert(s[i] == p[i]);
            }
        }
        assert(digits_val(s) == digits_val(p) * 10 + ((digit_char((v % 10) as int) as u32) - 48));
        assert(digits_val(s) == (v / 10) as int * 10 + (v % 10) as int);
        assert(v as int == (v / 10) as int * 10 + (v % 10) as int);
        assert(s[0] == p[0]);
    }
}

/// Each digit character sits at its place in the numeral block.
proof fn lemma_digit_char_code()
    ensures
        forall|d: int| 0 <= d < 10 ==> (#[trigger] digit_char(d) as u32) == 48 + d,
        forall|d: int| 0 <= d < 10 ==> #[trigger] digit_char(d) != '+',
{
    assert(('0' as u32) == 48);
    assert(('1' as u32) == 49);
    assert(('2' as u32) == 50);
    assert(('3' as u32) == 51);
    assert(('4' as u32) == 52);
    assert(('5' as u32) == 53);
    assert(('6' as u32) == 54);
    assert(('7' as u32) == 55);
    assert(('8' as u32) == 56);
    assert(('9' as u32) == 57);
    assert(('+' as u32) == 43);
    assert forall|d: int| 0 <= d < 10 implies #[trigger] digit_char(d) != '+' by {
        if digit_char(d) == '+' {
            assert((digit_char(d) as u32) == 43);
        }
    }
}

} // verus!
