//! Decimal numerals: the specification of how a string denotes a
//! non-negative integer, a verified parser, and a verified printer.
//!
//! Request parameters arrive as text and response messages carry the accepted
//! value back as text, so both directions are pinned down here: `parse_u64`
//! accepts exactly the strings that denote a value fitting in `u64` (an
//! optional leading `+`, then one or more decimal digits), and
//! `u64_to_string` produces the canonical numeral of a value.

use vstd::prelude::*;
use vstd::string::*;

verus! {

/// A decimal digit character, `'0'` through `'9'`.
pub open spec fn is_dec_digit(c: char) -> bool {
    48 <= c as int && c as int <= 57
}

/// Numeric value of one decimal digit character.
pub open spec fn digit_val(c: char) -> int {
    c as int - 48
}

/// The digit character for a value in `[0, 9]`.
pub open spec fn digit_char(d: int) -> char {
    if d == 0 {
        '0'
    } else if d == 1 {
        '1'
    } else if d == 2 {
        '2'
    } else if d == 3 {
        '3'
    } else if d == 4 {
        '4'
    } else if d == 5 {
        '5'
    } else if d == 6 {
        '6'
    } else if d == 7 {
        '7'
    } else if d == 8 {
        '8'
    } else {
        '9'
    }
}

/// Every character of `s` is a decimal digit.
pub open spec fn all_digits(s: Seq<char>) -> bool {
    forall|i: int| 0 <= i < s.len() ==> is_dec_digit(#[trigger] s[i])
}

/// The value denoted by a sequence of digit characters, most significant
/// first; the empty sequence denotes 0.
pub open spec fn dec_val(s: Seq<char>) -> int
    decreases s.len(),
{
    if s.len() == 0 {
        0
    } else {
        dec_val(s.drop_last()) * 10 + digit_val(s.last())
    }
}

/// The canonical decimal numeral of `n`: no sign, no leading zero except for
/// `n == 0` itself.
pub open spec fn dec_digits(n: nat) -> Seq<char>
    decreases n,
{
    if n < 10 {
        seq![digit_char(n as int)]
    } else {
        dec_digits(n / 10) + seq![digit_char((n % 10) as int)]
    }
}

/// The digits of a numeral, with an optional leading `+` sign removed.
pub open spec fn numeral_body(s: Seq<char>) -> Seq<char> {
    if s.len() > 0 && s[0] == '+' {
        s.subrange(1, s.len() as int)
    } else {
        s
    }
}

/// `s` denotes a non-negative integer that fits in `u64`: after an optional
/// leading `+`, one or more decimal digits whose value is at most `u64::MAX`.
pub open spec fn is_u64_numeral(s: Seq<char>) -> bool {
    let b = numeral_body(s);
    &&& b.len() > 0
    &&& all_digits(b)
    &&& dec_val(b) <= u64::MAX
}

/// The value a numeral denotes.
pub open spec fn numeral_value(s: Seq<char>) -> int {
    dec_val(numeral_body(s))
}

/// The value of a digit sequence is never negative.
pub proof fn lemma_dec_val_nonneg(s: Seq<char>)
    requires
        all_digits(s),
    ensures
        dec_val(s) >= 0,
    decreases s.len(),
{
    if s.len() > 0 {
        assert(all_digits(s.drop_last()));
        lemma_dec_val_nonneg(s.drop_last());
    }
}

/// Appending one digit multiplies the value by ten and adds the digit.
pub proof fn lemma_dec_val_push(s: Seq<char>, c: char)
    ensures
        dec_val(s.push(c)) == dec_val(s) * 10 + digit_val(c),
{
    assert(s.push(c).drop_last() =~= s);
    assert(s.push(c).last() == c);
}

/// A digit sequence denotes at least as much as any of its prefixes.
pub proof fn lemma_dec_val_prefix(s: Seq<char>, k: int)
    requires
        all_digits(s),
        0 <= k <= s.len(),
    ensures
        dec_val(s) >= dec_val(s.subrange(0, k)),
    decreases s.len() - k,
{
    if k == s.len() {
        assert(s.subrange(0, k) =~= s);
    } else {
        let shorter = s.subrange(0, k);
        let longer = s.subrange(0, k + 1);
        assert(longer.drop_last() =~= shorter);
        assert(all_digits(shorter));
        lemma_dec_val_nonneg(shorter);
        assert(is_dec_digit(s[k]));
        assert(dec_val(longer) == dec_val(shorter) * 10 + digit_val(s[k]));
        assert(dec_val(longer) >= dec_val(shorter));
        lemma_dec_val_prefix(s, k + 1);
    }
}

/// The canonical numeral of `n` is made of digits, is never empty, and
/// denotes `n` itself.
pub proof fn lemma_dec_digits_val(n: nat)
    ensures
        dec_digits(n).len() >= 1,
        all_digits(dec_digits(n)),
        dec_val(dec_digits(n)) == n,
    decreases n,
{
    if n < 10 {
        let s = dec_digits(n);
        assert(s.drop_last() =~= Seq::<char>::empty());
        assert(dec_val(Seq::<char>::empty()) == 0);
        assert(s.last() == digit_char(n as int));
        assert(dec_val(s) == dec_val(s.drop_last()) * 10 + digit_val(s.last()));
        assert(is_dec_digit(digit_char(n as int)));
        assert(digit_val(digit_char(n as int)) == n);
    } else {
        lemma_dec_digits_val(n / 10);
        let prefix = dec_digits(n / 10);
        let s = dec_digits(n);
        assert(s =~= prefix.push(digit_char((n % 10) as int)));
        lemma_dec_val_push(prefix, digit_char((n % 10) as int));
        assert(digit_val(digit_char((n % 10) as int)) == n % 10);
        vstd::arithmetic::div_mod::lemma_fundamental_div_mod(n as int, 10);
        assert(dec_val(s) == (n / 10) * 10 + (n % 10));
        assert(forall|i: int| 0 <= i < s.len() ==> is_dec_digit(#[trigger] s[i]));
    }
}

/// Printing then parsing gives back the same value: the canonical numeral of
/// any `u64` is accepted and denotes that very number.
pub proof fn lemma_numeral_round_trip(n: u64)
    ensures
        is_u64_numeral(dec_digits(n as nat)),
        numeral_value(dec_digits(n as nat)) == n,
{
    lemma_dec_digits_val(n as nat);
    let s = dec_digits(n as nat);
    assert(is_dec_digit(s[0]));
    assert(s[0] != '+');
    assert(numeral_body(s) == s);
}

/// Parses a base-10 non-negative integer, as `u64::from_str` does: an
/// optional leading `+`, then one or more decimal digits. Returns `None` on
/// an empty body, any non-digit character, or a value above `u64::MAX`.
pub fn parse_u64(s: &str) -> (r: Option<u64>)
    ensures
        r is Some <==> is_u64_numeral(s@),
        r matches Some(v) ==> v == numeral_value(s@),
{
    let len = s.unicode_len();
    let start: usize = if len > 0 && s.get_char(0) == '+' {
        1
    } else {
        0
    };
    proof {
        assert(numeral_body(s@) =~= s@.subrange(start as int, len as int));
    }
    if start == len {
        return None;
    }
    let mut acc: u64 = 0;
    let mut i: usize = start;
    while i < len
        invariant
            start <= i <= len,
            len == s@.len(),
            start < len,
            numeral_body(s@) =~= s@.subrange(start as int, len as int),
            forall|j: int| start <= j < i ==> is_dec_digit(#[trigger] s@[j]),
            acc as int == dec_val(s@.subrange(start as int, i as int)),
        decreases len - i,
    {
        let c = s.get_char(i);
        let u = c as u32;
        if u < 48 || u > 57 {
            proof {
                let body = numeral_body(s@);
                assert(body[i - start] == s@[i as int]);
                assert(!is_dec_digit(body[i - start]));
            }
            return None;
        }
        let d: u64 = (u - 48) as u64;
        proof {
            let prefix = s@.subrange(start as int, i as int);
            assert(s@.subrange(start as int, i as int + 1) =~= prefix.push(s@[i as int]));
            lemma_dec_val_push(prefix, s@[i as int]);
        }
        let wide = match acc.checked_mul(10) {
            Some(x) => x,
            None => {
                proof {
                    overflow_contradiction(s@, start as int, i as int, acc as int, d as int);
                }
                return None;
            },
        };
        let next = match wide.checked_add(d) {
            Some(x) => x,
            None => {
                proof {
                    overflow_contradiction(s@, start as int, i as int, acc as int, d as int);
                }
                return None;
            },
        };
        acc = next;
        i = i + 1;
    }
    proof {
        assert(s@.subrange(start as int, i as int) =~= numeral_body(s@));
    }
    Some(acc)
}

/// When one more digit pushes the running value past `u64::MAX`, no suffix of
/// further digits can bring the whole numeral back under the limit.
proof fn overflow_contradiction(s: Seq<char>, start: int, i: int, acc: int, d: int)
    requires
        0 <= start <= i < s.len(),
        numeral_body(s) =~= s.subrange(start, s.len() as int),
        is_dec_digit(s[i]),
        d == digit_val(s[i]),
        acc == dec_val(s.subrange(start, i)),
        acc * 10 + d > u64::MAX,
    ensures
        !is_u64_numeral(s),
{
    let body = numeral_body(s);
    if is_u64_numeral(s) {
        assert(s.subrange(start, i + 1) =~= s.subrange(start, i).push(s[i]));
        lemma_dec_val_push(s.subrange(start, i), s[i]);
        assert(body.subrange(0, i + 1 - start) =~= s.subrange(start, i + 1));
        lemma_dec_val_prefix(body, i + 1 - start);
        assert(dec_val(body) >= acc * 10 + d);
    }
}

/// A digit as text: appends the one character of a value in `[0, 9]`.
fn append_digit(s: &mut String, d: u64)
    requires
        d < 10,
    ensures
        final(s)@ == old(s)@.push(digit_char(d as int)),
{
    if d == 0 {
        proof { reveal_strlit("0"); }
        s.append("0");
        proof { assert(s@ =~= old(s)@.push('0')); }
    } else if d == 1 {
        proof { reveal_strlit("1"); }
        s.append("1");
        proof { assert(s@ =~= old(s)@.push('1')); }
    } else if d == 2 {
        proof { reveal_strlit("2"); }
        s.append("2");
        proof { assert(s@ =~= old(s)@.push('2')); }
    } else if d == 3 {
        proof { reveal_strlit("3"); }
        s.append("3");
        proof { assert(s@ =~= old(s)@.push('3')); }
    } else if d == 4 {
        proof { reveal_strlit("4"); }
        s.append("4");
        proof { assert(s@ =~= old(s)@.push('4')); }
    } else if d == 5 {
        proof { reveal_strlit("5"); }
        s.append("5");
        proof { assert(s@ =~= old(s)@.push('5')); }
    } else if d == 6 {
        proof { reveal_strlit("6"); }
        s.append("6");
        proof { assert(s@ =~= old(s)@.push('6')); }
    } else if d == 7 {
        proof { reveal_strlit("7"); }
        s.append("7");
        proof { assert(s@ =~= old(s)@.push('7')); }
    } else if d == 8 {
        proof { reveal_strlit("8"); }
        s.append("8");
        proof { assert(s@ =~= old(s)@.push('8')); }
    } else {
        proof { reveal_strlit("9"); }
        s.append("9");
        proof { assert(s@ =~= old(s)@.push('9')); }
    }
}

/// The canonical decimal numeral of `n`.
pub fn u64_to_string(n: u64) -> (r: String)
    ensures
        r@ == dec_digits(n as nat),
    decreases n,
{
    if n < 10 {
        let mut s = String::new();
        append_digit(&mut s, n);
        proof {
            assert(s@ =~= dec_digits(n as nat));
        }
        s
    } else {
        let mut s = u64_to_string(n / 10);
        append_digit(&mut s, n % 10);
        proof {
            assert(s@ =~= dec_digits(n as nat));
        }
        s
    }
}

} // verus!
