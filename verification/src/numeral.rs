//! Decimal numerals: how a dimension is read from query text and written into a cache key.

use vstd::prelude::*;
use vstd::string::StringExecFns;

verus! {

/// Whether `c` is one of the ten ASCII decimal digits.
pub open spec fn is_digit(c: char) -> bool {
    '0' <= c && c <= '9'
}

/// The number that the digit `c` stands for.
pub open spec fn digit_value(c: char) -> nat {
    (c as nat - '0' as nat) as nat
}

/// The character that writes the decimal digit `d` (for `d` below ten).
pub open spec fn digit_char(d: nat) -> char {
    (d + '0' as nat) as char
}

/// Whether `s` holds decimal digits only.
pub open spec fn all_digits(s: Seq<char>) -> bool {
    forall|i: int| 0 <= i < s.len() ==> is_digit(#[trigger] s[i])
}

/// The number that the digit string `s` writes in base ten; zero for the empty string.
pub open spec fn numeral_value(s: Seq<char>) -> nat
    decreases s.len(),
{
    if s.len() == 0 {
        0
    } else {
        numeral_value(s.drop_last()) * 10 + digit_value(s.last())
    }
}

/// The shortest decimal numeral of `n`: no sign, no leading zero, and `"0"` for zero.
pub open spec fn decimal(n: nat) -> Seq<char>
    decreases n,
{
    if n < 10 {
        seq![digit_char(n)]
    } else {
        decimal(n / 10).push(digit_char(n % 10))
    }
}

/// `text` without the one plus sign that may lead it.
pub open spec fn unsigned_part(text: Seq<char>) -> Seq<char> {
    if text.len() > 0 && text[0] == '+' {
        text.drop_first()
    } else {
        text
    }
}

/// The number that `text` writes, if it is a numeral that fits 32 bits: an optional plus
/// sign, then one or more decimal digits and nothing else. Leading zeros are accepted.
pub open spec fn parsed_u32(text: Seq<char>) -> Option<u32> {
    let digits = unsigned_part(text);
    if digits.len() > 0 && all_digits(digits) && numeral_value(digits) <= u32::MAX {
        Some(numeral_value(digits) as u32)
    } else {
        None
    }
}

/// A numeral is worth at least as much as any of its prefixes.
pub proof fn lemma_numeral_prefix(s: Seq<char>, k: int)
    requires
        0 <= k <= s.len(),
    ensures
        numeral_value(s.take(k)) <= numeral_value(s),
    decreases s.len(),
{
    if k == s.len() {
        assert(s.take(k) =~= s);
    } else {
        assert(s.drop_last().take(k) =~= s.take(k));
        lemma_numeral_prefix(s.drop_last(), k);
    }
}

/// The numeral of `n` is a non-empty string of digits that writes `n`.
pub proof fn lemma_decimal_writes(n: nat)
    ensures
        decimal(n).len() > 0,
        all_digits(decimal(n)),
        numeral_value(decimal(n)) == n,
    decreases n,
{
    if n < 10 {
        assert(decimal(n).drop_last() =~= Seq::<char>::empty());
        assert(numeral_value(decimal(n)) == numeral_value(decimal(n).drop_last()) * 10
            + digit_value(decimal(n).last()));
    } else {
        lemma_decimal_writes(n / 10);
        assert(decimal(n).drop_last() =~= decimal(n / 10));
    }
}

/// Reading back the numeral of a 32-bit number gives that number.
pub proof fn lemma_parse_decimal(n: u32)
    ensures
        parsed_u32(decimal(n as nat)) == Some(n),
{
    lemma_decimal_writes(n as nat);
}

/// Two numbers with the same numeral are the same number.
pub proof fn lemma_decimal_injective(a: nat, b: nat)
    requires
        decimal(a) == decimal(b),
    ensures
        a == b,
{
    lemma_decimal_writes(a);
    lemma_decimal_writes(b);
}

fn digit_text(d: u32) -> (text: &'static str)
    requires
        d < 10,
    ensures
        text@ == seq![digit_char(d as nat)],
{
    proof {
        reveal_strlit("0");
        reveal_strlit("1");
        reveal_strlit("2");
        reveal_strlit("3");
        reveal_strlit("4");
        reveal_strlit("5");
        reveal_strlit("6");
        reveal_strlit("7");
        reveal_strlit("8");
        reveal_strlit("9");
    }
    let text = if d == 0 {
        "0"
    } else if d == 1 {
        "1"
    } else if d == 2 {
        "2"
    } else if d == 3 {
        "3"
    } else if d == 4 {
        "4"
    } else if d == 5 {
        "5"
    } else if d == 6 {
        "6"
    } else if d == 7 {
        "7"
    } else if d == 8 {
        "8"
    } else {
        "9"
    };
    assert(text@ =~= seq![digit_char(d as nat)]);
    text
}

/// Appends the decimal numeral of `n` to `out`.
pub fn push_decimal(out: &mut String, n: u32)
    ensures
        final(out)@ == old(out)@ + decimal(n as nat),
    decreases n,
{
    if n >= 10 {
        push_decimal(out, n / 10);
    }
    out.append(digit_text(n % 10));
    assert(out@ =~= old(out)@ + decimal(n as nat));
}

/// Reads `text` as a 32-bit decimal numeral.
pub fn parse_u32(text: &str) -> (r: Option<u32>)
    ensures
        r == parsed_u32(text@),
{
    let mut value: u32 = 0;
    let mut signed = false;
    let mut started = false;
    let mut any_digit = false;
    for c in it: text.chars()
        invariant
            it.seq() == text@,
            started == (it.index() > 0),
            signed == (it.index() > 0 && text@[0] == '+'),
            any_digit == (unsigned_part(text@.take(it.index())).len() > 0),
            all_digits(unsigned_part(text@.take(it.index()))),
            value == numeral_value(unsigned_part(text@.take(it.index()))),
    {
        let ghost i = it.index();
        let ghost before = unsigned_part(text@.take(i));
        let ghost after = unsigned_part(text@.take(i + 1));
        assert(c == text@[i]);
        if !started && c == '+' {
            signed = true;
            assert(after =~= Seq::<char>::empty());
        } else {
            assert(after =~= before.push(c));
            assert(after.drop_last() =~= before);
            assert(after =~= unsigned_part(text@).take(after.len() as int));
            if c >= '0' && c <= '9' {
                let d: u32 = c as u32 - '0' as u32;
                let next: u64 = value as u64 * 10 + d as u64;
                if next > u32::MAX as u64 {
                    proof {
                        lemma_numeral_prefix(unsigned_part(text@), after.len() as int);
                    }
                    return None;
                }
                value = next as u32;
                any_digit = true;
            } else {
                assert(!is_digit(unsigned_part(text@)[after.len() - 1]));
                return None;
            }
        }
        started = true;
    }
    assert(text@.take(text@.len() as int) =~= text@);
    if any_digit {
        Some(value)
    } else {
        None
    }
}

} // verus!
