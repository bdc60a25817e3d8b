//! Decimal counters and small text helpers shared by every command.

use vstd::prelude::*;

verus! {

/// An ASCII decimal digit.
pub open spec fn is_digit_char(c: char) -> bool {
    '0' <= c && c <= '9'
}

/// The value of one ASCII decimal digit.
pub open spec fn digit_value(c: char) -> nat {
    ((c as int) - ('0' as int)) as nat
}

/// Every character of `s` is an ASCII decimal digit.
pub open spec fn all_digits(s: Seq<char>) -> bool {
    forall|i: int| 0 <= i < s.len() ==> is_digit_char(#[trigger] s[i])
}

/// The number written in decimal by the digits of `s` (most significant first).
pub open spec fn decimal_value(s: Seq<char>) -> nat
    decreases s.len(),
{
    if s.len() == 0 {
        0
    } else {
        decimal_value(s.drop_last()) * 10 + digit_value(s.last())
    }
}

/// The digits that `u64::from_str` reads: the text without one leading `+`.
pub open spec fn unsigned_digits(s: Seq<char>) -> Seq<char> {
    if s.len() > 0 && s[0] == '+' {
        s.drop_first()
    } else {
        s
    }
}

/// What `str::parse::<u64>` gives for `s`: an optional `+`, then at least one
/// decimal digit and nothing else, of a value that fits in 64 bits.
pub open spec fn u64_text_value(s: Seq<char>) -> Option<u64> {
    let digits = unsigned_digits(s);
    if digits.len() > 0 && all_digits(digits) && decimal_value(digits) <= u64::MAX {
        Some(decimal_value(digits) as u64)
    } else {
        None
    }
}

/// The character of the decimal digit `d`.
pub open spec fn digit_char(d: nat) -> char {
    (('0' as int) + d) as char
}

/// The shortest decimal text of `n`, as `u64::to_string` writes it.
pub open spec fn decimal_text(n: nat) -> Seq<char>
    decreases n,
{
    if n < 10 {
        seq![digit_char(n)]
    } else {
        decimal_text(n / 10).push(digit_char(n % 10))
    }
}

proof fn lemma_decimal_value_prefix_bound(s: Seq<char>, i: int)
    requires
        0 <= i <= s.len(),
        all_digits(s),
    ensures
        decimal_value(s.take(i)) <= decimal_value(s),
    decreases s.len(),
{
    if i < s.len() {
        assert(s.drop_last().take(i) =~= s.take(i));
        assert(all_digits(s.drop_last()));
        lemma_decimal_value_prefix_bound(s.drop_last(), i);
    } else {
        assert(s.take(i) =~= s);
    }
}

proof fn lemma_decimal_text_digits(n: nat)
    ensures
        all_digits(decimal_text(n)),
        decimal_text(n).len() > 0,
        decimal_value(decimal_text(n)) == n,
    decreases n,
{
    if n < 10 {
        let t = decimal_text(n);
        assert(t.drop_last() =~= Seq::<char>::empty());
        assert(digit_value(digit_char(n)) == n);
        assert(decimal_value(Seq::<char>::empty()) == 0);
        assert(decimal_value(t) == decimal_value(t.drop_last()) * 10 + digit_value(t.last()));
    } else {
        lemma_decimal_text_digits(n / 10);
        let t = decimal_text(n);
        assert(t.drop_last() =~= decimal_text(n / 10));
        assert(digit_value(digit_char(n % 10)) == n % 10);
        assert((n / 10) * 10 + n % 10 == n);
        assert(t.last() == digit_char(n % 10));
        assert(decimal_value(t) == decimal_value(t.drop_last()) * 10 + digit_value(t.last()));
        assert forall|i: int| 0 <= i < t.len() implies is_digit_char(#[trigger] t[i]) by {
            if i < t.len() - 1 {
                assert(t[i] == decimal_text(n / 10)[i]);
            }
        }
    }
}

/// Law: a counter written as decimal text reads back as the same counter.
pub proof fn lemma_decimal_text_round_trip(n: u64)
    ensures
        u64_text_value(decimal_text(n as nat)) == Some(n),
{
    lemma_decimal_text_digits(n as nat);
    let t = decimal_text(n as nat);
    assert(t[0] != '+');
    assert(unsigned_digits(t) == t);
}

/// Reads a decimal counter as `str::parse::<u64>` does.
pub fn parse_u64(text: &str) -> (value: Option<u64>)
    ensures
        value == u64_text_value(text@),
{
    let len = text.unicode_len();
    let mut start: usize = 0;
    if len > 0 && text.get_char(0) == '+' {
        start = 1;
    }
    let ghost digits = unsigned_digits(text@);
    assert(digits =~= text@.subrange(start as int, len as int));
    if start >= len {
        assert(digits.len() == 0);
        return None;
    }
    let mut acc: u64 = 0;
    let mut i: usize = start;
    while i < len
        invariant
            start <= i <= len,
            len == text@.len(),
            digits =~= text@.subrange(start as int, len as int),
            digits == unsigned_digits(text@),
            all_digits(digits.take(i - start)),
            acc as nat == decimal_value(digits.take(i - start)),
        decreases len - i,
    {
        let c = text.get_char(i);
        if c < '0' || c > '9' {
            assert(digits[i - start] == c);
            assert(!all_digits(digits));
            return None;
        }
        let ghost before = digits.take(i - start);
        let ghost after = digits.take(i - start + 1);
        assert(after.drop_last() =~= before);
        assert(after.last() == c);
        let d: u64 = ((c as u32) - ('0' as u32)) as u64;
        assert(d == digit_value(c));
        assert(decimal_value(after) == decimal_value(before) * 10 + digit_value(c));
        assert(all_digits(after)) by {
            assert forall|k: int| 0 <= k < after.len() implies is_digit_char(#[trigger] after[k]) by {
                if k < after.len() - 1 {
                    assert(after[k] == before[k]);
                }
            }
        }
        match acc.checked_mul(10) {
            Some(m) => match m.checked_add(d) {
                Some(next) => {
                    acc = next;
                },
                None => {
                    proof { overflow_means_none(digits, i - start + 1); }
                    return None;
                },
            },
            None => {
                proof { overflow_means_none(digits, i - start + 1); }
                return None;
            },
        }
        i = i + 1;
    }
    assert(digits.take(len - start) =~= digits);
    Some(acc)
}

proof fn overflow_means_none(digits: Seq<char>, j: int)
    requires
        0 < j <= digits.len(),
        all_digits(digits.take(j)),
        decimal_value(digits.take(j)) > u64::MAX,
    ensures
        !(all_digits(digits) && decimal_value(digits) <= u64::MAX),
{
    if all_digits(digits) {
        lemma_decimal_value_prefix_bound(digits, j);
    }
}

/// The one-character text of the decimal digit `d`.
fn digit_str(d: u64) -> (s: &'static str)
    requires
        d < 10,
    ensures
        s@ == seq![digit_char(d as nat)],
{
    let digits = "0123456789";
    proof {
        reveal_strlit("0123456789");
    }
    assert(digits@[d as int] == digit_char(d as nat));
    let s = digits.substring_ascii(d as usize, d as usize + 1);
    assert(s@ =~= seq![digit_char(d as nat)]);
    s
}

/// Writes a counter as its shortest decimal text, as `u64::to_string` does.
pub fn format_u64(n: u64) -> (text: String)
    ensures
        text@ == decimal_text(n as nat),
    decreases n,
{
    if n < 10 {
        String::from_str(digit_str(n))
    } else {
        let mut text = format_u64(n / 10);
        text.append(digit_str(n % 10));
        text
    }
}

} // verus!
