//! Digit-string keys.
//!
//! Marks whose keys parse as non-negative integers are the quick switcher's
//! dynamic marks; this module defines what "parses" means and provides the
//! verified parser together with the canonical single-digit key of each slot.

use vstd::prelude::*;
use vstd::string::StrSliceExecFns;

verus! {

/// `c` is one of the decimal digits `'0'` through `'9'`.
pub open spec fn is_digit_char(c: char) -> bool {
    '0' <= c && c <= '9'
}

/// The numeric value of a digit character.
pub open spec fn digit_of(c: char) -> int {
    c as int - '0' as int
}

/// A non-empty string made only of decimal digits.
pub open spec fn is_digit_string(s: Seq<char>) -> bool {
    s.len() > 0 && forall|i: int| 0 <= i < s.len() ==> is_digit_char(#[trigger] s[i])
}

/// The integer a digit string denotes, most significant digit first.
pub open spec fn digits_val(s: Seq<char>) -> int
    decreases s.len(),
{
    if s.len() == 0 {
        0
    } else {
        digits_val(s.drop_last()) * 10 + digit_of(s.last())
    }
}

/// A digit string denotes a non-negative value.
proof fn lemma_digits_val_nonneg(s: Seq<char>)
    requires
        forall|i: int| 0 <= i < s.len() ==> is_digit_char(#[trigger] s[i]),
    ensures
        digits_val(s) >= 0,
    decreases s.len(),
{
    if s.len() > 0 {
        lemma_digits_val_nonneg(s.drop_last());
    }
}

/// A prefix of a digit string denotes at most the whole string's value.
proof fn lemma_digits_val_prefix_le(s: Seq<char>, i: int)
    requires
        forall|j: int| 0 <= j < s.len() ==> is_digit_char(#[trigger] s[j]),
        0 <= i <= s.len(),
    ensures
        digits_val(s.subrange(0, i)) <= digits_val(s),
    decreases s.len(),
{
    if i == s.len() {
        assert(s.subrange(0, i) =~= s);
    } else {
        let t = s.drop_last();
        assert(s.subrange(0, i) =~= t.subrange(0, i));
        lemma_digits_val_prefix_le(t, i);
        lemma_digits_val_nonneg(t);
    }
}

/// Parses a key as a non-negative integer, exactly when the key is a
/// non-empty decimal digit string whose value fits in `usize`.
pub fn parse_usize_key(s: &str) -> (r: Option<usize>)
    ensures
        match r {
            Some(n) => is_digit_string(s@) && n as int == digits_val(s@),
            None => !(is_digit_string(s@) && digits_val(s@) <= usize::MAX as int),
        },
{
    let n = s.unicode_len();
    if n == 0 {
        return None;
    }
    let mut acc: u128 = 0;
    let mut i: usize = 0;
    while i < n
        invariant
            n == s@.len(),
            0 < n,
            i <= n,
            forall|j: int| 0 <= j < i ==> is_digit_char(#[trigger] s@[j]),
            acc as int == digits_val(s@.subrange(0, i as int)),
            acc <= usize::MAX as u128,
        decreases n - i,
    {
        let c = s.get_char(i);
        let u = c as u32;
        if u < 48 || u > 57 {
            assert(!is_digit_char(s@[i as int]));
            return None;
        }
        let ghost prefix = s@.subrange(0, i as int);
        let ghost extended = s@.subrange(0, i as int + 1);
        acc = acc * 10 + ((u - 48) as u128);
        i = i + 1;
        proof {
            assert(extended.drop_last() =~= prefix);
            assert(extended.last() == s@[i as int - 1]);
        }
        if acc > usize::MAX as u128 {
            proof {
                if is_digit_string(s@) {
                    lemma_digits_val_prefix_le(s@, i as int);
                }
            }
            return None;
        }
    }
    proof {
        assert(s@.subrange(0, n as int) =~= s@);
    }
    Some(acc as usize)
}

/// Whether the first character of `s` is a decimal digit; keys of this shape
/// denote dynamic (quick-switcher) marks.
pub fn starts_with_digit(s: &str) -> (r: bool)
    ensures
        r == (s@.len() > 0 && is_digit_char(s@[0])),
{
    if s.unicode_len() == 0 {
        return false;
    }
    let u = s.get_char(0) as u32;
    48 <= u && u <= 57
}

/// The digit character of slot `n` (slots range over `0` to `9`).
pub open spec fn slot_char(n: int) -> char {
    if n == 0 {
        '0'
    } else if n == 1 {
        '1'
    } else if n == 2 {
        '2'
    } else if n == 3 {
        '3'
    } else if n == 4 {
        '4'
    } else if n == 5 {
        '5'
    } else if n == 6 {
        '6'
    } else if n == 7 {
        '7'
    } else if n == 8 {
        '8'
    } else {
        '9'
    }
}

/// The canonical registry key of slot `n`: the single digit character.
pub open spec fn slot_key(n: int) -> Seq<char> {
    seq![slot_char(n)]
}

/// A slot's canonical key is a digit string denoting the slot number.
pub proof fn lemma_slot_key_val(n: int)
    requires
        0 <= n < 10,
    ensures
        is_digit_string(slot_key(n)),
        digits_val(slot_key(n)) == n,
{
    let k = slot_key(n);
    assert(k.len() == 1);
    assert(k.drop_last() =~= Seq::<char>::empty());
    assert(k.last() == slot_char(n));
    assert(digits_val(Seq::<char>::empty()) == 0);
    assert(digits_val(k) == digit_of(slot_char(n)));
}

/// Distinct slots have distinct canonical keys.
pub proof fn lemma_slot_key_injective(a: int, b: int)
    requires
        0 <= a < 10,
        0 <= b < 10,
        a != b,
    ensures
        slot_key(a) != slot_key(b),
{
    lemma_slot_key_val(a);
    lemma_slot_key_val(b);
    assert(digits_val(slot_key(a)) != digits_val(slot_key(b)));
}

/// The canonical key of slot `n`, as a string.
pub fn slot_key_string(n: usize) -> (r: String)
    requires
        n < 10,
    ensures
        r@ == slot_key(n as int),
{
    let s: &str = match n {
        0 => "0",
        1 => "1",
        2 => "2",
        3 => "3",
        4 => "4",
        5 => "5",
        6 => "6",
        7 => "7",
        8 => "8",
        _ => "9",
    };
    proof {
        reveal_strlit("0");
        reveal_strlit("1");
        reveal_strlit("2");
        reveal_strlit("3");
        reveal_strlit("4");
        reveal_strlit("5");
        reveal_strlit("6");
        reveal_strlit("7");
        reveal_strlit("8");
        reveal_strlit("9");
        assert(s@ =~= slot_key(n as int));
    }
    s.to_owned()
}

} // verus!
