//! The words of a command line: what each of them stands for.

use crate::debugger::Value;
use vstd::prelude::*;
use vstd::string::StrSliceExecFns;
use vstd::string::StringExecFnsIsAscii;

verus! {

/// The value of a character as a digit: `0` to `9`, then `a` to `f`, in
/// small or capital letters, for 10 to 15. Other characters are no digits.
pub open spec fn spec_digit(c: char) -> Option<u32> {
    if '0' <= c && c <= '9' {
        Some((c as u32 - 0x30) as u32)
    } else if 'a' <= c && c <= 'f' {
        Some((c as u32 - 0x61 + 10) as u32)
    } else if 'A' <= c && c <= 'F' {
        Some((c as u32 - 0x41 + 10) as u32)
    } else {
        None
    }
}

/// The value of a character as a digit.
pub fn digit(c: char) -> (r: Option<u32>)
    ensures
        r == spec_digit(c),
        r matches Some(d) ==> d < 16,
{
    if '0' <= c && c <= '9' {
        Some(c as u32 - 0x30)
    } else if 'a' <= c && c <= 'f' {
        Some(c as u32 - 0x61 + 10)
    } else if 'A' <= c && c <= 'F' {
        Some(c as u32 - 0x41 + 10)
    } else {
        None
    }
}

/// The number that a row of digits stands for in the given base, however
/// large it is. No digits stand for 0; a row with a character that is no
/// digit of the base stands for nothing.
pub open spec fn spec_digits(digits: Seq<char>, base: u32) -> Option<nat>
    decreases digits.len(),
{
    if digits.len() == 0 {
        Some(0)
    } else {
        match (spec_digits(digits.drop_last(), base), spec_digit(digits.last())) {
            (Some(v), Some(d)) => if d < base {
                Some((v * base + d) as nat)
            } else {
                None
            },
            _ => None,
        }
    }
}

/// The number that a row of digits stands for, where there is at least one
/// digit and the number fits in 32 bits.
pub open spec fn spec_number(digits: Seq<char>, base: u32) -> Option<u32> {
    match spec_digits(digits, base) {
        Some(v) => if digits.len() > 0 && v <= u32::MAX {
            Some(v as u32)
        } else {
            None
        },
        None => None,
    }
}

/// Where a row of digits stands for a number, each of its beginnings stands
/// for one too, and for none that is greater.
pub proof fn lemma_digits_of_beginning(digits: Seq<char>, k: int, base: u32)
    requires
        0 <= k <= digits.len(),
        1 <= base,
    ensures
        spec_digits(digits, base) matches Some(v) ==> (spec_digits(
            digits.subrange(0, k),
            base,
        ) matches Some(p) && p <= v),
    decreases digits.len(),
{
    if k == digits.len() {
        assert(digits.subrange(0, k) =~= digits);
    } else {
        lemma_digits_of_beginning(digits.drop_last(), k, base);
        assert(digits.drop_last().subrange(0, k) =~= digits.subrange(0, k));
        if let Some(v) = spec_digits(digits.drop_last(), base) {
            assert(v * base >= v) by (nonlinear_arith)
                requires
                    base >= 1,
                    v >= 0,
            ;
        }
    }
}

/// Reads the characters of `word` from place `from` on as a number in the
/// given base.
pub fn number(word: &str, from: usize, base: u32) -> (r: Option<u32>)
    requires
        from <= word@.len(),
        2 <= base <= 16,
    ensures
        r == spec_number(word@.subrange(from as int, word@.len() as int), base),
{
    let n: usize = word.unicode_len();
    let ghost digits = word@.subrange(from as int, n as int);
    if from >= n {
        return None;
    }
    let mut acc: u32 = 0;
    let mut i: usize = from;
    while i < n
        invariant
            from <= i <= n,
            n == word@.len(),
            digits == word@.subrange(from as int, n as int),
            2 <= base <= 16,
            spec_digits(digits.subrange(0, i - from), base) == Some(acc as nat),
        decreases n - i,
    {
        let c: char = word.get_char(i);
        let ghost longer = digits.subrange(0, i - from + 1);
        proof {
            assert(longer.drop_last() =~= digits.subrange(0, i - from));
            assert(longer.last() == c);
            lemma_digits_of_beginning(digits, i - from + 1, base);
        }
        let d: u32 = match digit(c) {
            Some(d) => d,
            None => {
                return None;
            },
        };
        if d >= base {
            return None;
        }
        assert(acc * base <= 0xffff_ffff * 16) by (nonlinear_arith)
            requires
                acc <= 0xffff_ffff,
                base <= 16,
        ;
        let next: u64 = (acc as u64) * (base as u64) + (d as u64);
        if next > 0xffff_ffff {
            return None;
        }
        acc = next as u32;
        i = i + 1;
    }
    assert(digits.subrange(0, n - from) =~= digits);
    Some(acc)
}

/// The number that a word stands for: hexadecimal after `0x`, decimal
/// otherwise.
pub open spec fn spec_word_number(word: Seq<char>) -> Option<u32> {
    if word.len() >= 2 && word[0] == '0' && word[1] == 'x' {
        spec_number(word.subrange(2, word.len() as int), 16)
    } else {
        spec_number(word, 10)
    }
}

/// The number that a word stands for.
pub fn word_number(word: &str) -> (r: Option<u32>)
    ensures
        r == spec_word_number(word@),
{
    let n: usize = word.unicode_len();
    if n >= 2 && word.get_char(0) == '0' && word.get_char(1) == 'x' {
        number(word, 2, 16)
    } else {
        assert(word@.subrange(0, n as int) =~= word@);
        number(word, 0, 10)
    }
}

/// What a word of a command line stands for: `true` and `false` are
/// themselves, a word that reads as a number is the number, and any other
/// word is a name.
pub fn parse_value(word: &str) -> (r: Value)
    ensures
        match r {
            Value::Boolean(b) => word@ == (if b {
                "true"@
            } else {
                "false"@
            }),
            Value::Num(n) => word@ != "true"@ && word@ != "false"@ && spec_word_number(word@)
                == Some(n),
            Value::Identifier(name) => word@ != "true"@ && word@ != "false"@ && spec_word_number(
                word@,
            ).is_none() && name@ == word@,
        },
{
    let text: String = String::from_str(word);
    if crate::debugger::is_text(&text, "true") {
        return Value::Boolean(true);
    }
    if crate::debugger::is_text(&text, "false") {
        return Value::Boolean(false);
    }
    match word_number(word) {
        Some(n) => Value::Num(n),
        None => Value::Identifier(text),
    }
}

} // verus!
