//! Small verified text-scanning helpers shared by the descriptor parser:
//! first-occurrence search and decimal-number reading.

use vstd::prelude::*;
use vstd::string::*;

use crate::errors::{err_is, ErrKind, Errcode};

verus! {

/// The index of the first occurrence of `c` in `s`, or `s.len()` when `c`
/// does not occur.
pub open spec fn first_idx(s: Seq<char>, c: char) -> int
    decreases s.len(),
{
    if s.len() == 0 {
        0
    } else if s[0] == c {
        0
    } else {
        1 + first_idx(s.drop_first(), c)
    }
}

/// What `first_idx` returns: a position within the string, pointing at `c`
/// when `c` occurs, with no occurrence of `c` before it.
pub proof fn lemma_first_idx(s: Seq<char>, c: char)
    ensures
        0 <= first_idx(s, c) <= s.len(),
        first_idx(s, c) < s.len() ==> s[first_idx(s, c)] == c,
        forall|k: int| 0 <= k < first_idx(s, c) ==> s[k] != c,
    decreases s.len(),
{
    if s.len() > 0 && s[0] != c {
        lemma_first_idx(s.drop_first(), c);
        assert forall|k: int| 0 <= k < first_idx(s, c) implies s[k] != c by {
            if k > 0 {
                assert(s.drop_first()[k - 1] == s[k]);
            }
        }
    }
}

/// A position that holds `c`, with no occurrence of `c` before it, is what
/// `first_idx` returns; so is the string's length when `c` never occurs.
pub proof fn lemma_first_idx_is(s: Seq<char>, c: char, j: int)
    requires
        0 <= j <= s.len(),
        forall|k: int| 0 <= k < j ==> s[k] != c,
        j < s.len() ==> s[j] == c,
        j == s.len() ==> forall|k: int| 0 <= k < s.len() ==> s[k] != c,
    ensures
        first_idx(s, c) == j,
    decreases s.len(),
{
    if s.len() == 0 {
    } else if j == 0 {
        if s.len() > 0 && s[0] != c {
            lemma_first_idx(s.drop_first(), c);
        }
    } else {
        assert(s[0] != c);
        lemma_first_idx_is(s.drop_first(), c, j - 1);
    }
}

/// Finds the first occurrence of `c` in `s`, reported as `s@.len()` when `c`
/// does not occur.
pub fn find_char(s: &str, c: char) -> (r: usize)
    ensures
        r == first_idx(s@, c),
{
    let n = s.unicode_len();
    let mut i: usize = 0;
    while i < n
        invariant
            n == s@.len(),
            i <= n,
            forall|k: int| 0 <= k < i ==> s@[k] != c,
        decreases n - i,
    {
        if s.get_char(i) == c {
            proof {
                lemma_first_idx_is(s@, c, i as int);
            }
            return i;
        }
        i = i + 1;
    }
    proof {
        lemma_first_idx_is(s@, c, n as int);
    }
    n
}

/// Is `c` a decimal digit?
pub open spec fn is_digit(c: char) -> bool {
    48 <= c as int <= 57
}

/// The numeric value of a digit character.
pub open spec fn digit_val(c: char) -> nat {
    (c as int - 48) as nat
}

/// Does `s` consist of digits only?
pub open spec fn all_digits(s: Seq<char>) -> bool {
    forall|k: int| 0 <= k < s.len() ==> is_digit(s[k])
}

/// The number that the digit string `s` denotes in base ten.
pub open spec fn digits_val(s: Seq<char>) -> nat
    decreases s.len(),
{
    if s.len() == 0 {
        0
    } else {
        10 * digits_val(s.drop_last()) + digit_val(s.last())
    }
}

/// Does `s` denote a number that fits in `usize`?
pub open spec fn usize_parse_ok(s: Seq<char>) -> bool {
    s.len() > 0 && all_digits(s) && digits_val(s) <= usize::MAX
}

/// A digit string denotes at least what any of its prefixes denotes.
proof fn lemma_digits_val_prefix(s: Seq<char>, j: int)
    requires
        0 <= j <= s.len(),
    ensures
        digits_val(s) >= digits_val(s.take(j)),
    decreases s.len() - j,
{
    if j < s.len() {
        lemma_digits_val_prefix(s, j + 1);
        assert(s.take(j + 1).drop_last() =~= s.take(j));
        assert(s.take(j + 1).last() == s[j]);
        assert(digits_val(s.take(j + 1)) == 10 * digits_val(s.take(j)) + digit_val(s[j]));
    } else {
        assert(s.take(j) =~= s);
    }
}

/// Reads `s` as a non-negative decimal number, failing with `ParsingError`
/// when `s` is empty, holds a non-digit, or denotes a number too large for
/// `usize`.
pub fn parse_usize(s: &str) -> (r: Result<usize, Errcode>)
    ensures
        match r {
            Ok(v) => usize_parse_ok(s@) && v == digits_val(s@),
            Err(e) => !usize_parse_ok(s@) && err_is(e, ErrKind::Parsing),
        },
{
    let n = s.unicode_len();
    if n == 0 {
        return Err(Errcode::ParsingError(String::from_str("empty number")));
    }
    let mut acc: usize = 0;
    let mut i: usize = 0;
    while i < n
        invariant
            n == s@.len(),
            i <= n,
            all_digits(s@.take(i as int)),
            acc == digits_val(s@.take(i as int)),
        decreases n - i,
    {
        let c = s.get_char(i);
        let cv = c as u32;
        if cv < 48 || cv > 57 {
            assert(!is_digit(s@[i as int]));
            return Err(Errcode::ParsingError(String::from_str("not a decimal digit")));
        }
        let d: usize = (cv - 48) as usize;
        proof {
            assert(s@.take(i + 1).drop_last() =~= s@.take(i as int));
            assert(s@.take(i + 1).last() == s@[i as int]);
        }
        if acc > usize::MAX / 10 {
            proof {
                lemma_digits_val_prefix(s@, i + 1);
            }
            return Err(Errcode::ParsingError(String::from_str("number too large")));
        }
        let acc10 = acc * 10;
        if d > usize::MAX - acc10 {
            proof {
                lemma_digits_val_prefix(s@, i + 1);
            }
            return Err(Errcode::ParsingError(String::from_str("number too large")));
        }
        acc = acc10 + d;
        i = i + 1;
    }
    proof {
        assert(s@.take(n as int) =~= s@);
    }
    Ok(acc)
}

} // verus!
