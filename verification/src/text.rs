//! Small operations on text that the rest of the library is built from:
//! equality of string slices, removal of a character, and decimal integers.

use vstd::prelude::*;

verus! {

/// `String::push` appends one character to the end of the string.
pub assume_specification[ String::push ](s: &mut String, c: char)
    ensures
        final(s)@ == old(s)@.push(c),
;

/// Whether two string slices hold the same characters.
pub fn same_text(a: &str, b: &str) -> (same: bool)
    ensures
        same == (a@ == b@),
{
    let left = String::from_str(a);
    let right = String::from_str(b);
    left == right
}

/// `s` with every occurrence of `banned` left out.
pub open spec fn without_char(s: Seq<char>, banned: char) -> Seq<char> {
    s.filter(|c: char| c != banned)
}

/// Copies `s`, leaving out every occurrence of `banned`.
pub fn remove_char(s: &str, banned: char) -> (out: String)
    ensures
        out@ == without_char(s@, banned),
{
    let n = s.unicode_len();
    let mut out = String::new();
    let mut i: usize = 0;
    proof {
        reveal(Seq::filter);
        assert(s@.take(0) =~= Seq::<char>::empty());
    }
    while i < n
        invariant
            i <= n,
            n == s@.len(),
            out@ == without_char(s@.take(i as int), banned),
        decreases n - i,
    {
        let c = s.get_char(i);
        proof {
            reveal(Seq::filter);
            assert(s@.take(i + 1).drop_last() =~= s@.take(i as int));
            assert(s@.take(i + 1).last() == c);
        }
        if c != banned {
            out.push(c);
        }
        i += 1;
    }
    proof {
        assert(s@.take(n as int) =~= s@);
    }
    out
}

/// Whether `c` is one of the ten decimal digits.
pub open spec fn is_digit(c: char) -> bool {
    '0' <= c <= '9'
}

/// The number that the digit `c` stands for.
pub open spec fn digit_value(c: char) -> int {
    c as int - '0' as int
}

/// Whether `s` is made of decimal digits only.
pub open spec fn all_digits(s: Seq<char>) -> bool {
    forall|i: int| 0 <= i < s.len() ==> is_digit(#[trigger] s[i])
}

/// The number written by the digits `s`, most significant first.
pub open spec fn digits_value(s: Seq<char>) -> int
    decreases s.len(),
{
    if s.len() == 0 {
        0
    } else {
        digits_value(s.drop_last()) * 10 + digit_value(s.last())
    }
}

/// The integer written by `s`: an optional `+` or `-`, then at least one
/// decimal digit and nothing else.
pub open spec fn decimal_value(s: Seq<char>) -> Option<int> {
    if s.len() == 0 {
        None
    } else {
        let digits = if s[0] == '-' || s[0] == '+' {
            s.skip(1)
        } else {
            s
        };
        if digits.len() == 0 || !all_digits(digits) {
            None
        } else if s[0] == '-' {
            Some(-digits_value(digits))
        } else {
            Some(digits_value(digits))
        }
    }
}

/// The integer written by `s`, where it fits in an `i64`.
pub open spec fn decimal_i64(s: Seq<char>) -> Option<i64> {
    match decimal_value(s) {
        Some(v) => if i64::MIN <= v <= i64::MAX {
            Some(v as i64)
        } else {
            None
        },
        None => None,
    }
}

/// Digits never write a negative number, and writing more of them never
/// writes a smaller one.
pub proof fn lemma_digits_value_grows(s: Seq<char>, k: int)
    requires
        all_digits(s),
        0 <= k <= s.len(),
    ensures
        0 <= digits_value(s.take(k)) <= digits_value(s),
    decreases s.len(),
{
    if k == s.len() {
        assert(s.take(k) =~= s);
        if s.len() > 0 {
            assert(is_digit(s[s.len() - 1]));
            lemma_digits_value_grows(s.drop_last(), k - 1);
        }
    } else {
        assert(is_digit(s[s.len() - 1]));
        lemma_digits_value_grows(s.drop_last(), k);
        assert(s.drop_last().take(k) =~= s.take(k));
    }
}

/// Reads a decimal integer: an optional sign, then digits. `None` where `s`
/// is not of that form or the number does not fit.
pub fn parse_i64(s: &str) -> (parsed: Option<i64>)
    ensures
        parsed == decimal_i64(s@),
{
    let n = s.unicode_len();
    if n == 0 {
        return None;
    }
    let first = s.get_char(0);
    let negative = first == '-';
    let start: usize = if first == '-' || first == '+' {
        1
    } else {
        0
    };
    if start == n {
        return None;
    }
    let ghost digits = s@.skip(start as int);
    let mut acc: i64 = 0;
    let mut i: usize = start;
    proof {
        assert(digits.take(0) =~= Seq::<char>::empty());
        assert(s@.skip(0) =~= s@);
    }
    while i < n
        invariant
            start <= i <= n,
            start < n,
            n == s@.len(),
            negative == (s@[0] == '-'),
            start == if s@[0] == '-' || s@[0] == '+' { 1int } else { 0int },
            digits == s@.skip(start as int),
            all_digits(digits.take(i - start)),
            negative ==> acc == -digits_value(digits.take(i - start)),
            !negative ==> acc == digits_value(digits.take(i - start)),
        decreases n - i,
    {
        let c = s.get_char(i);
        let ghost k = i - start;
        proof {
            assert(digits[k] == c);
            assert(digits.take(k + 1).drop_last() =~= digits.take(k));
            assert(digits.take(k + 1).last() == c);
        }
        if c < '0' || c > '9' {
            assert(!is_digit(digits[k]));
            assert(s@.skip(0) =~= s@);
            return None;
        }
        let d: i64 = (c as u32 - '0' as u32) as i64;
        assert(d == digit_value(c));
        proof {
            assert forall|j: int| 0 <= j < k + 1 implies is_digit(#[trigger] digits.take(k + 1)[j]) by {
                if j < k {
                    assert(digits.take(k + 1)[j] == digits.take(k)[j]);
                }
            }
            assert(s@.skip(0) =~= s@);
            if all_digits(digits) {
                lemma_digits_value_grows(digits, k + 1);
            }
        }
        let next = match acc.checked_mul(10) {
            Some(scaled) => if negative {
                scaled.checked_sub(d)
            } else {
                scaled.checked_add(d)
            },
            None => None,
        };
        match next {
            Some(v) => {
                acc = v;
            },
            None => {
                return None;
            },
        }
        i += 1;
    }
    proof {
        assert(digits.take(n - start) =~= digits);
        assert(s@.skip(0) =~= s@);
    }
    Some(acc)
}

/// The digit that stands for `d`, a number from 0 to 9.
pub open spec fn digit_char(d: int) -> char {
    ('0' as int + d) as char
}

/// The digits that write the natural number `n`, most significant first and
/// without leading zeros.
pub open spec fn digits_of(n: nat) -> Seq<char>
    decreases n,
{
    if n < 10 {
        seq![digit_char(n as int)]
    } else {
        digits_of(n / 10).push(digit_char((n % 10) as int))
    }
}

/// The integer `n` written in decimal: a `-` where it is negative, then its
/// digits.
pub open spec fn decimal_text(n: int) -> Seq<char> {
    if n < 0 {
        seq!['-'] + digits_of((-n) as nat)
    } else {
        digits_of(n as nat)
    }
}

/// The digits of a number are digits, at least one, and write that number.
pub proof fn lemma_digits_of_write_the_number(n: nat)
    ensures
        digits_of(n).len() >= 1,
        all_digits(digits_of(n)),
        digits_value(digits_of(n)) == n,
    decreases n,
{
    if n < 10 {
        let s = digits_of(n);
        assert(s.drop_last() =~= Seq::<char>::empty());
        assert(digits_value(s.drop_last()) == 0);
    } else {
        lemma_digits_of_write_the_number(n / 10);
        let s = digits_of(n);
        assert(s.drop_last() =~= digits_of(n / 10));
    }
}

/// Reading undoes writing: the decimal text of an integer reads back as that
/// integer.
pub proof fn lemma_decimal_text_reads_back(n: int)
    ensures
        decimal_value(decimal_text(n)) == Some(n),
        i64::MIN <= n <= i64::MAX ==> decimal_i64(decimal_text(n)) == Some(n as i64),
{
    if n < 0 {
        let digits = digits_of((-n) as nat);
        lemma_digits_of_write_the_number((-n) as nat);
        assert(decimal_text(n).skip(1) =~= digits);
    } else {
        let digits = digits_of(n as nat);
        lemma_digits_of_write_the_number(n as nat);
        assert(is_digit(digits[0]));
    }
}

/// A text that does not hold a character is not changed by leaving that
/// character out.
pub proof fn lemma_without_absent_char(s: Seq<char>, banned: char)
    requires
        forall|i: int| 0 <= i < s.len() ==> s[i] != banned,
    ensures
        without_char(s, banned) == s,
    decreases s.len(),
{
    reveal(Seq::filter);
    if s.len() > 0 {
        lemma_without_absent_char(s.drop_last(), banned);
        assert(s.drop_last().push(s.last()) =~= s);
    }
}

/// The decimal text of an integer holds digits and, at most, a leading `-`.
pub proof fn lemma_decimal_text_is_sign_and_digits(n: int)
    ensures
        forall|i: int|
            0 <= i < decimal_text(n).len() ==> is_digit(#[trigger] decimal_text(n)[i])
                || decimal_text(n)[i] == '-',
{
    if n < 0 {
        lemma_digits_of_write_the_number((-n) as nat);
        let digits = digits_of((-n) as nat);
        assert forall|i: int| 0 <= i < decimal_text(n).len() implies is_digit(
            #[trigger] decimal_text(n)[i],
        ) || decimal_text(n)[i] == '-' by {
            if i > 0 {
                assert(decimal_text(n)[i] == digits[i - 1]);
            }
        }
    } else {
        lemma_digits_of_write_the_number(n as nat);
    }
}

/// Leaving a character out of two texts set end to end is leaving it out of
/// each.
pub proof fn lemma_without_char_of_two(a: Seq<char>, b: Seq<char>, banned: char)
    ensures
        without_char(a + b, banned) == without_char(a, banned) + without_char(b, banned),
    decreases b.len(),
{
    reveal(Seq::filter);
    if b.len() == 0 {
        assert(a + b =~= a);
        assert(without_char(a, banned) + without_char(b, banned) =~= without_char(a, banned));
    } else {
        lemma_without_char_of_two(a, b.drop_last(), banned);
        assert((a + b).drop_last() =~= a + b.drop_last());
        assert((a + b).last() == b.last());
        if b.last() != banned {
            assert(without_char(a, banned) + without_char(b.drop_last(), banned).push(b.last())
                =~= (without_char(a, banned) + without_char(b.drop_last(), banned)).push(
                b.last(),
            ));
        }
    }
}

/// Leaving a character out of a text of one character leaves nothing where
/// it is that character, and the text where it is another.
pub proof fn lemma_without_char_of_one(c: char, banned: char)
    ensures
        c == banned ==> without_char(seq![c], banned) == Seq::<char>::empty(),
        c != banned ==> without_char(seq![c], banned) == seq![c],
{
    reveal(Seq::filter);
    let s = seq![c];
    assert(s.drop_last() =~= Seq::<char>::empty());
    assert(without_char(s.drop_last(), banned) =~= Seq::<char>::empty());
    assert(Seq::<char>::empty().push(c) =~= s);
}

/// The decimal text of an integer is not changed by taking a double quote
/// before it and one after it away, nor by taking backslashes out. Between
/// double quotes it comes out the same.
pub proof fn lemma_decimal_text_between_quotes(n: int)
    ensures
        without_char(without_char(decimal_text(n), '\\'), '"') == decimal_text(n),
        without_char(
            without_char(seq!['"'] + decimal_text(n) + seq!['"'], '\\'),
            '"',
        ) == decimal_text(n),
{
    let written = decimal_text(n);
    let quote = seq!['"'];
    lemma_decimal_text_is_sign_and_digits(n);
    assert forall|i: int| 0 <= i < written.len() implies written[i] != '\\' by {
        assert(is_digit(written[i]) || written[i] == '-');
    }
    assert forall|i: int| 0 <= i < written.len() implies written[i] != '"' by {
        assert(is_digit(written[i]) || written[i] == '-');
    }
    lemma_without_absent_char(written, '\\');
    lemma_without_absent_char(written, '"');
    lemma_without_char_of_one('"', '\\');
    lemma_without_char_of_one('"', '"');
    lemma_without_char_of_two(quote, written, '\\');
    lemma_without_char_of_two(quote + written, quote, '\\');
    lemma_without_char_of_two(quote, written, '"');
    lemma_without_char_of_two(quote + written, quote, '"');
    assert(Seq::<char>::empty() + written + Seq::<char>::empty() =~= written);
}

} // verus!
