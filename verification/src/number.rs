//! Numbers as text.
//!
//! Numeric fields are kept as the text that was entered.  This module says
//! which texts count as numbers and recognises them.  A text is a number when
//! it follows the grammar of a decimal floating-point literal:
//!
//! ```text
//! Float  ::= Sign? ( 'inf' | 'infinity' | 'nan' | Number )
//! Number ::= ( Digit+ | Digit+ '.' Digit* | Digit* '.' Digit+ ) Exp?
//! Exp    ::= 'e' Sign? Digit+
//! Sign   ::= [+-]
//! Digit  ::= [0-9]
//! ```
//!
//! Letters are matched without regard to ASCII case.  No white space is
//! allowed anywhere.

use vstd::prelude::*;
use crate::text::{chars_of, join3, lemma_texts_view_push, text_of, text_of_range, texts_view};

verus! {

/// An ASCII decimal digit.
pub open spec fn is_digit(c: char) -> bool {
    '0' <= c && c <= '9'
}

/// `'+'` or `'-'`.
pub open spec fn is_sign(c: char) -> bool {
    c == '+' || c == '-'
}

/// The index just behind the longest run of digits that starts at `i`.
pub open spec fn digits_end(s: Seq<char>, i: int) -> int
    decreases s.len() - i,
{
    if 0 <= i < s.len() && is_digit(s[i]) {
        digits_end(s, i + 1)
    } else {
        i
    }
}

/// Whether `c` is the letter `lower`, in either case.
pub open spec fn is_letter(c: char, lower: char, upper: char) -> bool {
    c == lower || c == upper
}

/// `inf`, `infinity` or `nan`, in any mix of cases.
pub open spec fn is_special_word(s: Seq<char>) -> bool {
    ||| (s.len() == 3 && is_letter(s[0], 'i', 'I') && is_letter(s[1], 'n', 'N') && is_letter(
        s[2],
        'f',
        'F',
    ))
    ||| (s.len() == 3 && is_letter(s[0], 'n', 'N') && is_letter(s[1], 'a', 'A') && is_letter(
        s[2],
        'n',
        'N',
    ))
    ||| (s.len() == 8 && is_letter(s[0], 'i', 'I') && is_letter(s[1], 'n', 'N') && is_letter(
        s[2],
        'f',
        'F',
    ) && is_letter(s[3], 'i', 'I') && is_letter(s[4], 'n', 'N') && is_letter(s[5], 'i', 'I')
        && is_letter(s[6], 't', 'T') && is_letter(s[7], 'y', 'Y'))
}

/// Where the mantissa that starts at `from` ends: behind the integer digits,
/// and behind the point and the fraction digits if a point follows.
pub open spec fn mantissa_end(s: Seq<char>, from: int) -> int {
    let int_end = digits_end(s, from);
    if int_end < s.len() && s[int_end] == '.' {
        digits_end(s, int_end + 1)
    } else {
        int_end
    }
}

/// How many digits the mantissa that starts at `from` holds.
pub open spec fn mantissa_digits(s: Seq<char>, from: int) -> int {
    let int_end = digits_end(s, from);
    if int_end < s.len() && s[int_end] == '.' {
        (int_end - from) + (digits_end(s, int_end + 1) - (int_end + 1))
    } else {
        int_end - from
    }
}

/// Whether `s[from..]` is an exponent: `e`, an optional sign, one digit or more.
pub open spec fn is_exponent(s: Seq<char>, from: int) -> bool {
    &&& from < s.len()
    &&& is_letter(s[from], 'e', 'E')
    &&& {
        let digits_from = if from + 1 < s.len() && is_sign(s[from + 1]) {
            from + 2
        } else {
            from + 1
        };
        digits_from < s.len() && digits_end(s, digits_from) == s.len()
    }
}

/// Whether `s[from..]` is a `Number` of the grammar.
pub open spec fn is_decimal_from(s: Seq<char>, from: int) -> bool {
    &&& mantissa_digits(s, from) >= 1
    &&& (mantissa_end(s, from) == s.len() || is_exponent(s, mantissa_end(s, from)))
}

/// Where the part behind the optional sign starts.
pub open spec fn body_start(s: Seq<char>) -> int {
    if s.len() > 0 && is_sign(s[0]) {
        1
    } else {
        0
    }
}

/// Whether `s` is a `Float` of the grammar.
pub open spec fn is_float_text(s: Seq<char>) -> bool {
    is_special_word(s.subrange(body_start(s), s.len() as int)) || is_decimal_from(
        s,
        body_start(s),
    )
}

pub proof fn lemma_digits_end_bounds(s: Seq<char>, i: int)
    requires
        0 <= i <= s.len(),
    ensures
        i <= digits_end(s, i) <= s.len(),
        forall|k: int| i <= k < digits_end(s, i) ==> is_digit(#[trigger] s[k]),
        digits_end(s, i) < s.len() ==> !is_digit(s[digits_end(s, i)]),
    decreases s.len() - i,
{
    if i < s.len() && is_digit(s[i]) {
        lemma_digits_end_bounds(s, i + 1);
    }
}

fn char_is_digit(c: char) -> (r: bool)
    ensures
        r == is_digit(c),
{
    c >= '0' && c <= '9'
}

fn char_is_sign(c: char) -> (r: bool)
    ensures
        r == is_sign(c),
{
    c == '+' || c == '-'
}

fn char_is_letter(c: char, lower: char, upper: char) -> (r: bool)
    ensures
        r == is_letter(c, lower, upper),
{
    c == lower || c == upper
}

/// Runs over the digits that start at `i`.
fn scan_digits(v: &Vec<char>, i: usize) -> (r: usize)
    requires
        i <= v.len(),
    ensures
        r == digits_end(v@, i as int),
        i <= r <= v.len(),
{
    let mut k: usize = i;
    while k < v.len() && char_is_digit(v[k])
        invariant
            i <= k <= v.len(),
            digits_end(v@, i as int) == digits_end(v@, k as int),
        decreases v.len() - k,
    {
        k += 1;
    }
    k
}

fn special_word_at(v: &Vec<char>, from: usize) -> (r: bool)
    requires
        from <= v.len(),
    ensures
        r == is_special_word(v@.subrange(from as int, v@.len() as int)),
{
    let n = v.len() - from;
    let ghost s = v@.subrange(from as int, v@.len() as int);
    assert(s.len() == n);
    assert(forall|k: int| 0 <= k < n ==> s[k] == v@[from + k]);
    if n == 3 {
        (char_is_letter(v[from], 'i', 'I') && char_is_letter(v[from + 1], 'n', 'N')
            && char_is_letter(v[from + 2], 'f', 'F')) || (char_is_letter(v[from], 'n', 'N')
            && char_is_letter(v[from + 1], 'a', 'A') && char_is_letter(v[from + 2], 'n', 'N'))
    } else if n == 8 {
        char_is_letter(v[from], 'i', 'I') && char_is_letter(v[from + 1], 'n', 'N')
            && char_is_letter(v[from + 2], 'f', 'F') && char_is_letter(v[from + 3], 'i', 'I')
            && char_is_letter(v[from + 4], 'n', 'N') && char_is_letter(v[from + 5], 'i', 'I')
            && char_is_letter(v[from + 6], 't', 'T') && char_is_letter(v[from + 7], 'y', 'Y')
    } else {
        false
    }
}

fn exponent_at(v: &Vec<char>, from: usize) -> (r: bool)
    requires
        from <= v.len(),
    ensures
        r == is_exponent(v@, from as int),
{
    if from >= v.len() || !char_is_letter(v[from], 'e', 'E') {
        return false;
    }
    let digits_from = if from + 1 < v.len() && char_is_sign(v[from + 1]) {
        from + 2
    } else {
        from + 1
    };
    if digits_from >= v.len() {
        return false;
    }
    scan_digits(v, digits_from) == v.len()
}

fn decimal_at(v: &Vec<char>, from: usize) -> (r: bool)
    requires
        from <= v.len(),
    ensures
        r == is_decimal_from(v@, from as int),
{
    let int_end = scan_digits(v, from);
    let mut digits = int_end - from;
    let mut end = int_end;
    if int_end < v.len() && v[int_end] == '.' {
        end = scan_digits(v, int_end + 1);
        digits = digits + (end - (int_end + 1));
    }
    if digits < 1 {
        return false;
    }
    end == v.len() || exponent_at(v, end)
}

/// Whether the characters in `v` form a number.
fn chars_are_float(v: &Vec<char>) -> (r: bool)
    ensures
        r == is_float_text(v@),
{
    let from: usize = if v.len() > 0 && char_is_sign(v[0]) {
        1
    } else {
        0
    };
    special_word_at(v, from) || decimal_at(v, from)
}

/// Whether `text` is a number: a decimal floating-point literal.
pub fn is_number(text: &str) -> (r: bool)
    ensures
        r == is_float_text(text@),
{
    let v = chars_of(text);
    chars_are_float(&v)
}

/// The characters that separate the numbers of a list: space, comma, colon,
/// hyphen, tab, line feed and carriage return.  As the hyphen separates, a
/// list cannot hold a number with a minus sign.
pub open spec fn is_delimiter(c: char) -> bool {
    c == ' ' || c == ',' || c == ':' || c == '-' || c == '\t' || c == '\n' || c == '\r'
}

/// The index just behind the longest run of characters that are no
/// delimiters and that starts at `i`.
pub open spec fn token_end(s: Seq<char>, i: int) -> int
    decreases s.len() - i,
{
    if 0 <= i < s.len() && !is_delimiter(s[i]) {
        token_end(s, i + 1)
    } else {
        i
    }
}

/// The tokens of `s[i..]`: the longest runs of characters that are no
/// delimiters, in order.  No token is empty.
pub open spec fn tokens_from(s: Seq<char>, i: int) -> Seq<Seq<char>>
    decreases s.len() - i,
{
    if i < 0 || i >= s.len() {
        Seq::empty()
    } else if is_delimiter(s[i]) {
        tokens_from(s, i + 1)
    } else if i < token_end(s, i) <= s.len() {
        seq![s.subrange(i, token_end(s, i))] + tokens_from(s, token_end(s, i))
    } else {
        Seq::empty()
    }
}

/// The tokens of `s`.
pub open spec fn tokens(s: Seq<char>) -> Seq<Seq<char>> {
    tokens_from(s, 0)
}

/// Whether every text in `ts` is a number.
pub open spec fn all_float_texts(ts: Seq<Seq<char>>) -> bool {
    forall|i: int| 0 <= i < ts.len() ==> is_float_text(#[trigger] ts[i])
}

/// The message for a list that holds a text that is no number.
pub open spec fn not_numeric_message(name: Seq<char>) -> Seq<char> {
    "None-numeric value found in "@ + name + " data."@
}

/// What reading a list of numbers gives: its tokens where each is a number,
/// else the message that names the list.
pub open spec fn numbers_of(data: Seq<char>, name: Seq<char>) -> Result<
    Seq<Seq<char>>,
    Seq<char>,
> {
    if all_float_texts(tokens(data)) {
        Ok(tokens(data))
    } else {
        Err(not_numeric_message(name))
    }
}

pub proof fn lemma_token_end_bounds(s: Seq<char>, i: int)
    requires
        0 <= i <= s.len(),
    ensures
        i <= token_end(s, i) <= s.len(),
        i < s.len() && !is_delimiter(s[i]) ==> i < token_end(s, i),
        forall|k: int| i <= k < token_end(s, i) ==> !is_delimiter(#[trigger] s[k]),
        token_end(s, i) < s.len() ==> is_delimiter(s[token_end(s, i)]),
    decreases s.len() - i,
{
    if i < s.len() && !is_delimiter(s[i]) {
        lemma_token_end_bounds(s, i + 1);
    }
}

/// No token is empty and no token holds a delimiter.  A hyphen is a
/// delimiter, so no token holds a minus sign.
pub proof fn law_tokens_hold_no_delimiter(s: Seq<char>, i: int)
    requires
        0 <= i <= s.len(),
    ensures
        forall|t: int|
            0 <= t < tokens_from(s, i).len() ==> (#[trigger] tokens_from(s, i)[t]).len() > 0,
        forall|t: int, k: int|
            0 <= t < tokens_from(s, i).len() && 0 <= k < tokens_from(s, i)[t].len()
                ==> !is_delimiter(#[trigger] tokens_from(s, i)[t][k]),
    decreases s.len() - i,
{
    if i < s.len() {
        if is_delimiter(s[i]) {
            law_tokens_hold_no_delimiter(s, i + 1);
            assert(tokens_from(s, i) == tokens_from(s, i + 1));
        } else {
            lemma_token_end_bounds(s, i);
            let end = token_end(s, i);
            law_tokens_hold_no_delimiter(s, end);
            let first = s.subrange(i, end);
            let rest = tokens_from(s, end);
            let all = tokens_from(s, i);
            assert(all == seq![first] + rest);
            assert forall|t: int| 0 <= t < all.len() implies (#[trigger] all[t]).len() > 0 by {
                if t > 0 {
                    assert(all[t] == rest[t - 1]);
                }
            }
            assert forall|t: int, k: int|
                0 <= t < all.len() && 0 <= k < all[t].len() implies !is_delimiter(
                #[trigger] all[t][k],
            ) by {
                if t > 0 {
                    assert(all[t] == rest[t - 1]);
                } else {
                    assert(all[0][k] == s[i + k]);
                }
            }
        }
    } else {
        assert(tokens_from(s, i).len() == 0);
    }
}

fn char_is_delimiter(c: char) -> (r: bool)
    ensures
        r == is_delimiter(c),
{
    c == ' ' || c == ',' || c == ':' || c == '-' || c == '\t' || c == '\n' || c == '\r'
}

fn scan_token(v: &Vec<char>, i: usize) -> (r: usize)
    requires
        i <= v.len(),
    ensures
        r == token_end(v@, i as int),
        i <= r <= v.len(),
{
    let mut k: usize = i;
    while k < v.len() && !char_is_delimiter(v[k])
        invariant
            i <= k <= v.len(),
            token_end(v@, i as int) == token_end(v@, k as int),
        decreases v.len() - k,
    {
        k += 1;
    }
    k
}

/// Splits a list of numbers into its tokens: the text between delimiters,
/// without the empty pieces.
pub fn split_data_string(data: &str) -> (r: Vec<String>)
    ensures
        texts_view(r@) == tokens(data@),
{
    let v = chars_of(data);
    let mut out: Vec<String> = Vec::new();
    let mut i: usize = 0;
    assert(texts_view(out@) =~= Seq::<Seq<char>>::empty());
    while i < v.len()
        invariant
            i <= v.len(),
            v@ == data@,
            tokens(data@) == texts_view(out@) + tokens_from(v@, i as int),
        decreases v.len() - i,
    {
        if char_is_delimiter(v[i]) {
            i += 1;
        } else {
            let end = scan_token(&v, i);
            proof {
                lemma_token_end_bounds(v@, i as int);
            }
            let t = text_of_range(&v, i, end);
            let ghost before = out@;
            out.push(t);
            proof {
                lemma_texts_view_push(before, t);
                assert(texts_view(before) + (seq![t@] + tokens_from(v@, end as int)) =~= texts_view(
                    before,
                ).push(t@) + tokens_from(v@, end as int));
            }
            i = end;
        }
    }
    assert(texts_view(out@) + Seq::<Seq<char>>::empty() =~= texts_view(out@));
    out
}

/// Reads a list of numbers.  Each token has to be a number; the numbers are
/// returned as they were written.
pub fn data_string_to_vec_f64(data: &str, name: &str) -> (r: Result<Vec<String>, String>)
    ensures
        match r {
            Ok(v) => numbers_of(data@, name@) == Ok::<Seq<Seq<char>>, Seq<char>>(texts_view(v@)),
            Err(e) => numbers_of(data@, name@) == Err::<Seq<Seq<char>>, Seq<char>>(e@),
        },
{
    let parts = split_data_string(data);
    let mut i: usize = 0;
    while i < parts.len()
        invariant
            i <= parts.len(),
            texts_view(parts@) == tokens(data@),
            forall|k: int| 0 <= k < i ==> is_float_text(#[trigger] tokens(data@)[k]),
        decreases parts.len() - i,
    {
        assert(texts_view(parts@)[i as int] == parts@[i as int]@);
        if !is_number(parts[i].as_str()) {
            return Err(join3("None-numeric value found in ", name, " data."));
        }
        i += 1;
    }
    Ok(parts)
}

/// The value of a digit.
pub open spec fn digit_value(c: char) -> nat {
    (c as nat - '0' as nat) as nat
}

/// The number that the digits `s[..n]` write in base ten.
pub open spec fn decimal_value(s: Seq<char>, n: int) -> nat
    decreases n,
{
    if n <= 0 {
        0
    } else {
        decimal_value(s, n - 1) * 10 + digit_value(s[n - 1])
    }
}

/// The number that `s[from..]` writes, where that is one digit or more and
/// the number fits in 64 bits.
pub open spec fn unsigned_from(s: Seq<char>, from: int) -> Option<u64> {
    let digits = s.subrange(from, s.len() as int);
    if 0 <= from < s.len() && digits_end(s, from) == s.len() && decimal_value(
        digits,
        digits.len() as int,
    ) <= u64::MAX {
        Some(decimal_value(digits, digits.len() as int) as u64)
    } else {
        None
    }
}

/// The number that `s` writes with digits alone.
pub open spec fn unsigned_of(s: Seq<char>) -> Option<u64> {
    unsigned_from(s, 0)
}

/// The number that `s` writes with digits and, before them, at most one `+`.
pub open spec fn unsigned_with_plus_of(s: Seq<char>) -> Option<u64> {
    if s.len() > 0 && s[0] == '+' {
        unsigned_from(s, 1)
    } else {
        unsigned_from(s, 0)
    }
}

proof fn lemma_decimal_value_grows(s: Seq<char>, n: int, m: int)
    requires
        0 <= n <= m,
    ensures
        decimal_value(s, n) <= decimal_value(s, m),
    decreases m - n,
{
    if n < m {
        lemma_decimal_value_grows(s, n, m - 1);
    }
}

#[verifier::rlimit(40)]
fn read_unsigned(v: &Vec<char>, from: usize) -> (r: Option<u64>)
    requires
        from <= v.len(),
    ensures
        r == unsigned_from(v@, from as int),
{
    if from >= v.len() {
        return None;
    }
    let ghost digits = v@.subrange(from as int, v@.len() as int);
    let mut value: u64 = 0;
    let mut i: usize = from;
    proof {
        lemma_digits_end_bounds(v@, from as int);
    }
    while i < v.len()
        invariant
            from <= i <= v.len(),
            from < v.len(),
            digits == v@.subrange(from as int, v@.len() as int),
            digits_end(v@, from as int) == digits_end(v@, i as int),
            value == decimal_value(digits, i - from),
        decreases v.len() - i,
    {
        let c = v[i];
        if !char_is_digit(c) {
            proof {
                lemma_digits_end_bounds(v@, i as int);
            }
            return None;
        }
        let d: u64 = (c as u32 - '0' as u32) as u64;
        assert(d == digit_value(digits[i - from]));
        assert(d <= 9);
        if value > (u64::MAX - d) / 10 {
            proof {
                lemma_decimal_value_grows(digits, i - from + 1, digits.len() as int);
                lemma_digits_end_bounds(v@, i as int);
            }
            return None;
        }
        value = value * 10 + d;
        i += 1;
    }
    proof {
        lemma_digits_end_bounds(v@, i as int);
    }
    Some(value)
}

/// Reads a number written with digits alone, such as `2014`.
pub fn parse_unsigned(text: &str) -> (r: Option<u64>)
    ensures
        r == unsigned_of(text@),
{
    let v = chars_of(text);
    read_unsigned(&v, 0)
}

/// Reads a number written with digits and, before them, at most one `+`.
pub fn parse_unsigned_with_plus(text: &str) -> (r: Option<u64>)
    ensures
        r == unsigned_with_plus_of(text@),
{
    let v = chars_of(text);
    if v.len() > 0 && v[0] == '+' {
        read_unsigned(&v, 1)
    } else {
        read_unsigned(&v, 0)
    }
}

/// The digit that writes `d`, for `d` below ten.
pub open spec fn digit_char(d: int) -> char {
    if d == 0 {
        '0'
    } else if d == 1 {
        '1'
    } else if d == 2 {
        '2'
    } else if d == 3 {
        '3'
    } else if d == 4 {
        '4'
    } else if d == 5 {
        '5'
    } else if d == 6 {
        '6'
    } else if d == 7 {
        '7'
    } else if d == 8 {
        '8'
    } else {
        '9'
    }
}

/// The digits that write `n` in base ten, without leading zeros.
pub open spec fn decimal_text(n: nat) -> Seq<char>
    decreases n,
{
    if n < 10 {
        seq![digit_char(n as int)]
    } else {
        decimal_text(n / 10).push(digit_char((n % 10) as int))
    }
}

/// The digit that writes `d`.
pub fn digit_of(d: u8) -> (r: char)
    requires
        d < 10,
    ensures
        r == digit_char(d as int),
        is_digit(r),
        digit_value(r) == d,
{
    match d {
        0 => '0',
        1 => '1',
        2 => '2',
        3 => '3',
        4 => '4',
        5 => '5',
        6 => '6',
        7 => '7',
        8 => '8',
        _ => '9',
    }
}

/// Writes `n` in base ten.
#[verifier::rlimit(40)]
pub fn unsigned_text(n: u64) -> (r: String)
    ensures
        r@ == decimal_text(n as nat),
{
    let mut digits: Vec<char> = Vec::new();
    let mut rest: u64 = n;
    // The digits come out last first.
    digits.push(digit_of((rest % 10) as u8));
    rest = rest / 10;
    while rest > 0
        invariant
            digits@.len() >= 1,
            decimal_text(n as nat) == (if rest == 0 {
                Seq::<char>::empty()
            } else {
                decimal_text(rest as nat)
            }) + digits@.reverse(),
        decreases rest,
    {
        let ghost before = digits@;
        let d = digit_of((rest % 10) as u8);
        digits.push(d);
        proof {
            assert(digits@.reverse() =~= seq![d] + before.reverse());
            if rest >= 10 {
                assert(decimal_text(rest as nat) == decimal_text((rest / 10) as nat).push(d));
                assert(decimal_text((rest / 10) as nat).push(d) + before.reverse() =~= decimal_text(
                    (rest / 10) as nat,
                ) + (seq![d] + before.reverse()));
            } else {
                assert(decimal_text(rest as nat) =~= seq![d]);
                assert(seq![d] + before.reverse() =~= Seq::<char>::empty() + (seq![d]
                    + before.reverse()));
            }
        }
        rest = rest / 10;
    }
    let mut out: Vec<char> = Vec::new();
    let mut i: usize = digits.len();
    while i > 0
        invariant
            i <= digits.len(),
            out@ == digits@.reverse().take(digits.len() - i),
        decreases i,
    {
        i -= 1;
        out.push(digits[i]);
        assert(digits@.reverse().take(digits.len() - i) =~= digits@.reverse().take(
            digits.len() - (i + 1),
        ).push(digits@[i as int]));
    }
    assert(out@ =~= digits@.reverse());
    assert(Seq::<char>::empty() + digits@.reverse() =~= digits@.reverse());
    text_of(&out)
}

/// The index of the first character of `s[from..to]` that is not `'0'`, or
/// `to` where there is none.
pub open spec fn first_nonzero(s: Seq<char>, from: int, to: int) -> int
    decreases to - from,
{
    if 0 <= from < to && from < s.len() && s[from] == '0' {
        first_nonzero(s, from + 1, to)
    } else {
        from
    }
}

/// The JSON literal for the number that `s` writes, where `s` is a number
/// other than an infinity or a NaN, for which JSON has no literal.
///
/// The literal has the minus sign of `s`, if it has one; the integer digits of
/// `s` without leading zeros, or `0`; a point; the fraction digits of `s`, or
/// `0`; and the exponent of `s` as it stands.
pub open spec fn json_number_of(s: Seq<char>) -> Option<Seq<char>> {
    let from = body_start(s);
    let int_end = digits_end(s, from);
    let end = mantissa_end(s, from);
    let start = first_nonzero(s, from, int_end);
    if is_special_word(s.subrange(from, s.len() as int)) {
        None
    } else {
        Some(
            (if s.len() > 0 && s[0] == '-' {
                seq!['-']
            } else {
                Seq::empty()
            }) + (if start == int_end {
                seq!['0']
            } else {
                s.subrange(start, int_end)
            }) + seq!['.'] + (if end > int_end + 1 {
                s.subrange(int_end + 1, end)
            } else {
                seq!['0']
            }) + s.subrange(end, s.len() as int),
        )
    }
}

fn push_range(out: &mut Vec<char>, v: &Vec<char>, from: usize, to: usize)
    requires
        from <= to <= v.len(),
    ensures
        final(out)@ == old(out)@ + v@.subrange(from as int, to as int),
{
    let mut i: usize = from;
    assert(out@ =~= old(out)@ + v@.subrange(from as int, i as int));
    while i < to
        invariant
            from <= i <= to <= v.len(),
            out@ == old(out)@ + v@.subrange(from as int, i as int),
        decreases to - i,
    {
        out.push(v[i]);
        assert(old(out)@ + v@.subrange(from as int, i + 1) =~= (old(out)@ + v@.subrange(
            from as int,
            i as int,
        )).push(v@[i as int]));
        i += 1;
    }
}

/// The JSON literal for the number that `text` writes; `None` for an infinity
/// or a NaN.  Where `text` is a number, the literal is written as JSON writes
/// numbers and writes the same number.
pub fn json_number(text: &str) -> (r: Option<String>)
    ensures
        match r {
            Some(t) => json_number_of(text@) == Some(t@),
            None => json_number_of(text@).is_none(),
        },
        is_float_text(text@) ==> (r matches Some(t) ==> is_json_number(t@) && same_decimal(
            t@,
            text@,
        )),
{
    let r = json_literal(text);
    proof {
        if is_float_text(text@) && json_number_of(text@) is Some {
            law_json_number_keeps_the_number(text@);
        }
    }
    r
}

#[verifier::rlimit(40)]
fn json_literal(text: &str) -> (r: Option<String>)
    ensures
        match r {
            Some(t) => json_number_of(text@) == Some(t@),
            None => json_number_of(text@).is_none(),
        },
{
    let v = chars_of(text);
    let from: usize = if v.len() > 0 && char_is_sign(v[0]) {
        1
    } else {
        0
    };
    if special_word_at(&v, from) {
        return None;
    }
    let int_end = scan_digits(&v, from);
    let end = if int_end < v.len() && v[int_end] == '.' {
        scan_digits(&v, int_end + 1)
    } else {
        int_end
    };
    let mut start: usize = from;
    while start < int_end && v[start] == '0'
        invariant
            from <= start <= int_end <= v.len(),
            first_nonzero(v@, from as int, int_end as int) == first_nonzero(
                v@,
                start as int,
                int_end as int,
            ),
        decreases int_end - start,
    {
        start += 1;
    }
    let ghost sign_part: Seq<char> = if v@.len() > 0 && v@[0] == '-' {
        seq!['-']
    } else {
        Seq::empty()
    };
    let ghost int_part: Seq<char> = if start == int_end {
        seq!['0']
    } else {
        v@.subrange(start as int, int_end as int)
    };
    let ghost frac_part: Seq<char> = if end > int_end + 1 {
        v@.subrange(int_end + 1, end as int)
    } else {
        seq!['0']
    };
    let ghost tail = v@.subrange(end as int, v@.len() as int);
    assert(json_number_of(text@) == Some(sign_part + int_part + seq!['.'] + frac_part + tail));
    let mut out: Vec<char> = Vec::new();
    if v.len() > 0 && v[0] == '-' {
        out.push('-');
    }
    assert(out@ =~= sign_part);
    if start == int_end {
        out.push('0');
    } else {
        push_range(&mut out, &v, start, int_end);
    }
    assert(out@ =~= sign_part + int_part);
    out.push('.');
    assert(out@ =~= sign_part + int_part + seq!['.']);
    if end - int_end > 1 {
        push_range(&mut out, &v, int_end + 1, end);
    } else {
        out.push('0');
    }
    assert(out@ =~= sign_part + int_part + seq!['.'] + frac_part);
    push_range(&mut out, &v, end, v.len());
    assert(out@ =~= sign_part + int_part + seq!['.'] + frac_part + tail);
    Some(text_of(&out))
}

/// A run of digits that ends at `j` is where `digits_end` stops.
pub proof fn lemma_digits_end_is(s: Seq<char>, i: int, j: int)
    requires
        0 <= i <= j <= s.len(),
        forall|k: int| i <= k < j ==> is_digit(#[trigger] s[k]),
        j == s.len() || !is_digit(s[j]),
    ensures
        digits_end(s, i) == j,
    decreases j - i,
{
    if i < j {
        lemma_digits_end_is(s, i + 1, j);
    }
}

/// Every character of the decimal text of a number is a digit, and the text
/// writes that number.
pub proof fn lemma_decimal_text(n: nat)
    ensures
        decimal_text(n).len() >= 1,
        forall|k: int| 0 <= k < decimal_text(n).len() ==> is_digit(#[trigger] decimal_text(n)[k]),
        decimal_value(decimal_text(n), decimal_text(n).len() as int) == n,
    decreases n,
{
    if n >= 10 {
        lemma_decimal_text(n / 10);
        let head = decimal_text(n / 10);
        let all = decimal_text(n);
        assert(all == head.push(digit_char((n % 10) as int)));
        lemma_decimal_value_prefix(all, head, head.len() as int);
        assert(digit_value(digit_char((n % 10) as int)) == n % 10);
    } else {
        assert(digit_value(digit_char(n as int)) == n);
        assert(decimal_value(decimal_text(n), 0) == 0);
    }
}

/// The value of the first `n` digits depends on those digits alone.
pub proof fn lemma_decimal_value_prefix(a: Seq<char>, b: Seq<char>, n: int)
    requires
        0 <= n <= a.len(),
        n <= b.len(),
        forall|k: int| 0 <= k < n ==> a[k] == b[k],
    ensures
        decimal_value(a, n) == decimal_value(b, n),
    decreases n,
{
    if n > 0 {
        lemma_decimal_value_prefix(a, b, n - 1);
    }
}

/// Reading the decimal text of a number gives the number back.
pub proof fn lemma_unsigned_of_decimal_text(n: nat)
    requires
        n <= u64::MAX,
    ensures
        unsigned_of(decimal_text(n)) == Some(n as u64),
{
    let s = decimal_text(n);
    lemma_decimal_text(n);
    lemma_digits_end_is(s, 0, s.len() as int);
    assert(s.subrange(0, s.len() as int) =~= s);
}

pub proof fn lemma_first_nonzero_bounds(s: Seq<char>, from: int, to: int)
    requires
        0 <= from <= to <= s.len(),
    ensures
        from <= first_nonzero(s, from, to) <= to,
        first_nonzero(s, from, to) < to ==> s[first_nonzero(s, from, to)] != '0',
    decreases to - from,
{
    if from < to && s[from] == '0' {
        lemma_first_nonzero_bounds(s, from + 1, to);
    }
}

/// Ten to the power of `n`.
pub open spec fn pow10(n: nat) -> nat
    decreases n,
{
    if n == 0 {
        1
    } else {
        10 * pow10((n - 1) as nat)
    }
}

/// The digits before the point of a decimal number.
pub open spec fn int_digits(s: Seq<char>) -> Seq<char> {
    s.subrange(body_start(s), digits_end(s, body_start(s)))
}

/// The digits behind the point of a decimal number; none where it has no
/// point.
pub open spec fn frac_digits(s: Seq<char>) -> Seq<char> {
    let int_end = digits_end(s, body_start(s));
    if int_end < s.len() && s[int_end] == '.' {
        s.subrange(int_end + 1, mantissa_end(s, body_start(s)))
    } else {
        Seq::empty()
    }
}

/// The exponent of a decimal number as it is written; empty where it has
/// none.
pub open spec fn exponent_part(s: Seq<char>) -> Seq<char> {
    s.subrange(mantissa_end(s, body_start(s)), s.len() as int)
}

/// The whole number that the digits of a decimal number write, the point
/// left out.
pub open spec fn mantissa_value(s: Seq<char>) -> nat {
    decimal_value(
        int_digits(s) + frac_digits(s),
        (int_digits(s).len() + frac_digits(s).len()) as int,
    )
}

/// Whether a text starts with a minus sign.
pub open spec fn is_negative(s: Seq<char>) -> bool {
    s.len() > 0 && s[0] == '-'
}

/// The digits of an exponent, which stand behind its `e` and its sign.
pub open spec fn exponent_digits(x: Seq<char>) -> Seq<char> {
    if x.len() > 1 && is_sign(x[1]) {
        x.subrange(2, x.len() as int)
    } else if x.len() > 0 {
        x.subrange(1, x.len() as int)
    } else {
        Seq::empty()
    }
}

/// Whether an exponent has a minus sign.
pub open spec fn exponent_is_negative(x: Seq<char>) -> bool {
    x.len() > 1 && x[1] == '-'
}

/// The number that the digits of an exponent write; 0 for no exponent.
pub open spec fn exponent_size(x: Seq<char>) -> nat {
    decimal_value(exponent_digits(x), exponent_digits(x).len() as int)
}

/// The power of ten by which the digits of a decimal number are scaled: its
/// exponent less the number of its fraction digits.
pub open spec fn decimal_scale(s: Seq<char>) -> int {
    (if exponent_is_negative(exponent_part(s)) {
        -exponent_size(exponent_part(s))
    } else {
        exponent_size(exponent_part(s)) as int
    }) - frac_digits(s).len()
}

/// Whether two decimal numbers write the same number: they have the same
/// sign, and the digits of the one with the larger power of ten, followed by
/// as many zeros as the two powers differ, write the same whole number as the
/// digits of the other.
pub open spec fn same_decimal(a: Seq<char>, b: Seq<char>) -> bool {
    &&& is_negative(a) == is_negative(b)
    &&& if decimal_scale(a) >= decimal_scale(b) {
        mantissa_value(a) * pow10((decimal_scale(a) - decimal_scale(b)) as nat) == mantissa_value(
            b,
        )
    } else {
        mantissa_value(b) * pow10((decimal_scale(b) - decimal_scale(a)) as nat) == mantissa_value(
            a,
        )
    }
}

/// The value of digits behind other digits.
pub proof fn lemma_decimal_value_concat(a: Seq<char>, b: Seq<char>, n: int)
    requires
        0 <= n <= b.len(),
    ensures
        decimal_value(a + b, a.len() + n) == decimal_value(a, a.len() as int) * pow10(n as nat)
            + decimal_value(b, n),
    decreases n,
{
    if n > 0 {
        lemma_decimal_value_concat(a, b, n - 1);
        assert((a + b)[a.len() + n - 1] == b[n - 1]);
        let x = decimal_value(a, a.len() as int);
        let p = pow10((n - 1) as nat);
        assert(pow10(n as nat) == 10 * p);
        assert((x * p + decimal_value(b, n - 1)) * 10 == x * (10 * p) + decimal_value(b, n - 1)
            * 10) by (nonlinear_arith);
    } else {
        lemma_decimal_value_prefix(a + b, a, a.len() as int);
        assert(decimal_value(a, a.len() as int) * 1 == decimal_value(a, a.len() as int));
    }
}

/// Zeros in front do not change what digits write.
pub proof fn lemma_leading_zeros(s: Seq<char>, from: int, to: int)
    requires
        0 <= from <= to <= s.len(),
    ensures
        decimal_value(s.subrange(from, to), to - from) == decimal_value(
            s.subrange(first_nonzero(s, from, to), to),
            to - first_nonzero(s, from, to),
        ),
    decreases to - from,
{
    if from < to && s[from] == '0' {
        lemma_leading_zeros(s, from + 1, to);
        lemma_zero_in_front(s.subrange(from, to), to - from);
        assert(s.subrange(from, to).subrange(1, to - from) =~= s.subrange(from + 1, to));
    }
}

/// A zero in front does not change what digits write.
proof fn lemma_zero_in_front(d: Seq<char>, n: int)
    requires
        1 <= n <= d.len(),
        d[0] == '0',
    ensures
        decimal_value(d, n) == decimal_value(d.subrange(1, d.len() as int), n - 1),
    decreases n,
{
    let rest = d.subrange(1, d.len() as int);
    if n > 1 {
        lemma_zero_in_front(d, n - 1);
        assert(rest[n - 2] == d[n - 1]);
    } else {
        assert(decimal_value(d, 0) == 0);
        assert(digit_value('0') == 0);
    }
}

/// Whether `s` is a number as JSON writes it: an optional minus sign; `0`,
/// or digits that do not start with `0`; optionally a point and one digit or
/// more; optionally an exponent.
pub open spec fn is_json_number(s: Seq<char>) -> bool {
    let from: int = if is_negative(s) {
        1
    } else {
        0
    };
    let int_end = digits_end(s, from);
    let end = mantissa_end(s, from);
    &&& from < int_end
    &&& (s[from] != '0' || int_end == from + 1)
    &&& (int_end < s.len() && s[int_end] == '.' ==> end > int_end + 1)
    &&& (end == s.len() || is_exponent(s, end))
}

/// The JSON literal of a number is a number, is written as JSON writes
/// numbers, and writes the same number.
pub proof fn law_json_number_keeps_the_number(s: Seq<char>)
    requires
        is_float_text(s),
        json_number_of(s) is Some,
    ensures
        is_float_text(json_number_of(s)->Some_0),
        is_json_number(json_number_of(s)->Some_0),
        same_decimal(json_number_of(s)->Some_0, s),
{
    lemma_json_number_is_float(s);
    lemma_json_number_same(s);
}

/// The integer digits of the JSON literal of `s`.
pub open spec fn literal_int_digits(s: Seq<char>) -> Seq<char> {
    let from = body_start(s);
    let int_end = digits_end(s, from);
    let start = first_nonzero(s, from, int_end);
    if start == int_end {
        seq!['0']
    } else {
        s.subrange(start, int_end)
    }
}

/// The fraction digits of the JSON literal of `s`.
pub open spec fn literal_frac_digits(s: Seq<char>) -> Seq<char> {
    let from = body_start(s);
    let int_end = digits_end(s, from);
    let end = mantissa_end(s, from);
    if end > int_end + 1 {
        s.subrange(int_end + 1, end)
    } else {
        seq!['0']
    }
}

/// How the JSON literal of a number is made up.
#[verifier::rlimit(40)]
proof fn lemma_json_number_shape(s: Seq<char>)
    requires
        is_float_text(s),
        json_number_of(s) is Some,
    ensures
        ({
            let r = json_number_of(s)->Some_0;
            let a: int = if is_negative(s) {
                1
            } else {
                0
            };
            let b = a + literal_int_digits(s).len();
            let d = b + 1 + literal_frac_digits(s).len();
            &&& is_negative(r) == is_negative(s)
            &&& body_start(r) == a
            &&& digits_end(r, a) == b
            &&& b < r.len()
            &&& r[b] == '.'
            &&& mantissa_end(r, a) == d
            &&& r.len() == d + exponent_part(s).len()
            &&& int_digits(r) == literal_int_digits(s)
            &&& frac_digits(r) == literal_frac_digits(s)
            &&& exponent_part(r) == exponent_part(s)
            &&& literal_int_digits(s).len() >= 1
            &&& is_digit(r[a])
            &&& (literal_int_digits(s).len() > 1 ==> r[a] != '0')
            &&& literal_frac_digits(s).len() >= 1
            &&& (d < r.len() ==> !is_digit(r[d]))
        }),
{
    let from = body_start(s);
    let int_end = digits_end(s, from);
    let end = mantissa_end(s, from);
    let start = first_nonzero(s, from, int_end);
    let n = s.len() as int;
    lemma_digits_end_bounds(s, from);
    lemma_first_nonzero_bounds(s, from, int_end);
    if int_end < n && s[int_end] == '.' {
        lemma_digits_end_bounds(s, int_end + 1);
    }
    let sign: Seq<char> = if s.len() > 0 && s[0] == '-' {
        seq!['-']
    } else {
        Seq::empty()
    };
    let ip = literal_int_digits(s);
    let fp = literal_frac_digits(s);
    let tail = s.subrange(end, n);
    let r = sign + ip + seq!['.'] + fp + tail;
    assert(json_number_of(s) == Some(r));
    let a = sign.len() as int;
    let b = a + ip.len();
    let c = b + 1;
    let d = c + fp.len();
    assert(r.len() == d + tail.len());
    assert forall|k: int| a <= k < b implies is_digit(#[trigger] r[k]) by {
        assert(r[k] == ip[k - a]);
    }
    assert(r[b] == '.');
    assert forall|k: int| c <= k < d implies is_digit(#[trigger] r[k]) by {
        assert(r[k] == fp[k - c]);
    }
    assert(r[a] == ip[0]);
    assert(is_digit(r[a]));
    assert(is_negative(r) == (a == 1)) by {
        if a == 1 {
            assert(r[0] == '-');
        }
    }
    assert(body_start(r) == a);
    lemma_digits_end_is(r, a, b);
    assert(end == n || is_exponent(s, end));
    if end < n {
        assert(r[d] == tail[0]);
        assert(!is_digit(r[d]));
    }
    lemma_digits_end_is(r, c, d);
    assert(mantissa_end(r, a) == d);
    assert(int_digits(r) =~= ip);
    assert(frac_digits(r) =~= fp);
    assert(exponent_part(r) =~= tail);
}

/// An exponent stays one where it is moved as a whole.
proof fn lemma_exponent_moved(s: Seq<char>, end: int, r: Seq<char>, d: int)
    requires
        0 <= end < s.len(),
        0 <= d < r.len(),
        is_exponent(s, end),
        r.subrange(d, r.len() as int) == s.subrange(end, s.len() as int),
    ensures
        is_exponent(r, d),
{
    let n = s.len() as int;
    let tail = s.subrange(end, n);
    let moved = r.subrange(d, r.len() as int);
    assert(moved.len() == r.len() - d);
    assert(tail.len() == n - end);
    assert(r.len() - d == n - end);
    assert forall|k: int| d <= k < r.len() implies #[trigger] r[k] == s[end + (k - d)] by {
        assert(moved[k - d] == tail[k - d]);
    }
    assert(r[d] == s[end]);
    let sf = if end + 1 < n && is_sign(s[end + 1]) {
        end + 2
    } else {
        end + 1
    };
    if end + 1 < n {
        assert(r[d + 1] == s[end + 1]);
    }
    lemma_digits_end_bounds(s, sf);
    let rf = d + (sf - end);
    assert forall|k: int| rf <= k < r.len() implies is_digit(#[trigger] r[k]) by {
        assert(r[k] == s[end + (k - d)]);
    }
    lemma_digits_end_is(r, rf, r.len() as int);
}

/// The JSON literal of a number is a number itself.
pub proof fn lemma_json_number_is_float(s: Seq<char>)
    requires
        is_float_text(s),
        json_number_of(s) is Some,
    ensures
        is_float_text(json_number_of(s)->Some_0),
        is_json_number(json_number_of(s)->Some_0),
{
    lemma_json_number_shape(s);
    let r = json_number_of(s)->Some_0;
    let end = mantissa_end(s, body_start(s));
    let d = mantissa_end(r, body_start(r));
    lemma_digits_end_bounds(s, body_start(s));
    if digits_end(s, body_start(s)) < s.len() && s[digits_end(s, body_start(s))] == '.' {
        lemma_digits_end_bounds(s, digits_end(s, body_start(s)) + 1);
    }
    if end < s.len() {
        lemma_exponent_moved(s, end, r, d);
    }
}

/// The JSON literal of a number writes the same number.
#[verifier::rlimit(40)]
pub proof fn lemma_json_number_same(s: Seq<char>)
    requires
        is_float_text(s),
        json_number_of(s) is Some,
    ensures
        same_decimal(json_number_of(s)->Some_0, s),
{
    lemma_json_number_shape(s);
    let r = json_number_of(s)->Some_0;
    let from = body_start(s);
    let int_end = digits_end(s, from);
    let start = first_nonzero(s, from, int_end);
    let ip = literal_int_digits(s);
    let fp = literal_frac_digits(s);
    let id = int_digits(s);
    let fd = frac_digits(s);
    lemma_digits_end_bounds(s, from);
    if int_end < s.len() && s[int_end] == '.' {
        lemma_digits_end_bounds(s, int_end + 1);
    }
    lemma_first_nonzero_bounds(s, from, int_end);
    let v = decimal_value(id, id.len() as int);
    assert(decimal_value(ip, ip.len() as int) == v) by {
        lemma_leading_zeros(s, from, int_end);
        if start == int_end {
            assert(decimal_value(s.subrange(start, int_end), 0) == 0);
            assert(decimal_value(ip, 1) == decimal_value(ip, 0) * 10 + digit_value('0'));
            assert(decimal_value(ip, 0) == 0);
        }
    }
    lemma_decimal_value_concat(ip, fp, fp.len() as int);
    lemma_decimal_value_concat(id, fd, fd.len() as int);
    assert(mantissa_value(r) == v * pow10(fp.len()) + decimal_value(fp, fp.len() as int));
    assert(mantissa_value(s) == v * pow10(fd.len()) + decimal_value(fd, fd.len() as int));
    assert(exponent_part(r) == exponent_part(s));
    assert(pow10(0) == 1);
    if fd.len() > 0 {
        assert(fd == fp);
        assert(decimal_scale(r) == decimal_scale(s));
        assert(mantissa_value(r) == mantissa_value(s));
        assert(mantissa_value(r) * 1 == mantissa_value(s));
    } else {
        assert(fp == seq!['0']);
        assert(decimal_value(fp, 1) == decimal_value(fp, 0) * 10 + digit_value('0'));
        assert(decimal_value(fp, 0) == 0);
        assert(decimal_value(fd, 0) == 0);
        assert(pow10(1) == 10 * pow10(0));
        assert(pow10(0) == 1);
        assert(mantissa_value(r) == v * 10);
        assert(mantissa_value(s) == v * 1);
        assert(frac_digits(r).len() == 1);
        assert(decimal_scale(s) == decimal_scale(r) + 1);
        assert(pow10(1) == 10);
        assert((v * 1) * 10 == v * 10);
        assert(mantissa_value(s) * pow10(1) == mantissa_value(r));
    }
}

/// How far the point of a number is moved at most to show the number
/// without its exponent.  No 64-bit float needs more.
pub const MAX_SHIFT: u64 = 1000;

/// `n` zeros.
pub open spec fn zeros(n: nat) -> Seq<char> {
    Seq::new(n, |i: int| '0')
}

/// A decimal number with a negative exponent, written without the exponent:
/// the point is moved to the left by what the exponent says, through zeros
/// where the digits end.  `12.5e-3` becomes `0.0125`.
pub open spec fn positional_of(s: Seq<char>) -> Seq<char> {
    let ints = int_digits(s);
    let shift = exponent_size(exponent_part(s)) as int;
    let keep: int = if shift >= ints.len() {
        0
    } else {
        ints.len() - shift
    };
    s.subrange(0, body_start(s)) + (if keep == 0 {
        seq!['0']
    } else {
        ints.subrange(0, keep)
    }) + seq!['.'] + zeros((shift - (ints.len() - keep)) as nat) + ints.subrange(
        keep,
        ints.len() as int,
    ) + frac_digits(s)
}

/// Whether the point of `s` is moved to show it: `s` is a decimal number
/// with a negative exponent of at most [`MAX_SHIFT`].
pub open spec fn point_is_moved(s: Seq<char>) -> bool {
    &&& is_float_text(s)
    &&& !is_special_word(s.subrange(body_start(s), s.len() as int))
    &&& exponent_is_negative(exponent_part(s))
    &&& exponent_size(exponent_part(s)) <= MAX_SHIFT
}

/// A number as it is shown in a list: without a negative exponent, which
/// would part it at the minus sign, and else as it stands.
pub open spec fn shown_number(s: Seq<char>) -> Seq<char> {
    if point_is_moved(s) {
        positional_of(s)
    } else {
        s
    }
}

/// Whether a number can stand in a list and be read from it again: it is a
/// number without a minus sign in front and without a negative exponent
/// beyond [`MAX_SHIFT`].
pub open spec fn is_listable(s: Seq<char>) -> bool {
    &&& is_float_text(s)
    &&& !is_negative(s)
    &&& (exponent_is_negative(exponent_part(s)) ==> point_is_moved(s))
}

fn push_zeros(out: &mut Vec<char>, n: usize)
    ensures
        final(out)@ == old(out)@ + zeros(n as nat),
{
    let mut i: usize = 0;
    assert(out@ =~= old(out)@ + zeros(0));
    while i < n
        invariant
            i <= n,
            out@ == old(out)@ + zeros(i as nat),
        decreases n - i,
    {
        out.push('0');
        assert(old(out)@ + zeros((i + 1) as nat) =~= (old(out)@ + zeros(i as nat)).push('0'));
        i += 1;
    }
}

/// How far the point of a number is moved to show it, where it is moved.
#[verifier::rlimit(40)]
fn exponent_shift(v: &Vec<char>) -> (r: Option<u64>)
    ensures
        match r {
            Some(n) => point_is_moved(v@) && n == exponent_size(exponent_part(v@)),
            None => !point_is_moved(v@),
        },
{
    if !chars_are_float(v) {
        return None;
    }
    let from: usize = if v.len() > 0 && char_is_sign(v[0]) {
        1
    } else {
        0
    };
    if special_word_at(v, from) {
        return None;
    }
    let int_end = scan_digits(v, from);
    let end = if int_end < v.len() && v[int_end] == '.' {
        scan_digits(v, int_end + 1)
    } else {
        int_end
    };
    let ghost x = exponent_part(v@);
    assert(x.len() == v@.len() - end);
    if end >= v.len() || end + 1 >= v.len() || v[end + 1] != '-' {
        assert(!exponent_is_negative(x)) by {
            if x.len() > 1 {
                assert(x[1] == v@[end + 1]);
            }
        }
        return None;
    }
    assert(x[1] == v@[end + 1]);
    assert(exponent_digits(x) =~= v@.subrange(end + 2, v@.len() as int));
    assert(is_exponent(v@, end as int));
    match read_unsigned(v, end + 2) {
        Some(n) => if n <= MAX_SHIFT {
            Some(n)
        } else {
            None
        },
        None => None,
    }
}

/// Writes a number without its exponent, the point moved by `shift`.
#[verifier::rlimit(40)]
fn moved_point(v: &Vec<char>, shift: u64) -> (out: Vec<char>)
    requires
        point_is_moved(v@),
        shift == exponent_size(exponent_part(v@)),
    ensures
        out@ == positional_of(v@),
{
    let from: usize = if v.len() > 0 && char_is_sign(v[0]) {
        1
    } else {
        0
    };
    let int_end = scan_digits(v, from);
    let end = if int_end < v.len() && v[int_end] == '.' {
        scan_digits(v, int_end + 1)
    } else {
        int_end
    };
    let ints = int_end - from;
    let keep: usize = if shift >= ints as u64 {
        0
    } else {
        ints - shift as usize
    };
    let fill: usize = shift as usize - (ints - keep);
    let ghost int_text = int_digits(v@);
    let ghost head: Seq<char> = if keep == 0 {
        seq!['0']
    } else {
        int_text.subrange(0, keep as int)
    };
    let ghost pre = v@.subrange(0, from as int);
    let ghost rest = int_text.subrange(keep as int, int_text.len() as int);
    assert(positional_of(v@) == pre + head + seq!['.'] + zeros(fill as nat) + rest + frac_digits(
        v@,
    ));
    let mut out: Vec<char> = Vec::new();
    push_range(&mut out, v, 0, from);
    assert(out@ =~= pre);
    if keep == 0 {
        out.push('0');
    } else {
        push_range(&mut out, v, from, from + keep);
        assert(v@.subrange(from as int, from + keep) =~= head);
    }
    assert(out@ =~= pre + head);
    out.push('.');
    assert(out@ =~= pre + head + seq!['.']);
    push_zeros(&mut out, fill);
    assert(out@ =~= pre + head + seq!['.'] + zeros(fill as nat));
    push_range(&mut out, v, from + keep, int_end);
    assert(v@.subrange(from + keep, int_end as int) =~= rest);
    assert(out@ =~= pre + head + seq!['.'] + zeros(fill as nat) + rest);
    if int_end < v.len() && v[int_end] == '.' {
        push_range(&mut out, v, int_end + 1, end);
    }
    assert(out@ =~= pre + head + seq!['.'] + zeros(fill as nat) + rest + frac_digits(v@));
    out
}

/// The text that shows a number in a list: the number without its exponent
/// where the exponent is negative, and the number as it stands otherwise.
pub fn shown_text(text: &str) -> (r: String)
    ensures
        r@ == shown_number(text@),
{
    let v = chars_of(text);
    match exponent_shift(&v) {
        Some(shift) => {
            let out = moved_point(&v, shift);
            text_of(&out)
        },
        None => text.to_owned(),
    }
}

/// Zeros write nothing.
proof fn lemma_zeros_value(n: nat, k: int)
    requires
        0 <= k <= n,
    ensures
        decimal_value(zeros(n), k) == 0,
    decreases k,
{
    if k > 0 {
        lemma_zeros_value(n, k - 1);
        assert(zeros(n)[k - 1] == '0');
        assert(digit_value('0') == 0);
    }
}

/// A number with no minus sign in front and none in its exponent holds no
/// delimiter.
#[verifier::rlimit(40)]
pub proof fn lemma_plain_number_holds_no_delimiter(s: Seq<char>)
    requires
        is_float_text(s),
        !is_negative(s),
        !exponent_is_negative(exponent_part(s)),
    ensures
        s.len() > 0,
        forall|k: int| 0 <= k < s.len() ==> !is_delimiter(#[trigger] s[k]),
{
    let from = body_start(s);
    let n = s.len() as int;
    let body = s.subrange(from, n);
    if is_special_word(body) {
        assert forall|k: int| 0 <= k < n implies !is_delimiter(#[trigger] s[k]) by {
            if k >= from {
                let j = k - from;
                assert(body[j] == s[k]);
                if j == 0 {
                } else if j == 1 {
                } else if j == 2 {
                } else if j == 3 {
                } else if j == 4 {
                } else if j == 5 {
                } else if j == 6 {
                } else {
                }
            }
        }
    } else {
        let int_end = digits_end(s, from);
        let end = mantissa_end(s, from);
        lemma_digits_end_bounds(s, from);
        if int_end < n && s[int_end] == '.' {
            lemma_digits_end_bounds(s, int_end + 1);
        }
        if end < n {
            let x = exponent_part(s);
            assert(x.len() == n - end);
            let digits_from = if end + 1 < n && is_sign(s[end + 1]) {
                end + 2
            } else {
                end + 1
            };
            lemma_digits_end_bounds(s, digits_from);
            if end + 1 < n {
                assert(x[1] == s[end + 1]);
            }
        }
        assert forall|k: int| 0 <= k < n implies !is_delimiter(#[trigger] s[k]) by {
            if k < from {
            } else if k < int_end {
            } else if k < end {
            } else if k == end {
            } else if k == end + 1 {
            } else {
            }
        }
    }
}

/// How a number without its exponent is made up.
#[verifier::rlimit(40)]
proof fn lemma_positional_shape(s: Seq<char>)
    requires
        point_is_moved(s),
    ensures
        ({
            let r = positional_of(s);
            let ints = int_digits(s);
            let shift = exponent_size(exponent_part(s)) as int;
            let keep: int = if shift >= ints.len() {
                0
            } else {
                ints.len() - shift
            };
            let head: Seq<char> = if keep == 0 {
                seq!['0']
            } else {
                ints.subrange(0, keep)
            };
            &&& r.len() > 0
            &&& is_negative(r) == is_negative(s)
            &&& body_start(r) == body_start(s)
            &&& int_digits(r) == head
            &&& frac_digits(r) == zeros((shift - (ints.len() - keep)) as nat) + ints.subrange(
                keep,
                ints.len() as int,
            ) + frac_digits(s)
            &&& exponent_part(r).len() == 0
            &&& is_float_text(r)
            &&& forall|k: int|
                body_start(s) <= k < r.len() ==> is_digit(#[trigger] r[k]) || r[k] == '.'
            &&& forall|k: int| 0 <= k < body_start(s) ==> #[trigger] r[k] == s[k]
        }),
{
    let from = body_start(s);
    let n = s.len() as int;
    let int_end = digits_end(s, from);
    let end = mantissa_end(s, from);
    lemma_digits_end_bounds(s, from);
    if int_end < n && s[int_end] == '.' {
        lemma_digits_end_bounds(s, int_end + 1);
    }
    let ints = int_digits(s);
    let fracs = frac_digits(s);
    let shift = exponent_size(exponent_part(s)) as int;
    let keep: int = if shift >= ints.len() {
        0
    } else {
        ints.len() - shift
    };
    let head: Seq<char> = if keep == 0 {
        seq!['0']
    } else {
        ints.subrange(0, keep)
    };
    let fill = zeros((shift - (ints.len() - keep)) as nat);
    let rest = ints.subrange(keep, ints.len() as int);
    let pre = s.subrange(0, from);
    let tail = fill + rest + fracs;
    assert forall|k: int| 0 <= k < tail.len() implies is_digit(#[trigger] tail[k]) by {
        if k < fill.len() {
            assert(tail[k] == fill[k]);
        } else if k < fill.len() + rest.len() {
            assert(tail[k] == rest[k - fill.len()]);
        } else {
            assert(tail[k] == fracs[k - fill.len() - rest.len()]);
        }
    }
    assert forall|k: int| 0 <= k < head.len() implies is_digit(#[trigger] head[k]) by {
        if keep > 0 {
            assert(head[k] == ints[k]);
        }
    }
    let r = pre + head + seq!['.'] + tail;
    assert(positional_of(s) =~= r);
    lemma_number_of_parts(pre, head, tail);
}

/// A sign or nothing, digits, a point and digits make a number.
#[verifier::rlimit(40)]
pub proof fn lemma_number_of_parts(pre: Seq<char>, head: Seq<char>, tail: Seq<char>)
    requires
        pre.len() == 0 || (pre.len() == 1 && is_sign(pre[0])),
        head.len() > 0,
        forall|k: int| 0 <= k < head.len() ==> is_digit(#[trigger] head[k]),
        forall|k: int| 0 <= k < tail.len() ==> is_digit(#[trigger] tail[k]),
    ensures
        ({
            let r = pre + head + seq!['.'] + tail;
            &&& r.len() > 0
            &&& body_start(r) == pre.len()
            &&& is_negative(r) == (pre.len() == 1 && pre[0] == '-')
            &&& int_digits(r) == head
            &&& frac_digits(r) == tail
            &&& exponent_part(r).len() == 0
            &&& is_float_text(r)
            &&& forall|k: int| pre.len() <= k < r.len() ==> is_digit(#[trigger] r[k]) || r[k] == '.'
            &&& forall|k: int| 0 <= k < pre.len() ==> #[trigger] r[k] == pre[k]
        }),
{
    let r = pre + head + seq!['.'] + tail;
    let a = pre.len() as int;
    let b = a + head.len();
    let c = b + 1;
    assert(r.len() == c + tail.len());
    assert forall|k: int| 0 <= k < a implies #[trigger] r[k] == pre[k] by {}
    assert forall|k: int| a <= k < b implies is_digit(#[trigger] r[k]) by {
        assert(r[k] == head[k - a]);
    }
    assert(r[b] == '.');
    assert forall|k: int| c <= k < r.len() implies is_digit(#[trigger] r[k]) by {
        assert(r[k] == tail[k - c]);
    }
    assert(r[a] == head[0]);
    assert(body_start(r) == a) by {
        if a == 1 {
            assert(r[0] == pre[0]);
        }
    }
    lemma_digits_end_is(r, a, b);
    lemma_digits_end_is(r, c, r.len() as int);
    assert(mantissa_end(r, a) == r.len());
    assert(int_digits(r) =~= head);
    assert(frac_digits(r) =~= tail);
    assert(exponent_part(r).len() == 0);
    assert(is_decimal_from(r, a));
}

/// A number without its exponent writes the same number.
#[verifier::rlimit(40)]
proof fn lemma_positional_same(s: Seq<char>)
    requires
        point_is_moved(s),
    ensures
        same_decimal(positional_of(s), s),
{
    lemma_positional_shape(s);
    let r = positional_of(s);
    let ints = int_digits(s);
    let fracs = frac_digits(s);
    let shift = exponent_size(exponent_part(s)) as int;
    let keep: int = if shift >= ints.len() {
        0
    } else {
        ints.len() - shift
    };
    let fill = zeros((shift - (ints.len() - keep)) as nat);
    let rest = ints.subrange(keep, ints.len() as int);
    let all = ints + fracs;
    assert(exponent_digits(exponent_part(r)) =~= Seq::<char>::empty());
    assert(exponent_size(exponent_part(r)) == 0);
    assert(!exponent_is_negative(exponent_part(r)));
    assert(frac_digits(r).len() == shift + fracs.len());
    assert(decimal_scale(r) == decimal_scale(s));
    assert(pow10(0) == 1);
    if keep == 0 {
        let front = zeros((1 + fill.len()) as nat);
        assert(int_digits(r) + frac_digits(r) =~= front + all);
        lemma_decimal_value_concat(front, all, all.len() as int);
        lemma_zeros_value(front.len(), front.len() as int);
        assert(0 * pow10(all.len()) == 0);
        assert(mantissa_value(r) == mantissa_value(s));
    } else {
        assert(fill.len() == 0);
        assert(int_digits(r) + frac_digits(r) =~= all);
        assert(mantissa_value(r) == mantissa_value(s));
    }
    assert(mantissa_value(r) * 1 == mantissa_value(s));
}

/// What is shown for a number is a number again, holds no delimiter and
/// writes the same number: for every number without a minus sign in front,
/// and with no negative exponent beyond [`MAX_SHIFT`].
pub proof fn law_shown_number_is_read_again(s: Seq<char>)
    requires
        is_listable(s),
    ensures
        shown_number(s).len() > 0,
        forall|k: int|
            0 <= k < shown_number(s).len() ==> !is_delimiter(#[trigger] shown_number(s)[k]),
        is_float_text(shown_number(s)),
        same_decimal(shown_number(s), s),
{
    assert(pow10(0) == 1);
    if point_is_moved(s) {
        lemma_positional_shape(s);
        lemma_positional_same(s);
        let r = positional_of(s);
        assert forall|k: int| 0 <= k < r.len() implies !is_delimiter(#[trigger] r[k]) by {
            if k < body_start(s) {
                assert(r[k] == s[k]);
            }
        }
    } else {
        lemma_plain_number_holds_no_delimiter(s);
        assert(mantissa_value(s) * 1 == mantissa_value(s));
    }
}

/// A run of characters that are no delimiters and that ends at `j` is where
/// `token_end` stops.
pub proof fn lemma_token_end_is(s: Seq<char>, i: int, j: int)
    requires
        0 <= i <= j <= s.len(),
        forall|k: int| i <= k < j ==> !is_delimiter(#[trigger] s[k]),
        j == s.len() || is_delimiter(s[j]),
    ensures
        token_end(s, i) == j,
    decreases j - i,
{
    if i < j {
        lemma_token_end_is(s, i + 1, j);
    }
}

/// The tokens of the end of a text are the tokens of that end taken alone.
pub proof fn lemma_tokens_of_the_end(u: Seq<char>, w: Seq<char>, k: int)
    requires
        0 <= k <= w.len(),
    ensures
        tokens_from(u + w, u.len() + k) == tokens_from(w, k),
    decreases w.len() - k,
{
    let all = u + w;
    if k < w.len() {
        assert(all[u.len() + k] == w[k]);
        if is_delimiter(w[k]) {
            lemma_tokens_of_the_end(u, w, k + 1);
        } else {
            lemma_token_end_bounds(w, k);
            let end = token_end(w, k);
            assert forall|j: int| u.len() + k <= j < u.len() + end implies !is_delimiter(
                #[trigger] all[j],
            ) by {
                assert(all[j] == w[j - u.len()]);
            }
            if end < w.len() {
                assert(all[u.len() + end] == w[end]);
            }
            lemma_token_end_is(all, u.len() + k, u.len() + end);
            lemma_tokens_of_the_end(u, w, end);
            assert(all.subrange(u.len() + k, u.len() + end) =~= w.subrange(k, end));
        }
    }
}

/// Where a text is followed by one that starts with a delimiter, the tokens
/// of the whole are the tokens of the first and then those of the second.
pub proof fn lemma_tokens_of_both(u: Seq<char>, w: Seq<char>, i: int)
    requires
        0 <= i <= u.len(),
        w.len() == 0 || is_delimiter(w[0]),
    ensures
        tokens_from(u + w, i) == tokens_from(u, i) + tokens(w),
    decreases u.len() - i,
{
    let all = u + w;
    if i < u.len() {
        assert(all[i] == u[i]);
        if is_delimiter(u[i]) {
            lemma_tokens_of_both(u, w, i + 1);
        } else {
            lemma_token_end_bounds(u, i);
            let end = token_end(u, i);
            assert forall|j: int| i <= j < end implies !is_delimiter(#[trigger] all[j]) by {
                assert(all[j] == u[j]);
            }
            if end < u.len() {
                assert(all[end] == u[end]);
            } else if w.len() > 0 {
                assert(all[end] == w[0]);
            }
            lemma_token_end_is(all, i, end);
            lemma_tokens_of_both(u, w, end);
            assert(all.subrange(i, end) =~= u.subrange(i, end));
            assert(seq![u.subrange(i, end)] + (tokens_from(u, end) + tokens(w)) =~= (seq![
                u.subrange(i, end),
            ] + tokens_from(u, end)) + tokens(w));
        }
    } else {
        lemma_tokens_of_the_end(u, w, 0);
        assert(tokens_from(u, i) + tokens(w) =~= tokens(w));
    }
}

/// A text that is not empty and holds no delimiter is its own one token.
pub proof fn lemma_tokens_of_a_token(t: Seq<char>)
    requires
        t.len() > 0,
        forall|k: int| 0 <= k < t.len() ==> !is_delimiter(#[trigger] t[k]),
    ensures
        tokens(t) == seq![t],
{
    lemma_token_end_is(t, 0, t.len() as int);
    assert(t.subrange(0, t.len() as int) =~= t);
    assert(tokens_from(t, t.len() as int) =~= Seq::<Seq<char>>::empty());
    assert(seq![t] + Seq::<Seq<char>>::empty() =~= seq![t]);
}

/// A whole number written with a point before its last `places` digits,
/// behind `0` and through zeros where the digits are too few.
/// `fixed_text(12345, 2)` is `123.45`, and `fixed_text(12345, 7)` is
/// `0.0012345`.
pub open spec fn fixed_text(digits: nat, places: nat) -> Seq<char> {
    let d = decimal_text(digits);
    if d.len() > places {
        d.subrange(0, d.len() - places) + seq!['.'] + d.subrange(
            d.len() - places,
            d.len() as int,
        )
    } else {
        seq!['0', '.'] + zeros((places - d.len()) as nat) + d
    }
}

/// Writes a whole number with a point before its last `places` digits.
#[verifier::rlimit(40)]
pub fn fixed_point_text(digits: u64, places: usize) -> (r: String)
    ensures
        r@ == fixed_text(digits as nat, places as nat),
{
    let text = unsigned_text(digits);
    let v = chars_of(text.as_str());
    let mut out: Vec<char> = Vec::new();
    if v.len() <= places {
        out.push('0');
        out.push('.');
        push_zeros(&mut out, places - v.len());
        push_range(&mut out, &v, 0, v.len());
        assert(v@.subrange(0, v@.len() as int) =~= v@);
        assert(out@ =~= fixed_text(digits as nat, places as nat));
        return text_of(&out);
    }
    let cut = v.len() - places;
    push_range(&mut out, &v, 0, cut);
    out.push('.');
    push_range(&mut out, &v, cut, v.len());
    assert(out@ =~= fixed_text(digits as nat, places as nat));
    text_of(&out)
}

/// A number of at least ten to the power of `k` has more than `k` digits.
pub proof fn lemma_decimal_text_length(n: nat, k: nat)
    requires
        n >= pow10(k),
    ensures
        decimal_text(n).len() > k,
    decreases k,
{
    if k > 0 {
        let p = pow10((k - 1) as nat);
        assert(pow10(k) == 10 * p);
        lemma_pow10_is_positive((k - 1) as nat);
        assert(n >= 10);
        assert(n / 10 >= p);
        lemma_decimal_text_length(n / 10, (k - 1) as nat);
    }
}

/// A power of ten is at least one.
pub proof fn lemma_pow10_is_positive(k: nat)
    ensures
        pow10(k) >= 1,
    decreases k,
{
    if k > 0 {
        lemma_pow10_is_positive((k - 1) as nat);
    }
}

/// A whole number written with a point is a number; its digits write the
/// whole number, and as many of them as asked for stand behind the point.
pub proof fn lemma_fixed_text(digits: nat, places: nat)
    requires
        decimal_text(digits).len() > places,
    ensures
        is_float_text(fixed_text(digits, places)),
        !is_negative(fixed_text(digits, places)),
        mantissa_value(fixed_text(digits, places)) == digits,
        frac_digits(fixed_text(digits, places)).len() == places,
        exponent_part(fixed_text(digits, places)).len() == 0,
{
    let d = decimal_text(digits);
    lemma_decimal_text(digits);
    let cut = d.len() - places;
    let head = d.subrange(0, cut);
    let tail = d.subrange(cut, d.len() as int);
    let pre = Seq::<char>::empty();
    assert forall|k: int| 0 <= k < head.len() implies is_digit(#[trigger] head[k]) by {
        assert(head[k] == d[k]);
    }
    assert forall|k: int| 0 <= k < tail.len() implies is_digit(#[trigger] tail[k]) by {
        assert(tail[k] == d[cut + k]);
    }
    lemma_number_of_parts(pre, head, tail);
    let r = pre + head + seq!['.'] + tail;
    assert(r =~= fixed_text(digits, places));
    assert(head + tail =~= d);
}

} // verus!
