//! Text helpers shared by the formatting and parsing code.

use vstd::prelude::*;

verus! {

/// The character that writes the decimal digit `d`.
pub open spec fn digit_char(d: int) -> char {
    if d == 0 {
        '0'
    } else if d == 1 {
        '1'
    } else if d == 2 {
        '2'
    } else if d == 3 {
        '3'
    } else if d == 4 {
        '4'
    } else if d == 5 {
        '5'
    } else if d == 6 {
        '6'
    } else if d == 7 {
        '7'
    } else if d == 8 {
        '8'
    } else {
        '9'
    }
}

/// The decimal digits of a natural number, most significant first, without
/// leading zeros; zero is written `0`.
pub open spec fn digits(n: nat) -> Seq<char>
    decreases n,
{
    if n < 10 {
        seq![digit_char(n as int)]
    } else {
        digits(n / 10).push(digit_char((n % 10) as int))
    }
}

/// The decimal text of an integer: a minus sign for a negative number, then
/// the digits of its magnitude.
pub open spec fn decimal(n: int) -> Seq<char> {
    if n < 0 {
        seq!['-'] + digits((-n) as nat)
    } else {
        digits(n as nat)
    }
}

/// `String::push` appends one character to the end of the string.
#[verifier::external_body]
pub(crate) fn push_char(s: &mut String, c: char)
    ensures
        final(s)@ == old(s)@.push(c),
{
    s.push(c)
}

fn digit_of(d: u8) -> (c: char)
    requires
        d < 10,
    ensures
        c == digit_char(d as int),
{
    if d == 0 {
        '0'
    } else if d == 1 {
        '1'
    } else if d == 2 {
        '2'
    } else if d == 3 {
        '3'
    } else if d == 4 {
        '4'
    } else if d == 5 {
        '5'
    } else if d == 6 {
        '6'
    } else if d == 7 {
        '7'
    } else if d == 8 {
        '8'
    } else {
        '9'
    }
}

/// Appends the decimal digits of `n` to `out`.
pub fn push_digits(out: &mut String, n: u128)
    ensures
        final(out)@ == old(out)@ + digits(n as nat),
{
    let mut rev: Vec<u8> = Vec::new();
    let mut rest: u128 = n;
    // `tail` is what the digits collected so far spell, in reading order.
    let ghost mut tail: Seq<char> = Seq::empty();
    while rest >= 10
        invariant
            digits(n as nat) == digits(rest as nat) + tail,
            rev@.len() == tail.len(),
            forall|i: int| 0 <= i < rev@.len() ==> rev@[i] < 10,
            forall|i: int|
                0 <= i < rev@.len() ==> tail[tail.len() - 1 - i] == digit_char(
                    #[trigger] rev@[i] as int,
                ),
        decreases rest,
    {
        let d: u8 = (rest % 10) as u8;
        proof {
            let last = digit_char((rest % 10) as int);
            tail = seq![last] + tail;
        }
        rev.push(d);
        rest = rest / 10;
    }
    push_char(out, digit_of(rest as u8));
    let mut i: usize = rev.len();
    while i > 0
        invariant
            i <= rev@.len(),
            rev@.len() == tail.len(),
            forall|k: int| 0 <= k < rev@.len() ==> rev@[k] < 10,
            forall|k: int|
                0 <= k < rev@.len() ==> tail[tail.len() - 1 - k] == digit_char(
                    #[trigger] rev@[k] as int,
                ),
            digits(n as nat) == digits(rest as nat) + tail,
            rest < 10,
            out@ == old(out)@ + digits(rest as nat) + tail.subrange(0, tail.len() - i),
        decreases i,
    {
        i = i - 1;
        push_char(out, digit_of(rev[i]));
    }
}

/// Appends the decimal text of `n` to `out`.
pub fn push_decimal(out: &mut String, n: i64)
    ensures
        final(out)@ == old(out)@ + decimal(n as int),
{
    if n < 0 {
        push_char(out, '-');
        let magnitude: u128 = (-(n as i128)) as u128;
        push_digits(out, magnitude);
    } else {
        push_digits(out, n as u128);
    }
}

/// The decimal text of `n`.
pub fn decimal_string(n: i64) -> (s: String)
    ensures
        s@ == decimal(n as int),
{
    let mut s = String::new();
    push_decimal(&mut s, n);
    s
}

/// Whether two texts hold the same characters.
pub fn text_eq(a: &str, b: &str) -> (same: bool)
    ensures
        same == (a@ == b@),
{
    let x = String::from_str(a);
    let y = String::from_str(b);
    x == y
}

/// The characters of `s`, one by one.
pub fn chars_of(s: &str) -> (v: Vec<char>)
    ensures
        v@ == s@,
{
    let n = s.unicode_len();
    let mut v: Vec<char> = Vec::new();
    let mut i: usize = 0;
    while i < n
        invariant
            i <= n,
            n == s@.len(),
            v@ == s@.subrange(0, i as int),
        decreases n - i,
    {
        v.push(s.get_char(i));
        i = i + 1;
    }
    v
}

/// The string that spells `chars[from..to]`.
pub(crate) fn string_of(chars: &Vec<char>, from: usize, to: usize) -> (s: String)
    requires
        from <= to <= chars@.len(),
    ensures
        s@ == chars@.subrange(from as int, to as int),
{
    let mut s = String::new();
    let mut i: usize = from;
    while i < to
        invariant
            from <= i <= to <= chars@.len(),
            s@ == chars@.subrange(from as int, i as int),
        decreases to - i,
    {
        push_char(&mut s, chars[i]);
        i = i + 1;
    }
    s
}

/// A copy of an optional text.
pub fn clone_text(text: &Option<String>) -> (copy: Option<String>)
    ensures
        copy == *text,
{
    match text {
        Some(s) => Some(s.clone()),
        None => None,
    }
}

/// Whether `c` is one of the ten ASCII digits.
pub open spec fn is_digit(c: char) -> bool {
    '0' <= c <= '9'
}

/// The value of an ASCII digit.
pub open spec fn digit_value(c: char) -> int {
    c as int - '0' as int
}

/// Whether every character of `s` is an ASCII digit.
pub open spec fn all_digits(s: Seq<char>) -> bool {
    forall|i: int| 0 <= i < s.len() ==> is_digit(#[trigger] s[i])
}

/// The number that a run of decimal digits writes. Leading zeros count for
/// nothing; the empty run writes zero.
pub open spec fn number_of(s: Seq<char>) -> nat
    decreases s.len(),
{
    if s.len() == 0 {
        0
    } else {
        (number_of(s.drop_last()) * 10 + digit_value(s.last())) as nat
    }
}

/// What a run of characters writes as a number no greater than `limit`: it
/// has to be a run of one digit or more.
pub open spec fn parsed_number(s: Seq<char>, limit: nat) -> Option<nat> {
    if s.len() > 0 && all_digits(s) && number_of(s) <= limit {
        Some(number_of(s))
    } else {
        None
    }
}

/// What a text writes as a signed 64-bit integer: an optional `+` or `-`,
/// then one digit or more, with a value in range.
pub open spec fn parsed_i64(s: Seq<char>) -> Option<i64> {
    if s.len() > 0 && s[0] == '-' {
        match parsed_number(s.skip(1), 0x8000_0000_0000_0000) {
            Some(n) => Some((-(n as int)) as i64),
            None => None,
        }
    } else if s.len() > 0 && s[0] == '+' {
        match parsed_number(s.skip(1), 0x7fff_ffff_ffff_ffff) {
            Some(n) => Some(n as i64),
            None => None,
        }
    } else {
        match parsed_number(s, 0x7fff_ffff_ffff_ffff) {
            Some(n) => Some(n as i64),
            None => None,
        }
    }
}

/// A longer run of digits writes no smaller a number than its beginning.
pub proof fn lemma_number_grows(s: Seq<char>, k: int)
    requires
        all_digits(s),
        0 <= k <= s.len(),
    ensures
        number_of(s.take(k)) <= number_of(s),
    decreases s.len() - k,
{
    if k == s.len() {
        assert(s.take(k) == s);
    } else {
        let longer = s.take(k + 1);
        assert(longer.drop_last() == s.take(k));
        lemma_number_grows(s, k + 1);
    }
}

fn digit_of_char(c: char) -> (d: Option<u8>)
    ensures
        d is Some <==> is_digit(c),
        d matches Some(v) ==> v == digit_value(c),
{
    if c == '0' {
        Some(0)
    } else if c == '1' {
        Some(1)
    } else if c == '2' {
        Some(2)
    } else if c == '3' {
        Some(3)
    } else if c == '4' {
        Some(4)
    } else if c == '5' {
        Some(5)
    } else if c == '6' {
        Some(6)
    } else if c == '7' {
        Some(7)
    } else if c == '8' {
        Some(8)
    } else if c == '9' {
        Some(9)
    } else {
        None
    }
}

/// Reads `chars[from..]` as a run of decimal digits that writes a number no
/// greater than `limit`.
pub(crate) fn parse_number(chars: &Vec<char>, from: usize, limit: u64) -> (n: Option<u64>)
    requires
        from <= chars@.len(),
    ensures
        n matches Some(v) ==> parsed_number(chars@.skip(from as int), limit as nat) == Some(
            v as nat,
        ),
        n is None ==> parsed_number(chars@.skip(from as int), limit as nat) is None,
{
    let ghost body = chars@.skip(from as int);
    if from == chars.len() {
        return None;
    }
    let mut acc: u128 = 0;
    let mut i: usize = from;
    while i < chars.len()
        invariant
            from <= i <= chars@.len(),
            body == chars@.skip(from as int),
            all_digits(body.take(i - from)),
            acc == number_of(body.take(i - from)),
            acc <= limit,
        decreases chars@.len() - i,
    {
        let ghost k = i - from;
        proof {
            assert(body.take(k + 1).drop_last() == body.take(k));
        }
        match digit_of_char(chars[i]) {
            None => {
                proof {
                    assert(body[k] == chars@[i as int]);
                }
                return None;
            },
            Some(d) => {
                acc = acc * 10 + (d as u128);
                proof {
                    assert forall|j: int| 0 <= j < k + 1 implies is_digit(
                        #[trigger] body.take(k + 1)[j],
                    ) by {
                    }
                }
                if acc > limit as u128 {
                    proof {
                        if all_digits(body) {
                            lemma_number_grows(body, k + 1);
                        }
                    }
                    return None;
                }
            },
        }
        i = i + 1;
    }
    proof {
        assert(body.take(i - from) == body);
    }
    Some(acc as u64)
}

/// Reads `chars[from..]` as a signed 64-bit integer in decimal.
pub(crate) fn parse_i64_from(chars: &Vec<char>, from: usize) -> (n: Option<i64>)
    requires
        from <= chars@.len(),
    ensures
        n == parsed_i64(chars@.skip(from as int)),
{
    let ghost s = chars@.skip(from as int);
    if from < chars.len() && chars[from] == '-' {
        proof {
            assert(s.skip(1) == chars@.skip(from + 1));
        }
        match parse_number(chars, from + 1, 0x8000_0000_0000_0000) {
            Some(v) => Some((-(v as i128)) as i64),
            None => None,
        }
    } else if from < chars.len() && chars[from] == '+' {
        proof {
            assert(s.skip(1) == chars@.skip(from + 1));
        }
        match parse_number(chars, from + 1, 0x7fff_ffff_ffff_ffff) {
            Some(v) => Some(v as i64),
            None => None,
        }
    } else {
        match parse_number(chars, from, 0x7fff_ffff_ffff_ffff) {
            Some(v) => Some(v as i64),
            None => None,
        }
    }
}

/// Whether `i` is the first place in `s` that holds `c`.
pub open spec fn is_first_at(s: Seq<char>, c: char, i: int) -> bool {
    &&& 0 <= i < s.len()
    &&& s[i] == c
    &&& forall|j: int| 0 <= j < i ==> s[j] != c
}

/// The first place in `chars` that holds `c`.
pub(crate) fn find_first(chars: &Vec<char>, c: char) -> (at: Option<usize>)
    ensures
        at matches Some(i) ==> is_first_at(chars@, c, i as int),
        at is None ==> !chars@.contains(c),
{
    let mut i: usize = 0;
    while i < chars.len()
        invariant
            i <= chars@.len(),
            forall|j: int| 0 <= j < i ==> chars@[j] != c,
        decreases chars@.len() - i,
    {
        if chars[i] == c {
            return Some(i);
        }
        i = i + 1;
    }
    None
}

/// Whether `char::is_whitespace` holds of the character: whether it has the
/// Unicode property `White_Space`.
pub uninterp spec fn is_whitespace(c: char) -> bool;

/// `char::is_whitespace`: whether the character has the Unicode property
/// `White_Space`. The result depends on the character alone.
#[verifier::external_body]
pub(crate) fn char_is_whitespace(c: char) -> (yes: bool)
    ensures
        yes == is_whitespace(c),
{
    c.is_whitespace()
}

/// Whether `char::is_alphanumeric` holds of the character: whether it is
/// alphabetic or numeric by the Unicode character database.
pub uninterp spec fn is_alphanumeric(c: char) -> bool;

/// `char::is_alphanumeric`: whether the character is alphabetic or numeric
/// by the Unicode character database. The result depends on the character
/// alone.
#[verifier::external_body]
pub(crate) fn char_is_alphanumeric(c: char) -> (yes: bool)
    ensures
        yes == is_alphanumeric(c),
{
    c.is_alphanumeric()
}

/// The text without the whitespace it begins with.
pub open spec fn trim_start(s: Seq<char>) -> Seq<char>
    decreases s.len(),
{
    if s.len() > 0 && is_whitespace(s[0]) {
        trim_start(s.drop_first())
    } else {
        s
    }
}

/// The text without the whitespace it ends with.
pub open spec fn trim_end(s: Seq<char>) -> Seq<char>
    decreases s.len(),
{
    if s.len() > 0 && is_whitespace(s.last()) {
        trim_end(s.drop_last())
    } else {
        s
    }
}

/// The text without the whitespace around it.
pub open spec fn trimmed(s: Seq<char>) -> Seq<char> {
    trim_end(trim_start(s))
}

/// The part of `chars[from..to]` that is left without the whitespace around
/// it.
pub(crate) fn trim_range(chars: &Vec<char>, from: usize, to: usize) -> (range: (usize, usize))
    requires
        from <= to <= chars@.len(),
    ensures
        from <= range.0 <= range.1 <= to,
        chars@.subrange(range.0 as int, range.1 as int) == trimmed(
            chars@.subrange(from as int, to as int),
        ),
{
    let mut a: usize = from;
    while a < to && char_is_whitespace(chars[a])
        invariant
            from <= a <= to <= chars@.len(),
            trim_start(chars@.subrange(from as int, to as int)) == trim_start(
                chars@.subrange(a as int, to as int),
            ),
        decreases to - a,
    {
        proof {
            let s = chars@.subrange(a as int, to as int);
            assert(s.drop_first() == chars@.subrange(a + 1, to as int));
        }
        a = a + 1;
    }
    let mut b: usize = to;
    while b > a && char_is_whitespace(chars[b - 1])
        invariant
            a <= b <= to <= chars@.len(),
            trim_end(chars@.subrange(a as int, to as int)) == trim_end(
                chars@.subrange(a as int, b as int),
            ),
        decreases b,
    {
        proof {
            let s = chars@.subrange(a as int, b as int);
            assert(s.drop_last() == chars@.subrange(a as int, b - 1));
        }
        b = b - 1;
    }
    (a, b)
}

/// Whether `i` is the last place in `s` that holds `c`.
pub open spec fn is_last_at(s: Seq<char>, c: char, i: int) -> bool {
    &&& 0 <= i < s.len()
    &&& s[i] == c
    &&& forall|j: int| i < j < s.len() ==> s[j] != c
}

/// The first place in `chars[from..to]` that holds `c`, counted from the
/// beginning of `chars`.
pub(crate) fn find_first_in(chars: &Vec<char>, from: usize, to: usize, c: char) -> (at: Option<usize>)
    requires
        from <= to <= chars@.len(),
    ensures
        at matches Some(i) ==> from <= i < to && is_first_at(
            chars@.subrange(from as int, to as int),
            c,
            i - from,
        ),
        at is None ==> !chars@.subrange(from as int, to as int).contains(c),
{
    let ghost s = chars@.subrange(from as int, to as int);
    let mut i: usize = from;
    while i < to
        invariant
            from <= i <= to <= chars@.len(),
            s == chars@.subrange(from as int, to as int),
            forall|j: int| 0 <= j < i - from ==> s[j] != c,
        decreases to - i,
    {
        if chars[i] == c {
            return Some(i);
        }
        i = i + 1;
    }
    None
}

/// The last place in `chars[from..to]` that holds `c`, counted from the
/// beginning of `chars`.
pub(crate) fn find_last_in(chars: &Vec<char>, from: usize, to: usize, c: char) -> (at: Option<usize>)
    requires
        from <= to <= chars@.len(),
    ensures
        at matches Some(i) ==> from <= i < to && is_last_at(
            chars@.subrange(from as int, to as int),
            c,
            i - from,
        ),
        at is None ==> !chars@.subrange(from as int, to as int).contains(c),
{
    let ghost s = chars@.subrange(from as int, to as int);
    let mut i: usize = to;
    while i > from
        invariant
            from <= i <= to <= chars@.len(),
            s == chars@.subrange(from as int, to as int),
            forall|j: int| i - from <= j < s.len() ==> s[j] != c,
        decreases i,
    {
        i = i - 1;
        if chars[i] == c {
            return Some(i);
        }
    }
    None
}

/// What a text writes as an unsigned 64-bit integer: an optional `+`, then
/// one digit or more, with a value in range.
pub open spec fn parsed_u64(s: Seq<char>) -> Option<u64> {
    let digits = if s.len() > 0 && s[0] == '+' {
        s.skip(1)
    } else {
        s
    };
    match parsed_number(digits, 0xffff_ffff_ffff_ffff) {
        Some(n) => Some(n as u64),
        None => None,
    }
}

/// Reads a text as an unsigned 64-bit integer in decimal.
pub fn parse_u64(text: &str) -> (n: Option<u64>)
    ensures
        n == parsed_u64(text@),
{
    let chars = chars_of(text);
    if chars.len() > 0 && chars[0] == '+' {
        parse_number(&chars, 1, 0xffff_ffff_ffff_ffff)
    } else {
        assert(chars@.skip(0) == chars@);
        parse_number(&chars, 0, 0xffff_ffff_ffff_ffff)
    }
}

/// Reads a text as a signed 64-bit integer in decimal.
pub fn parse_i64(text: &str) -> (n: Option<i64>)
    ensures
        n == parsed_i64(text@),
{
    let chars = chars_of(text);
    assert(chars@.skip(0) == chars@);
    parse_i64_from(&chars, 0)
}

/// The text without the whitespace around it.
pub fn trim(text: &str) -> (inner: String)
    ensures
        inner@ == trimmed(text@),
{
    let chars = chars_of(text);
    assert(chars@.subrange(0, chars@.len() as int) == chars@);
    let (from, to) = trim_range(&chars, 0, chars.len());
    string_of(&chars, from, to)
}

} // verus!
