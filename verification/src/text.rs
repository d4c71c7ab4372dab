//! Text primitives.
//!
//! Every function here is specified over the `Seq<char>` view of its
//! arguments. Strings are taken apart into `Vec<char>` once, worked on by
//! index, and put together again at the end.

use vstd::prelude::*;
use vstd::string::StringExecFns;

verus! {

/// Appends one character to a string.
///
/// Trusted: `String::push` of the standard library, which adds `c` at the end
/// of the string and changes nothing else.
#[verifier::external_body]
pub(crate) fn push_char(s: &mut String, c: char)
    ensures
        final(s)@ == old(s)@.push(c),
{
    s.push(c)
}

/// The characters of a string, in order.
pub fn chars_of(s: &str) -> (r: Vec<char>)
    ensures
        r@ == s@,
{
    let mut out: Vec<char> = Vec::new();
    for c in it: s.chars()
        invariant
            it.seq() == s@,
            out@ == it.seq().subrange(0, it.index()),
    {
        out.push(c);
    }
    assert(out@ == s@);
    out
}

/// The string made of `chars[from..to]`.
pub fn string_of_range(chars: &Vec<char>, from: usize, to: usize) -> (r: String)
    requires
        from <= to <= chars.len(),
    ensures
        r@ == chars@.subrange(from as int, to as int),
{
    let mut out = String::new();
    let mut i: usize = from;
    while i < to
        invariant
            from <= i <= to <= chars.len(),
            out@ == chars@.subrange(from as int, i as int),
        decreases to - i,
    {
        push_char(&mut out, chars[i]);
        i += 1;
    }
    out
}

/// The string made of the given characters.
pub fn string_of(chars: &Vec<char>) -> (r: String)
    ensures
        r@ == chars@,
{
    let r = string_of_range(chars, 0, chars.len());
    assert(chars@.subrange(0, chars.len() as int) == chars@);
    r
}

/// Whether `c` has the Unicode property White_Space.
pub open spec fn is_space(c: char) -> bool {
    let n = c as u32;
    ||| 0x09 <= n <= 0x0D
    ||| n == 0x20
    ||| n == 0x85
    ||| n == 0xA0
    ||| n == 0x1680
    ||| 0x2000 <= n <= 0x200A
    ||| n == 0x2028
    ||| n == 0x2029
    ||| n == 0x202F
    ||| n == 0x205F
    ||| n == 0x3000
}

/// Whether `c` is white space.
pub fn is_whitespace(c: char) -> (r: bool)
    ensures
        r == is_space(c),
{
    let n: u32 = c as u32;
    (0x09 <= n && n <= 0x0D) || n == 0x20 || n == 0x85 || n == 0xA0 || n == 0x1680 || (0x2000 <= n
        && n <= 0x200A) || n == 0x2028 || n == 0x2029 || n == 0x202F || n == 0x205F || n == 0x3000
}

/// `s` without its leading white space.
pub open spec fn trim_start(s: Seq<char>) -> Seq<char>
    decreases s.len(),
{
    if s.len() > 0 && is_space(s[0]) {
        trim_start(s.drop_first())
    } else {
        s
    }
}

/// `s` without its trailing white space.
pub open spec fn trim_end(s: Seq<char>) -> Seq<char>
    decreases s.len(),
{
    if s.len() > 0 && is_space(s.last()) {
        trim_end(s.drop_last())
    } else {
        s
    }
}

/// `s` without leading and trailing white space.
pub open spec fn trim(s: Seq<char>) -> Seq<char> {
    trim_end(trim_start(s))
}

/// Dropping `k` leading spaces that are followed by a non-space (or the end)
/// is `trim_start`.
pub proof fn lemma_trim_start(s: Seq<char>, k: int)
    requires
        0 <= k <= s.len(),
        forall|i: int| 0 <= i < k ==> is_space(#[trigger] s[i]),
        k < s.len() ==> !is_space(s[k]),
    ensures
        trim_start(s) == s.subrange(k, s.len() as int),
    decreases k,
{
    if k == 0 {
        assert(s.subrange(0, s.len() as int) == s);
    } else {
        let t = s.drop_first();
        assert(is_space(s[0]));
        assert forall|i: int| 0 <= i < k - 1 implies is_space(#[trigger] t[i]) by {
            assert(t[i] == s[i + 1]);
        }
        lemma_trim_start(t, k - 1);
        assert(t.subrange(k - 1, t.len() as int) == s.subrange(k, s.len() as int));
    }
}

/// Dropping everything from `k` on, where only spaces stand and `k` follows a
/// non-space (or the start), is `trim_end`.
pub proof fn lemma_trim_end(s: Seq<char>, k: int)
    requires
        0 <= k <= s.len(),
        forall|i: int| k <= i < s.len() ==> is_space(#[trigger] s[i]),
        k > 0 ==> !is_space(s[k - 1]),
    ensures
        trim_end(s) == s.subrange(0, k),
    decreases s.len() - k,
{
    if k == s.len() {
        assert(s.subrange(0, s.len() as int) == s);
    } else {
        let t = s.drop_last();
        assert(is_space(s.last()));
        assert forall|i: int| k <= i < t.len() implies is_space(#[trigger] t[i]) by {
            assert(t[i] == s[i]);
        }
        lemma_trim_end(t, k);
        assert(t.subrange(0, k) == s.subrange(0, k));
    }
}

/// A trimmed text neither begins nor ends with white space.
pub proof fn lemma_trim_has_no_space_at_ends(s: Seq<char>)
    ensures
        trim(s).len() > 0 ==> !is_space(trim(s)[0]) && !is_space(trim(s).last()),
{
    lemma_trim_start_begins(s);
    lemma_trim_end_keeps_start(trim_start(s));
}

/// What `trim_start` leaves does not begin with white space.
pub proof fn lemma_trim_start_begins(s: Seq<char>)
    ensures
        trim_start(s).len() > 0 ==> !is_space(trim_start(s)[0]),
    decreases s.len(),
{
    if s.len() > 0 && is_space(s[0]) {
        lemma_trim_start_begins(s.drop_first());
    }
}

/// What `trim_end` leaves does not end with white space, and begins as the
/// text did.
pub proof fn lemma_trim_end_keeps_start(s: Seq<char>)
    ensures
        trim_end(s).len() > 0 ==> !is_space(trim_end(s).last()) && trim_end(s)[0] == s[0],
        trim_end(s).len() <= s.len(),
    decreases s.len(),
{
    if s.len() > 0 && is_space(s.last()) {
        lemma_trim_end_keeps_start(s.drop_last());
    }
}

/// Where the trimmed part of `chars` begins and ends.
pub fn trim_bounds(chars: &Vec<char>) -> (r: (usize, usize))
    ensures
        r.0 <= r.1 <= chars.len(),
        trim(chars@) == chars@.subrange(r.0 as int, r.1 as int),
{
    let n = chars.len();
    let mut a: usize = 0;
    while a < n && is_whitespace(chars[a])
        invariant
            a <= n == chars.len(),
            forall|i: int| 0 <= i < a ==> is_space(#[trigger] chars@[i]),
        decreases n - a,
    {
        a += 1;
    }
    let mut b: usize = n;
    while b > a && is_whitespace(chars[b - 1])
        invariant
            a <= b <= n == chars.len(),
            forall|i: int| b <= i < n ==> is_space(#[trigger] chars@[i]),
        decreases b,
    {
        b -= 1;
    }
    proof {
        let s = chars@;
        lemma_trim_start(s, a as int);
        let t = s.subrange(a as int, n as int);
        assert forall|i: int| b - a <= i < t.len() implies is_space(#[trigger] t[i]) by {
            assert(t[i] == s[i + a]);
        }
        if b > a {
            assert(t[b - a - 1] == s[b - 1]);
        }
        lemma_trim_end(t, b - a);
        assert(t.subrange(0, b - a) == s.subrange(a as int, b as int));
    }
    (a, b)
}

/// The text without leading and trailing white space.
pub fn trimmed(s: &str) -> (r: String)
    ensures
        r@ == trim(s@),
{
    let chars = chars_of(s);
    let (a, b) = trim_bounds(&chars);
    string_of_range(&chars, a, b)
}

/// Every line set between `before` and `after`, one after the other.
pub open spec fn wrapped_lines(lines: Seq<Seq<char>>, before: Seq<char>, after: Seq<char>) -> Seq<char>
    decreases lines.len(),
{
    if lines.len() == 0 {
        Seq::empty()
    } else {
        wrapped_lines(lines.drop_last(), before, after) + before + lines.last() + after
    }
}

/// Appends every line, set between `before` and `after`, to `out`.
pub fn append_wrapped(out: &mut String, lines: &Vec<String>, before: &str, after: &str)
    ensures
        final(out)@ == old(out)@ + wrapped_lines(
            lines@.map_values(|s: String| s@),
            before@,
            after@,
        ),
{
    let ghost all = lines@.map_values(|s: String| s@);
    let mut i: usize = 0;
    while i < lines.len()
        invariant
            i <= lines.len(),
            all == lines@.map_values(|s: String| s@),
            out@ == old(out)@ + wrapped_lines(all.take(i as int), before@, after@),
        decreases lines.len() - i,
    {
        proof {
            assert(all.take(i + 1).drop_last() == all.take(i as int));
            assert(all.take(i + 1).last() == lines@[i as int]@);
        }
        out.append(before);
        out.append(lines[i].as_str());
        out.append(after);
        i += 1;
    }
    assert(all.take(lines.len() as int) == all);
}

/// The view of a text that may be missing.
pub open spec fn given(o: Option<&str>) -> Option<Seq<char>> {
    match o {
        Some(s) => Some(s@),
        None => None,
    }
}

/// Whether two texts are the same.
pub fn same_text(a: &str, b: &str) -> (r: bool)
    ensures
        r == (a@ == b@),
{
    String::from_str(a) == String::from_str(b)
}

/// `s` with every `from` replaced by `to`.
pub open spec fn replace_char(s: Seq<char>, from: char, to: char) -> Seq<char> {
    s.map_values(
        |c: char|
            if c == from {
                to
            } else {
                c
            },
    )
}

/// `chars` with every `from` replaced by `to`.
pub fn replaced(chars: &Vec<char>, from: char, to: char) -> (r: Vec<char>)
    ensures
        r@ == replace_char(chars@, from, to),
{
    let mut out: Vec<char> = Vec::new();
    let mut i: usize = 0;
    while i < chars.len()
        invariant
            i <= chars.len(),
            out@ == replace_char(chars@, from, to).take(i as int),
        decreases chars.len() - i,
    {
        let c = chars[i];
        out.push(
            if c == from {
                to
            } else {
                c
            },
        );
        i += 1;
    }
    assert(replace_char(chars@, from, to).take(chars.len() as int) == replace_char(
        chars@,
        from,
        to,
    ));
    out
}

/// The number of bytes that `c` takes in UTF-8.
pub open spec fn utf8_width(c: char) -> nat {
    let n = c as u32;
    if n < 0x80 {
        1
    } else if n < 0x800 {
        2
    } else if n < 0x10000 {
        3
    } else {
        4
    }
}

/// The number of bytes that `c` takes in UTF-8.
pub fn char_width(c: char) -> (r: usize)
    ensures
        r == utf8_width(c),
{
    let n: u32 = c as u32;
    if n < 0x80 {
        1
    } else if n < 0x800 {
        2
    } else if n < 0x10000 {
        3
    } else {
        4
    }
}

/// The number of bytes that `s` takes in UTF-8.
pub open spec fn byte_len(s: Seq<char>) -> nat
    decreases s.len(),
{
    if s.len() == 0 {
        0
    } else {
        byte_len(s.drop_last()) + utf8_width(s.last())
    }
}

/// How many characters of `s` begin before byte `limit`.
pub open spec fn chars_before_byte(s: Seq<char>, limit: nat) -> nat
    decreases s.len(),
{
    if s.len() == 0 {
        0
    } else if byte_len(s.drop_last()) < limit {
        s.len()
    } else {
        chars_before_byte(s.drop_last(), limit)
    }
}

/// A longer prefix has at least as many bytes.
pub proof fn lemma_byte_len_monotonic(s: Seq<char>, i: int, j: int)
    requires
        0 <= i <= j <= s.len(),
    ensures
        byte_len(s.take(i)) <= byte_len(s.take(j)),
    decreases j - i,
{
    if i < j {
        assert(s.take(j).drop_last() == s.take(j - 1));
        lemma_byte_len_monotonic(s, i, j - 1);
    }
}

/// The first `k` characters begin before byte `limit` and the next one does
/// not: `k` is `chars_before_byte`.
pub proof fn lemma_chars_before_byte(s: Seq<char>, limit: nat, k: int)
    requires
        0 <= k <= s.len(),
        k > 0 ==> byte_len(s.take(k - 1)) < limit,
        k < s.len() ==> byte_len(s.take(k)) >= limit,
    ensures
        chars_before_byte(s, limit) == k,
    decreases s.len(),
{
    if s.len() > 0 {
        let front = s.drop_last();
        assert(front == s.take(s.len() - 1));
        if k == s.len() {
        } else {
            lemma_byte_len_monotonic(s, k, s.len() - 1);
            if k > 0 {
                assert(front.take(k - 1) == s.take(k - 1));
            }
            if k < front.len() {
                assert(front.take(k) == s.take(k));
            }
            lemma_chars_before_byte(front, limit, k);
        }
    }
}

/// How many characters of `chars` begin before byte `limit`.
pub fn count_before_byte(chars: &Vec<char>, limit: usize) -> (r: usize)
    ensures
        r == chars_before_byte(chars@, limit as nat),
        r <= chars.len(),
{
    if limit == 0 || chars.len() == 0 {
        proof {
            assert(chars@.take(0).len() == 0);
            lemma_chars_before_byte(chars@, limit as nat, 0);
        }
        return 0;
    }
    let mut i: usize = 0;
    let mut offset: usize = 0;
    loop
        invariant
            i < chars.len(),
            offset < limit,
            offset == byte_len(chars@.take(i as int)),
        decreases chars.len() - i,
    {
        proof {
            assert(chars@.take(i + 1).drop_last() == chars@.take(i as int));
            assert(chars@.take(i + 1).last() == chars@[i as int]);
        }
        let width = char_width(chars[i]);
        if width >= limit - offset || i + 1 == chars.len() {
            proof {
                lemma_chars_before_byte(chars@, limit as nat, i + 1);
            }
            return i + 1;
        }
        offset = offset + width;
        i += 1;
    }
}

/// The lowercase equivalent of a text, as `str::to_lowercase` gives it.
pub uninterp spec fn lowercase_of(s: Seq<char>) -> Seq<char>;

/// The lowercase equivalent of a text.
///
/// Trusted: `str::to_lowercase` of the standard library. What it returns
/// follows the Unicode tables and depends on the text alone, so it is the
/// named outcome `lowercase_of`; nothing more is claimed of it.
#[verifier::external_body]
pub(crate) fn lowercase(s: &str) -> (r: String)
    ensures
        r@ == lowercase_of(s@),
{
    s.to_lowercase()
}

/// Whether a character is a letter or a number, as `char::is_alphanumeric`
/// says.
pub uninterp spec fn alphanumeric(c: char) -> bool;

/// Whether a character is a letter or a number.
///
/// Trusted: `char::is_alphanumeric` of the standard library. What it returns
/// follows the Unicode tables and depends on the character alone, so it is
/// the named outcome `alphanumeric`; nothing more is claimed of it.
#[verifier::external_body]
pub(crate) fn is_alphanumeric(c: char) -> (r: bool)
    ensures
        r == alphanumeric(c),
{
    c.is_alphanumeric()
}

/// The first `n` characters of `s`, or all of `s` where it is shorter.
pub open spec fn first_chars(s: Seq<char>, n: nat) -> Seq<char> {
    if n < s.len() {
        s.take(n as int)
    } else {
        s
    }
}

/// The first `n` characters of `chars`, as a string.
pub fn string_of_first(chars: &Vec<char>, n: usize) -> (r: String)
    ensures
        r@ == first_chars(chars@, n as nat),
{
    if n < chars.len() {
        string_of_range(chars, 0, n)
    } else {
        string_of(chars)
    }
}

/// The character of a decimal digit.
pub open spec fn digit(d: nat) -> char {
    if d == 0 {
        '0'
    } else if d == 1 {
        '1'
    } else if d == 2 {
        '2'
    } else if d == 3 {
        '3'
    } else if d == 4 {
        '4'
    } else if d == 5 {
        '5'
    } else if d == 6 {
        '6'
    } else if d == 7 {
        '7'
    } else if d == 8 {
        '8'
    } else {
        '9'
    }
}

/// A number in decimal notation.
pub open spec fn decimal(n: nat) -> Seq<char>
    decreases n,
{
    if n < 10 {
        seq![digit(n)]
    } else {
        decimal(n / 10).push(digit(n % 10))
    }
}

fn digit_char(d: u64) -> (r: char)
    requires
        d < 10,
    ensures
        r == digit(d as nat),
{
    if d == 0 {
        '0'
    } else if d == 1 {
        '1'
    } else if d == 2 {
        '2'
    } else if d == 3 {
        '3'
    } else if d == 4 {
        '4'
    } else if d == 5 {
        '5'
    } else if d == 6 {
        '6'
    } else if d == 7 {
        '7'
    } else if d == 8 {
        '8'
    } else {
        '9'
    }
}

/// Appends a number in decimal notation.
pub fn append_decimal(out: &mut String, n: u64)
    ensures
        final(out)@ == old(out)@ + decimal(n as nat),
    decreases n,
{
    if n < 10 {
        push_char(out, digit_char(n));
        assert(out@ == old(out)@ + seq![digit(n as nat)]);
    } else {
        append_decimal(out, n / 10);
        push_char(out, digit_char(n % 10));
        assert(out@ == old(out)@ + decimal((n / 10) as nat).push(digit((n % 10) as nat)));
    }
}

/// A whole number in decimal notation: a minus sign before a negative one.
pub open spec fn signed_decimal(n: int) -> Seq<char> {
    if n < 0 {
        seq!['-'] + decimal((-n) as nat)
    } else {
        decimal(n as nat)
    }
}

/// Appends a whole number in decimal notation.
pub fn append_signed(out: &mut String, n: i64)
    ensures
        final(out)@ == old(out)@ + signed_decimal(n as int),
{
    if n < 0 {
        push_char(out, '-');
        let magnitude: u64 = if n == i64::MIN {
            9223372036854775808u64
        } else {
            (-n) as u64
        };
        append_decimal(out, magnitude);
        assert(out@ == old(out)@ + (seq!['-'] + decimal((-n) as nat)));
    } else {
        append_decimal(out, n as u64);
    }
}

/// A text as `{:?}` writes it: in double quotes, with escapes.
pub uninterp spec fn debug_of(s: Seq<char>) -> Seq<char>;

/// A text in double quotes, with escapes.
///
/// Trusted: the `Debug` formatting of `str` in the standard library. What it
/// writes follows the Unicode tables and depends on the text alone, so it is
/// the named outcome `debug_of`; nothing more is claimed of it.
#[verifier::external_body]
pub(crate) fn debug_text(s: &str) -> (r: String)
    ensures
        r@ == debug_of(s@),
{
    format!("{:?}", s)
}

} // verus!
