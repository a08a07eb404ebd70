//! String helpers with exact contracts over character sequences.

use vstd::prelude::*;

verus! {

broadcast use vstd::string::group_string_axioms;

/// Compares two string slices character by character.
pub fn str_eq(a: &str, b: &str) -> (r: bool)
    ensures
        r == (a@ == b@),
{
    let ab = a.as_bytes();
    let bb = b.as_bytes();
    proof {
        vstd::utf8::encode_utf8_decode_utf8(a@);
        vstd::utf8::encode_utf8_decode_utf8(b@);
    }
    if ab.len() != bb.len() {
        return false;
    }
    let mut i: usize = 0;
    while i < ab.len()
        invariant
            ab@ == vstd::utf8::encode_utf8(a@),
            bb@ == vstd::utf8::encode_utf8(b@),
            ab@.len() == bb@.len(),
            i <= ab@.len(),
            forall|j: int| 0 <= j < i ==> ab@[j] == bb@[j],
        decreases ab@.len() - i,
    {
        if ab[i] != bb[i] {
            assert(ab@ != bb@);
            return false;
        }
        i = i + 1;
    }
    assert(ab@ =~= bb@);
    true
}

/// The characters of a string slice, in order.
pub fn chars_of(s: &str) -> (v: Vec<char>)
    ensures
        v@ == s@,
{
    let mut v: Vec<char> = Vec::new();
    for c in it: s.chars()
        invariant
            v@ == it.seq().take(it.index() as int),
    {
        v.push(c);
    }
    v
}

/// Appends one character to a string.
///
/// Trusted: `String::push` adds the character at the end and changes
/// nothing else.
#[verifier::external_body]
pub(crate) fn push_char(s: &mut String, c: char)
    ensures
        final(s)@ == old(s)@.push(c),
{
    s.push(c);
}

/// A decimal digit.
pub open spec fn is_digit(c: char) -> bool {
    '0' <= c && c <= '9'
}

/// The value of a string of decimal digits.
pub open spec fn digits_value(s: Seq<char>) -> int
    decreases s.len(),
{
    if s.len() == 0 {
        0
    } else {
        digits_value(s.drop_last()) * 10 + (s.last() as int - '0' as int)
    }
}

/// `s` without its leading `+` or `-`, if it has one.
pub open spec fn unsigned_part(s: Seq<char>) -> Seq<char> {
    if s.len() > 0 && (s[0] == '-' || s[0] == '+') {
        s.drop_first()
    } else {
        s
    }
}

/// Every character of `d` is a decimal digit.
pub open spec fn all_digits(d: Seq<char>) -> bool {
    forall|i: int| 0 <= i < d.len() ==> is_digit(#[trigger] d[i])
}

/// The integer an optional sign followed by one or more decimal digits
/// stands for, if `s` has that form.
pub open spec fn decimal_value(s: Seq<char>) -> Option<int> {
    let neg = s.len() > 0 && s[0] == '-';
    let digits = unsigned_part(s);
    if digits.len() > 0 && all_digits(digits) {
        Some(
            if neg {
                -digits_value(digits)
            } else {
                digits_value(digits)
            },
        )
    } else {
        None
    }
}

/// What `str::parse::<i64>` gives for `s`: the value of an optional sign
/// followed by decimal digits, when it fits in an `i64`.
pub open spec fn parsed_i64(s: Seq<char>) -> Option<i64> {
    match decimal_value(s) {
        Some(v) => if i64::MIN <= v && v <= i64::MAX {
            Some(v as i64)
        } else {
            None
        },
        None => None,
    }
}

/// Reads a decimal integer as `str::parse::<i64>` does: an optional `+`
/// or `-` followed by at least one decimal digit and nothing else, when
/// the value fits.
pub(crate) fn parse_i64(s: &str) -> (r: Option<i64>)
    ensures
        r == parsed_i64(s@),
{
    let v = chars_of(s);
    let n = v.len();
    let neg = n > 0 && v[0] == '-';
    let start: usize = if n > 0 && (v[0] == '-' || v[0] == '+') {
        1
    } else {
        0
    };
    let ghost digits: Seq<char> = if start == 1 {
        v@.drop_first()
    } else {
        v@
    };
    assert(digits =~= v@.skip(start as int));
    if start == n {
        assert(digits.len() == 0);
        return None;
    }
    let mut acc: u128 = 0;
    let mut big = false;
    let mut k: usize = start;
    assert(digits.take(0) =~= Seq::<char>::empty());
    while k < n
        invariant
            start <= k <= n,
            start < n,
            n == v@.len(),
            digits == v@.skip(start as int),
            v@ == s@,
            digits == unsigned_part(s@),
            forall|i: int| 0 <= i < k - start ==> is_digit(#[trigger] digits[i]),
            !big ==> acc == digits_value(digits.take(k - start)) && acc <= 0x8000_0000_0000_0000,
            big ==> digits_value(digits.take(k - start)) > 0x8000_0000_0000_0000,
        decreases n - k,
    {
        let c = v[k];
        let j: usize = k - start;
        assert(digits[j as int] == c);
        if !('0' <= c && c <= '9') {
            assert(!is_digit(digits[j as int]));
            return None;
        }
        let d: u128 = (c as u32 - '0' as u32) as u128;
        proof {
            let t = digits.take(j + 1);
            assert(t.drop_last() =~= digits.take(j as int));
            assert(t.last() == c);
            assert(digits_value(t) == digits_value(digits.take(j as int)) * 10 + d);
        }
        if !big {
            let next = acc * 10 + d;
            if next > 0x8000_0000_0000_0000 {
                big = true;
            } else {
                acc = next;
            }
        }
        k = k + 1;
    }
    assert(digits.take(n - start) =~= digits);
    if big {
        return None;
    }
    if neg {
        if acc == 0x8000_0000_0000_0000 {
            Some(i64::MIN)
        } else {
            let a: i64 = acc as i64;
            Some(-a)
        }
    } else if acc <= 0x7fff_ffff_ffff_ffff {
        Some(acc as i64)
    } else {
        None
    }
}

/// The character of a decimal digit.
pub open spec fn digit_char(d: int) -> char {
    ('0' as int + d) as char
}

/// The decimal digits of a natural number.
pub open spec fn natural_text(n: nat) -> Seq<char>
    decreases n,
{
    if n < 10 {
        seq![digit_char(n as int)]
    } else {
        natural_text(n / 10).push(digit_char((n % 10) as int))
    }
}

/// An integer as `Display` writes it: its decimal digits, after a `-` when
/// it is negative.
pub open spec fn decimal_text(n: int) -> Seq<char> {
    if n < 0 {
        seq!['-'] + natural_text((-n) as nat)
    } else {
        natural_text(n as nat)
    }
}

/// The character of the decimal digit `d`.
fn digit_char_of(d: u64) -> (c: char)
    requires
        d < 10,
    ensures
        c == digit_char(d as int),
{
    match d {
        0 => '0',
        1 => '1',
        2 => '2',
        3 => '3',
        4 => '4',
        5 => '5',
        6 => '6',
        7 => '7',
        8 => '8',
        _ => '9',
    }
}

/// Writes an integer in decimal, as its `Display` does: its decimal
/// digits, after a `-` when it is negative.
pub(crate) fn i64_text(n: i64) -> (r: String)
    ensures
        r@ == decimal_text(n as int),
{
    let neg = n < 0;
    let wide: i128 = n as i128;
    let mut m: u64 = if neg {
        (0i128 - wide) as u64
    } else {
        wide as u64
    };
    let ghost mag: nat = m as nat;
    let ghost mut suffix: Seq<char> = Seq::empty();
    let mut rev: Vec<char> = Vec::new();
    assert(natural_text(mag) =~= natural_text(m as nat) + suffix);
    while m >= 10
        invariant
            natural_text(mag) == natural_text(m as nat) + suffix,
            suffix.len() == rev@.len(),
            forall|i: int| 0 <= i < suffix.len() ==> suffix[i] == rev@[rev@.len() - 1 - i],
        decreases m,
    {
        let c = digit_char_of(m % 10);
        proof {
            let s2 = seq![c] + suffix;
            assert(natural_text(m as nat) == natural_text((m / 10) as nat).push(c));
            assert(natural_text((m / 10) as nat).push(c) + suffix =~= natural_text((m / 10) as nat)
                + s2);
            suffix = s2;
        }
        rev.push(c);
        m = m / 10;
    }
    let mut r = String::new();
    if neg {
        push_char(&mut r, '-');
    }
    push_char(&mut r, digit_char_of(m));
    let ghost prefix: Seq<char> = r@;
    assert(natural_text(m as nat) == seq![digit_char(m as int)]);
    let mut k: usize = rev.len();
    while k > 0
        invariant
            k <= rev@.len(),
            suffix.len() == rev@.len(),
            forall|i: int| 0 <= i < suffix.len() ==> suffix[i] == rev@[rev@.len() - 1 - i],
            r@ == prefix + suffix.take(rev@.len() - k),
        decreases k,
    {
        k = k - 1;
        let c = rev[k];
        proof {
            let j = rev@.len() - 1 - k;
            assert(suffix[j] == c);
            assert(suffix.take(j + 1) =~= suffix.take(j).push(c));
        }
        push_char(&mut r, c);
        assert(r@ =~= prefix + suffix.take(rev@.len() - k));
    }
    assert(suffix.take(suffix.len() as int) =~= suffix);
    proof {
        if neg {
            assert(mag == -(n as int));
            assert(r@ =~= seq!['-'] + natural_text(mag));
        } else {
            assert(mag == n as int);
            assert(r@ =~= natural_text(mag));
        }
    }
    r
}

/// The White_Space characters of Unicode, which `char::is_whitespace`
/// recognizes.
pub open spec fn is_white_space(c: char) -> bool {
    ||| '\u{9}' <= c && c <= '\u{d}'
    ||| c == ' '
    ||| c == '\u{85}'
    ||| c == '\u{a0}'
    ||| c == '\u{1680}'
    ||| '\u{2000}' <= c && c <= '\u{200a}'
    ||| c == '\u{2028}'
    ||| c == '\u{2029}'
    ||| c == '\u{202f}'
    ||| c == '\u{205f}'
    ||| c == '\u{3000}'
}

/// `s` without its leading white space.
pub open spec fn trim_start_text(s: Seq<char>) -> Seq<char>
    decreases s.len(),
{
    if s.len() > 0 && is_white_space(s[0]) {
        trim_start_text(s.drop_first())
    } else {
        s
    }
}

/// `s` without its trailing white space.
pub open spec fn trim_end_text(s: Seq<char>) -> Seq<char>
    decreases s.len(),
{
    if s.len() > 0 && is_white_space(s.last()) {
        trim_end_text(s.drop_last())
    } else {
        s
    }
}

/// `s` without leading and trailing white space.
pub open spec fn trimmed(s: Seq<char>) -> Seq<char> {
    trim_end_text(trim_start_text(s))
}

/// Whether `c` is a White_Space character.
pub(crate) fn is_white_space_char(c: char) -> (b: bool)
    ensures
        b == is_white_space(c),
{
    ('\u{9}' <= c && c <= '\u{d}') || c == ' ' || c == '\u{85}' || c == '\u{a0}' || c == '\u{1680}'
        || ('\u{2000}' <= c && c <= '\u{200a}') || c == '\u{2028}' || c == '\u{2029}' || c
        == '\u{202f}' || c == '\u{205f}' || c == '\u{3000}'
}

/// Skipping the leading white space of `s` skips exactly its first `k`
/// characters when those are white space and the next one is not.
proof fn lemma_trim_start_at(s: Seq<char>, k: int)
    requires
        0 <= k <= s.len(),
        forall|i: int| 0 <= i < k ==> is_white_space(#[trigger] s[i]),
        k == s.len() || !is_white_space(s[k]),
    ensures
        trim_start_text(s) == s.skip(k),
    decreases k,
{
    if k == 0 {
        assert(s.skip(0) =~= s);
    } else {
        let t = s.drop_first();
        assert forall|i: int| 0 <= i < k - 1 implies is_white_space(#[trigger] t[i]) by {
            assert(t[i] == s[i + 1]);
        }
        if k - 1 < t.len() {
            assert(t[k - 1] == s[k]);
        }
        lemma_trim_start_at(t, k - 1);
        assert(t.skip(k - 1) =~= s.skip(k));
        assert(is_white_space(s[0]));
    }
}

/// Dropping the trailing white space of `s` keeps exactly its first `k`
/// characters when the rest is white space and the one before is not.
proof fn lemma_trim_end_at(s: Seq<char>, k: int)
    requires
        0 <= k <= s.len(),
        forall|i: int| k <= i < s.len() ==> is_white_space(#[trigger] s[i]),
        k == 0 || !is_white_space(s[k - 1]),
    ensures
        trim_end_text(s) == s.take(k),
    decreases s.len() - k,
{
    if k == s.len() {
        assert(s.take(k) =~= s);
    } else {
        let t = s.drop_last();
        assert(is_white_space(s[s.len() - 1]));
        assert forall|i: int| k <= i < t.len() implies is_white_space(#[trigger] t[i]) by {
            assert(t[i] == s[i]);
        }
        if k > 0 {
            assert(t[k - 1] == s[k - 1]);
        }
        lemma_trim_end_at(t, k);
        assert(t.take(k) =~= s.take(k));
    }
}

/// Removes leading and trailing white space, as `str::trim` does.
pub(crate) fn trim(s: &str) -> (r: String)
    ensures
        r@ == trimmed(s@),
{
    let v = chars_of(s);
    let n = v.len();
    let mut lo: usize = 0;
    while lo < n && is_white_space_char(v[lo])
        invariant
            lo <= n,
            n == v@.len(),
            forall|i: int| 0 <= i < lo ==> is_white_space(#[trigger] v@[i]),
        decreases n - lo,
    {
        lo = lo + 1;
    }
    proof {
        lemma_trim_start_at(v@, lo as int);
    }
    let mut hi: usize = n;
    while hi > lo && is_white_space_char(v[hi - 1])
        invariant
            lo <= hi <= n,
            n == v@.len(),
            forall|i: int| hi <= i < n ==> is_white_space(#[trigger] v@[i]),
        decreases hi,
    {
        hi = hi - 1;
    }
    let ghost rest = v@.skip(lo as int);
    proof {
        assert forall|i: int| hi - lo <= i < rest.len() implies is_white_space(#[trigger] rest[i]) by {
            assert(rest[i] == v@[lo + i]);
        }
        if hi > lo {
            assert(rest[hi - lo - 1] == v@[hi - 1]);
        }
        lemma_trim_end_at(rest, hi - lo);
        assert(rest.take(hi - lo) =~= v@.subrange(lo as int, hi as int));
    }
    let mut r = String::new();
    let mut k: usize = lo;
    while k < hi
        invariant
            lo <= k <= hi <= n,
            n == v@.len(),
            r@ == v@.subrange(lo as int, k as int),
        decreases hi - k,
    {
        push_char(&mut r, v[k]);
        assert(v@.subrange(lo as int, k + 1) =~= v@.subrange(lo as int, k as int).push(v@[k as int]));
        k = k + 1;
    }
    assert(v@ == s@);
    r
}

/// The text of `bytes` read as UTF-8, when they are valid UTF-8.
///
/// Trusted: `std::str::from_utf8`, which succeeds exactly on valid UTF-8
/// and then decodes it.
#[verifier::external_body]
pub(crate) fn utf8_text(bytes: &[u8]) -> (r: Option<&str>)
    ensures
        r is Some <==> vstd::utf8::valid_utf8(bytes@),
        r matches Some(s) ==> s@ == vstd::utf8::decode_utf8(bytes@),
{
    std::str::from_utf8(bytes).ok()
}

/// The message `std::str::Utf8Error` displays for invalid bytes.
pub uninterp spec fn utf8_error_text(bytes: Seq<u8>) -> Seq<char>;

/// The message of the error that reading invalid UTF-8 gives.
///
/// Trusted: `std::str::from_utf8` and the `Display` of its error. The
/// message depends on the bytes alone and is named `utf8_error_text`.
#[verifier::external_body]
pub(crate) fn utf8_error_message(bytes: &[u8]) -> (r: String)
    requires
        !vstd::utf8::valid_utf8(bytes@),
    ensures
        r@ == utf8_error_text(bytes@),
{
    match std::str::from_utf8(bytes) {
        Ok(_) => String::new(),
        Err(e) => e.to_string(),
    }
}

/// The part of `s` before its first space, or all of it.
pub open spec fn first_word(s: Seq<char>) -> Seq<char>
    decreases s.len(),
{
    if s.len() == 0 || s[0] == ' ' {
        Seq::empty()
    } else {
        seq![s[0]] + first_word(s.drop_first())
    }
}

/// The part of `s` before its first space, or all of it, as
/// `s.split(" ").next()` gives it.
pub fn first_word_of(s: &str) -> (r: String)
    ensures
        r@ == first_word(s@),
{
    let v = chars_of(s);
    let mut r = String::new();
    let mut i: usize = 0;
    assert(v@.skip(0) =~= v@);
    assert(Seq::<char>::empty() + first_word(s@) =~= first_word(s@));
    while i < v.len() && v[i] != ' '
        invariant
            i <= v@.len(),
            v@ == s@,
            r@ + first_word(v@.skip(i as int)) == first_word(s@),
        decreases v@.len() - i,
    {
        assert(v@.skip(i as int).drop_first() =~= v@.skip(i + 1));
        assert(r@.push(v@[i as int]) + first_word(v@.skip(i + 1)) =~= r@ + (seq![v@[i as int]]
            + first_word(v@.skip(i + 1))));
        push_char(&mut r, v[i]);
        i = i + 1;
    }
    assert(first_word(v@.skip(i as int)) =~= Seq::<char>::empty());
    assert(r@ + Seq::<char>::empty() =~= r@);
    r
}

} // verus!
