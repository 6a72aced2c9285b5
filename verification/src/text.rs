use vstd::prelude::*;

verus! {

/// Appends one character to a string.
///
/// Trusted: wraps `String::push`, which the standard library documents as
/// appending the given character to the end of the string.
#[verifier::external_body]
pub(crate) fn push_char(s: &mut String, c: char)
    ensures
        final(s)@ == old(s)@.push(c),
{
    s.push(c)
}

/// Removes the last character of a string.
///
/// Trusted: wraps `String::pop`, which the standard library documents as
/// removing the last character and returning it, or returning `None` when the
/// string is empty.
#[verifier::external_body]
pub(crate) fn pop_char(s: &mut String) -> (popped: Option<char>)
    ensures
        old(s)@.len() == 0 ==> popped is None && final(s)@ == old(s)@,
        old(s)@.len() > 0 ==> popped == Some(old(s)@.last()) && final(s)@ == old(s)@.drop_last(),
{
    s.pop()
}

/// Converts a code point to a character.
///
/// Trusted: wraps `char::from_u32`, documented to return `None` exactly when
/// the number is not a Unicode scalar value, and the character with that
/// number otherwise.
#[verifier::external_body]
pub(crate) fn char_from_code(code: u32) -> (c: Option<char>)
    ensures
        c == if is_scalar_value(code as int) {
            Some(code as char)
        } else {
            None
        },
{
    char::from_u32(code)
}

/// Whether `code` is a Unicode scalar value: a code point outside the
/// surrogate range.
pub open spec fn is_scalar_value(code: int) -> bool {
    0 <= code <= 0xD7FF || 0xE000 <= code <= 0x10FFFF
}

/// The characters of a string, as a vector.
pub fn to_chars(s: &str) -> (v: Vec<char>)
    ensures
        v@ == s@,
{
    let mut v: Vec<char> = Vec::new();
    for c in it: s.chars()
        invariant
            it.seq() == s@,
            v@ == s@.take(it.index()),
    {
        v.push(c);
    }
    v
}

/// Appends `chars[from..to]` to `s`.
pub(crate) fn push_chars(s: &mut String, chars: &Vec<char>, from: usize, to: usize)
    requires
        from <= to <= chars.len(),
    ensures
        final(s)@ == old(s)@ + chars@.subrange(from as int, to as int),
{
    let mut i: usize = from;
    while i < to
        invariant
            from <= i <= to <= chars.len(),
            s@ == old(s)@ + chars@.subrange(from as int, i as int),
        decreases to - i,
    {
        push_char(s, chars[i]);
        i += 1;
    }
}

/// The decimal digit `d` as a character.
pub open spec fn digit_char(d: int) -> char
    recommends
        0 <= d <= 9,
{
    ('0' as int + d) as char
}

/// The decimal numeral of a natural number, without leading zeros.
pub open spec fn decimal(n: nat) -> Seq<char>
    decreases n,
{
    if n < 10 {
        seq![digit_char(n as int)]
    } else {
        decimal(n / 10).push(digit_char((n % 10) as int))
    }
}

/// The decimal numeral of an integer: a minus sign before the numeral of its
/// magnitude when it is negative.
pub open spec fn signed_decimal(v: int) -> Seq<char> {
    if v < 0 {
        seq!['-'] + decimal((-v) as nat)
    } else {
        decimal(v as nat)
    }
}

/// Appends the decimal numeral of `n` to `s`.
pub fn push_decimal(s: &mut String, n: u64)
    ensures
        final(s)@ == old(s)@ + decimal(n as nat),
    decreases n,
{
    if n >= 10 {
        push_decimal(s, n / 10);
    }
    let d: u8 = (n % 10) as u8;
    let c: char = (0x30u8 + d) as char;
    push_char(s, c);
}

/// Appends the decimal numeral of the signed number `v` to `s`.
pub fn push_signed_decimal(s: &mut String, v: i64)
    ensures
        final(s)@ == old(s)@ + signed_decimal(v as int),
{
    if v < 0 {
        push_char(s, '-');
        let magnitude: u64 = if v == i64::MIN { 0x8000_0000_0000_0000u64 } else { (-v) as u64 };
        push_decimal(s, magnitude);
    } else {
        push_decimal(s, v as u64);
    }
}

/// Whether two strings hold the same characters.
pub fn same_text(a: &str, b: &str) -> (same: bool)
    ensures
        same == (a@ == b@),
{
    let left = to_chars(a);
    let right = to_chars(b);
    if left.len() != right.len() {
        return false;
    }
    let mut i: usize = 0;
    while i < left.len()
        invariant
            i <= left.len(),
            left.len() == right.len(),
            left@ == a@,
            right@ == b@,
            forall|j: int| 0 <= j < i ==> left@[j] == right@[j],
        decreases left.len() - i,
    {
        if left[i] != right[i] {
            return false;
        }
        i += 1;
    }
    assert(left@ =~= right@);
    true
}

/// A copy of a string.
pub fn copy_text(s: &str) -> (copy: String)
    ensures
        copy@ == s@,
{
    let chars = to_chars(s);
    let mut copy = String::new();
    push_chars(&mut copy, &chars, 0, chars.len());
    copy
}

/// Appends the string `tail` to `s`.
pub fn push_text(s: &mut String, tail: &str)
    ensures
        final(s)@ == old(s)@ + tail@,
{
    let chars = to_chars(tail);
    push_chars(s, &chars, 0, chars.len());
}

} // verus!
