//! Byte-offset editing of UTF-8 text, as `String` does it.
//!
//! Positions into a text are byte offsets into its UTF-8 encoding; the
//! editing operations of `String` accept only offsets that fall on a
//! character boundary.
use vstd::prelude::*;
use vstd::utf8::*;

verus! {

/// The UTF-8 encoding of a text.
pub open spec fn utf8(t: Seq<char>) -> Seq<u8> {
    encode_utf8(t)
}

/// Offset `i` falls on a character boundary of (the encoding of) `t`.
pub open spec fn on_boundary(t: Seq<char>, i: int) -> bool {
    is_char_boundary(encode_utf8(t), i)
}

/// `b` with the bytes in `from..to` replaced by `ins`.
pub open spec fn splice(b: Seq<u8>, from: int, to: int, ins: Seq<u8>) -> Seq<u8> {
    b.subrange(0, from) + ins + b.subrange(to, b.len() as int)
}

/// The number of bytes of the character whose encoding starts at offset `i` of `b`.
pub open spec fn char_width_at(b: Seq<u8>, i: int) -> int {
    length_of_first_scalar(b.subrange(i, b.len() as int))
}

/// `String::insert_str`: puts `t` at byte offset `idx`. It panics when `idx` is
/// not a character boundary, and its allocation fails beyond `isize::MAX` bytes.
#[verifier::external_body]
pub(crate) fn string_insert_str(s: &mut String, idx: usize, t: &str)
    requires
        on_boundary(old(s)@, idx as int),
        utf8(old(s)@).len() + utf8(t@).len() <= isize::MAX,
    ensures
        utf8(final(s)@) == splice(utf8(old(s)@), idx as int, idx as int, utf8(t@)),
{
    s.insert_str(idx, t)
}

/// `String::replace_range` on `from..to`: replaces those bytes by `t`. It panics
/// when `from > to` or when either end is not a character boundary.
#[verifier::external_body]
pub(crate) fn string_replace_range(s: &mut String, from: usize, to: usize, t: &str)
    requires
        from <= to,
        on_boundary(old(s)@, from as int),
        on_boundary(old(s)@, to as int),
        utf8(old(s)@).len() + utf8(t@).len() <= isize::MAX,
    ensures
        utf8(final(s)@) == splice(utf8(old(s)@), from as int, to as int, utf8(t@)),
{
    s.replace_range(from..to, t)
}

/// `String::remove`: takes out the character whose encoding starts at byte offset
/// `idx`. It panics when `idx` is not below the length or not a character boundary.
#[verifier::external_body]
pub(crate) fn string_remove(s: &mut String, idx: usize) -> (c: char)
    requires
        idx < utf8(old(s)@).len(),
        on_boundary(old(s)@, idx as int),
    ensures
        utf8(final(s)@) == splice(
            utf8(old(s)@),
            idx as int,
            idx + char_width_at(utf8(old(s)@), idx as int),
            Seq::empty(),
        ),
        utf8(seq![c]) == utf8(old(s)@).subrange(
            idx as int,
            idx + char_width_at(utf8(old(s)@), idx as int),
        ),
{
    s.remove(idx)
}

/// `&s[from..to]` on a `str`. It panics when `from > to` or when either end is not
/// a character boundary.
#[verifier::external_body]
pub(crate) fn str_slice(s: &str, from: usize, to: usize) -> (r: &str)
    requires
        from <= to,
        on_boundary(s@, from as int),
        on_boundary(s@, to as int),
    ensures
        utf8(r@) == utf8(s@).subrange(from as int, to as int),
{
    &s[from..to]
}

/// `char::is_alphanumeric`: whether the Unicode properties Alphabetic or Numeric hold.
pub uninterp spec fn alphanumeric(c: char) -> bool;

/// `char::is_alphanumeric`.
#[verifier::external_body]
pub(crate) fn is_alphanumeric(c: char) -> (r: bool)
    ensures
        r == alphanumeric(c),
{
    c.is_alphanumeric()
}

/// The characters of a text, one by one.
pub(crate) fn chars_of(s: &str) -> (v: Vec<char>)
    ensures
        v@ == s@,
{
    let mut v: Vec<char> = Vec::new();
    for c in it: s.chars()
        invariant
            v@ == it.seq().take(it.index() as int),
    {
        v.push(c);
    }
    v
}

} // verus!
