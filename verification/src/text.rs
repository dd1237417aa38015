//! Byte and text helpers shared by the readers.
use vstd::prelude::*;
use vstd::utf8::*;

verus! {

/// `c` without one trailing NUL character.
pub open spec fn strip_nul(c: Seq<char>) -> Seq<char> {
    if c.len() > 0 && c.last() == '\0' {
        c.drop_last()
    } else {
        c
    }
}

/// Decodes bytes as UTF-8, handing the bytes back where they are not UTF-8.
///
/// Trusted: `String::from_utf8` succeeds exactly on valid UTF-8, with the
/// decoded characters, and `FromUtf8Error::into_bytes` returns the vector
/// that was passed in.
#[verifier::external_body]
pub fn string_from_utf8(bytes: Vec<u8>) -> (r: Result<String, Vec<u8>>)
    ensures
        match r {
            Ok(s) => valid_utf8(bytes@) && s@ == decode_utf8(bytes@),
            Err(b) => !valid_utf8(bytes@) && b@ == bytes@,
        },
{
    match String::from_utf8(bytes) {
        Ok(s) => Ok(s),
        Err(e) => Err(e.into_bytes()),
    }
}

/// Whether the text ends with the character `c`.
///
/// Trusted: `str::ends_with` with a `char` pattern is true exactly when the
/// last character is `c`.
#[verifier::external_body]
pub fn str_ends_with_char(s: &str, c: char) -> (r: bool)
    ensures
        r == (s@.len() > 0 && s@.last() == c),
{
    s.ends_with(c)
}

/// Removes the last character, if there is one.
///
/// Trusted: `String::pop` removes and returns the last character, and
/// returns `None` on an empty string.
#[verifier::external_body]
pub fn string_pop(s: &mut String) -> (r: Option<char>)
    ensures
        old(s)@.len() == 0 ==> r is None && final(s)@ == old(s)@,
        old(s)@.len() > 0 ==> r == Some(old(s)@.last()) && final(s)@ == old(s)@.drop_last(),
{
    s.pop()
}

/// Appends a character.
///
/// Trusted: `String::push` appends the given character to the end of the
/// string.
#[verifier::external_body]
pub fn string_push(s: &mut String, c: char)
    ensures
        final(s)@ == old(s)@.push(c),
{
    s.push(c)
}

/// Drops one trailing NUL character.
pub fn drop_trailing_nul(s: &mut String)
    ensures
        final(s)@ == strip_nul(old(s)@),
{
    if str_ends_with_char(s.as_str(), '\0') {
        string_pop(s);
    }
}

/// `n` zero bytes.
pub fn vec_of_zeros(n: usize) -> (r: Vec<u8>)
    ensures
        r@ == Seq::new(n as nat, |i: int| 0u8),
{
    let mut r: Vec<u8> = Vec::new();
    let mut k: usize = 0;
    while k < n
        invariant
            k <= n,
            r@ == Seq::new(k as nat, |i: int| 0u8),
        decreases n - k,
    {
        r.push(0);
        k = k + 1;
        assert(r@ =~= Seq::new(k as nat, |i: int| 0u8));
    }
    r
}

/// A copy of `data[start..end]`.
pub fn copy_range(data: &[u8], start: usize, end: usize) -> (r: Vec<u8>)
    requires
        start <= end <= data@.len(),
    ensures
        r@ == data@.subrange(start as int, end as int),
{
    let mut r: Vec<u8> = Vec::new();
    let mut k: usize = start;
    while k < end
        invariant
            start <= k <= end,
            end <= data@.len(),
            r@ == data@.subrange(start as int, k as int),
        decreases end - k,
    {
        r.push(data[k]);
        k = k + 1;
        assert(r@ =~= data@.subrange(start as int, k as int));
    }
    r
}

} // verus!
