//! Splitting a request buffer into its words.
//!
//! A request is a run of bytes; words are separated by one or more spaces.
//! Each byte of a word stands for the character with the same code.

use crate::error::{CacheError, CacheResult};
use bytes::{Buf, BytesMut};
use vstd::prelude::*;

verus! {

/// `bytes::BytesMut`, seen through `buffer_content`.
#[verifier::external_type_specification]
#[verifier::external_body]
pub struct ExBytesMut(BytesMut);

/// The bytes left in a buffer.
pub uninterp spec fn buffer_content(b: BytesMut) -> Seq<u8>;

/// Relies on `BytesMut::len`: the number of bytes left.
#[verifier::external_body]
fn buffer_len(b: &BytesMut) -> (r: usize)
    ensures
        r == buffer_content(*b).len(),
{
    b.len()
}

/// Relies on `Buf::get_u8` of `BytesMut`: the first byte, which it consumes.
#[verifier::external_body]
fn buffer_next(b: &mut BytesMut) -> (r: u8)
    requires
        buffer_content(*old(b)).len() > 0,
    ensures
        r == buffer_content(*old(b))[0],
        buffer_content(*final(b)) == buffer_content(*old(b)).drop_first(),
{
    b.get_u8()
}

/// Relies on `String::push`: the character goes last.
#[verifier::external_body]
pub(crate) fn push_char(s: &mut String, c: char)
    ensures
        final(s)@ == old(s)@.push(c),
{
    s.push(c)
}

/// The words finished so far and the word being read, after one more byte.
pub open spec fn split_step(st: (Seq<Seq<char>>, Seq<char>), b: u8) -> (Seq<Seq<char>>, Seq<char>) {
    if b == 32 {
        if st.1.len() > 0 {
            (st.0.push(st.1), Seq::<char>::empty())
        } else {
            (st.0, Seq::<char>::empty())
        }
    } else {
        (st.0, st.1.push(b as char))
    }
}

/// The words finished and the word being read after the bytes `b`.
pub open spec fn split_state(b: Seq<u8>) -> (Seq<Seq<char>>, Seq<char>)
    decreases b.len(),
{
    if b.len() == 0 {
        (Seq::<Seq<char>>::empty(), Seq::<char>::empty())
    } else {
        split_step(split_state(b.drop_last()), b.last())
    }
}

/// The space-separated words of `b`, in order; runs of spaces count as one
/// separator and produce no empty word.
pub open spec fn words_of(b: Seq<u8>) -> Seq<Seq<char>> {
    let st = split_state(b);
    if st.1.len() > 0 {
        st.0.push(st.1)
    } else {
        st.0
    }
}

/// The views of a vector of strings.
pub open spec fn string_views(v: Seq<String>) -> Seq<Seq<char>> {
    v.map_values(|w: String| w@)
}

/// Consumes the buffer and returns its space-separated words.
pub fn buffer_to_array(buf: &mut BytesMut) -> (r: Vec<String>)
    ensures
        string_views(r@) == words_of(buffer_content(*old(buf))),
        buffer_content(*final(buf)).len() == 0,
{
    let ghost bytes = buffer_content(*buf);
    let mut vec: Vec<String> = Vec::new();
    let length = buffer_len(buf);
    let mut word = String::new();
    let mut i: usize = 0;
    assert(bytes.subrange(0, 0) =~= Seq::<u8>::empty());
    assert(string_views(vec@) =~= Seq::<Seq<char>>::empty());
    while i < length
        invariant
            i <= length,
            length == bytes.len(),
            buffer_content(*buf) == bytes.subrange(i as int, length as int),
            string_views(vec@) == split_state(bytes.subrange(0, i as int)).0,
            word@ == split_state(bytes.subrange(0, i as int)).1,
        decreases length - i,
    {
        let ghost before = bytes.subrange(0, i as int);
        assert(buffer_content(*buf)[0] == bytes[i as int]);
        let b = buffer_next(buf);
        if b == 32 {
            if !word.as_str().is_empty() {
                let ghost w = word@;
                vec.push(word);
                assert(string_views(vec@) =~= split_state(before).0.push(w));
                word = String::new();
            }
        } else {
            push_char(&mut word, b as char);
        }
        i = i + 1;
        assert(bytes.subrange(0, i as int).drop_last() =~= before);
        assert(buffer_content(*buf) =~= bytes.subrange(i as int, length as int));
    }
    assert(bytes.subrange(0, length as int) =~= bytes);
    if !word.as_str().is_empty() {
        let ghost w = word@;
        vec.push(word);
        assert(string_views(vec@) =~= split_state(bytes).0.push(w));
    }
    vec
}

/// Splits the buffer into words; an empty request is an error.
pub fn parse_command(buf: &mut BytesMut) -> (r: CacheResult<Vec<String>>)
    ensures
        r.is_err() <==> words_of(buffer_content(*old(buf))).len() == 0,
        r matches Ok(v) ==> string_views(v@) == words_of(buffer_content(*old(buf))),
        r matches Err(e) ==> e is ParseError,
        buffer_content(*final(buf)).len() == 0,
{
    let parts = buffer_to_array(buf);
    if parts.len() == 0 {
        return Err(CacheError::ParseError("empty command".to_owned()));
    }
    Ok(parts)
}

} // verus!
