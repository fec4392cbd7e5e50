//! Path values and how they combine.
//!
//! A path is the byte string that the operating system is given; it is never
//! resolved, normalised or checked for existence here. Paths combine by the
//! rule of hosts whose separator is `/`: an absolute right operand replaces
//! the left one, a relative one is appended after exactly one separator.

use crate::text::decode;
use vstd::prelude::*;
use vstd::utf8::{decode_utf8, encode_utf8, valid_utf8};

verus! {

/// The byte that separates the components of a path.
pub const SEPARATOR: u8 = 0x2f;

/// A filesystem location, resolved or not.
///
/// Two path values are equal when their bytes are equal; `a/b` and `a//b`
/// are different values although they name the same file.
#[derive(Debug, Clone, PartialEq, Eq)]
pub struct PathValue {
    bytes: Vec<u8>,
}

impl View for PathValue {
    type V = Seq<u8>;

    /// The bytes of the path.
    closed spec fn view(&self) -> Seq<u8> {
        self.bytes@
    }
}

impl PathValue {
    /// Makes a path of raw bytes, as the operating system hands them out.
    pub fn from_bytes(bytes: Vec<u8>) -> (path: PathValue)
        ensures
            path@ == bytes@,
    {
        PathValue { bytes }
    }

    /// The bytes of the path, to hand to the operating system.
    pub fn as_bytes(&self) -> (bytes: &Vec<u8>)
        ensures
            bytes@ == self@,
    {
        &self.bytes
    }
}

/// A path is absolute when it starts at the root.
pub open spec fn is_absolute_spec(path: Seq<u8>) -> bool {
    path.len() > 0 && path[0] == SEPARATOR
}

/// The path that joining `other` onto `base` gives.
pub open spec fn join_spec(base: Seq<u8>, other: Seq<u8>) -> Seq<u8> {
    if is_absolute_spec(other) {
        other
    } else if base.len() > 0 && base.last() != SEPARATOR {
        base + seq![SEPARATOR] + other
    } else {
        base + other
    }
}

/// The text of a path: its characters where the bytes are UTF-8, else empty.
pub open spec fn text_spec(path: Seq<u8>) -> Seq<char> {
    if valid_utf8(path) {
        decode_utf8(path)
    } else {
        Seq::empty()
    }
}

/// Appends the bytes of `tail` to `bytes`.
fn extend(bytes: &mut Vec<u8>, tail: &Vec<u8>)
    ensures
        final(bytes)@ == old(bytes)@ + tail@,
{
    let mut i: usize = 0;
    while i < tail.len()
        invariant
            i <= tail.len(),
            bytes@ == old(bytes)@ + tail@.take(i as int),
        decreases tail.len() - i,
    {
        bytes.push(tail[i]);
        i += 1;
        assert(tail@.take(i as int) == tail@.take(i - 1).push(tail@[i - 1]));
    }
    assert(tail@.take(i as int) == tail@);
}

/// Makes a path from text. Always succeeds: nothing is looked up.
pub fn path(text: &str) -> (made: PathValue)
    ensures
        made@ == encode_utf8(text@),
{
    PathValue { bytes: text.as_bytes_vec() }
}

/// Tells whether the path is absolute, that is, independent of the current
/// directory.
pub fn is_absolute(path: &PathValue) -> (absolute: bool)
    ensures
        absolute == is_absolute_spec(path@),
{
    path.bytes.len() > 0 && path.bytes[0] == SEPARATOR
}

/// Tells whether the path is relative, that is, not absolute.
pub fn is_relative(path: &PathValue) -> (relative: bool)
    ensures
        relative == !is_absolute_spec(path@),
{
    !is_absolute(path)
}

/// Joins `path2` onto `path1` and returns the result; neither operand
/// changes.
pub fn add(path1: &PathValue, path2: &PathValue) -> (joined: PathValue)
    ensures
        joined@ == join_spec(path1@, path2@),
{
    let mut joined = PathValue { bytes: Vec::new() };
    extend(&mut joined.bytes, &path1.bytes);
    append(&mut joined, path2);
    joined
}

/// Joins the path that `text` spells onto `path`.
pub fn add_string(path: &PathValue, text: &str) -> (joined: PathValue)
    ensures
        joined@ == join_spec(path@, encode_utf8(text@)),
{
    let other = self::path(text);
    self::add(path, &other)
}

/// Joins `path2` onto `path1` in place: afterwards `path1` is the value that
/// [`add`] returns for the two.
pub fn append(path1: &mut PathValue, path2: &PathValue)
    ensures
        final(path1)@ == join_spec(old(path1)@, path2@),
{
    if is_absolute(path2) {
        path1.bytes.clear();
    } else {
        let n = path1.bytes.len();
        if n > 0 && path1.bytes[n - 1] != SEPARATOR {
            path1.bytes.push(SEPARATOR);
        }
    }
    extend(&mut path1.bytes, &path2.bytes);
}

/// Spells the path as text. A path whose bytes are not UTF-8 has no text and
/// gives the empty string rather than a failure.
pub fn to_string(path: &PathValue) -> (text: String)
    ensures
        text@ == text_spec(path@),
{
    match decode(path.bytes.clone()) {
        Ok(text) => text,
        Err(_) => String::new(),
    }
}

/// A path made from text spells that text again.
pub proof fn lemma_text_round_trip(text: Seq<char>)
    ensures
        text_spec(encode_utf8(text)) == text,
{
    vstd::utf8::encode_utf8_valid_utf8(text);
    vstd::utf8::encode_utf8_decode_utf8(text);
}

} // verus!
