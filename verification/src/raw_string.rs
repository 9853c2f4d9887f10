//! The raw form of an owned text.
//!
//! A `String` crosses the boundary as its three parts: the buffer, the
//! number of bytes in use and the number of bytes allocated. The receiving
//! side owns the buffer from then on, and hands the parts back when it is
//! done with them, so that the text can be put together again and released.
//! Here the buffer is held as the `String` that owns it: a `RawString`
//! cannot be copied, and taking the text back consumes it.

use vstd::prelude::*;
use vstd::std_specs::convert::FromSpecImpl;
use vstd::utf8::{decode_utf8, encode_utf8, encode_utf8_decode_utf8, encode_utf8_valid_utf8, valid_utf8};

verus! {

/// The parts of an owned text. Lengths are 64 bits wide whatever the
/// platform, since the other side of the boundary has no `usize`.
pub struct RawString {
    buffer: String,
    len: u64,
    capacity: u64,
}

/// The view of [`RawString`].
pub struct RawStringView {
    /// The bytes in the buffer that are in use.
    pub bytes: Seq<u8>,
    /// The number of those bytes.
    pub len: nat,
    /// The number of bytes allocated for the buffer.
    pub capacity: nat,
}

/// The number of bytes that a text takes up.
pub open spec fn byte_len(text: Seq<char>) -> nat {
    encode_utf8(text).len()
}

impl RawStringView {
    /// Whether the parts belong together: the bytes are text in UTF-8, the
    /// length is the number of the bytes, and they fit in what was
    /// allocated.
    pub open spec fn wf(self) -> bool {
        valid_utf8(self.bytes) && self.len == self.bytes.len() && self.len <= self.capacity
    }
}

/// The raw form of `text` in a buffer of `capacity` bytes.
pub open spec fn raw_of(text: Seq<char>, capacity: nat) -> RawStringView {
    RawStringView { bytes: encode_utf8(text), len: byte_len(text), capacity }
}

/// The text that is put together from the parts.
pub open spec fn text_of(raw: RawStringView) -> Seq<char> {
    decode_utf8(raw.bytes.take(raw.len as int))
}

/// A text that is taken apart and put together again is the text it was.
pub proof fn lemma_round_trip(text: Seq<char>, capacity: nat)
    requires
        byte_len(text) <= capacity,
    ensures
        raw_of(text, capacity).wf(),
        text_of(raw_of(text, capacity)) == text,
{
    encode_utf8_valid_utf8(text);
    encode_utf8_decode_utf8(text);
    assert(encode_utf8(text).take(byte_len(text) as int) =~= encode_utf8(text));
}

impl View for RawString {
    type V = RawStringView;

    closed spec fn view(&self) -> RawStringView {
        RawStringView {
            bytes: encode_utf8(self.buffer@),
            len: self.len as nat,
            capacity: self.capacity as nat,
        }
    }
}

/// Calls `String::capacity`. The standard library documents that a string's
/// length never exceeds its capacity, both counted in bytes; nothing else
/// is known of the number, which is the allocator's choice.
#[verifier::external_body]
fn string_capacity(string: &String) -> (capacity: usize)
    ensures
        byte_len(string@) <= capacity,
{
    string.capacity()
}

impl RawString {
    #[verifier::type_invariant]
    spec fn parts_belong_together(&self) -> bool {
        self.len == byte_len(self.buffer@) && self.len <= self.capacity
    }

    /// Takes a text apart. The text's buffer now belongs to the result.
    pub fn from_string(string: String) -> (raw: RawString)
        ensures
            raw@.wf(),
            exists|capacity: nat| raw@ == raw_of(string@, capacity),
            text_of(raw@) == string@,
    {
        let len = string.as_str().len();
        let capacity = string_capacity(&string);
        let raw = RawString { buffer: string, len: len as u64, capacity: capacity as u64 };
        proof {
            lemma_round_trip(string@, capacity as nat);
            assert(raw@ == raw_of(string@, capacity as nat));
        }
        raw
    }

    /// Puts the text together again. This consumes the parts, so the buffer
    /// is handed on exactly once.
    pub fn into_string(self) -> (string: String)
        ensures
            string@ == text_of(self@),
    {
        proof {
            use_type_invariant(&self);
            lemma_round_trip(self.buffer@, self.capacity as nat);
        }
        self.buffer
    }

    /// The number of bytes of the buffer that hold the text.
    pub fn len(&self) -> (len: u64)
        ensures
            len == self@.len,
            self@.wf(),
    {
        proof {
            use_type_invariant(self);
            lemma_round_trip(self.buffer@, self.capacity as nat);
        }
        self.len
    }

    /// The number of bytes allocated for the buffer.
    pub fn capacity(&self) -> (capacity: u64)
        ensures
            capacity == self@.capacity,
            self@.wf(),
    {
        proof {
            use_type_invariant(self);
            lemma_round_trip(self.buffer@, self.capacity as nat);
        }
        self.capacity
    }
}

impl FromSpecImpl<String> for RawString {
    open spec fn obeys_from_spec() -> bool {
        false
    }

    open spec fn from_spec(string: String) -> RawString {
        arbitrary()
    }
}

impl From<String> for RawString {
    fn from(from: String) -> (raw: RawString)
        ensures
            raw@.wf(),
            text_of(raw@) == from@,
    {
        RawString::from_string(from)
    }
}

} // verus!
