use crate::table::decode_byte;
use crate::table::to_char;
use vstd::prelude::*;
use vstd::utf8::decode_utf8;
use vstd::utf8::encode_utf8;
use vstd::utf8::encode_utf8_decode_utf8;
use vstd::utf8::encode_utf8_valid_utf8;
use vstd::utf8::is_ascii_chars;
use vstd::utf8::is_ascii_chars_encode_utf8;
use vstd::utf8::length_of_first_scalar;
use vstd::utf8::pop_first_scalar;
use vstd::utf8::valid_first_scalar;
use vstd::utf8::valid_utf8;

verus! {

/// The text that a code page 437 byte sequence stands for: each byte decoded
/// through the table.
pub open spec fn decode_bytes(bytes: Seq<u8>) -> Seq<char> {
    Seq::new(bytes.len(), |i: int| decode_byte(bytes[i]))
}

/// True when every byte is in the ASCII range, so the sequence is already
/// valid UTF-8 and can be taken as text without re-encoding.
pub open spec fn all_ascii(bytes: Seq<u8>) -> bool {
    forall|i: int| 0 <= i < bytes.len() ==> bytes[i] < 0x80
}

/// Relies on std's str::from_utf8: it succeeds exactly when the bytes are
/// valid UTF-8, and the returned view is carried by those bytes unchanged.
#[verifier::external_body]
fn bytes_as_str<'a>(v: &'a [u8]) -> (r: Option<&'a str>)
    ensures
        r is Some <==> valid_utf8(v@),
        r is Some ==> encode_utf8(r->0@) == v@,
{
    std::str::from_utf8(v).ok()
}

/// Relies on std's String::from_utf8: it succeeds exactly when the bytes are
/// valid UTF-8, and the returned text is carried by those bytes unchanged.
#[verifier::external_body]
fn string_from_utf8(v: Vec<u8>) -> (r: Option<String>)
    ensures
        r is Some <==> valid_utf8(v@),
        r is Some ==> encode_utf8(r->0@) == v@,
{
    String::from_utf8(v).ok()
}

/// Relies on std's String::push: it appends the given character to the text.
#[verifier::external_body]
fn push_char(s: &mut String, c: char)
    ensures
        final(s)@ == old(s)@.push(c),
{
    s.push(c);
}

/// An all-ASCII byte sequence is valid UTF-8, and reading it as UTF-8 yields
/// exactly the text the code page 437 table assigns to it.
pub proof fn lemma_ascii_utf8(bytes: Seq<u8>)
    requires
        all_ascii(bytes),
    ensures
        valid_utf8(bytes),
        decode_utf8(bytes) == decode_bytes(bytes),
    decreases bytes.len(),
{
    if bytes.len() == 0 {
        assert(decode_utf8(bytes) =~= decode_bytes(bytes));
    } else {
        let b0 = bytes[0];
        assert(b0 & 0x7f == b0) by (bit_vector)
            requires
                b0 < 0x80,
        ;
        assert(valid_first_scalar(bytes));
        assert(length_of_first_scalar(bytes) == 1);
        assert(pop_first_scalar(bytes) =~= bytes.drop_first());
        assert(all_ascii(bytes.drop_first()));
        lemma_ascii_utf8(bytes.drop_first());
        assert(decode_utf8(bytes) =~= decode_bytes(bytes));
    }
}

/// The text decoded from all-ASCII bytes is ASCII text, and encoding it back
/// to UTF-8 gives back the very bytes that were decoded.
pub proof fn lemma_ascii_round_trip(bytes: Seq<u8>)
    requires
        all_ascii(bytes),
    ensures
        is_ascii_chars(decode_bytes(bytes)),
        encode_utf8(decode_bytes(bytes)) == bytes,
{
    let chars = decode_bytes(bytes);
    assert forall|i: int| 0 <= i < chars.len() implies '\0' <= #[trigger] chars[i]
        <= '\u{7f}' by {
        assert(chars[i] == bytes[i] as char);
    }
    is_ascii_chars_encode_utf8(chars);
    assert(encode_utf8(chars) =~= bytes);
}

/// Whatever the input bytes, the decoded text is well-formed Unicode:
/// encoding it to its standard UTF-8 bytes and reading those bytes back as
/// UTF-8 yields exactly the same text.
pub proof fn lemma_reencode_round_trip(bytes: Seq<u8>)
    ensures
        valid_utf8(encode_utf8(decode_bytes(bytes))),
        decode_utf8(encode_utf8(decode_bytes(bytes))) == decode_bytes(bytes),
{
    encode_utf8_valid_utf8(decode_bytes(bytes));
    encode_utf8_decode_utf8(decode_bytes(bytes));
}

/// Text decoded from a borrowed code page 437 byte slice: a borrowed view of
/// the input when the bytes were pure ASCII, a freshly built string otherwise.
pub enum Cp437Str<'a> {
    Borrowed(&'a str),
    Owned(String),
}

impl<'a> View for Cp437Str<'a> {
    type V = Seq<char>;

    open spec fn view(&self) -> Seq<char> {
        match self {
            Cp437Str::Borrowed(s) => s@,
            Cp437Str::Owned(s) => s@,
        }
    }
}

impl<'a> Cp437Str<'a> {
    /// The decoded text as a borrowed string view.
    pub fn as_str(&self) -> (r: &str)
        ensures
            r@ == self@,
    {
        match self {
            Cp437Str::Borrowed(s) => s,
            Cp437Str::Owned(s) => s.as_str(),
        }
    }

    /// True when the text is a zero-copy view of the bytes it was decoded from.
    pub fn is_borrowed(&self) -> (r: bool)
        ensures
            r == (self is Borrowed),
    {
        match self {
            Cp437Str::Borrowed(_) => true,
            Cp437Str::Owned(_) => false,
        }
    }
}

/// True when every byte of the slice is in the ASCII range.
fn is_all_ascii(bytes: &[u8]) -> (r: bool)
    ensures
        r == all_ascii(bytes@),
{
    let mut i: usize = 0;
    while i < bytes.len()
        invariant
            0 <= i <= bytes@.len(),
            forall|j: int| 0 <= j < i ==> bytes@[j] < 0x80,
        decreases bytes@.len() - i,
    {
        if bytes[i] >= 0x80 {
            return false;
        }
        i += 1;
    }
    true
}

/// Decode every byte through the table into a freshly built string.
fn decode_to_string(bytes: &[u8]) -> (r: String)
    ensures
        r@ == decode_bytes(bytes@),
{
    let mut out = String::new();
    let mut i: usize = 0;
    while i < bytes.len()
        invariant
            0 <= i <= bytes@.len(),
            out@ == decode_bytes(bytes@.take(i as int)),
        decreases bytes@.len() - i,
    {
        let c = to_char(bytes[i]);
        push_char(&mut out, c);
        proof {
            assert(decode_bytes(bytes@.take(i + 1)) =~= decode_bytes(
                bytes@.take(i as int),
            ).push(decode_byte(bytes@[i as int])));
        }
        i += 1;
    }
    proof {
        assert(bytes@.take(bytes@.len() as int) =~= bytes@);
    }
    out
}

/// Conversion from code page 437 byte data to the Unicode text it stands for.
///
/// Decoding is total: every byte value has a defined output, so the
/// conversion cannot fail. Allocation is avoided when all bytes fall in the
/// ASCII range.
pub trait FromCp437 {
    /// The kind of text the conversion yields.
    type Target;

    /// Decode the code page 437 bytes into Unicode text.
    fn from_cp437(self) -> Self::Target;
}

impl<'a> FromCp437 for &'a [u8] {
    type Target = Cp437Str<'a>;

    /// Decode a borrowed byte slice. The result views the input bytes without
    /// copying exactly when they are pure ASCII; otherwise every byte goes
    /// through the table into a fresh string.
    fn from_cp437(self) -> (r: Cp437Str<'a>)
        ensures
            r@ == decode_bytes(self@),
            (r is Borrowed) <==> all_ascii(self@),
            all_ascii(self@) ==> encode_utf8(r@) == self@,
    {
        if is_all_ascii(self) {
            proof {
                lemma_ascii_utf8(self@);
            }
            let s = bytes_as_str(self).unwrap();
            proof {
                encode_utf8_decode_utf8(s@);
            }
            Cp437Str::Borrowed(s)
        } else {
            Cp437Str::Owned(decode_to_string(self))
        }
    }
}

impl FromCp437 for Vec<u8> {
    type Target = String;

    /// Decode an owned byte buffer into an owned string. When the bytes are
    /// pure ASCII the buffer is reused as the text's storage; otherwise every
    /// byte goes through the table into a fresh string.
    fn from_cp437(self) -> (r: String)
        ensures
            r@ == decode_bytes(self@),
            all_ascii(self@) ==> encode_utf8(r@) == self@,
    {
        if is_all_ascii(self.as_slice()) {
            proof {
                lemma_ascii_utf8(self@);
            }
            let ghost bs = self@;
            let s = string_from_utf8(self).unwrap();
            proof {
                encode_utf8_decode_utf8(s@);
                assert(decode_utf8(encode_utf8(s@)) == decode_utf8(bs));
            }
            s
        } else {
            decode_to_string(self.as_slice())
        }
    }
}

} // verus!
