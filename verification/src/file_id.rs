//! Audio and image file identifiers.
//!
//! A [`FileId`] is a 20-byte SHA1 hash that identifies an audio file or an
//! image on Spotify's CDN. It is written as a 40-character lowercase hex string.

use vstd::prelude::*;

use crate::text::{concat_str, push_char};

verus! {

/// The number of bytes in a file identifier.
pub const RAW_LEN: usize = 20;

/// A 20-byte identifier for an audio or image file on Spotify's CDN.
#[derive(Copy, Clone, PartialEq, Eq, PartialOrd, Ord, Hash, Debug)]
pub struct FileId(pub [u8; 20]);

/// The lowercase hex digit for a value below 16.
pub open spec fn hex_digit(n: u8) -> char {
    if n < 10 {
        ((n + 48) as u8) as char
    } else {
        ((n + 87) as u8) as char
    }
}

/// The lowercase hex rendering of a byte sequence, two digits per byte,
/// most significant nibble first.
pub open spec fn hex_lower(bytes: Seq<u8>) -> Seq<char>
    decreases bytes.len(),
{
    if bytes.len() == 0 {
        seq![]
    } else {
        hex_lower(bytes.drop_last()) + seq![
            hex_digit(bytes.last() / 16),
            hex_digit(bytes.last() % 16),
        ]
    }
}

/// The identifier that `from_raw` builds from `src`: the bytes of `src`
/// followed by zeros when `src` is at most 20 bytes long, all zeros otherwise.
pub open spec fn raw_id_bytes(src: Seq<u8>) -> Seq<u8> {
    Seq::new(20, |i: int| if src.len() <= 20 && i < src.len() { src[i] } else { 0u8 })
}

fn hex_char(n: u8) -> (c: char)
    requires
        n < 16,
    ensures
        c == hex_digit(n),
{
    if n < 10 {
        ((n + 48) as u8) as char
    } else {
        ((n + 87) as u8) as char
    }
}

impl FileId {
    /// The bytes of the identifier as a sequence.
    pub open spec fn bytes(self) -> Seq<u8> {
        self.0@
    }

    /// Creates a `FileId` from a raw byte slice.
    ///
    /// Some tracks come with 16 instead of 20 bytes: shorter input is padded
    /// with zeros. Input longer than 20 bytes gives the all-zero identifier.
    pub fn from_raw(src: &[u8]) -> (id: FileId)
        ensures
            id.bytes() == raw_id_bytes(src@),
    {
        let mut dst = [0u8; 20];
        let len = src.len();
        if len <= RAW_LEN {
            let mut i: usize = 0;
            while i < len
                invariant
                    len == src@.len(),
                    len <= 20,
                    i <= len,
                    dst@.len() == 20,
                    forall|j: int| 0 <= j < i ==> dst@[j] == src@[j],
                    forall|j: int| i <= j < 20 ==> dst@[j] == 0u8,
                decreases len - i,
            {
                dst[i] = src[i];
                i = i + 1;
            }
        }
        let id = FileId(dst);
        assert(id.bytes() =~= raw_id_bytes(src@));
        id
    }

    /// Returns the identifier as a 40-character lowercase hex string.
    pub fn to_base16(&self) -> (s: String)
        ensures
            s@ == hex_lower(self.bytes()),
            s@.len() == 40,
    {
        let mut s = String::new();
        let mut i: usize = 0;
        while i < RAW_LEN
            invariant
                i <= 20,
                self.0@.len() == 20,
                s@ == hex_lower(self.0@.subrange(0, i as int)),
            decreases 20 - i,
        {
            let b = self.0[i];
            push_char(&mut s, hex_char(b / 16));
            push_char(&mut s, hex_char(b % 16));
            assert(self.0@.subrange(0, i + 1).drop_last() =~= self.0@.subrange(0, i as int));
            i = i + 1;
        }
        assert(self.0@.subrange(0, 20) =~= self.0@);
        proof {
            lemma_hex_lower_len(self.0@);
        }
        s
    }

    /// The debug rendering of the identifier: its hex rendering, quoted,
    /// inside `FileId(..)`.
    pub fn to_debug_string(&self) -> (s: String)
        ensures
            s@ == "FileId(\""@ + hex_lower(self.bytes()) + "\")"@,
    {
        let hex = self.to_base16();
        let s = concat_str("FileId(\"", hex.as_str());
        concat_str(s.as_str(), "\")")
    }

    /// The hex rendering used when an identifier is displayed.
    pub fn to_string(&self) -> (s: String)
        ensures
            s@ == hex_lower(self.bytes()),
    {
        self.to_base16()
    }

    /// Creates a `FileId` from raw bytes; the same as [`FileId::from_raw`].
    pub fn from_slice(src: &[u8]) -> (id: FileId)
        ensures
            id.bytes() == raw_id_bytes(src@),
    {
        Self::from_raw(src)
    }
}

impl<'a> std::convert::From<&'a [u8]> for FileId {
    fn from(src: &'a [u8]) -> (id: FileId) {
        let id = FileId::from_raw(src);
        proof {
            let a = raw_array_of(raw_id_bytes(src@));
            assert(id.0@ == raw_id_bytes(src@));
            assert(a@ == raw_id_bytes(src@));
            assert(a =~= id.0);
        }
        id
    }
}

impl<'a> vstd::std_specs::convert::FromSpecImpl<&'a [u8]> for FileId {
    open spec fn obeys_from_spec() -> bool {
        true
    }

    open spec fn from_spec(src: &'a [u8]) -> FileId {
        FileId(raw_array_of(raw_id_bytes(src@)))
    }
}

/// The 20-byte array with the given contents.
pub open spec fn raw_array_of(bytes: Seq<u8>) -> [u8; 20] {
    choose|a: [u8; 20]| a@ == bytes
}

/// The hex rendering has two characters per byte.
pub proof fn lemma_hex_lower_len(bytes: Seq<u8>)
    ensures
        hex_lower(bytes).len() == 2 * bytes.len(),
    decreases bytes.len(),
{
    if bytes.len() > 0 {
        lemma_hex_lower_len(bytes.drop_last());
    }
}

/// Every nibble is written as its lowercase hex digit, `0`-`9` then `a`-`f`.
pub proof fn lemma_hex_digit_table()
    ensures
        hex_digit(0u8) == '0',
        hex_digit(1u8) == '1',
        hex_digit(2u8) == '2',
        hex_digit(3u8) == '3',
        hex_digit(4u8) == '4',
        hex_digit(5u8) == '5',
        hex_digit(6u8) == '6',
        hex_digit(7u8) == '7',
        hex_digit(8u8) == '8',
        hex_digit(9u8) == '9',
        hex_digit(10u8) == 'a',
        hex_digit(11u8) == 'b',
        hex_digit(12u8) == 'c',
        hex_digit(13u8) == 'd',
        hex_digit(14u8) == 'e',
        hex_digit(15u8) == 'f',
{
}

/// Each byte of an identifier is written as two hex digits, high nibble
/// first, so the text at `2i` and `2i + 1` is the digits of byte `i`.
pub proof fn lemma_hex_lower_digits(bytes: Seq<u8>, i: int)
    requires
        0 <= i < bytes.len(),
    ensures
        hex_lower(bytes)[2 * i] == hex_digit(bytes[i] / 16),
        hex_lower(bytes)[2 * i + 1] == hex_digit(bytes[i] % 16),
    decreases bytes.len(),
{
    lemma_hex_lower_len(bytes.drop_last());
    if i < bytes.len() - 1 {
        lemma_hex_lower_digits(bytes.drop_last(), i);
        assert(bytes.drop_last()[i] == bytes[i]);
    }
}

/// An identifier made from at most 20 bytes starts with those bytes and is
/// zero after them; one made from more than 20 bytes is all zeros.
pub proof fn lemma_raw_id_layout(src: Seq<u8>, i: int)
    requires
        0 <= i < 20,
    ensures
        raw_id_bytes(src).len() == 20,
        src.len() <= 20 && i < src.len() ==> raw_id_bytes(src)[i] == src[i],
        src.len() <= 20 && i >= src.len() ==> raw_id_bytes(src)[i] == 0,
        src.len() > 20 ==> raw_id_bytes(src)[i] == 0,
{
}

} // verus!
