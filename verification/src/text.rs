//! Small string helpers shared by the parsers and formatters of the crate.

use vstd::prelude::*;
use vstd::utf8::*;
use vstd::string::StringSliceAdditionalSpecFns;
use vstd::string::StringExecFns;

verus! {

broadcast use vstd::utf8::encode_utf8_decode_utf8;

/// Appends one character to a `String`.
///
/// Calls `String::push`; the contract claims that the new contents are the
/// old contents followed by `c`, as the documentation of `String::push` says.
#[verifier::external_body]
pub(crate) fn push_char(s: &mut String, c: char)
    ensures
        final(s)@ == old(s)@.push(c),
{
    s.push(c);
}

/// Byte-wise equality of two string slices, which is equality of their
/// character sequences.
pub fn str_eq(a: &str, b: &str) -> (r: bool)
    ensures
        r == (a@ == b@),
{
    let ab = a.as_bytes();
    let bb = b.as_bytes();
    if ab.len() != bb.len() {
        proof {
            if a@ == b@ {
                assert(a.spec_bytes() == b.spec_bytes());
            }
        }
        return false;
    }
    let mut i: usize = 0;
    while i < ab.len()
        invariant
            ab@ == a.spec_bytes(),
            bb@ == b.spec_bytes(),
            ab@.len() == bb@.len(),
            i <= ab@.len(),
            forall|j: int| 0 <= j < i ==> ab@[j] == bb@[j],
        decreases ab@.len() - i,
    {
        if ab[i] != bb[i] {
            proof {
                if a@ == b@ {
                    assert(a.spec_bytes() == b.spec_bytes());
                }
            }
            return false;
        }
        i = i + 1;
    }
    proof {
        assert(ab@ =~= bb@);
        assert(decode_utf8(encode_utf8(a@)) == a@);
        assert(decode_utf8(encode_utf8(b@)) == b@);
    }
    true
}

/// The decimal digit character for a value below 10.
pub open spec fn decimal_digit(d: nat) -> char {
    ((d + 48) as u8) as char
}

/// The decimal rendering of a natural number, without leading zeros.
pub open spec fn decimal(n: nat) -> Seq<char>
    decreases n,
{
    if n < 10 {
        seq![decimal_digit(n)]
    } else {
        decimal(n / 10) + seq![decimal_digit(n % 10)]
    }
}

/// Renders `n` in decimal.
pub fn u64_to_decimal(n: u64) -> (s: String)
    ensures
        s@ == decimal(n as nat),
    decreases n,
{
    if n < 10 {
        let mut s = String::new();
        push_char(&mut s, ((n as u8) + 48) as char);
        s
    } else {
        let mut s = u64_to_decimal(n / 10);
        push_char(&mut s, (((n % 10) as u8) + 48) as char);
        s
    }
}

/// The decimal rendering of an integer, with a leading `-` when negative.
pub open spec fn signed_decimal(n: int) -> Seq<char> {
    if n < 0 {
        seq!['-'] + decimal((-n) as nat)
    } else {
        decimal(n as nat)
    }
}

/// Renders `n` in decimal, with a leading `-` when negative.
pub fn i32_to_decimal(n: i32) -> (s: String)
    ensures
        s@ == signed_decimal(n as int),
{
    if n < 0 {
        let magnitude: i64 = -(n as i64);
        let digits = u64_to_decimal(magnitude as u64);
        let mut s = String::new();
        push_char(&mut s, '-');
        s.append(digits.as_str());
        s
    } else {
        u64_to_decimal(n as u64)
    }
}

/// What `{:?}` renders for a string: the string in double quotes, with the
/// characters that `char::escape_debug` escapes written escaped.
pub uninterp spec fn str_debug(s: Seq<char>) -> Seq<char>;

/// The debug rendering of a string.
///
/// Calls `format!("{:?}", s)` on the `str`. The result is named by
/// `str_debug`; nothing more is claimed of it.
#[verifier::external_body]
pub(crate) fn debug_str(s: &str) -> (r: String)
    ensures
        r@ == str_debug(s@),
{
    format!("{:?}", s)
}

/// Items separated by `", "`, as `{:?}` separates the items of a list.
pub open spec fn joined(items: Seq<Seq<char>>) -> Seq<char>
    decreases items.len(),
{
    if items.len() == 0 {
        Seq::empty()
    } else if items.len() == 1 {
        items[0]
    } else {
        joined(items.drop_last()) + seq![',', ' '] + items.last()
    }
}

/// Items in square brackets, separated by `", "`: the `{:?}` rendering of a
/// list whose items render as `items`.
pub open spec fn list_text(items: Seq<Seq<char>>) -> Seq<char> {
    seq!['['] + joined(items) + seq![']']
}

/// The `{:?}` rendering of a list of bytes: each byte in decimal.
pub open spec fn byte_list_text(b: Seq<u8>) -> Seq<char> {
    list_text(b.map_values(|x: u8| decimal(x as nat)))
}

/// Appending one more item to a list extends its joined text.
pub proof fn lemma_joined_push(items: Seq<Seq<char>>, i: int)
    requires
        0 <= i < items.len(),
    ensures
        joined(items.subrange(0, i + 1)) == if i == 0 {
            items[0]
        } else {
            joined(items.subrange(0, i)) + seq![',', ' '] + items[i]
        },
{
    let sub = items.subrange(0, i + 1);
    assert(sub.drop_last() =~= items.subrange(0, i));
    assert(sub.last() == items[i]);
}

/// Renders a list of bytes as `{:?}` does: `[1, 2, 3]`.
pub fn bytes_debug_text(b: &[u8]) -> (s: String)
    ensures
        s@ == byte_list_text(b@),
{
    let ghost items = b@.map_values(|x: u8| decimal(x as nat));
    let mut s = String::new();
    push_char(&mut s, '[');
    let mut i: usize = 0;
    while i < b.len()
        invariant
            i <= b@.len(),
            items == b@.map_values(|x: u8| decimal(x as nat)),
            s@ == seq!['['] + joined(items.subrange(0, i as int)),
        decreases b@.len() - i,
    {
        proof {
            lemma_joined_push(items, i as int);
        }
        if i > 0 {
            push_char(&mut s, ',');
            push_char(&mut s, ' ');
        }
        let d = u64_to_decimal(b[i] as u64);
        s.append(d.as_str());
        proof {
            assert(items[i as int] == decimal(b@[i as int] as nat));
            if i == 0 {
                assert(s@ =~= seq!['['] + joined(items.subrange(0, i + 1)));
            } else {
                assert(s@ =~= seq!['['] + joined(items.subrange(0, i + 1)));
            }
        }
        i = i + 1;
    }
    push_char(&mut s, ']');
    assert(items.subrange(0, b@.len() as int) =~= items);
    assert(s@ =~= byte_list_text(b@));
    s
}

/// Concatenation of two string slices into a new `String`.
pub fn concat_str(a: &str, b: &str) -> (s: String)
    ensures
        s@ == a@ + b@,
{
    let mut s = String::from_str(a);
    s.append(b);
    s
}

/// A character with ASCII `A`-`Z` mapped to `a`-`z`.
pub open spec fn ascii_lower_char(c: char) -> char {
    if 'A' <= c <= 'Z' {
        ((c as u32) + 32) as char
    } else {
        c
    }
}

/// A character with ASCII `a`-`z` mapped to `A`-`Z`.
pub open spec fn ascii_upper_char(c: char) -> char {
    if 'a' <= c <= 'z' {
        ((c as u32) - 32) as char
    } else {
        c
    }
}

/// A string with its ASCII letters lowercased.
pub open spec fn ascii_lowercase(s: Seq<char>) -> Seq<char> {
    Seq::new(s.len(), |i: int| ascii_lower_char(s[i]))
}

/// A string with its ASCII letters uppercased.
pub open spec fn ascii_uppercase(s: Seq<char>) -> Seq<char> {
    Seq::new(s.len(), |i: int| ascii_upper_char(s[i]))
}

/// What `str::to_lowercase` returns for a string: its lowercase equivalent
/// under the Unicode `Lowercase` property.
pub uninterp spec fn unicode_lowercase(s: Seq<char>) -> Seq<char>;

/// What `str::to_uppercase` returns for a string: its uppercase equivalent
/// under the Unicode `Uppercase` property.
pub uninterp spec fn unicode_uppercase(s: Seq<char>) -> Seq<char>;

/// The lowercase equivalent of a string.
///
/// Calls `str::to_lowercase`. Its result is named by `unicode_lowercase`;
/// the contract adds only that, on ASCII input, ASCII letters are lowercased
/// and all else is kept, as for `to_ascii_lowercase`.
#[verifier::external_body]
pub(crate) fn to_lowercase(s: &str) -> (r: String)
    ensures
        r@ == unicode_lowercase(s@),
        is_ascii_chars(s@) ==> r@ == ascii_lowercase(s@),
{
    s.to_lowercase()
}

/// The uppercase equivalent of a string.
///
/// Calls `str::to_uppercase`. Its result is named by `unicode_uppercase`;
/// the contract adds only that, on ASCII input, ASCII letters are uppercased
/// and all else is kept, as for `to_ascii_uppercase`.
#[verifier::external_body]
pub(crate) fn to_uppercase(s: &str) -> (r: String)
    ensures
        r@ == unicode_uppercase(s@),
        is_ascii_chars(s@) ==> r@ == ascii_uppercase(s@),
{
    s.to_uppercase()
}


/// The text of the `FromUtf8Error` that `String::from_utf8` gives for bytes
/// that are not valid UTF-8.
pub uninterp spec fn utf8_error_text(bytes: Seq<u8>) -> Seq<char>;

/// Converts bytes to a `String` when they are valid UTF-8.
///
/// Calls `String::from_utf8`. As its documentation says, it succeeds exactly
/// on valid UTF-8, with the characters that the bytes encode; on failure the
/// text of the error is returned, named by `utf8_error_text`.
#[verifier::external_body]
pub(crate) fn string_from_utf8(bytes: Vec<u8>) -> (r: Result<String, String>)
    ensures
        r is Ok <==> valid_utf8(bytes@),
        r matches Ok(s) ==> s@ == decode_utf8(bytes@),
        r matches Err(t) ==> t@ == utf8_error_text(bytes@),
{
    match String::from_utf8(bytes) {
        Ok(s) => Ok(s),
        Err(e) => Err(e.to_string()),
    }
}


/// Every decimal digit is written as its ASCII character.
pub proof fn lemma_decimal_digit_table()
    ensures
        decimal_digit(0nat) == '0',
        decimal_digit(1nat) == '1',
        decimal_digit(2nat) == '2',
        decimal_digit(3nat) == '3',
        decimal_digit(4nat) == '4',
        decimal_digit(5nat) == '5',
        decimal_digit(6nat) == '6',
        decimal_digit(7nat) == '7',
        decimal_digit(8nat) == '8',
        decimal_digit(9nat) == '9',
{
}

} // verus!
