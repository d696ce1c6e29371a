//! Decoding of the payloads that the dealer sends over its websocket.
//!
//! A message carries at most one payload value: base64 text or raw bytes,
//! which may be gzip-compressed as the `Transfer-Encoding` header says, or a
//! JSON value. A request carries base64 text that decodes, after the same
//! transfer decoding, to a UTF-8 JSON document.

use std::io::Read;

use base64::Engine;
use vstd::prelude::*;
use vstd::string::StringSliceAdditionalSpecFns;
use vstd::utf8::{decode_utf8, encode_utf8, valid_utf8};

use crate::error::{Error, ErrorKind};
use crate::text::{
    concat_str, debug_str, decimal, str_debug, str_eq, string_from_utf8, u64_to_decimal,
    utf8_error_text,
};

verus! {

/// Message headers: a map from header names to values.
#[derive(Clone, Debug)]
pub struct Headers {
    entries: Vec<(String, String)>,
}

/// The map that a list of entries builds, later entries replacing earlier
/// entries of the same name.
pub open spec fn entries_map(es: Seq<(String, String)>) -> Map<Seq<char>, Seq<char>>
    decreases es.len(),
{
    if es.len() == 0 {
        Map::empty()
    } else {
        entries_map(es.drop_last()).insert(es.last().0@, es.last().1@)
    }
}

impl View for Headers {
    type V = Map<Seq<char>, Seq<char>>;

    closed spec fn view(&self) -> Map<Seq<char>, Seq<char>> {
        entries_map(self.entries@)
    }
}

impl Headers {
    /// Headers with no entry.
    pub fn new() -> (h: Headers)
        ensures
            h@ == Map::<Seq<char>, Seq<char>>::empty(),
    {
        Headers { entries: Vec::new() }
    }

    /// Sets header `name` to `value`, replacing any earlier value.
    pub fn insert(&mut self, name: String, value: String)
        ensures
            final(self)@ == old(self)@.insert(name@, value@),
    {
        self.entries.push((name, value));
        assert(self.entries@.drop_last() =~= old(self).entries@);
    }

    /// The value of header `name`, if it is set.
    pub fn get(&self, name: &str) -> (r: Option<&String>)
        ensures
            match r {
                Some(v) => self@.contains_key(name@) && self@[name@] == v@,
                None => !self@.contains_key(name@),
            },
    {
        let mut i = self.entries.len();
        proof {
            lemma_entries_split(self.entries@, i as int);
            assert(self.entries@.subrange(i as int, i as int) =~= Seq::<(String, String)>::empty());
            assert(entries_map(Seq::<(String, String)>::empty()) == Map::<Seq<char>, Seq<char>>::empty());
        }
        while i > 0
            invariant
                i <= self.entries@.len(),
                entries_map(self.entries@) == entries_map(self.entries@.subrange(0, i as int))
                    .union_prefer_right(entries_map(self.entries@.subrange(i as int, self.entries@.len() as int))),
                !entries_map(self.entries@.subrange(i as int, self.entries@.len() as int)).contains_key(name@),
            decreases i,
        {
            proof {
                lemma_entries_split(self.entries@, i as int);
            }
            let e = &self.entries[i - 1];
            if str_eq(e.0.as_str(), name) {
                proof {
                    let pre = self.entries@.subrange(0, i as int);
                    assert(pre.drop_last() =~= self.entries@.subrange(0, i - 1));
                }
                return Some(&e.1);
            }
            proof {
                let es = self.entries@;
                let pre = es.subrange(0, i as int);
                assert(pre.drop_last() =~= es.subrange(0, i - 1));
                lemma_entries_prepend(es, i - 1);
            }
            i = i - 1;
        }
        assert(self.entries@.subrange(0, 0) =~= Seq::<(String, String)>::empty());
        None
    }
}

/// Reading a header after setting it gives the value set, and setting a
/// header leaves every other header as it was.
pub proof fn lemma_headers_read_after_insert(
    h: Headers,
    name: Seq<char>,
    value: Seq<char>,
    other: Seq<char>,
)
    requires
        other != name,
    ensures
        h@.insert(name, value).contains_key(name),
        h@.insert(name, value)[name] == value,
        h@.insert(name, value).contains_key(other) == h@.contains_key(other),
        h@.contains_key(other) ==> h@.insert(name, value)[other] == h@[other],
{
}

/// Splitting the entries into a prefix and a rest: the map of the whole is
/// the map of the prefix overridden by the map of the rest.
proof fn lemma_entries_split(es: Seq<(String, String)>, i: int)
    requires
        0 <= i <= es.len(),
    ensures
        entries_map(es) == entries_map(es.subrange(0, i)).union_prefer_right(
            entries_map(es.subrange(i, es.len() as int)),
        ),
    decreases es.len(),
{
    if i == es.len() {
        assert(es.subrange(0, i) =~= es);
        assert(es.subrange(i, es.len() as int) =~= Seq::<(String, String)>::empty());
        assert(entries_map(es).union_prefer_right(Map::empty()) =~= entries_map(es));
    } else {
        let d = es.drop_last();
        lemma_entries_split(d, i);
        assert(d.subrange(0, i) =~= es.subrange(0, i));
        let rest = es.subrange(i, es.len() as int);
        assert(rest.drop_last() =~= d.subrange(i, d.len() as int));
        assert(rest.last() == es.last());
        assert(entries_map(es) =~= entries_map(es.subrange(0, i)).union_prefer_right(
            entries_map(rest),
        ));
    }
}

/// The map of `es[j..]` is the single entry `es[j]` overridden by the map of
/// `es[j+1..]`.
proof fn lemma_entries_prepend(es: Seq<(String, String)>, j: int)
    requires
        0 <= j < es.len(),
    ensures
        entries_map(es.subrange(j, es.len() as int)) == map![es[j].0@ => es[j].1@].union_prefer_right(
            entries_map(es.subrange(j + 1, es.len() as int)),
        ),
{
    let s = es.subrange(j, es.len() as int);
    lemma_entries_split(s, 1);
    assert(s.subrange(0, 1).drop_last() =~= Seq::<(String, String)>::empty());
    assert(entries_map(Seq::<(String, String)>::empty()) == Map::<Seq<char>, Seq<char>>::empty());
    assert(s.subrange(0, 1).last() == es[j]);
    assert(entries_map(s.subrange(0, 1)) =~= map![es[j].0@ => es[j].1@]);
    assert(s.subrange(1, s.len() as int) =~= es.subrange(j + 1, es.len() as int));
}

/// The name of the header that says how a payload is encoded.
pub open spec fn transfer_encoding_header() -> Seq<char> {
    "Transfer-Encoding"@
}

/// Whether the headers say that a payload is gzip-compressed.
pub open spec fn is_gzip_encoded(headers: Map<Seq<char>, Seq<char>>) -> bool {
    headers.contains_key(transfer_encoding_header())
        && headers[transfer_encoding_header()] == "gzip"@
}

/// What decompressing `data` as gzip gives, as `flate2`'s `GzDecoder` reads
/// it to the end: the decompressed bytes, or the text of the I/O error where
/// it fails.
pub uninterp spec fn gzip_read(data: Seq<u8>) -> Result<Seq<u8>, Seq<char>>;

/// What decoding `input` as standard base64 (the `STANDARD` engine of the
/// `base64` crate: standard alphabet, canonical padding) gives: the decoded
/// bytes, or the text of the `DecodeError` where it fails.
pub uninterp spec fn base64_standard_decode(input: Seq<u8>) -> Result<Seq<u8>, Seq<char>>;

/// Decompresses gzip data to the end.
///
/// Calls `flate2::read::GzDecoder::read_to_end` on `data` with an empty
/// buffer. The bytes and the error's text are named by `gzip_read`; the
/// count that it returns is the number of bytes read into the buffer, which
/// started empty.
#[verifier::external_body]
fn gzip_read_to_end(data: &[u8]) -> (r: Result<(usize, Vec<u8>), String>)
    ensures
        match gzip_read(data@) {
            Ok(out) => r matches Ok((n, bytes)) && bytes@ == out && n == bytes@.len(),
            Err(text) => r matches Err(why) && why@ == text,
        },
{
    let mut gz = flate2::read::GzDecoder::new(data);
    let mut bytes = Vec::new();
    match gz.read_to_end(&mut bytes) {
        Ok(n) => Ok((n, bytes)),
        Err(e) => Err(e.to_string()),
    }
}

/// Decodes standard base64.
///
/// Calls `Engine::decode` of `base64::prelude::BASE64_STANDARD`. The result
/// and the error's text are named by `base64_standard_decode`.
#[verifier::external_body]
fn decode_base64(input: &[u8]) -> (r: Result<Vec<u8>, String>)
    ensures
        match base64_standard_decode(input@) {
            Ok(out) => r matches Ok(bytes) && bytes@ == out,
            Err(text) => r matches Err(why) && why@ == text,
        },
{
    match base64::prelude::BASE64_STANDARD.decode(input) {
        Ok(v) => Ok(v),
        Err(e) => Err(e.to_string()),
    }
}

/// The outcome of reading a gzip stream to the end.
///
/// A read whose count is the number of bytes read gives those bytes; a read
/// whose count does not match fails, and so does a failed read.
pub fn gzip_outcome(read: Result<(usize, Vec<u8>), String>) -> (r: Result<Vec<u8>, Error>)
    ensures
        match read {
            Ok((n, bytes)) => if n == bytes@.len() {
                r matches Ok(v) && v@ == bytes@
            } else {
                r matches Err(e) && e.kind == ErrorKind::FailedPrecondition && e.error@
                    == "read bytes mismatched with expected bytes"@
            },
            Err(why) => r matches Err(e) && e.kind == ErrorKind::FailedPrecondition && e.error@
                == "gzip decoding failed: "@ + why@,
        },
{
    match read {
        Ok((n, bytes)) => {
            if n == bytes.len() {
                Ok(bytes)
            } else {
                Err(Error::failed_precondition("read bytes mismatched with expected bytes"))
            }
        },
        Err(why) => {
            let text = concat_str("gzip decoding failed: ", why.as_str());
            Err(Error::failed_precondition(text.as_str()))
        },
    }
}

/// What the transfer decoding of `data` under `headers` gives: `data`
/// itself unless the headers say gzip, else its decompression, or a failure.
pub open spec fn transfer_decoded(
    headers: Map<Seq<char>, Seq<char>>,
    data: Seq<u8>,
    r: Result<Vec<u8>, Error>,
) -> bool {
    if !is_gzip_encoded(headers) {
        r matches Ok(v) && v@ == data
    } else {
        match gzip_read(data) {
            Ok(out) => r matches Ok(v) && v@ == out,
            Err(why) => r matches Err(e) && e.kind == ErrorKind::FailedPrecondition && e.error@
                == "gzip decoding failed: "@ + why,
        }
    }
}

/// Undoes the transfer encoding of a payload: gzip data is decompressed when
/// the `Transfer-Encoding` header is `gzip`, anything else is kept as it is.
pub fn handle_transfer_encoding(headers: &Headers, data: Vec<u8>) -> (r: Result<Vec<u8>, Error>)
    ensures
        transfer_decoded(headers@, data@, r),
{
    let gzip = match headers.get("Transfer-Encoding") {
        Some(encoding) => str_eq(encoding.as_str(), "gzip"),
        None => false,
    };
    if !gzip {
        return Ok(data);
    }
    let read = gzip_read_to_end(data.as_slice());
    gzip_outcome(read)
}

/// A raw payload value from a dealer websocket message.
#[derive(Clone, Debug)]
pub enum MessagePayloadValue {
    /// A string payload (base64-encoded bytes).
    String(String),
    /// Raw bytes.
    Bytes(Vec<u8>),
    /// A JSON payload, as JSON text.
    Json(String),
}

/// A decoded payload value.
#[derive(Clone, Debug)]
pub enum PayloadValue {
    /// No payload.
    Empty,
    /// Raw bytes.
    Raw(Vec<u8>),
    /// A JSON string.
    Json(String),
}

/// A decoded dealer message with headers, payload, and URI.
#[derive(Clone, Debug)]
pub struct Message {
    /// The message headers.
    pub headers: Headers,
    /// The decoded payload.
    pub payload: PayloadValue,
    /// The message URI.
    pub uri: String,
}

/// The lines of a byte list in `{:#?}` rendering at depth one: each byte on
/// its own line, indented by eight spaces and followed by a comma.
pub open spec fn pretty_byte_lines(b: Seq<u8>) -> Seq<char>
    decreases b.len(),
{
    if b.len() == 0 {
        Seq::empty()
    } else {
        pretty_byte_lines(b.drop_last()) + "        "@ + decimal(b.last() as nat) + ",\n"@
    }
}

/// The `{:#?}` rendering of a byte list nested one level deep: `[]` when
/// empty, else the bytes on their own lines and the closing bracket
/// indented by four spaces.
pub open spec fn pretty_byte_list(b: Seq<u8>) -> Seq<char> {
    if b.len() == 0 {
        "[]"@
    } else {
        "[\n"@ + pretty_byte_lines(b) + "    ]"@
    }
}

/// The `{:#?}` rendering of a payload value.
pub open spec fn payload_pretty(p: PayloadValue) -> Seq<char> {
    match p {
        PayloadValue::Empty => "Empty"@,
        PayloadValue::Raw(b) => "Raw(\n    "@ + pretty_byte_list(b@) + ",\n)"@,
        PayloadValue::Json(j) => "Json(\n    "@ + str_debug(j@) + ",\n)"@,
    }
}

/// The `{:#?}` rendering of a payload: `Empty`; `Raw(` with the bytes in a
/// list indented by four spaces, one byte per line indented by eight, or
/// `[]` when there are none; `Json(` with the quoted text indented by four.
pub proof fn lemma_payload_pretty_layout(p: PayloadValue)
    ensures
        p is Empty ==> payload_pretty(p) == "Empty"@,
        p matches PayloadValue::Raw(b) ==> payload_pretty(p) == "Raw(\n    "@ + (if b@.len() == 0 {
            "[]"@
        } else {
            "[\n"@ + pretty_byte_lines(b@) + "    ]"@
        }) + ",\n)"@,
        p matches PayloadValue::Json(j) ==> payload_pretty(p) == "Json(\n    "@ + str_debug(j@)
            + ",\n)"@,
        forall|b: Seq<u8>| b.len() > 0 ==> #[trigger] pretty_byte_lines(b) == pretty_byte_lines(
            b.drop_last(),
        ) + "        "@ + decimal(b.last() as nat) + ",\n"@,
{
}

/// The text of the error for a payload of the wrong variant.
pub open spec fn unexpected_data_text(p: PayloadValue) -> Seq<char> {
    "received unexpected data "@ + payload_pretty(p)
}

/// Renders a byte list nested one level deep as `{:#?}` does.
fn pretty_byte_list_text(b: &[u8]) -> (s: String)
    ensures
        s@ == pretty_byte_list(b@),
{
    if b.len() == 0 {
        return String::from_str("[]");
    }
    let mut s = String::from_str("[\n");
    let mut i: usize = 0;
    while i < b.len()
        invariant
            i <= b@.len(),
            s@ == "[\n"@ + pretty_byte_lines(b@.subrange(0, i as int)),
        decreases b@.len() - i,
    {
        s.append("        ");
        s.append(u64_to_decimal(b[i] as u64).as_str());
        s.append(",\n");
        proof {
            let sub = b@.subrange(0, i + 1);
            assert(sub.drop_last() =~= b@.subrange(0, i as int));
            assert(sub.last() == b@[i as int]);
            assert(s@ =~= "[\n"@ + pretty_byte_lines(sub));
        }
        i = i + 1;
    }
    s.append("    ]");
    assert(b@.subrange(0, b@.len() as int) =~= b@);
    assert(s@ =~= pretty_byte_list(b@));
    s
}

impl PayloadValue {
    /// The `{:#?}` rendering of this payload value.
    pub fn pretty_debug_text(&self) -> (s: String)
        ensures
            s@ == payload_pretty(*self),
    {
        match self {
            PayloadValue::Empty => String::from_str("Empty"),
            PayloadValue::Raw(b) => {
                let mut s = String::from_str("Raw(\n    ");
                s.append(pretty_byte_list_text(b.as_slice()).as_str());
                s.append(",\n)");
                s
            },
            PayloadValue::Json(j) => {
                let mut s = String::from_str("Json(\n    ");
                s.append(debug_str(j.as_str()).as_str());
                s.append(",\n)");
                s
            },
        }
    }
}

/// The error for a payload of the wrong variant.
fn unexpected_data(p: &PayloadValue) -> (e: Error)
    ensures
        e.kind == ErrorKind::Unavailable,
        e.error@ == unexpected_data_text(*p),
{
    let d = p.pretty_debug_text();
    let text = concat_str("received unexpected data ", d.as_str());
    Error::unavailable(text.as_str())
}

impl Message {
    /// The JSON text of the payload, which must be a JSON payload; any other
    /// payload is unexpected data and the service counts as unavailable.
    pub fn json_payload(value: Message) -> (r: Result<String, Error>)
        ensures
            match value.payload {
                PayloadValue::Json(j) => r matches Ok(s) && s@ == j@,
                _ => r matches Err(e) && e.kind == ErrorKind::Unavailable && e.error@
                    == unexpected_data_text(value.payload),
            },
    {
        match value.payload {
            PayloadValue::Json(json) => Ok(json),
            other => Err(unexpected_data(&other)),
        }
    }

    /// The bytes of the payload, which must be a raw payload; any other
    /// payload is unexpected data and the service counts as unavailable.
    pub fn raw_payload(value: Message) -> (r: Result<Vec<u8>, Error>)
        ensures
            match value.payload {
                PayloadValue::Raw(b) => r matches Ok(v) && v@ == b@,
                _ => r matches Err(e) && e.kind == ErrorKind::Unavailable && e.error@
                    == unexpected_data_text(value.payload),
            },
    {
        match value.payload {
            PayloadValue::Raw(bytes) => Ok(bytes),
            other => Err(unexpected_data(&other)),
        }
    }
}

/// A message as the dealer sends it over the websocket.
#[derive(Clone, Debug)]
pub struct WebsocketMessage {
    /// The message headers.
    pub headers: Headers,
    /// The message method, if any.
    pub method: Option<String>,
    /// The payload values.
    pub payloads: Vec<MessagePayloadValue>,
    /// The message URI.
    pub uri: String,
}

/// What decoding one payload value under `headers` gives.
pub open spec fn payload_decoded(
    headers: Map<Seq<char>, Seq<char>>,
    p: MessagePayloadValue,
    r: Result<PayloadValue, Error>,
) -> bool {
    match p {
        MessagePayloadValue::Json(j) => r matches Ok(PayloadValue::Json(s)) && s@ == j@,
        MessagePayloadValue::Bytes(b) => raw_decoded(headers, b@, r),
        MessagePayloadValue::String(s) => match base64_standard_decode(encode_utf8(s@)) {
            Ok(bytes) => raw_decoded(headers, bytes, r),
            Err(why) => r matches Err(e) && e.kind == ErrorKind::FailedPrecondition && e.error@
                == "base64 decoding failed: "@ + why,
        },
    }
}

/// What the transfer decoding of `data` gives, as a raw payload.
pub open spec fn raw_decoded(
    headers: Map<Seq<char>, Seq<char>>,
    data: Seq<u8>,
    r: Result<PayloadValue, Error>,
) -> bool {
    if !is_gzip_encoded(headers) {
        r matches Ok(PayloadValue::Raw(v)) && v@ == data
    } else {
        match gzip_read(data) {
            Ok(out) => r matches Ok(PayloadValue::Raw(v)) && v@ == out,
            Err(why) => r matches Err(e) && e.kind == ErrorKind::FailedPrecondition && e.error@
                == "gzip decoding failed: "@ + why,
        }
    }
}

/// The error for base64 text that does not decode.
fn base64_failure(why: &str) -> (e: Error)
    ensures
        e.kind == ErrorKind::FailedPrecondition,
        e.error@ == "base64 decoding failed: "@ + why@,
{
    let text = concat_str("base64 decoding failed: ", why);
    Error::failed_precondition(text.as_str())
}

impl WebsocketMessage {
    /// Decodes the payload of the message.
    ///
    /// No payload gives `Empty`; more than one payload value is refused.
    /// A single value is taken out of the message: JSON is kept as it is,
    /// base64 text is decoded, and bytes are transfer-decoded into a raw payload.
    pub fn handle_payload(&mut self) -> (r: Result<PayloadValue, Error>)
        ensures
            final(self).headers@ == old(self).headers@,
            final(self).uri@ == old(self).uri@,
            final(self).method == old(self).method,
            old(self).payloads@.len() == 0 ==> (r matches Ok(PayloadValue::Empty)
                && final(self).payloads@ == old(self).payloads@),
            old(self).payloads@.len() > 1 ==> (r matches Err(e) && e.kind
                == ErrorKind::FailedPrecondition && e.error@ == "payload had more then one value. had "@
                + decimal(old(self).payloads@.len()) + " values"@
                && final(self).payloads@ == old(self).payloads@),
            old(self).payloads@.len() == 1 ==> final(self).payloads@.len() == 0 && payload_decoded(
                old(self).headers@,
                old(self).payloads@[0],
                r,
            ),
    {
        if self.payloads.len() == 0 {
            return Ok(PayloadValue::Empty);
        } else if self.payloads.len() > 1 {
            let n = self.payloads.len();
            let mut text = concat_str(
                "payload had more then one value. had ",
                u64_to_decimal(n as u64).as_str(),
            );
            text = concat_str(text.as_str(), " values");
            return Err(Error::failed_precondition(text.as_str()));
        }
        let payload = match self.payloads.pop() {
            Some(p) => p,
            None => {
                return Err(Error::failed_precondition("payload was empty"));
            },
        };
        assert(self.payloads@ =~= Seq::<MessagePayloadValue>::empty());
        let bytes = match payload {
            MessagePayloadValue::String(string) => {
                match decode_base64(string.as_str().as_bytes()) {
                    Ok(b) => b,
                    Err(why) => {
                        return Err(base64_failure(why.as_str()));
                    },
                }
            },
            MessagePayloadValue::Bytes(bytes) => bytes,
            MessagePayloadValue::Json(json) => {
                return Ok(PayloadValue::Json(json));
            },
        };
        match handle_transfer_encoding(&self.headers, bytes) {
            Ok(raw) => Ok(PayloadValue::Raw(raw)),
            Err(e) => Err(e),
        }
    }
}

/// Transfer decoding keeps the data unless the `Transfer-Encoding` header
/// is exactly `gzip`, and then gives the gunzipped data or the gzip error.
pub proof fn lemma_transfer_decoding(
    headers: Map<Seq<char>, Seq<char>>,
    data: Seq<u8>,
    r: Result<Vec<u8>, Error>,
)
    requires
        transfer_decoded(headers, data, r),
    ensures
        !(headers.contains_key("Transfer-Encoding"@) && headers["Transfer-Encoding"@] == "gzip"@)
            ==> (r matches Ok(v) && v@ == data),
        headers.contains_key("Transfer-Encoding"@) && headers["Transfer-Encoding"@] == "gzip"@
            ==> match gzip_read(data) {
            Ok(out) => r matches Ok(v) && v@ == out,
            Err(why) => r matches Err(e) && e.kind == ErrorKind::FailedPrecondition && e.error@
                == "gzip decoding failed: "@ + why,
        },
{
    reveal_strlit("Transfer-Encoding");
    assert(transfer_encoding_header() =~= "Transfer-Encoding"@);
}

/// How one payload value of a websocket message is decoded. A JSON value
/// is kept as its text. Bytes are gunzipped exactly when the
/// `Transfer-Encoding` header is `gzip`, and kept as they are otherwise.
/// Base64 text is decoded, and its bytes are then handled as a bytes payload
/// holding them would be: gunzipped under the same header.
pub proof fn lemma_payload_decoding(
    headers: Map<Seq<char>, Seq<char>>,
    p: MessagePayloadValue,
    r: Result<PayloadValue, Error>,
    decoded: Seq<u8>,
    as_bytes: Vec<u8>,
)
    requires
        payload_decoded(headers, p, r),
    ensures
        p matches MessagePayloadValue::Json(j) ==> (r matches Ok(PayloadValue::Json(t)) && t@ == j@),
        p matches MessagePayloadValue::Bytes(x) ==> (!(headers.contains_key("Transfer-Encoding"@)
            && headers["Transfer-Encoding"@] == "gzip"@) ==> (r matches Ok(PayloadValue::Raw(v))
            && v@ == x@)),
        p matches MessagePayloadValue::Bytes(x) ==> (headers.contains_key("Transfer-Encoding"@)
            && headers["Transfer-Encoding"@] == "gzip"@ && gzip_read(x@) == Ok::<Seq<u8>, Seq<char>>(decoded)
            ==> (r matches Ok(PayloadValue::Raw(v)) && v@ == decoded)),
        p matches MessagePayloadValue::String(t) ==> (base64_standard_decode(encode_utf8(t@))
            == Ok::<Seq<u8>, Seq<char>>(decoded) && as_bytes@ == decoded ==> payload_decoded(
            headers,
            MessagePayloadValue::Bytes(as_bytes),
            r,
        )),
        p matches MessagePayloadValue::String(t) ==> (base64_standard_decode(encode_utf8(t@))
            == Ok::<Seq<u8>, Seq<char>>(decoded) && !(headers.contains_key("Transfer-Encoding"@)
            && headers["Transfer-Encoding"@] == "gzip"@) ==> (r matches Ok(PayloadValue::Raw(v))
            && v@ == decoded)),
        p matches MessagePayloadValue::String(t) ==> (base64_standard_decode(encode_utf8(t@))
            == Ok::<Seq<u8>, Seq<char>>(decoded) && headers.contains_key("Transfer-Encoding"@)
            && headers["Transfer-Encoding"@] == "gzip"@ ==> match gzip_read(decoded) {
            Ok(out) => r matches Ok(PayloadValue::Raw(v)) && v@ == out,
            Err(why) => r matches Err(e) && e.kind == ErrorKind::FailedPrecondition && e.error@
                == "gzip decoding failed: "@ + why,
        }),
{
    reveal_strlit("Transfer-Encoding");
    assert(transfer_encoding_header() =~= "Transfer-Encoding"@);
}

/// How the payload of a websocket request is decoded: its base64 text is
/// decoded, gunzipped exactly when the `Transfer-Encoding` header is `gzip`,
/// and read as UTF-8 text.
pub proof fn lemma_request_payload_decoding(
    headers: Map<Seq<char>, Seq<char>>,
    compressed: Seq<u8>,
    r: Result<String, Error>,
    decoded: Seq<u8>,
    text: Seq<u8>,
)
    requires
        request_payload_decoded(headers, compressed, r),
        base64_standard_decode(compressed) == Ok::<Seq<u8>, Seq<char>>(decoded),
        valid_utf8(text),
    ensures
        !(headers.contains_key("Transfer-Encoding"@) && headers["Transfer-Encoding"@] == "gzip"@)
            && text == decoded ==> (r matches Ok(s) && s@ == decode_utf8(text)),
        headers.contains_key("Transfer-Encoding"@) && headers["Transfer-Encoding"@] == "gzip"@
            && gzip_read(decoded) == Ok::<Seq<u8>, Seq<char>>(text) ==> (r matches Ok(s) && s@
            == decode_utf8(text)),
{
    reveal_strlit("Transfer-Encoding");
    assert(transfer_encoding_header() =~= "Transfer-Encoding"@);
}

/// The payload of a dealer request.
#[derive(Clone, Debug)]
pub struct Payload {
    /// The base64 text of the (possibly compressed) payload.
    pub compressed: String,
}

/// A request as the dealer sends it over the websocket.
#[derive(Clone, Debug)]
pub struct WebsocketRequest {
    /// The request headers.
    pub headers: Headers,
    /// The identifier of the message.
    pub message_ident: String,
    /// The key to reply with.
    pub key: String,
    /// The payload.
    pub payload: Payload,
}

/// What decoding the payload of a request gives: the base64 text decoded,
/// transfer-decoded, and read as UTF-8 JSON text.
pub open spec fn request_payload_decoded(
    headers: Map<Seq<char>, Seq<char>>,
    compressed: Seq<u8>,
    r: Result<String, Error>,
) -> bool {
    match base64_standard_decode(compressed) {
        Err(why) => r matches Err(e) && e.kind == ErrorKind::FailedPrecondition && e.error@
            == "base64 decoding failed: "@ + why,
        Ok(bytes) => {
            let transferred = if !is_gzip_encoded(headers) {
                Ok(bytes)
            } else {
                gzip_read(bytes)
            };
            match transferred {
                Err(why) => r matches Err(e) && e.kind == ErrorKind::FailedPrecondition && e.error@
                    == "gzip decoding failed: "@ + why,
                Ok(text) => if valid_utf8(text) {
                    r matches Ok(s) && s@ == decode_utf8(text)
                } else {
                    r matches Err(e) && e.kind == ErrorKind::FailedPrecondition && e.error@
                        == utf8_error_text(text)
                },
            }
        },
    }
}

impl WebsocketRequest {
    /// Decodes the payload of the request to its JSON text.
    pub fn handle_payload(&self) -> (r: Result<String, Error>)
        ensures
            request_payload_decoded(self.headers@, encode_utf8(self.payload.compressed@), r),
    {
        let payload_bytes = match decode_base64(self.payload.compressed.as_str().as_bytes()) {
            Ok(b) => b,
            Err(why) => {
                return Err(base64_failure(why.as_str()));
            },
        };
        let payload = match handle_transfer_encoding(&self.headers, payload_bytes) {
            Ok(p) => p,
            Err(e) => {
                return Err(e);
            },
        };
        match string_from_utf8(payload) {
            Ok(s) => Ok(s),
            Err(why) => Err(Error::failed_precondition(why.as_str())),
        }
    }
}

} // verus!
