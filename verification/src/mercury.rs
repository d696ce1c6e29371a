//! Mercury request and response messages, and the binary encoding of a
//! request packet.
//!
//! A request packet is: the sequence number prefixed by its length, a flag
//! byte, the part count, the protobuf-encoded header prefixed by its size, and
//! each payload part prefixed by its length. All lengths are big-endian `u16`.

use vstd::prelude::*;
use vstd::string::StringSliceAdditionalSpecFns;
use vstd::utf8::encode_utf8;

use crate::error::{Error, ErrorKind, error_text};
use crate::packet::{PacketType, packet_name};
use crate::text::{
    byte_list_text, bytes_debug_text, concat_str, debug_str, decimal, i32_to_decimal, joined,
    lemma_joined_push, list_text, push_char, signed_decimal, str_debug, u64_to_decimal,
};

verus! {

/// Mercury request method.
#[derive(Debug, Clone, Copy, PartialEq, Eq, Structural)]
pub enum MercuryMethod {
    /// A GET request.
    Get,
    /// A SUB (subscribe) request.
    Sub,
    /// An UNSUB (unsubscribe) request.
    Unsub,
    /// A SEND request.
    Send,
}

/// The name of each method as it is written in a request header.
pub open spec fn method_name(m: MercuryMethod) -> Seq<char> {
    match m {
        MercuryMethod::Get => "GET"@,
        MercuryMethod::Sub => "SUB"@,
        MercuryMethod::Unsub => "UNSUB"@,
        MercuryMethod::Send => "SEND"@,
    }
}

/// The packet type that carries requests of each method.
pub open spec fn method_command(m: MercuryMethod) -> PacketType {
    match m {
        MercuryMethod::Get | MercuryMethod::Send => PacketType::MercuryReq,
        MercuryMethod::Sub => PacketType::MercurySub,
        MercuryMethod::Unsub => PacketType::MercuryUnsub,
    }
}

impl MercuryMethod {
    /// The name of this method, as it is displayed and sent.
    pub fn as_str(&self) -> (s: &'static str)
        ensures
            s@ == method_name(*self),
    {
        match self {
            MercuryMethod::Get => "GET",
            MercuryMethod::Sub => "SUB",
            MercuryMethod::Unsub => "UNSUB",
            MercuryMethod::Send => "SEND",
        }
    }

    /// The name of this method as a `String`.
    pub fn to_string(&self) -> (s: String)
        ensures
            s@ == method_name(*self),
    {
        String::from_str(self.as_str())
    }

    /// Returns the corresponding packet type for this method.
    pub fn command(&self) -> (p: PacketType)
        ensures
            p == method_command(*self),
    {
        match self {
            MercuryMethod::Get | MercuryMethod::Send => PacketType::MercuryReq,
            MercuryMethod::Sub => PacketType::MercurySub,
            MercuryMethod::Unsub => PacketType::MercuryUnsub,
        }
    }
}

/// Each Mercury method is written in a request header under its wire name,
/// `GET`, `SUB`, `UNSUB` or `SEND`; distinct methods have distinct names, and
/// `GET` and `SEND` go out as request packets, `SUB` as a subscription and
/// `UNSUB` as an unsubscription.
pub proof fn lemma_method_wire_names(a: MercuryMethod, b: MercuryMethod)
    ensures
        method_name(MercuryMethod::Get) == seq!['G', 'E', 'T'],
        method_name(MercuryMethod::Sub) == seq!['S', 'U', 'B'],
        method_name(MercuryMethod::Unsub) == seq!['U', 'N', 'S', 'U', 'B'],
        method_name(MercuryMethod::Send) == seq!['S', 'E', 'N', 'D'],
        method_name(a) == method_name(b) ==> a == b,
        method_command(MercuryMethod::Get) == PacketType::MercuryReq,
        method_command(MercuryMethod::Send) == PacketType::MercuryReq,
        method_command(MercuryMethod::Sub) == PacketType::MercurySub,
        method_command(MercuryMethod::Unsub) == PacketType::MercuryUnsub,
{
    reveal_strlit("GET");
    reveal_strlit("SUB");
    reveal_strlit("UNSUB");
    reveal_strlit("SEND");
    assert(method_name(MercuryMethod::Get) =~= seq!['G', 'E', 'T']);
    assert(method_name(MercuryMethod::Sub) =~= seq!['S', 'U', 'B']);
    assert(method_name(MercuryMethod::Unsub) =~= seq!['U', 'N', 'S', 'U', 'B']);
    assert(method_name(MercuryMethod::Send) =~= seq!['S', 'E', 'N', 'D']);
    if method_name(a) == method_name(b) {
        assert(method_name(a).len() == method_name(b).len());
        assert(method_name(a)[0] == method_name(b)[0]);
        assert(method_name(a)[1] == method_name(b)[1]);
    }
}

/// A Mercury request message.
#[derive(Debug)]
pub struct MercuryRequest {
    /// The request method.
    pub method: MercuryMethod,
    /// The target URI.
    pub uri: String,
    /// Optional content type.
    pub content_type: Option<String>,
    /// Request payload parts.
    pub payload: Vec<Vec<u8>>,
}

/// A Mercury response message.
#[derive(Debug, Clone)]
pub struct MercuryResponse {
    /// The response URI.
    pub uri: String,
    /// The HTTP-style status code.
    pub status_code: i32,
    /// Response payload parts.
    pub payload: Vec<Vec<u8>>,
}

/// Errors that can occur during Mercury operations.
#[derive(Debug)]
pub enum MercuryError {
    /// The callback receiver was disconnected.
    Channel,
    /// Error handling a specific packet type.
    Command(PacketType),
    /// Error handling a Mercury response.
    Response(MercuryResponse),
}

/// The LEB128 varint encoding of a natural number, as protobuf writes it:
/// seven bits per byte, least significant group first, high bit set on all
/// bytes but the last.
pub open spec fn varint(v: nat) -> Seq<u8>
    decreases v,
{
    if v < 128 {
        seq![v as u8]
    } else {
        seq![((v % 128) + 128) as u8] + varint(v / 128)
    }
}

/// The protobuf encoding of a length-delimited string field.
pub open spec fn pb_string_field(field: nat, s: Seq<char>) -> Seq<u8> {
    varint(field * 8 + 2) + varint(encode_utf8(s).len()) + encode_utf8(s)
}

/// A value as a big-endian `u16` (taken modulo 2^16).
pub open spec fn u16_be(v: int) -> Seq<u8> {
    seq![((v / 256) % 256) as u8, (v % 256) as u8]
}

/// The protobuf encoding of the Mercury header of a request: the URI (field
/// 1), the content type if there is one (field 2) and the method (field 3).
pub open spec fn header_bytes(
    method: MercuryMethod,
    uri: Seq<char>,
    content_type: Option<Seq<char>>,
) -> Seq<u8> {
    pb_string_field(1, uri) + match content_type {
        Some(c) => pb_string_field(2, c),
        None => Seq::<u8>::empty(),
    } + pb_string_field(3, method_name(method))
}

/// The payload parts, each prefixed by its length as a big-endian `u16`.
pub open spec fn payload_frames(parts: Seq<Seq<u8>>) -> Seq<u8>
    decreases parts.len(),
{
    if parts.len() == 0 {
        Seq::<u8>::empty()
    } else {
        payload_frames(parts.drop_last()) + u16_be(parts.last().len() as int) + parts.last()
    }
}

/// The largest encoded message that protobuf writes.
pub open spec fn max_message_size() -> int {
    0x7fff_ffff
}

impl MercuryRequest {
    /// The content type as a sequence, if there is one.
    pub open spec fn content_type_view(&self) -> Option<Seq<char>> {
        match self.content_type {
            Some(c) => Some(c@),
            None => None,
        }
    }

    /// The payload parts as sequences.
    pub open spec fn payload_view(&self) -> Seq<Seq<u8>> {
        self.payload@.map_values(|p: Vec<u8>| p@)
    }

    /// The encoded header of this request.
    pub open spec fn spec_header(&self) -> Seq<u8> {
        header_bytes(self.method, self.uri@, self.content_type_view())
    }

    /// The packet that `encode` produces for sequence number `seq`.
    pub open spec fn spec_packet(&self, seq: Seq<u8>) -> Seq<u8> {
        u16_be(seq.len() as int) + seq + seq![1u8] + u16_be(
            1 + (self.payload@.len() % 65536) as int,
        ) + u16_be(self.spec_header().len() as int) + self.spec_header() + payload_frames(
            self.payload_view(),
        )
    }

    /// The total byte length of the header strings.
    pub open spec fn header_text_len(&self) -> int {
        encode_utf8(self.uri@).len() + match self.content_type {
            Some(c) => encode_utf8(c@).len() as int,
            None => 0,
        } + encode_utf8(method_name(self.method)).len()
    }

    /// Encodes this request into a binary packet with the given sequence number.
    ///
    /// Fails, with a `FailedPrecondition` error, only when the encoded header
    /// would exceed the largest message size of protobuf.
    pub fn encode(&self, seq: &[u8]) -> (r: Result<Vec<u8>, Error>)
        requires
            (self.payload@.len() % 65536) != 65535,
            self.header_text_len() <= isize::MAX,
        ensures
            r is Ok <==> self.spec_header().len() <= max_message_size(),
            r matches Ok(packet) ==> packet@ == self.spec_packet(seq@),
            r matches Err(e) ==> e.kind == ErrorKind::FailedPrecondition && e.error@
                == "Encoded message size "@ + decimal(self.spec_header().len()) + " is too large"@,
    {
        let mut packet: Vec<u8> = Vec::new();
        let seq_len = seq.len();
        push_u16_be(&mut packet, #[verifier::truncate] (seq_len as u16));
        extend_bytes(&mut packet, seq);
        packet.push(1u8);
        let parts_len = self.payload.len();
        assert((parts_len as u16) as int == parts_len % 65536) by (bit_vector);
        let parts = #[verifier::truncate] (parts_len as u16);
        push_u16_be(&mut packet, 1 + parts);
        assert((seq_len as u16) as int == seq_len % 65536) by (bit_vector);
        let ghost before_header = packet@;
        assert(before_header == u16_be(seq@.len() as int) + seq@ + seq![1u8] + u16_be(
            1 + (self.payload@.len() % 65536) as int,
        )) by {
            lemma_u16_be_mod(seq@.len() as int);
        }

        let method = self.method.as_str();
        let size = self.header_size(method);
        push_u16_be(&mut packet, #[verifier::truncate] (size as u16));
        assert((size as u16) as int == size % 65536) by (bit_vector);
        proof {
            lemma_u16_be_mod(self.spec_header().len() as int);
        }
        if size > 0x7fff_ffff {
            let mut msg = concat_str("Encoded message size ", u64_to_decimal(size).as_str());
            msg = concat_str(msg.as_str(), " is too large");
            return Err(Error::new(ErrorKind::FailedPrecondition, msg.as_str()));
        }
        self.write_header(&mut packet, method);

        let mut i: usize = 0;
        let ghost start = packet@;
        while i < self.payload.len()
            invariant
                i <= self.payload@.len(),
                start == before_header + u16_be(self.spec_header().len() as int)
                    + self.spec_header(),
                packet@ == start + payload_frames(self.payload_view().subrange(0, i as int)),
            decreases self.payload@.len() - i,
        {
            let p = &self.payload[i];
            let p_len = p.len();
            push_u16_be(&mut packet, #[verifier::truncate] (p_len as u16));
            assert((p_len as u16) as int == p_len % 65536) by (bit_vector);
            proof {
                lemma_u16_be_mod(p@.len() as int);
            }
            extend_bytes(&mut packet, p.as_slice());
            assert(self.payload_view().subrange(0, i + 1).drop_last() =~= self.payload_view().subrange(
                0,
                i as int,
            ));
            i = i + 1;
        }
        assert(self.payload_view().subrange(0, self.payload@.len() as int) =~= self.payload_view());
        Ok(packet)
    }

    /// The encoded size of the header, computed as protobuf computes it.
    fn header_size(&self, method: &str) -> (n: u64)
        requires
            method@ == method_name(self.method),
            self.header_text_len() <= isize::MAX,
        ensures
            n == self.spec_header().len(),
    {
        proof {
            lemma_varint_len_bound(encode_utf8(self.uri@).len());
            lemma_varint_len_bound(encode_utf8(method@).len());
            if let Some(c) = &self.content_type {
                lemma_varint_len_bound(encode_utf8(c@).len());
            }
        }
        let ghost l1 = encode_utf8(self.uri@).len();
        let ghost l3 = encode_utf8(method@).len();
        assert(isize::MAX as int <= 0x7fff_ffff_ffff_ffff);
        assert(l1 + l3 <= self.header_text_len());
        let mut size = pb_string_size(1, self.uri.as_str());
        proof { lemma_tag_len(1); }
        assert(size <= l1 + l1 / 64 + 2);
        match &self.content_type {
            Some(c) => {
                let s2 = pb_string_size(2, c.as_str());
                proof { lemma_tag_len(2); }
                assert(s2 <= encode_utf8(c@).len() + encode_utf8(c@).len() / 64 + 2);
                assert(l1 + encode_utf8(c@).len() + l3 == self.header_text_len());
                size = size + s2;
            },
            None => {},
        }
        let s3 = pb_string_size(3, method);
        proof { lemma_tag_len(3); }
        assert(s3 <= l3 + l3 / 64 + 2);
        size = size + s3;
        size
    }

    /// Writes the header fields in field order, as protobuf writes them.
    fn write_header(&self, buf: &mut Vec<u8>, method: &str)
        requires
            method@ == method_name(self.method),
            self.spec_header().len() <= max_message_size(),
        ensures
            final(buf)@ == old(buf)@ + self.spec_header(),
    {
        pb_write_string(buf, 1, self.uri.as_str());
        match &self.content_type {
            Some(c) => {
                pb_write_string(buf, 2, c.as_str());
            },
            None => {},
        }
        pb_write_string(buf, 3, method);
        assert(final(buf)@ =~= old(buf)@ + self.spec_header());
    }
}

/// The value that a base-128 varint encodes: the low seven bits of each
/// byte, least significant group first.
pub open spec fn varint_value(b: Seq<u8>) -> nat
    decreases b.len(),
{
    if b.len() == 0 {
        0
    } else {
        (b[0] % 128) as nat + 128 * varint_value(b.drop_first())
    }
}

/// A varint reads back as the value it encodes; every byte but the last has
/// its high bit set, and the last has it clear.
pub proof fn lemma_varint_roundtrip(v: nat)
    ensures
        varint(v).len() >= 1,
        varint_value(varint(v)) == v,
        varint(v).last() < 128,
        forall|i: int| 0 <= i < varint(v).len() - 1 ==> #[trigger] varint(v)[i] >= 128,
    decreases v,
{
    if v >= 128 {
        lemma_varint_roundtrip(v / 128);
        let rest = varint(v / 128);
        let first = ((v % 128) + 128) as u8;
        let b = seq![first] + rest;
        assert(varint(v) == b);
        assert(b.drop_first() =~= rest);
        assert(b[0] == first);
        assert(first % 128 == v % 128);
        assert(varint_value(b) == (first % 128) as nat + 128 * varint_value(rest));
        assert(v == v % 128 + 128 * (v / 128));
        assert forall|i: int| 0 <= i < varint(v).len() - 1 implies #[trigger] varint(v)[i] >= 128 by {
            if i > 0 {
                assert(varint(v)[i] == rest[i - 1]);
            }
        }
    } else {
        let b = seq![v as u8];
        assert(b.drop_first() =~= Seq::<u8>::empty());
        assert(varint_value(b) == (b[0] % 128) as nat + 128 * varint_value(Seq::<u8>::empty()));
    }
}

/// A big-endian `u16` of a value below 2^16 reads back as that value.
pub proof fn lemma_u16_be_value(v: int)
    requires
        0 <= v < 65536,
    ensures
        u16_be(v).len() == 2,
        u16_be(v)[0] as int * 256 + u16_be(v)[1] as int == v,
{
}

/// The header of a request is the URI under tag `0x0a` (field 1), the
/// content type, if any, under tag `0x12` (field 2), and the method name
/// under tag `0x1a` (field 3), each prefixed by its byte length.
pub proof fn lemma_header_field_tags(m: MercuryMethod, uri: Seq<char>, ct: Option<Seq<char>>)
    ensures
        header_bytes(m, uri, ct) == seq![0x0au8] + varint(encode_utf8(uri).len())
            + encode_utf8(uri) + match ct {
            Some(c) => seq![0x12u8] + varint(encode_utf8(c).len()) + encode_utf8(c),
            None => Seq::<u8>::empty(),
        } + seq![0x1au8] + varint(encode_utf8(method_name(m)).len()) + encode_utf8(
            method_name(m),
        ),
{
    assert(varint(10) =~= seq![0x0au8]);
    assert(varint(18) =~= seq![0x12u8]);
    assert(varint(26) =~= seq![0x1au8]);
}

impl MercuryRequest {
    /// The packet of a request starts with the length of the sequence number
    /// and the sequence number itself, then the flag byte 1, then the number
    /// of parts: one for the header plus one per payload part.
    pub proof fn lemma_packet_prefix(&self, seq: Seq<u8>)
        requires
            seq.len() < 65536,
            self.payload@.len() < 65535,
        ensures
            self.spec_packet(seq)[0] as int * 256 + self.spec_packet(seq)[1] as int == seq.len(),
            self.spec_packet(seq).subrange(2, 2 + seq.len() as int) == seq,
            self.spec_packet(seq)[2 + seq.len() as int] == 1u8,
            self.spec_packet(seq)[3 + seq.len() as int] as int * 256 + self.spec_packet(seq)[4
                + seq.len() as int] as int == 1 + self.payload@.len(),
    {
        let p = self.spec_packet(seq);
        let n = seq.len() as int;
        lemma_u16_be_value(n);
        lemma_u16_be_value(1 + self.payload@.len() as int);
        assert(p.subrange(2, 2 + n) =~= seq);
    }
}

/// Appends `v` as a big-endian `u16`.
fn push_u16_be(buf: &mut Vec<u8>, v: u16)
    ensures
        final(buf)@ == old(buf)@ + u16_be(v as int),
{
    buf.push((v / 256) as u8);
    buf.push((v % 256) as u8);
    assert(final(buf)@ =~= old(buf)@ + u16_be(v as int));
}

/// Appends the bytes of `src`.
fn extend_bytes(buf: &mut Vec<u8>, src: &[u8])
    ensures
        final(buf)@ == old(buf)@ + src@,
{
    let mut i: usize = 0;
    let ghost start = buf@;
    while i < src.len()
        invariant
            i <= src@.len(),
            buf@ == start + src@.subrange(0, i as int),
        decreases src@.len() - i,
    {
        buf.push(src[i]);
        assert(src@.subrange(0, i + 1) =~= src@.subrange(0, i as int).push(src@[i as int]));
        i = i + 1;
    }
    assert(src@.subrange(0, src@.len() as int) =~= src@);
}

/// Taking a value modulo 2^16 first does not change its big-endian `u16`.
proof fn lemma_u16_be_mod(v: int)
    requires
        v >= 0,
    ensures
        u16_be(v % 65536) == u16_be(v),
{
    assert((v % 65536) / 256 % 256 == (v / 256) % 256) by (nonlinear_arith)
        requires
            v >= 0,
    ;
    assert((v % 65536) % 256 == v % 256) by (nonlinear_arith)
        requires
            v >= 0,
    ;
}

/// A varint is short next to the value it encodes.
proof fn lemma_varint_len_bound(v: nat)
    ensures
        varint(v).len() <= v / 64 + 1,
    decreases v,
{
    if v >= 128 {
        lemma_varint_len_bound(v / 128);
    }
}

/// The tag of fields 1 to 3 is one byte, whether or not the wire type is added.
proof fn lemma_tag_len(field: nat)
    requires
        1 <= field <= 3,
    ensures
        varint(field * 8).len() == 1,
        varint(field * 8 + 2).len() == 1,
{
}

/// The encoded size of a string field.
///
/// Calls `protobuf::rt::string_size`, which adds the varint length of the tag
/// `field_number << 3`, the varint length of the string's byte length, and
/// that byte length.
#[verifier::external_body]
fn pb_string_size(field_number: u32, s: &str) -> (n: u64)
    requires
        s.spec_bytes().len() <= isize::MAX,
    ensures
        n == varint(field_number as nat * 8).len() + varint(s.spec_bytes().len()).len()
            + s.spec_bytes().len(),
{
    protobuf::rt::string_size(field_number, s)
}

/// Writes a string field to the end of `buf`.
///
/// Calls `protobuf::CodedOutputStream::write_string` on a stream over `buf`,
/// then flushes it. The contract claims what its source shows: the tag
/// (field number shifted left by 3, or-ed with the length-delimited wire type
/// 2) and the byte length are written as varints, then the UTF-8 bytes. A
/// stream over a `Vec` reports no error, so the results are dropped.
#[verifier::external_body]
fn pb_write_string(buf: &mut Vec<u8>, field_number: u32, s: &str)
    requires
        1 <= field_number <= 0x1fff_ffff,
        s.spec_bytes().len() <= u32::MAX,
    ensures
        final(buf)@ == old(buf)@ + varint(field_number as nat * 8 + 2) + varint(
            s.spec_bytes().len(),
        ) + s.spec_bytes(),
{
    let mut os = protobuf::CodedOutputStream::vec(buf);
    let written = os.write_string(field_number, s);
    let flushed = os.flush();
    drop((written, flushed));
}

/// The `{:?}` rendering of a response whose URI renders as `uri_debug`:
/// `MercuryResponse { uri: .., status_code: .., payload: [[..], ..] }`.
pub open spec fn response_debug_with(uri_debug: Seq<char>, r: MercuryResponse) -> Seq<char> {
    "MercuryResponse { uri: "@ + uri_debug + ", status_code: "@ + signed_decimal(
        r.status_code as int,
    ) + ", payload: "@ + list_text(r.payload@.map_values(|p: Vec<u8>| byte_list_text(p@)))
        + " }"@
}

/// The `{:?}` rendering of a response.
pub open spec fn response_debug(r: MercuryResponse) -> Seq<char> {
    response_debug_with(str_debug(r.uri@), r)
}

/// A response is rendered as `MercuryResponse { uri: <uri>, status_code:
/// <code in decimal>, payload: [<parts>] }`, each part as a list of its
/// bytes in decimal.
pub proof fn lemma_response_debug_layout(uri_debug: Seq<char>, r: MercuryResponse)
    ensures
        response_debug_with(uri_debug, r) == "MercuryResponse { uri: "@ + uri_debug
            + ", status_code: "@ + signed_decimal(r.status_code as int) + ", payload: "@
            + list_text(r.payload@.map_values(|p: Vec<u8>| byte_list_text(p@))) + " }"@,
        list_text(r.payload@.map_values(|p: Vec<u8>| byte_list_text(p@)))[0] == '[',
{
}

/// The text of a Mercury error.
pub open spec fn mercury_error_text(err: MercuryError) -> Seq<char> {
    match err {
        MercuryError::Channel => "callback receiver was disconnected"@,
        MercuryError::Command(p) => "error handling packet type: "@ + packet_name(p),
        MercuryError::Response(r) => "error handling Mercury response: "@ + response_debug(r),
    }
}

/// The kind of error that each Mercury error becomes.
pub open spec fn mercury_error_kind(err: MercuryError) -> ErrorKind {
    match err {
        MercuryError::Channel => ErrorKind::Aborted,
        MercuryError::Command(_) => ErrorKind::Unimplemented,
        MercuryError::Response(_) => ErrorKind::Unavailable,
    }
}

/// Renders payload parts as `{:?}` renders a list of byte lists.
fn parts_debug_text(parts: &Vec<Vec<u8>>) -> (s: String)
    ensures
        s@ == list_text(parts@.map_values(|p: Vec<u8>| byte_list_text(p@))),
{
    let ghost items = parts@.map_values(|p: Vec<u8>| byte_list_text(p@));
    let mut s = String::new();
    push_char(&mut s, '[');
    let mut i: usize = 0;
    while i < parts.len()
        invariant
            i <= parts@.len(),
            items == parts@.map_values(|p: Vec<u8>| byte_list_text(p@)),
            s@ == seq!['['] + joined(items.subrange(0, i as int)),
        decreases parts@.len() - i,
    {
        proof {
            lemma_joined_push(items, i as int);
        }
        if i > 0 {
            push_char(&mut s, ',');
            push_char(&mut s, ' ');
        }
        let d = bytes_debug_text(parts[i].as_slice());
        s.append(d.as_str());
        proof {
            assert(items[i as int] == byte_list_text(parts@[i as int]@));
            assert(s@ =~= seq!['['] + joined(items.subrange(0, i + 1)));
        }
        i = i + 1;
    }
    push_char(&mut s, ']');
    assert(items.subrange(0, parts@.len() as int) =~= items);
    assert(s@ =~= list_text(items));
    s
}

impl MercuryResponse {
    /// The `{:?}` rendering of this response, given that of its URI.
    pub fn debug_text_with(&self, uri_debug: &str) -> (s: String)
        ensures
            s@ == response_debug_with(uri_debug@, *self),
    {
        let mut s = String::from_str("MercuryResponse { uri: ");
        s.append(uri_debug);
        s.append(", status_code: ");
        s.append(i32_to_decimal(self.status_code).as_str());
        s.append(", payload: ");
        s.append(parts_debug_text(&self.payload).as_str());
        s.append(" }");
        assert(s@ =~= response_debug_with(uri_debug@, *self));
        s
    }

    /// The `{:?}` rendering of this response.
    pub fn debug_text(&self) -> (s: String)
        ensures
            s@ == response_debug(*self),
    {
        let uri = debug_str(self.uri.as_str());
        self.debug_text_with(uri.as_str())
    }
}

impl MercuryError {
    /// The text of this error, as it is displayed.
    pub fn to_string(&self) -> (s: String)
        ensures
            s@ == mercury_error_text(*self),
    {
        match self {
            MercuryError::Channel => String::from_str("callback receiver was disconnected"),
            MercuryError::Command(p) => concat_str("error handling packet type: ", p.name()),
            MercuryError::Response(r) => {
                let d = r.debug_text();
                concat_str("error handling Mercury response: ", d.as_str())
            },
        }
    }
}

impl Error {
    /// The error that a Mercury error becomes: a disconnected channel aborts,
    /// an unhandled packet type is unimplemented, a failed response means the
    /// service is unavailable. The error carries the Mercury error's text.
    pub fn from_mercury(err: MercuryError) -> (e: Error)
        ensures
            e.kind == mercury_error_kind(err),
            e.error@ == mercury_error_text(err),
    {
        let text = err.to_string();
        match err {
            MercuryError::Channel => Error::aborted(text.as_str()),
            MercuryError::Command(_) => Error::unimplemented(text.as_str()),
            MercuryError::Response(_) => Error::unavailable(text.as_str()),
        }
    }
}

/// A disconnected channel aborts, an unhandled packet type is unimplemented, and a failed response makes the service unavailable.
pub proof fn lemma_mercury_error_kinds(v: MercuryError)
    ensures
        v is Channel ==> mercury_error_kind(v) == ErrorKind::Aborted,
        v is Command ==> mercury_error_kind(v) == ErrorKind::Unimplemented,
        v is Response ==> mercury_error_kind(v) == ErrorKind::Unavailable,
{
}

} // verus!
