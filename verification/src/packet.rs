//! Packet types of the Shannon-encrypted connection to the access point.
//!
//! Each [`PacketType`] has a one-byte command code on the wire;
//! [`PacketType::from_u8`] and [`PacketType::to_u8`] convert between the two.

use vstd::prelude::*;

verus! {

/// Spotify packet type definitions.
#[derive(Debug, Copy, Clone, PartialEq, Eq, Structural)]
pub enum PacketType {
    /// A secret block from the server.
    SecretBlock,
    /// Server keep-alive ping.
    Ping,
    /// Audio data chunk.
    StreamChunk,
    /// Audio data chunk response/acknowledgment.
    StreamChunkRes,
    /// Error on a data channel.
    ChannelError,
    /// Channel aborted by the server.
    ChannelAbort,
    /// Request for an audio decryption key.
    RequestKey,
    /// AES key response for audio decryption.
    AesKey,
    /// AES key error response.
    AesKeyError,
    /// Image data.
    Image,
    /// Country code of the user.
    CountryCode,
    /// Server keep-alive pong (unused, see PongAck).
    Pong,
    /// Acknowledgment of a client pong.
    PongAck,
    /// Pause playback command.
    Pause,
    /// Product information (premium status, etc.).
    ProductInfo,
    /// Legacy welcome message from the server.
    LegacyWelcome,
    /// License version information.
    LicenseVersion,
    /// Client login request.
    Login,
    /// Access point welcome after successful authentication.
    APWelcome,
    /// Authentication failure response.
    AuthFailure,
    /// Mercury request packet.
    MercuryReq,
    /// Mercury subscription packet.
    MercurySub,
    /// Mercury unsubscription packet.
    MercuryUnsub,
    /// Mercury event (push notification) packet.
    MercuryEvent,
    /// Track playback ended time tracking.
    TrackEndedTime,
    /// Unknown packet with all-zero payload.
    UnknownDataAllZeros,
    /// Preferred locale setting from the user.
    PreferredLocale,
    /// Unknown packet type (0x0f).
    Unknown0x0f,
    /// Unknown packet type (0x10).
    Unknown0x10,
    /// Unknown packet type (0x4f).
    Unknown0x4f,
    /// Unknown packet type (0xb6), possibly related to Mercury subscription errors.
    Unknown0xb6,
}

/// The command code of each packet type.
pub open spec fn packet_code(p: PacketType) -> u8 {
    match p {
        PacketType::SecretBlock => 0x02,
        PacketType::Ping => 0x04,
        PacketType::StreamChunk => 0x08,
        PacketType::StreamChunkRes => 0x09,
        PacketType::ChannelError => 0x0a,
        PacketType::ChannelAbort => 0x0b,
        PacketType::RequestKey => 0x0c,
        PacketType::AesKey => 0x0d,
        PacketType::AesKeyError => 0x0e,
        PacketType::Image => 0x19,
        PacketType::CountryCode => 0x1b,
        PacketType::Pong => 0x49,
        PacketType::PongAck => 0x4a,
        PacketType::Pause => 0x4b,
        PacketType::ProductInfo => 0x50,
        PacketType::LegacyWelcome => 0x69,
        PacketType::LicenseVersion => 0x76,
        PacketType::Login => 0xab,
        PacketType::APWelcome => 0xac,
        PacketType::AuthFailure => 0xad,
        PacketType::MercuryReq => 0xb2,
        PacketType::MercurySub => 0xb3,
        PacketType::MercuryUnsub => 0xb4,
        PacketType::MercuryEvent => 0xb5,
        PacketType::TrackEndedTime => 0x82,
        PacketType::UnknownDataAllZeros => 0x1f,
        PacketType::PreferredLocale => 0x74,
        PacketType::Unknown0x0f => 0x0f,
        PacketType::Unknown0x10 => 0x10,
        PacketType::Unknown0x4f => 0x4f,
        PacketType::Unknown0xb6 => 0xb6,
    }
}

/// The packet type with command code `c`, if there is one.
pub open spec fn packet_of_code(c: u8) -> Option<PacketType> {
    if c == 0x02 {
        Some(PacketType::SecretBlock)
    } else if c == 0x04 {
        Some(PacketType::Ping)
    } else if c == 0x08 {
        Some(PacketType::StreamChunk)
    } else if c == 0x09 {
        Some(PacketType::StreamChunkRes)
    } else if c == 0x0a {
        Some(PacketType::ChannelError)
    } else if c == 0x0b {
        Some(PacketType::ChannelAbort)
    } else if c == 0x0c {
        Some(PacketType::RequestKey)
    } else if c == 0x0d {
        Some(PacketType::AesKey)
    } else if c == 0x0e {
        Some(PacketType::AesKeyError)
    } else if c == 0x19 {
        Some(PacketType::Image)
    } else if c == 0x1b {
        Some(PacketType::CountryCode)
    } else if c == 0x49 {
        Some(PacketType::Pong)
    } else if c == 0x4a {
        Some(PacketType::PongAck)
    } else if c == 0x4b {
        Some(PacketType::Pause)
    } else if c == 0x50 {
        Some(PacketType::ProductInfo)
    } else if c == 0x69 {
        Some(PacketType::LegacyWelcome)
    } else if c == 0x76 {
        Some(PacketType::LicenseVersion)
    } else if c == 0xab {
        Some(PacketType::Login)
    } else if c == 0xac {
        Some(PacketType::APWelcome)
    } else if c == 0xad {
        Some(PacketType::AuthFailure)
    } else if c == 0xb2 {
        Some(PacketType::MercuryReq)
    } else if c == 0xb3 {
        Some(PacketType::MercurySub)
    } else if c == 0xb4 {
        Some(PacketType::MercuryUnsub)
    } else if c == 0xb5 {
        Some(PacketType::MercuryEvent)
    } else if c == 0x82 {
        Some(PacketType::TrackEndedTime)
    } else if c == 0x1f {
        Some(PacketType::UnknownDataAllZeros)
    } else if c == 0x74 {
        Some(PacketType::PreferredLocale)
    } else if c == 0x0f {
        Some(PacketType::Unknown0x0f)
    } else if c == 0x10 {
        Some(PacketType::Unknown0x10)
    } else if c == 0x4f {
        Some(PacketType::Unknown0x4f)
    } else if c == 0xb6 {
        Some(PacketType::Unknown0xb6)
    } else {
        None
    }
}

/// The name of each packet type, as it is shown in debug output.
pub open spec fn packet_name(p: PacketType) -> Seq<char> {
    match p {
        PacketType::SecretBlock => "SecretBlock"@,
        PacketType::Ping => "Ping"@,
        PacketType::StreamChunk => "StreamChunk"@,
        PacketType::StreamChunkRes => "StreamChunkRes"@,
        PacketType::ChannelError => "ChannelError"@,
        PacketType::ChannelAbort => "ChannelAbort"@,
        PacketType::RequestKey => "RequestKey"@,
        PacketType::AesKey => "AesKey"@,
        PacketType::AesKeyError => "AesKeyError"@,
        PacketType::Image => "Image"@,
        PacketType::CountryCode => "CountryCode"@,
        PacketType::Pong => "Pong"@,
        PacketType::PongAck => "PongAck"@,
        PacketType::Pause => "Pause"@,
        PacketType::ProductInfo => "ProductInfo"@,
        PacketType::LegacyWelcome => "LegacyWelcome"@,
        PacketType::LicenseVersion => "LicenseVersion"@,
        PacketType::Login => "Login"@,
        PacketType::APWelcome => "APWelcome"@,
        PacketType::AuthFailure => "AuthFailure"@,
        PacketType::MercuryReq => "MercuryReq"@,
        PacketType::MercurySub => "MercurySub"@,
        PacketType::MercuryUnsub => "MercuryUnsub"@,
        PacketType::MercuryEvent => "MercuryEvent"@,
        PacketType::TrackEndedTime => "TrackEndedTime"@,
        PacketType::UnknownDataAllZeros => "UnknownDataAllZeros"@,
        PacketType::PreferredLocale => "PreferredLocale"@,
        PacketType::Unknown0x0f => "Unknown0x0f"@,
        PacketType::Unknown0x10 => "Unknown0x10"@,
        PacketType::Unknown0x4f => "Unknown0x4f"@,
        PacketType::Unknown0xb6 => "Unknown0xb6"@,
    }
}

impl PacketType {
    /// The packet type with command code `c`, or `None` for a code that no
    /// packet type has.
    pub fn from_u8(c: u8) -> (r: Option<PacketType>)
        ensures
            r == packet_of_code(c),
    {
        match c {
            0x02 => Some(PacketType::SecretBlock),
            0x04 => Some(PacketType::Ping),
            0x08 => Some(PacketType::StreamChunk),
            0x09 => Some(PacketType::StreamChunkRes),
            0x0a => Some(PacketType::ChannelError),
            0x0b => Some(PacketType::ChannelAbort),
            0x0c => Some(PacketType::RequestKey),
            0x0d => Some(PacketType::AesKey),
            0x0e => Some(PacketType::AesKeyError),
            0x19 => Some(PacketType::Image),
            0x1b => Some(PacketType::CountryCode),
            0x49 => Some(PacketType::Pong),
            0x4a => Some(PacketType::PongAck),
            0x4b => Some(PacketType::Pause),
            0x50 => Some(PacketType::ProductInfo),
            0x69 => Some(PacketType::LegacyWelcome),
            0x76 => Some(PacketType::LicenseVersion),
            0xab => Some(PacketType::Login),
            0xac => Some(PacketType::APWelcome),
            0xad => Some(PacketType::AuthFailure),
            0xb2 => Some(PacketType::MercuryReq),
            0xb3 => Some(PacketType::MercurySub),
            0xb4 => Some(PacketType::MercuryUnsub),
            0xb5 => Some(PacketType::MercuryEvent),
            0x82 => Some(PacketType::TrackEndedTime),
            0x1f => Some(PacketType::UnknownDataAllZeros),
            0x74 => Some(PacketType::PreferredLocale),
            0x0f => Some(PacketType::Unknown0x0f),
            0x10 => Some(PacketType::Unknown0x10),
            0x4f => Some(PacketType::Unknown0x4f),
            0xb6 => Some(PacketType::Unknown0xb6),
            _ => None,
        }
    }

    /// The command code of this packet type.
    pub fn to_u8(&self) -> (c: u8)
        ensures
            c == packet_code(*self),
    {
        match self {
            PacketType::SecretBlock => 0x02,
            PacketType::Ping => 0x04,
            PacketType::StreamChunk => 0x08,
            PacketType::StreamChunkRes => 0x09,
            PacketType::ChannelError => 0x0a,
            PacketType::ChannelAbort => 0x0b,
            PacketType::RequestKey => 0x0c,
            PacketType::AesKey => 0x0d,
            PacketType::AesKeyError => 0x0e,
            PacketType::Image => 0x19,
            PacketType::CountryCode => 0x1b,
            PacketType::Pong => 0x49,
            PacketType::PongAck => 0x4a,
            PacketType::Pause => 0x4b,
            PacketType::ProductInfo => 0x50,
            PacketType::LegacyWelcome => 0x69,
            PacketType::LicenseVersion => 0x76,
            PacketType::Login => 0xab,
            PacketType::APWelcome => 0xac,
            PacketType::AuthFailure => 0xad,
            PacketType::MercuryReq => 0xb2,
            PacketType::MercurySub => 0xb3,
            PacketType::MercuryUnsub => 0xb4,
            PacketType::MercuryEvent => 0xb5,
            PacketType::TrackEndedTime => 0x82,
            PacketType::UnknownDataAllZeros => 0x1f,
            PacketType::PreferredLocale => 0x74,
            PacketType::Unknown0x0f => 0x0f,
            PacketType::Unknown0x10 => 0x10,
            PacketType::Unknown0x4f => 0x4f,
            PacketType::Unknown0xb6 => 0xb6,
        }
    }

    /// The name of this packet type, as it is shown in debug output.
    pub fn name(&self) -> (s: &'static str)
        ensures
            s@ == packet_name(*self),
    {
        match self {
            PacketType::SecretBlock => "SecretBlock",
            PacketType::Ping => "Ping",
            PacketType::StreamChunk => "StreamChunk",
            PacketType::StreamChunkRes => "StreamChunkRes",
            PacketType::ChannelError => "ChannelError",
            PacketType::ChannelAbort => "ChannelAbort",
            PacketType::RequestKey => "RequestKey",
            PacketType::AesKey => "AesKey",
            PacketType::AesKeyError => "AesKeyError",
            PacketType::Image => "Image",
            PacketType::CountryCode => "CountryCode",
            PacketType::Pong => "Pong",
            PacketType::PongAck => "PongAck",
            PacketType::Pause => "Pause",
            PacketType::ProductInfo => "ProductInfo",
            PacketType::LegacyWelcome => "LegacyWelcome",
            PacketType::LicenseVersion => "LicenseVersion",
            PacketType::Login => "Login",
            PacketType::APWelcome => "APWelcome",
            PacketType::AuthFailure => "AuthFailure",
            PacketType::MercuryReq => "MercuryReq",
            PacketType::MercurySub => "MercurySub",
            PacketType::MercuryUnsub => "MercuryUnsub",
            PacketType::MercuryEvent => "MercuryEvent",
            PacketType::TrackEndedTime => "TrackEndedTime",
            PacketType::UnknownDataAllZeros => "UnknownDataAllZeros",
            PacketType::PreferredLocale => "PreferredLocale",
            PacketType::Unknown0x0f => "Unknown0x0f",
            PacketType::Unknown0x10 => "Unknown0x10",
            PacketType::Unknown0x4f => "Unknown0x4f",
            PacketType::Unknown0xb6 => "Unknown0xb6",
        }
    }
}

/// The command code of every packet type, as the protocol's table fixes it,
/// and the packet type that each of those codes is read as.
pub proof fn lemma_packet_code_table()
    ensures
        packet_code(PacketType::SecretBlock) == 0x02u8,
        packet_code(PacketType::Ping) == 0x04u8,
        packet_code(PacketType::StreamChunk) == 0x08u8,
        packet_code(PacketType::StreamChunkRes) == 0x09u8,
        packet_code(PacketType::ChannelError) == 0x0au8,
        packet_code(PacketType::ChannelAbort) == 0x0bu8,
        packet_code(PacketType::RequestKey) == 0x0cu8,
        packet_code(PacketType::AesKey) == 0x0du8,
        packet_code(PacketType::AesKeyError) == 0x0eu8,
        packet_code(PacketType::Image) == 0x19u8,
        packet_code(PacketType::CountryCode) == 0x1bu8,
        packet_code(PacketType::Pong) == 0x49u8,
        packet_code(PacketType::PongAck) == 0x4au8,
        packet_code(PacketType::Pause) == 0x4bu8,
        packet_code(PacketType::ProductInfo) == 0x50u8,
        packet_code(PacketType::LegacyWelcome) == 0x69u8,
        packet_code(PacketType::LicenseVersion) == 0x76u8,
        packet_code(PacketType::Login) == 0xabu8,
        packet_code(PacketType::APWelcome) == 0xacu8,
        packet_code(PacketType::AuthFailure) == 0xadu8,
        packet_code(PacketType::MercuryReq) == 0xb2u8,
        packet_code(PacketType::MercurySub) == 0xb3u8,
        packet_code(PacketType::MercuryUnsub) == 0xb4u8,
        packet_code(PacketType::MercuryEvent) == 0xb5u8,
        packet_code(PacketType::TrackEndedTime) == 0x82u8,
        packet_code(PacketType::UnknownDataAllZeros) == 0x1fu8,
        packet_code(PacketType::PreferredLocale) == 0x74u8,
        packet_code(PacketType::Unknown0x0f) == 0x0fu8,
        packet_code(PacketType::Unknown0x10) == 0x10u8,
        packet_code(PacketType::Unknown0x4f) == 0x4fu8,
        packet_code(PacketType::Unknown0xb6) == 0xb6u8,
        packet_of_code(0x02u8) == Some(PacketType::SecretBlock),
        packet_of_code(0x04u8) == Some(PacketType::Ping),
        packet_of_code(0x08u8) == Some(PacketType::StreamChunk),
        packet_of_code(0x09u8) == Some(PacketType::StreamChunkRes),
        packet_of_code(0x0au8) == Some(PacketType::ChannelError),
        packet_of_code(0x0bu8) == Some(PacketType::ChannelAbort),
        packet_of_code(0x0cu8) == Some(PacketType::RequestKey),
        packet_of_code(0x0du8) == Some(PacketType::AesKey),
        packet_of_code(0x0eu8) == Some(PacketType::AesKeyError),
        packet_of_code(0x19u8) == Some(PacketType::Image),
        packet_of_code(0x1bu8) == Some(PacketType::CountryCode),
        packet_of_code(0x49u8) == Some(PacketType::Pong),
        packet_of_code(0x4au8) == Some(PacketType::PongAck),
        packet_of_code(0x4bu8) == Some(PacketType::Pause),
        packet_of_code(0x50u8) == Some(PacketType::ProductInfo),
        packet_of_code(0x69u8) == Some(PacketType::LegacyWelcome),
        packet_of_code(0x76u8) == Some(PacketType::LicenseVersion),
        packet_of_code(0xabu8) == Some(PacketType::Login),
        packet_of_code(0xacu8) == Some(PacketType::APWelcome),
        packet_of_code(0xadu8) == Some(PacketType::AuthFailure),
        packet_of_code(0xb2u8) == Some(PacketType::MercuryReq),
        packet_of_code(0xb3u8) == Some(PacketType::MercurySub),
        packet_of_code(0xb4u8) == Some(PacketType::MercuryUnsub),
        packet_of_code(0xb5u8) == Some(PacketType::MercuryEvent),
        packet_of_code(0x82u8) == Some(PacketType::TrackEndedTime),
        packet_of_code(0x1fu8) == Some(PacketType::UnknownDataAllZeros),
        packet_of_code(0x74u8) == Some(PacketType::PreferredLocale),
        packet_of_code(0x0fu8) == Some(PacketType::Unknown0x0f),
        packet_of_code(0x10u8) == Some(PacketType::Unknown0x10),
        packet_of_code(0x4fu8) == Some(PacketType::Unknown0x4f),
        packet_of_code(0xb6u8) == Some(PacketType::Unknown0xb6),
{
}

/// Reading back the command code of a packet type gives the packet type.
pub proof fn lemma_packet_code_roundtrip(p: PacketType)
    ensures
        packet_of_code(packet_code(p)) == Some(p),
{
}

/// A code that names a packet type is that packet type's code.
pub proof fn lemma_packet_of_code_inverse(c: u8)
    ensures
        packet_of_code(c) matches Some(p) ==> packet_code(p) == c,
{
}

/// Distinct packet types have distinct command codes.
pub proof fn lemma_packet_codes_distinct(a: PacketType, b: PacketType)
    ensures
        packet_code(a) == packet_code(b) ==> a == b,
{
    lemma_packet_code_roundtrip(a);
    lemma_packet_code_roundtrip(b);
}

/// The name of every packet type, as debug output shows it.
pub proof fn lemma_packet_name_table(v: PacketType)
    ensures
        v is SecretBlock ==> packet_name(v) == "SecretBlock"@,
        v is Ping ==> packet_name(v) == "Ping"@,
        v is StreamChunk ==> packet_name(v) == "StreamChunk"@,
        v is StreamChunkRes ==> packet_name(v) == "StreamChunkRes"@,
        v is ChannelError ==> packet_name(v) == "ChannelError"@,
        v is ChannelAbort ==> packet_name(v) == "ChannelAbort"@,
        v is RequestKey ==> packet_name(v) == "RequestKey"@,
        v is AesKey ==> packet_name(v) == "AesKey"@,
        v is AesKeyError ==> packet_name(v) == "AesKeyError"@,
        v is Image ==> packet_name(v) == "Image"@,
        v is CountryCode ==> packet_name(v) == "CountryCode"@,
        v is Pong ==> packet_name(v) == "Pong"@,
        v is PongAck ==> packet_name(v) == "PongAck"@,
        v is Pause ==> packet_name(v) == "Pause"@,
        v is ProductInfo ==> packet_name(v) == "ProductInfo"@,
        v is LegacyWelcome ==> packet_name(v) == "LegacyWelcome"@,
        v is LicenseVersion ==> packet_name(v) == "LicenseVersion"@,
        v is Login ==> packet_name(v) == "Login"@,
        v is APWelcome ==> packet_name(v) == "APWelcome"@,
        v is AuthFailure ==> packet_name(v) == "AuthFailure"@,
        v is MercuryReq ==> packet_name(v) == "MercuryReq"@,
        v is MercurySub ==> packet_name(v) == "MercurySub"@,
        v is MercuryUnsub ==> packet_name(v) == "MercuryUnsub"@,
        v is MercuryEvent ==> packet_name(v) == "MercuryEvent"@,
        v is TrackEndedTime ==> packet_name(v) == "TrackEndedTime"@,
        v is UnknownDataAllZeros ==> packet_name(v) == "UnknownDataAllZeros"@,
        v is PreferredLocale ==> packet_name(v) == "PreferredLocale"@,
        v is Unknown0x0f ==> packet_name(v) == "Unknown0x0f"@,
        v is Unknown0x10 ==> packet_name(v) == "Unknown0x10"@,
        v is Unknown0x4f ==> packet_name(v) == "Unknown0x4f"@,
        v is Unknown0xb6 ==> packet_name(v) == "Unknown0xb6"@,
{
}

} // verus!
