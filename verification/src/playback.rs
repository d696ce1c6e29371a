//! Playback settings parsed from names, and the errors of the decoders.

use vstd::prelude::*;
use vstd::utf8::is_ascii_chars;
use crate::error::{Error, ErrorKind};
use crate::text::{
    ascii_lowercase, ascii_uppercase, concat_str, decimal, str_eq, to_lowercase, to_uppercase,
    unicode_lowercase, unicode_uppercase,
};

verus! {

/// Audio bitrate setting for playback.
#[derive(Clone, Copy, Debug, Hash, PartialEq, Eq, Structural)]
pub enum Bitrate {
    /// 96 kbps.
    Bitrate96,
    /// 160 kbps.
    Bitrate160,
    /// 320 kbps.
    Bitrate320,
}

/// The rate of each setting in kbps.
pub open spec fn bitrate_kbps(b: Bitrate) -> nat {
    match b {
        Bitrate::Bitrate96 => 96,
        Bitrate::Bitrate160 => 160,
        Bitrate::Bitrate320 => 320,
    }
}

/// The setting that a name stands for: the rate in kbps, written in decimal.
pub open spec fn bitrate_of_name(s: Seq<char>) -> Option<Bitrate> {
    if s == "96"@ {
        Some(Bitrate::Bitrate96)
    } else if s == "160"@ {
        Some(Bitrate::Bitrate160)
    } else if s == "320"@ {
        Some(Bitrate::Bitrate320)
    } else {
        None
    }
}

impl Bitrate {
    /// Parses a bitrate from its rate in kbps: exactly `96`, `160` or `320`.
    pub fn parse(s: &str) -> (r: Result<Bitrate, ()>)
        ensures
            r == match bitrate_of_name(s@) {
                Some(b) => Ok::<Bitrate, ()>(b),
                None => Err(()),
            },
    {
        if str_eq(s, "96") {
            return Ok(Bitrate::Bitrate96);
        }
        if str_eq(s, "160") {
            return Ok(Bitrate::Bitrate160);
        }
        if str_eq(s, "320") {
            return Ok(Bitrate::Bitrate320);
        }
        Err(())
    }
}

impl Default for Bitrate {
    /// 160 kbps.
    fn default() -> (b: Bitrate)
        ensures
            b == Bitrate::Bitrate160,
    {
        Bitrate::Bitrate160
    }
}

impl std::str::FromStr for Bitrate {
    type Err = ();

    fn from_str(s: &str) -> (r: Result<Bitrate, ()>)
        ensures
            r == match bitrate_of_name(s@) {
                Some(b) => Ok::<Bitrate, ()>(b),
                None => Err(()),
            },
    {
        Bitrate::parse(s)
    }
}

/// The rate of a setting, written in decimal, parses back to that setting.
pub proof fn lemma_bitrate_parse_kbps(b: Bitrate)
    ensures
        bitrate_of_name(decimal(bitrate_kbps(b))) == Some(b),
{
    reveal_strlit("96");
    reveal_strlit("160");
    reveal_strlit("320");
    reveal_with_fuel(decimal, 3);
    match b {
        Bitrate::Bitrate96 => {
            assert(decimal(96) =~= "96"@);
        },
        Bitrate::Bitrate160 => {
            assert(decimal(160) =~= "160"@);
            assert("160"@.len() != "96"@.len());
        },
        Bitrate::Bitrate320 => {
            assert(decimal(320) =~= "320"@);
            assert("320"@.len() != "96"@.len());
            assert("320"@[0] != "160"@[0]);
        },
    }
}

/// Output audio format for sample conversion.
#[allow(non_camel_case_types)]
#[derive(Clone, Copy, Debug, Hash, PartialEq, Eq, Structural)]
pub enum AudioFormat {
    /// 64-bit floating point.
    F64,
    /// 32-bit floating point.
    F32,
    /// 32-bit signed integer.
    S32,
    /// 24-bit signed integer packed in a 32-bit word.
    S24,
    /// 24-bit signed integer in three bytes.
    S24_3,
    /// 16-bit signed integer.
    S16,
}

/// The name of each format.
pub open spec fn format_name(f: AudioFormat) -> Seq<char> {
    match f {
        AudioFormat::F64 => "F64"@,
        AudioFormat::F32 => "F32"@,
        AudioFormat::S32 => "S32"@,
        AudioFormat::S24 => "S24"@,
        AudioFormat::S24_3 => "S24_3"@,
        AudioFormat::S16 => "S16"@,
    }
}

/// The format that an uppercase name stands for.
pub open spec fn format_of_upper_name(s: Seq<char>) -> Option<AudioFormat> {
    if s == "F64"@ {
        Some(AudioFormat::F64)
    } else if s == "F32"@ {
        Some(AudioFormat::F32)
    } else if s == "S32"@ {
        Some(AudioFormat::S32)
    } else if s == "S24"@ {
        Some(AudioFormat::S24)
    } else if s == "S24_3"@ {
        Some(AudioFormat::S24_3)
    } else if s == "S16"@ {
        Some(AudioFormat::S16)
    } else {
        None
    }
}

/// The size in bytes of one sample of each format: 8 for `F64`, 4 for
/// `F32`, `S32` and `S24` (both stored in 32 bits), 3 for `S24_3`, 2 for `S16`.
pub open spec fn format_size(f: AudioFormat) -> nat {
    match f {
        AudioFormat::F64 => 8,
        AudioFormat::F32 => 4,
        AudioFormat::S32 => 4,
        AudioFormat::S24 => 4,
        AudioFormat::S24_3 => 3,
        AudioFormat::S16 => 2,
    }
}

impl AudioFormat {
    /// The format that the uppercase name `s` stands for, or `Err(())`.
    pub fn from_uppercase(s: &str) -> (r: Result<AudioFormat, ()>)
        ensures
            r == match format_of_upper_name(s@) {
                Some(f) => Ok::<AudioFormat, ()>(f),
                None => Err(()),
            },
    {
        if str_eq(s, "F64") {
            return Ok(AudioFormat::F64);
        }
        if str_eq(s, "F32") {
            return Ok(AudioFormat::F32);
        }
        if str_eq(s, "S32") {
            return Ok(AudioFormat::S32);
        }
        if str_eq(s, "S24") {
            return Ok(AudioFormat::S24);
        }
        if str_eq(s, "S24_3") {
            return Ok(AudioFormat::S24_3);
        }
        if str_eq(s, "S16") {
            return Ok(AudioFormat::S16);
        }
        Err(())
    }

    /// Parses a format from its name, ignoring case.
    pub fn parse(s: &str) -> (r: Result<AudioFormat, ()>)
        ensures
            r == match format_of_upper_name(unicode_uppercase(s@)) {
                Some(f) => Ok::<AudioFormat, ()>(f),
                None => Err(()),
            },
            is_ascii_chars(s@) ==> r == match format_of_upper_name(ascii_uppercase(s@)) {
                Some(f) => Ok::<AudioFormat, ()>(f),
                None => Err(()),
            },
    {
        let upper = to_uppercase(s);
        Self::from_uppercase(upper.as_str())
    }

    /// The size in bytes of a single sample in this format.
    pub fn size(&self) -> (n: usize)
        ensures
            n == format_size(*self),
    {
        match self {
            AudioFormat::F64 => 8,
            AudioFormat::F32 => 4,
            AudioFormat::S24_3 => 3,
            AudioFormat::S16 => 2,
            _ => 4,
        }
    }
}

impl Default for AudioFormat {
    /// 16-bit signed integer samples.
    fn default() -> (f: AudioFormat)
        ensures
            f == AudioFormat::S16,
    {
        AudioFormat::S16
    }
}

impl std::str::FromStr for AudioFormat {
    type Err = ();

    fn from_str(s: &str) -> (r: Result<AudioFormat, ()>)
        ensures
            r == match format_of_upper_name(unicode_uppercase(s@)) {
                Some(f) => Ok::<AudioFormat, ()>(f),
                None => Err(()),
            },
            is_ascii_chars(s@) ==> r == match format_of_upper_name(ascii_uppercase(s@)) {
                Some(f) => Ok::<AudioFormat, ()>(f),
                None => Err(()),
            },
    {
        AudioFormat::parse(s)
    }
}

/// The name of every format, in any mix of ASCII case, parses back to it;
/// the names are ASCII, so the ASCII clause of `AudioFormat::parse` and
/// `from_str` applies to them.
pub proof fn lemma_format_parse_name(f: AudioFormat)
    ensures
        is_ascii_chars(format_name(f)),
        format_of_upper_name(ascii_uppercase(format_name(f))) == Some(f),
        format_of_upper_name(ascii_uppercase(ascii_lowercase(format_name(f)))) == Some(f),
{
    reveal_strlit("F64");
    reveal_strlit("F32");
    reveal_strlit("S32");
    reveal_strlit("S24");
    reveal_strlit("S24_3");
    reveal_strlit("S16");
    let n = format_name(f);
    assert(ascii_uppercase(n) =~= n);
    assert(ascii_uppercase(ascii_lowercase(n)) =~= n);
    assert("F64"@[1] != "F32"@[1]);
    assert("S32"@[1] != "S24"@[1]);
    assert("S32"@[1] != "S16"@[1]);
    assert("S24"@[1] != "S16"@[1]);
    assert("S24_3"@.len() != "S24"@.len());
    assert("S24_3"@.len() != "S32"@.len());
    assert("S24_3"@.len() != "S16"@.len());
    assert("F64"@[0] != "S32"@[0]);
    assert("F32"@[0] != "S32"@[0]);
    assert("F64"@.len() != "S24_3"@.len());
    assert("F32"@.len() != "S24_3"@.len());
}

/// Which gain values volume normalisation uses.
#[derive(Clone, Copy, Debug, PartialEq, Eq, Structural)]
pub enum NormalisationType {
    /// Album-level gain values.
    Album,
    /// Track-level gain values.
    Track,
    /// Chosen between track and album by context.
    Auto,
}

/// The normalisation type that a lowercase name stands for.
pub open spec fn normalisation_type_of_lower_name(s: Seq<char>) -> Option<NormalisationType> {
    if s == "album"@ {
        Some(NormalisationType::Album)
    } else if s == "track"@ {
        Some(NormalisationType::Track)
    } else if s == "auto"@ {
        Some(NormalisationType::Auto)
    } else {
        None
    }
}

impl NormalisationType {
    /// The normalisation type that the lowercase name `s` stands for.
    pub fn from_lowercase(s: &str) -> (r: Result<NormalisationType, ()>)
        ensures
            r == match normalisation_type_of_lower_name(s@) {
                Some(t) => Ok::<NormalisationType, ()>(t),
                None => Err(()),
            },
    {
        if str_eq(s, "album") {
            return Ok(NormalisationType::Album);
        }
        if str_eq(s, "track") {
            return Ok(NormalisationType::Track);
        }
        if str_eq(s, "auto") {
            return Ok(NormalisationType::Auto);
        }
        Err(())
    }

    /// Parses a normalisation type from its name, ignoring case.
    pub fn parse(s: &str) -> (r: Result<NormalisationType, ()>)
        ensures
            r == match normalisation_type_of_lower_name(unicode_lowercase(s@)) {
                Some(t) => Ok::<NormalisationType, ()>(t),
                None => Err(()),
            },
            is_ascii_chars(s@) ==> r == match normalisation_type_of_lower_name(ascii_lowercase(s@)) {
                Some(t) => Ok::<NormalisationType, ()>(t),
                None => Err(()),
            },
    {
        let lower = to_lowercase(s);
        Self::from_lowercase(lower.as_str())
    }
}

impl Default for NormalisationType {
    /// Chosen by context.
    fn default() -> (t: NormalisationType)
        ensures
            t == NormalisationType::Auto,
    {
        NormalisationType::Auto
    }
}

impl std::str::FromStr for NormalisationType {
    type Err = ();

    fn from_str(s: &str) -> (r: Result<NormalisationType, ()>)
        ensures
            r == match normalisation_type_of_lower_name(unicode_lowercase(s@)) {
                Some(t) => Ok::<NormalisationType, ()>(t),
                None => Err(()),
            },
            is_ascii_chars(s@) ==> r == match normalisation_type_of_lower_name(ascii_lowercase(s@)) {
                Some(t) => Ok::<NormalisationType, ()>(t),
                None => Err(()),
            },
    {
        NormalisationType::parse(s)
    }
}

/// How volume normalisation applies its gain.
#[derive(Clone, Copy, Debug, PartialEq, Eq, Structural)]
pub enum NormalisationMethod {
    /// Plain gain with peak limiting.
    Basic,
    /// Dynamic range compression with a soft-knee limiter.
    Dynamic,
}

/// The normalisation method that a lowercase name stands for.
pub open spec fn normalisation_method_of_lower_name(s: Seq<char>) -> Option<NormalisationMethod> {
    if s == "basic"@ {
        Some(NormalisationMethod::Basic)
    } else if s == "dynamic"@ {
        Some(NormalisationMethod::Dynamic)
    } else {
        None
    }
}

impl NormalisationMethod {
    /// The normalisation method that the lowercase name `s` stands for.
    pub fn from_lowercase(s: &str) -> (r: Result<NormalisationMethod, ()>)
        ensures
            r == match normalisation_method_of_lower_name(s@) {
                Some(m) => Ok::<NormalisationMethod, ()>(m),
                None => Err(()),
            },
    {
        if str_eq(s, "basic") {
            return Ok(NormalisationMethod::Basic);
        }
        if str_eq(s, "dynamic") {
            return Ok(NormalisationMethod::Dynamic);
        }
        Err(())
    }

    /// Parses a normalisation method from its name, ignoring case.
    pub fn parse(s: &str) -> (r: Result<NormalisationMethod, ()>)
        ensures
            r == match normalisation_method_of_lower_name(unicode_lowercase(s@)) {
                Some(m) => Ok::<NormalisationMethod, ()>(m),
                None => Err(()),
            },
            is_ascii_chars(s@) ==> r == match normalisation_method_of_lower_name(ascii_lowercase(s@)) {
                Some(m) => Ok::<NormalisationMethod, ()>(m),
                None => Err(()),
            },
    {
        let lower = to_lowercase(s);
        Self::from_lowercase(lower.as_str())
    }
}

impl Default for NormalisationMethod {
    /// Dynamic range compression.
    fn default() -> (m: NormalisationMethod)
        ensures
            m == NormalisationMethod::Dynamic,
    {
        NormalisationMethod::Dynamic
    }
}

impl std::str::FromStr for NormalisationMethod {
    type Err = ();

    fn from_str(s: &str) -> (r: Result<NormalisationMethod, ()>)
        ensures
            r == match normalisation_method_of_lower_name(unicode_lowercase(s@)) {
                Some(m) => Ok::<NormalisationMethod, ()>(m),
                None => Err(()),
            },
            is_ascii_chars(s@) ==> r == match normalisation_method_of_lower_name(ascii_lowercase(s@)) {
                Some(m) => Ok::<NormalisationMethod, ()>(m),
                None => Err(()),
            },
    {
        NormalisationMethod::parse(s)
    }
}

/// The shape of a volume control curve, without its range in dB.
#[derive(Clone, Copy, Debug, PartialEq, Eq, Structural)]
pub enum VolumeCtrlKind {
    /// Cubic mapping over a range in dB.
    Cubic,
    /// Fixed volume.
    Fixed,
    /// Linear mapping.
    Linear,
    /// Logarithmic mapping over a range in dB.
    Log,
}

/// The volume control curve that a lowercase name stands for.
pub open spec fn volume_ctrl_of_lower_name(s: Seq<char>) -> Option<VolumeCtrlKind> {
    if s == "cubic"@ {
        Some(VolumeCtrlKind::Cubic)
    } else if s == "fixed"@ {
        Some(VolumeCtrlKind::Fixed)
    } else if s == "linear"@ {
        Some(VolumeCtrlKind::Linear)
    } else if s == "log"@ {
        Some(VolumeCtrlKind::Log)
    } else {
        None
    }
}

impl VolumeCtrlKind {
    /// The curve that the lowercase name `s` stands for.
    pub fn from_lowercase(s: &str) -> (r: Result<VolumeCtrlKind, ()>)
        ensures
            r == match volume_ctrl_of_lower_name(s@) {
                Some(k) => Ok::<VolumeCtrlKind, ()>(k),
                None => Err(()),
            },
    {
        if str_eq(s, "cubic") {
            return Ok(VolumeCtrlKind::Cubic);
        }
        if str_eq(s, "fixed") {
            return Ok(VolumeCtrlKind::Fixed);
        }
        if str_eq(s, "linear") {
            return Ok(VolumeCtrlKind::Linear);
        }
        if str_eq(s, "log") {
            return Ok(VolumeCtrlKind::Log);
        }
        Err(())
    }

    /// Parses a curve from its name, ignoring case.
    pub fn parse(s: &str) -> (r: Result<VolumeCtrlKind, ()>)
        ensures
            r == match volume_ctrl_of_lower_name(unicode_lowercase(s@)) {
                Some(k) => Ok::<VolumeCtrlKind, ()>(k),
                None => Err(()),
            },
            is_ascii_chars(s@) ==> r == match volume_ctrl_of_lower_name(ascii_lowercase(s@)) {
                Some(k) => Ok::<VolumeCtrlKind, ()>(k),
                None => Err(()),
            },
    {
        let lower = to_lowercase(s);
        Self::from_lowercase(lower.as_str())
    }

    /// Whether the curve carries a range in dB.
    pub fn has_db_range(&self) -> (b: bool)
        ensures
            b == (*self is Cubic || *self is Log),
    {
        match self {
            VolumeCtrlKind::Cubic => true,
            VolumeCtrlKind::Log => true,
            _ => false,
        }
    }
}

/// A dithering algorithm.
#[derive(Clone, Copy, Debug, PartialEq, Eq, Structural)]
pub enum DithererKind {
    /// Triangular probability density.
    Triangular,
    /// Gaussian probability density.
    Gaussian,
    /// High-passed triangular probability density.
    HighPass,
}

/// The name of each dithering algorithm.
pub open spec fn ditherer_name(k: DithererKind) -> Seq<char> {
    match k {
        DithererKind::Triangular => "tpdf"@,
        DithererKind::Gaussian => "gpdf"@,
        DithererKind::HighPass => "tpdf_hp"@,
    }
}

/// The dithering algorithm that a name stands for.
pub open spec fn ditherer_of_name(s: Seq<char>) -> Option<DithererKind> {
    if s == "tpdf"@ {
        Some(DithererKind::Triangular)
    } else if s == "gpdf"@ {
        Some(DithererKind::Gaussian)
    } else if s == "tpdf_hp"@ {
        Some(DithererKind::HighPass)
    } else {
        None
    }
}

impl DithererKind {
    /// The name of this dithering algorithm.
    pub fn name(&self) -> (s: &'static str)
        ensures
            s@ == ditherer_name(*self),
    {
        match self {
            DithererKind::Triangular => "tpdf",
            DithererKind::Gaussian => "gpdf",
            DithererKind::HighPass => "tpdf_hp",
        }
    }
}

/// Finds a dithering algorithm by its exact name: `tpdf`, `gpdf` or
/// `tpdf_hp`; `None` for any other name and for no name.
pub fn find_ditherer(name: Option<String>) -> (r: Option<DithererKind>)
    ensures
        r == match name {
            Some(s) => ditherer_of_name(s@),
            None => None,
        },
{
    match name {
        Some(s) => {
            if str_eq(s.as_str(), "tpdf") {
                Some(DithererKind::Triangular)
            } else if str_eq(s.as_str(), "gpdf") {
                Some(DithererKind::Gaussian)
            } else if str_eq(s.as_str(), "tpdf_hp") {
                Some(DithererKind::HighPass)
            } else {
                None
            }
        },
        None => None,
    }
}

/// Each dithering algorithm is found by its own name.
pub proof fn lemma_find_ditherer_by_name(k: DithererKind)
    ensures
        ditherer_of_name(ditherer_name(k)) == Some(k),
{
    reveal_strlit("tpdf");
    reveal_strlit("gpdf");
    reveal_strlit("tpdf_hp");
    assert("gpdf"@[0] != "tpdf"@[0]);
    assert("tpdf_hp"@.len() != "tpdf"@.len());
    assert("tpdf_hp"@.len() != "gpdf"@.len());
}

/// An error of an audio decoder.
#[derive(Debug)]
pub enum DecoderError {
    /// An error of the passthrough decoder.
    PassthroughDecoder(String),
    /// An error of the Symphonia decoder.
    SymphoniaDecoder(String),
}

/// The text of a decoder error.
pub open spec fn decoder_error_text(e: DecoderError) -> Seq<char> {
    match e {
        DecoderError::PassthroughDecoder(s) => "Passthrough Decoder Error: "@ + s@,
        DecoderError::SymphoniaDecoder(s) => "Symphonia Decoder Error: "@ + s@,
    }
}

impl DecoderError {
    /// The text of this error.
    pub fn to_string(&self) -> (s: String)
        ensures
            s@ == decoder_error_text(*self),
    {
        match self {
            DecoderError::PassthroughDecoder(m) => concat_str(
                "Passthrough Decoder Error: ",
                m.as_str(),
            ),
            DecoderError::SymphoniaDecoder(m) => concat_str("Symphonia Decoder Error: ", m.as_str()),
        }
    }
}

impl Error {
    /// A decoder error becomes an `Aborted` error with the decoder error's text.
    pub fn from_decoder(err: DecoderError) -> (e: Error)
        ensures
            e.kind == ErrorKind::Aborted,
            e.error@ == decoder_error_text(err),
    {
        let text = err.to_string();
        Error::aborted(text.as_str())
    }
}

/// An error on reading an audio packet as the wrong kind.
#[derive(Clone, Copy, Debug, PartialEq, Eq, Structural)]
pub enum AudioPacketError {
    /// Raw bytes were asked of a packet of samples.
    Raw,
    /// Samples were asked of a packet of raw bytes.
    Samples,
}

/// The text of an audio packet error.
pub open spec fn audio_packet_error_text(e: AudioPacketError) -> Seq<char> {
    match e {
        AudioPacketError::Raw => "Decoder Raw Error: Can't return Raw on Samples"@,
        AudioPacketError::Samples => "Decoder Samples Error: Can't return Samples on Raw"@,
    }
}

impl AudioPacketError {
    /// The text of this error.
    pub fn to_string(&self) -> (s: String)
        ensures
            s@ == audio_packet_error_text(*self),
    {
        match self {
            AudioPacketError::Raw => String::from_str("Decoder Raw Error: Can't return Raw on Samples"),
            AudioPacketError::Samples => String::from_str(
                "Decoder Samples Error: Can't return Samples on Raw",
            ),
        }
    }
}

/// Where a decoded audio packet lies in its track.
#[derive(Clone, Debug)]
pub struct AudioPacketPosition {
    /// The position in milliseconds within the track.
    pub position_ms: u32,
    /// Whether the packet's data was skipped for a decode error.
    pub skipped: bool,
}

impl std::ops::Deref for AudioPacketPosition {
    type Target = u32;

    /// The position in milliseconds.
    fn deref(&self) -> (r: &u32)
        ensures
            *r == self.position_ms,
    {
        &self.position_ms
    }
}

/// Samples per second of each channel of Spotify audio.
pub const SAMPLE_RATE: u32 = 44100;

/// Number of audio channels.
pub const NUM_CHANNELS: u8 = 2;

/// Samples per second over all channels: two channels at `SAMPLE_RATE`.
pub const SAMPLES_PER_SECOND: u32 = SAMPLE_RATE * 2;

/// The rate in kbps of every bitrate setting.
pub proof fn lemma_bitrate_kbps_table(v: Bitrate)
    ensures
        v is Bitrate96 ==> bitrate_kbps(v) == 96,
        v is Bitrate160 ==> bitrate_kbps(v) == 160,
        v is Bitrate320 ==> bitrate_kbps(v) == 320,
{
}

/// The name of every audio format.
pub proof fn lemma_format_name_table(v: AudioFormat)
    ensures
        v is F64 ==> format_name(v) == "F64"@,
        v is F32 ==> format_name(v) == "F32"@,
        v is S32 ==> format_name(v) == "S32"@,
        v is S24 ==> format_name(v) == "S24"@,
        v is S24_3 ==> format_name(v) == "S24_3"@,
        v is S16 ==> format_name(v) == "S16"@,
{
}

/// The size in bytes of one sample of every audio format: 8 for 64-bit floats, 4 for 32-bit floats and 32-bit words, 3 for packed 24-bit samples, 2 for 16-bit samples.
pub proof fn lemma_format_size_table(v: AudioFormat)
    ensures
        v is F64 ==> format_size(v) == 8,
        v is F32 ==> format_size(v) == 4,
        v is S32 ==> format_size(v) == 4,
        v is S24 ==> format_size(v) == 4,
        v is S24_3 ==> format_size(v) == 3,
        v is S16 ==> format_size(v) == 2,
{
}

/// The name of every dithering algorithm.
pub proof fn lemma_ditherer_name_table(v: DithererKind)
    ensures
        v is Triangular ==> ditherer_name(v) == "tpdf"@,
        v is Gaussian ==> ditherer_name(v) == "gpdf"@,
        v is HighPass ==> ditherer_name(v) == "tpdf_hp"@,
{
}

/// The text of every audio packet error.
pub proof fn lemma_audio_packet_error_table(v: AudioPacketError)
    ensures
        v is Raw ==> audio_packet_error_text(v) == "Decoder Raw Error: Can't return Raw on Samples"@,
        v is Samples ==> audio_packet_error_text(v) == "Decoder Samples Error: Can't return Samples on Raw"@,
{
}

/// The text of a decoder error: the decoder's name, then its message.
pub proof fn lemma_decoder_error_text(v: DecoderError)
    ensures
        v matches DecoderError::PassthroughDecoder(m) ==> decoder_error_text(v)
            == "Passthrough Decoder Error: "@ + m@,
        v matches DecoderError::SymphoniaDecoder(m) ==> decoder_error_text(v)
            == "Symphonia Decoder Error: "@ + m@,
{
}

/// The names that the normalisation settings and volume curves are parsed
/// from, in lowercase.
pub proof fn lemma_setting_name_table()
    ensures
        normalisation_type_of_lower_name("album"@) == Some(NormalisationType::Album),
        normalisation_type_of_lower_name("track"@) == Some(NormalisationType::Track),
        normalisation_type_of_lower_name("auto"@) == Some(NormalisationType::Auto),
        normalisation_method_of_lower_name("basic"@) == Some(NormalisationMethod::Basic),
        normalisation_method_of_lower_name("dynamic"@) == Some(NormalisationMethod::Dynamic),
        volume_ctrl_of_lower_name("cubic"@) == Some(VolumeCtrlKind::Cubic),
        volume_ctrl_of_lower_name("fixed"@) == Some(VolumeCtrlKind::Fixed),
        volume_ctrl_of_lower_name("linear"@) == Some(VolumeCtrlKind::Linear),
        volume_ctrl_of_lower_name("log"@) == Some(VolumeCtrlKind::Log),
        bitrate_of_name("96"@) == Some(Bitrate::Bitrate96),
        bitrate_of_name("160"@) == Some(Bitrate::Bitrate160),
        bitrate_of_name("320"@) == Some(Bitrate::Bitrate320),
        ditherer_of_name("tpdf"@) == Some(DithererKind::Triangular),
        ditherer_of_name("gpdf"@) == Some(DithererKind::Gaussian),
        ditherer_of_name("tpdf_hp"@) == Some(DithererKind::HighPass),
{
    reveal_strlit("album");
    reveal_strlit("track");
    reveal_strlit("auto");
    reveal_strlit("basic");
    reveal_strlit("dynamic");
    reveal_strlit("cubic");
    reveal_strlit("fixed");
    reveal_strlit("linear");
    reveal_strlit("log");
    reveal_strlit("96");
    reveal_strlit("160");
    reveal_strlit("320");
    reveal_strlit("tpdf");
    reveal_strlit("gpdf");
    reveal_strlit("tpdf_hp");
    assert("album"@[0] != "track"@[0]);
    assert("album"@.len() != "auto"@.len());
    assert("track"@.len() != "auto"@.len());
    assert("basic"@.len() != "dynamic"@.len());
    assert("cubic"@[0] != "fixed"@[0]);
    assert("cubic"@.len() != "linear"@.len());
    assert("fixed"@.len() != "linear"@.len());
    assert("cubic"@.len() != "log"@.len());
    assert("fixed"@.len() != "log"@.len());
    assert("linear"@.len() != "log"@.len());
    assert("96"@.len() != "160"@.len());
    assert("96"@.len() != "320"@.len());
    assert("160"@[0] != "320"@[0]);
    assert("tpdf"@[0] != "gpdf"@[0]);
    assert("tpdf"@.len() != "tpdf_hp"@.len());
    assert("gpdf"@.len() != "tpdf_hp"@.len());
}

} // verus!
