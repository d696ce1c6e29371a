//! Metadata types built from Spotify's metadata protocol: audio file formats
//! and the files of an item, images, copyright notices, picture sizes, and
//! the playlist operations and permissions that do not refer to other items.

use vstd::prelude::*;

use crate::file_id::{FileId, raw_array_of, raw_id_bytes};
use crate::text::{concat_str, i32_to_decimal, signed_decimal};
use crate::proto::{
    AddMessage, AlbumMessage, AlbumType, EpisodeMessage, EpisodeType, OpMessage,
    PlaylistOperationKind, RemMessage, SelectedListContentMessage, TrackMessage, album_type_of,
    episode_type_of, geoblock_of, long_field, long_or_default, longs_field, bytes_vec_field,
    operation_kind_of, group_field, group_images, same_strings,
    strings_field, AudioFileMessage, CapabilitiesMessage, CopyrightMessage, CopyrightType, Format,
    GeoblockBlockingType, ImageGroup, ImageMessage, ImageSize, MovMessage, PermissionLevel,
    PictureSizeMessage, bool_field, bool_or_default, bytes_field, bytes_or_default,
    copyright_type_of, format_of_number, image_size_of, int_field, int_or_default,
    permission_level_of, text_field, text_or_default,
};

verus! {

/// Supported audio file formats with their bitrates.
#[allow(non_camel_case_types)]
#[derive(Debug, Copy, Clone, PartialEq, Eq, Hash, Structural)]
pub enum AudioFileFormat {
    /// OGG Vorbis at 96 kbps.
    OGG_VORBIS_96,
    /// OGG Vorbis at 160 kbps.
    OGG_VORBIS_160,
    /// OGG Vorbis at 320 kbps.
    OGG_VORBIS_320,
    /// MP3 at 256 kbps.
    MP3_256,
    /// MP3 at 320 kbps.
    MP3_320,
    /// MP3 at 160 kbps.
    MP3_160,
    /// MP3 at 96 kbps.
    MP3_96,
    /// MP3 at 160 kbps (encrypted).
    MP3_160_ENC,
    /// AAC at 24 kbps.
    AAC_24,
    /// AAC at 48 kbps.
    AAC_48,
    /// FLAC lossless.
    FLAC_FLAC,
    /// xHE-AAC at 24 kbps.
    XHE_AAC_24,
    /// xHE-AAC at 16 kbps.
    XHE_AAC_16,
    /// xHE-AAC at 12 kbps.
    XHE_AAC_12,
    /// FLAC lossless at 24-bit.
    FLAC_FLAC_24BIT,
    /// AAC at 160 kbps (not defined in the protocol).
    AAC_160,
    /// AAC at 320 kbps (not defined in the protocol).
    AAC_320,
    /// MP4 at 128 kbps (not defined in the protocol).
    MP4_128,
    /// Unknown format (not defined in the protocol).
    OTHER5,
}

/// The audio file format of each protocol format.
pub open spec fn format_of_proto(f: Format) -> AudioFileFormat {
    match f {
        Format::OGG_VORBIS_96 => AudioFileFormat::OGG_VORBIS_96,
        Format::OGG_VORBIS_160 => AudioFileFormat::OGG_VORBIS_160,
        Format::OGG_VORBIS_320 => AudioFileFormat::OGG_VORBIS_320,
        Format::MP3_256 => AudioFileFormat::MP3_256,
        Format::MP3_320 => AudioFileFormat::MP3_320,
        Format::MP3_160 => AudioFileFormat::MP3_160,
        Format::MP3_96 => AudioFileFormat::MP3_96,
        Format::MP3_160_ENC => AudioFileFormat::MP3_160_ENC,
        Format::AAC_24 => AudioFileFormat::AAC_24,
        Format::AAC_48 => AudioFileFormat::AAC_48,
        Format::FLAC_FLAC => AudioFileFormat::FLAC_FLAC,
        Format::XHE_AAC_24 => AudioFileFormat::XHE_AAC_24,
        Format::XHE_AAC_16 => AudioFileFormat::XHE_AAC_16,
        Format::XHE_AAC_12 => AudioFileFormat::XHE_AAC_12,
        Format::FLAC_FLAC_24BIT => AudioFileFormat::FLAC_FLAC_24BIT,
    }
}

/// The audio file format with number `v`: the numbers 10 to 13, which the
/// protocol leaves undefined, stand for AAC 160, AAC 320, MP4 128 and an
/// unknown format; the others are the protocol's.
pub open spec fn audio_format_of_number(v: i32) -> Option<AudioFileFormat> {
    if v == 10 {
        Some(AudioFileFormat::AAC_160)
    } else if v == 11 {
        Some(AudioFileFormat::AAC_320)
    } else if v == 12 {
        Some(AudioFileFormat::MP4_128)
    } else if v == 13 {
        Some(AudioFileFormat::OTHER5)
    } else {
        match format_of_number(v) {
            Some(f) => Some(format_of_proto(f)),
            None => None,
        }
    }
}

/// Whether a format is OGG Vorbis.
pub open spec fn spec_is_ogg_vorbis(f: AudioFileFormat) -> bool {
    f is OGG_VORBIS_320 || f is OGG_VORBIS_160 || f is OGG_VORBIS_96
}

/// Whether a format is MP3.
pub open spec fn spec_is_mp3(f: AudioFileFormat) -> bool {
    f is MP3_320 || f is MP3_256 || f is MP3_160 || f is MP3_96 || f is MP3_160_ENC
}

/// Whether a format is FLAC.
pub open spec fn spec_is_flac(f: AudioFileFormat) -> bool {
    f is FLAC_FLAC || f is FLAC_FLAC_24BIT
}

/// The MIME type of a format, where it has a known one.
pub open spec fn spec_mime_type(f: AudioFileFormat) -> Option<Seq<char>> {
    if spec_is_ogg_vorbis(f) {
        Some("audio/ogg"@)
    } else if spec_is_mp3(f) {
        Some("audio/mpeg"@)
    } else if spec_is_flac(f) {
        Some("audio/flac"@)
    } else {
        None
    }
}

impl AudioFileFormat {
    /// The format with number `v`, or `Err(v)` for a number that stands for
    /// no format.
    pub fn try_from_i32(v: i32) -> (r: Result<AudioFileFormat, i32>)
        ensures
            match audio_format_of_number(v) {
                Some(f) => r == Ok::<AudioFileFormat, i32>(f),
                None => r == Err::<AudioFileFormat, i32>(v),
            },
    {
        match v {
            10 => Ok(AudioFileFormat::AAC_160),
            11 => Ok(AudioFileFormat::AAC_320),
            12 => Ok(AudioFileFormat::MP4_128),
            13 => Ok(AudioFileFormat::OTHER5),
            _ => match Format::from_i32(v) {
                Some(f) => Ok(AudioFileFormat::from_proto(f)),
                None => Err(v),
            },
        }
    }

    /// The audio file format of a protocol format.
    pub fn from_proto(f: Format) -> (a: AudioFileFormat)
        ensures
            a == format_of_proto(f),
    {
        match f {
            Format::OGG_VORBIS_96 => AudioFileFormat::OGG_VORBIS_96,
            Format::OGG_VORBIS_160 => AudioFileFormat::OGG_VORBIS_160,
            Format::OGG_VORBIS_320 => AudioFileFormat::OGG_VORBIS_320,
            Format::MP3_256 => AudioFileFormat::MP3_256,
            Format::MP3_320 => AudioFileFormat::MP3_320,
            Format::MP3_160 => AudioFileFormat::MP3_160,
            Format::MP3_96 => AudioFileFormat::MP3_96,
            Format::MP3_160_ENC => AudioFileFormat::MP3_160_ENC,
            Format::AAC_24 => AudioFileFormat::AAC_24,
            Format::AAC_48 => AudioFileFormat::AAC_48,
            Format::FLAC_FLAC => AudioFileFormat::FLAC_FLAC,
            Format::XHE_AAC_24 => AudioFileFormat::XHE_AAC_24,
            Format::XHE_AAC_16 => AudioFileFormat::XHE_AAC_16,
            Format::XHE_AAC_12 => AudioFileFormat::XHE_AAC_12,
            Format::FLAC_FLAC_24BIT => AudioFileFormat::FLAC_FLAC_24BIT,
        }
    }
}

impl vstd::std_specs::convert::TryFromSpecImpl<i32> for AudioFileFormat {
    open spec fn obeys_try_from_spec() -> bool {
        true
    }

    open spec fn try_from_spec(v: i32) -> Result<AudioFileFormat, i32> {
        match audio_format_of_number(v) {
            Some(f) => Ok(f),
            None => Err(v),
        }
    }
}

impl std::convert::TryFrom<i32> for AudioFileFormat {
    type Error = i32;

    fn try_from(value: i32) -> Result<AudioFileFormat, i32> {
        AudioFileFormat::try_from_i32(value)
    }
}

/// The files of an item: a map from audio file formats to file identifiers.
#[derive(Debug, Clone)]
pub struct AudioFiles {
    entries: Vec<(AudioFileFormat, FileId)>,
}

/// The map that a list of entries builds, later entries replacing earlier
/// entries of the same format.
pub open spec fn format_entries_map(es: Seq<(AudioFileFormat, FileId)>) -> Map<
    AudioFileFormat,
    FileId,
>
    decreases es.len(),
{
    if es.len() == 0 {
        Map::empty()
    } else {
        format_entries_map(es.drop_last()).insert(es.last().0, es.last().1)
    }
}

/// The map that a list of audio file messages gives: in order, each file
/// with a format that the protocol defines is entered under that format
/// (replacing an earlier file of the same format); files with no format or
/// an unknown format are left out.
pub open spec fn audio_files_of(files: Seq<AudioFileMessage>) -> Map<AudioFileFormat, FileId>
    decreases files.len(),
{
    if files.len() == 0 {
        Map::empty()
    } else {
        let prev = audio_files_of(files.drop_last());
        let f = files.last();
        match f.format {
            Some(code) => match format_of_number(code) {
                Some(fmt) => prev.insert(
                    format_of_proto(fmt),
                    FileId(raw_array_of(raw_id_bytes(bytes_or_default(f.file_id)))),
                ),
                None => prev,
            },
            None => prev,
        }
    }
}

impl View for AudioFiles {
    type V = Map<AudioFileFormat, FileId>;

    closed spec fn view(&self) -> Map<AudioFileFormat, FileId> {
        format_entries_map(self.entries@)
    }
}

impl AudioFiles {
    /// No files.
    pub fn new() -> (a: AudioFiles)
        ensures
            a@ == Map::<AudioFileFormat, FileId>::empty(),
    {
        AudioFiles { entries: Vec::new() }
    }

    /// Enters file `id` under `format`, replacing any earlier file of it.
    pub fn insert(&mut self, format: AudioFileFormat, id: FileId)
        ensures
            final(self)@ == old(self)@.insert(format, id),
    {
        self.entries.push((format, id));
        assert(self.entries@.drop_last() =~= old(self).entries@);
    }

    /// The file of `format`, if there is one.
    pub fn get(&self, format: AudioFileFormat) -> (r: Option<FileId>)
        ensures
            match r {
                Some(id) => self@.contains_key(format) && self@[format] == id,
                None => !self@.contains_key(format),
            },
    {
        let mut i = self.entries.len();
        while i > 0
            invariant
                i <= self.entries@.len(),
                forall|j: int| i <= j < self.entries@.len() ==> #[trigger] self.entries@[j].0 != format,
            decreases i,
        {
            if self.entries[i - 1].0 == format {
                proof {
                    lemma_format_entries_last(self.entries@, (i - 1) as int, format);
                }
                return Some(self.entries[i - 1].1);
            }
            i = i - 1;
        }
        proof {
            lemma_format_entries_absent(self.entries@, format);
        }
        None
    }

    /// Returns `true` if the format is OGG Vorbis.
    pub fn is_ogg_vorbis(format: AudioFileFormat) -> (b: bool)
        ensures
            b == spec_is_ogg_vorbis(format),
    {
        match format {
            AudioFileFormat::OGG_VORBIS_320 | AudioFileFormat::OGG_VORBIS_160
            | AudioFileFormat::OGG_VORBIS_96 => true,
            _ => false,
        }
    }

    /// Returns `true` if the format is MP3.
    pub fn is_mp3(format: AudioFileFormat) -> (b: bool)
        ensures
            b == spec_is_mp3(format),
    {
        match format {
            AudioFileFormat::MP3_320 | AudioFileFormat::MP3_256 | AudioFileFormat::MP3_160
            | AudioFileFormat::MP3_96 | AudioFileFormat::MP3_160_ENC => true,
            _ => false,
        }
    }

    /// Returns `true` if the format is FLAC, at 16 or at 24 bits.
    pub fn is_flac(format: AudioFileFormat) -> (b: bool)
        ensures
            b == spec_is_flac(format),
    {
        match format {
            AudioFileFormat::FLAC_FLAC | AudioFileFormat::FLAC_FLAC_24BIT => true,
            _ => false,
        }
    }

    /// Returns the MIME type string for the given format, if known.
    pub fn mime_type(format: AudioFileFormat) -> (m: Option<&'static str>)
        ensures
            match spec_mime_type(format) {
                Some(t) => m matches Some(s) && s@ == t,
                None => m is None,
            },
    {
        if Self::is_ogg_vorbis(format) {
            Some("audio/ogg")
        } else if Self::is_mp3(format) {
            Some("audio/mpeg")
        } else if Self::is_flac(format) {
            Some("audio/flac")
        } else {
            None
        }
    }

    /// The files of a list of audio file messages; files with no format or a
    /// format that the protocol does not define are left out.
    pub fn from_messages(files: &[AudioFileMessage]) -> (a: AudioFiles)
        ensures
            a@ == audio_files_of(files@),
    {
        let mut out = AudioFiles::new();
        let mut i: usize = 0;
        while i < files.len()
            invariant
                i <= files@.len(),
                out@ == audio_files_of(files@.subrange(0, i as int)),
            decreases files@.len() - i,
        {
            let file = &files[i];
            let file_id = FileId::from_raw(bytes_field(&file.file_id));
            proof {
                assert(files@.subrange(0, i + 1).drop_last() =~= files@.subrange(0, i as int));
                assert(files@.subrange(0, i + 1).last() == files@[i as int]);
            }
            match file.format {
                Some(code) => match Format::from_i32(code) {
                    Some(f) => {
                        proof {
                            assert(file_id.0@ == raw_id_bytes(bytes_or_default(file.file_id)));
                            lemma_raw_array(file_id.0);
                        }
                        out.insert(AudioFileFormat::from_proto(f), file_id);
                    },
                    None => {},
                },
                None => {},
            }
            i = i + 1;
        }
        assert(files@.subrange(0, files@.len() as int) =~= files@);
        out
    }
}

/// Looking up a format after entering a file under it gives that file, and
/// entering a file leaves the files of every other format as they were.
pub proof fn lemma_audio_files_read_after_insert(
    a: AudioFiles,
    format: AudioFileFormat,
    id: FileId,
    other: AudioFileFormat,
)
    requires
        other != format,
    ensures
        a@.insert(format, id).contains_key(format),
        a@.insert(format, id)[format] == id,
        a@.insert(format, id).contains_key(other) == a@.contains_key(other),
        a@.contains_key(other) ==> a@.insert(format, id)[other] == a@[other],
{
}

/// The protocol number of every audio file format, and its MIME type: the
/// three Ogg Vorbis formats are `audio/ogg`, the five MP3 formats
/// `audio/mpeg`, the two FLAC formats `audio/flac`, and the AAC, xHE-AAC and
/// MP4 formats and `OTHER5` have none. Every other number names no format.
pub proof fn lemma_audio_format_table(n: i32)
    ensures
        audio_format_of_number(0i32) == Some(AudioFileFormat::OGG_VORBIS_96),
        audio_format_of_number(1i32) == Some(AudioFileFormat::OGG_VORBIS_160),
        audio_format_of_number(2i32) == Some(AudioFileFormat::OGG_VORBIS_320),
        audio_format_of_number(3i32) == Some(AudioFileFormat::MP3_256),
        audio_format_of_number(4i32) == Some(AudioFileFormat::MP3_320),
        audio_format_of_number(5i32) == Some(AudioFileFormat::MP3_160),
        audio_format_of_number(6i32) == Some(AudioFileFormat::MP3_96),
        audio_format_of_number(7i32) == Some(AudioFileFormat::MP3_160_ENC),
        audio_format_of_number(8i32) == Some(AudioFileFormat::AAC_24),
        audio_format_of_number(9i32) == Some(AudioFileFormat::AAC_48),
        audio_format_of_number(16i32) == Some(AudioFileFormat::FLAC_FLAC),
        audio_format_of_number(18i32) == Some(AudioFileFormat::XHE_AAC_24),
        audio_format_of_number(19i32) == Some(AudioFileFormat::XHE_AAC_16),
        audio_format_of_number(20i32) == Some(AudioFileFormat::XHE_AAC_12),
        audio_format_of_number(22i32) == Some(AudioFileFormat::FLAC_FLAC_24BIT),
        audio_format_of_number(10i32) == Some(AudioFileFormat::AAC_160),
        audio_format_of_number(11i32) == Some(AudioFileFormat::AAC_320),
        audio_format_of_number(12i32) == Some(AudioFileFormat::MP4_128),
        audio_format_of_number(13i32) == Some(AudioFileFormat::OTHER5),
        spec_mime_type(AudioFileFormat::OGG_VORBIS_96) == Some(seq!['a', 'u', 'd', 'i', 'o', '/', 'o', 'g', 'g']),
        spec_mime_type(AudioFileFormat::OGG_VORBIS_160) == Some(seq!['a', 'u', 'd', 'i', 'o', '/', 'o', 'g', 'g']),
        spec_mime_type(AudioFileFormat::OGG_VORBIS_320) == Some(seq!['a', 'u', 'd', 'i', 'o', '/', 'o', 'g', 'g']),
        spec_mime_type(AudioFileFormat::MP3_256) == Some(seq!['a', 'u', 'd', 'i', 'o', '/', 'm', 'p', 'e', 'g']),
        spec_mime_type(AudioFileFormat::MP3_320) == Some(seq!['a', 'u', 'd', 'i', 'o', '/', 'm', 'p', 'e', 'g']),
        spec_mime_type(AudioFileFormat::MP3_160) == Some(seq!['a', 'u', 'd', 'i', 'o', '/', 'm', 'p', 'e', 'g']),
        spec_mime_type(AudioFileFormat::MP3_96) == Some(seq!['a', 'u', 'd', 'i', 'o', '/', 'm', 'p', 'e', 'g']),
        spec_mime_type(AudioFileFormat::MP3_160_ENC) == Some(seq!['a', 'u', 'd', 'i', 'o', '/', 'm', 'p', 'e', 'g']),
        spec_mime_type(AudioFileFormat::AAC_24) is None,
        spec_mime_type(AudioFileFormat::AAC_48) is None,
        spec_mime_type(AudioFileFormat::FLAC_FLAC) == Some(seq!['a', 'u', 'd', 'i', 'o', '/', 'f', 'l', 'a', 'c']),
        spec_mime_type(AudioFileFormat::XHE_AAC_24) is None,
        spec_mime_type(AudioFileFormat::XHE_AAC_16) is None,
        spec_mime_type(AudioFileFormat::XHE_AAC_12) is None,
        spec_mime_type(AudioFileFormat::FLAC_FLAC_24BIT) == Some(seq!['a', 'u', 'd', 'i', 'o', '/', 'f', 'l', 'a', 'c']),
        spec_mime_type(AudioFileFormat::AAC_160) is None,
        spec_mime_type(AudioFileFormat::AAC_320) is None,
        spec_mime_type(AudioFileFormat::MP4_128) is None,
        spec_mime_type(AudioFileFormat::OTHER5) is None,
        !(0 <= n <= 13 || n == 16 || (18 <= n <= 20) || n == 22) ==> audio_format_of_number(n)
            is None,
{
    reveal_strlit("audio/ogg");
    reveal_strlit("audio/mpeg");
    reveal_strlit("audio/flac");
    assert("audio/ogg"@ =~= seq!['a', 'u', 'd', 'i', 'o', '/', 'o', 'g', 'g']);
    assert("audio/mpeg"@ =~= seq!['a', 'u', 'd', 'i', 'o', '/', 'm', 'p', 'e', 'g']);
    assert("audio/flac"@ =~= seq!['a', 'u', 'd', 'i', 'o', '/', 'f', 'l', 'a', 'c']);
}

/// The array that `raw_array_of` picks for the contents of an array is that array.
proof fn lemma_raw_array(a: [u8; 20])
    ensures
        raw_array_of(a@) == a,
{
    let b = raw_array_of(a@);
    assert(b@ == a@);
    assert(b =~= a);
}

/// The last entry of a format decides the format's file.
proof fn lemma_format_entries_last(es: Seq<(AudioFileFormat, FileId)>, i: int, f: AudioFileFormat)
    requires
        0 <= i < es.len(),
        es[i].0 == f,
        forall|j: int| i < j < es.len() ==> #[trigger] es[j].0 != f,
    ensures
        format_entries_map(es).contains_key(f),
        format_entries_map(es)[f] == es[i].1,
    decreases es.len(),
{
    if i < es.len() - 1 {
        let d = es.drop_last();
        assert(es.last().0 != f);
        assert forall|j: int| i < j < d.len() implies #[trigger] d[j].0 != f by {
            assert(d[j] == es[j]);
        }
        lemma_format_entries_last(d, i, f);
    }
}

/// A format with no entry has no file.
proof fn lemma_format_entries_absent(es: Seq<(AudioFileFormat, FileId)>, f: AudioFileFormat)
    requires
        forall|j: int| 0 <= j < es.len() ==> #[trigger] es[j].0 != f,
    ensures
        !format_entries_map(es).contains_key(f),
    decreases es.len(),
{
    if es.len() > 0 {
        let d = es.drop_last();
        assert forall|j: int| 0 <= j < d.len() implies #[trigger] d[j].0 != f by {
            assert(d[j] == es[j]);
        }
        lemma_format_entries_absent(d, f);
        assert(es.last().0 != f);
    }
}

/// An image associated with a resource (e.g., cover art).
#[derive(Debug, Clone, Copy)]
pub struct Image {
    /// The file identifier for the image data.
    pub id: FileId,
    /// The size category of the image.
    pub size: ImageSize,
    /// The width of the image in pixels.
    pub width: i32,
    /// The height of the image in pixels.
    pub height: i32,
}

/// Whether `i` is the image that message `m` describes.
pub open spec fn image_from(i: Image, m: ImageMessage) -> bool {
    &&& i.id.bytes() == raw_id_bytes(bytes_or_default(m.file_id))
    &&& i.size == image_size_of(m.size)
    &&& i.width == int_or_default(m.width)
    &&& i.height == int_or_default(m.height)
}

/// A list of [`Image`]s.
#[derive(Debug, Clone)]
pub struct Images(pub Vec<Image>);

impl Image {
    /// The image that a message describes.
    pub fn from_message(m: &ImageMessage) -> (i: Image)
        ensures
            image_from(i, *m),
    {
        Image {
            id: FileId::from_raw(bytes_field(&m.file_id)),
            size: ImageSize::from_field(m.size),
            width: int_field(m.width),
            height: int_field(m.height),
        }
    }
}

impl Images {
    /// The images of a list of messages, in order.
    pub fn from_messages(ms: &[ImageMessage]) -> (r: Images)
        ensures
            r.0@.len() == ms@.len(),
            forall|k: int| 0 <= k < ms@.len() ==> image_from(#[trigger] r.0@[k], ms@[k]),
    {
        let mut v: Vec<Image> = Vec::new();
        let mut i: usize = 0;
        while i < ms.len()
            invariant
                i <= ms@.len(),
                v@.len() == i,
                forall|k: int| 0 <= k < i ==> image_from(#[trigger] v@[k], ms@[k]),
            decreases ms@.len() - i,
        {
            v.push(Image::from_message(&ms[i]));
            i = i + 1;
        }
        Images(v)
    }

    /// The images of an image group, in order.
    pub fn from_group(g: &ImageGroup) -> (r: Images)
        ensures
            r.0@.len() == g.image@.len(),
            forall|k: int| 0 <= k < g.image@.len() ==> image_from(#[trigger] r.0@[k], g.image@[k]),
    {
        Self::from_messages(g.image.as_slice())
    }
}

/// A copyright notice for a resource.
#[derive(Debug, Clone)]
pub struct Copyright {
    /// The type of copyright (e.g., performance, sound recording).
    pub copyright_type: CopyrightType,
    /// The copyright text.
    pub text: String,
}

/// Whether `c` is the notice that message `m` describes.
pub open spec fn copyright_from(c: Copyright, m: CopyrightMessage) -> bool {
    c.copyright_type == copyright_type_of(m.type_) && c.text@ == text_or_default(m.text)
}

/// A list of [`Copyright`]s.
#[derive(Debug, Clone)]
pub struct Copyrights(pub Vec<Copyright>);

impl Copyright {
    /// The notice that a message describes.
    pub fn from_message(m: &CopyrightMessage) -> (c: Copyright)
        ensures
            copyright_from(c, *m),
    {
        Copyright { copyright_type: CopyrightType::from_field(m.type_), text: text_field(&m.text) }
    }
}

impl Copyrights {
    /// The notices of a list of messages, in order.
    pub fn from_messages(ms: &[CopyrightMessage]) -> (r: Copyrights)
        ensures
            r.0@.len() == ms@.len(),
            forall|k: int| 0 <= k < ms@.len() ==> copyright_from(#[trigger] r.0@[k], ms@[k]),
    {
        let mut v: Vec<Copyright> = Vec::new();
        let mut i: usize = 0;
        while i < ms.len()
            invariant
                i <= ms@.len(),
                v@.len() == i,
                forall|k: int| 0 <= k < i ==> copyright_from(#[trigger] v@[k], ms@[k]),
            decreases ms@.len() - i,
        {
            v.push(Copyright::from_message(&ms[i]));
            i = i + 1;
        }
        Copyrights(v)
    }
}

/// A named picture size variant with a URL.
#[derive(Debug, Clone)]
pub struct PictureSize {
    /// The name of the target size (e.g., `"Standard"`, `"Large"`).
    pub target_name: String,
    /// The URL to the image.
    pub url: String,
}

/// Whether `p` is the picture size that message `m` describes.
pub open spec fn picture_size_from(p: PictureSize, m: PictureSizeMessage) -> bool {
    p.target_name@ == text_or_default(m.target_name) && p.url@ == text_or_default(m.url)
}

/// A list of [`PictureSize`]s.
#[derive(Debug, Clone)]
pub struct PictureSizes(pub Vec<PictureSize>);

impl PictureSize {
    /// The picture size that a message describes.
    pub fn from_message(m: &PictureSizeMessage) -> (p: PictureSize)
        ensures
            picture_size_from(p, *m),
    {
        PictureSize { target_name: text_field(&m.target_name), url: text_field(&m.url) }
    }
}

impl PictureSizes {
    /// The picture sizes of a list of messages, in order.
    pub fn from_messages(ms: &[PictureSizeMessage]) -> (r: PictureSizes)
        ensures
            r.0@.len() == ms@.len(),
            forall|k: int| 0 <= k < ms@.len() ==> picture_size_from(#[trigger] r.0@[k], ms@[k]),
    {
        let mut v: Vec<PictureSize> = Vec::new();
        let mut i: usize = 0;
        while i < ms.len()
            invariant
                i <= ms@.len(),
                v@.len() == i,
                forall|k: int| 0 <= k < i ==> picture_size_from(#[trigger] v@[k], ms@[k]),
            decreases ms@.len() - i,
        {
            v.push(PictureSize::from_message(&ms[i]));
            i = i + 1;
        }
        PictureSizes(v)
    }
}

/// A move operation for rearranging items in a playlist.
#[derive(Debug, Clone, Copy)]
pub struct PlaylistOperationMove {
    /// The source index.
    pub from_index: i32,
    /// The number of items to move.
    pub length: i32,
    /// The destination index.
    pub to_index: i32,
}

impl PlaylistOperationMove {
    /// The move operation that a message describes.
    pub fn from_message(m: &MovMessage) -> (o: PlaylistOperationMove)
        ensures
            o.from_index == int_or_default(m.from_index),
            o.length == int_or_default(m.length),
            o.to_index == int_or_default(m.to_index),
    {
        PlaylistOperationMove {
            from_index: int_field(m.from_index),
            length: int_field(m.length),
            to_index: int_field(m.to_index),
        }
    }
}

/// A list of permission levels.
#[derive(Debug, Clone)]
pub struct PermissionLevels(pub Vec<PermissionLevel>);

/// A user's permission capabilities for a playlist.
#[derive(Debug, Clone)]
pub struct Capabilities {
    /// Whether the user can view the playlist.
    pub can_view: bool,
    /// Whether the user can manage permissions for the playlist.
    pub can_administrate_permissions: bool,
    /// The permission levels that can be granted.
    pub grantable_levels: PermissionLevels,
    /// Whether the user can edit playlist metadata.
    pub can_edit_metadata: bool,
    /// Whether the user can edit playlist items.
    pub can_edit_items: bool,
    /// Whether the user can cancel their own membership.
    pub can_cancel_membership: bool,
}

/// Whether `c` are the capabilities that message `m` describes; a
/// grantable level with an unknown number becomes `UNKNOWN`.
pub open spec fn capabilities_from(c: Capabilities, m: CapabilitiesMessage) -> bool {
    &&& c.can_view == bool_or_default(m.can_view)
    &&& c.can_administrate_permissions == bool_or_default(m.can_administrate_permissions)
    &&& c.grantable_levels.0@ == m.grantable_level@.map_values(|v: i32| permission_level_of(v))
    &&& c.can_edit_metadata == bool_or_default(m.can_edit_metadata)
    &&& c.can_edit_items == bool_or_default(m.can_edit_items)
    &&& c.can_cancel_membership == bool_or_default(m.can_cancel_membership)
}

/// Whether `c` are the capabilities that an optional message describes:
/// no capability and no grantable level when the message is absent.
pub open spec fn capabilities_from_optional(c: Capabilities, o: Option<CapabilitiesMessage>) -> bool {
    match o {
        Some(m) => capabilities_from(c, m),
        None => {
            &&& !c.can_view
            &&& !c.can_administrate_permissions
            &&& c.grantable_levels.0@.len() == 0
            &&& !c.can_edit_metadata
            &&& !c.can_edit_items
            &&& !c.can_cancel_membership
        },
    }
}

impl Capabilities {
    /// The capabilities that a message describes; a grantable level with an
    /// unknown number becomes `UNKNOWN`.
    pub fn from_message(m: &CapabilitiesMessage) -> (c: Capabilities)
        ensures
            capabilities_from(c, *m),
    {
        let mut levels: Vec<PermissionLevel> = Vec::new();
        let mut i: usize = 0;
        while i < m.grantable_level.len()
            invariant
                i <= m.grantable_level@.len(),
                levels@ == m.grantable_level@.subrange(0, i as int).map_values(
                    |v: i32| permission_level_of(v),
                ),
            decreases m.grantable_level@.len() - i,
        {
            levels.push(PermissionLevel::from_number(m.grantable_level[i]));
            assert(m.grantable_level@.subrange(0, i + 1).map_values(|v: i32| permission_level_of(v))
                =~= levels@);
            i = i + 1;
        }
        assert(m.grantable_level@.subrange(0, m.grantable_level@.len() as int) =~= m.grantable_level@);
        Capabilities {
            can_view: bool_field(m.can_view),
            can_administrate_permissions: bool_field(m.can_administrate_permissions),
            grantable_levels: PermissionLevels(levels),
            can_edit_metadata: bool_field(m.can_edit_metadata),
            can_edit_items: bool_field(m.can_edit_items),
            can_cancel_membership: bool_field(m.can_cancel_membership),
        }
    }
}

/// Whether `imgs` are the images that messages `ms` describe, in order.
pub open spec fn images_from_all(imgs: Seq<Image>, ms: Seq<ImageMessage>) -> bool {
    imgs.len() == ms.len() && forall|k: int| 0 <= k < ms.len() ==> image_from(#[trigger] imgs[k], ms[k])
}

/// Whether `cs` are the notices that messages `ms` describe, in order.
pub open spec fn copyrights_from_all(cs: Seq<Copyright>, ms: Seq<CopyrightMessage>) -> bool {
    cs.len() == ms.len() && forall|k: int| 0 <= k < ms.len() ==> copyright_from(#[trigger] cs[k], ms[k])
}

/// The licensor of a track: the 16 bytes of its UUID, or the nil UUID (all
/// zeros) where the field does not hold exactly 16 bytes.
pub open spec fn licensor_of(b: Seq<u8>) -> Seq<u8> {
    if b.len() == 16 {
        b
    } else {
        Seq::new(16, |i: int| 0u8)
    }
}

/// The bytes of a UUID made from a slice.
///
/// Calls `uuid::Uuid::from_slice`, which, as its documentation and source
/// say, fails exactly when the slice is not 16 bytes long and otherwise makes
/// the UUID of those bytes, which `as_bytes` gives back.
#[verifier::external_body]
fn uuid_from_slice(b: &[u8]) -> (r: Option<[u8; 16]>)
    ensures
        r is Some <==> b@.len() == 16,
        r matches Some(a) ==> a@ == b@,
{
    match uuid::Uuid::from_slice(b) {
        Ok(u) => Some(*u.as_bytes()),
        Err(_) => None,
    }
}

/// The licensor UUID of a track, the nil UUID where the bytes are no UUID.
pub fn licensor_uuid(b: &[u8]) -> (u: [u8; 16])
    ensures
        u@ == licensor_of(b@),
{
    match uuid_from_slice(b) {
        Some(a) => a,
        None => {
            let z = [0u8; 16];
            assert(z@ =~= licensor_of(b@));
            z
        },
    }
}

/// A track: the parts of its metadata that are plain values.
///
/// Its identifier, album, artists, external ids, restrictions, alternatives,
/// sale periods, dates, availability, content ratings and artist roles are
/// built from types that this library does not hold.
#[derive(Debug, Clone)]
pub struct Track {
    pub name: String,
    pub number: i32,
    pub disc_number: i32,
    pub duration: i32,
    pub popularity: i32,
    pub is_explicit: bool,
    pub files: AudioFiles,
    pub previews: AudioFiles,
    pub tags: Vec<String>,
    pub has_lyrics: bool,
    /// The bytes of the licensor's UUID.
    pub licensor: [u8; 16],
    pub language_of_performance: Vec<String>,
    pub original_title: String,
    pub version_title: String,
}

impl Track {
    /// The track that a message describes.
    pub fn from_message(m: &TrackMessage) -> (t: Track)
        ensures
            t.name@ == text_or_default(m.name),
            t.number == int_or_default(m.number),
            t.disc_number == int_or_default(m.disc_number),
            t.duration == int_or_default(m.duration),
            t.popularity == int_or_default(m.popularity),
            t.is_explicit == bool_or_default(m.explicit),
            t.files@ == audio_files_of(m.file@),
            t.previews@ == audio_files_of(m.preview@),
            same_strings(t.tags@, m.tags@),
            t.has_lyrics == bool_or_default(m.has_lyrics),
            t.licensor@ == licensor_of(bytes_or_default(m.licensor_uuid)),
            same_strings(t.language_of_performance@, m.language_of_performance@),
            t.original_title@ == text_or_default(m.original_title),
            t.version_title@ == text_or_default(m.version_title),
    {
        Track {
            name: text_field(&m.name),
            number: int_field(m.number),
            disc_number: int_field(m.disc_number),
            duration: int_field(m.duration),
            popularity: int_field(m.popularity),
            is_explicit: bool_field(m.explicit),
            files: AudioFiles::from_messages(m.file.as_slice()),
            previews: AudioFiles::from_messages(m.preview.as_slice()),
            tags: strings_field(&m.tags),
            has_lyrics: bool_field(m.has_lyrics),
            licensor: licensor_uuid(bytes_field(&m.licensor_uuid)),
            language_of_performance: strings_field(&m.language_of_performance),
            original_title: text_field(&m.original_title),
            version_title: text_field(&m.version_title),
        }
    }
}

/// An episode: the parts of its metadata that are plain values.
///
/// Its identifier, publish time, videos, restrictions, availability and
/// content ratings are built from types that this library does not hold.
#[derive(Debug, Clone)]
pub struct Episode {
    pub name: String,
    pub episode_type: EpisodeType,
    pub duration: i32,
    pub audio: AudioFiles,
    pub description: String,
    pub number: i32,
    pub covers: Images,
    pub language: String,
    pub is_explicit: bool,
    pub show_name: String,
    pub audio_previews: AudioFiles,
    pub freeze_frames: Images,
    pub keywords: Vec<String>,
    pub allow_background_playback: bool,
    pub external_url: String,
    pub has_music_and_talk: bool,
    pub is_audiobook_chapter: bool,
}

impl Episode {
    /// The episode that a message describes.
    pub fn from_message(m: &EpisodeMessage) -> (e: Episode)
        ensures
            e.name@ == text_or_default(m.name),
            e.episode_type == episode_type_of(m.type_),
            e.duration == int_or_default(m.duration),
            e.audio@ == audio_files_of(m.audio@),
            e.description@ == text_or_default(m.description),
            e.number == int_or_default(m.number),
            images_from_all(e.covers.0@, group_images(m.cover_image)),
            e.language@ == text_or_default(m.language),
            e.is_explicit == bool_or_default(m.explicit),
            e.show_name@ == text_or_default(m.show_name),
            e.audio_previews@ == audio_files_of(m.audio_preview@),
            images_from_all(e.freeze_frames.0@, group_images(m.freeze_frame)),
            same_strings(e.keywords@, m.keyword@),
            e.allow_background_playback == bool_or_default(m.allow_background_playback),
            e.external_url@ == text_or_default(m.external_url),
            e.has_music_and_talk == bool_or_default(m.music_and_talk),
            e.is_audiobook_chapter == bool_or_default(m.is_audiobook_chapter),
    {
        Episode {
            name: text_field(&m.name),
            episode_type: EpisodeType::from_field(m.type_),
            duration: int_field(m.duration),
            audio: AudioFiles::from_messages(m.audio.as_slice()),
            description: text_field(&m.description),
            number: int_field(m.number),
            covers: Images::from_messages(group_field(&m.cover_image)),
            language: text_field(&m.language),
            is_explicit: bool_field(m.explicit),
            show_name: text_field(&m.show_name),
            audio_previews: AudioFiles::from_messages(m.audio_preview.as_slice()),
            freeze_frames: Images::from_messages(group_field(&m.freeze_frame)),
            keywords: strings_field(&m.keyword),
            allow_background_playback: bool_field(m.allow_background_playback),
            external_url: text_field(&m.external_url),
            has_music_and_talk: bool_field(m.music_and_talk),
            is_audiobook_chapter: bool_field(m.is_audiobook_chapter),
        }
    }
}

/// An album: the parts of its metadata that are plain values.
///
/// Its identifier, artists, date, external ids, discs,
/// restrictions, related albums, sale periods and availability are built
/// from types that this library does not hold.
#[derive(Debug, Clone)]
pub struct Album {
    pub name: String,
    pub album_type: AlbumType,
    pub label: String,
    pub popularity: i32,
    pub covers: Images,
    pub reviews: Vec<String>,
    pub copyrights: Copyrights,
    pub cover_group: Images,
    pub original_title: String,
    pub version_title: String,
    pub type_str: String,
}

impl Album {
    /// The album that a message describes; `covers` and `cover_group` both
    /// hold the images of the cover group.
    pub fn from_message(m: &AlbumMessage) -> (a: Album)
        ensures
            a.name@ == text_or_default(m.name),
            a.album_type == album_type_of(m.type_),
            a.label@ == text_or_default(m.label),
            a.popularity == int_or_default(m.popularity),
            images_from_all(a.covers.0@, group_images(m.cover_group)),
            same_strings(a.reviews@, m.review@),
            copyrights_from_all(a.copyrights.0@, m.copyright@),
            images_from_all(a.cover_group.0@, group_images(m.cover_group)),
            a.original_title@ == text_or_default(m.original_title),
            a.version_title@ == text_or_default(m.version_title),
            a.type_str@ == text_or_default(m.type_str),
    {
        Album {
            name: text_field(&m.name),
            album_type: AlbumType::from_field(m.type_),
            label: text_field(&m.label),
            popularity: int_field(m.popularity),
            covers: Images::from_messages(group_field(&m.cover_group)),
            reviews: strings_field(&m.review),
            copyrights: Copyrights::from_messages(m.copyright.as_slice()),
            cover_group: Images::from_messages(group_field(&m.cover_group)),
            original_title: text_field(&m.original_title),
            version_title: text_field(&m.version_title),
            type_str: text_field(&m.type_str),
        }
    }
}

/// Geographic blocking types for a playlist.
#[derive(Debug, Clone)]
pub struct Geoblocks(Vec<GeoblockBlockingType>);

impl View for Geoblocks {
    type V = Seq<GeoblockBlockingType>;

    closed spec fn view(&self) -> Seq<GeoblockBlockingType> {
        self.0@
    }
}

impl Geoblocks {
    /// The blocking types of a list, in order.
    pub fn from_slice(types: &[GeoblockBlockingType]) -> (g: Geoblocks)
        ensures
            g@ == types@,
    {
        let mut v: Vec<GeoblockBlockingType> = Vec::new();
        let mut i: usize = 0;
        while i < types.len()
            invariant
                i <= types@.len(),
                v@ == types@.subrange(0, i as int),
            decreases types@.len() - i,
        {
            v.push(types[i]);
            assert(types@.subrange(0, i + 1) =~= v@);
            i = i + 1;
        }
        assert(types@.subrange(0, types@.len() as int) =~= types@);
        Geoblocks(v)
    }

    /// The number of blocking types.
    pub fn len(&self) -> (n: usize)
        ensures
            n == self@.len(),
    {
        self.0.len()
    }
}

/// The largest playlist timestamp that is taken to be in milliseconds.
pub const MAX_MILLISECOND_TIMESTAMP: i64 = 9295169800000;

/// A playlist timestamp in milliseconds: values too large to be
/// milliseconds are taken to be microseconds and divided by 1000.
pub open spec fn spec_playlist_timestamp_ms(t: i64) -> int {
    if t > MAX_MILLISECOND_TIMESTAMP {
        t / 1000
    } else {
        t as int
    }
}

/// The playlist timestamp in milliseconds; some playlists carry it in
/// microseconds, which shows as a value too large for milliseconds.
pub fn playlist_timestamp_ms(t: i64) -> (ms: i64)
    ensures
        ms == spec_playlist_timestamp_ms(t),
{
    if t > MAX_MILLISECOND_TIMESTAMP {
        t / 1000
    } else {
        t
    }
}

impl Geoblocks {
    /// The blocking types of a list of protocol numbers, in order; an
    /// unknown number becomes `UNSPECIFIED`.
    pub fn from_numbers(v: &[i32]) -> (g: Geoblocks)
        ensures
            g@ == v@.map_values(|x: i32| geoblock_of(x)),
    {
        let mut out: Vec<GeoblockBlockingType> = Vec::new();
        let mut i: usize = 0;
        while i < v.len()
            invariant
                i <= v@.len(),
                out@ == v@.subrange(0, i as int).map_values(|x: i32| geoblock_of(x)),
            decreases v@.len() - i,
        {
            out.push(GeoblockBlockingType::from_number(v[i]));
            assert(v@.subrange(0, i + 1).map_values(|x: i32| geoblock_of(x)) =~= out@);
            i = i + 1;
        }
        assert(v@.subrange(0, v@.len() as int) =~= v@);
        Geoblocks(out)
    }
}

impl Capabilities {
    /// The capabilities that an optional message describes; an absent
    /// message grants nothing.
    pub fn from_optional(o: &Option<CapabilitiesMessage>) -> (c: Capabilities)
        ensures
            capabilities_from_optional(c, *o),
    {
        match o {
            Some(m) => Capabilities::from_message(m),
            None => {
                let empty = CapabilitiesMessage {
                    can_view: None,
                    can_administrate_permissions: None,
                    grantable_level: Vec::new(),
                    can_edit_metadata: None,
                    can_edit_items: None,
                    can_cancel_membership: None,
                };
                Capabilities::from_message(&empty)
            },
        }
    }
}

/// The content of a playlist: the parts that are plain values.
///
/// The attributes, items, diffs and resulting revisions are built from types
/// that this library does not hold, and the timestamp is kept in
/// milliseconds rather than as a date.
#[derive(Debug, Clone)]
pub struct SelectedListContent {
    pub revision: Vec<u8>,
    pub length: i32,
    pub has_multiple_heads: bool,
    pub is_up_to_date: bool,
    pub nonces: Vec<i64>,
    /// The timestamp in milliseconds, as `playlist_timestamp_ms` reads it.
    pub timestamp_ms: i64,
    pub owner_username: String,
    pub has_abuse_reporting: bool,
    pub capabilities: Capabilities,
    pub geoblocks: Geoblocks,
}

impl SelectedListContent {
    /// The playlist content that a message describes.
    pub fn from_message(m: &SelectedListContentMessage) -> (c: SelectedListContent)
        ensures
            c.revision@ == bytes_or_default(m.revision),
            c.length == int_or_default(m.length),
            c.has_multiple_heads == bool_or_default(m.multiple_heads),
            c.is_up_to_date == bool_or_default(m.up_to_date),
            c.nonces@ == m.nonces@,
            c.timestamp_ms == spec_playlist_timestamp_ms(long_or_default(m.timestamp)),
            c.owner_username@ == text_or_default(m.owner_username),
            c.has_abuse_reporting == bool_or_default(m.abuse_reporting_enabled),
            capabilities_from_optional(c.capabilities, m.capabilities),
            c.geoblocks@ == m.geoblock@.map_values(|x: i32| geoblock_of(x)),
    {
        SelectedListContent {
            revision: bytes_vec_field(&m.revision),
            length: int_field(m.length),
            has_multiple_heads: bool_field(m.multiple_heads),
            is_up_to_date: bool_field(m.up_to_date),
            nonces: longs_field(&m.nonces),
            timestamp_ms: playlist_timestamp_ms(long_field(m.timestamp)),
            owner_username: text_field(&m.owner_username),
            has_abuse_reporting: bool_field(m.abuse_reporting_enabled),
            capabilities: Capabilities::from_optional(&m.capabilities),
            geoblocks: Geoblocks::from_numbers(m.geoblock.as_slice()),
        }
    }
}

/// An add operation on a playlist: the parts that are plain values. Its
/// items are built from types that this library does not hold.
#[derive(Debug, Clone, Copy)]
pub struct PlaylistOperationAdd {
    pub from_index: i32,
    pub add_last: bool,
    pub add_first: bool,
}

/// Whether `a` is the add operation that an optional message describes
/// (all fields unset when it is absent).
pub open spec fn add_from(a: PlaylistOperationAdd, o: Option<AddMessage>) -> bool {
    match o {
        Some(m) => a.from_index == int_or_default(m.from_index) && a.add_last == bool_or_default(
            m.add_last,
        ) && a.add_first == bool_or_default(m.add_first),
        None => a.from_index == 0 && !a.add_last && !a.add_first,
    }
}

/// A remove operation on a playlist: the parts that are plain values. Its
/// items are built from types that this library does not hold.
#[derive(Debug, Clone, Copy)]
pub struct PlaylistOperationRemove {
    pub from_index: i32,
    pub length: i32,
    pub has_items_as_key: bool,
}

/// Whether `r` is the remove operation that an optional message describes
/// (all fields unset when it is absent).
pub open spec fn remove_from(r: PlaylistOperationRemove, o: Option<RemMessage>) -> bool {
    match o {
        Some(m) => r.from_index == int_or_default(m.from_index) && r.length == int_or_default(
            m.length,
        ) && r.has_items_as_key == bool_or_default(m.items_as_key),
        None => r.from_index == 0 && r.length == 0 && !r.has_items_as_key,
    }
}

/// Whether `v` is the move operation that an optional message describes
/// (all fields unset when it is absent).
pub open spec fn move_from(v: PlaylistOperationMove, o: Option<MovMessage>) -> bool {
    match o {
        Some(m) => v.from_index == int_or_default(m.from_index) && v.length == int_or_default(
            m.length,
        ) && v.to_index == int_or_default(m.to_index),
        None => v.from_index == 0 && v.length == 0 && v.to_index == 0,
    }
}

impl PlaylistOperationAdd {
    /// The add operation that a message describes.
    pub fn from_message(m: &AddMessage) -> (a: PlaylistOperationAdd)
        ensures
            add_from(a, Some(*m)),
    {
        PlaylistOperationAdd {
            from_index: int_field(m.from_index),
            add_last: bool_field(m.add_last),
            add_first: bool_field(m.add_first),
        }
    }
}

impl PlaylistOperationRemove {
    /// The remove operation that a message describes.
    pub fn from_message(m: &RemMessage) -> (r: PlaylistOperationRemove)
        ensures
            remove_from(r, Some(*m)),
    {
        PlaylistOperationRemove {
            from_index: int_field(m.from_index),
            length: int_field(m.length),
            has_items_as_key: bool_field(m.items_as_key),
        }
    }
}

/// An operation on a playlist: its kind and the parts of its add, remove
/// and move operations that are plain values; an operation that is absent
/// from the message has all its fields unset. The attribute updates are
/// built from types that this library does not hold.
#[derive(Debug, Clone, Copy)]
pub struct PlaylistOperation {
    pub kind: PlaylistOperationKind,
    pub add: PlaylistOperationAdd,
    pub rem: PlaylistOperationRemove,
    pub mov: PlaylistOperationMove,
}

impl PlaylistOperation {
    /// The operation that a message describes.
    pub fn from_message(m: &OpMessage) -> (o: PlaylistOperation)
        ensures
            o.kind == operation_kind_of(m.kind),
            add_from(o.add, m.add),
            remove_from(o.rem, m.rem),
            move_from(o.mov, m.mov),
    {
        let add = match &m.add {
            Some(a) => PlaylistOperationAdd::from_message(a),
            None => PlaylistOperationAdd { from_index: 0, add_last: false, add_first: false },
        };
        let rem = match &m.rem {
            Some(r) => PlaylistOperationRemove::from_message(r),
            None => PlaylistOperationRemove { from_index: 0, length: 0, has_items_as_key: false },
        };
        let mov = match &m.mov {
            Some(v) => PlaylistOperationMove::from_message(v),
            None => PlaylistOperationMove { from_index: 0, length: 0, to_index: 0 },
        };
        PlaylistOperation { kind: PlaylistOperationKind::from_field(m.kind), add, rem, mov }
    }
}

/// Reasons why an audio item may not be available for playback.
#[derive(Debug, Copy, Clone, PartialEq, Eq, Structural)]
pub enum UnavailabilityReason {
    /// The user's country is on a blacklist for this resource.
    Blacklisted,
    /// The resource is not yet available (embargo date is in the future).
    Embargo,
    /// Required availability data was not present.
    NoData,
    /// A whitelist exists and the user's country is not on it.
    NotWhitelisted,
}

/// The description of each unavailability reason.
pub open spec fn unavailability_text(r: UnavailabilityReason) -> Seq<char> {
    match r {
        UnavailabilityReason::Blacklisted => "blacklist present and country on it"@,
        UnavailabilityReason::Embargo => "available date is in the future"@,
        UnavailabilityReason::NoData => "required data was not present"@,
        UnavailabilityReason::NotWhitelisted => "whitelist present and country not on it"@,
    }
}

impl UnavailabilityReason {
    /// The description of this reason, as it is displayed.
    pub fn to_string(&self) -> (s: String)
        ensures
            s@ == unavailability_text(*self),
    {
        String::from_str(match self {
            UnavailabilityReason::Blacklisted => "blacklist present and country on it",
            UnavailabilityReason::Embargo => "available date is in the future",
            UnavailabilityReason::NoData => "required data was not present",
            UnavailabilityReason::NotWhitelisted => "whitelist present and country not on it",
        })
    }
}

/// Errors that can occur when fetching or parsing metadata.
#[derive(Debug, Clone, Copy, PartialEq, Eq, Structural)]
pub enum MetadataError {
    /// The server returned an empty response.
    Empty,
    /// The audio item is not available for playback.
    NonPlayable,
    /// The audio item has an invalid duration.
    InvalidDuration(i32),
    /// The track contains explicit content, which the client setting filters out.
    ExplicitContentFiltered,
}

/// The text of a metadata error.
pub open spec fn metadata_error_text(e: MetadataError) -> Seq<char> {
    match e {
        MetadataError::Empty => "empty response"@,
        MetadataError::NonPlayable => "audio item is non-playable when it should be"@,
        MetadataError::InvalidDuration(d) => "audio item duration can not be: "@ + signed_decimal(
            d as int,
        ),
        MetadataError::ExplicitContentFiltered => "track is marked as explicit, which client setting forbids"@,
    }
}

impl MetadataError {
    /// The text of this error, as it is displayed.
    pub fn to_string(&self) -> (s: String)
        ensures
            s@ == metadata_error_text(*self),
    {
        match self {
            MetadataError::Empty => String::from_str("empty response"),
            MetadataError::NonPlayable => String::from_str("audio item is non-playable when it should be"),
            MetadataError::InvalidDuration(d) => concat_str(
                "audio item duration can not be: ",
                i32_to_decimal(*d).as_str(),
            ),
            MetadataError::ExplicitContentFiltered => String::from_str(
                "track is marked as explicit, which client setting forbids",
            ),
        }
    }
}

/// Synchronized or unsynchronized lyrics for a track.
#[derive(Debug, Clone, PartialEq, Eq)]
pub struct Lyrics {
    /// Color theme for displaying lyrics.
    pub colors: Colors,
    /// Whether a vocal-removal version is available.
    pub has_vocal_removal: bool,
    /// The lyrics content.
    pub lyrics: LyricsInner,
}

/// Color theme for displaying lyrics.
#[derive(Debug, Clone, PartialEq, Eq)]
pub struct Colors {
    /// Background color as an integer (ARGB).
    pub background: i32,
    /// Highlight text color as an integer (ARGB).
    pub highlight_text: i32,
    /// Text color as an integer (ARGB).
    pub text: i32,
}

/// The lyrics content with provider information.
#[derive(Debug, Clone, PartialEq, Eq)]
pub struct LyricsInner {
    /// Whether to use a dense typeface for display.
    pub is_dense_typeface: bool,
    /// Whether the lyrics use a right-to-left language.
    pub is_rtl_language: bool,
    /// The language of the lyrics (e.g., `"en"`).
    pub language: String,
    /// The individual lines of lyrics.
    pub lines: Vec<Line>,
    /// The lyrics provider identifier.
    pub provider: String,
    /// The display name of the lyrics provider.
    pub provider_display_name: String,
    /// The provider-specific lyrics identifier.
    pub provider_lyrics_id: String,
    /// The URI for synchronized lyrics, if available.
    pub sync_lyrics_uri: String,
    /// Whether the lyrics are synchronized (timed) or unsynchronized.
    pub sync_type: SyncType,
}

/// Whether lyrics are synchronized (timed) with the audio.
#[derive(Debug, Clone, Copy, PartialEq, Eq)]
pub enum SyncType {
    /// Lyrics are not synchronized with timestamps.
    Unsynced,
    /// Lyrics are synchronized line-by-line.
    LineSynced,
}

/// A single line of lyrics with optional timing information.
#[derive(Debug, Clone, PartialEq, Eq)]
pub struct Line {
    /// Start time in milliseconds (as a string).
    pub start_time_ms: String,
    /// End time in milliseconds (as a string).
    pub end_time_ms: String,
    /// The lyrics text for this line.
    pub words: String,
}

/// The description of every unavailability reason.
pub proof fn lemma_unavailability_text_table(v: UnavailabilityReason)
    ensures
        v is Blacklisted ==> unavailability_text(v) == "blacklist present and country on it"@,
        v is Embargo ==> unavailability_text(v) == "available date is in the future"@,
        v is NoData ==> unavailability_text(v) == "required data was not present"@,
        v is NotWhitelisted ==> unavailability_text(v) == "whitelist present and country not on it"@,
{
}

/// The text of every metadata error that carries no value.
pub proof fn lemma_metadata_error_text_table(v: MetadataError)
    ensures
        v is Empty ==> metadata_error_text(v) == "empty response"@,
        v is NonPlayable ==> metadata_error_text(v) == "audio item is non-playable when it should be"@,
        v is ExplicitContentFiltered ==> metadata_error_text(v) == "track is marked as explicit, which client setting forbids"@,
        v matches MetadataError::InvalidDuration(d) ==> metadata_error_text(v)
            == "audio item duration can not be: "@ + signed_decimal(d as int),
{
}

/// A playlist timestamp of at most 9295169800000 is already in
/// milliseconds and is kept; a larger one is in microseconds and is divided
/// by 1000, rounding toward zero.
pub proof fn lemma_playlist_timestamp_rule(t: i64)
    ensures
        t <= 9295169800000 ==> spec_playlist_timestamp_ms(t) == t,
        t > 9295169800000 ==> spec_playlist_timestamp_ms(t) * 1000 <= t < spec_playlist_timestamp_ms(t)
            * 1000 + 1000,
{
}

} // verus!
