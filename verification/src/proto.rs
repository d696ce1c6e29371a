//! The protobuf messages of Spotify's metadata and playlist protocol that the
//! metadata types are built from, as plain values.
//!
//! An optional field is an `Option`; an enum field holds the number that was
//! sent, which may name no value of the enum. The getters answer as protobuf
//! getters do: the default for an absent field, and the first value of the
//! enum for an absent or unknown number.

use vstd::prelude::*;

verus! {

/// The format of an audio file, as the metadata protocol numbers it.
#[allow(non_camel_case_types)]
#[derive(Debug, Copy, Clone, PartialEq, Eq, Structural)]
pub enum Format {
    OGG_VORBIS_96,
    OGG_VORBIS_160,
    OGG_VORBIS_320,
    MP3_256,
    MP3_320,
    MP3_160,
    MP3_96,
    MP3_160_ENC,
    AAC_24,
    AAC_48,
    FLAC_FLAC,
    XHE_AAC_24,
    XHE_AAC_16,
    XHE_AAC_12,
    FLAC_FLAC_24BIT,
}

/// The format with protocol number `v`, if there is one.
pub open spec fn format_of_number(v: i32) -> Option<Format> {
    if v == 0 {
        Some(Format::OGG_VORBIS_96)
    } else if v == 1 {
        Some(Format::OGG_VORBIS_160)
    } else if v == 2 {
        Some(Format::OGG_VORBIS_320)
    } else if v == 3 {
        Some(Format::MP3_256)
    } else if v == 4 {
        Some(Format::MP3_320)
    } else if v == 5 {
        Some(Format::MP3_160)
    } else if v == 6 {
        Some(Format::MP3_96)
    } else if v == 7 {
        Some(Format::MP3_160_ENC)
    } else if v == 8 {
        Some(Format::AAC_24)
    } else if v == 9 {
        Some(Format::AAC_48)
    } else if v == 16 {
        Some(Format::FLAC_FLAC)
    } else if v == 18 {
        Some(Format::XHE_AAC_24)
    } else if v == 19 {
        Some(Format::XHE_AAC_16)
    } else if v == 20 {
        Some(Format::XHE_AAC_12)
    } else if v == 22 {
        Some(Format::FLAC_FLAC_24BIT)
    } else {
        None
    }
}

impl Format {
    /// The format with protocol number `v`, or `None` for a number that no
    /// format has.
    pub fn from_i32(v: i32) -> (f: Option<Format>)
        ensures
            f == format_of_number(v),
    {
        match v {
            0 => Some(Format::OGG_VORBIS_96),
            1 => Some(Format::OGG_VORBIS_160),
            2 => Some(Format::OGG_VORBIS_320),
            3 => Some(Format::MP3_256),
            4 => Some(Format::MP3_320),
            5 => Some(Format::MP3_160),
            6 => Some(Format::MP3_96),
            7 => Some(Format::MP3_160_ENC),
            8 => Some(Format::AAC_24),
            9 => Some(Format::AAC_48),
            16 => Some(Format::FLAC_FLAC),
            18 => Some(Format::XHE_AAC_24),
            19 => Some(Format::XHE_AAC_16),
            20 => Some(Format::XHE_AAC_12),
            22 => Some(Format::FLAC_FLAC_24BIT),
            _ => None,
        }
    }
}

/// The size category of an image.
#[allow(non_camel_case_types)]
#[derive(Debug, Copy, Clone, PartialEq, Eq, Structural)]
pub enum ImageSize {
    DEFAULT,
    SMALL,
    LARGE,
    XLARGE,
}

/// The image size that an optional protocol number stands for.
pub open spec fn image_size_of(v: Option<i32>) -> ImageSize {
    match v {
        Some(1) => ImageSize::SMALL,
        Some(2) => ImageSize::LARGE,
        Some(3) => ImageSize::XLARGE,
        _ => ImageSize::DEFAULT,
    }
}

/// The type of a copyright notice: `P` for a sound recording, `C` for the
/// composition.
#[derive(Debug, Copy, Clone, PartialEq, Eq, Structural)]
pub enum CopyrightType {
    P,
    C,
}

/// The copyright type that an optional protocol number stands for.
pub open spec fn copyright_type_of(v: Option<i32>) -> CopyrightType {
    match v {
        Some(1) => CopyrightType::C,
        _ => CopyrightType::P,
    }
}

/// A permission level on a playlist.
#[derive(Debug, Copy, Clone, PartialEq, Eq, Structural)]
pub enum PermissionLevel {
    UNKNOWN,
    BLOCKED,
    VIEWER,
    CONTRIBUTOR,
}

/// The permission level that a protocol number stands for.
pub open spec fn permission_level_of(v: i32) -> PermissionLevel {
    if v == 1 {
        PermissionLevel::BLOCKED
    } else if v == 2 {
        PermissionLevel::VIEWER
    } else if v == 3 {
        PermissionLevel::CONTRIBUTOR
    } else {
        PermissionLevel::UNKNOWN
    }
}

/// The part of a playlist that a geographic block hides.
#[allow(non_camel_case_types)]
#[derive(Debug, Copy, Clone, PartialEq, Eq, Structural)]
pub enum GeoblockBlockingType {
    GEOBLOCK_BLOCKING_TYPE_UNSPECIFIED,
    GEOBLOCK_BLOCKING_TYPE_TITLE,
    GEOBLOCK_BLOCKING_TYPE_DESCRIPTION,
    GEOBLOCK_BLOCKING_TYPE_IMAGE,
}

/// The type of an episode.
#[allow(non_camel_case_types)]
#[derive(Debug, Copy, Clone, PartialEq, Eq, Structural)]
pub enum EpisodeType {
    FULL,
    TRAILER,
    BONUS,
}

/// The episode type that an optional protocol number stands for: `FULL`
/// (0) for an absent or unknown number.
pub open spec fn episode_type_of(v: Option<i32>) -> EpisodeType {
    match v {
        Some(1) => EpisodeType::TRAILER,
        Some(2) => EpisodeType::BONUS,
        _ => EpisodeType::FULL,
    }
}

/// The type of an album.
#[allow(non_camel_case_types)]
#[derive(Debug, Copy, Clone, PartialEq, Eq, Structural)]
pub enum AlbumType {
    ALBUM,
    SINGLE,
    COMPILATION,
    EP,
    AUDIOBOOK,
    PODCAST,
}

/// The album type that an optional protocol number stands for: `ALBUM`
/// (1, the first value) for an absent or unknown number.
pub open spec fn album_type_of(v: Option<i32>) -> AlbumType {
    match v {
        Some(2) => AlbumType::SINGLE,
        Some(3) => AlbumType::COMPILATION,
        Some(4) => AlbumType::EP,
        Some(5) => AlbumType::AUDIOBOOK,
        Some(6) => AlbumType::PODCAST,
        _ => AlbumType::ALBUM,
    }
}

/// The kind of a playlist operation.
#[allow(non_camel_case_types)]
#[derive(Debug, Copy, Clone, PartialEq, Eq, Structural)]
pub enum PlaylistOperationKind {
    KIND_UNKNOWN,
    ADD,
    REM,
    MOV,
    UPDATE_ITEM_ATTRIBUTES,
    UPDATE_LIST_ATTRIBUTES,
}

/// The operation kind that an optional protocol number stands for:
/// `KIND_UNKNOWN` (0) for an absent or unknown number.
pub open spec fn operation_kind_of(v: Option<i32>) -> PlaylistOperationKind {
    match v {
        Some(2) => PlaylistOperationKind::ADD,
        Some(3) => PlaylistOperationKind::REM,
        Some(4) => PlaylistOperationKind::MOV,
        Some(5) => PlaylistOperationKind::UPDATE_ITEM_ATTRIBUTES,
        Some(6) => PlaylistOperationKind::UPDATE_LIST_ATTRIBUTES,
        _ => PlaylistOperationKind::KIND_UNKNOWN,
    }
}

/// The geoblocking type that a protocol number stands for: `UNSPECIFIED`
/// (0) for an unknown number.
pub open spec fn geoblock_of(v: i32) -> GeoblockBlockingType {
    if v == 1 {
        GeoblockBlockingType::GEOBLOCK_BLOCKING_TYPE_TITLE
    } else if v == 2 {
        GeoblockBlockingType::GEOBLOCK_BLOCKING_TYPE_DESCRIPTION
    } else if v == 3 {
        GeoblockBlockingType::GEOBLOCK_BLOCKING_TYPE_IMAGE
    } else {
        GeoblockBlockingType::GEOBLOCK_BLOCKING_TYPE_UNSPECIFIED
    }
}

/// An add operation on a playlist: the fields that hold plain values.
#[derive(Debug, Clone)]
pub struct AddMessage {
    pub from_index: Option<i32>,
    pub add_last: Option<bool>,
    pub add_first: Option<bool>,
}

/// A remove operation on a playlist: the fields that hold plain values.
#[derive(Debug, Clone)]
pub struct RemMessage {
    pub from_index: Option<i32>,
    pub length: Option<i32>,
    pub items_as_key: Option<bool>,
}

/// An operation on a playlist: its kind and the operations that hold plain
/// values.
#[derive(Debug, Clone)]
pub struct OpMessage {
    pub kind: Option<i32>,
    pub add: Option<AddMessage>,
    pub rem: Option<RemMessage>,
    pub mov: Option<MovMessage>,
}

/// The content of a playlist as the playlist service sends it: the fields
/// that hold plain values.
#[derive(Debug, Clone)]
pub struct SelectedListContentMessage {
    pub revision: Option<Vec<u8>>,
    pub length: Option<i32>,
    pub multiple_heads: Option<bool>,
    pub up_to_date: Option<bool>,
    pub nonces: Vec<i64>,
    pub timestamp: Option<i64>,
    pub owner_username: Option<String>,
    pub abuse_reporting_enabled: Option<bool>,
    pub capabilities: Option<CapabilitiesMessage>,
    pub geoblock: Vec<i32>,
}

/// An audio file of a track or an episode.
#[derive(Debug, Clone)]
pub struct AudioFileMessage {
    pub file_id: Option<Vec<u8>>,
    pub format: Option<i32>,
}

/// An image of a resource.
#[derive(Debug, Clone)]
pub struct ImageMessage {
    pub file_id: Option<Vec<u8>>,
    pub size: Option<i32>,
    pub width: Option<i32>,
    pub height: Option<i32>,
}

/// A group of images.
#[derive(Debug, Clone)]
pub struct ImageGroup {
    pub image: Vec<ImageMessage>,
}

/// A copyright notice.
#[derive(Debug, Clone)]
pub struct CopyrightMessage {
    pub type_: Option<i32>,
    pub text: Option<String>,
}

/// A named picture size with its URL.
#[derive(Debug, Clone)]
pub struct PictureSizeMessage {
    pub target_name: Option<String>,
    pub url: Option<String>,
}

/// A move operation on a playlist.
#[derive(Debug, Clone)]
pub struct MovMessage {
    pub from_index: Option<i32>,
    pub length: Option<i32>,
    pub to_index: Option<i32>,
}

/// The capabilities of a user on a playlist.
#[derive(Debug, Clone)]
pub struct CapabilitiesMessage {
    pub can_view: Option<bool>,
    pub can_administrate_permissions: Option<bool>,
    pub grantable_level: Vec<i32>,
    pub can_edit_metadata: Option<bool>,
    pub can_edit_items: Option<bool>,
    pub can_cancel_membership: Option<bool>,
}

/// A track of the metadata protocol: the fields that hold plain values.
#[derive(Debug, Clone)]
pub struct TrackMessage {
    pub name: Option<String>,
    pub number: Option<i32>,
    pub disc_number: Option<i32>,
    pub duration: Option<i32>,
    pub popularity: Option<i32>,
    pub explicit: Option<bool>,
    pub file: Vec<AudioFileMessage>,
    pub preview: Vec<AudioFileMessage>,
    pub tags: Vec<String>,
    pub has_lyrics: Option<bool>,
    /// The `uuid` field of the track's licensor message.
    pub licensor_uuid: Option<Vec<u8>>,
    pub language_of_performance: Vec<String>,
    pub original_title: Option<String>,
    pub version_title: Option<String>,
}

/// An episode of the metadata protocol: the fields that hold plain values.
#[derive(Debug, Clone)]
pub struct EpisodeMessage {
    pub name: Option<String>,
    /// The `type` field, as its protocol number.
    pub type_: Option<i32>,
    pub duration: Option<i32>,
    pub audio: Vec<AudioFileMessage>,
    pub description: Option<String>,
    pub number: Option<i32>,
    pub cover_image: Option<ImageGroup>,
    pub language: Option<String>,
    pub explicit: Option<bool>,
    /// The `name` field of the episode's show message.
    pub show_name: Option<String>,
    pub audio_preview: Vec<AudioFileMessage>,
    pub freeze_frame: Option<ImageGroup>,
    pub keyword: Vec<String>,
    pub allow_background_playback: Option<bool>,
    pub external_url: Option<String>,
    pub music_and_talk: Option<bool>,
    pub is_audiobook_chapter: Option<bool>,
}

/// An album of the metadata protocol: the fields that hold plain values.
#[derive(Debug, Clone)]
pub struct AlbumMessage {
    pub name: Option<String>,
    /// The `type` field, as its protocol number.
    pub type_: Option<i32>,
    pub label: Option<String>,
    pub popularity: Option<i32>,
    pub cover_group: Option<ImageGroup>,
    pub review: Vec<String>,
    pub copyright: Vec<CopyrightMessage>,
    pub original_title: Option<String>,
    pub version_title: Option<String>,
    pub type_str: Option<String>,
}

/// The images of an optional image group, none when it is absent.
pub open spec fn group_images(g: Option<ImageGroup>) -> Seq<ImageMessage> {
    match g {
        Some(x) => x.image@,
        None => Seq::empty(),
    }
}

/// The images of an optional image group, none when it is absent.
pub fn group_field(g: &Option<ImageGroup>) -> (x: &[ImageMessage])
    ensures
        x@ == group_images(*g),
{
    match g {
        Some(x) => x.image.as_slice(),
        None => &[],
    }
}

/// Whether two lists of strings hold the same texts in the same order.
pub open spec fn same_strings(a: Seq<String>, b: Seq<String>) -> bool {
    a.len() == b.len() && forall|i: int| 0 <= i < a.len() ==> #[trigger] a[i]@ == b[i]@
}

/// A copy of the strings of a repeated string field, in order.
pub fn strings_field(v: &Vec<String>) -> (r: Vec<String>)
    ensures
        same_strings(r@, v@),
{
    let mut r: Vec<String> = Vec::new();
    let mut i: usize = 0;
    while i < v.len()
        invariant
            i <= v@.len(),
            r@.len() == i,
            forall|k: int| 0 <= k < i ==> #[trigger] r@[k]@ == v@[k]@,
        decreases v@.len() - i,
    {
        r.push(v[i].clone());
        i = i + 1;
    }
    r
}

/// The value of an optional integer field, 0 when absent.
pub open spec fn int_or_default(v: Option<i32>) -> i32 {
    match v {
        Some(x) => x,
        None => 0,
    }
}

/// The value of an optional boolean field, `false` when absent.
pub open spec fn bool_or_default(v: Option<bool>) -> bool {
    match v {
        Some(x) => x,
        None => false,
    }
}

/// The value of an optional string field, empty when absent.
pub open spec fn text_or_default(v: Option<String>) -> Seq<char> {
    match v {
        Some(x) => x@,
        None => Seq::empty(),
    }
}

/// The value of an optional bytes field, empty when absent.
pub open spec fn bytes_or_default(v: Option<Vec<u8>>) -> Seq<u8> {
    match v {
        Some(x) => x@,
        None => Seq::empty(),
    }
}

/// The value of an optional integer field, 0 when absent.
pub fn int_field(v: Option<i32>) -> (x: i32)
    ensures
        x == int_or_default(v),
{
    match v {
        Some(x) => x,
        None => 0,
    }
}

/// The value of an optional boolean field, `false` when absent.
pub fn bool_field(v: Option<bool>) -> (x: bool)
    ensures
        x == bool_or_default(v),
{
    match v {
        Some(x) => x,
        None => false,
    }
}

/// The value of an optional string field, empty when absent.
pub fn text_field(v: &Option<String>) -> (x: String)
    ensures
        x@ == text_or_default(*v),
{
    match v {
        Some(x) => x.clone(),
        None => String::new(),
    }
}

/// The value of an optional bytes field, empty when absent.
pub fn bytes_field(v: &Option<Vec<u8>>) -> (x: &[u8])
    ensures
        x@ == bytes_or_default(*v),
{
    match v {
        Some(x) => x.as_slice(),
        None => &[],
    }
}

impl ImageSize {
    /// The image size that an optional protocol number stands for.
    pub fn from_field(v: Option<i32>) -> (s: ImageSize)
        ensures
            s == image_size_of(v),
    {
        match v {
            Some(1) => ImageSize::SMALL,
            Some(2) => ImageSize::LARGE,
            Some(3) => ImageSize::XLARGE,
            _ => ImageSize::DEFAULT,
        }
    }
}

impl EpisodeType {
    /// The episode type that an optional protocol number stands for.
    pub fn from_field(v: Option<i32>) -> (t: EpisodeType)
        ensures
            t == episode_type_of(v),
    {
        match v {
            Some(1) => EpisodeType::TRAILER,
            Some(2) => EpisodeType::BONUS,
            _ => EpisodeType::FULL,
        }
    }
}

impl AlbumType {
    /// The album type that an optional protocol number stands for.
    pub fn from_field(v: Option<i32>) -> (t: AlbumType)
        ensures
            t == album_type_of(v),
    {
        match v {
            Some(2) => AlbumType::SINGLE,
            Some(3) => AlbumType::COMPILATION,
            Some(4) => AlbumType::EP,
            Some(5) => AlbumType::AUDIOBOOK,
            Some(6) => AlbumType::PODCAST,
            _ => AlbumType::ALBUM,
        }
    }
}

impl PlaylistOperationKind {
    /// The operation kind that an optional protocol number stands for.
    pub fn from_field(v: Option<i32>) -> (k: PlaylistOperationKind)
        ensures
            k == operation_kind_of(v),
    {
        match v {
            Some(2) => PlaylistOperationKind::ADD,
            Some(3) => PlaylistOperationKind::REM,
            Some(4) => PlaylistOperationKind::MOV,
            Some(5) => PlaylistOperationKind::UPDATE_ITEM_ATTRIBUTES,
            Some(6) => PlaylistOperationKind::UPDATE_LIST_ATTRIBUTES,
            _ => PlaylistOperationKind::KIND_UNKNOWN,
        }
    }
}

impl GeoblockBlockingType {
    /// The geoblocking type that a protocol number stands for.
    pub fn from_number(v: i32) -> (g: GeoblockBlockingType)
        ensures
            g == geoblock_of(v),
    {
        match v {
            1 => GeoblockBlockingType::GEOBLOCK_BLOCKING_TYPE_TITLE,
            2 => GeoblockBlockingType::GEOBLOCK_BLOCKING_TYPE_DESCRIPTION,
            3 => GeoblockBlockingType::GEOBLOCK_BLOCKING_TYPE_IMAGE,
            _ => GeoblockBlockingType::GEOBLOCK_BLOCKING_TYPE_UNSPECIFIED,
        }
    }
}

/// The value of an optional 64-bit integer field, 0 when absent.
pub open spec fn long_or_default(v: Option<i64>) -> i64 {
    match v {
        Some(x) => x,
        None => 0,
    }
}

/// The value of an optional 64-bit integer field, 0 when absent.
pub fn long_field(v: Option<i64>) -> (x: i64)
    ensures
        x == long_or_default(v),
{
    match v {
        Some(x) => x,
        None => 0,
    }
}

/// A copy of a repeated 64-bit integer field.
pub fn longs_field(v: &Vec<i64>) -> (r: Vec<i64>)
    ensures
        r@ == v@,
{
    let mut r: Vec<i64> = Vec::new();
    let mut i: usize = 0;
    while i < v.len()
        invariant
            i <= v@.len(),
            r@ == v@.subrange(0, i as int),
        decreases v@.len() - i,
    {
        r.push(v[i]);
        assert(v@.subrange(0, i + 1) =~= r@);
        i = i + 1;
    }
    assert(v@.subrange(0, v@.len() as int) =~= v@);
    r
}

/// A copy of an optional bytes field, empty when absent.
pub fn bytes_vec_field(v: &Option<Vec<u8>>) -> (r: Vec<u8>)
    ensures
        r@ == bytes_or_default(*v),
{
    match v {
        Some(x) => x.clone(),
        None => Vec::new(),
    }
}

impl CopyrightType {
    /// The copyright type that an optional protocol number stands for.
    pub fn from_field(v: Option<i32>) -> (t: CopyrightType)
        ensures
            t == copyright_type_of(v),
    {
        match v {
            Some(1) => CopyrightType::C,
            _ => CopyrightType::P,
        }
    }
}

impl PermissionLevel {
    /// The permission level that a protocol number stands for.
    pub fn from_number(v: i32) -> (l: PermissionLevel)
        ensures
            l == permission_level_of(v),
    {
        match v {
            1 => PermissionLevel::BLOCKED,
            2 => PermissionLevel::VIEWER,
            3 => PermissionLevel::CONTRIBUTOR,
            _ => PermissionLevel::UNKNOWN,
        }
    }
}

/// The value that each protocol number stands for, for every enum field of
/// the protocol messages; any other number stands for the enum's default
/// (`None` for an audio file format).
pub proof fn lemma_protocol_number_tables(n: i32)
    ensures
        format_of_number(0i32) == Some(Format::OGG_VORBIS_96),
        format_of_number(1i32) == Some(Format::OGG_VORBIS_160),
        format_of_number(2i32) == Some(Format::OGG_VORBIS_320),
        format_of_number(3i32) == Some(Format::MP3_256),
        format_of_number(4i32) == Some(Format::MP3_320),
        format_of_number(5i32) == Some(Format::MP3_160),
        format_of_number(6i32) == Some(Format::MP3_96),
        format_of_number(7i32) == Some(Format::MP3_160_ENC),
        format_of_number(8i32) == Some(Format::AAC_24),
        format_of_number(9i32) == Some(Format::AAC_48),
        format_of_number(16i32) == Some(Format::FLAC_FLAC),
        format_of_number(18i32) == Some(Format::XHE_AAC_24),
        format_of_number(19i32) == Some(Format::XHE_AAC_16),
        format_of_number(20i32) == Some(Format::XHE_AAC_12),
        format_of_number(22i32) == Some(Format::FLAC_FLAC_24BIT),
        format_of_number(n) is None || n == 0 || n == 1 || n == 2 || n == 3 || n == 4 || n == 5 || n == 6 || n == 7 || n == 8 || n == 9 || n == 16 || n == 18 || n == 19 || n == 20 || n == 22,
        permission_level_of(1i32) == PermissionLevel::BLOCKED,
        permission_level_of(2i32) == PermissionLevel::VIEWER,
        permission_level_of(3i32) == PermissionLevel::CONTRIBUTOR,
        permission_level_of(n) == PermissionLevel::UNKNOWN || n == 1 || n == 2 || n == 3,
        geoblock_of(1i32) == GeoblockBlockingType::GEOBLOCK_BLOCKING_TYPE_TITLE,
        geoblock_of(2i32) == GeoblockBlockingType::GEOBLOCK_BLOCKING_TYPE_DESCRIPTION,
        geoblock_of(3i32) == GeoblockBlockingType::GEOBLOCK_BLOCKING_TYPE_IMAGE,
        geoblock_of(n) == GeoblockBlockingType::GEOBLOCK_BLOCKING_TYPE_UNSPECIFIED || n == 1 || n == 2 || n == 3,
        image_size_of(Some(1i32)) == ImageSize::SMALL,
        image_size_of(Some(2i32)) == ImageSize::LARGE,
        image_size_of(Some(3i32)) == ImageSize::XLARGE,
        image_size_of(None) == ImageSize::DEFAULT,
        image_size_of(Some(n)) == ImageSize::DEFAULT || n == 1 || n == 2 || n == 3,
        copyright_type_of(Some(1i32)) == CopyrightType::C,
        copyright_type_of(None) == CopyrightType::P,
        copyright_type_of(Some(n)) == CopyrightType::P || n == 1,
        episode_type_of(Some(1i32)) == EpisodeType::TRAILER,
        episode_type_of(Some(2i32)) == EpisodeType::BONUS,
        episode_type_of(None) == EpisodeType::FULL,
        episode_type_of(Some(n)) == EpisodeType::FULL || n == 1 || n == 2,
        album_type_of(Some(2i32)) == AlbumType::SINGLE,
        album_type_of(Some(3i32)) == AlbumType::COMPILATION,
        album_type_of(Some(4i32)) == AlbumType::EP,
        album_type_of(Some(5i32)) == AlbumType::AUDIOBOOK,
        album_type_of(Some(6i32)) == AlbumType::PODCAST,
        album_type_of(None) == AlbumType::ALBUM,
        album_type_of(Some(n)) == AlbumType::ALBUM || n == 2 || n == 3 || n == 4 || n == 5 || n == 6,
        operation_kind_of(Some(2i32)) == PlaylistOperationKind::ADD,
        operation_kind_of(Some(3i32)) == PlaylistOperationKind::REM,
        operation_kind_of(Some(4i32)) == PlaylistOperationKind::MOV,
        operation_kind_of(Some(5i32)) == PlaylistOperationKind::UPDATE_ITEM_ATTRIBUTES,
        operation_kind_of(Some(6i32)) == PlaylistOperationKind::UPDATE_LIST_ATTRIBUTES,
        operation_kind_of(None) == PlaylistOperationKind::KIND_UNKNOWN,
        operation_kind_of(Some(n)) == PlaylistOperationKind::KIND_UNKNOWN || n == 2 || n == 3 || n == 4 || n == 5 || n == 6,
{
}

} // verus!
