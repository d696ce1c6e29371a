use librespot::file_id::FileId;
use librespot::metadata::{
    licensor_uuid, playlist_timestamp_ms, PlaylistOperation, SelectedListContent, Album, AudioFileFormat, Episode, MetadataError, Track, AudioFiles, Capabilities, Copyright, Copyrights,
    Geoblocks, Image, Images, PictureSize, PictureSizes, PlaylistOperationMove,
    UnavailabilityReason, MAX_MILLISECOND_TIMESTAMP,
};
use librespot::proto::{
    AddMessage, AlbumType, EpisodeType, OpMessage, PlaylistOperationKind, RemMessage,
    SelectedListContentMessage,
    AlbumMessage, AudioFileMessage, CapabilitiesMessage, EpisodeMessage, TrackMessage, CopyrightMessage, CopyrightType, Format,
    GeoblockBlockingType, ImageGroup, ImageMessage, ImageSize, MovMessage, PermissionLevel,
    PictureSizeMessage,
};

#[test]
fn audio_file_format_numbers() {
    assert_eq!(AudioFileFormat::try_from_i32(0), Ok(AudioFileFormat::OGG_VORBIS_96));
    assert_eq!(AudioFileFormat::try_from_i32(4), Ok(AudioFileFormat::MP3_320));
    assert_eq!(AudioFileFormat::try_from_i32(10), Ok(AudioFileFormat::AAC_160));
    assert_eq!(AudioFileFormat::try_from_i32(13), Ok(AudioFileFormat::OTHER5));
    assert_eq!(AudioFileFormat::try_from_i32(16), Ok(AudioFileFormat::FLAC_FLAC));
    assert_eq!(AudioFileFormat::try_from_i32(22), Ok(AudioFileFormat::FLAC_FLAC_24BIT));
    assert_eq!(AudioFileFormat::try_from_i32(14), Err(14));
    assert_eq!(AudioFileFormat::try_from_i32(-1), Err(-1));
    assert_eq!(AudioFileFormat::try_from(2), Ok(AudioFileFormat::OGG_VORBIS_320));
    assert_eq!(AudioFileFormat::from_proto(Format::XHE_AAC_12), AudioFileFormat::XHE_AAC_12);
}

#[test]
fn audio_file_kinds_and_mime_types() {
    assert!(AudioFiles::is_ogg_vorbis(AudioFileFormat::OGG_VORBIS_160));
    assert!(!AudioFiles::is_ogg_vorbis(AudioFileFormat::MP3_160));
    assert!(AudioFiles::is_mp3(AudioFileFormat::MP3_160_ENC));
    assert!(AudioFiles::is_flac(AudioFileFormat::FLAC_FLAC));
    assert!(AudioFiles::is_flac(AudioFileFormat::FLAC_FLAC_24BIT));
    assert!(!AudioFiles::is_flac(AudioFileFormat::OGG_VORBIS_96));
    assert!(!AudioFiles::is_flac(AudioFileFormat::AAC_320));
    assert_eq!(AudioFiles::mime_type(AudioFileFormat::OGG_VORBIS_320), Some("audio/ogg"));
    assert_eq!(AudioFiles::mime_type(AudioFileFormat::MP3_96), Some("audio/mpeg"));
    assert_eq!(AudioFiles::mime_type(AudioFileFormat::FLAC_FLAC), Some("audio/flac"));
    assert_eq!(AudioFiles::mime_type(AudioFileFormat::FLAC_FLAC_24BIT), Some("audio/flac"));
    assert_eq!(AudioFiles::mime_type(AudioFileFormat::AAC_24), None);
}

#[test]
fn audio_files_map() {
    let mut files = AudioFiles::new();
    assert!(files.get(AudioFileFormat::MP3_96).is_none());
    files.insert(AudioFileFormat::MP3_96, FileId([1; 20]));
    files.insert(AudioFileFormat::MP3_96, FileId([2; 20]));
    assert_eq!(files.get(AudioFileFormat::MP3_96), Some(FileId([2; 20])));
    assert!(files.get(AudioFileFormat::MP3_160).is_none());
}

#[test]
fn audio_files_from_messages() {
    let msgs = vec![
        AudioFileMessage { file_id: Some(vec![1, 2]), format: Some(0) },
        AudioFileMessage { file_id: Some(vec![3]), format: Some(14) },
        AudioFileMessage { file_id: Some(vec![4]), format: None },
        AudioFileMessage { file_id: Some(vec![5]), format: Some(0) },
        AudioFileMessage { file_id: None, format: Some(16) },
        AudioFileMessage { file_id: Some(vec![6]), format: Some(10) },
    ];
    let files = AudioFiles::from_messages(&msgs);
    let mut five = [0u8; 20];
    five[0] = 5;
    assert_eq!(files.get(AudioFileFormat::OGG_VORBIS_96), Some(FileId(five)));
    assert_eq!(files.get(AudioFileFormat::FLAC_FLAC), Some(FileId([0; 20])));
    assert!(files.get(AudioFileFormat::AAC_160).is_none());
}

#[test]
fn images_from_messages() {
    let m = ImageMessage { file_id: Some(vec![9]), size: Some(2), width: Some(640), height: None };
    let i = Image::from_message(&m);
    assert_eq!(i.id.0[0], 9);
    assert_eq!(i.size, ImageSize::LARGE);
    assert_eq!(i.width, 640);
    assert_eq!(i.height, 0);
    let unknown = ImageMessage { file_id: None, size: Some(7), width: None, height: None };
    let group = ImageGroup { image: vec![m.clone(), unknown] };
    let images = Images::from_group(&group);
    assert_eq!(images.0.len(), 2);
    assert_eq!(images.0[1].size, ImageSize::DEFAULT);
    assert_eq!(Images::from_messages(&[m]).0[0].width, 640);
}

#[test]
fn copyrights_from_messages() {
    let c = Copyright::from_message(&CopyrightMessage { type_: Some(1), text: Some("(c) x".to_string()) });
    assert_eq!(c.copyright_type, CopyrightType::C);
    assert_eq!(c.text, "(c) x");
    let all = Copyrights::from_messages(&[
        CopyrightMessage { type_: None, text: None },
        CopyrightMessage { type_: Some(5), text: Some("p".to_string()) },
    ]);
    assert_eq!(all.0.len(), 2);
    assert_eq!(all.0[0].copyright_type, CopyrightType::P);
    assert_eq!(all.0[0].text, "");
    assert_eq!(all.0[1].copyright_type, CopyrightType::P);
}

#[test]
fn picture_sizes_from_messages() {
    let p = PictureSize::from_message(&PictureSizeMessage {
        target_name: Some("Large".to_string()),
        url: None,
    });
    assert_eq!(p.target_name, "Large");
    assert_eq!(p.url, "");
    let all = PictureSizes::from_messages(&[PictureSizeMessage { target_name: None, url: Some("u".to_string()) }]);
    assert_eq!(all.0[0].url, "u");
}

#[test]
fn playlist_move_from_message() {
    let m = PlaylistOperationMove::from_message(&MovMessage { from_index: Some(3), length: None, to_index: Some(-1) });
    assert_eq!((m.from_index, m.length, m.to_index), (3, 0, -1));
}

#[test]
fn capabilities_from_message() {
    let c = Capabilities::from_message(&CapabilitiesMessage {
        can_view: Some(true),
        can_administrate_permissions: None,
        grantable_level: vec![2, 9, 1, 3, 0],
        can_edit_metadata: Some(false),
        can_edit_items: Some(true),
        can_cancel_membership: None,
    });
    assert!(c.can_view && !c.can_administrate_permissions && !c.can_edit_metadata);
    assert!(c.can_edit_items && !c.can_cancel_membership);
    assert_eq!(
        c.grantable_levels.0,
        vec![
            PermissionLevel::VIEWER,
            PermissionLevel::UNKNOWN,
            PermissionLevel::BLOCKED,
            PermissionLevel::CONTRIBUTOR,
            PermissionLevel::UNKNOWN,
        ]
    );
}

#[test]
fn geoblocks_keep_order() {
    let g = Geoblocks::from_slice(&[
        GeoblockBlockingType::GEOBLOCK_BLOCKING_TYPE_IMAGE,
        GeoblockBlockingType::GEOBLOCK_BLOCKING_TYPE_TITLE,
    ]);
    assert_eq!(g.len(), 2);
    assert_eq!(Geoblocks::from_slice(&[]).len(), 0);
}

#[test]
fn playlist_timestamps() {
    assert_eq!(playlist_timestamp_ms(1_600_000_000_000), 1_600_000_000_000);
    assert_eq!(playlist_timestamp_ms(MAX_MILLISECOND_TIMESTAMP), MAX_MILLISECOND_TIMESTAMP);
    assert_eq!(playlist_timestamp_ms(MAX_MILLISECOND_TIMESTAMP + 1), 9_295_169_800);
    assert_eq!(playlist_timestamp_ms(1_600_000_000_000_000), 1_600_000_000_000);
    assert_eq!(playlist_timestamp_ms(-5), -5);
}

#[test]
fn unavailability_reason_texts() {
    assert_eq!(UnavailabilityReason::Blacklisted.to_string(), "blacklist present and country on it");
    assert_eq!(UnavailabilityReason::Embargo.to_string(), "available date is in the future");
    assert_eq!(UnavailabilityReason::NoData.to_string(), "required data was not present");
    assert_eq!(UnavailabilityReason::NotWhitelisted.to_string(), "whitelist present and country not on it");
}

#[test]
fn metadata_error_texts() {
    assert_eq!(MetadataError::Empty.to_string(), "empty response");
    assert_eq!(MetadataError::NonPlayable.to_string(), "audio item is non-playable when it should be");
    assert_eq!(MetadataError::InvalidDuration(-42).to_string(), "audio item duration can not be: -42");
    assert_eq!(MetadataError::InvalidDuration(0).to_string(), "audio item duration can not be: 0");
    assert_eq!(
        MetadataError::ExplicitContentFiltered.to_string(),
        "track is marked as explicit, which client setting forbids"
    );
}

#[test]
fn track_from_message() {
    let m = TrackMessage {
        name: Some("Song".to_string()),
        number: Some(3),
        disc_number: None,
        duration: Some(215000),
        popularity: Some(77),
        explicit: Some(true),
        file: vec![AudioFileMessage { file_id: Some(vec![1]), format: Some(2) }],
        preview: vec![],
        tags: vec!["a".to_string(), "b".to_string()],
        has_lyrics: None,
        licensor_uuid: Some((1..=16).collect()),
        language_of_performance: vec!["en".to_string()],
        original_title: None,
        version_title: Some("Live".to_string()),
    };
    let t = Track::from_message(&m);
    assert_eq!(t.name, "Song");
    assert_eq!((t.number, t.disc_number, t.duration, t.popularity), (3, 0, 215000, 77));
    assert!(t.is_explicit && !t.has_lyrics);
    assert!(t.files.get(AudioFileFormat::OGG_VORBIS_320).is_some());
    assert!(t.previews.get(AudioFileFormat::OGG_VORBIS_320).is_none());
    assert_eq!(t.tags, vec!["a".to_string(), "b".to_string()]);
    assert_eq!(t.licensor.to_vec(), (1..=16).collect::<Vec<u8>>());
    assert_eq!(t.language_of_performance, vec!["en".to_string()]);
    assert_eq!(t.original_title, "");
    assert_eq!(t.version_title, "Live");
}

#[test]
fn licensor_falls_back_to_nil() {
    assert_eq!(licensor_uuid(&[1, 2, 3]), [0u8; 16]);
    assert_eq!(licensor_uuid(&[]), [0u8; 16]);
    assert_eq!(licensor_uuid(&[9u8; 17]), [0u8; 16]);
    assert_eq!(licensor_uuid(&[9u8; 16]), [9u8; 16]);
}

#[test]
fn episode_from_message() {
    let group = ImageGroup { image: vec![ImageMessage { file_id: None, size: Some(1), width: Some(64), height: Some(64) }] };
    let m = EpisodeMessage {
        name: Some("Ep".to_string()),
        type_: Some(1),
        duration: Some(60),
        audio: vec![],
        description: None,
        number: Some(7),
        cover_image: Some(group),
        language: Some("de".to_string()),
        explicit: None,
        show_name: Some("Show".to_string()),
        audio_preview: vec![],
        freeze_frame: None,
        keyword: vec!["k".to_string()],
        allow_background_playback: Some(true),
        external_url: None,
        music_and_talk: Some(false),
        is_audiobook_chapter: Some(true),
    };
    let e = Episode::from_message(&m);
    assert_eq!(e.name, "Ep");
    assert_eq!(e.episode_type, EpisodeType::TRAILER);
    assert_eq!((e.duration, e.number), (60, 7));
    assert_eq!(e.covers.0.len(), 1);
    assert_eq!(e.covers.0[0].size, ImageSize::SMALL);
    assert!(e.freeze_frames.0.is_empty());
    assert_eq!(e.show_name, "Show");
    assert_eq!(e.description, "");
    assert_eq!(e.keywords, vec!["k".to_string()]);
    assert!(e.allow_background_playback && !e.has_music_and_talk && e.is_audiobook_chapter && !e.is_explicit);
}

#[test]
fn album_from_message() {
    let group = ImageGroup { image: vec![ImageMessage { file_id: Some(vec![5]), size: Some(3), width: None, height: None }] };
    let m = AlbumMessage {
        name: Some("LP".to_string()),
        type_: Some(4),
        label: Some("Label".to_string()),
        popularity: None,
        cover_group: Some(group),
        review: vec![],
        copyright: vec![CopyrightMessage { type_: Some(0), text: Some("(p) x".to_string()) }],
        original_title: Some("LP".to_string()),
        version_title: None,
        type_str: Some("album".to_string()),
    };
    let a = Album::from_message(&m);
    assert_eq!((a.name.as_str(), a.label.as_str(), a.popularity), ("LP", "Label", 0));
    assert_eq!(a.album_type, AlbumType::EP);
    assert_eq!(a.covers.0.len(), 1);
    assert_eq!(a.cover_group.0[0].size, ImageSize::XLARGE);
    assert_eq!(a.covers.0[0].id, a.cover_group.0[0].id);
    assert!(a.reviews.is_empty());
    assert_eq!(a.copyrights.0[0].text, "(p) x");
    assert_eq!(a.type_str, "album");
    assert_eq!(a.version_title, "");
}

#[test]
fn protocol_type_numbers() {
    assert_eq!(EpisodeType::from_field(None), EpisodeType::FULL);
    assert_eq!(EpisodeType::from_field(Some(2)), EpisodeType::BONUS);
    assert_eq!(EpisodeType::from_field(Some(9)), EpisodeType::FULL);
    assert_eq!(AlbumType::from_field(None), AlbumType::ALBUM);
    assert_eq!(AlbumType::from_field(Some(2)), AlbumType::SINGLE);
    assert_eq!(AlbumType::from_field(Some(6)), AlbumType::PODCAST);
    assert_eq!(AlbumType::from_field(Some(0)), AlbumType::ALBUM);
    assert_eq!(PlaylistOperationKind::from_field(Some(4)), PlaylistOperationKind::MOV);
    assert_eq!(PlaylistOperationKind::from_field(Some(1)), PlaylistOperationKind::KIND_UNKNOWN);
    assert_eq!(GeoblockBlockingType::from_number(3), GeoblockBlockingType::GEOBLOCK_BLOCKING_TYPE_IMAGE);
    assert_eq!(GeoblockBlockingType::from_number(8), GeoblockBlockingType::GEOBLOCK_BLOCKING_TYPE_UNSPECIFIED);
}

#[test]
fn selected_list_content_from_message() {
    let m = SelectedListContentMessage {
        revision: Some(vec![1, 2]),
        length: Some(12),
        multiple_heads: None,
        up_to_date: Some(true),
        nonces: vec![5, -6],
        timestamp: Some(MAX_MILLISECOND_TIMESTAMP + 1000),
        owner_username: Some("owner".to_string()),
        abuse_reporting_enabled: Some(true),
        capabilities: None,
        geoblock: vec![1, 42],
    };
    let c = SelectedListContent::from_message(&m);
    assert_eq!(c.revision, vec![1, 2]);
    assert_eq!(c.length, 12);
    assert!(!c.has_multiple_heads && c.is_up_to_date && c.has_abuse_reporting);
    assert_eq!(c.nonces, vec![5, -6]);
    assert_eq!(c.timestamp_ms, (MAX_MILLISECOND_TIMESTAMP + 1000) / 1000);
    assert_eq!(c.owner_username, "owner");
    assert!(!c.capabilities.can_view && c.capabilities.grantable_levels.0.is_empty());
    assert_eq!(c.geoblocks.len(), 2);
    let with_caps = SelectedListContentMessage {
        capabilities: Some(CapabilitiesMessage {
            can_view: Some(true),
            can_administrate_permissions: None,
            grantable_level: vec![3],
            can_edit_metadata: None,
            can_edit_items: None,
            can_cancel_membership: None,
        }),
        timestamp: None,
        ..m
    };
    let c = SelectedListContent::from_message(&with_caps);
    assert!(c.capabilities.can_view);
    assert_eq!(c.capabilities.grantable_levels.0, vec![PermissionLevel::CONTRIBUTOR]);
    assert_eq!(c.timestamp_ms, 0);
}

#[test]
fn playlist_operation_from_message() {
    let m = OpMessage {
        kind: Some(2),
        add: Some(AddMessage { from_index: Some(4), add_last: Some(true), add_first: None }),
        rem: None,
        mov: Some(MovMessage { from_index: Some(1), length: Some(2), to_index: Some(3) }),
    };
    let o = PlaylistOperation::from_message(&m);
    assert_eq!(o.kind, PlaylistOperationKind::ADD);
    assert_eq!((o.add.from_index, o.add.add_last, o.add.add_first), (4, true, false));
    assert_eq!((o.rem.from_index, o.rem.length, o.rem.has_items_as_key), (0, 0, false));
    assert_eq!((o.mov.from_index, o.mov.length, o.mov.to_index), (1, 2, 3));
    let r = OpMessage {
        kind: Some(3),
        add: None,
        rem: Some(RemMessage { from_index: Some(7), length: Some(1), items_as_key: Some(true) }),
        mov: None,
    };
    let o = PlaylistOperation::from_message(&r);
    assert_eq!(o.kind, PlaylistOperationKind::REM);
    assert_eq!((o.rem.from_index, o.rem.length, o.rem.has_items_as_key), (7, 1, true));
    assert_eq!((o.add.from_index, o.mov.to_index), (0, 0));
}
