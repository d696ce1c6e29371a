use librespot::error::{Error, ErrorKind};
use librespot::playback::{
    find_ditherer, AudioFormat, AudioPacketError, AudioPacketPosition, Bitrate, DecoderError,
    DithererKind, NormalisationMethod, NormalisationType, VolumeCtrlKind, NUM_CHANNELS,
    SAMPLES_PER_SECOND, SAMPLE_RATE,
};

#[test]
fn bitrate_parse_exact() {
    assert_eq!(Bitrate::parse("96"), Ok(Bitrate::Bitrate96));
    assert_eq!("160".parse::<Bitrate>(), Ok(Bitrate::Bitrate160));
    assert_eq!(Bitrate::parse("320"), Ok(Bitrate::Bitrate320));
    assert_eq!(Bitrate::parse("320k"), Err(()));
    assert_eq!(Bitrate::parse(" 96"), Err(()));
    assert_eq!(Bitrate::parse(""), Err(()));
    assert_eq!(Bitrate::default(), Bitrate::Bitrate160);
}

#[test]
fn audio_format_parse_ignores_case() {
    assert_eq!(AudioFormat::parse("s24_3"), Ok(AudioFormat::S24_3));
    assert_eq!(AudioFormat::parse("F64"), Ok(AudioFormat::F64));
    assert_eq!("f32".parse::<AudioFormat>(), Ok(AudioFormat::F32));
    assert_eq!(AudioFormat::parse("S24"), Ok(AudioFormat::S24));
    assert_eq!(AudioFormat::parse("s32"), Ok(AudioFormat::S32));
    assert_eq!(AudioFormat::parse("s16"), Ok(AudioFormat::S16));
    assert_eq!(AudioFormat::parse("S8"), Err(()));
    assert_eq!(AudioFormat::from_uppercase("s16"), Err(()));
    assert_eq!(AudioFormat::default(), AudioFormat::S16);
}

#[test]
fn audio_format_sizes() {
    assert_eq!(AudioFormat::F64.size(), 8);
    assert_eq!(AudioFormat::F32.size(), 4);
    assert_eq!(AudioFormat::S32.size(), 4);
    assert_eq!(AudioFormat::S24.size(), 4);
    assert_eq!(AudioFormat::S24_3.size(), 3);
    assert_eq!(AudioFormat::S16.size(), 2);
}

#[test]
fn normalisation_settings_parse_ignoring_case() {
    assert_eq!(NormalisationType::parse("ALBUM"), Ok(NormalisationType::Album));
    assert_eq!("Track".parse::<NormalisationType>(), Ok(NormalisationType::Track));
    assert_eq!(NormalisationType::parse("auto"), Ok(NormalisationType::Auto));
    assert_eq!(NormalisationType::parse("disc"), Err(()));
    assert_eq!(NormalisationType::default(), NormalisationType::Auto);
    assert_eq!(NormalisationMethod::parse("Basic"), Ok(NormalisationMethod::Basic));
    assert_eq!("DYNAMIC".parse::<NormalisationMethod>(), Ok(NormalisationMethod::Dynamic));
    assert_eq!(NormalisationMethod::parse("static"), Err(()));
    assert_eq!(NormalisationMethod::default(), NormalisationMethod::Dynamic);
}

#[test]
fn volume_ctrl_kinds() {
    assert_eq!(VolumeCtrlKind::parse("Cubic"), Ok(VolumeCtrlKind::Cubic));
    assert_eq!(VolumeCtrlKind::parse("FIXED"), Ok(VolumeCtrlKind::Fixed));
    assert_eq!(VolumeCtrlKind::parse("linear"), Ok(VolumeCtrlKind::Linear));
    assert_eq!(VolumeCtrlKind::parse("log"), Ok(VolumeCtrlKind::Log));
    assert_eq!(VolumeCtrlKind::parse("exp"), Err(()));
    assert!(VolumeCtrlKind::Log.has_db_range());
    assert!(VolumeCtrlKind::Cubic.has_db_range());
    assert!(!VolumeCtrlKind::Fixed.has_db_range());
    assert!(!VolumeCtrlKind::Linear.has_db_range());
}

#[test]
fn ditherers_by_name() {
    assert_eq!(find_ditherer(Some("tpdf".to_string())), Some(DithererKind::Triangular));
    assert_eq!(find_ditherer(Some("gpdf".to_string())), Some(DithererKind::Gaussian));
    assert_eq!(find_ditherer(Some("tpdf_hp".to_string())), Some(DithererKind::HighPass));
    assert_eq!(find_ditherer(Some("TPDF".to_string())), None);
    assert_eq!(find_ditherer(None), None);
    for k in [DithererKind::Triangular, DithererKind::Gaussian, DithererKind::HighPass] {
        assert_eq!(find_ditherer(Some(k.name().to_string())), Some(k));
    }
}

#[test]
fn decoder_errors() {
    let e = DecoderError::SymphoniaDecoder("bad frame".to_string());
    assert_eq!(e.to_string(), "Symphonia Decoder Error: bad frame");
    assert_eq!(
        DecoderError::PassthroughDecoder("eof".to_string()).to_string(),
        "Passthrough Decoder Error: eof"
    );
    let err = Error::from_decoder(e);
    assert_eq!(err.kind, ErrorKind::Aborted);
    assert_eq!(err.error, "Symphonia Decoder Error: bad frame");
    assert_eq!(AudioPacketError::Raw.to_string(), "Decoder Raw Error: Can't return Raw on Samples");
    assert_eq!(
        AudioPacketError::Samples.to_string(),
        "Decoder Samples Error: Can't return Samples on Raw"
    );
}

#[test]
fn packet_position_derefs_to_milliseconds() {
    let p = AudioPacketPosition { position_ms: 1234, skipped: true };
    assert_eq!(*p, 1234);
    assert!(p.skipped);
}

#[test]
fn sample_constants() {
    assert_eq!(SAMPLE_RATE, 44100);
    assert_eq!(NUM_CHANNELS, 2);
    assert_eq!(SAMPLES_PER_SECOND, SAMPLE_RATE * NUM_CHANNELS as u32);
}
