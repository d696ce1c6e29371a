use librespot::config::{DeviceType, ProtoDeviceType, SessionConfig, ANDROID_CLIENT_ID, IOS_CLIENT_ID, KEYMASTER_CLIENT_ID};
use librespot::error::{Error, ErrorKind, ErrorSource, HttpErrorCause, HyperErrorClass, IoErrorKind, OAuthErrorKind};
use librespot::file_id::FileId;
use librespot::mercury::{MercuryError, MercuryMethod, MercuryRequest, MercuryResponse};
use librespot::packet::PacketType;
use librespot::text::{bytes_debug_text, concat_str, i32_to_decimal, str_eq, u64_to_decimal};

#[test]
fn file_id_from_raw_pads_short_input() {
    let id = FileId::from_raw(&[1, 2, 3]);
    let mut expected = [0u8; 20];
    expected[0] = 1;
    expected[1] = 2;
    expected[2] = 3;
    assert_eq!(id.0, expected);
}

#[test]
fn file_id_from_raw_takes_twenty_bytes() {
    let raw: Vec<u8> = (1..=20).collect();
    let id = FileId::from_raw(&raw);
    assert_eq!(id.0.to_vec(), raw);
}

#[test]
fn file_id_from_raw_too_long_is_all_zero() {
    let raw = [7u8; 21];
    assert_eq!(FileId::from_raw(&raw).0, [0u8; 20]);
    assert_eq!(FileId::from_slice(&raw).0, [0u8; 20]);
}

#[test]
fn file_id_to_base16_lowercase_hex() {
    let mut raw = [0u8; 20];
    raw[0] = 0xab;
    raw[1] = 0x01;
    raw[19] = 0xff;
    let id = FileId(raw);
    let s = id.to_base16();
    assert_eq!(s, format!("ab01{}ff", "0".repeat(34)));
    assert_eq!(s.len(), 40);
    assert_eq!(id.to_string(), s);
}

#[test]
fn file_id_to_base16_counting_bytes() {
    let raw: Vec<u8> = (0..20).collect();
    let id = FileId::from_raw(&raw);
    assert_eq!(id.to_base16(), "000102030405060708090a0b0c0d0e0f10111213");
}

#[test]
fn packet_type_codes() {
    assert_eq!(PacketType::from_u8(0xb2), Some(PacketType::MercuryReq));
    assert_eq!(PacketType::from_u8(0x04), Some(PacketType::Ping));
    assert_eq!(PacketType::from_u8(0x00), None);
    assert_eq!(PacketType::from_u8(0xff), None);
    assert_eq!(PacketType::APWelcome.to_u8(), 0xac);
    assert_eq!(PacketType::Unknown0xb6.to_u8(), 0xb6);
    assert_eq!(PacketType::APWelcome.name(), "APWelcome");
}

#[test]
fn packet_type_code_roundtrip_over_all_bytes() {
    let mut named = 0;
    for c in 0..=255u8 {
        if let Some(p) = PacketType::from_u8(c) {
            assert_eq!(p.to_u8(), c);
            named += 1;
        }
    }
    assert_eq!(named, 31);
}

#[test]
fn error_kind_codes_and_messages() {
    assert_eq!(ErrorKind::Cancelled.code(), 1);
    assert_eq!(ErrorKind::Unauthenticated.code(), 16);
    assert_eq!(ErrorKind::DoNotUse.code(), -1);
    assert_eq!(ErrorKind::FailedPrecondition.message(), "Invalid state");
    assert_eq!(ErrorKind::Unavailable.to_string(), "Service unavailable");
}

#[test]
fn error_constructors_set_kind_and_text() {
    let cases: Vec<(Error, ErrorKind)> = vec![
        (Error::aborted("e"), ErrorKind::Aborted),
        (Error::already_exists("e"), ErrorKind::AlreadyExists),
        (Error::cancelled("e"), ErrorKind::Cancelled),
        (Error::data_loss("e"), ErrorKind::DataLoss),
        (Error::deadline_exceeded("e"), ErrorKind::DeadlineExceeded),
        (Error::do_not_use("e"), ErrorKind::DoNotUse),
        (Error::failed_precondition("e"), ErrorKind::FailedPrecondition),
        (Error::internal("e"), ErrorKind::Internal),
        (Error::invalid_argument("e"), ErrorKind::InvalidArgument),
        (Error::not_found("e"), ErrorKind::NotFound),
        (Error::out_of_range("e"), ErrorKind::OutOfRange),
        (Error::permission_denied("e"), ErrorKind::PermissionDenied),
        (Error::resource_exhausted("e"), ErrorKind::ResourceExhausted),
        (Error::unauthenticated("e"), ErrorKind::Unauthenticated),
        (Error::unavailable("e"), ErrorKind::Unavailable),
        (Error::unimplemented("e"), ErrorKind::Unimplemented),
        (Error::unknown("e"), ErrorKind::Unknown),
        (Error::new(ErrorKind::OutOfRange, "e"), ErrorKind::OutOfRange),
    ];
    for (e, k) in cases {
        assert_eq!(e.kind, k);
        assert_eq!(e.error, "e");
    }
}

#[test]
fn error_to_string_wraps_text() {
    let e = Error::not_found("track 7");
    assert_eq!(e.to_string(), "Requested entity was not found { track 7 }");
}

#[test]
fn error_from_io_kinds() {
    assert_eq!(Error::from_io(IoErrorKind::NotFound, "x").kind, ErrorKind::NotFound);
    assert_eq!(Error::from_io(IoErrorKind::AddrInUse, "x").kind, ErrorKind::AlreadyExists);
    assert_eq!(Error::from_io(IoErrorKind::ConnectionRefused, "x").kind, ErrorKind::Unavailable);
    assert_eq!(Error::from_io(IoErrorKind::BrokenPipe, "x").kind, ErrorKind::Aborted);
    assert_eq!(Error::from_io(IoErrorKind::WouldBlock, "x").kind, ErrorKind::Cancelled);
    assert_eq!(Error::from_io(IoErrorKind::UnexpectedEof, "x").kind, ErrorKind::FailedPrecondition);
    assert_eq!(Error::from_io(IoErrorKind::TimedOut, "x").kind, ErrorKind::DeadlineExceeded);
    assert_eq!(Error::from_io(IoErrorKind::InvalidInput, "x").kind, ErrorKind::InvalidArgument);
    assert_eq!(Error::from_io(IoErrorKind::WriteZero, "x").kind, ErrorKind::ResourceExhausted);
    assert_eq!(Error::from_io(IoErrorKind::Other, "x").kind, ErrorKind::Unknown);
    assert_eq!(Error::from_io(IoErrorKind::Other, "x").error, "x");
}

#[test]
fn error_from_http_hyper_oauth_source_kinds() {
    assert_eq!(Error::from_http(HttpErrorCause::InvalidUri, "x").kind, ErrorKind::InvalidArgument);
    assert_eq!(Error::from_http(HttpErrorCause::InvalidStatusCode, "x").kind, ErrorKind::FailedPrecondition);
    assert_eq!(Error::from_http(HttpErrorCause::Other, "x").kind, ErrorKind::Unknown);
    let none = HyperErrorClass {
        is_parse: false,
        is_parse_status: false,
        is_user: false,
        is_canceled: false,
        is_incomplete_message: false,
        is_body_write_aborted: false,
        is_closed: false,
        is_timeout: false,
    };
    assert_eq!(Error::from_hyper(none, "x").kind, ErrorKind::Unknown);
    assert_eq!(Error::from_hyper(HyperErrorClass { is_timeout: true, ..none }, "x").kind, ErrorKind::DeadlineExceeded);
    assert_eq!(Error::from_hyper(HyperErrorClass { is_closed: true, is_timeout: true, ..none }, "x").kind, ErrorKind::Aborted);
    assert_eq!(Error::from_hyper(HyperErrorClass { is_user: true, is_canceled: true, ..none }, "x").kind, ErrorKind::Internal);
    assert_eq!(Error::from_hyper(HyperErrorClass { is_incomplete_message: true, ..none }, "x").kind, ErrorKind::DataLoss);
    assert_eq!(Error::from_hyper_client(true, "x").kind, ErrorKind::Unavailable);
    assert_eq!(Error::from_hyper_client(false, "x").kind, ErrorKind::Unknown);
    assert_eq!(Error::from_oauth(OAuthErrorKind::AuthCodeBadUri, "x").kind, ErrorKind::Unavailable);
    assert_eq!(Error::from_oauth(OAuthErrorKind::Recv, "x").kind, ErrorKind::Internal);
    assert_eq!(Error::from_oauth(OAuthErrorKind::Other, "x").kind, ErrorKind::FailedPrecondition);
    assert_eq!(Error::from_source(ErrorSource::InvalidUri, "x").kind, ErrorKind::InvalidArgument);
    assert_eq!(Error::from_source(ErrorSource::Send, "x").kind, ErrorKind::Internal);
    assert_eq!(Error::from_source(ErrorSource::TryAcquire, "x").kind, ErrorKind::ResourceExhausted);
    assert_eq!(Error::from_source(ErrorSource::Json, "x").kind, ErrorKind::FailedPrecondition);
}

#[test]
fn mercury_method_names_and_commands() {
    assert_eq!(MercuryMethod::Get.as_str(), "GET");
    assert_eq!(MercuryMethod::Unsub.to_string(), "UNSUB");
    assert_eq!(MercuryMethod::Get.command(), PacketType::MercuryReq);
    assert_eq!(MercuryMethod::Send.command(), PacketType::MercuryReq);
    assert_eq!(MercuryMethod::Sub.command(), PacketType::MercurySub);
    assert_eq!(MercuryMethod::Unsub.command(), PacketType::MercuryUnsub);
}

#[test]
fn mercury_encode_get_without_payload() {
    let req = MercuryRequest {
        method: MercuryMethod::Get,
        uri: "hm://x".to_string(),
        content_type: None,
        payload: vec![],
    };
    let packet = req.encode(&[0, 0, 0, 1]).unwrap();
    let mut expected: Vec<u8> = vec![0, 4, 0, 0, 0, 1, 1, 0, 1, 0, 13, 0x0a, 6];
    expected.extend_from_slice(b"hm://x");
    expected.extend_from_slice(&[0x1a, 3]);
    expected.extend_from_slice(b"GET");
    assert_eq!(packet, expected);
}

#[test]
fn mercury_encode_with_content_type_and_payload() {
    let req = MercuryRequest {
        method: MercuryMethod::Send,
        uri: "hm://u".to_string(),
        content_type: Some("text/x".to_string()),
        payload: vec![vec![9, 8, 7], vec![]],
    };
    let packet = req.encode(&[5]).unwrap();
    let mut expected: Vec<u8> = vec![0, 1, 5, 1, 0, 3, 0, 22, 0x0a, 6];
    expected.extend_from_slice(b"hm://u");
    expected.extend_from_slice(&[0x12, 6]);
    expected.extend_from_slice(b"text/x");
    expected.extend_from_slice(&[0x1a, 4]);
    expected.extend_from_slice(b"SEND");
    expected.extend_from_slice(&[0, 3, 9, 8, 7, 0, 0]);
    assert_eq!(packet, expected);
}

#[test]
fn mercury_error_texts_and_kinds() {
    assert_eq!(MercuryError::Channel.to_string(), "callback receiver was disconnected");
    assert_eq!(
        MercuryError::Command(PacketType::Ping).to_string(),
        "error handling packet type: Ping"
    );
    let response = MercuryResponse {
        uri: "hm://r\"q\"".to_string(),
        status_code: -404,
        payload: vec![vec![1, 255], vec![]],
    };
    let text = MercuryError::Response(response.clone()).to_string();
    assert_eq!(text, format!("error handling Mercury response: {:?}", response));
    assert_eq!(
        text,
        "error handling Mercury response: MercuryResponse { uri: \"hm://r\\\"q\\\"\", status_code: -404, payload: [[1, 255], []] }"
    );

    let e = Error::from_mercury(MercuryError::Channel);
    assert_eq!(e.kind, ErrorKind::Aborted);
    assert_eq!(e.error, "callback receiver was disconnected");
    assert_eq!(Error::from_mercury(MercuryError::Command(PacketType::Pong)).kind, ErrorKind::Unimplemented);
    let e = Error::from_mercury(MercuryError::Response(response.clone()));
    assert_eq!(e.kind, ErrorKind::Unavailable);
    assert_eq!(e.error, text);
    assert_eq!(response.debug_text(), format!("{:?}", response));
    assert_eq!(response.debug_text_with("\"u\""), "MercuryResponse { uri: \"u\", status_code: -404, payload: [[1, 255], []] }");
}

#[test]
fn device_type_parse_ignores_case() {
    assert_eq!(DeviceType::parse("COMPUTER"), Ok(DeviceType::Computer));
    assert_eq!(DeviceType::parse("Tv"), Ok(DeviceType::Tv));
    assert_eq!(DeviceType::parse("carthing"), Ok(DeviceType::CarThing));
    assert_eq!("GameConsole".parse::<DeviceType>(), Ok(DeviceType::GameConsole));
    assert_eq!(DeviceType::parse("unknown"), Err(()));
    assert_eq!(DeviceType::parse("observer"), Err(()));
    assert_eq!(DeviceType::parse(""), Err(()));
    assert_eq!(DeviceType::from_lowercase("Speaker"), Err(()));
}

#[test]
fn device_type_names_and_protocol_numbers() {
    assert_eq!(DeviceType::Tv.as_str(), "TV");
    assert_eq!(DeviceType::AudioDongle.to_string(), "AudioDongle");
    assert_eq!(DeviceType::default(), DeviceType::Speaker);
    assert_eq!(DeviceType::CastAudio.to_proto(), ProtoDeviceType::CAST_VIDEO);
    assert_eq!(DeviceType::CastAudio.to_proto().value(), 10);
    assert_eq!(DeviceType::CastVideo.to_proto().value(), 11);
    assert_eq!(DeviceType::Observer.to_proto().value(), 102);
}

#[test]
fn device_type_displayed_name_parses_back() {
    let all = [
        DeviceType::Computer,
        DeviceType::Tablet,
        DeviceType::Smartphone,
        DeviceType::Speaker,
        DeviceType::Tv,
        DeviceType::Avr,
        DeviceType::Stb,
        DeviceType::AudioDongle,
        DeviceType::GameConsole,
        DeviceType::CastAudio,
        DeviceType::CastVideo,
        DeviceType::Automobile,
        DeviceType::Smartwatch,
        DeviceType::Chromebook,
        DeviceType::CarThing,
    ];
    for d in all {
        assert_eq!(DeviceType::parse(d.as_str()), Ok(d));
    }
    assert_eq!(DeviceType::parse(DeviceType::UnknownSpotify.as_str()), Err(()));
}

#[test]
fn session_config_default_for_os() {
    let c = SessionConfig::default_for_os("android", std::path::PathBuf::from("/tmp"));
    assert_eq!(c.client_id, ANDROID_CLIENT_ID);
    assert_eq!(c.tmp_dir, std::path::PathBuf::from("/tmp"));
    assert!(c.proxy.is_none() && c.ap_port.is_none() && c.autoplay.is_none());
    assert_eq!(SessionConfig::default_for_os("ios", std::path::PathBuf::new()).client_id, IOS_CLIENT_ID);
    let c = SessionConfig::default_for_os("linux", std::path::PathBuf::new());
    assert_eq!(c.client_id, KEYMASTER_CLIENT_ID);
    let id: Vec<char> = c.device_id.chars().collect();
    assert_eq!(id.len(), 36);
    for (i, ch) in id.iter().enumerate() {
        if i == 8 || i == 13 || i == 18 || i == 23 {
            assert_eq!(*ch, '-');
        } else {
            assert!(ch.is_ascii_hexdigit() && !ch.is_ascii_uppercase());
        }
    }
    assert_eq!(id[14], '4');
    assert!(matches!(id[19], '8' | '9' | 'a' | 'b'));
}

#[test]
fn text_helpers() {
    assert!(str_eq("abc", "abc"));
    assert!(!str_eq("abc", "abd"));
    assert!(!str_eq("ab", "abc"));
    assert_eq!(u64_to_decimal(0), "0");
    assert_eq!(u64_to_decimal(18446744073709551615), "18446744073709551615");
    assert_eq!(concat_str("ab", "cd"), "abcd");
    assert_eq!(i32_to_decimal(i32::MIN), "-2147483648");
    assert_eq!(i32_to_decimal(i32::MAX), "2147483647");
    assert_eq!(i32_to_decimal(-7), "-7");
}

#[test]
fn file_id_from_byte_slice_and_debug_text() {
    let bytes: &[u8] = &[0xde, 0xad];
    let id = FileId::from(bytes);
    assert_eq!(id.0[0], 0xde);
    assert_eq!(id.0[1], 0xad);
    assert_eq!(id.to_debug_string(), format!("FileId(\"dead{}\")", "0".repeat(36)));
}

#[test]
fn byte_list_debug_text() {
    assert_eq!(bytes_debug_text(&[]), "[]");
    assert_eq!(bytes_debug_text(&[7]), "[7]");
    assert_eq!(bytes_debug_text(&[0, 10, 255]), format!("{:?}", vec![0u8, 10, 255]));
}
