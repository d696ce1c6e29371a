//! Configuration types for a session, and the device type shown to other
//! Spotify Connect clients.

use vstd::prelude::*;
use vstd::utf8::is_ascii_chars;

use crate::text::{ascii_lowercase, str_eq, to_lowercase, unicode_lowercase};

verus! {

/// The type of device this instance represents in Spotify Connect.
///
/// Affects the icon shown in the Spotify client's device picker.
#[derive(Clone, Copy, Debug, Hash, PartialOrd, Ord, PartialEq, Eq, Structural)]
pub enum DeviceType {
    /// Unknown device type.
    Unknown,
    /// A desktop or laptop computer.
    Computer,
    /// A tablet device.
    Tablet,
    /// A smartphone.
    Smartphone,
    /// A speaker (default).
    Speaker,
    /// A smart TV.
    Tv,
    /// An audio/video receiver.
    Avr,
    /// A set-top box.
    Stb,
    /// An audio dongle.
    AudioDongle,
    /// A game console.
    GameConsole,
    /// A Chromecast Audio device.
    CastAudio,
    /// A Chromecast Video device.
    CastVideo,
    /// An automobile infotainment system.
    Automobile,
    /// A smartwatch.
    Smartwatch,
    /// A Chromebook.
    Chromebook,
    /// An unknown Spotify device type.
    UnknownSpotify,
    /// A Spotify Car Thing.
    CarThing,
    /// An observer device.
    Observer,
}

/// The device type as Spotify's device protocol numbers it.
#[allow(non_camel_case_types)]
#[derive(Clone, Copy, Debug, PartialEq, Eq, Structural)]
pub enum ProtoDeviceType {
    UNKNOWN,
    COMPUTER,
    TABLET,
    SMARTPHONE,
    SPEAKER,
    TV,
    AVR,
    STB,
    AUDIO_DONGLE,
    GAME_CONSOLE,
    CAST_VIDEO,
    CAST_AUDIO,
    AUTOMOBILE,
    SMARTWATCH,
    CHROMEBOOK,
    UNKNOWN_SPOTIFY,
    CAR_THING,
    OBSERVER,
}

/// The protocol number of each protocol device type.
pub open spec fn proto_device_code(p: ProtoDeviceType) -> int {
    match p {
        ProtoDeviceType::UNKNOWN => 0,
        ProtoDeviceType::COMPUTER => 1,
        ProtoDeviceType::TABLET => 2,
        ProtoDeviceType::SMARTPHONE => 3,
        ProtoDeviceType::SPEAKER => 4,
        ProtoDeviceType::TV => 5,
        ProtoDeviceType::AVR => 6,
        ProtoDeviceType::STB => 7,
        ProtoDeviceType::AUDIO_DONGLE => 8,
        ProtoDeviceType::GAME_CONSOLE => 9,
        ProtoDeviceType::CAST_VIDEO => 10,
        ProtoDeviceType::CAST_AUDIO => 11,
        ProtoDeviceType::AUTOMOBILE => 12,
        ProtoDeviceType::SMARTWATCH => 13,
        ProtoDeviceType::CHROMEBOOK => 14,
        ProtoDeviceType::UNKNOWN_SPOTIFY => 100,
        ProtoDeviceType::CAR_THING => 101,
        ProtoDeviceType::OBSERVER => 102,
    }
}

/// The name of each device type as it is displayed.
pub open spec fn device_name(d: DeviceType) -> Seq<char> {
    match d {
        DeviceType::Unknown => "Unknown"@,
        DeviceType::Computer => "Computer"@,
        DeviceType::Tablet => "Tablet"@,
        DeviceType::Smartphone => "Smartphone"@,
        DeviceType::Speaker => "Speaker"@,
        DeviceType::Tv => "TV"@,
        DeviceType::Avr => "AVR"@,
        DeviceType::Stb => "STB"@,
        DeviceType::AudioDongle => "AudioDongle"@,
        DeviceType::GameConsole => "GameConsole"@,
        DeviceType::CastAudio => "CastAudio"@,
        DeviceType::CastVideo => "CastVideo"@,
        DeviceType::Automobile => "Automobile"@,
        DeviceType::Smartwatch => "Smartwatch"@,
        DeviceType::Chromebook => "Chromebook"@,
        DeviceType::UnknownSpotify => "UnknownSpotify"@,
        DeviceType::CarThing => "CarThing"@,
        DeviceType::Observer => "Observer"@,
    }
}

/// The device type that a lowercase name stands for; `None` for a name that
/// no device type is parsed from.
pub open spec fn device_of_lower_name(s: Seq<char>) -> Option<DeviceType> {
    if s == "computer"@ {
        Some(DeviceType::Computer)
    } else if s == "tablet"@ {
        Some(DeviceType::Tablet)
    } else if s == "smartphone"@ {
        Some(DeviceType::Smartphone)
    } else if s == "speaker"@ {
        Some(DeviceType::Speaker)
    } else if s == "tv"@ {
        Some(DeviceType::Tv)
    } else if s == "avr"@ {
        Some(DeviceType::Avr)
    } else if s == "stb"@ {
        Some(DeviceType::Stb)
    } else if s == "audiodongle"@ {
        Some(DeviceType::AudioDongle)
    } else if s == "gameconsole"@ {
        Some(DeviceType::GameConsole)
    } else if s == "castaudio"@ {
        Some(DeviceType::CastAudio)
    } else if s == "castvideo"@ {
        Some(DeviceType::CastVideo)
    } else if s == "automobile"@ {
        Some(DeviceType::Automobile)
    } else if s == "smartwatch"@ {
        Some(DeviceType::Smartwatch)
    } else if s == "chromebook"@ {
        Some(DeviceType::Chromebook)
    } else if s == "carthing"@ {
        Some(DeviceType::CarThing)
    } else {
        None
    }
}

/// The protocol device type that each device type is sent as.
pub open spec fn device_proto(d: DeviceType) -> ProtoDeviceType {
    match d {
        DeviceType::Unknown => ProtoDeviceType::UNKNOWN,
        DeviceType::Computer => ProtoDeviceType::COMPUTER,
        DeviceType::Tablet => ProtoDeviceType::TABLET,
        DeviceType::Smartphone => ProtoDeviceType::SMARTPHONE,
        DeviceType::Speaker => ProtoDeviceType::SPEAKER,
        DeviceType::Tv => ProtoDeviceType::TV,
        DeviceType::Avr => ProtoDeviceType::AVR,
        DeviceType::Stb => ProtoDeviceType::STB,
        DeviceType::AudioDongle => ProtoDeviceType::AUDIO_DONGLE,
        DeviceType::GameConsole => ProtoDeviceType::GAME_CONSOLE,
        DeviceType::CastAudio => ProtoDeviceType::CAST_VIDEO,
        DeviceType::CastVideo => ProtoDeviceType::CAST_AUDIO,
        DeviceType::Automobile => ProtoDeviceType::AUTOMOBILE,
        DeviceType::Smartwatch => ProtoDeviceType::SMARTWATCH,
        DeviceType::Chromebook => ProtoDeviceType::CHROMEBOOK,
        DeviceType::UnknownSpotify => ProtoDeviceType::UNKNOWN_SPOTIFY,
        DeviceType::CarThing => ProtoDeviceType::CAR_THING,
        DeviceType::Observer => ProtoDeviceType::OBSERVER,
    }
}

/// Whether a device type can be parsed from its name.
pub open spec fn device_is_parsed(d: DeviceType) -> bool {
    !(d is Unknown || d is UnknownSpotify || d is Observer)
}

impl ProtoDeviceType {
    /// The protocol number of this device type.
    pub fn value(&self) -> (v: i32)
        ensures
            v as int == proto_device_code(*self),
    {
        match self {
            ProtoDeviceType::UNKNOWN => 0,
            ProtoDeviceType::COMPUTER => 1,
            ProtoDeviceType::TABLET => 2,
            ProtoDeviceType::SMARTPHONE => 3,
            ProtoDeviceType::SPEAKER => 4,
            ProtoDeviceType::TV => 5,
            ProtoDeviceType::AVR => 6,
            ProtoDeviceType::STB => 7,
            ProtoDeviceType::AUDIO_DONGLE => 8,
            ProtoDeviceType::GAME_CONSOLE => 9,
            ProtoDeviceType::CAST_VIDEO => 10,
            ProtoDeviceType::CAST_AUDIO => 11,
            ProtoDeviceType::AUTOMOBILE => 12,
            ProtoDeviceType::SMARTWATCH => 13,
            ProtoDeviceType::CHROMEBOOK => 14,
            ProtoDeviceType::UNKNOWN_SPOTIFY => 100,
            ProtoDeviceType::CAR_THING => 101,
            ProtoDeviceType::OBSERVER => 102,
        }
    }
}

impl DeviceType {
    /// The device type that the lowercase name `s` stands for, or `Err(())`.
    pub fn from_lowercase(s: &str) -> (r: Result<DeviceType, ()>)
        ensures
            r == match device_of_lower_name(s@) {
                Some(d) => Ok::<DeviceType, ()>(d),
                None => Err(()),
            },
    {
        if str_eq(s, "computer") {
            return Ok(DeviceType::Computer);
        }
        if str_eq(s, "tablet") {
            return Ok(DeviceType::Tablet);
        }
        if str_eq(s, "smartphone") {
            return Ok(DeviceType::Smartphone);
        }
        if str_eq(s, "speaker") {
            return Ok(DeviceType::Speaker);
        }
        if str_eq(s, "tv") {
            return Ok(DeviceType::Tv);
        }
        if str_eq(s, "avr") {
            return Ok(DeviceType::Avr);
        }
        if str_eq(s, "stb") {
            return Ok(DeviceType::Stb);
        }
        if str_eq(s, "audiodongle") {
            return Ok(DeviceType::AudioDongle);
        }
        if str_eq(s, "gameconsole") {
            return Ok(DeviceType::GameConsole);
        }
        if str_eq(s, "castaudio") {
            return Ok(DeviceType::CastAudio);
        }
        if str_eq(s, "castvideo") {
            return Ok(DeviceType::CastVideo);
        }
        if str_eq(s, "automobile") {
            return Ok(DeviceType::Automobile);
        }
        if str_eq(s, "smartwatch") {
            return Ok(DeviceType::Smartwatch);
        }
        if str_eq(s, "chromebook") {
            return Ok(DeviceType::Chromebook);
        }
        if str_eq(s, "carthing") {
            return Ok(DeviceType::CarThing);
        }
        Err(())
    }

    /// Parses a device type from its name, ignoring case.
    pub fn parse(s: &str) -> (r: Result<DeviceType, ()>)
        ensures
            r == match device_of_lower_name(unicode_lowercase(s@)) {
                Some(d) => Ok::<DeviceType, ()>(d),
                None => Err(()),
            },
            is_ascii_chars(s@) ==> r == match device_of_lower_name(ascii_lowercase(s@)) {
                Some(d) => Ok::<DeviceType, ()>(d),
                None => Err(()),
            },
    {
        let lower = to_lowercase(s);
        Self::from_lowercase(lower.as_str())
    }

    /// The name of this device type as it is displayed.
    pub fn as_str(&self) -> (s: &'static str)
        ensures
            s@ == device_name(*self),
    {
        match self {
            DeviceType::Unknown => "Unknown",
            DeviceType::Computer => "Computer",
            DeviceType::Tablet => "Tablet",
            DeviceType::Smartphone => "Smartphone",
            DeviceType::Speaker => "Speaker",
            DeviceType::Tv => "TV",
            DeviceType::Avr => "AVR",
            DeviceType::Stb => "STB",
            DeviceType::AudioDongle => "AudioDongle",
            DeviceType::GameConsole => "GameConsole",
            DeviceType::CastAudio => "CastAudio",
            DeviceType::CastVideo => "CastVideo",
            DeviceType::Automobile => "Automobile",
            DeviceType::Smartwatch => "Smartwatch",
            DeviceType::Chromebook => "Chromebook",
            DeviceType::UnknownSpotify => "UnknownSpotify",
            DeviceType::CarThing => "CarThing",
            DeviceType::Observer => "Observer",
        }
    }

    /// The name of this device type as a `String`.
    pub fn to_string(&self) -> (s: String)
        ensures
            s@ == device_name(*self),
    {
        String::from_str(self.as_str())
    }

    /// The protocol device type that this device type is sent as.
    ///
    /// `CastAudio` is sent as `CAST_VIDEO` and `CastVideo` as `CAST_AUDIO`,
    /// which keeps each one's number.
    pub fn to_proto(&self) -> (p: ProtoDeviceType)
        ensures
            p == device_proto(*self),
    {
        match self {
            DeviceType::Unknown => ProtoDeviceType::UNKNOWN,
            DeviceType::Computer => ProtoDeviceType::COMPUTER,
            DeviceType::Tablet => ProtoDeviceType::TABLET,
            DeviceType::Smartphone => ProtoDeviceType::SMARTPHONE,
            DeviceType::Speaker => ProtoDeviceType::SPEAKER,
            DeviceType::Tv => ProtoDeviceType::TV,
            DeviceType::Avr => ProtoDeviceType::AVR,
            DeviceType::Stb => ProtoDeviceType::STB,
            DeviceType::AudioDongle => ProtoDeviceType::AUDIO_DONGLE,
            DeviceType::GameConsole => ProtoDeviceType::GAME_CONSOLE,
            DeviceType::CastAudio => ProtoDeviceType::CAST_VIDEO,
            DeviceType::CastVideo => ProtoDeviceType::CAST_AUDIO,
            DeviceType::Automobile => ProtoDeviceType::AUTOMOBILE,
            DeviceType::Smartwatch => ProtoDeviceType::SMARTWATCH,
            DeviceType::Chromebook => ProtoDeviceType::CHROMEBOOK,
            DeviceType::UnknownSpotify => ProtoDeviceType::UNKNOWN_SPOTIFY,
            DeviceType::CarThing => ProtoDeviceType::CAR_THING,
            DeviceType::Observer => ProtoDeviceType::OBSERVER,
        }
    }
}

impl Default for DeviceType {
    /// A speaker.
    fn default() -> (d: DeviceType)
        ensures
            d == DeviceType::Speaker,
    {
        DeviceType::Speaker
    }
}

impl std::str::FromStr for DeviceType {
    type Err = ();

    fn from_str(s: &str) -> (r: Result<DeviceType, ()>)
        ensures
            r == match device_of_lower_name(unicode_lowercase(s@)) {
                Some(d) => Ok::<DeviceType, ()>(d),
                None => Err(()),
            },
            is_ascii_chars(s@) ==> r == match device_of_lower_name(ascii_lowercase(s@)) {
                Some(d) => Ok::<DeviceType, ()>(d),
                None => Err(()),
            },
    {
        DeviceType::parse(s)
    }
}

/// Distinct device types are sent as distinct protocol device types.
pub proof fn lemma_device_proto_injective(a: DeviceType, b: DeviceType)
    ensures
        device_proto(a) == device_proto(b) ==> a == b,
{
}

/// Every device type keeps its number in the protocol.
pub proof fn lemma_device_proto_code(d: DeviceType)
    ensures
        proto_device_code(device_proto(d)) == match d {
            DeviceType::Unknown => 0int,
            DeviceType::Computer => 1,
            DeviceType::Tablet => 2,
            DeviceType::Smartphone => 3,
            DeviceType::Speaker => 4,
            DeviceType::Tv => 5,
            DeviceType::Avr => 6,
            DeviceType::Stb => 7,
            DeviceType::AudioDongle => 8,
            DeviceType::GameConsole => 9,
            DeviceType::CastAudio => 10,
            DeviceType::CastVideo => 11,
            DeviceType::Automobile => 12,
            DeviceType::Smartwatch => 13,
            DeviceType::Chromebook => 14,
            DeviceType::UnknownSpotify => 100,
            DeviceType::CarThing => 101,
            DeviceType::Observer => 102,
        },
{
}

/// Parsing the displayed name of a device type, in any case, gives the
/// device type back; `Unknown`, `UnknownSpotify` and `Observer` are not
/// parsed from any name. The names are ASCII, so the ASCII clause of
/// `DeviceType::parse` and `from_str` applies to them.
pub proof fn lemma_parse_displayed_name(d: DeviceType)
    ensures
        is_ascii_chars(device_name(d)),
        device_of_lower_name(ascii_lowercase(device_name(d))) == (if device_is_parsed(d) {
            Some(d)
        } else {
            None
        }),
{
    lemma_lower_names_distinct();
    reveal_strlit("Unknown");
    reveal_strlit("Computer");
    reveal_strlit("Tablet");
    reveal_strlit("Smartphone");
    reveal_strlit("Speaker");
    reveal_strlit("TV");
    reveal_strlit("AVR");
    reveal_strlit("STB");
    reveal_strlit("AudioDongle");
    reveal_strlit("GameConsole");
    reveal_strlit("CastAudio");
    reveal_strlit("CastVideo");
    reveal_strlit("Automobile");
    reveal_strlit("Smartwatch");
    reveal_strlit("Chromebook");
    reveal_strlit("UnknownSpotify");
    reveal_strlit("CarThing");
    reveal_strlit("Observer");
    reveal_strlit("unknown");
    reveal_strlit("computer");
    reveal_strlit("tablet");
    reveal_strlit("smartphone");
    reveal_strlit("speaker");
    reveal_strlit("tv");
    reveal_strlit("avr");
    reveal_strlit("stb");
    reveal_strlit("audiodongle");
    reveal_strlit("gameconsole");
    reveal_strlit("castaudio");
    reveal_strlit("castvideo");
    reveal_strlit("automobile");
    reveal_strlit("smartwatch");
    reveal_strlit("chromebook");
    reveal_strlit("unknownspotify");
    reveal_strlit("carthing");
    reveal_strlit("observer");
    let lower = ascii_lowercase(device_name(d));
    match d {
        DeviceType::Unknown => assert(lower =~= "unknown"@),
        DeviceType::Computer => assert(lower =~= "computer"@),
        DeviceType::Tablet => assert(lower =~= "tablet"@),
        DeviceType::Smartphone => assert(lower =~= "smartphone"@),
        DeviceType::Speaker => assert(lower =~= "speaker"@),
        DeviceType::Tv => assert(lower =~= "tv"@),
        DeviceType::Avr => assert(lower =~= "avr"@),
        DeviceType::Stb => assert(lower =~= "stb"@),
        DeviceType::AudioDongle => assert(lower =~= "audiodongle"@),
        DeviceType::GameConsole => assert(lower =~= "gameconsole"@),
        DeviceType::CastAudio => assert(lower =~= "castaudio"@),
        DeviceType::CastVideo => assert(lower =~= "castvideo"@),
        DeviceType::Automobile => assert(lower =~= "automobile"@),
        DeviceType::Smartwatch => assert(lower =~= "smartwatch"@),
        DeviceType::Chromebook => assert(lower =~= "chromebook"@),
        DeviceType::UnknownSpotify => assert(lower =~= "unknownspotify"@),
        DeviceType::CarThing => assert(lower =~= "carthing"@),
        DeviceType::Observer => assert(lower =~= "observer"@),
    }
}

/// The lowercase names of equal length differ, each pair at some character.
proof fn lemma_lower_names_distinct()
    ensures
        "unknown"@ != "speaker"@,
        "computer"@ != "carthing"@,
        "computer"@ != "observer"@,
        "smartphone"@ != "automobile"@,
        "smartphone"@ != "smartwatch"@,
        "smartphone"@ != "chromebook"@,
        "avr"@ != "stb"@,
        "audiodongle"@ != "gameconsole"@,
        "castaudio"@ != "castvideo"@,
        "automobile"@ != "smartwatch"@,
        "automobile"@ != "chromebook"@,
        "smartwatch"@ != "chromebook"@,
        "carthing"@ != "observer"@,
{
    reveal_strlit("unknown");
    reveal_strlit("computer");
    reveal_strlit("smartphone");
    reveal_strlit("speaker");
    reveal_strlit("avr");
    reveal_strlit("stb");
    reveal_strlit("audiodongle");
    reveal_strlit("gameconsole");
    reveal_strlit("castaudio");
    reveal_strlit("castvideo");
    reveal_strlit("automobile");
    reveal_strlit("smartwatch");
    reveal_strlit("chromebook");
    reveal_strlit("carthing");
    reveal_strlit("observer");
    assert("unknown"@[0] != "speaker"@[0]);
    assert("computer"@[1] != "carthing"@[1]);
    assert("computer"@[0] != "observer"@[0]);
    assert("smartphone"@[0] != "automobile"@[0]);
    assert("smartphone"@[5] != "smartwatch"@[5]);
    assert("smartphone"@[0] != "chromebook"@[0]);
    assert("avr"@[0] != "stb"@[0]);
    assert("audiodongle"@[0] != "gameconsole"@[0]);
    assert("castaudio"@[4] != "castvideo"@[4]);
    assert("automobile"@[0] != "smartwatch"@[0]);
    assert("automobile"@[0] != "chromebook"@[0]);
    assert("smartwatch"@[0] != "chromebook"@[0]);
    assert("carthing"@[0] != "observer"@[0]);
}

#[verifier::external_type_specification]
#[verifier::external_body]
pub struct ExUrl(url::Url);

#[verifier::external_type_specification]
#[verifier::external_body]
pub struct ExPathBuf(std::path::PathBuf);

/// The OAuth client ID for desktop clients.
pub const KEYMASTER_CLIENT_ID: &'static str = "65b708073fc0480ea92a077233ca87bd";

/// The OAuth client ID for Android clients.
pub const ANDROID_CLIENT_ID: &'static str = "9a8d2f0ce77a4e248bb71fefcb557637";

/// The OAuth client ID for iOS clients.
pub const IOS_CLIENT_ID: &'static str = "58bd3c95768941ea9eb4350aaa033eb3";

/// The client ID used on each operating system.
pub open spec fn client_id_for_os(os: Seq<char>) -> Seq<char> {
    if os == "android"@ {
        ANDROID_CLIENT_ID@
    } else if os == "ios"@ {
        IOS_CLIENT_ID@
    } else {
        KEYMASTER_CLIENT_ID@
    }
}

/// Whether a character is a lowercase hex digit.
pub open spec fn is_lower_hex(c: char) -> bool {
    ('0' <= c <= '9') || ('a' <= c <= 'f')
}

/// Whether a string has the shape of a hyphenated, lowercase, random
/// (version 4, RFC variant) UUID: 36 characters, hyphens at 8, 13, 18 and 23,
/// lowercase hex digits elsewhere, `4` at 14 and one of `8`, `9`, `a`, `b`
/// at 19.
pub open spec fn is_random_uuid_text(s: Seq<char>) -> bool {
    &&& s.len() == 36
    &&& forall|i: int|
        0 <= i < 36 ==> if i == 8 || i == 13 || i == 18 || i == 23 {
            #[trigger] s[i] == '-'
        } else {
            is_lower_hex(s[i])
        }
    &&& s[14] == '4'
    &&& (s[19] == '8' || s[19] == '9' || s[19] == 'a' || s[19] == 'b')
}

/// A new random device identifier.
///
/// Calls `uuid::Uuid::new_v4` and renders it hyphenated. The result is
/// random; the contract claims only the shape that the `uuid` source gives
/// every version 4 UUID in this rendering.
#[verifier::external_body]
fn random_device_id() -> (s: String)
    ensures
        is_random_uuid_text(s@),
{
    uuid::Uuid::new_v4().as_hyphenated().to_string()
}

/// Configuration for a session.
#[derive(Debug)]
pub struct SessionConfig {
    /// OAuth client ID. Defaults to the keymaster client ID for desktop.
    pub client_id: String,
    /// Unique device identifier. Defaults to a random UUID.
    pub device_id: String,
    /// Optional HTTP proxy URL.
    pub proxy: Option<url::Url>,
    /// Optional port override for access point connections.
    pub ap_port: Option<u16>,
    /// Temporary directory for cached data.
    pub tmp_dir: std::path::PathBuf,
    /// Override autoplay setting. `None` uses the server-side user attribute.
    pub autoplay: Option<bool>,
}

impl SessionConfig {
    /// The default configuration on operating system `os`, with `tmp_dir`
    /// as the temporary directory: the client ID of that system, a new
    /// random device ID, and no proxy, port override or autoplay override.
    pub fn default_for_os(os: &str, tmp_dir: std::path::PathBuf) -> (c: SessionConfig)
        ensures
            c.client_id@ == client_id_for_os(os@),
            is_random_uuid_text(c.device_id@),
            c.proxy is None,
            c.ap_port is None,
            c.tmp_dir == tmp_dir,
            c.autoplay is None,
    {
        let device_id = random_device_id();
        let client_id = if str_eq(os, "android") {
            ANDROID_CLIENT_ID
        } else if str_eq(os, "ios") {
            IOS_CLIENT_ID
        } else {
            KEYMASTER_CLIENT_ID
        };
        SessionConfig {
            client_id: String::from_str(client_id),
            device_id,
            proxy: None,
            ap_port: None,
            tmp_dir,
            autoplay: None,
        }
    }
}

/// The displayed name of every device type.
pub proof fn lemma_device_name_table(v: DeviceType)
    ensures
        v is Unknown ==> device_name(v) == "Unknown"@,
        v is Computer ==> device_name(v) == "Computer"@,
        v is Tablet ==> device_name(v) == "Tablet"@,
        v is Smartphone ==> device_name(v) == "Smartphone"@,
        v is Speaker ==> device_name(v) == "Speaker"@,
        v is Tv ==> device_name(v) == "TV"@,
        v is Avr ==> device_name(v) == "AVR"@,
        v is Stb ==> device_name(v) == "STB"@,
        v is AudioDongle ==> device_name(v) == "AudioDongle"@,
        v is GameConsole ==> device_name(v) == "GameConsole"@,
        v is CastAudio ==> device_name(v) == "CastAudio"@,
        v is CastVideo ==> device_name(v) == "CastVideo"@,
        v is Automobile ==> device_name(v) == "Automobile"@,
        v is Smartwatch ==> device_name(v) == "Smartwatch"@,
        v is Chromebook ==> device_name(v) == "Chromebook"@,
        v is UnknownSpotify ==> device_name(v) == "UnknownSpotify"@,
        v is CarThing ==> device_name(v) == "CarThing"@,
        v is Observer ==> device_name(v) == "Observer"@,
{
}

/// Android clients use the Android client ID, iOS clients the iOS one, and
/// every other system the desktop (keymaster) one.
pub proof fn lemma_client_id_table(os: Seq<char>)
    ensures
        client_id_for_os("android"@) == "9a8d2f0ce77a4e248bb71fefcb557637"@,
        client_id_for_os("ios"@) == "58bd3c95768941ea9eb4350aaa033eb3"@,
        os != "android"@ && os != "ios"@ ==> client_id_for_os(os)
            == "65b708073fc0480ea92a077233ca87bd"@,
{
    reveal_strlit("android");
    reveal_strlit("ios");
    assert("ios"@.len() != "android"@.len());
}

} // verus!
