//! Commands that other Spotify Connect devices send through the dealer.
//!
//! Fields that hold protobuf messages of Spotify's player protocol are kept
//! as their JSON text ([`ProtoJson`]) or, for the transfer state, as their
//! encoded bytes.

use vstd::prelude::*;

use crate::text::concat_str;

verus! {

/// A protobuf message of the player protocol, as the JSON text it was sent as.
#[derive(Clone, Debug)]
pub struct ProtoJson {
    /// The JSON text of the message.
    pub json: String,
}

/// A dealer request containing a message ID, sender device ID, and command.
#[derive(Clone, Debug)]
pub struct Request {
    /// The unique message identifier.
    pub message_id: u32,
    /// The device ID of the sender.
    pub sent_by_device_id: String,
    /// The command to execute.
    pub command: Command,
}

/// A command that no variant of [`Command`] stands for: its `endpoint`
/// field, where that is a string, and its JSON text.
#[derive(Clone, Debug)]
pub struct UnknownCommand {
    /// The `endpoint` field of the command, where it is a string.
    pub endpoint: Option<String>,
    /// The JSON text of the command.
    pub json: String,
}

/// A dealer command representing a playback action.
#[derive(Clone, Debug)]
pub enum Command {
    /// Transfer playback to another device.
    Transfer(TransferCommand),
    /// Start or resume playback.
    Play(Box<PlayCommand>),
    /// Pause playback.
    Pause(PauseCommand),
    /// Seek to a position.
    SeekTo(SeekToCommand),
    /// Set shuffle state.
    SetShufflingContext(SetValueCommand),
    /// Set repeat-track state.
    SetRepeatingTrack(SetValueCommand),
    /// Set repeat-context state.
    SetRepeatingContext(SetValueCommand),
    /// Add a track to the queue.
    AddToQueue(AddToQueueCommand),
    /// Replace the queue.
    SetQueue(SetQueueCommand),
    /// Update playback options.
    SetOptions(SetOptionsCommand),
    /// Update the playback context.
    UpdateContext(UpdateContextCommand),
    /// Skip to the next track.
    SkipNext(SkipNextCommand),
    /// Skip to the previous track.
    SkipPrev(GenericCommand),
    /// Resume playback.
    Resume(GenericCommand),
    /// An unrecognized command.
    Unknown(UnknownCommand),
}

/// The endpoint name of each command; for an unknown command, its
/// `endpoint` field, or `???` where it has none.
pub open spec fn endpoint_name(c: Command) -> Seq<char> {
    match c {
        Command::Transfer(_) => "transfer"@,
        Command::Play(_) => "play"@,
        Command::Pause(_) => "pause"@,
        Command::SeekTo(_) => "seek_to"@,
        Command::SetShufflingContext(_) => "set_shuffling_context"@,
        Command::SetRepeatingContext(_) => "set_repeating_context"@,
        Command::SetRepeatingTrack(_) => "set_repeating_track"@,
        Command::AddToQueue(_) => "add_to_queue"@,
        Command::SetQueue(_) => "set_queue"@,
        Command::SetOptions(_) => "set_options"@,
        Command::UpdateContext(_) => "update_context"@,
        Command::SkipNext(_) => "skip_next"@,
        Command::SkipPrev(_) => "skip_prev"@,
        Command::Resume(_) => "resume"@,
        Command::Unknown(u) => match u.endpoint {
            Some(e) => e@,
            None => "???"@,
        },
    }
}

/// The displayed text of a command: `endpoint: `, then `unknown ` for an
/// unknown command, then its endpoint name.
pub open spec fn command_text(c: Command) -> Seq<char> {
    "endpoint: "@ + (if c is Unknown {
        "unknown "@
    } else {
        Seq::<char>::empty()
    }) + endpoint_name(c)
}

impl Command {
    /// The endpoint name of this command.
    pub fn endpoint(&self) -> (s: &str)
        ensures
            s@ == endpoint_name(*self),
    {
        match self {
            Command::Transfer(_) => "transfer",
            Command::Play(_) => "play",
            Command::Pause(_) => "pause",
            Command::SeekTo(_) => "seek_to",
            Command::SetShufflingContext(_) => "set_shuffling_context",
            Command::SetRepeatingContext(_) => "set_repeating_context",
            Command::SetRepeatingTrack(_) => "set_repeating_track",
            Command::AddToQueue(_) => "add_to_queue",
            Command::SetQueue(_) => "set_queue",
            Command::SetOptions(_) => "set_options",
            Command::UpdateContext(_) => "update_context",
            Command::SkipNext(_) => "skip_next",
            Command::SkipPrev(_) => "skip_prev",
            Command::Resume(_) => "resume",
            Command::Unknown(u) => match &u.endpoint {
                Some(e) => e.as_str(),
                None => "???",
            },
        }
    }

    /// The displayed text of this command.
    pub fn to_string(&self) -> (s: String)
        ensures
            s@ == command_text(*self),
    {
        let prefix = match self {
            Command::Unknown(_) => "endpoint: unknown ",
            _ => "endpoint: ",
        };
        let s = concat_str(prefix, self.endpoint());
        proof {
            reveal_strlit("endpoint: unknown ");
            reveal_strlit("endpoint: ");
            reveal_strlit("unknown ");
            if *self is Unknown {
                assert("endpoint: unknown "@ =~= "endpoint: "@ + "unknown "@);
            } else {
                assert("endpoint: "@ =~= "endpoint: "@ + Seq::<char>::empty());
            }
        }
        s
    }
}

/// A command to transfer playback between devices.
#[derive(Clone, Debug)]
pub struct TransferCommand {
    /// The encoded transfer state, if any.
    pub data: Option<Vec<u8>>,
    /// Transfer options.
    pub options: TransferOptions,
    /// The source device identifier.
    pub from_device_identifier: String,
    /// Logging parameters.
    pub logging_params: LoggingParams,
}

/// A command to start or resume playback.
#[derive(Clone, Debug)]
pub struct PlayCommand {
    /// The playback context.
    pub context: ProtoJson,
    /// The play origin.
    pub play_origin: ProtoJson,
    /// Play options.
    pub options: PlayOptions,
    /// Logging parameters.
    pub logging_params: LoggingParams,
}

/// A command to pause playback.
#[derive(Clone, Debug)]
pub struct PauseCommand {
    /// Logging parameters.
    pub logging_params: LoggingParams,
}

/// A command to seek to a position in the current track.
#[derive(Clone, Debug)]
pub struct SeekToCommand {
    /// The target position in milliseconds.
    pub value: u32,
    /// The current position.
    pub position: u32,
    /// Logging parameters.
    pub logging_params: LoggingParams,
}

/// A command to skip to the next track.
#[derive(Clone, Debug)]
pub struct SkipNextCommand {
    /// An optional track to skip to.
    pub track: Option<ProtoJson>,
    /// Logging parameters.
    pub logging_params: LoggingParams,
}

/// A command to set a boolean value (e.g., shuffle, repeat).
#[derive(Clone, Debug)]
pub struct SetValueCommand {
    /// The boolean value.
    pub value: bool,
    /// Logging parameters.
    pub logging_params: LoggingParams,
}

/// A command to add a track to the queue.
#[derive(Clone, Debug)]
pub struct AddToQueueCommand {
    /// The track to add.
    pub track: ProtoJson,
    /// Logging parameters.
    pub logging_params: LoggingParams,
}

/// A command to replace the queue.
#[derive(Clone, Debug)]
pub struct SetQueueCommand {
    /// The next tracks in the queue.
    pub next_tracks: Vec<ProtoJson>,
    /// The previous tracks.
    pub prev_tracks: Vec<ProtoJson>,
    /// The queue revision identifier (the last revision).
    pub queue_revision: String,
    /// Logging parameters.
    pub logging_params: LoggingParams,
}

/// A command to update playback options.
#[derive(Clone, Debug)]
pub struct SetOptionsCommand {
    /// Whether to shuffle the context.
    pub shuffling_context: Option<bool>,
    /// Whether to repeat the context.
    pub repeating_context: Option<bool>,
    /// Whether to repeat the current track.
    pub repeating_track: Option<bool>,
    /// Additional options.
    pub options: Option<OptionsOptions>,
    /// Logging parameters.
    pub logging_params: LoggingParams,
}

/// A command to update the playback context.
#[derive(Clone, Debug)]
pub struct UpdateContextCommand {
    /// The new context.
    pub context: ProtoJson,
    /// The optional session ID.
    pub session_id: Option<String>,
}

/// A generic command with only logging parameters.
#[derive(Clone, Debug)]
pub struct GenericCommand {
    /// Logging parameters.
    pub logging_params: LoggingParams,
}

/// Options for controlling playback transfer.
#[derive(Clone, Debug)]
pub struct TransferOptions {
    /// Whether to restore the paused state.
    pub restore_paused: Option<String>,
    /// Whether to restore the playback position.
    pub restore_position: Option<String>,
    /// Whether to restore the current track.
    pub restore_track: Option<String>,
    /// Whether to retain the session.
    pub retain_session: Option<String>,
}

impl Default for TransferOptions {
    /// No option set.
    fn default() -> (o: TransferOptions)
        ensures
            o.restore_paused is None,
            o.restore_position is None,
            o.restore_track is None,
            o.retain_session is None,
    {
        TransferOptions {
            restore_paused: None,
            restore_position: None,
            restore_track: None,
            retain_session: None,
        }
    }
}

/// Options for controlling playback.
#[derive(Clone, Debug)]
pub struct PlayOptions {
    /// Skip to a specific track.
    pub skip_to: Option<SkipTo>,
    /// Player option overrides.
    pub player_options_override: Option<ProtoJson>,
    /// The license type.
    pub license: Option<String>,
    /// Position to seek to in milliseconds.
    pub seek_to: Option<u32>,
    /// Whether to always play something.
    pub always_play_something: Option<bool>,
    /// The audio stream type.
    pub audio_stream: Option<String>,
    /// Whether playback starts paused.
    pub initially_paused: Option<bool>,
    /// The prefetch level.
    pub prefetch_level: Option<String>,
    /// Whether the command was system-initiated.
    pub system_initiated: Option<bool>,
}

/// Additional options for the `set_options` command.
#[derive(Clone, Debug)]
pub struct OptionsOptions {
    pub only_for_local_device: bool,
    pub override_restrictions: bool,
    pub system_initiated: bool,
}

/// A target track to skip to.
#[derive(Clone, Debug)]
pub struct SkipTo {
    /// The track UID.
    pub track_uid: Option<String>,
    /// The track URI.
    pub track_uri: Option<String>,
    /// The track index in the context.
    pub track_index: Option<u32>,
}

impl Default for SkipTo {
    /// No target set.
    fn default() -> (s: SkipTo)
        ensures
            s.track_uid is None,
            s.track_uri is None,
            s.track_index is None,
    {
        SkipTo { track_uid: None, track_uri: None, track_index: None }
    }
}

/// Logging parameters for a command.
#[derive(Clone, Debug)]
pub struct LoggingParams {
    /// Interaction IDs for analytics.
    pub interaction_ids: Option<Vec<String>>,
    /// The device identifier.
    pub device_identifier: Option<String>,
    /// When the command was initiated.
    pub command_initiated_time: Option<i64>,
    /// Page instance IDs for analytics.
    pub page_instance_ids: Option<Vec<String>>,
    /// The command identifier.
    pub command_id: Option<String>,
}

/// The endpoint name of every known command.
pub proof fn lemma_endpoint_table(v: Command)
    ensures
        v is Transfer ==> endpoint_name(v) == "transfer"@,
        v is Play ==> endpoint_name(v) == "play"@,
        v is Pause ==> endpoint_name(v) == "pause"@,
        v is SeekTo ==> endpoint_name(v) == "seek_to"@,
        v is SetShufflingContext ==> endpoint_name(v) == "set_shuffling_context"@,
        v is SetRepeatingContext ==> endpoint_name(v) == "set_repeating_context"@,
        v is SetRepeatingTrack ==> endpoint_name(v) == "set_repeating_track"@,
        v is AddToQueue ==> endpoint_name(v) == "add_to_queue"@,
        v is SetQueue ==> endpoint_name(v) == "set_queue"@,
        v is SetOptions ==> endpoint_name(v) == "set_options"@,
        v is UpdateContext ==> endpoint_name(v) == "update_context"@,
        v is SkipNext ==> endpoint_name(v) == "skip_next"@,
        v is SkipPrev ==> endpoint_name(v) == "skip_prev"@,
        v is Resume ==> endpoint_name(v) == "resume"@,
        v matches Command::Unknown(u) ==> endpoint_name(v) == match u.endpoint {
            Some(e) => e@,
            None => "???"@,
        },
{
}

} // verus!
