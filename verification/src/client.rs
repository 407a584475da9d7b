//! Player-side session decoding: the typed events handed to the reconciler,
//! and the classification of unsolicited envelopes against the fixed table
//! of recognized event names.

use vstd::prelude::*;

use crate::protocol::{
    kv_views, lookup_field, message_fields, message_get, HeosResponse,
};
use crate::strutil::{all_digits, dec_val, parse_i64, parse_int_spec, parse_u8_digits, str_eq};
use crate::types::{
    mute_state_of, play_state_of, repeat_mode_of, shuffle_mode_of, MuteState, PlayState, Player,
    RepeatMode, ShuffleMode,
};

verus! {

/// Events decoded from player protocol traffic, plus connection lifecycle
/// markers that the session layer feeds through the same channel.
#[derive(Debug)]
pub enum HeosEvent {
    Connected,
    Disconnected,
    PlayersChanged(Vec<Player>),
    PlayerStateChanged { pid: i64, state: PlayState },
    NowPlayingChanged { pid: i64 },
    VolumeChanged { pid: i64, level: u8, mute: MuteState },
    PlayModeChanged { pid: i64, repeat: RepeatMode, shuffle: ShuffleMode },
    QueueChanged { pid: i64 },
    Error(String),
    Response(HeosResponse),
}

// ---------------------------------------------------------------------------
// Message-field readers
// ---------------------------------------------------------------------------

/// The integer under a key of the decoded message, or zero when the key is
/// absent or its value does not parse as a 64-bit signed decimal.
pub open spec fn msg_i64(m: Seq<(Seq<char>, Seq<char>)>, key: Seq<char>) -> int {
    match lookup_field(m, key) {
        Some(v) => match parse_int_spec(v) {
            Some(x) => if i64::MIN <= x <= i64::MAX {
                x
            } else {
                0
            },
            None => 0,
        },
        None => 0,
    }
}

/// The byte-sized level under a key of the decoded message, or zero when the
/// key is absent or its value is not a plain run of digits below 256; a
/// signed spelling is rejected.
pub open spec fn msg_level(m: Seq<(Seq<char>, Seq<char>)>, key: Seq<char>) -> int {
    match lookup_field(m, key) {
        Some(v) => if v.len() > 0 && all_digits(v) && dec_val(v) <= 255 {
            dec_val(v)
        } else {
            0
        },
        None => 0,
    }
}

/// The transport state named by the message, `Unknown` when absent.
pub open spec fn msg_play_state(m: Seq<(Seq<char>, Seq<char>)>) -> PlayState {
    match lookup_field(m, "state"@) {
        Some(v) => play_state_of(v),
        None => PlayState::Unknown,
    }
}

/// The mute flag named by the message, `Off` when absent.
pub open spec fn msg_mute(m: Seq<(Seq<char>, Seq<char>)>) -> MuteState {
    match lookup_field(m, "mute"@) {
        Some(v) => mute_state_of(v),
        None => MuteState::Off,
    }
}

/// The repeat mode named by the message, `Off` when absent.
pub open spec fn msg_repeat(m: Seq<(Seq<char>, Seq<char>)>) -> RepeatMode {
    match lookup_field(m, "repeat"@) {
        Some(v) => repeat_mode_of(v),
        None => RepeatMode::Off,
    }
}

/// The shuffle flag named by the message, `Off` when absent.
pub open spec fn msg_shuffle(m: Seq<(Seq<char>, Seq<char>)>) -> ShuffleMode {
    match lookup_field(m, "shuffle"@) {
        Some(v) => shuffle_mode_of(v),
        None => ShuffleMode::Off,
    }
}

/// Read an integer field of a decoded message, zero when absent or
/// unparsable.
pub fn field_i64(params: &Vec<(String, String)>, key: &str) -> (r: i64)
    ensures
        r as int == msg_i64(kv_views(params@), key@),
{
    match message_get(params, key) {
        Some(s) => match parse_i64(s.as_str()) {
            Some(v) => v,
            None => 0,
        },
        None => 0,
    }
}

/// Read a level field of a decoded message, zero when absent or not a plain
/// run of digits below 256.
pub fn field_level(params: &Vec<(String, String)>, key: &str) -> (r: u8)
    ensures
        r as int == msg_level(kv_views(params@), key@),
{
    match message_get(params, key) {
        Some(s) => match parse_u8_digits(s.as_str()) {
            Some(v) => v,
            None => 0,
        },
        None => 0,
    }
}

// ---------------------------------------------------------------------------
// Event classification
// ---------------------------------------------------------------------------

/// What classifying one envelope against the event table must yield: each
/// recognized action name maps to its typed event with the fields read from
/// the message string; an unrecognized name yields nothing and the line is
/// dropped.
pub open spec fn event_decode_ok(resp: HeosResponse, r: Option<HeosEvent>) -> bool {
    let cmd = resp.heos.command@;
    let m = message_fields(resp.heos.message@);
    if cmd == "event/player_state_changed"@ {
        r matches Some(HeosEvent::PlayerStateChanged { pid, state }) && pid as int == msg_i64(
            m,
            "pid"@,
        ) && state == msg_play_state(m)
    } else if cmd == "event/player_now_playing_changed"@ {
        r matches Some(HeosEvent::NowPlayingChanged { pid }) && pid as int == msg_i64(m, "pid"@)
    } else if cmd == "event/player_volume_changed"@ {
        r matches Some(HeosEvent::VolumeChanged { pid, level, mute }) && pid as int == msg_i64(
            m,
            "pid"@,
        ) && level as int == msg_level(m, "level"@) && mute == msg_mute(m)
    } else if cmd == "event/repeat_mode_changed"@ || cmd == "event/shuffle_mode_changed"@ {
        r matches Some(HeosEvent::PlayModeChanged { pid, repeat, shuffle }) && pid as int
            == msg_i64(m, "pid"@) && repeat == msg_repeat(m) && shuffle == msg_shuffle(m)
    } else if cmd == "event/player_queue_changed"@ {
        r matches Some(HeosEvent::QueueChanged { pid }) && pid as int == msg_i64(m, "pid"@)
    } else if cmd == "event/players_changed"@ {
        r matches Some(HeosEvent::PlayersChanged(v)) && v@ == Seq::<Player>::empty()
    } else {
        r is None
    }
}

/// The player-side session decoder.
pub struct HeosClient;

impl HeosClient {
    /// Decode one raw line into an envelope; blank and malformed lines are
    /// dropped, and a decoded envelope carries exactly the header fields and
    /// payload text of the trimmed line.
    pub fn parse_response(line: &str) -> (r: Option<HeosResponse>)
        ensures
            ({
                let t = crate::strutil::trim_seq(line@);
                match r {
                    Some(resp) => {
                        &&& t.len() > 0
                        &&& crate::json::header_of(t) == Some(
                            (
                                resp.heos.command@,
                                crate::protocol::opt_str_view(resp.heos.result),
                                resp.heos.message@,
                            ),
                        )
                        &&& resp.payload@ == crate::json::payload_text_of(t)
                    },
                    None => t.len() == 0 || crate::json::header_of(t) is None,
                }
            }),
    {
        crate::protocol::parse_response(line)
    }

    /// Classify an envelope against the fixed table of recognized event
    /// names.
    pub fn event_of_response(response: &HeosResponse) -> (r: Option<HeosEvent>)
        ensures
            event_decode_ok(*response, r),
    {
        let cmd = response.heos.command.as_str();
        let params = response.parse_message();
        if str_eq(cmd, "event/player_state_changed") {
            let pid = field_i64(&params, "pid");
            let state = match message_get(&params, "state") {
                Some(s) => PlayState::from_str(s.as_str()),
                None => PlayState::Unknown,
            };
            Some(HeosEvent::PlayerStateChanged { pid, state })
        } else if str_eq(cmd, "event/player_now_playing_changed") {
            let pid = field_i64(&params, "pid");
            Some(HeosEvent::NowPlayingChanged { pid })
        } else if str_eq(cmd, "event/player_volume_changed") {
            let pid = field_i64(&params, "pid");
            let level = field_level(&params, "level");
            let mute = match message_get(&params, "mute") {
                Some(s) => MuteState::from_str(s.as_str()),
                None => MuteState::Off,
            };
            Some(HeosEvent::VolumeChanged { pid, level, mute })
        } else if str_eq(cmd, "event/repeat_mode_changed") || str_eq(
            cmd,
            "event/shuffle_mode_changed",
        ) {
            let pid = field_i64(&params, "pid");
            let repeat = match message_get(&params, "repeat") {
                Some(s) => RepeatMode::from_str(s.as_str()),
                None => RepeatMode::Off,
            };
            let shuffle = match message_get(&params, "shuffle") {
                Some(s) => ShuffleMode::from_str(s.as_str()),
                None => ShuffleMode::Off,
            };
            Some(HeosEvent::PlayModeChanged { pid, repeat, shuffle })
        } else if str_eq(cmd, "event/player_queue_changed") {
            let pid = field_i64(&params, "pid");
            Some(HeosEvent::QueueChanged { pid })
        } else if str_eq(cmd, "event/players_changed") {
            let empty: Vec<Player> = Vec::new();
            Some(HeosEvent::PlayersChanged(empty))
        } else {
            None
        }
    }
}

} // verus!
