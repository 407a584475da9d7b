//! Typed state model for the player protocol: playback enums with their wire
//! spellings, and the records decoded from structured payloads.

use vstd::prelude::*;

verus! {

// ---------------------------------------------------------------------------
// Playback enums
// ---------------------------------------------------------------------------

/// Transport state of the player.
#[derive(Debug, Clone, Copy, PartialEq, Eq, Structural)]
pub enum PlayState {
    Unknown,
    Play,
    Pause,
    Stop,
}

/// Wire spelling to `PlayState`; anything unrecognized is `Unknown`.
pub open spec fn play_state_of(s: Seq<char>) -> PlayState {
    if s == "play"@ {
        PlayState::Play
    } else if s == "pause"@ {
        PlayState::Pause
    } else if s == "stop"@ {
        PlayState::Stop
    } else {
        PlayState::Unknown
    }
}

/// Wire spelling of a `PlayState`.
pub open spec fn play_state_str(p: PlayState) -> Seq<char> {
    match p {
        PlayState::Unknown => "unknown"@,
        PlayState::Play => "play"@,
        PlayState::Pause => "pause"@,
        PlayState::Stop => "stop"@,
    }
}

impl PlayState {
    pub fn from_str(s: &str) -> (r: Self)
        ensures
            r == play_state_of(s@),
    {
        if crate::strutil::str_eq(s, "play") {
            PlayState::Play
        } else if crate::strutil::str_eq(s, "pause") {
            PlayState::Pause
        } else if crate::strutil::str_eq(s, "stop") {
            PlayState::Stop
        } else {
            PlayState::Unknown
        }
    }

    pub fn as_str(&self) -> (r: &'static str)
        ensures
            r@ == play_state_str(*self),
    {
        match self {
            PlayState::Unknown => "unknown",
            PlayState::Play => "play",
            PlayState::Pause => "pause",
            PlayState::Stop => "stop",
        }
    }
}

impl Default for PlayState {
    fn default() -> (r: Self)
        ensures
            r == PlayState::Unknown,
    {
        PlayState::Unknown
    }
}

/// Mute flag of the player.
#[derive(Debug, Clone, Copy, PartialEq, Eq, Structural)]
pub enum MuteState {
    Off,
    On,
}

/// Wire spelling to `MuteState`; anything but `on` is `Off`.
pub open spec fn mute_state_of(s: Seq<char>) -> MuteState {
    if s == "on"@ {
        MuteState::On
    } else {
        MuteState::Off
    }
}

/// Wire spelling of a `MuteState`.
pub open spec fn mute_state_str(m: MuteState) -> Seq<char> {
    match m {
        MuteState::On => "on"@,
        MuteState::Off => "off"@,
    }
}

impl MuteState {
    pub fn from_str(s: &str) -> (r: Self)
        ensures
            r == mute_state_of(s@),
    {
        if crate::strutil::str_eq(s, "on") {
            MuteState::On
        } else {
            MuteState::Off
        }
    }

    pub fn as_str(&self) -> (r: &'static str)
        ensures
            r@ == mute_state_str(*self),
    {
        match self {
            MuteState::On => "on",
            MuteState::Off => "off",
        }
    }
}

impl Default for MuteState {
    fn default() -> (r: Self)
        ensures
            r == MuteState::Off,
    {
        MuteState::Off
    }
}

/// Repeat mode of the player.
#[derive(Debug, Clone, Copy, PartialEq, Eq, Structural)]
pub enum RepeatMode {
    Off,
    OnOne,
    OnAll,
}

/// Wire spelling to `RepeatMode`; anything unrecognized is `Off`.
pub open spec fn repeat_mode_of(s: Seq<char>) -> RepeatMode {
    if s == "on_one"@ {
        RepeatMode::OnOne
    } else if s == "on_all"@ {
        RepeatMode::OnAll
    } else {
        RepeatMode::Off
    }
}

/// Wire spelling of a `RepeatMode`.
pub open spec fn repeat_mode_str(m: RepeatMode) -> Seq<char> {
    match m {
        RepeatMode::Off => "off"@,
        RepeatMode::OnOne => "on_one"@,
        RepeatMode::OnAll => "on_all"@,
    }
}

impl RepeatMode {
    pub fn from_str(s: &str) -> (r: Self)
        ensures
            r == repeat_mode_of(s@),
    {
        if crate::strutil::str_eq(s, "on_one") {
            RepeatMode::OnOne
        } else if crate::strutil::str_eq(s, "on_all") {
            RepeatMode::OnAll
        } else {
            RepeatMode::Off
        }
    }

    pub fn as_str(&self) -> (r: &'static str)
        ensures
            r@ == repeat_mode_str(*self),
    {
        match self {
            RepeatMode::Off => "off",
            RepeatMode::OnOne => "on_one",
            RepeatMode::OnAll => "on_all",
        }
    }

    /// The mode that one press of the repeat key selects next.
    pub fn next(&self) -> (r: Self)
        ensures
            r == (match *self {
                RepeatMode::Off => RepeatMode::OnAll,
                RepeatMode::OnAll => RepeatMode::OnOne,
                RepeatMode::OnOne => RepeatMode::Off,
            }),
    {
        match self {
            RepeatMode::Off => RepeatMode::OnAll,
            RepeatMode::OnAll => RepeatMode::OnOne,
            RepeatMode::OnOne => RepeatMode::Off,
        }
    }
}

impl Default for RepeatMode {
    fn default() -> (r: Self)
        ensures
            r == RepeatMode::Off,
    {
        RepeatMode::Off
    }
}

/// Shuffle flag of the player.
#[derive(Debug, Clone, Copy, PartialEq, Eq, Structural)]
pub enum ShuffleMode {
    Off,
    On,
}

/// Wire spelling to `ShuffleMode`; anything but `on` is `Off`.
pub open spec fn shuffle_mode_of(s: Seq<char>) -> ShuffleMode {
    if s == "on"@ {
        ShuffleMode::On
    } else {
        ShuffleMode::Off
    }
}

/// Wire spelling of a `ShuffleMode`.
pub open spec fn shuffle_mode_str(m: ShuffleMode) -> Seq<char> {
    match m {
        ShuffleMode::On => "on"@,
        ShuffleMode::Off => "off"@,
    }
}

impl ShuffleMode {
    pub fn from_str(s: &str) -> (r: Self)
        ensures
            r == shuffle_mode_of(s@),
    {
        if crate::strutil::str_eq(s, "on") {
            ShuffleMode::On
        } else {
            ShuffleMode::Off
        }
    }

    pub fn as_str(&self) -> (r: &'static str)
        ensures
            r@ == shuffle_mode_str(*self),
    {
        match self {
            ShuffleMode::On => "on",
            ShuffleMode::Off => "off",
        }
    }

    /// The opposite shuffle flag.
    pub fn toggle(&self) -> (r: Self)
        ensures
            r == (match *self {
                ShuffleMode::Off => ShuffleMode::On,
                ShuffleMode::On => ShuffleMode::Off,
            }),
    {
        match self {
            ShuffleMode::Off => ShuffleMode::On,
            ShuffleMode::On => ShuffleMode::Off,
        }
    }
}

impl Default for ShuffleMode {
    fn default() -> (r: Self)
        ensures
            r == ShuffleMode::Off,
    {
        ShuffleMode::Off
    }
}

// ---------------------------------------------------------------------------
// Payload records
// ---------------------------------------------------------------------------

/// One player of the roster.
#[derive(Debug, PartialEq)]
pub struct Player {
    pub pid: i64,
    pub name: String,
    pub model: String,
    pub version: String,
    pub ip: String,
    pub network: String,
    pub lineout: i32,
    pub serial: String,
}

impl Clone for Player {
    fn clone(&self) -> (r: Self)
        ensures
            r == *self,
    {
        Player {
            pid: self.pid,
            name: self.name.clone(),
            model: self.model.clone(),
            version: self.version.clone(),
            ip: self.ip.clone(),
            network: self.network.clone(),
            lineout: self.lineout,
            serial: self.serial.clone(),
        }
    }
}

/// Metadata of the track or station now playing.
#[derive(Debug, PartialEq)]
pub struct NowPlayingMedia {
    pub song: String,
    pub album: String,
    pub artist: String,
    pub image_url: String,
    pub mid: String,
    pub qid: i64,
    pub sid: i64,
    pub station: String,
    pub media_type: String,
}

impl NowPlayingMedia {
    /// All fields empty or zero.
    pub open spec fn is_empty_spec(self) -> bool {
        &&& self.song@ == Seq::<char>::empty()
        &&& self.album@ == Seq::<char>::empty()
        &&& self.artist@ == Seq::<char>::empty()
        &&& self.image_url@ == Seq::<char>::empty()
        &&& self.mid@ == Seq::<char>::empty()
        &&& self.qid == 0
        &&& self.sid == 0
        &&& self.station@ == Seq::<char>::empty()
        &&& self.media_type@ == Seq::<char>::empty()
    }
}

impl Default for NowPlayingMedia {
    fn default() -> (r: Self)
        ensures
            r.is_empty_spec(),
    {
        NowPlayingMedia {
            song: String::new(),
            album: String::new(),
            artist: String::new(),
            image_url: String::new(),
            mid: String::new(),
            qid: 0,
            sid: 0,
            station: String::new(),
            media_type: String::new(),
        }
    }
}

impl Clone for NowPlayingMedia {
    fn clone(&self) -> (r: Self)
        ensures
            r == *self,
    {
        NowPlayingMedia {
            song: self.song.clone(),
            album: self.album.clone(),
            artist: self.artist.clone(),
            image_url: self.image_url.clone(),
            mid: self.mid.clone(),
            qid: self.qid,
            sid: self.sid,
            station: self.station.clone(),
            media_type: self.media_type.clone(),
        }
    }
}

/// One entry of the play queue.
#[derive(Debug, PartialEq)]
pub struct QueueItem {
    pub qid: i64,
    pub song: String,
    pub album: String,
    pub artist: String,
    pub image_url: String,
    pub mid: String,
}

impl Clone for QueueItem {
    fn clone(&self) -> (r: Self)
        ensures
            r == *self,
    {
        QueueItem {
            qid: self.qid,
            song: self.song.clone(),
            album: self.album.clone(),
            artist: self.artist.clone(),
            image_url: self.image_url.clone(),
            mid: self.mid.clone(),
        }
    }
}

/// One browsable music source.
#[derive(Debug, PartialEq)]
pub struct MusicSource {
    pub sid: i64,
    pub name: String,
    pub source_type: String,
    pub image_url: String,
    pub available: String,
    pub service_username: String,
}

impl Clone for MusicSource {
    fn clone(&self) -> (r: Self)
        ensures
            r == *self,
    {
        MusicSource {
            sid: self.sid,
            name: self.name.clone(),
            source_type: self.source_type.clone(),
            image_url: self.image_url.clone(),
            available: self.available.clone(),
            service_username: self.service_username.clone(),
        }
    }
}

/// One entry of a browse listing.
#[derive(Debug, PartialEq)]
pub struct BrowseItem {
    pub container: String,
    pub cid: String,
    pub mid: String,
    pub name: String,
    pub item_type: String,
    pub image_url: String,
    pub playable: String,
}

impl Clone for BrowseItem {
    fn clone(&self) -> (r: Self)
        ensures
            r == *self,
    {
        BrowseItem {
            container: self.container.clone(),
            cid: self.cid.clone(),
            mid: self.mid.clone(),
            name: self.name.clone(),
            item_type: self.item_type.clone(),
            image_url: self.image_url.clone(),
            playable: self.playable.clone(),
        }
    }
}

/// One physical input of a player.
#[derive(Debug, PartialEq)]
pub struct InputSource {
    pub sid: i64,
    pub name: String,
    pub input: String,
}

impl Clone for InputSource {
    fn clone(&self) -> (r: Self)
        ensures
            r == *self,
    {
        InputSource {
            sid: self.sid,
            name: self.name.clone(),
            input: self.input.clone(),
        }
    }
}

// ---------------------------------------------------------------------------
// Unified player state
// ---------------------------------------------------------------------------

/// State of the active player as the reconciler keeps it.
#[derive(Debug, PartialEq)]
pub struct PlayerState {
    pub player: Option<Player>,
    pub now_playing: NowPlayingMedia,
    pub play_state: PlayState,
    pub volume: u8,
    pub mute: MuteState,
    pub repeat: RepeatMode,
    pub shuffle: ShuffleMode,
}

impl PlayerState {
    /// Every transient field at its default, pending a fresh query.
    pub open spec fn is_reset_spec(self) -> bool {
        &&& self.now_playing.is_empty_spec()
        &&& self.play_state == PlayState::Unknown
        &&& self.volume == 0
        &&& self.mute == MuteState::Off
        &&& self.repeat == RepeatMode::Off
        &&& self.shuffle == ShuffleMode::Off
    }
}

impl Default for PlayerState {
    fn default() -> (r: Self)
        ensures
            r.is_reset_spec(),
            r.player is None,
    {
        PlayerState {
            player: None,
            now_playing: NowPlayingMedia::default(),
            play_state: PlayState::Unknown,
            volume: 0,
            mute: MuteState::Off,
            repeat: RepeatMode::Off,
            shuffle: ShuffleMode::Off,
        }
    }
}

impl Clone for PlayerState {
    fn clone(&self) -> (r: Self)
        ensures
            r == *self,
    {
        let player = match &self.player {
            Some(p) => Some(p.clone()),
            None => None,
        };
        PlayerState {
            player,
            now_playing: self.now_playing.clone(),
            play_state: self.play_state,
            volume: self.volume,
            mute: self.mute,
            repeat: self.repeat,
            shuffle: self.shuffle,
        }
    }
}

} // verus!
