//! The event reconciler: the single writer of unified application state.
//! It consumes one decoded event or response at a time and applies a
//! deterministic rule table; a change is applied only when it concerns the
//! currently active player, and a failed command response never mutates
//! domain state.

use vstd::prelude::*;

use crate::avr::AvrEvent;
use crate::client::HeosEvent;
use crate::config::Config;
use crate::protocol::{
    lookup_field, message_fields, message_get, response_is_success, HeosResponse,
};
use crate::strutil::{all_digits, contains_seq, dec_val, str_contains, str_eq};
use crate::types::{
    mute_state_of, play_state_of, repeat_mode_of, shuffle_mode_of, BrowseItem, MusicSource,
    MuteState, PlayState, Player, PlayerState, QueueItem, RepeatMode, ShuffleMode,
};

verus! {

/// Which screen the presentation layer shows.
#[derive(Debug, Clone, Copy, PartialEq, Eq, Structural)]
pub enum Screen {
    Main,
    Devices,
    Queue,
    Browse,
    Inputs,
    SurroundModes,
    SoundSettings,
    Help,
}

/// Lifecycle of the player connection.
#[derive(Debug, Clone, Copy, PartialEq, Eq, Structural)]
pub enum ConnectionState {
    Disconnected,
    Discovering,
    Connected,
}

/// Unified receiver state, mutated only by the reconciler from receiver
/// traffic.
#[derive(Debug, PartialEq)]
pub struct AvrState {
    pub connected: bool,
    pub power: bool,
    /// Master volume on the device scale of 0 to 98.
    pub master_volume: u8,
    pub muted: bool,
    pub surround_mode: String,
    pub input_source: String,
}

impl Default for AvrState {
    fn default() -> (r: Self)
        ensures
            r.connected == false,
            r.power == false,
            r.master_volume == 0,
            r.muted == false,
            r.surround_mode@ == Seq::<char>::empty(),
            r.input_source@ == Seq::<char>::empty(),
    {
        AvrState {
            connected: false,
            power: false,
            master_volume: 0,
            muted: false,
            surround_mode: String::new(),
            input_source: String::new(),
        }
    }
}

impl Clone for AvrState {
    fn clone(&self) -> (r: Self)
        ensures
            r == *self,
    {
        AvrState {
            connected: self.connected,
            power: self.power,
            master_volume: self.master_volume,
            muted: self.muted,
            surround_mode: self.surround_mode.clone(),
            input_source: self.input_source.clone(),
        }
    }
}

/// The unified application state: configuration, connection lifecycle,
/// presentation selections, the device roster and the per-device states.
#[derive(Debug, PartialEq)]
pub struct App {
    pub config: Config,
    pub connection_state: ConnectionState,
    pub current_view: Screen,
    pub previous_view: Screen,
    pub should_quit: bool,
    pub status_message: Option<String>,
    pub players: Vec<Player>,
    pub current_player_idx: usize,
    pub player_state: PlayerState,
    pub queue: Vec<QueueItem>,
    pub queue_selected: usize,
    pub music_sources: Vec<MusicSource>,
    pub browse_items: Vec<BrowseItem>,
    pub browse_selected: usize,
    pub browse_stack: Vec<(i64, String)>,
    pub inputs: Vec<MusicSource>,
    pub input_selected: usize,
    pub device_selected: usize,
    pub surround_selected: usize,
    pub sound_setting_selected: usize,
    pub avr_state: AvrState,
}

impl App {
    /// The identifier of the active player: the roster entry the selection
    /// index points at, if it points at one.
    pub open spec fn current_pid_spec(self) -> Option<int> {
        if self.current_player_idx < self.players@.len() {
            Some(self.players@[self.current_player_idx as int].pid as int)
        } else {
            None
        }
    }

    /// A fresh state around a configuration: disconnected, main view, empty
    /// roster and defaults everywhere.
    pub fn new(config: Config) -> (r: Self)
        ensures
            r.config == config,
            r.connection_state == ConnectionState::Disconnected,
            r.current_view == Screen::Main,
            r.previous_view == Screen::Main,
            r.should_quit == false,
            r.status_message is None,
            r.players@ == Seq::<Player>::empty(),
            r.current_player_idx == 0,
            r.player_state.is_reset_spec(),
            r.player_state.player is None,
            r.queue@ == Seq::<QueueItem>::empty(),
            r.queue_selected == 0,
            r.music_sources@ == Seq::<MusicSource>::empty(),
            r.browse_items@ == Seq::<BrowseItem>::empty(),
            r.browse_selected == 0,
            r.browse_stack@ == Seq::<(i64, String)>::empty(),
            r.inputs@ == Seq::<MusicSource>::empty(),
            r.input_selected == 0,
            r.device_selected == 0,
            r.surround_selected == 0,
            r.sound_setting_selected == 0,
            r.avr_state.connected == false,
    {
        App {
            config,
            connection_state: ConnectionState::Disconnected,
            current_view: Screen::Main,
            previous_view: Screen::Main,
            should_quit: false,
            status_message: None,
            players: Vec::new(),
            current_player_idx: 0,
            player_state: PlayerState::default(),
            queue: Vec::new(),
            queue_selected: 0,
            music_sources: Vec::new(),
            browse_items: Vec::new(),
            browse_selected: 0,
            browse_stack: Vec::new(),
            inputs: Vec::new(),
            input_selected: 0,
            device_selected: 0,
            surround_selected: 0,
            sound_setting_selected: 0,
            avr_state: AvrState::default(),
        }
    }

    /// The active roster entry, when the selection points at one.
    pub fn current_player(&self) -> (r: Option<&Player>)
        ensures
            match r {
                Some(p) => self.current_player_idx < self.players@.len() && *p == self.players@[self.current_player_idx as int],
                None => self.current_player_idx >= self.players@.len(),
            },
    {
        if self.current_player_idx < self.players.len() {
            Some(&self.players[self.current_player_idx])
        } else {
            None
        }
    }

    /// The identifier of the active player, when one is selected.
    pub fn current_pid(&self) -> (r: Option<i64>)
        ensures
            match r {
                Some(pid) => self.current_pid_spec() == Some(pid as int),
                None => self.current_pid_spec() is None,
            },
    {
        match self.current_player() {
            Some(p) => Some(p.pid),
            None => None,
        }
    }

    /// Put a message in the single status slot; the last write wins.
    pub fn set_status(&mut self, msg: &str)
        ensures
            *final(self) == (App { status_message: final(self).status_message, ..*old(self) }),
            final(self).status_message matches Some(s) && s@ == msg@,
    {
        self.status_message = Some(String::from_str(msg));
    }

    /// Clear the status slot.
    pub fn clear_status(&mut self)
        ensures
            *final(self) == (App { status_message: None, ..*old(self) }),
    {
        self.status_message = None;
    }

    /// Switch to a view, remembering the one shown before.
    pub fn show_view(&mut self, view: Screen)
        ensures
            old(self).current_view != view ==> *final(self) == (App {
                current_view: view,
                previous_view: old(self).current_view,
                ..*old(self)
            }),
            old(self).current_view == view ==> *final(self) == *old(self),
    {
        if self.current_view != view {
            self.previous_view = self.current_view;
            self.current_view = view;
        }
    }

    /// Leave the current view: popups return to the main view, and the
    /// browse view first walks back up its container stack.
    pub fn go_back(&mut self)
        ensures
            match old(self).current_view {
                Screen::Help | Screen::Devices | Screen::Queue | Screen::Inputs | Screen::SurroundModes
                    | Screen::SoundSettings => *final(self) == (App {
                    current_view: Screen::Main,
                    ..*old(self)
                }),
                Screen::Browse => if old(self).browse_stack@.len() == 0 {
                    *final(self) == (App { current_view: Screen::Main, ..*old(self) })
                } else {
                    &&& *final(self) == (App { browse_stack: final(self).browse_stack, ..*old(self) })
                    &&& final(self).browse_stack@ == old(self).browse_stack@.drop_last()
                },
                Screen::Main => *final(self) == *old(self),
            },
    {
        match self.current_view {
            Screen::Help | Screen::Devices | Screen::Queue | Screen::Inputs | Screen::SurroundModes
                | Screen::SoundSettings => {
                self.current_view = Screen::Main;
            },
            Screen::Browse => {
                if self.browse_stack.len() == 0 {
                    self.current_view = Screen::Main;
                } else {
                    self.browse_stack.pop();
                }
            },
            Screen::Main => {},
        }
    }

    /// Select a roster entry as the active device. The transient now-playing,
    /// volume, repeat and shuffle fields reset to their defaults pending a
    /// fresh query, while the roster itself stays untouched; an index past
    /// the roster changes nothing.
    pub fn select_player(&mut self, idx: usize)
        ensures
            idx < old(self).players@.len() ==> {
                &&& *final(self) == (App {
                    current_player_idx: idx,
                    player_state: final(self).player_state,
                    ..*old(self)
                })
                &&& final(self).players@ == old(self).players@
                &&& final(self).player_state.is_reset_spec()
                &&& final(self).player_state.player matches Some(p) && p == old(self).players@[idx as int]
            },
            idx >= old(self).players@.len() ==> *final(self) == *old(self),
    {
        if idx < self.players.len() {
            self.current_player_idx = idx;
            self.player_state = PlayerState::default();
            self.player_state.player = Some(self.players[idx].clone());
        }
    }

    /// The transport state a play/pause press should request: pause when
    /// playing, play otherwise.
    pub fn play_pause_target(&self) -> (r: &'static str)
        ensures
            self.player_state.play_state == PlayState::Play ==> r@ == "pause"@,
            self.player_state.play_state != PlayState::Play ==> r@ == "play"@,
    {
        match self.player_state.play_state {
            PlayState::Play => "pause",
            _ => "play",
        }
    }

    /// The explicit mute command a receiver mute toggle should issue,
    /// decided against the last known flag: the wire protocol itself offers
    /// no toggle.
    pub fn avr_mute_toggle_command(&self) -> (r: &'static str)
        ensures
            self.avr_state.muted ==> r@ == "MUOFF"@,
            !self.avr_state.muted ==> r@ == "MUON"@,
    {
        if self.avr_state.muted {
            "MUOFF"
        } else {
            "MUON"
        }
    }
}

// ---------------------------------------------------------------------------
// Source partitioning
// ---------------------------------------------------------------------------

/// The browsable sources: everything that is not a player-served source.
pub open spec fn music_sources_of(sources: Seq<MusicSource>) -> Seq<MusicSource> {
    sources.filter(|s: MusicSource| s.source_type@ != "heos_server"@)
}

/// The input-like sources: player-served sources and those whose name
/// mentions an input.
pub open spec fn inputs_of(sources: Seq<MusicSource>) -> Seq<MusicSource> {
    sources.filter(
        |s: MusicSource| s.source_type@ == "heos_server"@ || contains_seq(s.name@, "Input"@),
    )
}

/// Partition a decoded source listing into browsable sources and input-like
/// sources. A source can land in both lists when it is no player-served
/// source but its name mentions an input.
pub fn partition_sources(sources: Vec<MusicSource>) -> (r: (Vec<MusicSource>, Vec<MusicSource>))
    ensures
        r.0@ == music_sources_of(sources@),
        r.1@ == inputs_of(sources@),
{
    let n = sources.len();
    let mut browsable: Vec<MusicSource> = Vec::new();
    let mut inputs: Vec<MusicSource> = Vec::new();
    let mut i: usize = 0;
    proof {
        assert(sources@.take(0) =~= Seq::<MusicSource>::empty());
    }
    while i < n
        invariant
            n == sources@.len(),
            0 <= i <= n,
            browsable@ == music_sources_of(sources@.take(i as int)),
            inputs@ == inputs_of(sources@.take(i as int)),
        decreases n - i,
    {
        let is_server = str_eq(sources[i].source_type.as_str(), "heos_server");
        let has_input = str_contains(sources[i].name.as_str(), "Input");
        proof {
            broadcast use Seq::lemma_filter_push;

            let prev = sources@.take(i as int);
            let cur = sources@.take(i as int + 1);
            let x = sources@[i as int];
            assert(cur =~= prev.push(x));
            assert(music_sources_of(prev.push(x)) == (if x.source_type@ != "heos_server"@ {
                music_sources_of(prev).push(x)
            } else {
                music_sources_of(prev)
            }));
            assert(inputs_of(prev.push(x)) == (if x.source_type@ == "heos_server"@ || contains_seq(
                x.name@,
                "Input"@,
            ) {
                inputs_of(prev).push(x)
            } else {
                inputs_of(prev)
            }));
        }
        if !is_server {
            browsable.push(sources[i].clone());
        }
        if is_server || has_input {
            inputs.push(sources[i].clone());
        }
        i = i + 1;
    }
    proof {
        assert(sources@.take(n as int) =~= sources@);
    }
    (browsable, inputs)
}

// ---------------------------------------------------------------------------
// Reconciliation rules
// ---------------------------------------------------------------------------

/// What applying one receiver event to the state must do: each field event
/// updates its one field of the receiver state, lifecycle events flip the
/// connected flag, an error only posts a status message, and an opaque raw
/// response changes nothing.
pub open spec fn reconcile_avr_ok(a: App, b: App, e: AvrEvent) -> bool {
    match e {
        AvrEvent::Connected => {
            &&& b == (App {
                avr_state: (AvrState { connected: true, ..a.avr_state }),
                status_message: b.status_message,
                ..a
            })
            &&& b.status_message matches Some(s) && s@ == "AVR control connected"@
        },
        AvrEvent::Disconnected => b == (App {
            avr_state: (AvrState { connected: false, ..a.avr_state }),
            ..a
        }),
        AvrEvent::MasterVolume(v) => b == (App {
            avr_state: (AvrState { master_volume: v, ..a.avr_state }),
            ..a
        }),
        AvrEvent::Mute(m) => b == (App {
            avr_state: (AvrState { muted: m, ..a.avr_state }),
            ..a
        }),
        AvrEvent::Power(p) => b == (App {
            avr_state: (AvrState { power: p, ..a.avr_state }),
            ..a
        }),
        AvrEvent::SurroundMode(s) => {
            &&& b == (App {
                avr_state: (AvrState { surround_mode: b.avr_state.surround_mode, ..a.avr_state }),
                ..a
            })
            &&& b.avr_state.surround_mode == s
        },
        AvrEvent::InputSource(s) => {
            &&& b == (App {
                avr_state: (AvrState { input_source: b.avr_state.input_source, ..a.avr_state }),
                ..a
            })
            &&& b.avr_state.input_source == s
        },
        AvrEvent::Error(msg) => {
            &&& b == (App { status_message: b.status_message, ..a })
            &&& b.status_message matches Some(s) && s@ == "AVR Error: "@ + msg@
        },
        AvrEvent::Response(_) => b == a,
    }
}

/// What applying one command response to the state must do. A failed
/// response never mutates domain state and only surfaces its error text; a
/// successful one updates exactly the fields its command concerns, with
/// query replies and unsolicited change events sharing the same field-update
/// rules.
pub open spec fn reconcile_response_ok(a: App, b: App, resp: HeosResponse) -> bool {
    let cmd = resp.heos.command@;
    let m = message_fields(resp.heos.message@);
    if !response_is_success(resp) {
        match lookup_field(m, "text"@) {
            Some(t) => {
                &&& b == (App { status_message: b.status_message, ..a })
                &&& b.status_message matches Some(s) && s@ == "Error: "@ + t
            },
            None => b == a,
        }
    } else if contains_seq(cmd, "get_players"@) {
        match crate::json::items_of(resp.payload@) {
            Some(ts) => if crate::json::all_players_ok(ts) {
                &&& b == (App {
                    players: b.players,
                    player_state: (PlayerState {
                        player: b.player_state.player,
                        ..a.player_state
                    }),
                    ..a
                })
                &&& crate::json::players_match(ts, b.players@)
                &&& (if b.players@.len() > 0 && a.player_state.player is None {
                    b.player_state.player matches Some(p) && p == b.players@[0]
                } else {
                    b.player_state.player == a.player_state.player
                })
            } else {
                b == a
            },
            None => b == a,
        }
    } else if contains_seq(cmd, "get_play_state"@) {
        match lookup_field(m, "state"@) {
            Some(v) => b == (App {
                player_state: (PlayerState { play_state: play_state_of(v), ..a.player_state }),
                ..a
            }),
            None => b == a,
        }
    } else if contains_seq(cmd, "get_now_playing_media"@) {
        if crate::json::now_playing_text_ok(resp.payload@) {
            &&& b == (App {
                player_state: (PlayerState {
                    now_playing: b.player_state.now_playing,
                    ..a.player_state
                }),
                ..a
            })
            &&& crate::json::now_playing_matches_text(resp.payload@, b.player_state.now_playing)
        } else {
            b == a
        }
    } else if contains_seq(cmd, "get_volume"@) || contains_seq(cmd, "volume_up"@) || contains_seq(
        cmd,
        "volume_down"@,
    ) {
        match lookup_field(m, "level"@) {
            Some(v) => if v.len() > 0 && all_digits(v) && dec_val(v) <= 255 {
                &&& b == (App {
                    player_state: (PlayerState { volume: b.player_state.volume, ..a.player_state }),
                    ..a
                })
                &&& b.player_state.volume as int == dec_val(v)
            } else {
                b == a
            },
            None => b == a,
        }
    } else if contains_seq(cmd, "get_mute"@) || contains_seq(cmd, "set_mute"@) || contains_seq(
        cmd,
        "toggle_mute"@,
    ) {
        match lookup_field(m, "state"@) {
            Some(v) => b == (App {
                player_state: (PlayerState { mute: mute_state_of(v), ..a.player_state }),
                ..a
            }),
            None => b == a,
        }
    } else if contains_seq(cmd, "get_play_mode"@) || contains_seq(cmd, "set_play_mode"@) {
        &&& b == (App {
            player_state: (PlayerState {
                repeat: b.player_state.repeat,
                shuffle: b.player_state.shuffle,
                ..a.player_state
            }),
            ..a
        })
        &&& b.player_state.repeat == (match lookup_field(m, "repeat"@) {
            Some(v) => repeat_mode_of(v),
            None => a.player_state.repeat,
        })
        &&& b.player_state.shuffle == (match lookup_field(m, "shuffle"@) {
            Some(v) => shuffle_mode_of(v),
            None => a.player_state.shuffle,
        })
    } else if contains_seq(cmd, "get_queue"@) {
        match crate::json::items_of(resp.payload@) {
            Some(ts) => if crate::json::all_queue_items_ok(ts) {
                &&& b == (App { queue: b.queue, ..a })
                &&& crate::json::queue_items_match(ts, b.queue@)
            } else {
                b == a
            },
            None => b == a,
        }
    } else if contains_seq(cmd, "get_music_sources"@) {
        match crate::json::items_of(resp.payload@) {
            Some(ts) => if crate::json::all_sources_ok(ts) {
                &&& b == (App { music_sources: b.music_sources, inputs: b.inputs, ..a })
                &&& exists|decoded: Seq<MusicSource>|
                    #![trigger music_sources_of(decoded)]
                    {
                        &&& crate::json::sources_match(ts, decoded)
                        &&& b.music_sources@ == music_sources_of(decoded)
                        &&& b.inputs@ == inputs_of(decoded)
                    }
            } else {
                b == a
            },
            None => b == a,
        }
    } else if contains_seq(cmd, "browse"@) {
        match crate::json::items_of(resp.payload@) {
            Some(ts) => if crate::json::all_browse_items_ok(ts) {
                &&& b == (App {
                    browse_items: b.browse_items,
                    browse_selected: 0usize,
                    ..a
                })
                &&& crate::json::browse_items_match(ts, b.browse_items@)
            } else {
                b == a
            },
            None => b == a,
        }
    } else {
        b == a
    }
}

/// What applying one player event to the state must do. The guiding rule:
/// a change is applied only when the event's device identifier names the
/// active player; events for other devices are observed and discarded,
/// leaving the state untouched.
pub open spec fn reconcile_heos_ok(a: App, b: App, e: HeosEvent) -> bool {
    match e {
        HeosEvent::Connected => {
            &&& b == (App {
                connection_state: ConnectionState::Connected,
                status_message: b.status_message,
                ..a
            })
            &&& b.status_message matches Some(s) && s@ == "Connected to HEOS device"@
        },
        HeosEvent::Disconnected => {
            &&& b == (App {
                connection_state: ConnectionState::Disconnected,
                status_message: b.status_message,
                ..a
            })
            &&& b.status_message matches Some(s) && s@ == "Disconnected from HEOS device"@
        },
        HeosEvent::PlayersChanged(players) => if players@.len() > 0 {
            &&& b == (App { players: b.players, ..a })
            &&& b.players@ == players@
        } else {
            b == a
        },
        HeosEvent::PlayerStateChanged { pid, state } => if a.current_pid_spec() == Some(
            pid as int,
        ) {
            b == (App {
                player_state: (PlayerState { play_state: state, ..a.player_state }),
                ..a
            })
        } else {
            b == a
        },
        HeosEvent::NowPlayingChanged { pid } => b == a,
        HeosEvent::VolumeChanged { pid, level, mute } => if a.current_pid_spec() == Some(
            pid as int,
        ) {
            b == (App {
                player_state: (PlayerState { volume: level, mute: mute, ..a.player_state }),
                ..a
            })
        } else {
            b == a
        },
        HeosEvent::PlayModeChanged { pid, repeat, shuffle } => if a.current_pid_spec() == Some(
            pid as int,
        ) {
            b == (App {
                player_state: (PlayerState { repeat: repeat, shuffle: shuffle, ..a.player_state }),
                ..a
            })
        } else {
            b == a
        },
        HeosEvent::QueueChanged { pid } => b == a,
        HeosEvent::Error(msg) => {
            &&& b == (App { status_message: b.status_message, ..a })
            &&& b.status_message matches Some(s) && s@ == "Error: "@ + msg@
        },
        HeosEvent::Response(resp) => reconcile_response_ok(a, b, resp),
    }
}

impl App {
    /// Apply one receiver event to the unified state.
    pub fn handle_avr_event(&mut self, event: AvrEvent)
        ensures
            reconcile_avr_ok(*old(self), *final(self), event),
    {
        match event {
            AvrEvent::Connected => {
                self.avr_state.connected = true;
                self.set_status("AVR control connected");
            },
            AvrEvent::Disconnected => {
                self.avr_state.connected = false;
            },
            AvrEvent::MasterVolume(v) => {
                self.avr_state.master_volume = v;
            },
            AvrEvent::Mute(m) => {
                self.avr_state.muted = m;
            },
            AvrEvent::Power(p) => {
                self.avr_state.power = p;
            },
            AvrEvent::SurroundMode(s) => {
                self.avr_state.surround_mode = s;
            },
            AvrEvent::InputSource(s) => {
                self.avr_state.input_source = s;
            },
            AvrEvent::Error(msg) => {
                proof {
                    reveal_strlit("AVR Error: ");
                }
                let mut t = String::from_str("AVR Error: ");
                t.append(msg.as_str());
                self.status_message = Some(t);
            },
            AvrEvent::Response(_) => {},
        }
    }

    /// Apply one player event to the unified state.
    pub fn handle_heos_event(&mut self, event: HeosEvent)
        ensures
            reconcile_heos_ok(*old(self), *final(self), event),
    {
        match event {
            HeosEvent::Connected => {
                self.connection_state = ConnectionState::Connected;
                self.set_status("Connected to HEOS device");
            },
            HeosEvent::Disconnected => {
                self.connection_state = ConnectionState::Disconnected;
                self.set_status("Disconnected from HEOS device");
            },
            HeosEvent::PlayersChanged(players) => {
                if players.len() > 0 {
                    self.players = players;
                }
            },
            HeosEvent::PlayerStateChanged { pid, state } => {
                let current = self.current_pid();
                if current == Some(pid) {
                    self.player_state.play_state = state;
                }
            },
            HeosEvent::NowPlayingChanged { pid: _ } => {},
            HeosEvent::VolumeChanged { pid, level, mute } => {
                let current = self.current_pid();
                if current == Some(pid) {
                    self.player_state.volume = level;
                    self.player_state.mute = mute;
                }
            },
            HeosEvent::PlayModeChanged { pid, repeat, shuffle } => {
                let current = self.current_pid();
                if current == Some(pid) {
                    self.player_state.repeat = repeat;
                    self.player_state.shuffle = shuffle;
                }
            },
            HeosEvent::QueueChanged { pid: _ } => {},
            HeosEvent::Error(msg) => {
                proof {
                    reveal_strlit("Error: ");
                }
                let mut t = String::from_str("Error: ");
                t.append(msg.as_str());
                self.status_message = Some(t);
            },
            HeosEvent::Response(resp) => {
                self.handle_response(&resp);
            },
        }
    }

    /// Apply one command response to the unified state, dispatching on the
    /// command the response acknowledges.
    pub fn handle_response(&mut self, response: &HeosResponse)
        ensures
            reconcile_response_ok(*old(self), *final(self), *response),
    {
        let params = response.parse_message();
        if !response.is_success() {
            match message_get(&params, "text") {
                Some(text) => {
                    proof {
                        reveal_strlit("Error: ");
                    }
                    let mut t = String::from_str("Error: ");
                    t.append(text.as_str());
                    self.status_message = Some(t);
                },
                None => {},
            }
            return;
        }
        let cmd = response.heos.command.as_str();
        if str_contains(cmd, "get_players") {
            match response.payload_players() {
                Some(players) => {
                    self.players = players;
                    if self.players.len() > 0 && self.player_state.player.is_none() {
                        self.player_state.player = Some(self.players[0].clone());
                    }
                },
                None => {},
            }
        } else if str_contains(cmd, "get_play_state") {
            match message_get(&params, "state") {
                Some(state) => {
                    self.player_state.play_state = PlayState::from_str(state.as_str());
                },
                None => {},
            }
        } else if str_contains(cmd, "get_now_playing_media") {
            match response.payload_now_playing() {
                Some(media) => {
                    self.player_state.now_playing = media;
                },
                None => {},
            }
        } else if str_contains(cmd, "get_volume") || str_contains(cmd, "volume_up")
            || str_contains(cmd, "volume_down") {
            match message_get(&params, "level") {
                Some(level) => match crate::strutil::parse_u8_digits(level.as_str()) {
                    Some(v) => {
                        self.player_state.volume = v;
                    },
                    None => {},
                },
                None => {},
            }
        } else if str_contains(cmd, "get_mute") || str_contains(cmd, "set_mute") || str_contains(
            cmd,
            "toggle_mute",
        ) {
            match message_get(&params, "state") {
                Some(state) => {
                    self.player_state.mute = MuteState::from_str(state.as_str());
                },
                None => {},
            }
        } else if str_contains(cmd, "get_play_mode") || str_contains(cmd, "set_play_mode") {
            match message_get(&params, "repeat") {
                Some(repeat) => {
                    self.player_state.repeat = RepeatMode::from_str(repeat.as_str());
                },
                None => {},
            }
            match message_get(&params, "shuffle") {
                Some(shuffle) => {
                    self.player_state.shuffle = ShuffleMode::from_str(shuffle.as_str());
                },
                None => {},
            }
        } else if str_contains(cmd, "get_queue") {
            match response.payload_queue() {
                Some(queue) => {
                    self.queue = queue;
                },
                None => {},
            }
        } else if str_contains(cmd, "get_music_sources") {
            match response.payload_sources() {
                Some(sources) => {
                    let ghost decoded = sources@;
                    let parts = partition_sources(sources);
                    self.music_sources = parts.0;
                    self.inputs = parts.1;
                    proof {
                        assert(music_sources_of(decoded) == self.music_sources@);
                        assert(inputs_of(decoded) == self.inputs@);
                    }
                },
                None => {},
            }
        } else if str_contains(cmd, "browse") {
            match response.payload_browse() {
                Some(items) => {
                    self.browse_items = items;
                    self.browse_selected = 0;
                },
                None => {},
            }
        }
    }
}

impl App {
    /// Move the selection of the current view up one entry.
    pub fn move_up(&mut self)
        ensures
            match old(self).current_view {
                Screen::Devices => *final(self) == (App {
                    device_selected: if old(self).device_selected > 0 {
                        (old(self).device_selected - 1) as usize
                    } else {
                        0usize
                    },
                    ..*old(self)
                }),
                Screen::Queue => *final(self) == (App {
                    queue_selected: if old(self).queue_selected > 0 {
                        (old(self).queue_selected - 1) as usize
                    } else {
                        0usize
                    },
                    ..*old(self)
                }),
                Screen::Browse => *final(self) == (App {
                    browse_selected: if old(self).browse_selected > 0 {
                        (old(self).browse_selected - 1) as usize
                    } else {
                        0usize
                    },
                    ..*old(self)
                }),
                Screen::Inputs => *final(self) == (App {
                    input_selected: if old(self).input_selected > 0 {
                        (old(self).input_selected - 1) as usize
                    } else {
                        0usize
                    },
                    ..*old(self)
                }),
                Screen::SurroundModes => *final(self) == (App {
                    surround_selected: if old(self).surround_selected > 0 {
                        (old(self).surround_selected - 1) as usize
                    } else {
                        0usize
                    },
                    ..*old(self)
                }),
                Screen::SoundSettings => *final(self) == (App {
                    sound_setting_selected: if old(self).sound_setting_selected > 0 {
                        (old(self).sound_setting_selected - 1) as usize
                    } else {
                        0usize
                    },
                    ..*old(self)
                }),
                _ => *final(self) == *old(self),
            },
    {
        match self.current_view {
            Screen::Devices => {
                if self.device_selected > 0 {
                    self.device_selected = self.device_selected - 1;
                }
            },
            Screen::Queue => {
                if self.queue_selected > 0 {
                    self.queue_selected = self.queue_selected - 1;
                }
            },
            Screen::Browse => {
                if self.browse_selected > 0 {
                    self.browse_selected = self.browse_selected - 1;
                }
            },
            Screen::Inputs => {
                if self.input_selected > 0 {
                    self.input_selected = self.input_selected - 1;
                }
            },
            Screen::SurroundModes => {
                if self.surround_selected > 0 {
                    self.surround_selected = self.surround_selected - 1;
                }
            },
            Screen::SoundSettings => {
                if self.sound_setting_selected > 0 {
                    self.sound_setting_selected = self.sound_setting_selected - 1;
                }
            },
            _ => {},
        }
    }

    /// How many entries the current view's list holds.
    pub open spec fn current_list_len(self) -> int {
        match self.current_view {
            Screen::Devices => self.players@.len() as int,
            Screen::Queue => self.queue@.len() as int,
            Screen::Browse => if self.browse_stack@.len() == 0 {
                self.music_sources@.len() as int
            } else {
                self.browse_items@.len() as int
            },
            Screen::Inputs => 16,
            Screen::SurroundModes => 16,
            Screen::SoundSettings => 8,
            _ => 0,
        }
    }

    /// Move the selection of the current view down one entry, staying
    /// within the view's list.
    pub fn move_down(&mut self)
        ensures
            match old(self).current_view {
                Screen::Devices => *final(self) == (App {
                    device_selected: if old(self).device_selected + 1 < old(
                        self,
                    ).current_list_len() {
                        (old(self).device_selected + 1) as usize
                    } else {
                        old(self).device_selected
                    },
                    ..*old(self)
                }),
                Screen::Queue => *final(self) == (App {
                    queue_selected: if old(self).queue_selected + 1 < old(
                        self,
                    ).current_list_len() {
                        (old(self).queue_selected + 1) as usize
                    } else {
                        old(self).queue_selected
                    },
                    ..*old(self)
                }),
                Screen::Browse => *final(self) == (App {
                    browse_selected: if old(self).browse_selected + 1 < old(
                        self,
                    ).current_list_len() {
                        (old(self).browse_selected + 1) as usize
                    } else {
                        old(self).browse_selected
                    },
                    ..*old(self)
                }),
                Screen::Inputs => *final(self) == (App {
                    input_selected: if old(self).input_selected + 1 < 16 {
                        (old(self).input_selected + 1) as usize
                    } else {
                        old(self).input_selected
                    },
                    ..*old(self)
                }),
                Screen::SurroundModes => *final(self) == (App {
                    surround_selected: if old(self).surround_selected + 1 < 16 {
                        (old(self).surround_selected + 1) as usize
                    } else {
                        old(self).surround_selected
                    },
                    ..*old(self)
                }),
                Screen::SoundSettings => *final(self) == (App {
                    sound_setting_selected: if old(self).sound_setting_selected + 1 < 8 {
                        (old(self).sound_setting_selected + 1) as usize
                    } else {
                        old(self).sound_setting_selected
                    },
                    ..*old(self)
                }),
                _ => *final(self) == *old(self),
            },
    {
        match self.current_view {
            Screen::Devices => {
                let limit = self.players.len();
                if limit > 0 && self.device_selected < limit - 1 {
                    self.device_selected = self.device_selected + 1;
                }
            },
            Screen::Queue => {
                let limit = self.queue.len();
                if limit > 0 && self.queue_selected < limit - 1 {
                    self.queue_selected = self.queue_selected + 1;
                }
            },
            Screen::Browse => {
                let limit = if self.browse_stack.len() == 0 {
                    self.music_sources.len()
                } else {
                    self.browse_items.len()
                };
                if limit > 0 && self.browse_selected < limit - 1 {
                    self.browse_selected = self.browse_selected + 1;
                }
            },
            Screen::Inputs => {
                if self.input_selected < crate::menus::input_count() - 1 {
                    self.input_selected = self.input_selected + 1;
                }
            },
            Screen::SurroundModes => {
                if self.surround_selected < crate::menus::mode_count() - 1 {
                    self.surround_selected = self.surround_selected + 1;
                }
            },
            Screen::SoundSettings => {
                if self.sound_setting_selected < crate::menus::setting_count() - 1 {
                    self.sound_setting_selected = self.sound_setting_selected + 1;
                }
            },
            _ => {},
        }
    }

    /// Enter the selected top-level source while browsing its listing is
    /// requested: record it on the browse stack and hand back its source
    /// identifier, or nothing when the stack is not at the top or the
    /// selection points past the source list.
    pub fn browse_enter_source(&mut self) -> (r: Option<i64>)
        ensures
            match r {
                Some(sid) => {
                    &&& old(self).browse_stack@.len() == 0
                    &&& old(self).browse_selected < old(self).music_sources@.len()
                    &&& sid == old(self).music_sources@[old(self).browse_selected as int].sid
                    &&& *final(self) == (App { browse_stack: final(self).browse_stack, ..*old(self) })
                    &&& final(self).browse_stack@.len() == 1
                    &&& final(self).browse_stack@[0].0 == sid
                    &&& final(self).browse_stack@[0].1@ == old(self).music_sources@[old(
                        self,
                    ).browse_selected as int].name@
                },
                None => {
                    &&& *final(self) == *old(self)
                    &&& (old(self).browse_stack@.len() != 0 || old(self).browse_selected >= old(
                        self,
                    ).music_sources@.len())
                },
            },
    {
        if self.browse_stack.len() == 0 && self.browse_selected < self.music_sources.len() {
            let sid = self.music_sources[self.browse_selected].sid;
            let name = self.music_sources[self.browse_selected].name.clone();
            self.browse_stack.push((sid, name));
            Some(sid)
        } else {
            None
        }
    }

    /// Enter the selected browse entry when it is a container: record it on
    /// the browse stack and hand back the source identifier and container
    /// identifier to browse into; anything that is no container is left
    /// alone.
    pub fn browse_enter_item(&mut self) -> (r: Option<(i64, String)>)
        ensures
            match r {
                Some(sc) => {
                    &&& old(self).browse_stack@.len() > 0
                    &&& old(self).browse_selected < old(self).browse_items@.len()
                    &&& old(self).browse_items@[old(self).browse_selected as int].container@
                        == "yes"@
                    &&& sc.0 == old(self).browse_stack@.last().0
                    &&& sc.1@ == old(self).browse_items@[old(self).browse_selected as int].cid@
                    &&& *final(self) == (App { browse_stack: final(self).browse_stack, ..*old(self) })
                    &&& final(self).browse_stack@.len() == old(self).browse_stack@.len() + 1
                    &&& final(self).browse_stack@.take(old(self).browse_stack@.len() as int)
                        == old(self).browse_stack@
                    &&& final(self).browse_stack@.last().0 == sc.0
                    &&& final(self).browse_stack@.last().1@ == old(self).browse_items@[old(
                        self,
                    ).browse_selected as int].name@
                },
                None => *final(self) == *old(self),
            },
    {
        if self.browse_stack.len() > 0 && self.browse_selected < self.browse_items.len() {
            let is_container = str_eq(
                self.browse_items[self.browse_selected].container.as_str(),
                "yes",
            );
            if is_container {
                let sid = self.browse_stack[self.browse_stack.len() - 1].0;
                let name = self.browse_items[self.browse_selected].name.clone();
                let cid = self.browse_items[self.browse_selected].cid.clone();
                self.browse_stack.push((sid, name));
                proof {
                    assert(self.browse_stack@.take(old(self).browse_stack@.len() as int)
                        =~= old(self).browse_stack@);
                }
                return Some((sid, cid));
            }
            None
        } else {
            None
        }
    }
}

} // verus!
