//! The envelope decoder, event classification, and the reconciler's rule
//! table over the unified state.

use heos_core::avr::{AvrClient, AvrEvent, SurroundMode};
use heos_core::menus::{
    get_input_at_index, get_mode_at_index, get_setting_at_index, input_count, mode_count,
    setting_count, SoundSetting,
};
use heos_core::client::{HeosClient, HeosEvent};
use heos_core::config::Config;
use heos_core::protocol::parse_response;
use heos_core::reconcile::{App, ConnectionState, Screen};
use heos_core::types::{
    MusicSource, MuteState, PlayState, Player, RepeatMode, ShuffleMode,
};

fn player(pid: i64, name: &str) -> Player {
    Player {
        pid,
        name: name.to_string(),
        model: "HEOS 5".to_string(),
        version: String::new(),
        ip: String::new(),
        network: String::new(),
        lineout: 0,
        serial: String::new(),
    }
}

fn app_with_players() -> App {
    let mut app = App::new(Config::default());
    app.players = vec![player(1, "Living Room"), player(2, "Kitchen")];
    app.current_player_idx = 0;
    app
}

#[test]
fn envelope_success_and_event_classification() {
    let ok = parse_response(
        "{\"heos\":{\"command\":\"player/get_volume\",\"result\":\"success\",\"message\":\"pid=1&level=37\"}}",
    )
    .expect("well-formed envelope");
    assert!(ok.is_success());
    assert!(!ok.is_event());

    let fail = parse_response(
        "{\"heos\":{\"command\":\"player/get_volume\",\"result\":\"fail\",\"message\":\"eid=2&text=bad\"}}",
    )
    .expect("well-formed envelope");
    assert!(!fail.is_success());
    assert!(!fail.is_event());

    let event = parse_response(
        "{\"heos\":{\"command\":\"event/player_volume_changed\",\"message\":\"pid=1&level=20&mute=off\"}}",
    )
    .expect("well-formed envelope");
    assert!(event.is_event());
    assert!(!event.is_success());
}

#[test]
fn envelope_malformed_lines_are_dropped() {
    assert!(parse_response("").is_none());
    assert!(parse_response("   ").is_none());
    assert!(parse_response("not json").is_none());
    assert!(parse_response("{\"nothing\":1}").is_none());
    assert!(parse_response("{\"heos\":{\"message\":\"x=1\"}}").is_none());
}

#[test]
fn get_volume_reply_updates_volume() {
    let mut app = app_with_players();
    let resp = parse_response(
        "{\"heos\":{\"command\":\"player/get_volume\",\"result\":\"success\",\"message\":\"pid=1&level=37\"}}",
    )
    .expect("well-formed envelope");
    app.handle_response(&resp);
    assert_eq!(app.player_state.volume, 37);
}

#[test]
fn failed_response_only_posts_status() {
    let mut app = app_with_players();
    let before = app_with_players();
    let resp = parse_response(
        "{\"heos\":{\"command\":\"player/get_volume\",\"result\":\"fail\",\"message\":\"eid=2&text=out of range\"}}",
    )
    .expect("well-formed envelope");
    app.handle_response(&resp);
    assert_eq!(app.player_state, before.player_state);
    assert_eq!(app.players, before.players);
    assert_eq!(app.queue, before.queue);
    assert_eq!(app.avr_state, before.avr_state);
    assert_eq!(app.status_message, Some("Error: out of range".to_string()));
}

#[test]
fn play_state_and_mode_replies_update_fields() {
    let mut app = app_with_players();
    let resp = parse_response(
        "{\"heos\":{\"command\":\"player/get_play_state\",\"result\":\"success\",\"message\":\"pid=1&state=play\"}}",
    )
    .expect("well-formed envelope");
    app.handle_response(&resp);
    assert_eq!(app.player_state.play_state, PlayState::Play);

    let resp = parse_response(
        "{\"heos\":{\"command\":\"player/set_play_mode\",\"result\":\"success\",\"message\":\"pid=1&repeat=on_all&shuffle=on\"}}",
    )
    .expect("well-formed envelope");
    app.handle_response(&resp);
    assert_eq!(app.player_state.repeat, RepeatMode::OnAll);
    assert_eq!(app.player_state.shuffle, ShuffleMode::On);
}

#[test]
fn get_players_reply_fills_roster() {
    let mut app = App::new(Config::default());
    let resp = parse_response(
        "{\"heos\":{\"command\":\"player/get_players\",\"result\":\"success\",\"message\":\"\"},\"payload\":[{\"pid\":7,\"name\":\"Den\",\"model\":\"HEOS 3\"},{\"pid\":8,\"name\":\"Bar\",\"model\":\"HEOS 7\"}]}",
    )
    .expect("well-formed envelope");
    app.handle_response(&resp);
    assert_eq!(app.players.len(), 2);
    assert_eq!(app.players[0].pid, 7);
    assert_eq!(app.players[0].name, "Den");
    assert_eq!(app.players[1].pid, 8);
    assert_eq!(
        app.player_state.player.as_ref().map(|p| p.pid),
        Some(7)
    );
}

#[test]
fn now_playing_reply_fills_metadata() {
    let mut app = app_with_players();
    let resp = parse_response(
        "{\"heos\":{\"command\":\"player/get_now_playing_media\",\"result\":\"success\",\"message\":\"pid=1\"},\"payload\":{\"song\":\"Aja\",\"artist\":\"Steely Dan\",\"album\":\"Aja\"}}",
    )
    .expect("well-formed envelope");
    app.handle_response(&resp);
    assert_eq!(app.player_state.now_playing.song, "Aja");
    assert_eq!(app.player_state.now_playing.artist, "Steely Dan");
    assert_eq!(app.player_state.now_playing.qid, 0);
}

#[test]
fn queue_reply_fills_queue() {
    let mut app = app_with_players();
    let resp = parse_response(
        "{\"heos\":{\"command\":\"player/get_queue\",\"result\":\"success\",\"message\":\"pid=1\"},\"payload\":[{\"qid\":1,\"song\":\"One\"},{\"qid\":2,\"song\":\"Two\"}]}",
    )
    .expect("well-formed envelope");
    app.handle_response(&resp);
    assert_eq!(app.queue.len(), 2);
    assert_eq!(app.queue[1].song, "Two");
}

#[test]
fn music_sources_reply_partitions_sources() {
    let mut app = app_with_players();
    let resp = parse_response(
        "{\"heos\":{\"command\":\"browse/get_music_sources\",\"result\":\"success\",\"message\":\"\"},\"payload\":[{\"sid\":1,\"name\":\"TuneIn\",\"type\":\"music_service\"},{\"sid\":2,\"name\":\"Local Music\",\"type\":\"heos_server\"},{\"sid\":3,\"name\":\"AUX Input\",\"type\":\"heos_service\"}]}",
    )
    .expect("well-formed envelope");
    app.handle_response(&resp);
    let names: Vec<&str> = app.music_sources.iter().map(|s| s.name.as_str()).collect();
    assert_eq!(names, vec!["TuneIn", "AUX Input"]);
    let input_names: Vec<&str> = app.inputs.iter().map(|s| s.name.as_str()).collect();
    assert_eq!(input_names, vec!["Local Music", "AUX Input"]);
}

#[test]
fn event_classification_volume_changed() {
    let envelope = parse_response(
        "{\"heos\":{\"command\":\"event/player_volume_changed\",\"message\":\"pid=1&level=20&mute=on\"}}",
    )
    .expect("well-formed envelope");
    match HeosClient::event_of_response(&envelope) {
        Some(HeosEvent::VolumeChanged { pid, level, mute }) => {
            assert_eq!(pid, 1);
            assert_eq!(level, 20);
            assert_eq!(mute, MuteState::On);
        }
        other => panic!("expected a volume event, got {:?}", other),
    }
}

#[test]
fn event_classification_unknown_name_is_dropped() {
    let envelope = parse_response(
        "{\"heos\":{\"command\":\"event/player_now_playing_progress\",\"message\":\"pid=1\"}}",
    )
    .expect("well-formed envelope");
    assert!(HeosClient::event_of_response(&envelope).is_none());
}

#[test]
fn end_to_end_get_volume_updates_state() {
    // The query goes out as its exact wire line; the reply's envelope and
    // nested message string come back through the same decoder the read
    // loop uses, and the reconciler applies the level.
    let line = heos_core::protocol::get_volume(1).to_string();
    assert_eq!(line, "heos://player/get_volume?pid=1\r\n");
    let mut app = app_with_players();
    let resp = parse_response(
        "{\"heos\":{\"command\":\"player/get_volume\",\"result\":\"success\",\"message\":\"pid=1&level=37\"}}",
    )
    .expect("well-formed envelope");
    assert!(!resp.is_event());
    app.handle_heos_event(HeosEvent::Response(resp));
    assert_eq!(app.player_state.volume, 37);
}

#[test]
fn matching_event_updates_player_state() {
    let mut app = app_with_players();
    app.handle_heos_event(HeosEvent::PlayerStateChanged { pid: 1, state: PlayState::Play });
    assert_eq!(app.player_state.play_state, PlayState::Play);
    app.handle_heos_event(HeosEvent::VolumeChanged {
        pid: 1,
        level: 55,
        mute: MuteState::On,
    });
    assert_eq!(app.player_state.volume, 55);
    assert_eq!(app.player_state.mute, MuteState::On);
    app.handle_heos_event(HeosEvent::PlayModeChanged {
        pid: 1,
        repeat: RepeatMode::OnOne,
        shuffle: ShuffleMode::On,
    });
    assert_eq!(app.player_state.repeat, RepeatMode::OnOne);
    assert_eq!(app.player_state.shuffle, ShuffleMode::On);
}

#[test]
fn nonmatching_event_leaves_state_unchanged() {
    let mut app = app_with_players();
    let before = app_with_players();
    app.handle_heos_event(HeosEvent::VolumeChanged {
        pid: 99,
        level: 55,
        mute: MuteState::On,
    });
    assert_eq!(app, before);
    app.handle_heos_event(HeosEvent::PlayerStateChanged { pid: 2, state: PlayState::Play });
    assert_eq!(app, before);
    app.handle_heos_event(HeosEvent::PlayModeChanged {
        pid: -1,
        repeat: RepeatMode::OnAll,
        shuffle: ShuffleMode::On,
    });
    assert_eq!(app, before);
}

#[test]
fn connection_events_update_lifecycle() {
    let mut app = App::new(Config::default());
    app.handle_heos_event(HeosEvent::Connected);
    assert_eq!(app.connection_state, ConnectionState::Connected);
    assert_eq!(app.status_message, Some("Connected to HEOS device".to_string()));
    app.handle_heos_event(HeosEvent::Disconnected);
    assert_eq!(app.connection_state, ConnectionState::Disconnected);
    assert_eq!(app.status_message, Some("Disconnected from HEOS device".to_string()));
}

#[test]
fn players_changed_with_empty_roster_is_ignored() {
    let mut app = app_with_players();
    let before = app_with_players();
    app.handle_heos_event(HeosEvent::PlayersChanged(Vec::new()));
    assert_eq!(app, before);
    app.handle_heos_event(HeosEvent::PlayersChanged(vec![player(9, "Attic")]));
    assert_eq!(app.players.len(), 1);
    assert_eq!(app.players[0].pid, 9);
}

#[test]
fn select_player_resets_transient_fields() {
    let mut app = app_with_players();
    app.player_state.volume = 80;
    app.player_state.play_state = PlayState::Play;
    app.player_state.repeat = RepeatMode::OnAll;
    app.player_state.shuffle = ShuffleMode::On;
    app.player_state.now_playing.song = "Something".to_string();
    let roster_before = app.players.clone();
    app.select_player(1);
    assert_eq!(app.current_player_idx, 1);
    assert_eq!(app.player_state.volume, 0);
    assert_eq!(app.player_state.play_state, PlayState::Unknown);
    assert_eq!(app.player_state.repeat, RepeatMode::Off);
    assert_eq!(app.player_state.shuffle, ShuffleMode::Off);
    assert_eq!(app.player_state.now_playing.song, "");
    assert_eq!(app.player_state.player.as_ref().map(|p| p.pid), Some(2));
    assert_eq!(app.players, roster_before);
}

#[test]
fn select_player_out_of_range_changes_nothing() {
    let mut app = app_with_players();
    let before = app_with_players();
    app.select_player(5);
    assert_eq!(app, before);
}

#[test]
fn end_to_end_avr_volume_line() {
    let mut app = App::new(Config::default());
    let event = AvrClient::decode_line("MV455").expect("volume line decodes");
    app.handle_avr_event(event);
    assert_eq!(app.avr_state.master_volume, 45);
}

#[test]
fn end_to_end_avr_input_line() {
    let mut app = App::new(Config::default());
    let event = AvrClient::decode_line("SITV").expect("input line decodes");
    app.handle_avr_event(event);
    assert_eq!(app.avr_state.input_source, "TV");
}

#[test]
fn avr_events_update_their_fields() {
    let mut app = App::new(Config::default());
    app.handle_avr_event(AvrEvent::Connected);
    assert!(app.avr_state.connected);
    app.handle_avr_event(AvrEvent::Power(true));
    assert!(app.avr_state.power);
    app.handle_avr_event(AvrEvent::Mute(true));
    assert!(app.avr_state.muted);
    app.handle_avr_event(AvrEvent::SurroundMode("DOLBY DIGITAL".to_string()));
    assert_eq!(app.avr_state.surround_mode, "DOLBY DIGITAL");
    app.handle_avr_event(AvrEvent::Error("read failed".to_string()));
    assert_eq!(app.status_message, Some("AVR Error: read failed".to_string()));
    app.handle_avr_event(AvrEvent::Disconnected);
    assert!(!app.avr_state.connected);
}

#[test]
fn avr_raw_response_changes_nothing() {
    let mut app = App::new(Config::default());
    let before = App::new(Config::default());
    app.handle_avr_event(AvrEvent::Response("MVMAX 80".to_string()));
    assert_eq!(app, before);
}

#[test]
fn mute_toggle_decides_against_last_known_state() {
    let mut app = App::new(Config::default());
    assert_eq!(app.avr_mute_toggle_command(), "MUON");
    app.handle_avr_event(AvrEvent::Mute(true));
    assert_eq!(app.avr_mute_toggle_command(), "MUOFF");
}

#[test]
fn play_pause_decides_against_transport_state() {
    let mut app = app_with_players();
    assert_eq!(app.play_pause_target(), "play");
    app.handle_heos_event(HeosEvent::PlayerStateChanged { pid: 1, state: PlayState::Play });
    assert_eq!(app.play_pause_target(), "pause");
}

#[test]
fn views_navigate_and_return() {
    let mut app = App::new(Config::default());
    app.show_view(Screen::Queue);
    assert_eq!(app.current_view, Screen::Queue);
    assert_eq!(app.previous_view, Screen::Main);
    app.go_back();
    assert_eq!(app.current_view, Screen::Main);
    app.show_view(Screen::Browse);
    app.browse_stack.push((1, "Albums".to_string()));
    app.browse_stack.push((1, "A".to_string()));
    app.go_back();
    assert_eq!(app.browse_stack.len(), 1);
    assert_eq!(app.current_view, Screen::Browse);
    app.go_back();
    app.go_back();
    assert_eq!(app.current_view, Screen::Main);
}

#[test]
fn status_slot_last_write_wins() {
    let mut app = App::new(Config::default());
    app.set_status("one");
    app.set_status("two");
    assert_eq!(app.status_message, Some("two".to_string()));
    app.clear_status();
    assert_eq!(app.status_message, None);
}

#[test]
fn partition_keeps_order_and_may_duplicate() {
    let sources = vec![
        MusicSource {
            sid: 1,
            name: "TuneIn".to_string(),
            source_type: "music_service".to_string(),
            image_url: String::new(),
            available: String::new(),
            service_username: String::new(),
        },
        MusicSource {
            sid: 2,
            name: "HDMI Input".to_string(),
            source_type: "device".to_string(),
            image_url: String::new(),
            available: String::new(),
            service_username: String::new(),
        },
    ];
    let (browsable, inputs) = heos_core::reconcile::partition_sources(sources);
    assert_eq!(browsable.len(), 2);
    assert_eq!(inputs.len(), 1);
    assert_eq!(inputs[0].sid, 2);
}

#[test]
fn selection_moves_stay_in_bounds() {
    let mut app = app_with_players();
    app.show_view(Screen::Devices);
    assert_eq!(app.device_selected, 0);
    app.move_up();
    assert_eq!(app.device_selected, 0);
    app.move_down();
    assert_eq!(app.device_selected, 1);
    app.move_down();
    assert_eq!(app.device_selected, 1);
    app.move_up();
    assert_eq!(app.device_selected, 0);

    app.show_view(Screen::Inputs);
    for _ in 0..20 {
        app.move_down();
    }
    assert_eq!(app.input_selected, input_count() - 1);

    app.show_view(Screen::Queue);
    app.move_down();
    assert_eq!(app.queue_selected, 0);
}

#[test]
fn menu_tables() {
    assert_eq!(input_count(), 16);
    assert_eq!(get_input_at_index(0), Some("inputs/hdmi_in_1"));
    assert_eq!(get_input_at_index(6), Some("inputs/tv_audio"));
    assert_eq!(get_input_at_index(15), Some("inputs/cd"));
    assert_eq!(get_input_at_index(16), None);
    assert_eq!(mode_count(), 16);
    assert_eq!(get_mode_at_index(0), Some(SurroundMode::Movie));
    assert_eq!(get_mode_at_index(15), Some(SurroundMode::Virtual));
    assert_eq!(get_mode_at_index(16), None);
    assert_eq!(setting_count(), 8);
    assert_eq!(get_setting_at_index(0), Some(SoundSetting::BassUp));
    assert_eq!(get_setting_at_index(7), Some(SoundSetting::DialogEnhancer));
    assert_eq!(get_setting_at_index(8), None);
    assert_eq!(SoundSetting::DynamicEq.display_name(), "Dynamic EQ Toggle");
    assert_eq!(SoundSetting::BassUp.description(), "Increase bass level");
}

#[test]
fn browse_stack_navigation() {
    let mut app = app_with_players();
    app.music_sources = vec![MusicSource {
        sid: 10,
        name: "TuneIn".to_string(),
        source_type: "music_service".to_string(),
        image_url: String::new(),
        available: String::new(),
        service_username: String::new(),
    }];
    app.browse_selected = 0;
    let sid = app.browse_enter_source();
    assert_eq!(sid, Some(10));
    assert_eq!(app.browse_stack, vec![(10, "TuneIn".to_string())]);
    // Entering again while inside a source is refused at the top level.
    assert_eq!(app.browse_enter_source(), None);

    app.browse_items = vec![heos_core::types::BrowseItem {
        container: "yes".to_string(),
        cid: "c42".to_string(),
        mid: String::new(),
        name: "Albums".to_string(),
        item_type: "container".to_string(),
        image_url: String::new(),
        playable: String::new(),
    }];
    let entered = app.browse_enter_item();
    assert_eq!(entered, Some((10, "c42".to_string())));
    assert_eq!(app.browse_stack.len(), 2);
    assert_eq!(app.browse_stack[1], (10, "Albums".to_string()));

    // A plain track is no container and changes nothing.
    app.browse_items[0].container = "no".to_string();
    assert_eq!(app.browse_enter_item(), None);
    assert_eq!(app.browse_stack.len(), 2);
}

#[test]
fn roster_with_undecodable_entry_is_rejected_whole() {
    let mut app = app_with_players();
    let before = app_with_players();
    let resp = parse_response(
        "{\"heos\":{\"command\":\"player/get_players\",\"result\":\"success\",\"message\":\"\"},\"payload\":[{\"pid\":7,\"name\":\"Den\",\"model\":\"HEOS 3\"},{\"name\":\"NoPid\",\"model\":\"HEOS 7\"}]}",
    )
    .expect("well-formed envelope");
    app.handle_response(&resp);
    assert_eq!(app, before);
}

#[test]
fn envelope_with_non_string_result_is_dropped() {
    assert!(parse_response("{\"heos\":{\"command\":\"x\",\"result\":5}}").is_none());
}

#[test]
fn envelope_with_null_result_is_event() {
    let resp = parse_response("{\"heos\":{\"command\":\"x\",\"result\":null}}")
        .expect("well-formed envelope");
    assert!(resp.is_event());
}
