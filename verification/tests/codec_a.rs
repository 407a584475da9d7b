//! The structured command codec: encoding, decoding, the round trip, and
//! the two-layer message-string parsing.

use heos_core::protocol::{
    browse_source, browse_source_container, check_account, clear_queue, decode_command,
    get_mute, get_now_playing_media, get_play_mode, get_play_state, get_player_info, get_players,
    get_queue, get_source_info, get_volume, heart_beat, message_get, parse_message_string,
    play_input, play_input_source, play_next, play_previous, play_queue, play_station,
    register_for_change_events, remove_from_queue, set_mute, set_play_mode, set_play_state,
    set_volume, toggle_mute, volume_down, volume_up, HeosCommand,
};

#[test]
fn encode_simple_command() {
    assert_eq!(get_players().to_string(), "heos://player/get_players\r\n");
    assert_eq!(check_account().to_string(), "heos://system/check_account\r\n");
    assert_eq!(heart_beat().to_string(), "heos://system/heart_beat\r\n");
}

#[test]
fn encode_command_with_params() {
    assert_eq!(get_volume(1).to_string(), "heos://player/get_volume?pid=1\r\n");
    assert_eq!(
        set_volume(-7, 42).to_string(),
        "heos://player/set_volume?pid=-7&level=42\r\n"
    );
    assert_eq!(
        set_play_state(3, "play").to_string(),
        "heos://player/set_play_state?pid=3&state=play\r\n"
    );
    assert_eq!(
        set_play_mode(1, "on_all", "off").to_string(),
        "heos://player/set_play_mode?pid=1&repeat=on_all&shuffle=off\r\n"
    );
    assert_eq!(
        get_queue(1, 0, 100).to_string(),
        "heos://player/get_queue?pid=1&range=0,100\r\n"
    );
    assert_eq!(
        register_for_change_events(true).to_string(),
        "heos://system/register_for_change_events?enable=on\r\n"
    );
    assert_eq!(
        register_for_change_events(false).to_string(),
        "heos://system/register_for_change_events?enable=off\r\n"
    );
}

#[test]
fn encode_player_commands() {
    assert_eq!(get_player_info(2).to_string(), "heos://player/get_player_info?pid=2\r\n");
    assert_eq!(get_play_state(2).to_string(), "heos://player/get_play_state?pid=2\r\n");
    assert_eq!(
        get_now_playing_media(2).to_string(),
        "heos://player/get_now_playing_media?pid=2\r\n"
    );
    assert_eq!(volume_up(2, 5).to_string(), "heos://player/volume_up?pid=2&step=5\r\n");
    assert_eq!(volume_down(2, 5).to_string(), "heos://player/volume_down?pid=2&step=5\r\n");
    assert_eq!(get_mute(2).to_string(), "heos://player/get_mute?pid=2\r\n");
    assert_eq!(set_mute(2, "on").to_string(), "heos://player/set_mute?pid=2&state=on\r\n");
    assert_eq!(toggle_mute(2).to_string(), "heos://player/toggle_mute?pid=2\r\n");
    assert_eq!(get_play_mode(2).to_string(), "heos://player/get_play_mode?pid=2\r\n");
    assert_eq!(play_queue(2, 9).to_string(), "heos://player/play_queue?pid=2&qid=9\r\n");
    assert_eq!(
        remove_from_queue(2, 9).to_string(),
        "heos://player/remove_from_queue?pid=2&qid=9\r\n"
    );
    assert_eq!(clear_queue(2).to_string(), "heos://player/clear_queue?pid=2\r\n");
    assert_eq!(play_next(2).to_string(), "heos://player/play_next?pid=2\r\n");
    assert_eq!(play_previous(2).to_string(), "heos://player/play_previous?pid=2\r\n");
}

#[test]
fn encode_browse_commands() {
    assert_eq!(get_source_info(5).to_string(), "heos://browse/get_source_info?sid=5\r\n");
    assert_eq!(browse_source(5).to_string(), "heos://browse/browse?sid=5\r\n");
    assert_eq!(
        browse_source_container(5, "c1").to_string(),
        "heos://browse/browse?sid=5&cid=c1\r\n"
    );
    assert_eq!(
        play_station(1, 5, "m-9").to_string(),
        "heos://browse/play_stream?pid=1&sid=5&mid=m-9\r\n"
    );
    assert_eq!(
        play_input(1, "inputs/aux_in_1").to_string(),
        "heos://browse/play_input?pid=1&input=inputs/aux_in_1\r\n"
    );
    assert_eq!(
        play_input_source(1, 2, "inputs/cd").to_string(),
        "heos://browse/play_input?pid=1&spid=2&input=inputs/cd\r\n"
    );
}

#[test]
fn decode_recovers_encoded_command() {
    let cmd = HeosCommand::new("player", "set_play_mode")
        .param("pid", "17")
        .param("repeat", "on_all")
        .param("shuffle", "off");
    let line = cmd.to_string();
    let decoded = decode_command(&line).expect("the encoded line must decode");
    assert_eq!(decoded.group, "player");
    assert_eq!(decoded.command, "set_play_mode");
    assert_eq!(
        decoded.params,
        vec![
            ("pid".to_string(), "17".to_string()),
            ("repeat".to_string(), "on_all".to_string()),
            ("shuffle".to_string(), "off".to_string()),
        ]
    );
}

#[test]
fn decode_recovers_command_without_params() {
    let line = get_players().to_string();
    let decoded = decode_command(&line).expect("the encoded line must decode");
    assert_eq!(decoded.group, "player");
    assert_eq!(decoded.command, "get_players");
    assert!(decoded.params.is_empty());
}

#[test]
fn decode_rejects_foreign_lines() {
    assert!(decode_command("http://player/get_players\r\n").is_none());
    assert!(decode_command("heos://noslash\r\n").is_none());
    assert!(decode_command("").is_none());
}

#[test]
fn decode_value_may_contain_equals() {
    let decoded = decode_command("heos://browse/browse?cid=a=b").expect("decodes");
    assert_eq!(decoded.params, vec![("cid".to_string(), "a=b".to_string())]);
}

#[test]
fn parse_message_string_splits_pairs() {
    let pairs = parse_message_string("pid=1&level=37");
    assert_eq!(
        pairs,
        vec![("pid".to_string(), "1".to_string()), ("level".to_string(), "37".to_string())]
    );
}

#[test]
fn parse_message_string_empty_is_empty() {
    assert!(parse_message_string("").is_empty());
}

#[test]
fn parse_message_string_drops_bare_fragments() {
    let pairs = parse_message_string("signed_out&user=x");
    assert_eq!(pairs, vec![("user".to_string(), "x".to_string())]);
}

#[test]
fn message_get_last_duplicate_wins() {
    let pairs = parse_message_string("k=1&k=2");
    assert_eq!(message_get(&pairs, "k"), Some("2".to_string()));
    assert_eq!(message_get(&pairs, "absent"), None);
}
