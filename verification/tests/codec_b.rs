//! The ASCII receiver codec: line classification, the volume digit rules,
//! the surround mode tables and their round trip, and the command builders.

use heos_core::avr::{
    bass_down_command, bass_up_command, cinema_eq_off_command, cinema_eq_on_command,
    dialog_enhancer_command, dynamic_eq_off_command, dynamic_eq_on_command,
    dynamic_volume_command, frame_command, input_hdmi_command, input_query_command,
    lfe_down_command, lfe_up_command, mute_off_command, mute_on_command, mute_query_command,
    power_off_command, power_on_command, power_query_command, query_status_commands,
    set_input_command, set_volume_command, subwoofer_down_command, subwoofer_up_command,
    surround_query_command, treble_down_command, treble_up_command, volume_down_command,
    volume_query_command, volume_up_command, AvrClient, AvrEvent, QuickSelect, SurroundMode,
};

#[test]
fn volume_two_digits_parses_directly() {
    assert_eq!(AvrClient::decode_line("MV45"), Some(AvrEvent::MasterVolume(45)));
    assert_eq!(AvrClient::decode_line("MV05"), Some(AvrEvent::MasterVolume(5)));
    assert_eq!(AvrClient::decode_line("MV98"), Some(AvrEvent::MasterVolume(98)));
}

#[test]
fn volume_three_digits_discards_fraction() {
    assert_eq!(AvrClient::decode_line("MV455"), Some(AvrEvent::MasterVolume(45)));
    assert_eq!(AvrClient::decode_line("MV505"), Some(AvrEvent::MasterVolume(50)));
    assert_eq!(AvrClient::decode_line("MV120"), Some(AvrEvent::MasterVolume(12)));
}

#[test]
fn volume_malformed_suffix_is_dropped() {
    assert_eq!(AvrClient::decode_line("MV4"), None);
    assert_eq!(AvrClient::decode_line("MVABC"), None);
    assert_eq!(AvrClient::decode_line("MV4555"), None);
    assert_eq!(AvrClient::decode_line("MV4X"), None);
    assert_eq!(AvrClient::decode_line("MV"), None);
}

#[test]
fn volume_max_line_is_raw_response() {
    assert_eq!(
        AvrClient::decode_line("MVMAX 80"),
        Some(AvrEvent::Response("MVMAX 80".to_string()))
    );
}

#[test]
fn mute_lines() {
    assert_eq!(AvrClient::decode_line("MUON"), Some(AvrEvent::Mute(true)));
    assert_eq!(AvrClient::decode_line("MUOFF"), Some(AvrEvent::Mute(false)));
    assert_eq!(AvrClient::decode_line("MUX"), None);
}

#[test]
fn power_lines() {
    assert_eq!(AvrClient::decode_line("PWON"), Some(AvrEvent::Power(true)));
    assert_eq!(AvrClient::decode_line("PWSTANDBY"), Some(AvrEvent::Power(false)));
    assert_eq!(AvrClient::decode_line("PWOFF"), Some(AvrEvent::Power(false)));
    assert_eq!(AvrClient::decode_line("PWWHAT"), None);
}

#[test]
fn source_and_surround_lines_carry_suffix_verbatim() {
    assert_eq!(AvrClient::decode_line("SITV"), Some(AvrEvent::InputSource("TV".to_string())));
    assert_eq!(
        AvrClient::decode_line("MSDOLBY DIGITAL"),
        Some(AvrEvent::SurroundMode("DOLBY DIGITAL".to_string()))
    );
}

#[test]
fn unrecognized_line_is_raw_response() {
    assert_eq!(
        AvrClient::decode_line("ZMON"),
        Some(AvrEvent::Response("ZMON".to_string()))
    );
}

#[test]
fn blank_line_is_dropped() {
    assert_eq!(AvrClient::decode_line(""), None);
    assert_eq!(AvrClient::decode_line("  \r\n"), None);
}

#[test]
fn line_is_trimmed_before_classification() {
    assert_eq!(AvrClient::decode_line("MV45\r\n"), Some(AvrEvent::MasterVolume(45)));
    assert_eq!(AvrClient::decode_line("  PWON  "), Some(AvrEvent::Power(true)));
}

#[test]
fn surround_mode_round_trip_all_sixteen() {
    for mode in SurroundMode::all() {
        let token = mode.command();
        assert!(token.starts_with("MS"));
        let suffix = &token[2..];
        assert_eq!(SurroundMode::from_response(suffix), Some(mode));
        match AvrClient::decode_line(token) {
            Some(AvrEvent::SurroundMode(s)) => {
                assert_eq!(SurroundMode::from_response(&s), Some(mode));
            }
            other => panic!("expected a surround mode event, got {:?}", other),
        }
    }
}

#[test]
fn surround_mode_tables() {
    assert_eq!(SurroundMode::Movie.command(), "MSMOVIE");
    assert_eq!(SurroundMode::Movie.display_name(), "Movie");
    assert_eq!(SurroundMode::MultiChStereo.command(), "MSMCH STEREO");
    assert_eq!(SurroundMode::MultiChStereo.display_name(), "Multi Ch Stereo");
    assert_eq!(SurroundMode::PureDirect.command(), "MSPURE DIRECT");
    assert_eq!(SurroundMode::PureDirect.display_name(), "Pure Direct");
    let all = SurroundMode::all();
    assert_eq!(all.len(), 16);
    for i in 0..all.len() {
        for j in 0..all.len() {
            if i != j {
                assert_ne!(all[i].command(), all[j].command());
                assert_ne!(all[i].display_name(), all[j].display_name());
            }
        }
    }
}

#[test]
fn from_response_is_case_insensitive_and_trimmed() {
    assert_eq!(SurroundMode::from_response(" movie "), Some(SurroundMode::Movie));
    assert_eq!(SurroundMode::from_response("Dolby Digital"), Some(SurroundMode::DolbyDigital));
    assert_eq!(SurroundMode::from_response("NOPE"), None);
}

#[test]
fn quick_select_commands() {
    assert_eq!(QuickSelect::Quick1.command(), "MSQUICK1");
    assert_eq!(QuickSelect::Quick2.command(), "MSQUICK2");
    assert_eq!(QuickSelect::Quick3.command(), "MSQUICK3");
    assert_eq!(QuickSelect::Quick4.command(), "MSQUICK4");
    assert_eq!(QuickSelect::Quick5.command(), "MSQUICK5");
}

#[test]
fn framing_appends_carriage_return() {
    assert_eq!(frame_command("PWON"), "PWON\r");
}

#[test]
fn volume_command_clamps_and_pads() {
    assert_eq!(set_volume_command(45), "MV45");
    assert_eq!(set_volume_command(5), "MV05");
    assert_eq!(set_volume_command(120), "MV98");
    assert_eq!(set_volume_command(98), "MV98");
}

#[test]
fn input_commands() {
    assert_eq!(set_input_command("TV"), "SITV");
    assert_eq!(set_input_command("SAT/CBL"), "SISAT/CBL");
    assert_eq!(input_hdmi_command(3), "SIHDMI3");
    assert_eq!(input_hdmi_command(9), "SIHDMI7");
}

#[test]
fn dialog_enhancer_clamps_and_spells_off() {
    assert_eq!(dialog_enhancer_command(0), "PSDIL OFF");
    assert_eq!(dialog_enhancer_command(3), "PSDIL 03");
    assert_eq!(dialog_enhancer_command(6), "PSDIL 06");
    assert_eq!(dialog_enhancer_command(9), "PSDIL 06");
}

#[test]
fn remaining_command_tokens() {
    assert_eq!(power_on_command(), "PWON");
    assert_eq!(power_off_command(), "PWSTANDBY");
    assert_eq!(power_query_command(), "PW?");
    assert_eq!(volume_up_command(), "MVUP");
    assert_eq!(volume_down_command(), "MVDOWN");
    assert_eq!(volume_query_command(), "MV?");
    assert_eq!(mute_on_command(), "MUON");
    assert_eq!(mute_off_command(), "MUOFF");
    assert_eq!(mute_query_command(), "MU?");
    assert_eq!(surround_query_command(), "MS?");
    assert_eq!(input_query_command(), "SI?");
    assert_eq!(bass_up_command(), "PSBAS UP");
    assert_eq!(bass_down_command(), "PSBAS DOWN");
    assert_eq!(treble_up_command(), "PSTRE UP");
    assert_eq!(treble_down_command(), "PSTRE DOWN");
    assert_eq!(dynamic_eq_on_command(), "PSDYNEQ ON");
    assert_eq!(dynamic_eq_off_command(), "PSDYNEQ OFF");
    assert_eq!(subwoofer_up_command(), "PSSWL UP");
    assert_eq!(subwoofer_down_command(), "PSSWL DOWN");
    assert_eq!(lfe_up_command(), "PSLFE UP");
    assert_eq!(lfe_down_command(), "PSLFE DOWN");
    assert_eq!(cinema_eq_on_command(), "PSCINEMA EQ.ON");
    assert_eq!(cinema_eq_off_command(), "PSCINEMA EQ.OFF");
    assert_eq!(dynamic_volume_command("MED"), "PSDYNVOL MED");
    assert_eq!(
        query_status_commands(),
        vec!["PW?", "MV?", "MU?", "SI?", "MS?"]
    );
}
