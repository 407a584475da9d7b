//! Fixed selection tables the presentation layer pages through: the common
//! physical inputs of the player and the receiver's sound adjustments.

use vstd::prelude::*;

verus! {

/// The number of entries in the common input table.
pub fn input_count() -> (r: usize)
    ensures
        r == 16,
{
    16
}

/// The input tokens offered, in menu order.
pub open spec fn input_order() -> Seq<Seq<char>> {
    seq![
        "inputs/hdmi_in_1"@,
        "inputs/hdmi_in_2"@,
        "inputs/hdmi_in_3"@,
        "inputs/hdmi_in_4"@,
        "inputs/hdmi_in_5"@,
        "inputs/hdmi_in_6"@,
        "inputs/tv_audio"@,
        "inputs/optical_in_1"@,
        "inputs/optical_in_2"@,
        "inputs/coaxial_in_1"@,
        "inputs/aux_in_1"@,
        "inputs/aux_in_2"@,
        "inputs/bluetooth"@,
        "inputs/tuner"@,
        "inputs/phono"@,
        "inputs/cd"@,
    ]
}

/// The input token at a table index, as the play-input verb expects it.
pub fn get_input_at_index(index: usize) -> (r: Option<&'static str>)
    ensures
        index >= 16 ==> r is None,
        index < 16 ==> (r matches Some(s) && s@ == input_order()[index as int]),
{
    match index {
        0 => Some("inputs/hdmi_in_1"),
        1 => Some("inputs/hdmi_in_2"),
        2 => Some("inputs/hdmi_in_3"),
        3 => Some("inputs/hdmi_in_4"),
        4 => Some("inputs/hdmi_in_5"),
        5 => Some("inputs/hdmi_in_6"),
        6 => Some("inputs/tv_audio"),
        7 => Some("inputs/optical_in_1"),
        8 => Some("inputs/optical_in_2"),
        9 => Some("inputs/coaxial_in_1"),
        10 => Some("inputs/aux_in_1"),
        11 => Some("inputs/aux_in_2"),
        12 => Some("inputs/bluetooth"),
        13 => Some("inputs/tuner"),
        14 => Some("inputs/phono"),
        15 => Some("inputs/cd"),
        _ => None,
    }
}

/// The number of named surround modes.
pub fn mode_count() -> (r: usize)
    ensures
        r == 16,
{
    16
}

/// The surround mode at a menu index.
pub fn get_mode_at_index(index: usize) -> (r: Option<crate::avr::SurroundMode>)
    ensures
        index >= 16 ==> r is None,
        index < 16 ==> r == Some(crate::avr::mode_order()[index as int]),
{
    let all = crate::avr::SurroundMode::all();
    if index < all.len() {
        Some(all[index])
    } else {
        None
    }
}

/// The receiver sound adjustments offered.
#[derive(Debug, Clone, Copy, PartialEq, Eq, Structural)]
pub enum SoundSetting {
    BassUp,
    BassDown,
    TrebleUp,
    TrebleDown,
    SubwooferUp,
    SubwooferDown,
    DynamicEq,
    DialogEnhancer,
}

/// Menu label of a sound adjustment.
pub open spec fn setting_display(s: SoundSetting) -> Seq<char> {
    match s {
        SoundSetting::BassUp => "Bass +"@,
        SoundSetting::BassDown => "Bass -"@,
        SoundSetting::TrebleUp => "Treble +"@,
        SoundSetting::TrebleDown => "Treble -"@,
        SoundSetting::SubwooferUp => "Subwoofer +"@,
        SoundSetting::SubwooferDown => "Subwoofer -"@,
        SoundSetting::DynamicEq => "Dynamic EQ Toggle"@,
        SoundSetting::DialogEnhancer => "Dialog Enhancer"@,
    }
}

/// One-line description of a sound adjustment.
pub open spec fn setting_description(s: SoundSetting) -> Seq<char> {
    match s {
        SoundSetting::BassUp => "Increase bass level"@,
        SoundSetting::BassDown => "Decrease bass level"@,
        SoundSetting::TrebleUp => "Increase treble level"@,
        SoundSetting::TrebleDown => "Decrease treble level"@,
        SoundSetting::SubwooferUp => "Increase subwoofer level"@,
        SoundSetting::SubwooferDown => "Decrease subwoofer level"@,
        SoundSetting::DynamicEq => "Toggle Audyssey Dynamic EQ"@,
        SoundSetting::DialogEnhancer => "Enhance dialog clarity"@,
    }
}

/// All eight adjustments, in menu order.
pub open spec fn setting_order() -> Seq<SoundSetting> {
    seq![
        SoundSetting::BassUp,
        SoundSetting::BassDown,
        SoundSetting::TrebleUp,
        SoundSetting::TrebleDown,
        SoundSetting::SubwooferUp,
        SoundSetting::SubwooferDown,
        SoundSetting::DynamicEq,
        SoundSetting::DialogEnhancer,
    ]
}

impl SoundSetting {
    /// All eight adjustments, in menu order.
    pub fn all() -> (r: Vec<SoundSetting>)
        ensures
            r@ == setting_order(),
    {
        let mut v: Vec<SoundSetting> = Vec::new();
        v.push(SoundSetting::BassUp);
        v.push(SoundSetting::BassDown);
        v.push(SoundSetting::TrebleUp);
        v.push(SoundSetting::TrebleDown);
        v.push(SoundSetting::SubwooferUp);
        v.push(SoundSetting::SubwooferDown);
        v.push(SoundSetting::DynamicEq);
        v.push(SoundSetting::DialogEnhancer);
        proof {
            assert(v@ =~= setting_order());
        }
        v
    }

    /// The menu label.
    pub fn display_name(&self) -> (r: &'static str)
        ensures
            r@ == setting_display(*self),
    {
        match self {
            SoundSetting::BassUp => "Bass +",
            SoundSetting::BassDown => "Bass -",
            SoundSetting::TrebleUp => "Treble +",
            SoundSetting::TrebleDown => "Treble -",
            SoundSetting::SubwooferUp => "Subwoofer +",
            SoundSetting::SubwooferDown => "Subwoofer -",
            SoundSetting::DynamicEq => "Dynamic EQ Toggle",
            SoundSetting::DialogEnhancer => "Dialog Enhancer",
        }
    }

    /// The one-line description.
    pub fn description(&self) -> (r: &'static str)
        ensures
            r@ == setting_description(*self),
    {
        match self {
            SoundSetting::BassUp => "Increase bass level",
            SoundSetting::BassDown => "Decrease bass level",
            SoundSetting::TrebleUp => "Increase treble level",
            SoundSetting::TrebleDown => "Decrease treble level",
            SoundSetting::SubwooferUp => "Increase subwoofer level",
            SoundSetting::SubwooferDown => "Decrease subwoofer level",
            SoundSetting::DynamicEq => "Toggle Audyssey Dynamic EQ",
            SoundSetting::DialogEnhancer => "Enhance dialog clarity",
        }
    }
}

/// The number of sound adjustments.
pub fn setting_count() -> (r: usize)
    ensures
        r == 8,
{
    8
}

/// The sound adjustment at a menu index.
pub fn get_setting_at_index(index: usize) -> (r: Option<SoundSetting>)
    ensures
        index >= 8 ==> r is None,
        index < 8 ==> r == Some(setting_order()[index as int]),
{
    let all = SoundSetting::all();
    if index < all.len() {
        Some(all[index])
    } else {
        None
    }
}

} // verus!
