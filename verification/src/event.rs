//! The discrete verbs the presentation layer can ask of the core. Mapping
//! key presses to these verbs is the surrounding glue's business.

use vstd::prelude::*;

verus! {

/// One user-visible operation.
#[derive(Debug, Clone, Copy, PartialEq, Eq, Structural)]
pub enum Action {
    Quit,
    PlayPause,
    Stop,
    NextTrack,
    PrevTrack,
    VolumeUp,
    VolumeDown,
    ToggleMute,
    CycleRepeat,
    ToggleShuffle,
    ShowDevices,
    ShowQueue,
    ShowBrowse,
    ShowInputs,
    ShowSurroundModes,
    ShowSoundSettings,
    ShowHelp,
    Back,
    Select,
    MoveUp,
    MoveDown,
    MoveLeft,
    MoveRight,
    Refresh,
}

} // verus!
