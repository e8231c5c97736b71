use vstd::prelude::*;

verus! {

/// The application's keyboard-triggered actions.
#[derive(Debug, Clone, Copy, PartialEq, Eq, Structural)]
pub enum Accelerators {
    Quit,
    FileChooser,
    TogglePlaylistVisibility,
    TogglePlayPause,
    NextFrame,
    Previous,
    Next,
    IncreaseVolume,
    DecreaseVolume,
    IncreaseSpeed,
    DecreaseSpeed,
    ResetSpeed,
    FullScreen,
    DumpPipeline,
    Preferences,
    VideoOffsets,
}

/// The key combinations bound to `accel`, in the toolkit's accelerator syntax;
/// `<Primary>` is the platform's main modifier.
pub open spec fn accelerator_names(accel: Accelerators) -> Seq<&'static str> {
    match accel {
        Accelerators::Quit => seq!["<Primary>Q"],
        Accelerators::FileChooser => seq!["<Primary>O"],
        Accelerators::TogglePlaylistVisibility => seq!["<Primary>B"],
        Accelerators::TogglePlayPause => seq!["space", "AudioPlay", "<Primary>space"],
        Accelerators::NextFrame => seq!["<Primary><Alt>Right"],
        Accelerators::Previous => seq!["<Primary>Left", "AudioPrev"],
        Accelerators::Next => seq!["<Primary>Right", "AudioNext"],
        Accelerators::IncreaseVolume => seq!["<Primary>Up"],
        Accelerators::DecreaseVolume => seq!["<Primary>Down"],
        Accelerators::IncreaseSpeed => seq!["<Primary><Alt>plus"],
        Accelerators::DecreaseSpeed => seq!["<Primary><Alt>minus"],
        Accelerators::ResetSpeed => seq!["<Primary><Alt>0"],
        Accelerators::FullScreen => seq!["<Primary>F"],
        Accelerators::DumpPipeline => seq!["<Primary>D"],
        Accelerators::Preferences => seq!["<Primary>comma"],
        Accelerators::VideoOffsets => seq!["<Primary>T"],
    }
}

/// The key combinations bound to `accel`.
pub fn accelerators(accel: Accelerators) -> (r: Vec<&'static str>)
    ensures
        r@ == accelerator_names(accel),
{
    let r = match accel {
        Accelerators::Quit => vec!["<Primary>Q"],
        Accelerators::FileChooser => vec!["<Primary>O"],
        Accelerators::TogglePlaylistVisibility => vec!["<Primary>B"],
        Accelerators::TogglePlayPause => vec!["space", "AudioPlay", "<Primary>space"],
        Accelerators::NextFrame => vec!["<Primary><Alt>Right"],
        Accelerators::Previous => vec!["<Primary>Left", "AudioPrev"],
        Accelerators::Next => vec!["<Primary>Right", "AudioNext"],
        Accelerators::IncreaseVolume => vec!["<Primary>Up"],
        Accelerators::DecreaseVolume => vec!["<Primary>Down"],
        Accelerators::IncreaseSpeed => vec!["<Primary><Alt>plus"],
        Accelerators::DecreaseSpeed => vec!["<Primary><Alt>minus"],
        Accelerators::ResetSpeed => vec!["<Primary><Alt>0"],
        Accelerators::FullScreen => vec!["<Primary>F"],
        Accelerators::DumpPipeline => vec!["<Primary>D"],
        Accelerators::Preferences => vec!["<Primary>comma"],
        Accelerators::VideoOffsets => vec!["<Primary>T"],
    };
    proof {
        assert(r@ =~= accelerator_names(accel));
    }
    r
}

} // verus!
