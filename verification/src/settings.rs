//! User settings: the audio state and its volume bounds.  Reading and
//! writing the settings file is the host's business; the rules about
//! what a settings value may hold live here.

use vstd::prelude::*;

verus! {

/// Audio settings: whether music plays, and how loud.
#[derive(Debug, Clone, Copy, Eq, PartialEq, Structural)]
pub struct Audio {
    /// Music on or off.
    pub state: bool,
    /// Volume step, always between 0 and 10.
    pub volume: i8,
}

/// All user settings.
#[derive(Debug, Clone, Copy, Eq, PartialEq, Structural)]
pub struct Settings {
    pub audio: Audio,
}

impl Settings {
    /// The volume step stays inside its scale.
    pub open spec fn wf(self) -> bool {
        0 <= self.audio.volume <= 10
    }

    /// The settings shipped with the game: music on at volume five.
    pub fn get_default_config() -> (r: Settings)
        ensures
            r.wf(),
            r.audio.state == true,
            r.audio.volume == 5,
    {
        Settings { audio: Audio { state: true, volume: 5 } }
    }
}

/// One volume button press: minus one unless already at the bottom of
/// the scale, plus one unless already at the top; any other delta is
/// ignored.  The result stays inside the scale.
pub fn change_music_volume(volume: i8, delta: i8) -> (r: i8)
    requires
        0 <= volume <= 10,
    ensures
        (delta == -1 && volume != 0) || (delta == 1 && volume != 10) ==> r == volume + delta,
        !((delta == -1 && volume != 0) || (delta == 1 && volume != 10)) ==> r == volume,
        0 <= r <= 10,
{
    if (delta == -1 && volume != 0) || (delta == 1 && volume != 10) {
        volume + delta
    } else {
        volume
    }
}

} // verus!
