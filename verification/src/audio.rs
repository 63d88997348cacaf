//! The background music state machine: what to tell the audio engine
//! when the game is entered or left.

use vstd::prelude::*;

use crate::settings::Settings;

verus! {

/// Playback state of the background music.
#[derive(Debug, Clone, Copy, Eq, PartialEq, Structural)]
pub enum BackgroundMusicState {
    /// Music playing.
    Playing,
    /// Music has been paused.
    Paused,
    /// Music has been stopped or never played.
    Stopped,
}

/// The audio state the game carries: the user's on/off choice, the
/// playback state, and the volume step.
#[derive(Debug, Clone, Copy, Eq, PartialEq, Structural)]
pub struct AudioState {
    /// Music on or off, as the user chose.
    pub state: bool,
    /// Playback state of the background track.
    pub bg_state: BackgroundMusicState,
    /// Volume step, between 0 and 10.
    pub volume: i8,
}

/// A command for the audio engine.
#[derive(Debug, Clone, Copy, Eq, PartialEq, Structural)]
pub enum AudioCommand {
    /// Start the background track in a loop, at the stored volume.
    PlayLooped,
    /// Resume the paused track.
    Resume,
    /// Pause the playing track.
    Pause,
    /// Stop playback.
    Stop,
    /// Leave playback as it is.
    Keep,
}

/// Entering the game: with music on, a stopped track starts, a paused
/// one resumes, a playing one is left alone; with music off, playback
/// stops.  The returned state is the playback state afterwards.
pub fn start_bg_music(audio: &AudioState) -> (r: (AudioCommand, BackgroundMusicState))
    ensures
        audio.state && audio.bg_state == BackgroundMusicState::Stopped ==> r == (
            AudioCommand::PlayLooped,
            BackgroundMusicState::Playing,
        ),
        audio.state && audio.bg_state == BackgroundMusicState::Paused ==> r == (
            AudioCommand::Resume,
            BackgroundMusicState::Playing,
        ),
        audio.state && audio.bg_state == BackgroundMusicState::Playing ==> r == (
            AudioCommand::Keep,
            BackgroundMusicState::Playing,
        ),
        !audio.state ==> r == (AudioCommand::Stop, audio.bg_state),
{
    if audio.state {
        match audio.bg_state {
            BackgroundMusicState::Stopped => (AudioCommand::PlayLooped, BackgroundMusicState::Playing),
            BackgroundMusicState::Playing => (AudioCommand::Keep, BackgroundMusicState::Playing),
            BackgroundMusicState::Paused => (AudioCommand::Resume, BackgroundMusicState::Playing),
        }
    } else {
        (AudioCommand::Stop, audio.bg_state)
    }
}

/// Leaving the game: with music on, the track pauses so it can resume
/// later; with music off, it stops outright.
pub fn stop_bg_music(audio: &AudioState) -> (r: (AudioCommand, BackgroundMusicState))
    ensures
        audio.state ==> r == (AudioCommand::Pause, BackgroundMusicState::Paused),
        !audio.state ==> r == (AudioCommand::Stop, BackgroundMusicState::Stopped),
{
    if audio.state {
        (AudioCommand::Pause, BackgroundMusicState::Paused)
    } else {
        (AudioCommand::Stop, BackgroundMusicState::Stopped)
    }
}

/// The audio state the game starts with: the user's saved choice and
/// volume, nothing playing yet.
pub fn load_audio(settings: &Settings) -> (r: AudioState)
    ensures
        r.state == settings.audio.state,
        r.volume == settings.audio.volume,
        r.bg_state == BackgroundMusicState::Stopped,
{
    AudioState {
        state: settings.audio.state,
        bg_state: BackgroundMusicState::Stopped,
        volume: settings.audio.volume,
    }
}

/// Mirrors a changed audio state back into the persisted settings.
pub fn sync_audio_state_and_settings(audio: &AudioState, settings: &mut Settings)
    ensures
        final(settings).audio.state == audio.state,
        final(settings).audio.volume == audio.volume,
{
    settings.audio.state = audio.state;
    settings.audio.volume = audio.volume;
}

} // verus!
