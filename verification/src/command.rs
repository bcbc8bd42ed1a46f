use vstd::prelude::*;

use crate::state::Music;

verus! {

/// The policy governing playlist traversal.
#[derive(Clone, Copy, Debug, PartialEq, Eq, Structural)]
pub enum PlayMode {
    /// Sequential order, wrapping at the end of the playlist.
    Normal,
    /// A uniform-random index on every step; may repeat the current one.
    Shuffle,
    /// The current index never moves on automatic advance.
    Repeat,
}

impl Default for PlayMode {
    fn default() -> (r: Self)
        ensures
            r == PlayMode::Normal,
    {
        PlayMode::Normal
    }
}

impl PlayMode {
    /// The display name of each mode.
    pub open spec fn spec_string(self) -> Seq<char> {
        match self {
            PlayMode::Normal => "顺序播放"@,
            PlayMode::Shuffle => "随机播放"@,
            PlayMode::Repeat => "单曲循环"@,
        }
    }

    pub fn get_string(&self) -> (r: String)
        ensures
            r@ == self.spec_string(),
    {
        match self {
            PlayMode::Normal => "顺序播放".to_owned(),
            PlayMode::Shuffle => "随机播放".to_owned(),
            PlayMode::Repeat => "单曲循环".to_owned(),
        }
    }

    /// The mode a control-plane name denotes, if any.
    pub open spec fn spec_from_string(s: Seq<char>) -> Option<PlayMode> {
        if s == "normal"@ {
            Some(PlayMode::Normal)
        } else if s == "shuffle"@ {
            Some(PlayMode::Shuffle)
        } else if s == "repeat"@ {
            Some(PlayMode::Repeat)
        } else {
            None
        }
    }

    /// Parses a play-mode name.  An unrecognized name is rejected, so a
    /// typo from the control plane surfaces as an error instead of
    /// silently falling back to sequential play.
    pub fn from_string(s: &str) -> (r: Option<Self>)
        ensures
            r == PlayMode::spec_from_string(s@),
    {
        let owned: String = s.to_owned();
        if owned == "normal".to_owned() {
            Some(PlayMode::Normal)
        } else if owned == "shuffle".to_owned() {
            Some(PlayMode::Shuffle)
        } else if owned == "repeat".to_owned() {
            Some(PlayMode::Repeat)
        } else {
            None
        }
    }
}

/// The closed set of commands a session accepts.  Commands are plain
/// values; the orchestrator dispatches on them with an exhaustive
/// match.  The control plane sends the reply of `GetState` and
/// `ShowPlaylist` itself, so no reply channel rides along here.
#[derive(Debug)]
pub enum PlayerCommand {
    /// Resume the loaded track, or start the current one.
    Play,
    /// Jump to the first track with this identifier and play it.
    PlayBvid(String),
    Pause,
    Next,
    Previous,
    Stop,
    /// Set the play mode by its control-plane name.
    SetModel(String),
    /// Set the volume as a percentage of nominal.
    SetVolume(u32),
    /// Append one track to the playlist.
    AddPlaylist(Music),
    /// Remove the first track with this identifier.
    Delete(String),
    /// Ask for a fresh session snapshot.
    GetState,
    /// Ask for the playlist contents.
    ShowPlaylist,
}

} // verus!
