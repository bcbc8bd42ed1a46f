use vstd::prelude::*;

use crate::command::{PlayMode, PlayerCommand};
use crate::errors::PlayerError;
use crate::play_list::{
    index_after_remove, next_index_normal, prev_index_normal, Playlist, PlaylistView,
};
use crate::state::PlayerStateSnapshot;

verus! {

/// The largest volume a command may set, as a percentage of nominal.
pub const MAX_VOLUME_PERCENT: u32 = 200;

/// The lifecycle states of one playback session.  `Stopped` is
/// distinct from `Idle`: an explicit stop retains the playlist
/// position.
#[derive(Clone, Copy, Debug, PartialEq, Eq, Structural)]
pub enum PlayerState {
    Idle,
    Loading,
    Playing,
    Paused,
    Stopped,
}

/// One outstanding resolution: the generation it reports back under,
/// whether the automatic end-of-stream path started it, and the
/// stable state the session falls back to if it fails.
#[derive(Clone, Copy, Debug, PartialEq, Eq, Structural)]
pub struct PendingResolve {
    pub generation: u64,
    pub auto: bool,
    pub prior: PlayerState,
}

/// What the orchestrator asks its surroundings to perform after it
/// has handled one command or event.  The engine adapter carries out
/// the stream operations; the control plane answers the report
/// requests; a resolver task performs `StartResolve` and feeds its
/// outcome back through `AudioPlayer::on_resolve_result`.
#[derive(Debug)]
pub enum EngineAction {
    /// Nothing to perform.
    Nothing,
    /// Pause the current stream.
    Pause,
    /// Resume the current stream.
    Resume,
    /// Stop and unload the current stream.
    Stop,
    /// Apply this volume, in thousandths of nominal, to the render
    /// path.
    SetVolume(u32),
    /// Resolve a verified stream URL for this track and report the
    /// outcome back under this generation.
    StartResolve { bvid: String, cid: String, generation: u64 },
    /// Tear the previous pipeline down, load this URL at this volume
    /// (in thousandths of nominal) and start playing.
    LoadAndPlay { url: String, volume_millis: u32 },
    /// Answer the caller with a fresh session snapshot.
    ReportState,
    /// Answer the caller with the playlist contents.
    ReportPlaylist,
}

/// The mathematical value of an [`AudioPlayer`].
pub struct PlayerModel {
    pub playlist: PlaylistView,
    pub play_mode: PlayMode,
    pub volume_millis: u32,
    pub state: PlayerState,
    pub generation: u64,
    pub pending_resolve: Option<PendingResolve>,
}

impl PlayerModel {
    /// A session is well formed when its playlist is, its volume lies
    /// in the accepted range, and it is in `Loading` exactly while a
    /// resolve is outstanding, one of a generation the counter has
    /// reached and with a stable state to fall back to.
    pub open spec fn wf(self) -> bool {
        &&& self.playlist.wf()
        &&& self.volume_millis <= MAX_VOLUME_PERCENT * 10
        &&& (self.state == PlayerState::Loading <==> self.pending_resolve is Some)
        &&& (self.pending_resolve matches Some(p) ==> p.generation <= self.generation && p.prior
            != PlayerState::Loading)
    }

    /// The stable state of the session: its own state or, while a
    /// resolve is in flight, the state that resolve left.
    pub open spec fn stable_state(self) -> PlayerState {
        match self.pending_resolve {
            Some(p) => p.prior,
            None => self.state,
        }
    }
}

/// The next resolve generation: one past the current one, saturating
/// at the top of the counter's range.
pub open spec fn spec_bump(g: u64) -> u64 {
    if g == u64::MAX {
        g
    } else {
        (g + 1) as u64
    }
}

/// The same session with its cursor moved to position `j`.
pub open spec fn spec_with_cursor(m: PlayerModel, j: int) -> PlayerModel {
    PlayerModel {
        playlist: PlaylistView { current_index: j, ..m.playlist },
        ..m
    }
}

/// The session as it stands once a fresh resolve for the track under
/// the cursor is in flight: a new generation, a record of who asked
/// and what to fall back to, and the `Loading` state.
pub open spec fn spec_start_resolve(m: PlayerModel, auto: bool) -> PlayerModel {
    PlayerModel {
        state: PlayerState::Loading,
        generation: spec_bump(m.generation),
        pending_resolve: Some(
            PendingResolve {
                generation: spec_bump(m.generation),
                auto,
                prior: m.stable_state(),
            },
        ),
        ..m
    }
}

/// What `Stop` does to a session: the stream is dropped, the session
/// parks in `Stopped` with its playlist position retained, and any
/// outstanding resolve is discarded.
pub open spec fn spec_stop(m: PlayerModel) -> PlayerModel {
    PlayerModel { state: PlayerState::Stopped, pending_resolve: None, ..m }
}

/// Whether a resolve outcome reported under `generation` is the one
/// the session is waiting for.
pub open spec fn accepts_resolve(m: PlayerModel, generation: u64) -> bool {
    m.pending_resolve matches Some(p) && p.generation == generation
}

/// `Stop` invalidates an outstanding resolve: afterwards the session
/// waits for no generation at all, so the URL that the discarded
/// resolve later reports is never loaded —
/// [`AudioPlayer::on_resolve_result`] returns no action and changes
/// nothing on an outcome the session does not accept.
pub proof fn lemma_stop_discards_outstanding_resolve(m: PlayerModel, generation: u64)
    ensures
        spec_stop(m).pending_resolve is None,
        !accepts_resolve(spec_stop(m), generation),
{
}

/// The playback orchestrator of one session.  It owns the playlist,
/// the play mode, the volume and the lifecycle state, and it decides;
/// the surroundings perform.  Commands and engine events arrive one
/// at a time, and each handler returns the single action the decision
/// asks for.
#[derive(Debug)]
pub struct AudioPlayer {
    playlist: Playlist,
    play_mode: PlayMode,
    volume_millis: u32,
    state: PlayerState,
    generation: u64,
    pending_resolve: Option<PendingResolve>,
}

impl View for AudioPlayer {
    type V = PlayerModel;

    closed spec fn view(&self) -> PlayerModel {
        PlayerModel {
            playlist: self.playlist@,
            play_mode: self.play_mode,
            volume_millis: self.volume_millis,
            state: self.state,
            generation: self.generation,
            pending_resolve: self.pending_resolve,
        }
    }
}

impl AudioPlayer {
    /// A fresh idle session over the given playlist, with the given
    /// initial mode, volume and cursor.  A volume above the bound is
    /// rejected; so is a cursor that names no track (on an empty
    /// playlist the cursor must be zero).
    pub fn new(
        play_mode: PlayMode,
        volume: u32,
        initial_music_index: usize,
        playlist: Playlist,
    ) -> (r: Result<AudioPlayer, PlayerError>)
        requires
            playlist@.wf(),
        ensures
            volume > MAX_VOLUME_PERCENT ==> r == Err::<AudioPlayer, PlayerError>(
                PlayerError::InvalidVolume,
            ),
            volume <= MAX_VOLUME_PERCENT && !((playlist@.musics.len() > 0 && (
            initial_music_index as int) < playlist@.musics.len()) || (playlist@.musics.len() == 0
                && initial_music_index == 0)) ==> r == Err::<AudioPlayer, PlayerError>(
                PlayerError::NotFound,
            ),
            volume <= MAX_VOLUME_PERCENT && ((playlist@.musics.len() > 0 && (
            initial_music_index as int) < playlist@.musics.len()) || (playlist@.musics.len() == 0
                && initial_music_index == 0)) ==> (r matches Ok(p) && p@ == (PlayerModel {
                playlist: PlaylistView {
                    musics: playlist@.musics,
                    current_index: initial_music_index as int,
                },
                play_mode: play_mode,
                volume_millis: (volume * 10) as u32,
                state: PlayerState::Idle,
                generation: 0,
                pending_resolve: None,
            }) && p@.wf()),
    {
        if volume > MAX_VOLUME_PERCENT {
            return Err(PlayerError::InvalidVolume);
        }
        let mut playlist = playlist;
        if playlist.len() > 0 {
            if initial_music_index >= playlist.len() {
                return Err(PlayerError::NotFound);
            }
            playlist.set_current_music_index(initial_music_index);
        } else if initial_music_index != 0 {
            return Err(PlayerError::NotFound);
        }
        Ok(
            AudioPlayer {
                playlist,
                play_mode,
                volume_millis: volume * 10,
                state: PlayerState::Idle,
                generation: 0,
                pending_resolve: None,
            },
        )
    }

    /// Sets the volume from a percentage of nominal.  A value above
    /// the bound is rejected and changes nothing; an accepted value is
    /// stored scaled to thousandths of nominal.
    pub fn set_volume(&mut self, percentage: u32) -> (r: Result<(), PlayerError>)
        ensures
            percentage > MAX_VOLUME_PERCENT ==> r == Err::<(), PlayerError>(
                PlayerError::InvalidVolume,
            ) && final(self)@ == old(self)@,
            percentage <= MAX_VOLUME_PERCENT ==> r == Ok::<(), PlayerError>(()) && final(self)@
                == (PlayerModel { volume_millis: (percentage * 10) as u32, ..old(self)@ }),
    {
        if percentage > MAX_VOLUME_PERCENT {
            return Err(PlayerError::InvalidVolume);
        }
        self.volume_millis = percentage * 10;
        Ok(())
    }

    /// The stored volume as a percentage of nominal.
    pub fn get_volume(&self) -> (r: u32)
        ensures
            r as int == self@.volume_millis as int / 10,
    {
        self.volume_millis / 10
    }

    /// The stored volume in thousandths of nominal: the linear factor
    /// the render path is asked to apply.
    pub fn engine_volume_millis(&self) -> (r: u32)
        ensures
            r == self@.volume_millis,
    {
        self.volume_millis
    }

    pub fn play_mode(&self) -> (r: PlayMode)
        ensures
            r == self@.play_mode,
    {
        self.play_mode
    }

    pub fn player_state(&self) -> (r: PlayerState)
        ensures
            r == self@.state,
    {
        self.state
    }

    /// The playlist the session owns.
    pub fn playlist(&self) -> (r: &Playlist)
        ensures
            r@ == self@.playlist,
    {
        &self.playlist
    }

    /// Starts a fresh resolve for the track under the cursor.
    fn start_resolve(&mut self, auto: bool) -> (r: EngineAction)
        requires
            old(self)@.wf(),
            old(self)@.playlist.musics.len() > 0,
        ensures
            final(self)@.wf(),
            final(self)@ == spec_start_resolve(old(self)@, auto),
            (r matches EngineAction::StartResolve { bvid, cid, generation } && bvid@ == old(
                self,
            )@.playlist.musics[old(self)@.playlist.current_index].bvid && cid@ == old(
                self,
            )@.playlist.musics[old(self)@.playlist.current_index].cid && generation == spec_bump(
                old(self)@.generation,
            )),
    {
        let music = self.playlist.current_music();
        let generation = if self.generation == u64::MAX {
            self.generation
        } else {
            self.generation + 1
        };
        let prior = match self.pending_resolve {
            Some(p) => p.prior,
            None => self.state,
        };
        self.generation = generation;
        self.pending_resolve = Some(PendingResolve { generation, auto, prior });
        self.state = PlayerState::Loading;
        EngineAction::StartResolve { bvid: music.bvid, cid: music.cid, generation }
    }

    /// Handles one command and decides the single action it calls
    /// for.  Failures are reported to the caller and leave the
    /// session in the state the command found it in.
    pub fn handle_command(&mut self, command: PlayerCommand) -> (r: Result<
        EngineAction,
        PlayerError,
    >)
        requires
            old(self)@.wf(),
        ensures
            final(self)@.wf(),
            (command matches PlayerCommand::Play ==> {
                &&& old(self)@.state == PlayerState::Paused ==> final(self)@ == (PlayerModel {
                    state: PlayerState::Playing,
                    ..old(self)@
                }) && r == Ok::<EngineAction, PlayerError>(EngineAction::Resume)
                &&& old(self)@.state == PlayerState::Playing ==> final(self)@ == old(self)@ && r
                    == Ok::<EngineAction, PlayerError>(EngineAction::Resume)
                &&& (old(self)@.state != PlayerState::Paused && old(self)@.state
                    != PlayerState::Playing) ==> {
                    &&& old(self)@.playlist.musics.len() == 0 ==> final(self)@ == old(self)@ && r
                        == Err::<EngineAction, PlayerError>(PlayerError::NotFound)
                    &&& old(self)@.playlist.musics.len() > 0 ==> final(self)@
                        == spec_start_resolve(old(self)@, false) && (r matches Ok(a)
                        && a matches EngineAction::StartResolve { bvid, cid, generation } && bvid@
                        == old(self)@.playlist.musics[old(self)@.playlist.current_index].bvid
                        && cid@ == old(
                        self,
                    )@.playlist.musics[old(self)@.playlist.current_index].cid && generation
                        == spec_bump(old(self)@.generation))
                }
            }),
            (command matches PlayerCommand::PlayBvid(id) ==> {
                &&& (forall|j: int|
                    0 <= j < old(self)@.playlist.musics.len()
                        ==> old(self)@.playlist.musics[j].bvid != id@) ==> final(self)@ == old(
                    self,
                )@ && r == Err::<EngineAction, PlayerError>(PlayerError::NotFound)
                &&& (exists|j: int|
                    0 <= j < old(self)@.playlist.musics.len()
                        && old(self)@.playlist.musics[j].bvid == id@) ==> (exists|j: int|
                    #![auto]
                    {
                        &&& 0 <= j < old(self)@.playlist.musics.len()
                        &&& old(self)@.playlist.musics[j].bvid == id@
                        &&& forall|k: int|
                            0 <= k < j ==> old(self)@.playlist.musics[k].bvid != id@
                        &&& final(self)@ == spec_start_resolve(
                            spec_with_cursor(old(self)@, j),
                            false,
                        )
                        &&& (r matches Ok(a) && a matches EngineAction::StartResolve {
                            bvid,
                            cid,
                            generation,
                        } && bvid@ == old(self)@.playlist.musics[j].bvid && cid@ == old(
                            self,
                        )@.playlist.musics[j].cid && generation == spec_bump(old(self)@.generation))
                    })
            }),
            (command matches PlayerCommand::Pause ==> {
                &&& old(self)@.state == PlayerState::Playing ==> final(self)@ == (PlayerModel {
                    state: PlayerState::Paused,
                    ..old(self)@
                }) && r == Ok::<EngineAction, PlayerError>(EngineAction::Pause)
                &&& old(self)@.state != PlayerState::Playing ==> final(self)@ == old(self)@ && r
                    == Ok::<EngineAction, PlayerError>(EngineAction::Nothing)
            }),
            (command matches PlayerCommand::Next ==> {
                &&& old(self)@.playlist.musics.len() == 0 ==> final(self)@ == old(self)@ && r
                    == Err::<EngineAction, PlayerError>(PlayerError::NotFound)
                &&& old(self)@.playlist.musics.len() > 0 ==> {
                    &&& 0 <= final(self)@.playlist.current_index
                        < old(self)@.playlist.musics.len()
                    &&& (old(self)@.play_mode == PlayMode::Normal || old(self)@.play_mode
                        == PlayMode::Repeat) ==> final(self)@.playlist.current_index
                        == next_index_normal(
                        old(self)@.playlist.current_index,
                        old(self)@.playlist.musics.len() as int,
                    )
                    &&& final(self)@ == spec_start_resolve(
                        spec_with_cursor(old(self)@, final(self)@.playlist.current_index),
                        false,
                    )
                    &&& (r matches Ok(a) && a matches EngineAction::StartResolve {
                        bvid,
                        cid,
                        generation,
                    } && bvid@
                        == old(self)@.playlist.musics[final(self)@.playlist.current_index].bvid
                        && cid@
                        == old(self)@.playlist.musics[final(self)@.playlist.current_index].cid
                        && generation == spec_bump(old(self)@.generation))
                }
            }),
            (command matches PlayerCommand::Previous ==> {
                &&& old(self)@.playlist.musics.len() == 0 ==> final(self)@ == old(self)@ && r
                    == Err::<EngineAction, PlayerError>(PlayerError::NotFound)
                &&& old(self)@.playlist.musics.len() > 0 ==> {
                    &&& 0 <= final(self)@.playlist.current_index
                        < old(self)@.playlist.musics.len()
                    &&& (old(self)@.play_mode == PlayMode::Normal || old(self)@.play_mode
                        == PlayMode::Repeat) ==> final(self)@.playlist.current_index
                        == prev_index_normal(
                        old(self)@.playlist.current_index,
                        old(self)@.playlist.musics.len() as int,
                    )
                    &&& final(self)@ == spec_start_resolve(
                        spec_with_cursor(old(self)@, final(self)@.playlist.current_index),
                        false,
                    )
                    &&& (r matches Ok(a) && a matches EngineAction::StartResolve {
                        bvid,
                        cid,
                        generation,
                    } && bvid@
                        == old(self)@.playlist.musics[final(self)@.playlist.current_index].bvid
                        && cid@
                        == old(self)@.playlist.musics[final(self)@.playlist.current_index].cid
                        && generation == spec_bump(old(self)@.generation))
                }
            }),
            (command matches PlayerCommand::Stop ==> final(self)@ == spec_stop(old(self)@) && r
                == Ok::<EngineAction, PlayerError>(EngineAction::Stop)),
            (command matches PlayerCommand::SetModel(s) ==> {
                &&& (PlayMode::spec_from_string(s@) matches Some(md) ==> final(self)@
                    == (PlayerModel { play_mode: md, ..old(self)@ }) && r == Ok::<
                    EngineAction,
                    PlayerError,
                >(EngineAction::Nothing))
                &&& PlayMode::spec_from_string(s@) is None ==> final(self)@ == old(self)@ && r
                    == Err::<EngineAction, PlayerError>(PlayerError::InvalidMode)
            }),
            (command matches PlayerCommand::SetVolume(v) ==> {
                &&& v > MAX_VOLUME_PERCENT ==> final(self)@ == old(self)@ && r == Err::<
                    EngineAction,
                    PlayerError,
                >(PlayerError::InvalidVolume)
                &&& v <= MAX_VOLUME_PERCENT ==> final(self)@ == (PlayerModel {
                    volume_millis: (v * 10) as u32,
                    ..old(self)@
                }) && r == Ok::<EngineAction, PlayerError>(EngineAction::SetVolume((v * 10) as u32))
            }),
            (command matches PlayerCommand::AddPlaylist(music) ==> final(self)@ == (PlayerModel {
                playlist: PlaylistView {
                    musics: old(self)@.playlist.musics.push(music@),
                    ..old(self)@.playlist
                },
                ..old(self)@
            }) && r == Ok::<EngineAction, PlayerError>(EngineAction::Nothing)),
            (command matches PlayerCommand::Delete(id) ==> {
                &&& (forall|j: int|
                    0 <= j < old(self)@.playlist.musics.len()
                        ==> old(self)@.playlist.musics[j].bvid != id@) ==> final(self)@ == old(
                    self,
                )@ && r == Err::<EngineAction, PlayerError>(PlayerError::NotFound)
                &&& (exists|j: int|
                    0 <= j < old(self)@.playlist.musics.len()
                        && old(self)@.playlist.musics[j].bvid == id@) ==> (exists|j: int|
                    #![auto]
                    {
                        &&& 0 <= j < old(self)@.playlist.musics.len()
                        &&& old(self)@.playlist.musics[j].bvid == id@
                        &&& forall|k: int|
                            0 <= k < j ==> old(self)@.playlist.musics[k].bvid != id@
                        &&& final(self)@ == (PlayerModel {
                            playlist: PlaylistView {
                                musics: old(self)@.playlist.musics.remove(j),
                                current_index: index_after_remove(
                                    old(self)@.playlist.current_index,
                                    j,
                                    old(self)@.playlist.musics.len() as int,
                                ),
                            },
                            ..old(self)@
                        })
                        &&& r == Ok::<EngineAction, PlayerError>(EngineAction::Nothing)
                    })
            }),
            (command matches PlayerCommand::GetState ==> final(self)@ == old(self)@ && r == Ok::<
                EngineAction,
                PlayerError,
            >(EngineAction::ReportState)),
            (command matches PlayerCommand::ShowPlaylist ==> final(self)@ == old(self)@ && r
                == Ok::<EngineAction, PlayerError>(EngineAction::ReportPlaylist)),
    {
        match command {
            PlayerCommand::Play => {
                if self.state == PlayerState::Paused {
                    self.state = PlayerState::Playing;
                    Ok(EngineAction::Resume)
                } else if self.state == PlayerState::Playing {
                    Ok(EngineAction::Resume)
                } else if self.playlist.len() == 0 {
                    Err(PlayerError::NotFound)
                } else {
                    Ok(self.start_resolve(false))
                }
            },
            PlayerCommand::PlayBvid(id) => {
                match self.playlist.find_music_index(id.as_str()) {
                    None => Err(PlayerError::NotFound),
                    Some(j) => {
                        self.playlist.set_current_music_index(j);
                        Ok(self.start_resolve(false))
                    },
                }
            },
            PlayerCommand::Pause => {
                if self.state == PlayerState::Playing {
                    self.state = PlayerState::Paused;
                    Ok(EngineAction::Pause)
                } else {
                    Ok(EngineAction::Nothing)
                }
            },
            PlayerCommand::Next => {
                let effective = if self.play_mode == PlayMode::Repeat {
                    PlayMode::Normal
                } else {
                    self.play_mode
                };
                match self.playlist.move_to_next_music(effective) {
                    Err(e) => Err(e),
                    Ok(_) => Ok(self.start_resolve(false)),
                }
            },
            PlayerCommand::Previous => {
                let effective = if self.play_mode == PlayMode::Repeat {
                    PlayMode::Normal
                } else {
                    self.play_mode
                };
                match self.playlist.move_to_previous_music(effective) {
                    Err(e) => Err(e),
                    Ok(_) => Ok(self.start_resolve(false)),
                }
            },
            PlayerCommand::Stop => {
                self.state = PlayerState::Stopped;
                self.pending_resolve = None;
                Ok(EngineAction::Stop)
            },
            PlayerCommand::SetModel(s) => {
                match PlayMode::from_string(s.as_str()) {
                    Some(mode) => {
                        self.play_mode = mode;
                        Ok(EngineAction::Nothing)
                    },
                    None => Err(PlayerError::InvalidMode),
                }
            },
            PlayerCommand::SetVolume(v) => {
                match self.set_volume(v) {
                    Ok(_) => Ok(EngineAction::SetVolume(self.volume_millis)),
                    Err(e) => Err(e),
                }
            },
            PlayerCommand::AddPlaylist(music) => {
                self.playlist.add_music(music);
                Ok(EngineAction::Nothing)
            },
            PlayerCommand::Delete(id) => {
                match self.playlist.remove_music(id.as_str()) {
                    Ok(_) => Ok(EngineAction::Nothing),
                    Err(e) => Err(e),
                }
            },
            PlayerCommand::GetState => Ok(EngineAction::ReportState),
            PlayerCommand::ShowPlaylist => Ok(EngineAction::ReportPlaylist),
        }
    }

    /// Reacts to the engine's end-of-stream event: the implicit
    /// advance.  Repeat mode reloads the current track without moving
    /// the cursor; the other modes advance under their own rule.  An
    /// empty playlist sends the session back to idle instead of
    /// retrying forever.
    pub fn handle_end_of_stream(&mut self) -> (r: EngineAction)
        requires
            old(self)@.wf(),
        ensures
            final(self)@.wf(),
            old(self)@.playlist.musics.len() == 0 ==> final(self)@ == (PlayerModel {
                state: PlayerState::Idle,
                pending_resolve: None,
                ..old(self)@
            }) && r matches EngineAction::Nothing,
            old(self)@.playlist.musics.len() > 0 ==> {
                &&& 0 <= final(self)@.playlist.current_index < old(self)@.playlist.musics.len()
                &&& old(self)@.play_mode == PlayMode::Repeat ==> final(self)@.playlist.current_index == old(self)@.playlist.current_index
                &&& old(self)@.play_mode == PlayMode::Normal ==> final(self)@.playlist.current_index == next_index_normal(
                    old(self)@.playlist.current_index,
                    old(self)@.playlist.musics.len() as int,
                )
                &&& final(self)@ == spec_start_resolve(
                    spec_with_cursor(old(self)@, final(self)@.playlist.current_index),
                    true,
                )
                &&& (r matches EngineAction::StartResolve { bvid, cid, generation } && bvid@
                    == old(self)@.playlist.musics[final(self)@.playlist.current_index].bvid
                    && cid@
                    == old(self)@.playlist.musics[final(self)@.playlist.current_index].cid
                    && generation == spec_bump(old(self)@.generation))
            },
    {
        if self.playlist.len() == 0 {
            self.state = PlayerState::Idle;
            self.pending_resolve = None;
            return EngineAction::Nothing;
        }
        if self.play_mode != PlayMode::Repeat {
            let _ = self.playlist.move_to_next_music(self.play_mode);
        }
        self.start_resolve(true)
    }

    /// Takes the outcome of a resolve reported under `generation`.
    /// An outcome the session is not waiting for — its resolve was
    /// superseded or stopped — changes nothing and asks for nothing.
    /// The awaited URL is loaded at the stored volume; an awaited
    /// failure sends the session back to idle if the automatic path
    /// asked, and to the state the resolve left otherwise.
    pub fn on_resolve_result(&mut self, generation: u64, outcome: Option<String>) -> (r:
        EngineAction)
        requires
            old(self)@.wf(),
        ensures
            final(self)@.wf(),
            !accepts_resolve(old(self)@, generation) ==> final(self)@ == old(self)@
                && r matches EngineAction::Nothing,
            accepts_resolve(old(self)@, generation) ==> {
                &&& (outcome matches Some(url) ==> final(self)@ == (PlayerModel {
                    state: PlayerState::Playing,
                    pending_resolve: None,
                    ..old(self)@
                }) && (r matches EngineAction::LoadAndPlay { url: u, volume_millis } && u@ == url@
                    && volume_millis == old(self)@.volume_millis))
                &&& (outcome is None ==> (old(self)@.pending_resolve matches Some(p) && final(self)@ == (PlayerModel {
                    state: if p.auto {
                        PlayerState::Idle
                    } else {
                        p.prior
                    },
                    pending_resolve: None,
                    ..old(self)@
                })) && r matches EngineAction::Nothing)
            },
    {
        let accept = match self.pending_resolve {
            Some(p) => p.generation == generation,
            None => false,
        };
        if !accept {
            return EngineAction::Nothing;
        }
        let pending = self.pending_resolve.unwrap();
        self.pending_resolve = None;
        match outcome {
            Some(url) => {
                self.state = PlayerState::Playing;
                EngineAction::LoadAndPlay { url, volume_millis: self.volume_millis }
            },
            None => {
                self.state = if pending.auto {
                    PlayerState::Idle
                } else {
                    pending.prior
                };
                EngineAction::Nothing
            },
        }
    }

    /// A fresh read-only snapshot of the session.  The engine's
    /// position and duration readings, which only the surroundings
    /// know, ride through unchanged.
    pub fn get_state(&self, position: Option<u64>, duration: Option<u64>) -> (r:
        PlayerStateSnapshot)
        requires
            self@.wf(),
        ensures
            self@.playlist.musics.len() > 0 ==> (r.current_music matches Some(mu) && mu@
                == self@.playlist.musics[self@.playlist.current_index]) && (
            r.current_index matches Some(i) && i as int == self@.playlist.current_index),
            self@.playlist.musics.len() == 0 ==> r.current_music is None && r.current_index
                is None,
            r.is_playing == (self@.state == PlayerState::Playing),
            r.play_mode@ == self@.play_mode.spec_string(),
            r.playlist_len as int == self@.playlist.musics.len(),
            r.current_position == position,
            r.duration == duration,
    {
        let len = self.playlist.len();
        let (current_music, current_index) = if len > 0 {
            (Some(self.playlist.current_music()), Some(self.playlist.current_index()))
        } else {
            (None, None)
        };
        PlayerStateSnapshot {
            current_music,
            is_playing: self.state == PlayerState::Playing,
            play_mode: self.play_mode.get_string(),
            current_index,
            playlist_len: len,
            current_position: position,
            duration,
        }
    }
}

} // verus!
