use bili_player::audio_player::{AudioPlayer, EngineAction, PlayerState, MAX_VOLUME_PERCENT};
use bili_player::command::{PlayMode, PlayerCommand};
use bili_player::errors::PlayerError;
use bili_player::play_list::Playlist;
use bili_player::state::Music;

fn music(bvid: &str, cid: &str) -> Music {
    Music {
        bvid: bvid.to_owned(),
        cid: cid.to_owned(),
        title: format!("title-{}", bvid),
        owner: format!("owner-{}", bvid),
    }
}

fn player_abc(mode: PlayMode) -> AudioPlayer {
    let mut playlist = Playlist::new();
    playlist.add_musics(vec![music("A", "1"), music("B", "2"), music("C", "3")]);
    AudioPlayer::new(mode, 100, 0, playlist).unwrap()
}

fn start_resolve_parts(action: EngineAction) -> (String, String, u64) {
    match action {
        EngineAction::StartResolve { bvid, cid, generation } => (bvid, cid, generation),
        other => panic!("expected a resolve to start, got {:?}", other),
    }
}

#[test]
fn next_in_repeat_mode_still_advances() {
    let mut player = player_abc(PlayMode::Repeat);
    let action = player.handle_command(PlayerCommand::Next).unwrap();
    let (bvid, _, _) = start_resolve_parts(action);
    assert_eq!(bvid, "B");
    assert_eq!(player.playlist().current_index(), 1);
}

#[test]
fn end_of_stream_in_repeat_mode_does_not_advance() {
    let mut player = player_abc(PlayMode::Repeat);
    let action = player.handle_end_of_stream();
    let (bvid, cid, _) = start_resolve_parts(action);
    assert_eq!(bvid, "A");
    assert_eq!(cid, "1");
    assert_eq!(player.playlist().current_index(), 0);
}

#[test]
fn end_of_stream_in_normal_mode_advances() {
    let mut player = player_abc(PlayMode::Normal);
    let action = player.handle_end_of_stream();
    let (bvid, _, _) = start_resolve_parts(action);
    assert_eq!(bvid, "B");
    assert_eq!(player.playlist().current_index(), 1);
}

#[test]
fn stop_discards_outstanding_resolve() {
    let mut player = player_abc(PlayMode::Normal);
    let action = player.handle_command(PlayerCommand::Next).unwrap();
    let (_, _, generation) = start_resolve_parts(action);
    assert_eq!(player.player_state(), PlayerState::Loading);
    let stop = player.handle_command(PlayerCommand::Stop).unwrap();
    assert!(matches!(stop, EngineAction::Stop));
    assert_eq!(player.player_state(), PlayerState::Stopped);
    // the late URL of the stopped resolve is never loaded
    let late = player.on_resolve_result(generation, Some("https://cdn.example/late".to_owned()));
    assert!(matches!(late, EngineAction::Nothing));
    assert_eq!(player.player_state(), PlayerState::Stopped);
}

#[test]
fn newer_command_supersedes_outstanding_resolve() {
    let mut player = player_abc(PlayMode::Normal);
    let first = player.handle_command(PlayerCommand::Next).unwrap();
    let (_, _, stale_generation) = start_resolve_parts(first);
    let second = player.handle_command(PlayerCommand::Next).unwrap();
    let (_, _, fresh_generation) = start_resolve_parts(second);
    assert_ne!(stale_generation, fresh_generation);
    let stale = player.on_resolve_result(stale_generation, Some("https://old".to_owned()));
    assert!(matches!(stale, EngineAction::Nothing));
    assert_eq!(player.player_state(), PlayerState::Loading);
    let fresh = player.on_resolve_result(fresh_generation, Some("https://new".to_owned()));
    match fresh {
        EngineAction::LoadAndPlay { url, volume_millis } => {
            assert_eq!(url, "https://new");
            assert_eq!(volume_millis, 1000);
        }
        other => panic!("expected the fresh URL to load, got {:?}", other),
    }
    assert_eq!(player.player_state(), PlayerState::Playing);
}

#[test]
fn three_nexts_cycle_through_playlist() {
    let mut player = player_abc(PlayMode::Normal);
    let mut seen = Vec::new();
    for _ in 0..3 {
        player.handle_command(PlayerCommand::Next).unwrap();
        seen.push(player.playlist().current_index());
    }
    assert_eq!(seen, vec![1, 2, 0]);
}

#[test]
fn play_on_empty_playlist_is_not_found() {
    let mut player = AudioPlayer::new(PlayMode::Normal, 100, 0, Playlist::new()).unwrap();
    let err = player.handle_command(PlayerCommand::Play).unwrap_err();
    assert_eq!(err, PlayerError::NotFound);
    assert_eq!(player.player_state(), PlayerState::Idle);
}

#[test]
fn volume_is_validated_and_scaled() {
    let mut player = player_abc(PlayMode::Normal);
    let err = player
        .handle_command(PlayerCommand::SetVolume(250))
        .unwrap_err();
    assert_eq!(err, PlayerError::InvalidVolume);
    assert_eq!(player.get_volume(), 100);
    let action = player
        .handle_command(PlayerCommand::SetVolume(150))
        .unwrap();
    match action {
        EngineAction::SetVolume(millis) => assert_eq!(millis, 1500),
        other => panic!("expected a volume change, got {:?}", other),
    }
    assert_eq!(player.engine_volume_millis(), 1500);
    assert_eq!(player.get_volume(), 150);
    // the bound itself is still accepted
    assert!(player
        .handle_command(PlayerCommand::SetVolume(MAX_VOLUME_PERCENT))
        .is_ok());
    assert_eq!(player.engine_volume_millis(), 2000);
}

#[test]
fn pause_and_resume_transitions() {
    let mut player = player_abc(PlayMode::Normal);
    let action = player.handle_command(PlayerCommand::Play).unwrap();
    let (_, _, generation) = start_resolve_parts(action);
    assert_eq!(player.player_state(), PlayerState::Loading);
    let load = player.on_resolve_result(generation, Some("https://cdn.example/a".to_owned()));
    assert!(matches!(load, EngineAction::LoadAndPlay { .. }));
    assert_eq!(player.player_state(), PlayerState::Playing);
    let pause = player.handle_command(PlayerCommand::Pause).unwrap();
    assert!(matches!(pause, EngineAction::Pause));
    assert_eq!(player.player_state(), PlayerState::Paused);
    let resume = player.handle_command(PlayerCommand::Play).unwrap();
    assert!(matches!(resume, EngineAction::Resume));
    assert_eq!(player.player_state(), PlayerState::Playing);
}

#[test]
fn pause_while_not_playing_is_a_no_op() {
    let mut player = player_abc(PlayMode::Normal);
    let action = player.handle_command(PlayerCommand::Pause).unwrap();
    assert!(matches!(action, EngineAction::Nothing));
    assert_eq!(player.player_state(), PlayerState::Idle);
}

#[test]
fn play_bvid_jumps_to_found_track() {
    let mut player = player_abc(PlayMode::Normal);
    let action = player
        .handle_command(PlayerCommand::PlayBvid("C".to_owned()))
        .unwrap();
    let (bvid, cid, _) = start_resolve_parts(action);
    assert_eq!(bvid, "C");
    assert_eq!(cid, "3");
    assert_eq!(player.playlist().current_index(), 2);
    let err = player
        .handle_command(PlayerCommand::PlayBvid("missing".to_owned()))
        .unwrap_err();
    assert_eq!(err, PlayerError::NotFound);
}

#[test]
fn set_model_accepts_known_names_only() {
    let mut player = player_abc(PlayMode::Normal);
    player
        .handle_command(PlayerCommand::SetModel("repeat".to_owned()))
        .unwrap();
    assert_eq!(player.play_mode(), PlayMode::Repeat);
    let err = player
        .handle_command(PlayerCommand::SetModel("bogus".to_owned()))
        .unwrap_err();
    assert_eq!(err, PlayerError::InvalidMode);
    assert_eq!(player.play_mode(), PlayMode::Repeat);
    player
        .handle_command(PlayerCommand::SetModel("shuffle".to_owned()))
        .unwrap();
    assert_eq!(player.play_mode(), PlayMode::Shuffle);
    player
        .handle_command(PlayerCommand::SetModel("normal".to_owned()))
        .unwrap();
    assert_eq!(player.play_mode(), PlayMode::Normal);
}

#[test]
fn snapshot_reflects_session() {
    let mut player = player_abc(PlayMode::Normal);
    player.handle_command(PlayerCommand::Next).unwrap();
    let snapshot = player.get_state(Some(1500), Some(180_000));
    assert_eq!(snapshot.current_music.unwrap().bvid, "B");
    assert_eq!(snapshot.current_index, Some(1));
    assert_eq!(snapshot.playlist_len, 3);
    assert!(!snapshot.is_playing);
    assert_eq!(snapshot.play_mode, "顺序播放");
    assert_eq!(snapshot.current_position, Some(1500));
    assert_eq!(snapshot.duration, Some(180_000));
}

#[test]
fn snapshot_of_empty_session() {
    let player = AudioPlayer::new(PlayMode::Repeat, 0, 0, Playlist::new()).unwrap();
    let snapshot = player.get_state(None, None);
    assert!(snapshot.current_music.is_none());
    assert_eq!(snapshot.current_index, None);
    assert_eq!(snapshot.playlist_len, 0);
    assert_eq!(snapshot.play_mode, "单曲循环");
}

#[test]
fn add_and_delete_commands_edit_playlist() {
    let mut player = player_abc(PlayMode::Normal);
    player
        .handle_command(PlayerCommand::AddPlaylist(music("D", "4")))
        .unwrap();
    assert_eq!(player.playlist().len(), 4);
    player
        .handle_command(PlayerCommand::Delete("A".to_owned()))
        .unwrap();
    assert_eq!(player.playlist().len(), 3);
    assert_eq!(player.playlist().find_music_index("A"), None);
    let err = player
        .handle_command(PlayerCommand::Delete("A".to_owned()))
        .unwrap_err();
    assert_eq!(err, PlayerError::NotFound);
}

#[test]
fn end_of_stream_on_empty_playlist_goes_idle() {
    let mut player = AudioPlayer::new(PlayMode::Normal, 100, 0, Playlist::new()).unwrap();
    let action = player.handle_end_of_stream();
    assert!(matches!(action, EngineAction::Nothing));
    assert_eq!(player.player_state(), PlayerState::Idle);
}

#[test]
fn automatic_resolve_failure_falls_back_to_idle() {
    let mut player = player_abc(PlayMode::Normal);
    let action = player.handle_end_of_stream();
    let (_, _, generation) = start_resolve_parts(action);
    let outcome = player.on_resolve_result(generation, None);
    assert!(matches!(outcome, EngineAction::Nothing));
    assert_eq!(player.player_state(), PlayerState::Idle);
}

#[test]
fn command_resolve_failure_restores_prior_state() {
    let mut player = player_abc(PlayMode::Normal);
    player.handle_command(PlayerCommand::Stop).unwrap();
    let action = player.handle_command(PlayerCommand::Play).unwrap();
    let (_, _, generation) = start_resolve_parts(action);
    let outcome = player.on_resolve_result(generation, None);
    assert!(matches!(outcome, EngineAction::Nothing));
    assert_eq!(player.player_state(), PlayerState::Stopped);
}

#[test]
fn new_rejects_bad_volume_and_cursor() {
    let mut playlist = Playlist::new();
    playlist.add_musics(vec![music("A", "1")]);
    assert_eq!(
        AudioPlayer::new(PlayMode::Normal, 201, 0, playlist).unwrap_err(),
        PlayerError::InvalidVolume
    );
    let mut playlist = Playlist::new();
    playlist.add_musics(vec![music("A", "1")]);
    assert_eq!(
        AudioPlayer::new(PlayMode::Normal, 100, 5, playlist).unwrap_err(),
        PlayerError::NotFound
    );
    assert_eq!(
        AudioPlayer::new(PlayMode::Normal, 100, 1, Playlist::new()).unwrap_err(),
        PlayerError::NotFound
    );
}

#[test]
fn mode_names_round_trip() {
    assert_eq!(PlayMode::from_string("normal"), Some(PlayMode::Normal));
    assert_eq!(PlayMode::from_string("shuffle"), Some(PlayMode::Shuffle));
    assert_eq!(PlayMode::from_string("repeat"), Some(PlayMode::Repeat));
    assert_eq!(PlayMode::from_string("Normal"), None);
    assert_eq!(PlayMode::from_string(""), None);
    assert_eq!(PlayMode::Normal.get_string(), "顺序播放");
    assert_eq!(PlayMode::Shuffle.get_string(), "随机播放");
    assert_eq!(PlayMode::Repeat.get_string(), "单曲循环");
}
