use bili_player::command::PlayMode;
use bili_player::errors::PlayerError;
use bili_player::play_list::Playlist;
use bili_player::state::Music;

fn music(bvid: &str, cid: &str) -> Music {
    Music {
        bvid: bvid.to_owned(),
        cid: cid.to_owned(),
        title: format!("title-{}", bvid),
        owner: format!("owner-{}", bvid),
    }
}

fn playlist_of(ids: &[(&str, &str)]) -> Playlist {
    let mut playlist = Playlist::new();
    let mut musics = Vec::new();
    for (bvid, cid) in ids {
        musics.push(music(bvid, cid));
    }
    playlist.add_musics(musics);
    playlist
}

#[test]
fn cyclic_normal_advance_returns_to_start() {
    let mut playlist = playlist_of(&[("A", "1"), ("B", "2"), ("C", "3")]);
    assert_eq!(playlist.current_index(), 0);
    let mut seen = Vec::new();
    for _ in 0..3 {
        seen.push(playlist.move_to_next_music(PlayMode::Normal).unwrap());
    }
    assert_eq!(seen, vec![1, 2, 0]);
    assert_eq!(playlist.current_index(), 0);
}

#[test]
fn retreat_inverts_advance() {
    let mut playlist = playlist_of(&[("A", "1"), ("B", "2"), ("C", "3")]);
    playlist.set_current_music_index(1);
    playlist.move_to_next_music(PlayMode::Normal).unwrap();
    playlist.move_to_previous_music(PlayMode::Normal).unwrap();
    assert_eq!(playlist.current_index(), 1);
    // and across the wrap in both directions
    playlist.set_current_music_index(0);
    assert_eq!(playlist.move_to_previous_music(PlayMode::Normal).unwrap(), 2);
    assert_eq!(playlist.move_to_next_music(PlayMode::Normal).unwrap(), 0);
}

#[test]
fn repeat_mode_keeps_index() {
    let mut playlist = playlist_of(&[("A", "1"), ("B", "2"), ("C", "3")]);
    playlist.set_current_music_index(2);
    assert_eq!(playlist.move_to_next_music(PlayMode::Repeat).unwrap(), 2);
    assert_eq!(playlist.move_to_previous_music(PlayMode::Repeat).unwrap(), 2);
    assert_eq!(playlist.current_index(), 2);
}

#[test]
fn find_first_of_duplicates() {
    let playlist = playlist_of(&[("dup", "1"), ("other", "2"), ("dup", "3")]);
    assert_eq!(playlist.find_music_index("dup"), Some(0));
    assert_eq!(playlist.find_music_index("other"), Some(1));
    assert_eq!(playlist.find_music_index("missing"), None);
}

#[test]
fn empty_playlist_navigation_fails() {
    let mut playlist = Playlist::new();
    assert_eq!(
        playlist.move_to_next_music(PlayMode::Normal).unwrap_err(),
        PlayerError::NotFound
    );
    assert_eq!(
        playlist.move_to_previous_music(PlayMode::Shuffle).unwrap_err(),
        PlayerError::NotFound
    );
    assert_eq!(
        playlist.get_current_music().unwrap_err(),
        PlayerError::NotFound
    );
}

#[test]
fn shuffle_draw_stays_in_range() {
    // On a one-track playlist the only admissible draw is position 0.
    let mut single = playlist_of(&[("A", "1")]);
    for _ in 0..10 {
        assert_eq!(single.move_to_next_music(PlayMode::Shuffle).unwrap(), 0);
    }
    let mut five = playlist_of(&[("A", "1"), ("B", "2"), ("C", "3"), ("D", "4"), ("E", "5")]);
    for _ in 0..50 {
        let i = five.move_to_next_music(PlayMode::Shuffle).unwrap();
        assert!(i < 5);
        let j = five.move_to_previous_music(PlayMode::Shuffle).unwrap();
        assert!(j < 5);
    }
}

#[test]
fn current_music_follows_cursor() {
    let mut playlist = playlist_of(&[("A", "1"), ("B", "2")]);
    assert_eq!(playlist.get_current_music().unwrap().bvid, "A");
    playlist.set_current_music_index(1);
    let current = playlist.get_current_music().unwrap();
    assert_eq!(current.bvid, "B");
    assert_eq!(current.cid, "2");
}

#[test]
fn remove_before_cursor_pulls_cursor_back() {
    let mut playlist = playlist_of(&[("A", "1"), ("B", "2"), ("C", "3")]);
    playlist.set_current_music_index(2);
    assert_eq!(playlist.remove_music("A").unwrap(), 0);
    assert_eq!(playlist.current_index(), 1);
    assert_eq!(playlist.get_current_music().unwrap().bvid, "C");
}

#[test]
fn remove_last_current_wraps_cursor() {
    let mut playlist = playlist_of(&[("A", "1"), ("B", "2"), ("C", "3")]);
    playlist.set_current_music_index(2);
    assert_eq!(playlist.remove_music("C").unwrap(), 2);
    assert_eq!(playlist.current_index(), 0);
    assert_eq!(playlist.len(), 2);
}

#[test]
fn remove_unknown_id_fails() {
    let mut playlist = playlist_of(&[("A", "1")]);
    assert_eq!(playlist.remove_music("Z").unwrap_err(), PlayerError::NotFound);
    assert_eq!(playlist.len(), 1);
}

#[test]
fn remove_only_track_empties_playlist() {
    let mut playlist = playlist_of(&[("A", "1")]);
    assert_eq!(playlist.remove_music("A").unwrap(), 0);
    assert_eq!(playlist.len(), 0);
    assert_eq!(playlist.current_index(), 0);
    assert_eq!(
        playlist.get_current_music().unwrap_err(),
        PlayerError::NotFound
    );
}

#[test]
fn add_keeps_order_and_cursor() {
    let mut playlist = playlist_of(&[("A", "1"), ("B", "2")]);
    playlist.set_current_music_index(1);
    playlist.add_music(music("C", "3"));
    assert_eq!(playlist.len(), 3);
    assert_eq!(playlist.current_index(), 1);
    let ids: Vec<String> = playlist.musics().iter().map(|m| m.bvid.clone()).collect();
    assert_eq!(ids, vec!["A".to_owned(), "B".to_owned(), "C".to_owned()]);
}
