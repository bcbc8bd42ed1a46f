use vstd::prelude::*;
use vstd::arithmetic::div_mod::{lemma_mod_self_0, lemma_small_mod};

use crate::command::PlayMode;
use crate::errors::PlayerError;
use crate::state::{Music, MusicView};

verus! {

/// The next position under sequential play: one step forward, wrapping
/// at the end of the playlist.
pub open spec fn next_index_normal(i: int, len: int) -> int {
    (i + 1) % len
}

/// The previous position under sequential play: one step back,
/// wrapping at the front of the playlist.
pub open spec fn prev_index_normal(i: int, len: int) -> int {
    if i == 0 {
        len - 1
    } else {
        i - 1
    }
}

/// Sequential advance keeps the cursor inside the playlist, and is the
/// step function one expects: increment, with a wrap on the last
/// position.
pub proof fn lemma_next_index_normal_bounds(i: int, len: int)
    requires
        0 <= i < len,
    ensures
        0 <= next_index_normal(i, len) < len,
        next_index_normal(i, len) == if i + 1 == len {
            0int
        } else {
            i + 1
        },
{
    if i + 1 == len {
        lemma_mod_self_0(len);
    } else {
        lemma_small_mod((i + 1) as nat, len as nat);
    }
}

/// The cursor after `k` sequential advances from position `i`.
pub open spec fn iter_next_normal(i: int, len: int, k: nat) -> int
    decreases k,
{
    if k == 0 {
        i
    } else {
        next_index_normal(iter_next_normal(i, len, (k - 1) as nat), len)
    }
}

proof fn lemma_iter_next_normal_value(i: int, len: int, k: nat)
    requires
        0 <= i < len,
        k <= len,
    ensures
        iter_next_normal(i, len, k) == if i + k < len {
            i + k
        } else {
            i + k - len
        },
    decreases k,
{
    if k > 0 {
        lemma_iter_next_normal_value(i, len, (k - 1) as nat);
        lemma_next_index_normal_bounds(iter_next_normal(i, len, (k - 1) as nat), len);
    }
}

/// On a non-empty playlist, advancing sequentially once per track
/// returns the cursor to where it started: sequential play is cyclic.
pub proof fn lemma_normal_advance_is_cyclic(i: int, len: int)
    requires
        0 <= i < len,
    ensures
        iter_next_normal(i, len, len as nat) == i,
{
    lemma_iter_next_normal_value(i, len, len as nat);
}

/// Sequential retreat is the exact inverse of sequential advance, in
/// both orders of composition.
pub proof fn lemma_retreat_inverts_advance(i: int, len: int)
    requires
        0 <= i < len,
    ensures
        prev_index_normal(next_index_normal(i, len), len) == i,
        next_index_normal(prev_index_normal(i, len), len) == i,
{
    lemma_next_index_normal_bounds(i, len);
    lemma_next_index_normal_bounds(prev_index_normal(i, len), len);
}

/// The mathematical value of a [`Playlist`]: the track values in
/// order, and the cursor.
pub struct PlaylistView {
    pub musics: Seq<MusicView>,
    pub current_index: int,
}

impl PlaylistView {
    /// A playlist is well formed when its cursor names a valid
    /// position, and is parked at zero while the playlist is empty.
    pub open spec fn wf(self) -> bool {
        &&& self.musics.len() > 0 ==> 0 <= self.current_index < self.musics.len()
        &&& self.musics.len() == 0 ==> self.current_index == 0
    }
}

/// An ordered sequence of tracks with a single current-position
/// cursor.  Insertion order is significant and duplicate identifiers
/// are permitted.
#[derive(Debug)]
pub struct Playlist {
    musics: Vec<Music>,
    current_index: usize,
}

impl View for Playlist {
    type V = PlaylistView;

    closed spec fn view(&self) -> PlaylistView {
        PlaylistView {
            musics: self.musics@.map_values(|m: Music| m@),
            current_index: self.current_index as int,
        }
    }
}

/// Relies on rand::random_range: a uniform draw over `[0, len)`,
/// independent on each call.  It panics only on an empty range, which
/// the precondition rules out.
#[verifier::external_body]
fn random_index(len: usize) -> (r: usize)
    requires
        len > 0,
    ensures
        r < len,
{
    rand::random_range(0..len)
}

impl Playlist {
    /// An empty playlist with its cursor parked at the front.
    pub fn new() -> (r: Playlist)
        ensures
            r@.musics =~= Seq::<MusicView>::empty(),
            r@.current_index == 0,
            r@.wf(),
    {
        Playlist { musics: Vec::new(), current_index: 0 }
    }

    pub fn len(&self) -> (r: usize)
        ensures
            r as int == self@.musics.len(),
    {
        self.musics.len()
    }

    pub fn current_index(&self) -> (r: usize)
        ensures
            r as int == self@.current_index,
    {
        self.current_index
    }

    /// The tracks in playlist order.
    pub fn musics(&self) -> (r: &Vec<Music>)
        ensures
            r@.map_values(|m: Music| m@) == self@.musics,
    {
        &self.musics
    }

    /// Appends the given tracks in order, keeping the cursor where it
    /// was.
    pub fn add_musics(&mut self, musics: Vec<Music>)
        requires
            old(self)@.wf(),
        ensures
            final(self)@.wf(),
            final(self)@.musics == old(self)@.musics + musics@.map_values(|m: Music| m@),
            final(self)@.current_index == old(self)@.current_index,
    {
        let mut incoming = musics;
        self.musics.append(&mut incoming);
        proof {
            assert(self@.musics =~= old(self)@.musics + musics@.map_values(|m: Music| m@));
        }
    }

    /// Appends one track, keeping the cursor where it was.
    pub fn add_music(&mut self, music: Music)
        requires
            old(self)@.wf(),
        ensures
            final(self)@.wf(),
            final(self)@.musics == old(self)@.musics.push(music@),
            final(self)@.current_index == old(self)@.current_index,
    {
        self.musics.push(music);
        proof {
            assert(self@.musics =~= old(self)@.musics.push(music@));
        }
    }

    /// The track under the cursor of a non-empty playlist.
    pub fn current_music(&self) -> (r: Music)
        requires
            self@.wf(),
            self@.musics.len() > 0,
        ensures
            r@ == self@.musics[self@.current_index],
    {
        self.musics[self.current_index].clone()
    }

    /// The track under the cursor.  Fails exactly when the playlist is
    /// empty.
    pub fn get_current_music(&self) -> (r: Result<Music, PlayerError>)
        requires
            self@.wf(),
        ensures
            self@.musics.len() > 0 ==> (r matches Ok(m) && m@ == self@.musics[self@.current_index]),
            self@.musics.len() == 0 ==> r == Err::<Music, PlayerError>(PlayerError::NotFound),
    {
        if self.musics.len() == 0 {
            Err(PlayerError::NotFound)
        } else {
            Ok(self.musics[self.current_index].clone())
        }
    }

    /// Moves the cursor one step forward under the given mode.
    /// Sequential play wraps, shuffle draws a fresh uniform position,
    /// repeat stays put.  Fails exactly on an empty playlist, leaving
    /// it unchanged.
    pub fn move_to_next_music(&mut self, play_mode: PlayMode) -> (r: Result<usize, PlayerError>)
        requires
            old(self)@.wf(),
        ensures
            final(self)@.wf(),
            final(self)@.musics == old(self)@.musics,
            old(self)@.musics.len() == 0 ==> final(self)@ == old(self)@ && r == Err::<
                usize,
                PlayerError,
            >(PlayerError::NotFound),
            old(self)@.musics.len() > 0 ==> {
                &&& r matches Ok(i) && i as int == final(self)@.current_index
                &&& 0 <= final(self)@.current_index < old(self)@.musics.len()
                &&& play_mode == PlayMode::Normal ==> final(self)@.current_index == next_index_normal(
                    old(self)@.current_index,
                    old(self)@.musics.len() as int,
                )
                &&& play_mode == PlayMode::Repeat ==> final(self)@.current_index == old(
                    self,
                )@.current_index
            },
    {
        let len = self.musics.len();
        if len == 0 {
            return Err(PlayerError::NotFound);
        }
        match play_mode {
            PlayMode::Normal => {
                proof {
                    lemma_next_index_normal_bounds(self.current_index as int, len as int);
                }
                self.current_index = (self.current_index + 1) % len;
            },
            PlayMode::Shuffle => {
                self.current_index = random_index(len);
            },
            PlayMode::Repeat => {},
        }
        Ok(self.current_index)
    }

    /// Moves the cursor one step back under the given mode, with the
    /// same shuffle and repeat behaviour as a forward step.  Fails
    /// exactly on an empty playlist, leaving it unchanged.
    pub fn move_to_previous_music(&mut self, play_mode: PlayMode) -> (r: Result<
        usize,
        PlayerError,
    >)
        requires
            old(self)@.wf(),
        ensures
            final(self)@.wf(),
            final(self)@.musics == old(self)@.musics,
            old(self)@.musics.len() == 0 ==> final(self)@ == old(self)@ && r == Err::<
                usize,
                PlayerError,
            >(PlayerError::NotFound),
            old(self)@.musics.len() > 0 ==> {
                &&& r matches Ok(i) && i as int == final(self)@.current_index
                &&& 0 <= final(self)@.current_index < old(self)@.musics.len()
                &&& play_mode == PlayMode::Normal ==> final(self)@.current_index == prev_index_normal(
                    old(self)@.current_index,
                    old(self)@.musics.len() as int,
                )
                &&& play_mode == PlayMode::Repeat ==> final(self)@.current_index == old(
                    self,
                )@.current_index
            },
    {
        let len = self.musics.len();
        if len == 0 {
            return Err(PlayerError::NotFound);
        }
        match play_mode {
            PlayMode::Normal => {
                if self.current_index == 0 {
                    self.current_index = len - 1;
                } else {
                    self.current_index = self.current_index - 1;
                }
            },
            PlayMode::Shuffle => {
                self.current_index = random_index(len);
            },
            PlayMode::Repeat => {},
        }
        Ok(self.current_index)
    }

    /// The first position whose track carries this identifier, found
    /// by a linear scan.
    pub fn find_music_index(&self, bvid: &str) -> (r: Option<usize>)
        ensures
            r matches Some(i) ==> (i as int) < self@.musics.len() && self@.musics[i as int].bvid
                == bvid@ && forall|j: int| 0 <= j < i as int ==> self@.musics[j].bvid != bvid@,
            r is None ==> forall|j: int|
                0 <= j < self@.musics.len() ==> self@.musics[j].bvid != bvid@,
    {
        let key: String = bvid.to_owned();
        let mut i: usize = 0;
        while i < self.musics.len()
            invariant
                i <= self.musics.len(),
                key@ == bvid@,
                forall|j: int| 0 <= j < i as int ==> self@.musics[j].bvid != bvid@,
            decreases self.musics.len() - i,
        {
            if self.musics[i].bvid == key {
                return Some(i);
            }
            i = i + 1;
        }
        None
    }

    /// Jumps the cursor to `index`.  The caller answers for bounds, as
    /// when jumping to a position that a search just returned.
    pub fn set_current_music_index(&mut self, index: usize)
        requires
            (index as int) < old(self)@.musics.len(),
        ensures
            final(self)@.musics == old(self)@.musics,
            final(self)@.current_index == index as int,
            final(self)@.wf(),
    {
        self.current_index = index;
    }

    /// Removes the first track with this identifier.  A removal before
    /// the cursor pulls the cursor one step back with it; removing the
    /// current track keeps the cursor position, unless that track was
    /// the last, in which case the cursor wraps to the front.
    pub fn remove_music(&mut self, bvid: &str) -> (r: Result<usize, PlayerError>)
        requires
            old(self)@.wf(),
        ensures
            final(self)@.wf(),
            r matches Ok(i) ==> {
                &&& 0 <= (i as int) < old(self)@.musics.len()
                &&& old(self)@.musics[i as int].bvid == bvid@
                &&& forall|j: int| 0 <= j < i as int ==> old(self)@.musics[j].bvid != bvid@
                &&& final(self)@.musics == old(self)@.musics.remove(i as int)
                &&& final(self)@.current_index == index_after_remove(
                    old(self)@.current_index,
                    i as int,
                    old(self)@.musics.len() as int,
                )
            },
            r is Err ==> r == Err::<usize, PlayerError>(PlayerError::NotFound) && final(self)@
                == old(self)@ && forall|j: int|
                0 <= j < old(self)@.musics.len() ==> old(self)@.musics[j].bvid != bvid@,
    {
        match self.find_music_index(bvid) {
            None => Err(PlayerError::NotFound),
            Some(i) => {
                self.musics.remove(i);
                proof {
                    assert(self.musics@.map_values(|m: Music| m@) =~= old(
                        self,
                    )@.musics.remove(i as int));
                }
                if self.musics.len() == 0 {
                    self.current_index = 0;
                } else if i < self.current_index {
                    self.current_index = self.current_index - 1;
                } else if i == self.current_index && self.current_index >= self.musics.len() {
                    self.current_index = 0;
                }
                Ok(i)
            },
        }
    }
}

/// Where the cursor stands after removing the track at `removed` from
/// a playlist of `old_len` tracks whose cursor stood at `cur`.
pub open spec fn index_after_remove(cur: int, removed: int, old_len: int) -> int {
    if removed < cur {
        cur - 1
    } else if removed == cur {
        if cur < old_len - 1 {
            cur
        } else {
            0
        }
    } else {
        cur
    }
}

} // verus!
