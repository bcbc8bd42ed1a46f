use vstd::prelude::*;

verus! {

/// One playable item: content identifier, stream-lookup identifier,
/// title and attribution.  Immutable value data once it sits in a
/// playlist entry.
#[derive(Debug, PartialEq)]
pub struct Music {
    pub bvid: String,
    pub cid: String,
    pub title: String,
    pub owner: String,
}

/// The mathematical value of a [`Music`]: its four fields as
/// character sequences.
pub struct MusicView {
    pub bvid: Seq<char>,
    pub cid: Seq<char>,
    pub title: Seq<char>,
    pub owner: Seq<char>,
}

impl View for Music {
    type V = MusicView;

    open spec fn view(&self) -> MusicView {
        MusicView {
            bvid: self.bvid@,
            cid: self.cid@,
            title: self.title@,
            owner: self.owner@,
        }
    }
}

impl Clone for Music {
    fn clone(&self) -> (r: Self)
        ensures
            r@ == self@,
    {
        Music {
            bvid: self.bvid.clone(),
            cid: self.cid.clone(),
            title: self.title.clone(),
            owner: self.owner.clone(),
        }
    }
}

/// A read-only projection of one session, produced on demand and never
/// mutated in place.  Positions and durations are in milliseconds.
#[derive(Debug)]
pub struct PlayerStateSnapshot {
    pub current_music: Option<Music>,
    pub is_playing: bool,
    pub play_mode: String,
    pub current_index: Option<usize>,
    pub playlist_len: usize,
    pub current_position: Option<u64>,
    pub duration: Option<u64>,
}

} // verus!
