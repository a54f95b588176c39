//! The bounded list of finished recordings kept for the current session:
//! newest first, no two with the same title, at most a fixed number — the
//! oldest is evicted, and its file with it, to make room.

use crate::song::{Song, SongData};
use vstd::prelude::*;

verus! {

/// The ghost image of a [`SongModel`].
pub struct SongModelData {
    pub songs: Seq<SongData>,
    pub max_len: nat,
}

/// Whether some kept song carries this title.
pub open spec fn has_title(songs: Seq<SongData>, title: Seq<char>) -> bool {
    exists|i: int| 0 <= i < songs.len() && songs[i].title == title
}

/// The history after a song is added: dropped if its title is already kept,
/// put in front otherwise, evicting the oldest when the model is full.
pub open spec fn add_step(m: SongModelData, s: SongData) -> SongModelData {
    if has_title(m.songs, s.title) {
        m
    } else if m.songs.len() < m.max_len {
        SongModelData { songs: seq![s] + m.songs, ..m }
    } else {
        SongModelData { songs: seq![s] + m.songs.drop_last(), ..m }
    }
}

/// Whether adding this song pushes the oldest one out.
pub open spec fn add_evicts(m: SongModelData, s: SongData) -> bool {
    !has_title(m.songs, s.title) && m.songs.len() >= m.max_len
}

/// The session's recording history, newest first.
#[derive(Debug)]
pub struct SongModel {
    songs: Vec<Song>,
    max_len: usize,
}

impl View for SongModel {
    type V = SongModelData;

    closed spec fn view(&self) -> SongModelData {
        SongModelData {
            songs: self.songs@.map_values(|s: Song| s@),
            max_len: self.max_len as nat,
        }
    }
}

impl SongModel {
    /// The model never holds more songs than it was sized for.
    pub open spec fn wf(self) -> bool {
        self@.songs.len() <= self@.max_len
    }

    /// An empty history that will keep at most `max_len` songs.
    pub fn new(max_len: usize) -> (m: SongModel)
        requires
            max_len >= 1,
        ensures
            m@.songs == Seq::<SongData>::empty(),
            m@.max_len == max_len,
            m.wf(),
    {
        let m = SongModel { songs: Vec::new(), max_len };
        proof {
            assert(m@.songs =~= Seq::<SongData>::empty());
        }
        m
    }

    /// Where a song with this title sits, if anywhere.
    fn index_of(&self, song: &Song) -> (r: Option<usize>)
        ensures
            r matches Some(i) ==> ({
                &&& i < self@.songs.len()
                &&& self@.songs[i as int].title == song@.title
                &&& forall|j: int| 0 <= j < i ==> self@.songs[j].title != song@.title
            }),
            r is None ==> !has_title(self@.songs, song@.title),
    {
        let mut i: usize = 0;
        while i < self.songs.len()
            invariant
                i <= self.songs.len(),
                forall|j: int| 0 <= j < i ==> self@.songs[j].title != song@.title,
            decreases self.songs.len() - i,
        {
            if self.songs[i] == *song {
                return Some(i);
            }
            i = i + 1;
        }
        None
    }

    /// Keeps a new song, newest first.  A song whose title is already kept
    /// changes nothing.  When the model is full, the oldest song is evicted
    /// and handed back so the caller can delete its file.
    pub fn add_song(&mut self, song: Song) -> (evicted: Option<Song>)
        requires
            old(self).wf(),
            old(self)@.max_len >= 1,
        ensures
            final(self).wf(),
            final(self)@ == add_step(old(self)@, song@),
            add_evicts(old(self)@, song@) ==> (evicted matches Some(e) && e@ == old(
                self,
            )@.songs.last()),
            !add_evicts(old(self)@, song@) ==> evicted is None,
    {
        let ghost before = self.songs@;
        match self.index_of(&song) {
            Some(_) => None,
            None => {
                let mut evicted: Option<Song> = None;
                if self.songs.len() >= self.max_len {
                    evicted = self.songs.pop();
                    proof {
                        assert(self.songs@.map_values(|s: Song| s@) =~= before.map_values(
                            |s: Song| s@,
                        ).drop_last());
                    }
                }
                let ghost mid = self.songs@;
                self.songs.insert(0, song);
                proof {
                    assert(self.songs@.map_values(|s: Song| s@) =~= seq![self.songs@[0]@]
                        + mid.map_values(|s: Song| s@));
                }
                evicted
            },
        }
    }

    /// Drops the first song carrying the given song's title, newest first,
    /// and hands it back so the caller can delete its file.  A title that
    /// is not kept changes nothing.
    pub fn remove_song(&mut self, song: &Song) -> (removed: Option<Song>)
        requires
            old(self).wf(),
        ensures
            final(self).wf(),
            final(self)@.max_len == old(self)@.max_len,
            !has_title(old(self)@.songs, song@.title) ==> final(self)@ == old(self)@ && removed
                is None,
            has_title(old(self)@.songs, song@.title) ==> ({
                &&& removed matches Some(r)
                &&& exists|i: int|
                    {
                        &&& 0 <= i < old(self)@.songs.len()
                        &&& old(self)@.songs[i].title == song@.title
                        &&& forall|j: int| 0 <= j < i ==> old(self)@.songs[j].title != song@.title
                        &&& r@ == old(self)@.songs[i]
                        &&& final(self)@.songs == old(self)@.songs.subrange(0, i) + old(
                            self,
                        )@.songs.subrange(i + 1, old(self)@.songs.len() as int)
                    }
            }),
    {
        let ghost before = self.songs@;
        match self.index_of(song) {
            Some(i) => {
                let r = self.songs.remove(i);
                proof {
                    assert(self.songs@.map_values(|s: Song| s@) =~= before.map_values(
                        |s: Song| s@,
                    ).subrange(0, i as int) + before.map_values(|s: Song| s@).subrange(
                        i + 1,
                        before.len() as int,
                    ));
                    let ghost witness = i as int;
                    assert(0 <= witness < before.len() && before.map_values(
                        |s: Song| s@,
                    )[witness].title == song@.title && r@ == before.map_values(
                        |s: Song| s@,
                    )[witness]);
                }
                Some(r)
            },
            None => None,
        }
    }

    /// The song at the given position; position 0 is the newest.
    pub fn get_song(&self, index: usize) -> (s: &Song)
        requires
            index < self@.songs.len(),
        ensures
            s@ == self@.songs[index as int],
    {
        &self.songs[index]
    }

    /// Empties the history and hands every kept song back, newest first, so
    /// the caller can delete the files.
    pub fn clear(&mut self) -> (removed: Vec<Song>)
        ensures
            final(self)@.songs == Seq::<SongData>::empty(),
            final(self)@.max_len == old(self)@.max_len,
            final(self).wf(),
            removed@.map_values(|s: Song| s@) == old(self)@.songs,
    {
        let mut removed: Vec<Song> = Vec::new();
        core::mem::swap(&mut removed, &mut self.songs);
        proof {
            assert(self.songs@.map_values(|s: Song| s@) =~= Seq::<SongData>::empty());
        }
        removed
    }

    /// How many songs are kept.
    pub fn len(&self) -> (n: usize)
        ensures
            n == self@.songs.len(),
    {
        self.songs.len()
    }
}

} // verus!
