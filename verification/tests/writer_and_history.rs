use shortwave::song::Song;
use shortwave::song_model::SongModel;
use shortwave::writer::SegmentWriter;

fn song(title: &str) -> Song {
    Song::new(title, format!("/cap/{title}.ogg"), 1000)
}

#[test]
fn finalize_duration_is_confirmation_minus_creation() {
    let w = SegmentWriter::start("Song A".to_string(), "/cap/Song A.ogg".to_string(), 250);
    assert_eq!(w.created_ms(), 250);
    let s = w.finalize(4250);
    assert_eq!(s.title, "Song A");
    assert_eq!(s.path, "/cap/Song A.ogg");
    assert_eq!(s.duration_ms, 4000);
}

#[test]
fn immediate_finalize_has_zero_duration() {
    let w = SegmentWriter::start("t".to_string(), "/cap/t.ogg".to_string(), 7);
    assert_eq!(w.finalize(7).duration_ms, 0);
}

#[test]
fn discard_hands_back_the_path_to_delete() {
    let w = SegmentWriter::start("t".to_string(), "/cap/t.ogg".to_string(), 7);
    assert_eq!(w.discard(), "/cap/t.ogg");
}

#[test]
fn songs_compare_by_title() {
    let a = Song::new("same", "/x.ogg".to_string(), 1);
    let b = Song::new("same", "/y.ogg".to_string(), 2);
    let c = Song::new("other", "/x.ogg".to_string(), 1);
    assert!(a == b);
    assert!(a != c);
}

#[test]
fn history_keeps_newest_first() {
    let mut m = SongModel::new(5);
    assert_eq!(m.len(), 0);
    m.add_song(song("A"));
    m.add_song(song("B"));
    assert_eq!(m.len(), 2);
    assert_eq!(m.get_song(0).title, "B");
    assert_eq!(m.get_song(1).title, "A");
}

#[test]
fn history_ignores_a_title_it_already_keeps() {
    let mut m = SongModel::new(5);
    m.add_song(song("A"));
    assert!(m.add_song(song("A")).is_none());
    assert_eq!(m.len(), 1);
}

#[test]
fn full_history_evicts_the_oldest() {
    let mut m = SongModel::new(2);
    m.add_song(song("A"));
    m.add_song(song("B"));
    let evicted = m.add_song(song("C")).expect("the oldest must be evicted");
    assert_eq!(evicted.title, "A");
    assert_eq!(m.len(), 2);
    assert_eq!(m.get_song(0).title, "C");
    assert_eq!(m.get_song(1).title, "B");
}

#[test]
fn remove_song_hands_back_the_entry() {
    let mut m = SongModel::new(5);
    m.add_song(song("A"));
    m.add_song(song("B"));
    let gone = m.remove_song(&song("A")).expect("A is kept");
    assert_eq!(gone.title, "A");
    assert_eq!(gone.path, "/cap/A.ogg");
    assert_eq!(m.len(), 1);
    assert!(m.remove_song(&song("A")).is_none());
}

#[test]
fn clear_returns_everything_newest_first() {
    let mut m = SongModel::new(5);
    m.add_song(song("A"));
    m.add_song(song("B"));
    let all = m.clear();
    assert_eq!(m.len(), 0);
    assert_eq!(all.len(), 2);
    assert_eq!(all[0].title, "B");
    assert_eq!(all[1].title, "A");
}
