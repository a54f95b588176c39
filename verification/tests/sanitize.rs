use shortwave::song::{song_path, Song};

const RESERVED: [char; 10] = ['/', '\\', ':', '<', '>', '"', '|', '?', '*', '.'];

#[test]
fn simplify_title_strips_reserved_characters() {
    assert_eq!(Song::simplify_title("A/B:C".to_string()), "ABC");
    assert_eq!(Song::simplify_title("a<b>c\"d|e?f*g".to_string()), "abcdefg");
    assert_eq!(Song::simplify_title("back\\slash".to_string()), "backslash");
    assert_eq!(Song::simplify_title("dots.every.where".to_string()), "dotseverywhere");
}

#[test]
fn simplify_title_keeps_clean_titles() {
    assert_eq!(Song::simplify_title("Hello World".to_string()), "Hello World");
    assert_eq!(Song::simplify_title(String::new()), "");
    assert_eq!(Song::simplify_title("äöü é 音楽".to_string()), "äöü é 音楽");
}

#[test]
fn simplify_title_can_leave_nothing() {
    assert_eq!(Song::simplify_title("/\\:<>\"|?*.".to_string()), "");
    assert_eq!(Song::simplify_title("...".to_string()), "");
}

#[test]
fn sanitized_output_never_holds_a_reserved_character() {
    let cleaned = Song::simplify_title("A/B:C — <live?> *rip*.ogg".to_string());
    for c in RESERVED {
        assert!(!cleaned.contains(c), "reserved character {c:?} survived in {cleaned:?}");
    }
}

#[test]
fn song_path_is_dir_sanitized_title_and_extension() {
    assert_eq!(song_path("/cap", "A/B:C"), "/cap/ABC.ogg");
    assert_eq!(song_path("/cap", "Song A"), "/cap/Song A.ogg");
}

#[test]
fn song_path_file_name_holds_no_reserved_character() {
    let path = song_path("/cap", "A/B:C");
    let name = path.strip_prefix("/cap/").unwrap();
    let stem = name.strip_suffix(".ogg").unwrap();
    for c in RESERVED {
        assert!(!stem.contains(c), "reserved character {c:?} in file name {name:?}");
    }
}
