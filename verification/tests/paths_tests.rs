use musicland::paths::{
    library_path_for_uri, replace_byte_prefix, view_path_for_uri, FILE_SCHEME_BYTES,
};

#[test]
fn scheme_is_seven_bytes() {
    assert_eq!(FILE_SCHEME_BYTES, "file://".len());
}

#[test]
fn replace_prefix_as_replace_range() {
    assert_eq!(replace_byte_prefix("abcdef", 3, "XY"), Some("XYdef".to_string()));
    assert_eq!(replace_byte_prefix("abc", 3, "Z"), Some("Z".to_string()));
    assert_eq!(replace_byte_prefix("abc", 0, "Z"), Some("Zabc".to_string()));
}

#[test]
fn replace_prefix_past_end_is_none() {
    assert_eq!(replace_byte_prefix("abc", 4, "Z"), None);
}

#[test]
fn replace_prefix_inside_a_character_is_none() {
    // 'é' takes two bytes: a cut after one byte falls inside it.
    assert_eq!(replace_byte_prefix("éa", 1, "Z"), None);
    assert_eq!(replace_byte_prefix("éa", 2, "Z"), Some("Za".to_string()));
}

#[test]
fn replace_prefix_matches_std() {
    let s = "añb€c";
    for n in 0..=s.len() + 1 {
        let expected = if s.is_char_boundary(n) {
            let mut t = s.to_string();
            t.replace_range(..n, "R");
            Some(t)
        } else {
            None
        };
        assert_eq!(replace_byte_prefix(s, n, "R"), expected);
    }
}

#[test]
fn view_path_rewrites_library_uri() {
    assert_eq!(
        view_path_for_uri("file:///mnt/lib/Artist/song.mp3", "/mnt/lib", "/mnt/view"),
        Some("/mnt/view/Artist/song.mp3".to_string())
    );
}

#[test]
fn view_path_cuts_by_length_only() {
    // The root is cut by its length, whatever the URI holds there.
    assert_eq!(
        view_path_for_uri("file:///other/Artist/song.mp3", "/mnt/lib", "/v"),
        Some("/vrtist/song.mp3".to_string())
    );
}

#[test]
fn view_path_of_too_short_uri_is_none() {
    assert_eq!(view_path_for_uri("file:///a", "/mnt/library", "/v"), None);
}

#[test]
fn view_path_with_multibyte_library_root() {
    assert_eq!(
        view_path_for_uri("file:///Musïk/a.mp3", "/Musïk", "/V"),
        Some("/V/a.mp3".to_string())
    );
}

#[test]
fn library_path_strips_the_scheme() {
    assert_eq!(
        library_path_for_uri("file:///mnt/lib/a.mp3"),
        Some("/mnt/lib/a.mp3".to_string())
    );
    assert_eq!(library_path_for_uri("file:/"), None);
    assert_eq!(library_path_for_uri("file://"), Some(String::new()));
}
