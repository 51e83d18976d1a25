use musicland::playlist::{volumio_playlist, volumio_raw_copy_paths, with_uri_prefix, Playlist, PlaylistItem};

fn item(uri: &str) -> PlaylistItem {
    PlaylistItem {
        playlist: "Jazz".to_string(),
        service: "local".to_string(),
        title: "So What".to_string(),
        artist: "Miles Davis".to_string(),
        uri: uri.to_string(),
        length: 561_000_000_000,
    }
}

#[test]
fn prefix_goes_before_each_uri() {
    let p = Playlist { name: "Jazz".to_string(), songs: vec![item("a.mp3"), item("b/c.mp3")] };
    let q = with_uri_prefix(&p, "pre/");
    assert_eq!(q.name, "Jazz");
    assert_eq!(q.songs.len(), 2);
    assert_eq!(q.songs[0].uri, "pre/a.mp3");
    assert_eq!(q.songs[1].uri, "pre/b/c.mp3");
    assert_eq!(q.songs[1].title, "So What");
    assert_eq!(q.songs[1].artist, "Miles Davis");
    assert_eq!(q.songs[1].length, 561_000_000_000);
}

#[test]
fn volumio_playlist_is_under_the_player_library() {
    let p = Playlist { name: "Mix".to_string(), songs: vec![item("Artist/a.mp3")] };
    let q = volumio_playlist(&p);
    assert_eq!(q.songs[0].uri, "music-library/USB/mediadrive/Artist/a.mp3");
}

#[test]
fn empty_playlist_stays_empty() {
    let p = Playlist { name: "None".to_string(), songs: vec![] };
    assert!(volumio_playlist(&p).songs.is_empty());
}

#[test]
fn raw_copy_paths_of_library_entry() {
    let (source, target) =
        volumio_raw_copy_paths("file:///mnt/storage1/music/library/Artist/a.mp3").unwrap();
    assert_eq!(source, "/mnt/storage1/music/library/Artist/a.mp3");
    assert_eq!(target, "/mnt/USB/mediadrive/Artist/a.mp3");
}

#[test]
fn raw_copy_paths_of_short_uri() {
    assert!(volumio_raw_copy_paths("file:///tmp/a.mp3").is_none());
}
