//! Playlists as the music player's tools see them, and the rewriting of their
//! entries for the player.

use vstd::prelude::*;
use vstd::utf8::{decode_utf8, encode_utf8, is_ascii_chars, is_ascii_chars_encode_utf8, is_char_boundary};
use crate::paths::{
    after_bytes, cuts_at, file_scheme, lemma_uri_rewrite_keeps_relative_path, library_path_for_uri, utf8_len, view_path_for_uri, FILE_SCHEME_BYTES,
};
use crate::text::{concat2, owned};

verus! {

/// One entry of a playlist.
#[derive(Debug)]
pub struct PlaylistItem {
    pub playlist: String,
    pub service: String,
    pub title: String,
    pub artist: String,
    pub uri: String,
    pub length: i64,
}

/// A named list of entries.
#[derive(Debug)]
pub struct Playlist {
    pub name: String,
    pub songs: Vec<PlaylistItem>,
}

/// The mathematical form of a [`PlaylistItem`].
pub struct PlaylistItemView {
    pub playlist: Seq<char>,
    pub service: Seq<char>,
    pub title: Seq<char>,
    pub artist: Seq<char>,
    pub uri: Seq<char>,
    pub length: i64,
}

/// The mathematical form of a [`Playlist`].
pub struct PlaylistView {
    pub name: Seq<char>,
    pub songs: Seq<PlaylistItemView>,
}

impl View for PlaylistItem {
    type V = PlaylistItemView;

    open spec fn view(&self) -> PlaylistItemView {
        PlaylistItemView {
            playlist: self.playlist@,
            service: self.service@,
            title: self.title@,
            artist: self.artist@,
            uri: self.uri@,
            length: self.length,
        }
    }
}

impl View for Playlist {
    type V = PlaylistView;

    open spec fn view(&self) -> PlaylistView {
        PlaylistView { name: self.name@, songs: self.songs@.map_values(|s: PlaylistItem| s@) }
    }
}

/// `item` with `prefix` put before its URI.
pub open spec fn item_with_uri_prefix(item: PlaylistItemView, prefix: Seq<char>) -> PlaylistItemView {
    PlaylistItemView { uri: prefix + item.uri, ..item }
}

/// `playlist` with `prefix` put before the URI of each entry.
pub open spec fn playlist_with_uri_prefix(playlist: PlaylistView, prefix: Seq<char>) -> PlaylistView {
    PlaylistView {
        name: playlist.name,
        songs: playlist.songs.map_values(|s: PlaylistItemView| item_with_uri_prefix(s, prefix)),
    }
}

/// A copy of `item`.
pub fn copy_item(item: &PlaylistItem) -> (r: PlaylistItem)
    ensures
        r@ == item@,
{
    PlaylistItem {
        playlist: item.playlist.clone(),
        service: item.service.clone(),
        title: item.title.clone(),
        artist: item.artist.clone(),
        uri: item.uri.clone(),
        length: item.length,
    }
}

/// `playlist` with `prefix` put before the URI of each entry; everything
/// else is kept.
pub fn with_uri_prefix(playlist: &Playlist, prefix: &str) -> (r: Playlist)
    ensures
        r@ == playlist_with_uri_prefix(playlist@, prefix@),
        r@.name == playlist@.name,
        r@.songs.len() == playlist@.songs.len(),
        forall|i: int|
            0 <= i < playlist@.songs.len() ==> {
                &&& (#[trigger] r@.songs[i]).uri == prefix@ + playlist@.songs[i].uri
                &&& r@.songs[i].playlist == playlist@.songs[i].playlist
                &&& r@.songs[i].service == playlist@.songs[i].service
                &&& r@.songs[i].title == playlist@.songs[i].title
                &&& r@.songs[i].artist == playlist@.songs[i].artist
                &&& r@.songs[i].length == playlist@.songs[i].length
            },
{
    let mut songs: Vec<PlaylistItem> = Vec::new();
    let n = playlist.songs.len();
    for i in 0..n
        invariant
            n == playlist.songs.len(),
            songs@.len() == i,
            forall|j: int|
                0 <= j < i ==> #[trigger] songs@[j]@ == item_with_uri_prefix(
                    playlist.songs@[j]@,
                    prefix@,
                ),
    {
        let song = &playlist.songs[i];
        let item = PlaylistItem {
            playlist: song.playlist.clone(),
            service: song.service.clone(),
            title: song.title.clone(),
            artist: song.artist.clone(),
            uri: concat2(prefix, song.uri.as_str()),
            length: song.length,
        };
        songs.push(item);
    }
    let r = Playlist { name: playlist.name.clone(), songs };
    assert(r@.songs =~= playlist_with_uri_prefix(playlist@, prefix@).songs);
    r
}

/// Where the player's music library sits, relative to its music root.
pub open spec fn player_library_prefix() -> Seq<char> {
    "music-library/USB/mediadrive/"@
}

/// The playlist as the player reads it: each entry under the player's library.
pub fn volumio_playlist(playlist: &Playlist) -> (r: Playlist)
    ensures
        r@ == playlist_with_uri_prefix(playlist@, player_library_prefix()),
        r@.name == playlist@.name,
        r@.songs.len() == playlist@.songs.len(),
        forall|i: int|
            0 <= i < playlist@.songs.len() ==> (#[trigger] r@.songs[i]).uri
                == "music-library/USB/mediadrive/"@ + playlist@.songs[i].uri,
{
    with_uri_prefix(playlist, "music-library/USB/mediadrive/")
}

/// The library root of this machine that the raw copy takes entries from.
pub open spec fn raw_source_root() -> Seq<char> {
    "/mnt/storage1/music/library"@
}

/// The directory of the player that the raw copy puts entries in.
pub open spec fn raw_target_root() -> Seq<char> {
    "/mnt/USB/mediadrive"@
}

proof fn lemma_raw_source_root_len()
    ensures
        utf8_len(raw_source_root()) == 27,
        raw_source_root() == "/mnt/storage1/music/library"@,
        raw_target_root() == "/mnt/USB/mediadrive"@,
{
    reveal_strlit("/mnt/storage1/music/library");
    assert(is_ascii_chars(raw_source_root()));
    is_ascii_chars_encode_utf8(raw_source_root());
}

/// For an entry URI of the raw copy: the file to copy from (the URI without
/// its scheme) and the path on the player to copy to (the URI with the scheme
/// and this machine's library root replaced by the player's directory).
/// `None` where either cut does not fall on a character boundary of the URI.
pub fn volumio_raw_copy_paths(uri: &str) -> (r: Option<(String, String)>)
    ensures
        r is Some <==> cuts_at(uri@, FILE_SCHEME_BYTES as int) && cuts_at(
            uri@,
            FILE_SCHEME_BYTES + utf8_len(raw_source_root()),
        ),
        r is Some <==> is_char_boundary(encode_utf8(uri@), 7) && is_char_boundary(
            encode_utf8(uri@),
            34,
        ),
        r matches Some((source, target)) ==> {
            &&& source@ == decode_utf8(encode_utf8(uri@).subrange(7, encode_utf8(uri@).len() as int))
            &&& target@ == "/mnt/USB/mediadrive"@ + decode_utf8(
                encode_utf8(uri@).subrange(34, encode_utf8(uri@).len() as int),
            )
        },
        r matches Some((source, target)) ==> {
            &&& source@ == after_bytes(uri@, FILE_SCHEME_BYTES as int)
            &&& target@ == raw_target_root() + after_bytes(
                uri@,
                FILE_SCHEME_BYTES + utf8_len(raw_source_root()),
            )
        },
{
    proof {
        lemma_raw_source_root_len();
    }
    let target = view_path_for_uri(uri, "/mnt/storage1/music/library", "/mnt/USB/mediadrive");
    match target {
        Some(target) => match library_path_for_uri(uri) {
            Some(source) => Some((source, target)),
            None => None,
        },
        None => None,
    }
}

/// The raw copy of an entry `file:///mnt/storage1/music/library` followed by
/// a relative path copies the library file with that relative path to the
/// player's directory followed by the same relative path.
pub proof fn lemma_raw_copy_keeps_relative_path(relative: Seq<char>)
    ensures
        cuts_at(file_scheme() + raw_source_root() + relative, FILE_SCHEME_BYTES as int),
        cuts_at(
            file_scheme() + raw_source_root() + relative,
            FILE_SCHEME_BYTES + utf8_len(raw_source_root()),
        ),
        after_bytes(file_scheme() + raw_source_root() + relative, FILE_SCHEME_BYTES as int)
            == raw_source_root() + relative,
        raw_target_root() + after_bytes(
            file_scheme() + raw_source_root() + relative,
            FILE_SCHEME_BYTES + utf8_len(raw_source_root()),
        ) == raw_target_root() + relative,
{
    lemma_uri_rewrite_keeps_relative_path(raw_source_root(), relative);
}

/// Prefixing a playlist keeps its name and its entries in order; each entry
/// keeps every field, and its URI is the prefix followed by the former URI
/// unchanged, so that cutting the prefix off gives the former URI back.
pub proof fn lemma_uri_prefix_keeps_entries(playlist: PlaylistView, prefix: Seq<char>)
    ensures
        playlist_with_uri_prefix(playlist, prefix).name == playlist.name,
        playlist_with_uri_prefix(playlist, prefix).songs.len() == playlist.songs.len(),
        forall|i: int|
            0 <= i < playlist.songs.len() ==> {
                let after = #[trigger] playlist_with_uri_prefix(playlist, prefix).songs[i];
                &&& after.uri.take(prefix.len() as int) == prefix
                &&& after.uri.skip(prefix.len() as int) == playlist.songs[i].uri
                &&& after.playlist == playlist.songs[i].playlist
                &&& after.service == playlist.songs[i].service
                &&& after.title == playlist.songs[i].title
                &&& after.artist == playlist.songs[i].artist
                &&& after.length == playlist.songs[i].length
            },
{
    assert forall|i: int| 0 <= i < playlist.songs.len() implies {
        let after = #[trigger] playlist_with_uri_prefix(playlist, prefix).songs[i];
        &&& after.uri.take(prefix.len() as int) == prefix
        &&& after.uri.skip(prefix.len() as int) == playlist.songs[i].uri
    } by {
        let after = playlist_with_uri_prefix(playlist, prefix).songs[i];
        assert(after.uri.take(prefix.len() as int) =~= prefix);
        assert(after.uri.skip(prefix.len() as int) =~= playlist.songs[i].uri);
    }
}

/// A playlist's view is its name and its entries in order, each entry field
/// for field.
pub proof fn lemma_playlist_view(p: Playlist)
    ensures
        p@.name == p.name@,
        p@.songs.len() == p.songs@.len(),
        forall|i: int|
            0 <= i < p.songs@.len() ==> {
                &&& (#[trigger] p@.songs[i]).uri == p.songs@[i].uri@
                &&& p@.songs[i].playlist == p.songs@[i].playlist@
                &&& p@.songs[i].service == p.songs@[i].service@
                &&& p@.songs[i].title == p.songs@[i].title@
                &&& p@.songs[i].artist == p.songs@[i].artist@
                &&& p@.songs[i].length == p.songs@[i].length
            },
{
}

} // verus!
