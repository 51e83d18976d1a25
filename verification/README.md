# musicland

Tools that keep a music library, its "view" directories of hard links, and a
Volumio music player in step. `src/` is the verified library (Verus):

- `listing`: the command that lists the player's playlists and the reading of
  its output into names.
- `paths`: byte-length prefix replacement on paths, the rewriting of `file://`
  library URIs, and the parent directory of a path.
- `commands`: the `ssh`, `scp` and `rsync` command lines.
- `playlist`: playlists and their rewriting for the player.
- `links`: the state machine that checks each playlist entry in a view
  directory and links the missing ones.

`app/` is the `musicland` command: configuration, SSH sessions, child
processes and the file system, driven by the library.
