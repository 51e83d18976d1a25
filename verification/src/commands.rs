//! The command lines that the tools run on this machine: `ssh`, `scp` and
//! `rsync` towards the music player and the other machines.

use vstd::prelude::*;
use crate::paths::{path_parent, path_parent_of};
use crate::text::{concat2, owned};

verus! {

/// A program and its arguments.
#[derive(Debug)]
pub struct CommandLine {
    pub program: String,
    pub args: Vec<String>,
}

/// The mathematical form of a [`CommandLine`].
pub struct CommandLineView {
    pub program: Seq<char>,
    pub args: Seq<Seq<char>>,
}

impl View for CommandLine {
    type V = CommandLineView;

    open spec fn view(&self) -> CommandLineView {
        CommandLineView { program: self.program@, args: self.args.deep_view() }
    }
}

/// The account on the music player.
pub open spec fn player_account() -> Seq<char> {
    "volumio@stonecold.local"@
}

/// The remote command that makes the directory `parent` with its parents.
pub open spec fn player_mkdir(parent: Seq<char>) -> Seq<char> {
    "mkdir -p "@ + parent
}

/// `target` on the music player, as `scp` names it.
pub open spec fn player_location(target: Seq<char>) -> Seq<char> {
    "volumio@stonecold.local:"@ + target
}

/// The file that holds the player's form of a playlist.
pub open spec fn player_playlist_file(name: Seq<char>) -> Seq<char> {
    name + ".vl"@
}

/// The rsync destination `username@host:remote_loc`.
pub open spec fn rsync_destination(
    host: Seq<char>,
    username: Seq<char>,
    remote_loc: Seq<char>,
) -> Seq<char> {
    username + "@"@ + host + ":"@ + remote_loc
}

/// The rsync option cluster: with `n` (a dry run that only reports) or without.
pub open spec fn rsync_mode_flag(report_only: bool) -> Seq<char> {
    if report_only {
        "-nrthvzi"@
    } else {
        "-rthvzi"@
    }
}

/// The arguments of the rsync command.
pub open spec fn rsync_args(
    host: Seq<char>,
    username: Seq<char>,
    remote_loc: Seq<char>,
    local_loc: Seq<char>,
    report_only: bool,
) -> Seq<Seq<char>> {
    seq![
        "--size-only"@,
        "--stats"@,
        rsync_mode_flag(report_only),
        local_loc,
        rsync_destination(host, username, remote_loc),
    ]
}

/// The `ssh` command that makes the directory `parent` on the music player.
pub fn player_mkdir_command(parent: &str) -> (c: CommandLine)
    ensures
        c@.program == "/usr/bin/ssh"@,
        c@.args == seq![player_account(), player_mkdir(parent@)],
        c@.args == seq!["volumio@stonecold.local"@, "mkdir -p "@ + parent@],
{
    let args = vec![owned("volumio@stonecold.local"), concat2("mkdir -p ", parent)];
    let c = CommandLine { program: owned("/usr/bin/ssh"), args };
    assert(c@.args =~= seq![player_account(), player_mkdir(parent@)]);
    c
}

/// The `scp` command that copies `source_file` to `target_file` on the music player.
pub fn player_upload_command(source_file: &str, target_file: &str) -> (c: CommandLine)
    ensures
        c@.program == "/usr/bin/scp"@,
        c@.args == seq![source_file@, player_location(target_file@)],
        c@.args == seq![source_file@, "volumio@stonecold.local:"@ + target_file@],
{
    let args = vec![owned(source_file), concat2("volumio@stonecold.local:", target_file)];
    let c = CommandLine { program: owned("/usr/bin/scp"), args };
    assert(c@.args =~= seq![source_file@, player_location(target_file@)]);
    c
}

/// The two commands that copy a music file to the player: make the parent
/// directory of `target_file` there, then copy. `None` where `target_file`
/// has no parent directory.
pub fn copy_music_to_volumio_commands(source_file: &str, target_file: &str) -> (r: Option<
    (CommandLine, CommandLine),
>)
    ensures
        r is Some <==> path_parent_of(target_file@) is Some,
        r matches Some((mkdir, upload)) ==> {
            &&& mkdir@.program == "/usr/bin/ssh"@
            &&& mkdir@.args == seq![
                player_account(),
                player_mkdir(path_parent_of(target_file@)->0),
            ]
            &&& upload@.program == "/usr/bin/scp"@
            &&& upload@.args == seq![source_file@, player_location(target_file@)]
            &&& mkdir@.args == seq![
                "volumio@stonecold.local"@,
                "mkdir -p "@ + path_parent_of(target_file@)->0,
            ]
            &&& upload@.args == seq![source_file@, "volumio@stonecold.local:"@ + target_file@]
        },
{
    match path_parent(target_file) {
        Some(parent) => Some(
            (
                player_mkdir_command(parent.as_str()),
                player_upload_command(source_file, target_file),
            ),
        ),
        None => None,
    }
}

/// The `scp` command that copies the player's file of the playlist named
/// `playlist_name` into the player's playlist directory.
pub fn copy_to_volumio_command(playlist_name: &str) -> (c: CommandLine)
    ensures
        c@.program == "/usr/bin/scp"@,
        c@.args == seq![
            player_playlist_file(playlist_name@),
            "volumio@stonecold.local:/data/playlist"@,
        ],
        c@.args.len() == 2,
        c@.args[0] == playlist_name@ + ".vl"@,
        c@.args[1] == "volumio@stonecold.local:/data/playlist"@,
{
    let args = vec![concat2(playlist_name, ".vl"), owned("volumio@stonecold.local:/data/playlist")];
    let c = CommandLine { program: owned("/usr/bin/scp"), args };
    assert(c@.args =~= seq![
        player_playlist_file(playlist_name@),
        "volumio@stonecold.local:/data/playlist"@,
    ]);
    c
}

/// The `rsync` command that brings `remote_loc` on `host` (as `username`) in
/// line with `local_loc`, comparing sizes only; with `report_only` it is a dry
/// run that only reports.
pub fn rsync_tomachine_command(
    host: &str,
    username: &str,
    remote_loc: &str,
    local_loc: &str,
    report_only: bool,
) -> (c: CommandLine)
    ensures
        c@.program == "/usr/bin/rsync"@,
        c@.args == rsync_args(host@, username@, remote_loc@, local_loc@, report_only),
        c@.args == seq![
            "--size-only"@,
            "--stats"@,
            if report_only {
                "-nrthvzi"@
            } else {
                "-rthvzi"@
            },
            local_loc@,
            username@ + "@"@ + host@ + ":"@ + remote_loc@,
        ],
{
    let mut to_loc = owned(username);
    to_loc.append("@");
    to_loc.append(host);
    to_loc.append(":");
    to_loc.append(remote_loc);
    let flag = if report_only {
        owned("-nrthvzi")
    } else {
        owned("-rthvzi")
    };
    let args = vec![owned("--size-only"), owned("--stats"), flag, owned(local_loc), to_loc];
    let c = CommandLine { program: owned("/usr/bin/rsync"), args };
    assert(c@.args =~= seq![
        "--size-only"@,
        "--stats"@,
        rsync_mode_flag(report_only),
        local_loc@,
        rsync_destination(host@, username@, remote_loc@),
    ]);
    c
}

/// `host:port`, as the SSH connection takes it.
pub fn host_port(host: &str, port: &str) -> (r: String)
    ensures
        r@ == host@ + ":"@ + port@,
{
    let mut r = owned(host);
    r.append(":");
    r.append(port);
    r
}

/// The file name of the M3U export of the playlist `playlist_name`, and its
/// path under `view_root` on the other machine.
pub fn m3u_names(playlist_name: &str, view_root: &str) -> (r: (String, String))
    ensures
        r.0@ == playlist_name@ + ".m3u"@,
        r.1@ == view_root@ + (playlist_name@ + ".m3u"@),
{
    let file = concat2(playlist_name, ".m3u");
    let dest = concat2(view_root, file.as_str());
    (file, dest)
}

/// Whatever `report_only` says, the rsync command is the same but for its
/// option cluster, which holds `n` (a dry run) exactly when `report_only` is set.
pub proof fn lemma_rsync_report_only_is_dry_run(
    host: Seq<char>,
    username: Seq<char>,
    remote_loc: Seq<char>,
    local_loc: Seq<char>,
)
    ensures
        rsync_args(host, username, remote_loc, local_loc, true).len() == rsync_args(
            host,
            username,
            remote_loc,
            local_loc,
            false,
        ).len(),
        forall|i: int|
            0 <= i < 5 && i != 2 ==> #[trigger] rsync_args(host, username, remote_loc, local_loc, true)[i]
                == rsync_args(host, username, remote_loc, local_loc, false)[i],
        rsync_mode_flag(true) == seq!['-', 'n'] + rsync_mode_flag(false).drop_first(),
        rsync_mode_flag(false)[0] == '-',
        !rsync_mode_flag(false).contains('n'),
{
    reveal_strlit("-nrthvzi");
    reveal_strlit("-rthvzi");
    assert(rsync_mode_flag(true) =~= seq!['-', 'n'] + rsync_mode_flag(false).drop_first());
    assert(rsync_mode_flag(false) =~= seq!['-', 'r', 't', 'h', 'v', 'z', 'i']);
}

/// The player's file of a playlist is its name, character for character,
/// followed by `.vl`.
pub proof fn lemma_player_playlist_file(name: Seq<char>)
    ensures
        player_playlist_file(name).len() == name.len() + 3,
        player_playlist_file(name).take(name.len() as int) == name,
        player_playlist_file(name).skip(name.len() as int) == ".vl"@,
{
    assert(player_playlist_file(name).take(name.len() as int) =~= name);
    assert(player_playlist_file(name).skip(name.len() as int) =~= ".vl"@);
    reveal_strlit(".vl");
}

/// The commands towards the player name it, the directory to make and the
/// copy target as they were given: the remote `mkdir` ends with the parent
/// directory unchanged, and the copy target ends with the target file unchanged.
pub proof fn lemma_player_commands_keep_paths(parent: Seq<char>, target: Seq<char>)
    ensures
        player_account() == "volumio@stonecold.local"@,
        player_mkdir(parent).skip("mkdir -p "@.len() as int) == parent,
        player_mkdir(parent).take("mkdir -p "@.len() as int) == "mkdir -p "@,
        player_location(target).skip("volumio@stonecold.local:"@.len() as int) == target,
        player_location(target).take("volumio@stonecold.local:"@.len() as int)
            == "volumio@stonecold.local:"@,
{
    assert(player_mkdir(parent).skip("mkdir -p "@.len() as int) =~= parent);
    assert(player_mkdir(parent).take("mkdir -p "@.len() as int) =~= "mkdir -p "@);
    assert(player_location(target).skip("volumio@stonecold.local:"@.len() as int) =~= target);
    assert(player_location(target).take("volumio@stonecold.local:"@.len() as int)
        =~= "volumio@stonecold.local:"@);
}

/// The rsync destination is the user name, `@`, the host, `:` and the remote
/// location, each unchanged.
pub proof fn lemma_rsync_destination(host: Seq<char>, username: Seq<char>, remote_loc: Seq<char>)
    ensures
        rsync_destination(host, username, remote_loc) == username + seq!['@'] + host + seq![':']
            + remote_loc,
{
    reveal_strlit("@");
    reveal_strlit(":");
    assert("@"@ =~= seq!['@']);
    assert(":"@ =~= seq![':']);
}

/// A command line's view is its program and its arguments, in order.
pub proof fn lemma_command_line_view(c: CommandLine)
    ensures
        c@.program == c.program@,
        c@.args.len() == c.args@.len(),
        forall|i: int| 0 <= i < c.args@.len() ==> #[trigger] c@.args[i] == c.args@[i]@,
{
}

} // verus!
