use musicland::commands::{
    copy_music_to_volumio_commands, copy_to_volumio_command, host_port, m3u_names,
    player_mkdir_command, player_upload_command, rsync_tomachine_command,
};

fn strings(v: &[&str]) -> Vec<String> {
    v.iter().map(|s| s.to_string()).collect()
}

#[test]
fn rsync_dry_run_command() {
    let c = rsync_tomachine_command("enterprise.local", "gregory", "/mnt/storage1/music/library", "/home/music/library/", true);
    assert_eq!(c.program, "/usr/bin/rsync");
    assert_eq!(
        c.args,
        strings(&["--size-only", "--stats", "-nrthvzi", "/home/music/library/", "gregory@enterprise.local:/mnt/storage1/music/library"])
    );
}

#[test]
fn rsync_copy_command() {
    let c = rsync_tomachine_command("stonecold.local", "volumio", "/mnt/USB/mediadrive/", "/mnt/storage1/music/view_stonecold/", false);
    assert_eq!(c.program, "/usr/bin/rsync");
    assert_eq!(
        c.args,
        strings(&["--size-only", "--stats", "-rthvzi", "/mnt/storage1/music/view_stonecold/", "volumio@stonecold.local:/mnt/USB/mediadrive/"])
    );
}

#[test]
fn rsync_modes_differ_only_in_the_flag() {
    let a = rsync_tomachine_command("h", "u", "/r", "/l", true);
    let b = rsync_tomachine_command("h", "u", "/r", "/l", false);
    for i in 0..5 {
        if i != 2 {
            assert_eq!(a.args[i], b.args[i]);
        }
    }
    assert_ne!(a.args[2], b.args[2]);
}

#[test]
fn mkdir_and_upload_commands() {
    let m = player_mkdir_command("/mnt/USB/mediadrive/Artist");
    assert_eq!(m.program, "/usr/bin/ssh");
    assert_eq!(m.args, strings(&["volumio@stonecold.local", "mkdir -p /mnt/USB/mediadrive/Artist"]));
    let u = player_upload_command("/music/a.mp3", "/mnt/USB/mediadrive/a.mp3");
    assert_eq!(u.program, "/usr/bin/scp");
    assert_eq!(u.args, strings(&["/music/a.mp3", "volumio@stonecold.local:/mnt/USB/mediadrive/a.mp3"]));
}

#[test]
fn copy_music_uses_the_parent_directory() {
    let (mkdir, upload) =
        copy_music_to_volumio_commands("/mnt/storage1/music/library/A/b.mp3", "/mnt/USB/mediadrive/A/b.mp3").unwrap();
    assert_eq!(mkdir.args, strings(&["volumio@stonecold.local", "mkdir -p /mnt/USB/mediadrive/A"]));
    assert_eq!(upload.args, strings(&["/mnt/storage1/music/library/A/b.mp3", "volumio@stonecold.local:/mnt/USB/mediadrive/A/b.mp3"]));
}

#[test]
fn copy_music_to_relative_file_makes_empty_parent() {
    let (mkdir, _) = copy_music_to_volumio_commands("a", "b.mp3").unwrap();
    assert_eq!(mkdir.args[1], "mkdir -p ");
}

#[test]
fn copy_music_without_parent_is_none() {
    assert!(copy_music_to_volumio_commands("a", "/").is_none());
    assert!(copy_music_to_volumio_commands("a", "").is_none());
}

#[test]
fn copy_playlist_command() {
    let c = copy_to_volumio_command("Jazz");
    assert_eq!(c.program, "/usr/bin/scp");
    assert_eq!(c.args, strings(&["Jazz.vl", "volumio@stonecold.local:/data/playlist"]));
}

#[test]
fn host_and_port() {
    assert_eq!(host_port("enterprise.local", "22"), "enterprise.local:22");
}

#[test]
fn m3u_file_and_destination() {
    let (file, dest) = m3u_names("Jazz", "/mnt/storage1/music/view/");
    assert_eq!(file, "Jazz.m3u");
    assert_eq!(dest, "/mnt/storage1/music/view/Jazz.m3u");
}
