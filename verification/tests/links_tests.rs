use musicland::links::{entry_paths_of, remote_check_command, remote_link_command, LinkAction, LinkEvent, LinkMode, LinkWalker};

fn uris(v: &[&str]) -> Vec<String> {
    v.iter().map(|s| s.to_string()).collect()
}

#[test]
fn check_and_link_commands() {
    assert_eq!(remote_check_command("/v/a b.mp3"), "ls -1 \"/v/a b.mp3\"");
    assert_eq!(
        remote_link_command("/v/A", "/lib/A/x.mp3", "/v/A/x.mp3"),
        "mkdir -p \"/v/A\"; ln \"/lib/A/x.mp3\" \"/v/A/x.mp3\""
    );
}

#[test]
fn entry_paths_in_each_mode() {
    assert_eq!(
        entry_paths_of(LinkMode::MissingLinks, "/lib", "/view", "file:///lib/A/x.mp3"),
        Some(("/view/A/x.mp3".to_string(), "/lib/A/x.mp3".to_string()))
    );
    assert_eq!(
        entry_paths_of(LinkMode::RemoteView, "/lib/", "/view/", "A/x.mp3"),
        Some(("/view/A/x.mp3".to_string(), "/lib/A/x.mp3".to_string()))
    );
    assert_eq!(entry_paths_of(LinkMode::MissingLinks, "/library", "/v", "file:///x"), None);
}

#[test]
fn remote_view_walk_links_only_missing_entries() {
    let mut w = LinkWalker::new(LinkMode::RemoteView, "/lib/", "/view/", uris(&["A/x.mp3", "B/y.mp3"]));
    match w.step(LinkEvent::Begin) {
        LinkAction::RemoteCheck { index, command } => {
            assert_eq!(index, 0);
            assert_eq!(command, "ls -1 \"/view/A/x.mp3\"");
        }
        other => panic!("unexpected {:?}", other),
    }
    // The first entry is there: the walk moves on to the second.
    match w.step(LinkEvent::RemoteStatus(0)) {
        LinkAction::RemoteCheck { index, command } => {
            assert_eq!(index, 1);
            assert_eq!(command, "ls -1 \"/view/B/y.mp3\"");
        }
        other => panic!("unexpected {:?}", other),
    }
    // The second is missing: it is linked.
    match w.step(LinkEvent::RemoteStatus(2)) {
        LinkAction::RemoteLink { index, directory, library_file, view_file, command } => {
            assert_eq!(index, 1);
            assert_eq!(directory, "/view/B");
            assert_eq!(library_file, "/lib/B/y.mp3");
            assert_eq!(view_file, "/view/B/y.mp3");
            assert_eq!(command, "mkdir -p \"/view/B\"; ln \"/lib/B/y.mp3\" \"/view/B/y.mp3\"");
        }
        other => panic!("unexpected {:?}", other),
    }
    assert!(matches!(w.step(LinkEvent::Linked), LinkAction::Finished));
}

#[test]
fn local_walk() {
    let mut w = LinkWalker::new(LinkMode::LocalView, "/lib/", "/view/", uris(&["x.mp3"]));
    assert!(!w.accepts(LinkEvent::Linked));
    assert!(w.accepts(LinkEvent::Begin));
    match w.step(LinkEvent::Begin) {
        LinkAction::LocalCheck { index, view_file } => {
            assert_eq!(index, 0);
            assert_eq!(view_file, "/view/x.mp3");
        }
        other => panic!("unexpected {:?}", other),
    }
    assert!(!w.accepts(LinkEvent::RemoteStatus(0)));
    match w.step(LinkEvent::LocalExists(false)) {
        LinkAction::LocalLink { index, directory, library_file, view_file } => {
            assert_eq!(index, 0);
            assert_eq!(directory, "/view");
            assert_eq!(library_file, "/lib/x.mp3");
            assert_eq!(view_file, "/view/x.mp3");
        }
        other => panic!("unexpected {:?}", other),
    }
    assert!(matches!(w.step(LinkEvent::Linked), LinkAction::Finished));
}

#[test]
fn empty_walk_finishes_at_once() {
    let mut w = LinkWalker::new(LinkMode::RemoteView, "/lib/", "/view/", vec![]);
    assert!(matches!(w.step(LinkEvent::Begin), LinkAction::Finished));
}

#[test]
fn missing_links_walk_aborts_on_bad_uri() {
    let mut w = LinkWalker::new(LinkMode::MissingLinks, "/mnt/storage1/music/library", "/v", uris(&["file:///mnt/storage1/music/library/A/a.mp3", "file:///x"]));
    match w.step(LinkEvent::Begin) {
        LinkAction::RemoteCheck { index, command } => {
            assert_eq!(index, 0);
            assert_eq!(command, "ls -1 \"/v/A/a.mp3\"");
        }
        other => panic!("unexpected {:?}", other),
    }
    assert!(matches!(w.step(LinkEvent::RemoteStatus(0)), LinkAction::Abort { index: 1 }));
}

#[test]
fn link_without_parent_aborts() {
    // With an empty view root and entry "/", the view file "/" has no parent.
    let mut w = LinkWalker::new(LinkMode::RemoteView, "/lib", "", uris(&["/"]));
    assert!(matches!(w.step(LinkEvent::Begin), LinkAction::RemoteCheck { index: 0, .. }));
    assert!(matches!(w.step(LinkEvent::RemoteStatus(1)), LinkAction::Abort { index: 0 }));
}
