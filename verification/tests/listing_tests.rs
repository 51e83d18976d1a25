use musicland::listing::{parse_playlist_listing, playlist_listing_command};

#[test]
fn listing_command_lists_the_playlist_directory() {
    assert_eq!(playlist_listing_command(), "ls -1 /data/playlist");
}

#[test]
fn listing_reads_one_name_per_line() {
    assert_eq!(parse_playlist_listing("Jazz\nRock\nChill out\n"), vec!["Jazz", "Rock", "Chill out"]);
}

#[test]
fn listing_of_empty_output_is_empty() {
    assert!(parse_playlist_listing("").is_empty());
}

#[test]
fn listing_without_final_newline_keeps_last_name() {
    assert_eq!(parse_playlist_listing("a\nb"), vec!["a", "b"]);
}

#[test]
fn listing_drops_carriage_return_before_newline() {
    assert_eq!(parse_playlist_listing("foo\r\nbar\n\nbaz\r"), vec!["foo", "bar", "", "baz\r"]);
}

#[test]
fn listing_keeps_empty_lines() {
    assert_eq!(parse_playlist_listing("\n\n"), vec!["", ""]);
}

#[test]
fn listing_agrees_with_str_lines() {
    let samples = ["x", "x\n", "\r\n", "a\rb\n", "é\nü\r\n€", "\n", "line one\nline two\r\n\r"];
    for s in samples {
        let expected: Vec<String> = s.lines().map(|l| l.to_string()).collect();
        assert_eq!(parse_playlist_listing(s), expected, "on {:?}", s);
    }
}

#[test]
fn listing_round_trip_of_names() {
    let names = vec!["Best of", "Ümlaut", "", "x y z"];
    let mut text = String::new();
    for n in &names {
        text.push_str(n);
        text.push('\n');
    }
    assert_eq!(parse_playlist_listing(&text), names);
}
