use ani_link::launcher::{contains_substring, default_whitelist, filter_whitelisted, LaunchSession};

fn strings(v: &[&str]) -> Vec<String> {
    v.iter().map(|s| s.to_string()).collect()
}

#[test]
fn substring_search_finds_and_rejects() {
    assert!(contains_substring("https://www.mp4upload.com/embed-x.html", "mp4upload"));
    assert!(!contains_substring("https://example.com/embed-x.html", "mp4upload"));
    assert!(contains_substring("abc", ""));
    assert!(!contains_substring("ab", "abc"));
    assert!(contains_substring("", ""));
}

#[test]
fn whitelist_filter_keeps_known_hosts_in_order() {
    let mirrors = strings(&[
        "https://ok.ru/videoembed/1",
        "https://example.com/watch/2",
        "https://www.mp4upload.com/embed-3.html",
        "https://my.mail.ru/video/4",
    ]);
    let viewable = filter_whitelisted(&mirrors, &default_whitelist());
    assert_eq!(viewable.len(), 3);
    assert_eq!(viewable[0], "https://ok.ru/videoembed/1");
    assert_eq!(viewable[1], "https://www.mp4upload.com/embed-3.html");
    assert_eq!(viewable[2], "https://my.mail.ru/video/4");
}

#[test]
fn launch_stops_at_first_success() {
    // of three mirrors only the second succeeds: the third is never
    // handed out, and the session reports success
    let mut session = LaunchSession::new(strings(&["m1", "m2", "m3"]));
    let first = session.next_attempt().cloned();
    assert_eq!(first.as_deref(), Some("m1"));
    session.record(false);
    let second = session.next_attempt().cloned();
    assert_eq!(second.as_deref(), Some("m2"));
    session.record(true);
    assert_eq!(session.finished(), Some(true));
    assert!(session.next_attempt().is_none());
}

#[test]
fn launch_fails_after_every_mirror_fails() {
    let mut session = LaunchSession::new(strings(&["m1", "m2"]));
    session.record(false);
    assert_eq!(session.finished(), None);
    session.record(false);
    assert_eq!(session.finished(), Some(false));
    assert!(session.next_attempt().is_none());
}

#[test]
fn empty_whitelisted_set_fails_without_any_attempt() {
    // nothing survives the whitelist: failure before any process spawns
    let mirrors = strings(&["https://example.com/a", "https://elsewhere.net/b"]);
    let viewable = filter_whitelisted(&mirrors, &default_whitelist());
    assert_eq!(viewable.len(), 0);
    let session = LaunchSession::new(viewable);
    assert!(session.next_attempt().is_none());
    assert_eq!(session.finished(), Some(false));
}
