use jtalk::policy::{is_terminal, redirect_decision, RedirectDecision, FOUND, SERVICE_HOST};

fn path(segments: &[&str]) -> Vec<String> {
    segments.iter().map(|s| s.to_string()).collect()
}

#[test]
fn convert_redirect_after_a_hop_stops() {
    assert_eq!(
        redirect_decision(Some("j-talk.com"), &path(&["convert"]), 1, 302),
        RedirectDecision::Stop
    );
    assert_eq!(
        redirect_decision(Some("j-talk.com"), &path(&["convert"]), 5, 302),
        RedirectDecision::Stop
    );
}

#[test]
fn convert_redirect_on_first_hop_follows() {
    assert_eq!(
        redirect_decision(Some("j-talk.com"), &path(&["convert"]), 0, 302),
        RedirectDecision::Follow
    );
}

#[test]
fn every_terminal_page_stops() {
    for page in ["contact", "convert", "logout", "register"] {
        assert!(is_terminal(page));
        assert_eq!(
            redirect_decision(Some(SERVICE_HOST), &path(&[page]), 2, FOUND),
            RedirectDecision::Stop
        );
    }
}

#[test]
fn other_pages_follow() {
    for page in ["login", "", "Convert", "convert ", "abc123"] {
        assert!(!is_terminal(page));
        assert_eq!(
            redirect_decision(Some("j-talk.com"), &path(&[page]), 1, 302),
            RedirectDecision::Follow
        );
    }
}

#[test]
fn longer_or_empty_paths_follow() {
    assert_eq!(
        redirect_decision(Some("j-talk.com"), &path(&["convert", "x"]), 1, 302),
        RedirectDecision::Follow
    );
    assert_eq!(
        redirect_decision(Some("j-talk.com"), &path(&["abc", "raw"]), 1, 302),
        RedirectDecision::Follow
    );
    assert_eq!(redirect_decision(Some("j-talk.com"), &path(&[]), 1, 302), RedirectDecision::Follow);
}

#[test]
fn other_hosts_follow() {
    assert_eq!(
        redirect_decision(Some("example.com"), &path(&["convert"]), 1, 302),
        RedirectDecision::Follow
    );
    assert_eq!(
        redirect_decision(Some("www.j-talk.com"), &path(&["convert"]), 1, 302),
        RedirectDecision::Follow
    );
    assert_eq!(redirect_decision(None, &path(&["convert"]), 1, 302), RedirectDecision::Follow);
}

#[test]
fn other_statuses_follow() {
    for status in [301u16, 303, 307, 308, 200] {
        assert_eq!(
            redirect_decision(Some("j-talk.com"), &path(&["convert"]), 1, status),
            RedirectDecision::Follow
        );
    }
}
