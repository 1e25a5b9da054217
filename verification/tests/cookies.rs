use jtalk::cookies::{cookie_entries, cookie_file_content};
use jtalk::jtalk::JTalk;

#[test]
fn header_is_laid_out_one_cookie_a_line() {
    assert_eq!(cookie_file_content("a=1; b=2; c=3"), Some("a=1;\nb=2;\nc=3".to_string()));
    assert_eq!(cookie_file_content("a=1"), Some("a=1".to_string()));
    assert_eq!(cookie_file_content(" "), Some("\n".to_string()));
}

#[test]
fn empty_header_gives_nothing_to_write() {
    assert_eq!(cookie_file_content(""), None);
}

#[test]
fn cookie_text_is_cut_at_line_breaks() {
    assert_eq!(cookie_entries("a=1;\nb=2;\nc=3"), vec!["a=1;", "b=2;", "c=3"]);
    assert_eq!(cookie_entries("a=1"), vec!["a=1"]);
    assert_eq!(cookie_entries(""), vec![""]);
    assert_eq!(cookie_entries("a\n"), vec!["a", ""]);
    assert_eq!(cookie_entries("\n\n"), vec!["", "", ""]);
}

#[test]
fn entries_joined_give_the_text_back() {
    for text in ["a=1;\nb=2", "", "\n", "x\n\ny\n", "セッション=あ\nb=2"] {
        let entries = cookie_entries(text);
        assert!(entries.len() >= 1);
        assert!(entries.iter().all(|e| !e.contains('\n')));
        assert_eq!(entries.join("\n"), text);
    }
}

#[test]
fn what_is_written_is_read_back_cookie_by_cookie() {
    let content = cookie_file_content("a=1; b=2").unwrap();
    assert_eq!(cookie_entries(&content), vec!["a=1;", "b=2"]);
}

#[test]
fn session_cuts_cookie_text_the_same_way() {
    let session = JTalk::new();
    assert_eq!(session.load_cookies("a=1;\nb=2".to_string()), vec!["a=1;", "b=2"]);
    assert_eq!(session.set_cookies("a=1;\nb=2".to_string()), vec!["a=1;", "b=2"]);
}
