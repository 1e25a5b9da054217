use jtalk::error::Error;
use jtalk::location::result_id;
use jtalk::markup::{read_selection, read_session_page, select, single_token};

#[test]
fn select_hands_out_attribute_of_each_match() {
    let html = r#"<p class="a" id="one">x</p><div><p id="two">y</p></div><span class="a">z</span>"#;
    assert_eq!(select(html, "p", "id"), Ok(vec![Some("one".to_string()), Some("two".to_string())]));
    assert_eq!(select(html, ".a", "id"), Ok(vec![Some("one".to_string()), None]));
    assert_eq!(select(html, "table", "id"), Ok(vec![]));
}

#[test]
fn refused_selector_is_an_error() {
    assert_eq!(select("<p></p>", "p[", "id"), Err(Error::PatternRejected));
    assert_eq!(select("<p></p>", "", "id"), Err(Error::PatternRejected));
}

#[test]
fn single_token_wants_exactly_one() {
    assert_eq!(single_token(&vec![Some("t".to_string())]), Some("t".to_string()));
    assert_eq!(single_token(&vec![]), None);
    assert_eq!(single_token(&vec![None]), None);
    assert_eq!(single_token(&vec![Some("a".to_string()), Some("b".to_string())]), None);
}

#[test]
fn read_selection_sets_flag_for_one_marker() {
    let tokens = vec![Some("t".to_string())];
    assert_eq!(read_selection(&tokens, 0), Ok(("t".to_string(), false)));
    assert_eq!(read_selection(&tokens, 1), Ok(("t".to_string(), true)));
    assert_eq!(read_selection(&tokens, 2), Ok(("t".to_string(), false)));
    assert_eq!(read_selection(&vec![], 1), Err(Error::ProtocolMismatch));
    assert_eq!(read_selection(&vec![None], 1), Err(Error::ProtocolMismatch));
}

#[test]
fn session_page_is_read() {
    let page = r#"<html><head><meta name="viewport" content="w"><meta name="csrf-token" content="s3cr3t"></head><body><i class="fa fa-rocket"></i></body></html>"#;
    assert_eq!(read_session_page(page), Ok(("s3cr3t".to_string(), true)));
    assert_eq!(read_session_page("plain text"), Err(Error::ProtocolMismatch));
}

#[test]
fn result_id_is_last_path_segment() {
    assert_eq!(result_id(Some("https://j-talk.com/abc123")), Ok("abc123".to_string()));
    assert_eq!(result_id(Some("https://j-talk.com/results/abc123?x=1#top")), Ok("abc123".to_string()));
    assert_eq!(result_id(Some("https://j-talk.com/abc123/")), Ok("".to_string()));
    assert_eq!(result_id(Some("https://j-talk.com")), Ok("".to_string()));
}

#[test]
fn result_id_needs_a_url_with_a_path() {
    assert_eq!(result_id(None), Err(Error::MissingRedirect));
    assert_eq!(result_id(Some("/abc123")), Err(Error::MissingRedirect));
    assert_eq!(result_id(Some("")), Err(Error::MissingRedirect));
    assert_eq!(result_id(Some("data:text/plain,abc")), Err(Error::MissingRedirect));
}
