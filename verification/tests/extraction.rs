use jtalk::error::Error;
use jtalk::extract::{
    assemble, extract_segments, isolate_region, normalize, read_block_match, scan_blocks,
    split_match, BlockMatch,
};
use jtalk::jtalk::get_result;
use jtalk::pattern::{find_all, find_first, replace_matches};
use jtalk::segment::{split_block, Segment};

fn plain(text: &str) -> Segment {
    Segment { text: text.to_string(), reading: None }
}

fn annotated(text: &str, reading: &str) -> Segment {
    Segment { text: text.to_string(), reading: Some(reading.to_string()) }
}

fn page_of(region: &str) -> String {
    format!("<html><body>\n<p>### BRACKETS{}</body></html>\n", region)
}

fn joined_text(segments: &Vec<Segment>) -> String {
    let mut out = String::new();
    for s in segments {
        out.push_str(&s.text);
    }
    out
}

#[test]
fn annotated_run_without_prefix() {
    let expected = vec![annotated("東京", "とうきょう")];
    assert_eq!(extract_segments("東京[とうきょう]"), Ok(expected.clone()));
    assert_eq!(get_result(&page_of("東京[とうきょう]")), Ok(expected));
}

#[test]
fn plain_prefix_then_annotated_run() {
    let expected = vec![plain("これは"), annotated("東京", "とうきょう")];
    assert_eq!(extract_segments("これは東京[とうきょう]"), Ok(expected.clone()));
    assert_eq!(get_result(&page_of("これは東京[とうきょう]")), Ok(expected));
}

#[test]
fn block_without_bracket() {
    let expected = vec![plain("こんにちは")];
    assert_eq!(extract_segments("こんにちは"), Ok(expected.clone()));
    assert_eq!(get_result(&page_of("こんにちは")), Ok(expected));
}

#[test]
fn adjacent_annotated_runs() {
    let expected = vec![annotated("日", "ひ"), annotated("本", "ほん")];
    let segments = extract_segments("日[ひ]本[ほん]").unwrap();
    assert_eq!(segments, expected);
    assert!(segments.iter().all(|s| !s.text.is_empty()));
    assert_eq!(get_result(&page_of("日[ひ]本[ほん]")), Ok(expected));
}

#[test]
fn sentence_with_several_blocks() {
    let segments = extract_segments("私[わたし]は東京[とうきょう]に行[い]きます。").unwrap();
    assert_eq!(
        segments,
        vec![
            annotated("私", "わたし"),
            plain("は"),
            annotated("東京", "とうきょう"),
            plain("に"),
            annotated("行", "い"),
            plain("きます。"),
        ]
    );
    assert_eq!(joined_text(&segments), "私は東京に行きます。");
}

#[test]
fn annotated_run_starts_at_first_han_character() {
    assert_eq!(extract_segments("食べ物[たべもの]"), Ok(vec![annotated("食べ物", "たべもの")]));
    assert_eq!(
        extract_segments("お金[かね]を払う[はらう]"),
        Ok(vec![plain("お"), annotated("金", "かね"), plain("を"), annotated("払う", "はらう")])
    );
}

#[test]
fn bracket_without_reading_opens_no_block() {
    assert_eq!(extract_segments("a[b]c"), Ok(vec![plain("a"), plain("b"), plain("]c")]));
}

#[test]
fn empty_region_gives_no_segment() {
    assert_eq!(extract_segments(""), Ok(vec![]));
}

#[test]
fn get_result_strips_line_breaks() {
    let page = "<body>### BRACKETSこれ\nは<br>東京[とう\nきょう]<br></body>";
    assert_eq!(get_result(page), Ok(vec![plain("これは"), annotated("東京", "とうきょう")]));
}

#[test]
fn get_result_without_marker() {
    assert_eq!(get_result("<html><body>Please log in</body></html>"), Err(Error::RegionNotFound));
    assert_eq!(get_result(""), Err(Error::RegionNotFound));
}

#[test]
fn normalize_removes_breaks_of_both_kinds() {
    assert_eq!(normalize("a\nb<br>c\n\n<br><br>d"), Ok("abcd".to_string()));
    assert_eq!(normalize("no break"), Ok("no break".to_string()));
    assert_eq!(normalize("<BR> stays, <br/> stays"), Ok("<BR> stays, <br/> stays".to_string()));
}

#[test]
fn isolate_region_cuts_between_marker_and_end() {
    assert_eq!(isolate_region("<body>### BRACKETSabc</body>"), Ok("abc".to_string()));
    assert_eq!(isolate_region("###\tBRACKETSx</body>y</body>z"), Ok("x</body>y".to_string()));
}

#[test]
fn isolate_region_needs_marker_content_and_end() {
    assert_eq!(isolate_region("### BRACKETS</body>"), Err(Error::RegionNotFound));
    assert_eq!(isolate_region("### BRACKETSabc"), Err(Error::RegionNotFound));
    assert_eq!(isolate_region("###BRACKETSabc</body>"), Err(Error::RegionNotFound));
}

#[test]
fn scan_blocks_names_block_bottom_and_reading() {
    assert_eq!(
        scan_blocks("これは東京[とうきょう]"),
        Ok(vec![BlockMatch {
            block: "これは東京".to_string(),
            bottom: Some("東京".to_string()),
            reading: Some("とうきょう".to_string()),
        }])
    );
    assert_eq!(
        scan_blocks("こんにちは"),
        Ok(vec![BlockMatch { block: "こんにちは".to_string(), bottom: None, reading: None }])
    );
}

#[test]
fn read_block_match_picks_groups_by_index() {
    let groups = vec![
        Some("ab[c]".to_string()),
        Some("ab[c]".to_string()),
        Some("ab".to_string()),
        Some("b".to_string()),
        Some("[c]".to_string()),
        Some("c".to_string()),
    ];
    assert_eq!(
        read_block_match(&groups),
        BlockMatch {
            block: "ab".to_string(),
            bottom: Some("b".to_string()),
            reading: Some("c".to_string()),
        }
    );
    let short = vec![Some("x".to_string())];
    assert_eq!(read_block_match(&short), BlockMatch { block: String::new(), bottom: None, reading: None });
    let absent = vec![Some("x".to_string()), None, None, None, None, None];
    assert_eq!(read_block_match(&absent), BlockMatch { block: String::new(), bottom: None, reading: None });
}

#[test]
fn split_block_counts_characters_not_bytes() {
    assert_eq!(
        split_block("これは東京", 2, Some("とうきょう")),
        Ok(vec![plain("これは"), annotated("東京", "とうきょう")])
    );
}

#[test]
fn split_block_whole_block_annotated() {
    assert_eq!(split_block("東京", 2, Some("とうきょう")), Ok(vec![annotated("東京", "とうきょう")]));
    assert_eq!(split_block("東京", 2, None), Ok(vec![plain("東京")]));
}

#[test]
fn split_block_nothing_annotated() {
    assert_eq!(split_block("abc", 0, None), Ok(vec![plain("abc")]));
    assert_eq!(split_block("abc", 0, Some("x")), Ok(vec![plain("abc")]));
}

#[test]
fn split_block_empty_block() {
    assert_eq!(split_block("", 0, None), Ok(vec![]));
    assert_eq!(split_block("", 0, Some("x")), Ok(vec![]));
}

#[test]
fn split_block_rejects_longer_bottom() {
    assert_eq!(split_block("ab", 3, None), Err(Error::SegmentationInvariantViolated));
    assert_eq!(split_block("", 1, Some("x")), Err(Error::SegmentationInvariantViolated));
    assert_eq!(split_block("東京", 3, None), Err(Error::SegmentationInvariantViolated));
}

#[test]
fn split_match_uses_length_of_bottom() {
    let m = BlockMatch {
        block: "お茶".to_string(),
        bottom: Some("茶".to_string()),
        reading: Some("ちゃ".to_string()),
    };
    assert_eq!(split_match(&m), Ok(vec![plain("お"), annotated("茶", "ちゃ")]));
    let malformed = BlockMatch { block: "茶".to_string(), bottom: Some("お茶".to_string()), reading: None };
    assert_eq!(split_match(&malformed), Err(Error::SegmentationInvariantViolated));
}

#[test]
fn assemble_keeps_order_and_text() {
    let matches = vec![
        BlockMatch { block: "これは東京".to_string(), bottom: Some("東京".to_string()), reading: Some("とうきょう".to_string()) },
        BlockMatch { block: String::new(), bottom: None, reading: None },
        BlockMatch { block: "です".to_string(), bottom: None, reading: None },
    ];
    let segments = assemble(&matches).unwrap();
    assert_eq!(segments, vec![plain("これは"), annotated("東京", "とうきょう"), plain("です")]);
    assert_eq!(joined_text(&segments), "これは東京です");
    assert!(segments.iter().all(|s| !s.text.is_empty()));
}

#[test]
fn assemble_hands_out_nothing_when_a_match_is_malformed() {
    let good = BlockMatch { block: "あ".to_string(), bottom: None, reading: None };
    let bad = BlockMatch { block: "あ".to_string(), bottom: Some("ああ".to_string()), reading: None };
    assert_eq!(assemble(&vec![good.clone(), bad.clone()]), Err(Error::SegmentationInvariantViolated));
    assert_eq!(assemble(&vec![bad, good]), Err(Error::SegmentationInvariantViolated));
    assert_eq!(assemble(&vec![]), Ok(vec![]));
}

#[test]
fn replace_matches_replaces_every_match() {
    assert_eq!(replace_matches("a+", "caab a", "x"), Ok("cxb x".to_string()));
    assert_eq!(replace_matches("z", "caab", "x"), Ok("caab".to_string()));
}

#[test]
fn refused_pattern_is_an_error() {
    assert_eq!(replace_matches("(", "text", ""), Err(Error::PatternRejected));
    assert_eq!(find_first("(", "text"), Err(Error::PatternRejected));
    assert_eq!(find_all("[", "text"), Err(Error::PatternRejected));
}

#[test]
fn find_first_hands_out_every_group() {
    assert_eq!(
        find_first("(a)(b)?(c)", "xxacx"),
        Ok(Some(vec![Some("ac".to_string()), Some("a".to_string()), None, Some("c".to_string())]))
    );
    assert_eq!(find_first("(a)(b)?(c)", "bbb"), Ok(None));
}

#[test]
fn find_all_hands_out_successive_matches() {
    assert_eq!(
        find_all("(\\d)(x)?", "1x2"),
        Ok(vec![
            vec![Some("1x".to_string()), Some("1".to_string()), Some("x".to_string())],
            vec![Some("2".to_string()), Some("2".to_string()), None],
        ])
    );
    assert_eq!(find_all("a", "bbb"), Ok(vec![]));
}
