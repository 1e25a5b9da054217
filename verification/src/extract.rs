use crate::error::Error;
use crate::pattern::{all_matches, find_all, find_first, first_match, replace_matches, replaced};
use crate::segment::{
    joined_text, lemma_joined_text_concat, lemma_split_block_keeps_text, segment_views, split_block,
    split_block_spec, Segment, SegmentView,
};
use crate::text::{as_slice, text_result_view, text_view};
use vstd::prelude::*;
use vstd::string::*;

verus! {

/// Line breaks, literal and as markup: formatting noise of the result page.
pub const NOISE_PATTERN: &'static str = r"\n|<br>";

/// The marker that opens the content region, the region, and the end of the
/// page. Group 1 is the region.
pub const REGION_PATTERN: &'static str = r"###\sBRACKETS(.+)</body>";

/// One block of the region, with the bracketed reading that may follow it.
/// Group 2 (`blk`) is the block, group 3 (`bot`) the annotated run that ends
/// it, group 5 (`top`) the reading between the brackets.
pub const BLOCK_PATTERN: &'static str =
    r"((?P<blk>[^\[|\]｜\p{Han}]{0,}(?P<bot>[^\[]{1,})?)(\[(?P<top>[\p{Hiragana}|\p{Han}]+)\])?)";

/// The group of the region pattern that holds the region.
pub const REGION_GROUP: usize = 1;

/// The group of the block pattern that holds the block.
pub const BLOCK_GROUP: usize = 2;

/// The group of the block pattern that holds the annotated run.
pub const BOTTOM_GROUP: usize = 3;

/// The group of the block pattern that holds the reading.
pub const READING_GROUP: usize = 5;

/// One match of the block pattern: the block, the annotated run at its end
/// where there is one, and the reading where brackets followed.
#[derive(Clone, Debug, PartialEq, Eq)]
pub struct BlockMatch {
    pub block: String,
    pub bottom: Option<String>,
    pub reading: Option<String>,
}

/// What a `BlockMatch` holds, as sequences of characters.
pub ghost struct BlockMatchView {
    pub block: Seq<char>,
    pub bottom: Option<Seq<char>>,
    pub reading: Option<Seq<char>>,
}

impl View for BlockMatch {
    type V = BlockMatchView;

    open spec fn view(&self) -> BlockMatchView {
        BlockMatchView {
            block: self.block@,
            bottom: text_view(self.bottom),
            reading: text_view(self.reading),
        }
    }
}

/// The views of a vector of block matches, in order.
pub open spec fn block_match_views(v: Seq<BlockMatch>) -> Seq<BlockMatchView> {
    v.map_values(|m: BlockMatch| m@)
}

/// What the group with the given index holds: nothing where the pattern has
/// no such group or the group took no part in the match.
pub open spec fn group_text(groups: Seq<Option<Seq<char>>>, index: int) -> Option<Seq<char>> {
    if 0 <= index < groups.len() {
        groups[index]
    } else {
        None
    }
}

/// The block match that the groups of one match of the block pattern stand
/// for. A block that took no part in the match is empty.
pub open spec fn block_match_of(groups: Seq<Option<Seq<char>>>) -> BlockMatchView {
    BlockMatchView {
        block: match group_text(groups, BLOCK_GROUP as int) {
            Some(t) => t,
            None => Seq::empty(),
        },
        bottom: group_text(groups, BOTTOM_GROUP as int),
        reading: group_text(groups, READING_GROUP as int),
    }
}

/// The number of characters of the annotated run: none where no run was
/// captured.
pub open spec fn bottom_len(m: BlockMatchView) -> nat {
    match m.bottom {
        Some(b) => b.len(),
        None => 0,
    }
}

/// Whether the block is at least as long as the annotated run found in it.
pub open spec fn well_formed(m: BlockMatchView) -> bool {
    bottom_len(m) <= m.block.len()
}

/// The segments of one block match, or the error where the match is not
/// well formed.
pub open spec fn match_segments(m: BlockMatchView) -> Result<Seq<SegmentView>, Error> {
    if well_formed(m) {
        Ok(split_block_spec(m.block, bottom_len(m), m.reading))
    } else {
        Err(Error::SegmentationInvariantViolated)
    }
}

/// The blocks of the matches, one after the other.
pub open spec fn joined_blocks(matches: Seq<BlockMatchView>) -> Seq<char>
    decreases matches.len(),
{
    if matches.len() == 0 {
        Seq::empty()
    } else {
        joined_blocks(matches.drop_last()) + matches.last().block
    }
}

/// The segments of the matches, in the order of the matches; an error where
/// any of them gives one.
pub open spec fn assembled(matches: Seq<BlockMatchView>) -> Result<Seq<SegmentView>, Error>
    decreases matches.len(),
{
    if matches.len() == 0 {
        Ok(Seq::empty())
    } else {
        match (assembled(matches.drop_last()), match_segments(matches.last())) {
            (Ok(before), Ok(these)) => Ok(before + these),
            _ => Err(Error::SegmentationInvariantViolated),
        }
    }
}

/// A result of segments, by the views of the segments.
pub open spec fn segments_result_view(r: Result<Vec<Segment>, Error>) -> Result<
    Seq<SegmentView>,
    Error,
> {
    match r {
        Ok(v) => Ok(segment_views(v@)),
        Err(e) => Err(e),
    }
}

/// Splits one block match into its segments.
pub fn split_match(m: &BlockMatch) -> (r: Result<Vec<Segment>, Error>)
    ensures
        segments_result_view(r) == match_segments(m@),
{
    let bottom_len = match &m.bottom {
        Some(b) => b.as_str().unicode_len(),
        None => 0,
    };
    split_block(m.block.as_str(), bottom_len, as_slice(&m.reading))
}

/// Splits every block match and hands out the segments in the order of the
/// matches. No segment is handed out when one of the matches is malformed.
pub fn assemble(matches: &Vec<BlockMatch>) -> (r: Result<Vec<Segment>, Error>)
    ensures
        segments_result_view(r) == assembled(block_match_views(matches@)),
{
    let mut out: Vec<Segment> = Vec::new();
    let mut i: usize = 0;
    proof {
        assert(segment_views(out@) =~= Seq::empty());
    }
    while i < matches.len()
        invariant
            i <= matches.len(),
            assembled(block_match_views(matches@.take(i as int))) == Ok::<Seq<SegmentView>, Error>(
                segment_views(out@),
            ),
        decreases matches.len() - i,
    {
        let ghost before = block_match_views(matches@.take(i as int));
        let ghost now = block_match_views(matches@.take(i + 1));
        proof {
            assert(now.drop_last() =~= before);
        }
        match split_match(&matches[i]) {
            Ok(mut these) => {
                let ghost old_out = out@;
                let ghost added = these@;
                out.append(&mut these);
                proof {
                    assert(segment_views(out@) =~= segment_views(old_out) + segment_views(added));
                }
            },
            Err(e) => {
                proof {
                    assert(block_match_views(matches@).take(i + 1) =~= now);
                    lemma_assembled_prefix_error(block_match_views(matches@), i + 1);
                }
                return Err(e);
            },
        }
        i += 1;
    }
    proof {
        assert(matches@.take(i as int) =~= matches@);
    }
    Ok(out)
}

/// Once a prefix of the matches gives an error, so does the whole.
pub proof fn lemma_assembled_prefix_error(matches: Seq<BlockMatchView>, n: int)
    requires
        0 <= n <= matches.len(),
        assembled(matches.take(n)) is Err,
    ensures
        assembled(matches) == Err::<Seq<SegmentView>, Error>(
            Error::SegmentationInvariantViolated,
        ),
    decreases matches.len(),
{
    if n == matches.len() {
        assert(matches.take(n) =~= matches);
    } else {
        assert(matches.drop_last().take(n) =~= matches.take(n));
        lemma_assembled_prefix_error(matches.drop_last(), n);
    }
}

/// The page without its formatting noise.
pub open spec fn normalized(raw: Seq<char>) -> Result<Seq<char>, Error> {
    replaced(NOISE_PATTERN@, raw, ""@)
}

/// The content region of a normalized page: what stands between the marker
/// and the end of the page. A page without the marker has none.
pub open spec fn region_of(page: Seq<char>) -> Result<Seq<char>, Error> {
    match first_match(REGION_PATTERN@, page) {
        Err(e) => Err(e),
        Ok(None) => Err(Error::RegionNotFound),
        Ok(Some(groups)) => Ok(
            match group_text(groups, REGION_GROUP as int) {
                Some(t) => t,
                None => Seq::empty(),
            },
        ),
    }
}

/// The block matches of a region, in the order in which the block pattern
/// finds them.
pub open spec fn blocks_of(region: Seq<char>) -> Result<Seq<BlockMatchView>, Error> {
    match all_matches(BLOCK_PATTERN@, region) {
        Err(e) => Err(e),
        Ok(found) => Ok(found.map_values(|g: Seq<Option<Seq<char>>>| block_match_of(g))),
    }
}

/// The segments of a region.
pub open spec fn region_segments(region: Seq<char>) -> Result<Seq<SegmentView>, Error> {
    match blocks_of(region) {
        Ok(matches) => assembled(matches),
        Err(e) => Err(e),
    }
}

/// The segments of a result page: the page is normalized, its content
/// region is cut out and the region is split.
pub open spec fn page_segments(page: Seq<char>) -> Result<Seq<SegmentView>, Error> {
    match normalized(page) {
        Err(e) => Err(e),
        Ok(clean) => match region_of(clean) {
            Err(e) => Err(e),
            Ok(region) => region_segments(region),
        },
    }
}

/// Removes every line break from the raw page, the literal ones and those
/// written as markup.
pub fn normalize(raw: &str) -> (r: Result<String, Error>)
    ensures
        text_result_view(r) == normalized(raw@),
{
    replace_matches(NOISE_PATTERN, raw, "")
}

/// Cuts the content region out of a normalized page. A page without the
/// marker has no region.
pub fn isolate_region(page: &str) -> (r: Result<String, Error>)
    ensures
        text_result_view(r) == region_of(page@),
{
    match find_first(REGION_PATTERN, page) {
        Err(e) => Err(e),
        Ok(None) => Err(Error::RegionNotFound),
        Ok(Some(groups)) => match group_at(&groups, REGION_GROUP) {
            Some(t) => Ok(t),
            None => Ok(String::new()),
        },
    }
}

/// What the group with the given index holds, copied out.
fn group_at(groups: &Vec<Option<String>>, index: usize) -> (r: Option<String>)
    ensures
        text_view(r) == group_text(groups.deep_view(), index as int),
{
    if index < groups.len() {
        match &groups[index] {
            Some(t) => Some(t.clone()),
            None => None,
        }
    } else {
        None
    }
}

/// Reads the groups of one match of the block pattern.
pub fn read_block_match(groups: &Vec<Option<String>>) -> (m: BlockMatch)
    ensures
        m@ == block_match_of(groups.deep_view()),
{
    let block = match group_at(groups, BLOCK_GROUP) {
        Some(t) => t,
        None => String::new(),
    };
    BlockMatch {
        block,
        bottom: group_at(groups, BOTTOM_GROUP),
        reading: group_at(groups, READING_GROUP),
    }
}

/// A result of block matches, by the views of the matches.
pub open spec fn blocks_result_view(r: Result<Vec<BlockMatch>, Error>) -> Result<
    Seq<BlockMatchView>,
    Error,
> {
    match r {
        Ok(v) => Ok(block_match_views(v@)),
        Err(e) => Err(e),
    }
}

/// Finds the successive blocks of a region.
pub fn scan_blocks(region: &str) -> (r: Result<Vec<BlockMatch>, Error>)
    ensures
        blocks_result_view(r) == blocks_of(region@),
{
    let found = match find_all(BLOCK_PATTERN, region) {
        Ok(found) => found,
        Err(e) => {
            return Err(e);
        },
    };
    let ghost rows = found.deep_view();
    let mut out: Vec<BlockMatch> = Vec::new();
    let mut i: usize = 0;
    while i < found.len()
        invariant
            i <= found.len(),
            found.deep_view() == rows,
            out@.len() == i,
            forall|j: int| 0 <= j < i ==> (#[trigger] out@[j])@ == block_match_of(rows[j]),
        decreases found.len() - i,
    {
        let m = read_block_match(&found[i]);
        out.push(m);
        i += 1;
    }
    proof {
        assert(block_match_views(out@) =~= rows.map_values(
            |g: Seq<Option<Seq<char>>>| block_match_of(g),
        ));
    }
    Ok(out)
}

/// Turns a content region into its segments: the region is cut into blocks
/// and each block is split at the start of its annotated run.
pub fn extract_segments(region: &str) -> (r: Result<Vec<Segment>, Error>)
    ensures
        segments_result_view(r) == region_segments(region@),
{
    match scan_blocks(region) {
        Ok(matches) => assemble(&matches),
        Err(e) => Err(e),
    }
}

/// Segments are owed exactly when every match is well formed, and the only
/// error of assembling is the violated invariant.
pub proof fn lemma_assembled_ok_iff_well_formed(matches: Seq<BlockMatchView>)
    ensures
        assembled(matches) is Ok <==> forall|i: int|
            0 <= i < matches.len() ==> well_formed(#[trigger] matches[i]),
        assembled(matches) is Err ==> assembled(matches) == Err::<Seq<SegmentView>, Error>(
            Error::SegmentationInvariantViolated,
        ),
    decreases matches.len(),
{
    if matches.len() > 0 {
        lemma_assembled_ok_iff_well_formed(matches.drop_last());
        if assembled(matches) is Ok {
            assert forall|i: int| 0 <= i < matches.len() implies well_formed(
                #[trigger] matches[i],
            ) by {
                if i < matches.len() - 1 {
                    assert(matches.drop_last()[i] == matches[i]);
                }
            }
        }
        if forall|i: int| 0 <= i < matches.len() ==> well_formed(#[trigger] matches[i]) {
            assert forall|i: int| 0 <= i < matches.drop_last().len() implies well_formed(
                #[trigger] matches.drop_last()[i],
            ) by {
                assert(matches.drop_last()[i] == matches[i]);
            }
        }
    }
}

/// Extraction keeps the text: where the matches give segments, the texts of
/// the segments, one after the other, are the blocks of the matches, one
/// after the other. No character is lost, doubled or moved, and no segment
/// is empty.
pub proof fn lemma_assembled_keeps_text(matches: Seq<BlockMatchView>)
    requires
        assembled(matches) is Ok,
    ensures
        joined_text(assembled(matches)->Ok_0) == joined_blocks(matches),
        forall|i: int|
            0 <= i < assembled(matches)->Ok_0.len() ==> (
            #[trigger] assembled(matches)->Ok_0[i]).text.len() > 0,
    decreases matches.len(),
{
    if matches.len() > 0 {
        let before = assembled(matches.drop_last())->Ok_0;
        let m = matches.last();
        let these = split_block_spec(m.block, bottom_len(m), m.reading);
        lemma_assembled_keeps_text(matches.drop_last());
        lemma_split_block_keeps_text(m.block, bottom_len(m), m.reading);
        lemma_joined_text_concat(before, these);
        assert forall|i: int| 0 <= i < (before + these).len() implies (#[trigger] (before
            + these)[i]).text.len() > 0 by {
            if i < before.len() {
                assert((before + these)[i] == before[i]);
            } else {
                assert((before + these)[i] == these[i - before.len()]);
            }
        }
    }
}

/// Extraction keeps the text of a region: where the region gives segments,
/// their texts, one after the other, are the blocks that the block pattern
/// finds in the region, one after the other, and no segment is empty. The
/// brackets and the readings between them belong to no block.
pub proof fn lemma_region_keeps_text(region: Seq<char>)
    requires
        region_segments(region) is Ok,
    ensures
        blocks_of(region) is Ok,
        joined_text(region_segments(region)->Ok_0) == joined_blocks(blocks_of(region)->Ok_0),
        forall|i: int|
            0 <= i < region_segments(region)->Ok_0.len() ==> (
            #[trigger] region_segments(region)->Ok_0[i]).text.len() > 0,
{
    lemma_assembled_keeps_text(blocks_of(region)->Ok_0);
}

} // verus!
