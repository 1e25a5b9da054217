use crate::error::Error;
use crate::text::{slice_view, text_view};
use vstd::prelude::*;
use vstd::string::*;

verus! {

/// A run of the submitted text, with its phonetic reading where the service
/// annotated the run.
#[derive(Clone, Debug, PartialEq, Eq)]
pub struct Segment {
    pub text: String,
    pub reading: Option<String>,
}

/// What a `Segment` holds, as sequences of characters.
pub ghost struct SegmentView {
    pub text: Seq<char>,
    pub reading: Option<Seq<char>>,
}

impl View for Segment {
    type V = SegmentView;

    open spec fn view(&self) -> SegmentView {
        SegmentView { text: self.text@, reading: text_view(self.reading) }
    }
}

/// The views of a vector of segments, in order.
pub open spec fn segment_views(v: Seq<Segment>) -> Seq<SegmentView> {
    v.map_values(|s: Segment| s@)
}

/// The segments that one block gives. The last `bottom_len` characters of
/// the block are the annotated run and carry the reading; what stands before
/// them is plain text. Neither part is handed out when it is empty.
pub open spec fn split_block_spec(
    block: Seq<char>,
    bottom_len: nat,
    reading: Option<Seq<char>>,
) -> Seq<SegmentView>
    recommends
        bottom_len <= block.len(),
{
    let d = block.len() - bottom_len;
    let plain = if d != 0 {
        seq![SegmentView { text: block.subrange(0, d), reading: None }]
    } else {
        seq![]
    };
    let annotated = if d != block.len() {
        seq![SegmentView { text: block.subrange(d, block.len() as int), reading: reading }]
    } else {
        seq![]
    };
    plain + annotated
}

/// The texts of the segments, one after the other.
pub open spec fn joined_text(segments: Seq<SegmentView>) -> Seq<char>
    decreases segments.len(),
{
    if segments.len() == 0 {
        Seq::empty()
    } else {
        joined_text(segments.drop_last()) + segments.last().text
    }
}

/// Splits one block at the start of its annotated run, which is `bottom_len`
/// characters long and ends the block. Lengths are counted in characters,
/// not in bytes.
pub fn split_block(block: &str, bottom_len: usize, reading: Option<&str>) -> (r: Result<
    Vec<Segment>,
    Error,
>)
    ensures
        bottom_len > block@.len() ==> r == Err::<Vec<Segment>, Error>(
            Error::SegmentationInvariantViolated,
        ),
        bottom_len <= block@.len() ==> r is Ok && segment_views(r->Ok_0@) == split_block_spec(
            block@,
            bottom_len as nat,
            slice_view(reading),
        ),
{
    let block_len = block.unicode_len();
    if block_len < bottom_len {
        return Err(Error::SegmentationInvariantViolated);
    }
    let d = block_len - bottom_len;
    let mut out: Vec<Segment> = Vec::new();
    if d != 0 {
        out.push(Segment { text: block.substring_char(0, d).to_owned(), reading: None });
    }
    if d != block_len {
        let annotation = match reading {
            Some(t) => Some(t.to_owned()),
            None => None,
        };
        let text = block.substring_char(d, block_len).to_owned();
        out.push(Segment { text, reading: annotation });
    }
    Ok(out)
}

/// Splitting loses nothing: the texts of the segments of a block, one after
/// the other, are the block. There are at most two of them, none is empty,
/// and only the last can carry a reading.
pub proof fn lemma_split_block_keeps_text(
    block: Seq<char>,
    bottom_len: nat,
    reading: Option<Seq<char>>,
)
    requires
        bottom_len <= block.len(),
    ensures
        joined_text(split_block_spec(block, bottom_len, reading)) == block,
        split_block_spec(block, bottom_len, reading).len() <= 2,
        forall|i: int|
            0 <= i < split_block_spec(block, bottom_len, reading).len() ==> (
            #[trigger] split_block_spec(block, bottom_len, reading)[i]).text.len() > 0,
        forall|i: int|
            0 <= i < split_block_spec(block, bottom_len, reading).len() - 1 ==> (
            #[trigger] split_block_spec(block, bottom_len, reading)[i]).reading is None,
{
    let d = block.len() - bottom_len;
    let segments = split_block_spec(block, bottom_len, reading);
    reveal_with_fuel(joined_text, 3);
    assert(block.subrange(0, d) + block.subrange(d, block.len() as int) =~= block);
    assert(joined_text(segments) =~= block);
}

/// The joined text of two runs of segments is the joined text of the first
/// followed by that of the second.
pub proof fn lemma_joined_text_concat(a: Seq<SegmentView>, b: Seq<SegmentView>)
    ensures
        joined_text(a + b) == joined_text(a) + joined_text(b),
    decreases b.len(),
{
    if b.len() == 0 {
        assert(a + b =~= a);
    } else {
        assert((a + b).drop_last() =~= a + b.drop_last());
        lemma_joined_text_concat(a, b.drop_last());
    }
}

} // verus!
