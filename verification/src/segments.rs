//! Assembly of the engine's segments into the final text.

use vstd::prelude::*;

verus! {

/// The text that a segment contributes: its own where the engine has one for
/// that index, nothing where it has none.
pub open spec fn segment_text(segment: Option<Seq<char>>) -> Seq<char> {
    match segment {
        Some(text) => text,
        None => Seq::empty(),
    }
}

/// The segments' texts put together in index order, with nothing between
/// them; an index without text is skipped.
pub open spec fn joined(segments: Seq<Option<Seq<char>>>) -> Seq<char> {
    segments.map_values(|segment: Option<Seq<char>>| segment_text(segment)).flatten()
}

/// Concatenates the texts of the segments in index order into one string.
pub fn join_segments(segments: &Vec<Option<String>>) -> (text: String)
    ensures
        text@ == joined(segments.deep_view()),
{
    let ghost texts = segments.deep_view().map_values(
        |segment: Option<Seq<char>>| segment_text(segment),
    );
    let mut text = String::new();
    let mut i: usize = 0;
    assert(texts.take(0) =~= Seq::<Seq<char>>::empty());
    while i < segments.len()
        invariant
            i <= segments.len(),
            texts == segments.deep_view().map_values(
                |segment: Option<Seq<char>>| segment_text(segment),
            ),
            text@ == texts.take(i as int).flatten(),
        decreases segments.len() - i,
    {
        proof {
            assert(texts.take(i + 1) =~= texts.take(i as int).push(texts[i as int]));
            texts.take(i as int).lemma_flatten_push(texts[i as int]);
        }
        match &segments[i] {
            Some(segment) => {
                text.append(segment.as_str());
            },
            None => {
                assert(text@ + Seq::<char>::empty() =~= text@);
            },
        }
        i += 1;
    }
    assert(texts.take(i as int) =~= texts);
    text
}

/// Joining keeps the order of the segments and puts nothing between them: the
/// text of two runs of segments, one after the other, is the text of the
/// first followed by the text of the second.
pub proof fn joined_concat(first: Seq<Option<Seq<char>>>, second: Seq<Option<Seq<char>>>)
    ensures
        joined(first + second) == joined(first) + joined(second),
{
    let text = |segment: Option<Seq<char>>| segment_text(segment);
    assert((first + second).map_values(text) =~= first.map_values(text) + second.map_values(text));
    vstd::seq_lib::lemma_flatten_concat(first.map_values(text), second.map_values(text));
}

/// An index for which the engine has no text leaves the result as it is.
pub proof fn joined_skips_gap(before: Seq<Option<Seq<char>>>, after: Seq<Option<Seq<char>>>)
    ensures
        joined(before + seq![None::<Seq<char>>] + after) == joined(before + after),
{
    let gap = seq![None::<Seq<char>>];
    joined_concat(before + gap, after);
    joined_concat(before, gap);
    joined_concat(before, after);
    assert(joined(gap) =~= Seq::<char>::empty()) by {
        let text = |segment: Option<Seq<char>>| segment_text(segment);
        assert(gap.map_values(text) =~= seq![Seq::<char>::empty()]);
        gap.map_values(text).lemma_flatten_singleton();
    }
    assert(joined(before) + Seq::<char>::empty() =~= joined(before));
}

/// A single segment with text yields exactly that text, and no segments at
/// all yield the empty text.
pub proof fn joined_small(text: Seq<char>)
    ensures
        joined(Seq::empty()) == Seq::<char>::empty(),
        joined(seq![Some(text)]) == text,
{
    let f = |segment: Option<Seq<char>>| segment_text(segment);
    assert(Seq::<Option<Seq<char>>>::empty().map_values(f) =~= Seq::<Seq<char>>::empty());
    assert(seq![Some(text)].map_values(f) =~= seq![text]);
    seq![Some(text)].map_values(f).lemma_flatten_singleton();
}

} // verus!
