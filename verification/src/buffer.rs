//! The positional text buffer, `string_wizard::MagicString`, and what the
//! renderer relies on from it.

use crate::graph::Span;
use string_wizard::MagicString;
use string_wizard::UpdateOptions;
use vstd::prelude::*;
use vstd::string::StringSliceAdditionalSpecFns;

verus! {

#[verifier::external_type_specification]
#[verifier::external_body]
pub struct ExMagicString<'s>(MagicString<'s>);

/// One edit that a buffer has taken, in coordinates of the original text.
pub enum Edit {
    /// The bytes `start..end` are replaced by `text`. With `clear` set,
    /// text inserted earlier at the edges of the range is dropped too.
    Replace { start: u32, end: u32, text: Seq<char>, clear: bool },
    /// The bytes `start..end` are deleted.
    Remove { start: u32, end: u32 },
    /// `text` is inserted before the byte at `at`.
    Insert { at: u32, text: Seq<char> },
}

/// The text that a buffer was made from.
pub uninterp spec fn buffer_source(m: MagicString<'static>) -> Seq<char>;

/// The edits that a buffer has taken since it was made, oldest first.
pub uninterp spec fn buffer_edits(m: MagicString<'static>) -> Seq<Edit>;

/// The text that `MagicString::to_string` gives for a buffer made from
/// `source` that has taken `edits` in this order.
pub uninterp spec fn rendered(source: Seq<char>, edits: Seq<Edit>) -> Seq<char>;

/// `at` is a byte offset of `text`, its length included, that does not fall
/// inside a character: what `str::is_char_boundary` tests.
pub open spec fn cut_point(text: Seq<char>, at: u32) -> bool {
    vstd::utf8::is_char_boundary(vstd::utf8::encode_utf8(text), at as int)
}

/// `at` lies strictly inside the range of no replacement or removal in `edits`.
pub open spec fn insert_clear(edits: Seq<Edit>, at: u32) -> bool {
    forall|i: int|
        0 <= i < edits.len() ==> match #[trigger] edits[i] {
            Edit::Replace { start, end, .. } => at <= start || end <= at,
            Edit::Remove { start, end } => at <= start || end <= at,
            Edit::Insert { .. } => true,
        }
}

/// `start..end` shares no byte with the range of a replacement or removal in
/// `edits`.
pub open spec fn range_clear(edits: Seq<Edit>, start: u32, end: u32) -> bool {
    forall|i: int|
        0 <= i < edits.len() ==> match #[trigger] edits[i] {
            Edit::Replace { start: s, end: e, .. } => end <= s || e <= start,
            Edit::Remove { start: s, end: e } => end <= s || e <= start,
            Edit::Insert { .. } => true,
        }
}

/// `start..end` is a range of `source` that a buffer with `edits` can still
/// replace or remove.
pub open spec fn range_free(source: Seq<char>, edits: Seq<Edit>, start: u32, end: u32) -> bool {
    &&& start < end
    &&& cut_point(source, start)
    &&& cut_point(source, end)
    &&& range_clear(edits, start, end)
}

/// `at` is a position of `source` at which a buffer with `edits` can still
/// insert.
pub open spec fn position_free(source: Seq<char>, edits: Seq<Edit>, at: u32) -> bool {
    &&& cut_point(source, at)
    &&& insert_clear(edits, at)
}

/// The range that an edit replaces or removes.
pub open spec fn edit_span(edit: Edit) -> Option<Span> {
    match edit {
        Edit::Replace { start, end, .. } => Some(Span { start, end }),
        Edit::Remove { start, end } => Some(Span { start, end }),
        Edit::Insert { .. } => None,
    }
}

/// The ranges that `edits` replace or remove, in their order.
pub open spec fn spans_of(edits: Seq<Edit>) -> Seq<Span>
    decreases edits.len(),
{
    if edits.len() == 0 {
        Seq::empty()
    } else {
        match edit_span(edits.last()) {
            Some(span) => spans_of(edits.drop_last()).push(span),
            None => spans_of(edits.drop_last()),
        }
    }
}

/// `start..end` shares no byte with any of `spans`.
pub open spec fn range_misses(spans: Seq<Span>, start: u32, end: u32) -> bool {
    forall|i: int| 0 <= i < spans.len() ==> end <= (#[trigger] spans[i]).start || spans[i].end <= start
}

/// `at` lies strictly inside none of `spans`.
pub open spec fn position_misses(spans: Seq<Span>, at: u32) -> bool {
    forall|i: int| 0 <= i < spans.len() ==> at <= (#[trigger] spans[i]).start || spans[i].end <= at
}

/// The ranges of one more edit.
pub proof fn lemma_spans_of_push(edits: Seq<Edit>, edit: Edit)
    ensures
        spans_of(edits.push(edit)) == match edit_span(edit) {
            Some(span) => spans_of(edits).push(span),
            None => spans_of(edits),
        },
{
    assert(edits.push(edit).drop_last() =~= edits);
    assert(edits.push(edit).last() == edit);
}

/// A range or a position is clear of edits exactly if it misses their
/// ranges.
pub proof fn lemma_clear_is_missing(edits: Seq<Edit>, start: u32, end: u32)
    ensures
        range_clear(edits, start, end) == range_misses(spans_of(edits), start, end),
        insert_clear(edits, start) == position_misses(spans_of(edits), start),
    decreases edits.len(),
{
    if edits.len() > 0 {
        let front = edits.drop_last();
        let last = edits.last();
        lemma_clear_is_missing(front, start, end);
        assert(forall|i: int| 0 <= i < front.len() ==> front[i] == edits[i]);
        assert(edits[edits.len() - 1] == last);
        let spans = spans_of(edits);
        let before = spans_of(front);
        if edit_span(last) is Some {
            assert(spans == before.push(edit_span(last)->0));
            assert(forall|i: int| 0 <= i < before.len() ==> before[i] == spans[i]);
            assert(spans[spans.len() - 1] == edit_span(last)->0);
        }
        if range_clear(edits, start, end) {
            assert(range_clear(front, start, end)) by {
                assert forall|i: int| 0 <= i < front.len() implies match #[trigger] front[i] {
                    Edit::Replace { start: s, end: e, .. } => end <= s || e <= start,
                    Edit::Remove { start: s, end: e } => end <= s || e <= start,
                    Edit::Insert { .. } => true,
                } by {
                    assert(front[i] == edits[i]);
                }
            }
            assert(range_misses(spans, start, end)) by {
                assert forall|i: int| 0 <= i < spans.len() implies end <= (#[trigger] spans[i]).start
                    || spans[i].end <= start by {
                    if i < before.len() {
                        assert(before[i] == spans[i]);
                    }
                }
            }
        }
        if range_misses(spans, start, end) {
            assert(range_misses(before, start, end)) by {
                assert forall|i: int| 0 <= i < before.len() implies end <= (
                #[trigger] before[i]).start || before[i].end <= start by {
                    assert(before[i] == spans[i]);
                }
            }
            assert(range_clear(edits, start, end)) by {
                assert forall|i: int| 0 <= i < edits.len() implies match #[trigger] edits[i] {
                    Edit::Replace { start: s, end: e, .. } => end <= s || e <= start,
                    Edit::Remove { start: s, end: e } => end <= s || e <= start,
                    Edit::Insert { .. } => true,
                } by {
                    if i < front.len() {
                        assert(front[i] == edits[i]);
                    } else if edit_span(last) is Some {
                        assert(spans[spans.len() - 1] == edit_span(last)->0);
                    }
                }
            }
        }
        if insert_clear(edits, start) {
            assert(insert_clear(front, start)) by {
                assert forall|i: int| 0 <= i < front.len() implies match #[trigger] front[i] {
                    Edit::Replace { start: s, end: e, .. } => start <= s || e <= start,
                    Edit::Remove { start: s, end: e } => start <= s || e <= start,
                    Edit::Insert { .. } => true,
                } by {
                    assert(front[i] == edits[i]);
                }
            }
            assert(position_misses(spans, start)) by {
                assert forall|i: int| 0 <= i < spans.len() implies start <= (
                #[trigger] spans[i]).start || spans[i].end <= start by {
                    if i < before.len() {
                        assert(before[i] == spans[i]);
                    }
                }
            }
        }
        if position_misses(spans, start) {
            assert(position_misses(before, start)) by {
                assert forall|i: int| 0 <= i < before.len() implies start <= (
                #[trigger] before[i]).start || before[i].end <= start by {
                    assert(before[i] == spans[i]);
                }
            }
            assert(insert_clear(edits, start)) by {
                assert forall|i: int| 0 <= i < edits.len() implies match #[trigger] edits[i] {
                    Edit::Replace { start: s, end: e, .. } => start <= s || e <= start,
                    Edit::Remove { start: s, end: e } => start <= s || e <= start,
                    Edit::Insert { .. } => true,
                } by {
                    if i < front.len() {
                        assert(front[i] == edits[i]);
                    } else if edit_span(last) is Some {
                        assert(spans[spans.len() - 1] == edit_span(last)->0);
                    }
                }
            }
        }
    }
}

/// Whether `at` is a byte offset of `text` that does not fall inside a
/// character.
pub fn is_cut_point(text: &str, at: u32) -> (ok: bool)
    ensures
        ok == cut_point(text@, at),
{
    text.is_char_boundary(at as usize)
}

/// Whether `start..end` shares no byte with any of `spans`.
pub fn range_misses_spans(spans: &Vec<Span>, start: u32, end: u32) -> (ok: bool)
    ensures
        ok == range_misses(spans@, start, end),
{
    let mut i: usize = 0;
    while i < spans.len()
        invariant
            i <= spans@.len(),
            forall|k: int|
                0 <= k < i ==> end <= (#[trigger] spans@[k]).start || spans@[k].end <= start,
        decreases spans@.len() - i,
    {
        if !(end <= spans[i].start || spans[i].end <= start) {
            return false;
        }
        i += 1;
    }
    true
}

/// Whether `at` lies strictly inside none of `spans`.
pub fn position_misses_spans(spans: &Vec<Span>, at: u32) -> (ok: bool)
    ensures
        ok == position_misses(spans@, at),
{
    let mut i: usize = 0;
    while i < spans.len()
        invariant
            i <= spans@.len(),
            forall|k: int|
                0 <= k < i ==> at <= (#[trigger] spans@[k]).start || spans@[k].end <= at,
        decreases spans@.len() - i,
    {
        if !(at <= spans[i].start || spans[i].end <= at) {
            return false;
        }
        i += 1;
    }
    true
}

/// A buffer over `source` with `edits` can still take `edit`.
pub open spec fn edit_free(source: Seq<char>, edits: Seq<Edit>, edit: Edit) -> bool {
    match edit {
        Edit::Replace { start, end, .. } => range_free(source, edits, start, end),
        Edit::Remove { start, end } => range_free(source, edits, start, end),
        Edit::Insert { at, .. } => position_free(source, edits, at),
    }
}

/// A buffer over `source` with `edits` can still take `added`, one after
/// the other.
pub open spec fn edits_free(source: Seq<char>, edits: Seq<Edit>, added: Seq<Edit>) -> bool
    decreases added.len(),
{
    if added.len() == 0 {
        true
    } else {
        &&& edits_free(source, edits, added.drop_last())
        &&& edit_free(source, edits + added.drop_last(), added.last())
    }
}

/// Taking one edit.
pub proof fn lemma_edits_free_one(source: Seq<char>, edits: Seq<Edit>, a: Edit)
    ensures
        edits_free(source, edits, seq![a]) == edit_free(source, edits, a),
        edits.push(a) == edits + seq![a],
{
    assert(seq![a].drop_last() =~= Seq::<Edit>::empty());
    assert(edits + Seq::<Edit>::empty() =~= edits);
    assert(edits.push(a) =~= edits + seq![a]);
    assert(edits_free(source, edits, Seq::<Edit>::empty()));
}

/// Taking two edits.
pub proof fn lemma_edits_free_two(source: Seq<char>, edits: Seq<Edit>, a: Edit, b: Edit)
    ensures
        edits_free(source, edits, seq![a, b]) == (edit_free(source, edits, a) && edit_free(
            source,
            edits.push(a),
            b,
        )),
        edits.push(a).push(b) == edits + seq![a, b],
{
    lemma_edits_free_one(source, edits, a);
    assert(seq![a, b].drop_last() =~= seq![a]);
    assert(edits.push(a).push(b) =~= edits + seq![a, b]);
}

/// `MagicString::new`: a buffer over `source` that has taken no edit. The
/// crate supports sources of up to `u32::MAX` bytes.
#[verifier::external_body]
pub(crate) fn buffer_new(source: String) -> (m: MagicString<'static>)
    requires
        vstd::utf8::encode_utf8(source@).len() <= u32::MAX,
    ensures
        buffer_source(m) == source@,
        buffer_edits(m) == Seq::<Edit>::empty(),
{
    MagicString::new(source)
}

/// `MagicString::update_with`, with `overwrite` as given and `keep_original`
/// off. On a range that is free the call returns `Ok` and the buffer has
/// taken the replacement; the original text stays what it was.
#[verifier::external_body]
pub(crate) fn buffer_update(
    m: &mut MagicString<'static>,
    start: u32,
    end: u32,
    content: String,
    overwrite: bool,
)
    requires
        range_free(buffer_source(*old(m)), buffer_edits(*old(m)), start, end),
    ensures
        buffer_source(*final(m)) == buffer_source(*old(m)),
        buffer_edits(*final(m)) == buffer_edits(*old(m)).push(
            Edit::Replace { start, end, text: content@, clear: overwrite },
        ),
{
    let _ = m.update_with(start, end, content, UpdateOptions { overwrite, keep_original: false });
}

/// `MagicString::remove`. On a range that is free the call returns `Ok` and
/// the buffer has taken the removal.
#[verifier::external_body]
pub(crate) fn buffer_remove(m: &mut MagicString<'static>, start: u32, end: u32)
    requires
        range_free(buffer_source(*old(m)), buffer_edits(*old(m)), start, end),
    ensures
        buffer_source(*final(m)) == buffer_source(*old(m)),
        buffer_edits(*final(m)) == buffer_edits(*old(m)).push(Edit::Remove { start, end }),
{
    let _ = m.remove(start, end);
}

/// `MagicString::append_right`. At a position that is free the call returns
/// `Ok` and the buffer has taken the insertion; texts inserted at one
/// position come out in the order of the calls.
#[verifier::external_body]
pub(crate) fn buffer_insert(m: &mut MagicString<'static>, at: u32, content: String)
    requires
        position_free(buffer_source(*old(m)), buffer_edits(*old(m)), at),
    ensures
        buffer_source(*final(m)) == buffer_source(*old(m)),
        buffer_edits(*final(m)) == buffer_edits(*old(m)).push(Edit::Insert { at, text: content@ }),
{
    let _ = m.append_right(at, content);
}

/// `MagicString::to_string`: the text of the buffer, which its source and
/// the edits it has taken determine.
#[verifier::external_body]
pub(crate) fn buffer_text(m: &MagicString<'static>) -> (text: String)
    ensures
        text@ == rendered(buffer_source(*m), buffer_edits(*m)),
{
    m.to_string()
}

} // verus!
