//! The text buffer: a rope of the `ropey` crate, and what the editor reads
//! from it and does to it.
//!
//! Nothing in this file is proved. Its items state what `ropey` does, built
//! without its `cr_lines` and `unicode_lines` features, so that `'\n'` is the
//! only line break it knows; the geometry itself is defined in
//! [`crate::lines`]. Two more items state what `unicode_segmentation` and
//! `String::push` do.

use vstd::prelude::*;
use ropey::{Rope, RopeSlice};
use unicode_segmentation::UnicodeSegmentation;
use crate::lines::{all_spaces, joined, line_count, line_of, line_start, line_text, texts_of};

verus! {

/// `ropey::Rope`, the text storage of a document.
#[verifier::external_type_specification]
#[verifier::external_body]
pub struct ExRope(Rope);

/// `ropey::RopeSlice`, a borrowed range of a rope.
#[verifier::external_type_specification]
#[verifier::external_body]
pub struct ExRopeSlice<'a>(RopeSlice<'a>);

/// The characters that a rope holds, in order.
pub uninterp spec fn rope_text(rope: Rope) -> Seq<char>;

/// The characters that a slice of a rope holds, in order.
pub uninterp spec fn slice_text(slice: RopeSlice) -> Seq<char>;

/// `Rope::new` gives a rope without characters.
pub assume_specification[ Rope::new ]() -> (rope: Rope)
    ensures
        rope_text(rope) == Seq::<char>::empty(),
;

/// `Rope::from_str` gives a rope that holds the characters of `text`.
pub assume_specification[ Rope::from_str ](text: &str) -> (rope: Rope)
    ensures
        rope_text(rope) == text@,
;

/// `Rope::insert_char` puts `ch` before the character at `char_idx`, or at
/// the end for `char_idx == len_chars()`. It panics past the end.
pub assume_specification[ Rope::insert_char ](rope: &mut Rope, char_idx: usize, ch: char)
    requires
        char_idx <= rope_text(*old(rope)).len() < usize::MAX,
    ensures
        rope_text(*final(rope)) == rope_text(*old(rope)).insert(char_idx as int, ch),
;

/// `Rope::remove` with the range `start..end` takes out the characters at
/// these positions. It panics where `start > end` or `end > len_chars()`.
#[verifier::external_body]
pub(crate) fn remove_range(rope: &mut Rope, start: usize, end: usize)
    requires
        start <= end <= rope_text(*old(rope)).len(),
    ensures
        rope_text(*final(rope)) == rope_text(*old(rope)).subrange(0, start as int) + rope_text(
            *old(rope),
        ).subrange(end as int, rope_text(*old(rope)).len() as int),
{
    rope.remove(start..end);
}

/// `Rope::slice` with the full range `..` gives a slice of all the rope's
/// characters.
#[verifier::external_body]
pub(crate) fn whole(rope: &Rope) -> (slice: RopeSlice<'_>)
    ensures
        slice_text(slice) == rope_text(*rope),
{
    rope.slice(..)
}

/// `Rope::from` on a slice gives a rope of its own with the slice's
/// characters.
#[verifier::external_body]
pub(crate) fn to_rope(slice: RopeSlice) -> (rope: Rope)
    ensures
        rope_text(rope) == slice_text(slice),
{
    Rope::from(slice)
}

/// `String::from` on a slice gives the slice's characters as a string.
#[verifier::external_body]
pub(crate) fn to_string(slice: RopeSlice) -> (text: String)
    ensures
        text@ == slice_text(slice),
{
    String::from(slice)
}

/// `RopeSlice::len_chars` is the number of characters.
pub assume_specification<'a>[ RopeSlice::<'a>::len_chars ](slice: &RopeSlice<'a>) -> (n: usize)
    ensures
        n == slice_text(*slice).len(),
;

/// `RopeSlice::len_lines` is the number of line breaks plus one.
pub assume_specification<'a>[ RopeSlice::<'a>::len_lines ](slice: &RopeSlice<'a>) -> (n: usize)
    ensures
        n == line_count(slice_text(*slice)),
;

/// `RopeSlice::char_to_line` counts the line breaks before `char_idx`, which
/// may be the end of the text. It panics past the end.
pub assume_specification<'a>[ RopeSlice::<'a>::char_to_line ](
    slice: &RopeSlice<'a>,
    char_idx: usize,
) -> (line: usize)
    requires
        char_idx <= slice_text(*slice).len(),
    ensures
        line == line_of(slice_text(*slice), char_idx as int),
;

/// `RopeSlice::line_to_char` is the position of the first character of line
/// `line_idx`, and the end of the text for `line_idx == len_lines()`. It
/// panics for a greater `line_idx`.
pub assume_specification<'a>[ RopeSlice::<'a>::line_to_char ](
    slice: &RopeSlice<'a>,
    line_idx: usize,
) -> (start: usize)
    requires
        line_idx <= line_count(slice_text(*slice)),
    ensures
        start == line_start(slice_text(*slice), line_idx as nat),
;

/// `RopeSlice::char` is the character at `char_idx`. It panics at and past
/// the end.
pub assume_specification<'a>[ RopeSlice::<'a>::char ](slice: &RopeSlice<'a>, char_idx: usize) -> (c:
    char)
    requires
        char_idx < slice_text(*slice).len(),
    ensures
        c == slice_text(*slice)[char_idx as int],
;

/// `RopeSlice::line` is line `line_idx` with its line break. It panics for
/// `line_idx >= len_lines()`.
pub assume_specification<'a>[ RopeSlice::<'a>::line ](
    slice: &RopeSlice<'a>,
    line_idx: usize,
) -> (line: RopeSlice<'a>)
    requires
        line_idx < line_count(slice_text(*slice)),
    ensures
        slice_text(line) == line_text(slice_text(*slice), line_idx as nat),
;

/// The extended grapheme clusters of a text, in order, as
/// `unicode_segmentation` cuts it.
pub uninterp spec fn grapheme_clusters(text: Seq<char>) -> Seq<Seq<char>>;

/// `UnicodeSegmentation::graphemes` with `is_extended` set gives the
/// extended grapheme clusters of `text`; each is handed out as a string of
/// its own. The clusters are consecutive parts of `text`, none of them
/// empty, that together make up `text`. Between two spaces a cluster ends,
/// so a text of spaces alone is cut into clusters of one character.
#[verifier::external_body]
pub(crate) fn graphemes(text: &str) -> (clusters: Vec<String>)
    ensures
        clusters@.len() == grapheme_clusters(text@).len(),
        forall|i: int|
            0 <= i < clusters@.len() ==> (#[trigger] clusters@[i])@ == grapheme_clusters(text@)[i],
        joined(texts_of(clusters@)) == text@,
        forall|i: int| 0 <= i < clusters@.len() ==> (#[trigger] clusters@[i])@.len() > 0,
        all_spaces(text@) ==> forall|i: int|
            0 <= i < clusters@.len() ==> (#[trigger] clusters@[i])@.len() == 1,
{
    text.graphemes(true).map(String::from).collect()
}

/// `String::push` appends one character.
pub assume_specification[ String::push ](text: &mut String, ch: char)
    ensures
        final(text)@ == old(text)@.push(ch),
;

} // verus!
