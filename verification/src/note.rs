//! Notes: what one holds, and how the text typed into the composer becomes
//! one.

use vstd::prelude::*;
use crate::text::{
    first_line, following_lines, lemma_lines_have_no_breaks, split_first_line, LINE_BREAK,
};

verus! {

/// The title of a note that was saved from an empty composer.
pub const FALLBACK_TITLE: &'static str = "New note";

/// A saved note. `timestamp` tells when it was written, in UTC, as
/// `YYYY-MM-DD HH:MM:SS`.
#[derive(Clone, Debug, PartialEq, Eq)]
pub struct Note {
    pub title: String,
    pub text: String,
    pub timestamp: String,
}

/// A note as three sequences of characters.
pub struct NoteView {
    pub title: Seq<char>,
    pub text: Seq<char>,
    pub timestamp: Seq<char>,
}

impl View for Note {
    type V = NoteView;

    open spec fn view(&self) -> NoteView {
        NoteView { title: self.title@, text: self.text@, timestamp: self.timestamp@ }
    }
}

/// The notes of `notes`, each as characters.
pub open spec fn note_views(notes: Seq<Note>) -> Seq<NoteView> {
    notes.map_values(|note: Note| note@)
}

/// The note that `input` makes when it is saved at `timestamp`. The first
/// line is the title and the other lines, joined without anything between
/// them, are the text. An empty input is titled [`FALLBACK_TITLE`].
pub open spec fn composed(input: Seq<char>, timestamp: Seq<char>) -> NoteView {
    NoteView {
        title: if input.len() == 0 {
            FALLBACK_TITLE@
        } else {
            first_line(input)
        },
        text: following_lines(input),
        timestamp,
    }
}

/// Saving an empty composer gives a note with the fallback title and no
/// text.
pub proof fn lemma_empty_input_composes_fallback(timestamp: Seq<char>)
    ensures
        composed(Seq::empty(), timestamp) == (NoteView {
            title: FALLBACK_TITLE@,
            text: Seq::empty(),
            timestamp,
        }),
{
    lemma_lines_have_no_breaks(Seq::empty());
}

/// Neither the title nor the text of a composed note holds a line break,
/// and its timestamp is the one it was given.
pub proof fn lemma_composed_has_no_breaks(input: Seq<char>, timestamp: Seq<char>)
    ensures
        forall|i: int|
            0 <= i < composed(input, timestamp).title.len() ==> composed(input, timestamp).title[i]
                != LINE_BREAK,
        forall|i: int|
            0 <= i < composed(input, timestamp).text.len() ==> composed(input, timestamp).text[i]
                != LINE_BREAK,
        composed(input, timestamp).timestamp == timestamp,
{
    lemma_lines_have_no_breaks(input);
    reveal_strlit("New note");
}

impl Note {
    /// Makes a note of what was typed into the composer.
    pub fn compose(input: &str, timestamp: String) -> (note: Note)
        ensures
            note@ == composed(input@, timestamp@),
    {
        let (first, rest) = split_first_line(input);
        let title = if input.is_empty() {
            FALLBACK_TITLE.to_owned()
        } else {
            first
        };
        Note { title, text: rest, timestamp }
    }
}

/// What is kept between two runs of the program: the notes, oldest first.
#[derive(Clone, Debug, PartialEq, Eq)]
pub struct SavedNotes {
    pub notes: Vec<Note>,
}

} // verus!
