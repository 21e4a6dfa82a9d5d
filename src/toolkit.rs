//! The toolkit's text buffer and highlighting theme, as the library sees them.
//!
//! The buffer is the toolkit's own editing structure: cursor movement,
//! selection and editing all happen inside it. The library names what it
//! holds and where its cursor stands, and relies on the toolkit for the rest.

use vstd::prelude::*;
use iced::widget::text_editor::{Action, Content};
use iced::highlighter::Theme;

verus! {

/// The document buffer: the toolkit's text-editor content, held whole.
/// The view hands `content` to the toolkit's editor widget to draw it.
#[verifier::external_body]
pub struct Buffer {
    pub content: Content,
}

/// The toolkit's edit and motion actions, carried through unopened.
#[verifier::external_type_specification]
#[verifier::external_body]
pub struct ExAction(Action);

/// The toolkit's highlighting themes: a public enum of five unit variants.
#[verifier::external_type_specification]
pub struct ExTheme(Theme);

/// The text that a buffer holds, as `Content::text` reports it.
pub uninterp spec fn buffer_text(b: Buffer) -> Seq<char>;

/// A buffer's cursor, counted from zero: its line, and its byte index
/// within that line.
pub uninterp spec fn buffer_cursor(b: Buffer) -> (usize, usize);

/// The text of a buffer freshly made from `s`.
pub uninterp spec fn text_made_from(s: Seq<char>) -> Seq<char>;

/// Relies on `Content::with_text`: a buffer that holds `s`, laid out in lines.
/// (`Content::new` is `with_text("")` in the toolkit's source.)
#[verifier::external_body]
fn content_with_text(s: &str) -> (r: Buffer)
    ensures
        buffer_text(r) == text_made_from(s@),
{
    Buffer { content: Content::with_text(s) }
}

/// Relies on `Content::perform`: the toolkit applies an edit or a motion.
/// What it does depends on the layout as well, so nothing is stated of it.
#[verifier::external_body]
fn content_perform(b: &mut Buffer, action: Action) {
    b.content.perform(action)
}

/// Relies on `Content::text`: the lines joined with `'\n'`, and a final
/// `'\n'` added where the joined text does not end with one.
#[verifier::external_body]
fn content_text(b: &Buffer) -> (r: String)
    ensures
        r@ == buffer_text(*b),
        r@.len() > 0,
        r@.last() == '\n',
{
    b.content.text()
}

/// Relies on `Content::cursor_position`: the cursor's line and its byte
/// index within the line.
#[verifier::external_body]
fn content_cursor(b: &Buffer) -> (r: (usize, usize))
    ensures
        r == buffer_cursor(*b),
{
    b.content.cursor_position()
}

/// Relies on `Theme::is_dark`: every theme is dark but Inspired GitHub.
pub assume_specification[ Theme::is_dark ](t: Theme) -> (r: bool)
    ensures
        r == (t != Theme::InspiredGitHub),
;

/// Relies on the derived `Clone` of `Action`: a copy of the same action.
pub assume_specification[ <Action as Clone>::clone ](a: &Action) -> (r: Action)
    ensures
        r == *a,
;

impl Buffer {
    /// A buffer that holds `text`.
    pub fn from_text(text: &str) -> (r: Buffer)
        ensures
            buffer_text(r) == text_made_from(text@),
    {
        content_with_text(text)
    }

    /// An empty buffer.
    pub fn empty() -> (r: Buffer)
        ensures
            buffer_text(r) == text_made_from(Seq::empty()),
    {
        let r = content_with_text("");
        proof {
            reveal_strlit("");
        }
        assert(""@ =~= Seq::<char>::empty());
        r
    }

    /// Hands an edit or a motion to the toolkit.
    pub fn perform(&mut self, action: Action) {
        content_perform(self, action)
    }

    /// The whole text, lines joined with `'\n'` and ending in `'\n'`.
    pub fn text(&self) -> (r: String)
        ensures
            r@ == buffer_text(*self),
            r@.len() > 0,
            r@.last() == '\n',
    {
        content_text(self)
    }

    /// The cursor's line and its byte index within the line, counted from zero.
    pub fn cursor_position(&self) -> (r: (usize, usize))
        ensures
            r == buffer_cursor(*self),
    {
        content_cursor(self)
    }
}

} // verus!
