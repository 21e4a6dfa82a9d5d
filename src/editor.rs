//! The editor's state machine: one update per message, each returning the
//! follow-up work (if any) that the surrounding application must run.

use vstd::prelude::*;
use vstd::string::StringExecFns;
use iced::highlighter::Theme;
use iced::widget::text_editor::Action;
use crate::files::{Error, default_load_file, destination_spec, save_spec};
use crate::toolkit::{Buffer, buffer_cursor, buffer_text, text_made_from};

verus! {

/// The editor's whole state.
pub struct Editor {
    /// The document being edited.
    pub buffer: Buffer,
    /// The last failure of an open or a save, until it is replaced or an
    /// open or a save succeeds.
    pub error: Option<Error>,
    /// Where the document was loaded from or last saved to; `None` while untitled.
    pub path: Option<String>,
    /// The highlighting theme.
    pub theme: Theme,
}

/// An event handed to [`Editor::update`].
#[derive(Debug)]
pub enum Message {
    /// An edit or a motion inside the buffer.
    Edit(Action),
    /// An open has finished: the path and the text that was read, or why not.
    FileOpened(Result<(String, String), Error>),
    /// The user asks to open a file.
    Open,
    /// The user asks for a new, empty document.
    New,
    /// The user asks to save the document.
    Save,
    /// A save has finished: the path written to, or why not.
    FileSaved(Result<String, Error>),
    /// The user picked a highlighting theme.
    ThemeSelected(Theme),
}

impl Clone for Message {
    fn clone(&self) -> (r: Message)
        ensures
            r == *self,
    {
        match self {
            Message::Edit(a) => Message::Edit(a.clone()),
            Message::FileOpened(Ok((p, t))) => Message::FileOpened(Ok((p.clone(), t.clone()))),
            Message::FileOpened(Err(e)) => Message::FileOpened(Err(*e)),
            Message::Open => Message::Open,
            Message::New => Message::New,
            Message::Save => Message::Save,
            Message::FileSaved(Ok(p)) => Message::FileSaved(Ok(p.clone())),
            Message::FileSaved(Err(e)) => Message::FileSaved(Err(*e)),
            Message::ThemeSelected(t) => Message::ThemeSelected(*t),
        }
    }
}

/// The follow-up work that an update asks for.
#[derive(Debug)]
pub enum Command {
    /// Nothing to run.
    Nothing,
    /// Read the file at this path, then deliver `FileOpened`.
    Load(String),
    /// Ask the user for a file, read it, then deliver `FileOpened`.
    PickAndLoad,
    /// Write `contents` to `path`, asking the user for a path first where
    /// there is none, then deliver `FileSaved`.
    Save { path: Option<String>, contents: String },
}

/// What the status line shows beside the cursor position.
#[derive(Debug)]
pub enum Status {
    /// The last read or write failed with this category.
    IoFailure(std::io::ErrorKind),
    /// The last file dialog was closed without a choice.
    DialogClosed,
    /// The document's file.
    File(String),
    /// A document that has no file yet.
    Untitled,
}

/// The state after `m`, and the work it asks for, given the state before.
/// An edit leaves everything but the buffer as it was; what it does to the
/// buffer is the toolkit's affair. A successful open or save clears the
/// last error; a failed one records it and changes nothing else.
pub open spec fn step(pre: Editor, m: Message, post: Editor, cmd: Command) -> bool {
    match m {
        Message::Edit(_) => post.error == pre.error && post.path == pre.path && post.theme
            == pre.theme && cmd == Command::Nothing,
        Message::FileOpened(Ok((p, text))) => buffer_text(post.buffer) == text_made_from(text@)
            && post.path == Some(p) && post.error == None::<Error> && post.theme == pre.theme
            && cmd == Command::Nothing,
        Message::FileOpened(Err(e)) => post == (Editor { error: Some(e), ..pre }) && cmd
            == Command::Nothing,
        Message::Open => post == pre && cmd == Command::PickAndLoad,
        Message::New => buffer_text(post.buffer) == text_made_from(Seq::empty()) && post.path
            == None::<String> && post.error == pre.error && post.theme == pre.theme && cmd
            == Command::Nothing,
        Message::Save => post == pre && match cmd {
            Command::Save { path, contents } => path == pre.path && contents@ == buffer_text(
                pre.buffer,
            ),
            _ => false,
        },
        Message::FileSaved(Ok(p)) => post == (Editor { path: Some(p), error: None, ..pre }) && cmd
            == Command::Nothing,
        Message::FileSaved(Err(e)) => post == (Editor { error: Some(e), ..pre }) && cmd
            == Command::Nothing,
        Message::ThemeSelected(t) => post == (Editor { theme: t, ..pre }) && cmd
            == Command::Nothing,
    }
}

/// What the save that `cmd` asks for delivers, given what the save dialog
/// returned (if it was shown) and how the write went.
pub open spec fn save_delivers(
    cmd: Command,
    picked: Option<String>,
    written: Result<(), std::io::ErrorKind>,
) -> Result<String, Error> {
    match cmd {
        Command::Save { path, .. } => match destination_spec(path, picked) {
            Ok(dest) => save_spec(dest, written),
            Err(e) => Err(e),
        },
        _ => Err(Error::DialogClosed),
    }
}

/// Any run of edits leaves the path, the last error and the theme as they
/// were, and asks for no follow-up work; where the cursor stands is the
/// buffer's own report throughout (see [`Editor::cursor_position`]).
pub proof fn lemma_edits_keep_file_state(
    states: Seq<Editor>,
    actions: Seq<Action>,
    cmds: Seq<Command>,
)
    requires
        states.len() == actions.len() + 1,
        cmds.len() == actions.len(),
        forall|i: int|
            0 <= i < actions.len() ==> #[trigger] step(
                states[i],
                Message::Edit(actions[i]),
                states[i + 1],
                cmds[i],
            ),
    ensures
        forall|i: int|
            0 <= i < states.len() ==> (#[trigger] states[i]).path == states[0].path
                && states[i].error == states[0].error && states[i].theme == states[0].theme,
        forall|i: int| 0 <= i < cmds.len() ==> #[trigger] cmds[i] == Command::Nothing,
    decreases actions.len(),
{
    if actions.len() > 0 {
        let n = actions.len() - 1;
        lemma_edits_keep_file_state(states.drop_last(), actions.drop_last(), cmds.drop_last());
        assert(step(states[n], Message::Edit(actions[n]), states[n + 1], cmds[n]));
        let prefix = states.drop_last();
        assert(prefix[0] == states[0]);
        assert(prefix[n] == states[n]);
        assert forall|i: int| 0 <= i < states.len() implies (#[trigger] states[i]).path
            == states[0].path && states[i].error == states[0].error && states[i].theme
            == states[0].theme by {
            if i < states.len() - 1 {
                assert(prefix[i] == states[i]);
            }
        }
        assert forall|i: int| 0 <= i < cmds.len() implies #[trigger] cmds[i] == Command::Nothing by {
            if i < n {
                assert(cmds.drop_last()[i] == cmds[i]);
                assert(step(states[i], Message::Edit(actions[i]), states[i + 1], cmds[i]));
            }
        }
    }
}

/// A failed open leaves the document as it was before the open was asked
/// for: the same buffer and the same path.
pub proof fn lemma_failed_open_keeps_document(
    s0: Editor,
    s1: Editor,
    c1: Command,
    e: Error,
    s2: Editor,
    c2: Command,
)
    requires
        step(s0, Message::Open, s1, c1),
        step(s1, Message::FileOpened(Err(e)), s2, c2),
    ensures
        s2.buffer == s0.buffer,
        s2.path == s0.path,
        s2.error == Some(e),
{
}

/// The first save of an untitled document, once the user has chosen a path
/// in the dialog and the write has succeeded, gives the document exactly
/// that path.
pub proof fn lemma_first_save_takes_chosen_path(
    s0: Editor,
    s1: Editor,
    c1: Command,
    chosen: String,
    s2: Editor,
    c2: Command,
)
    requires
        s0.path is None,
        step(s0, Message::Save, s1, c1),
        step(s1, Message::FileSaved(save_delivers(c1, Some(chosen), Ok(()))), s2, c2),
    ensures
        s2.path == Some(chosen),
        s2.buffer == s0.buffer,
        s2.error is None,
{
}

impl Editor {
    /// A fresh, untitled editor with an empty buffer and the Solarized (dark)
    /// theme, and the load of the startup file under `package_dir`.
    pub fn new(package_dir: &str) -> (r: (Editor, Command))
        ensures
            buffer_text(r.0.buffer) == text_made_from(Seq::empty()),
            r.0.error is None,
            r.0.path is None,
            r.0.theme == Theme::SolarizedDark,
            match r.1 {
                Command::Load(p) => p@ == package_dir@ + "/src/main.rs"@,
                _ => false,
            },
    {
        let editor = Editor {
            buffer: Buffer::empty(),
            error: None,
            path: None,
            theme: Theme::SolarizedDark,
        };
        (editor, Command::Load(default_load_file(package_dir)))
    }

    /// The window title.
    pub fn title(&self) -> (r: String)
        ensures
            r@ == "Text editor"@,
    {
        String::from_str("Text editor")
    }

    /// Applies one message to the state and returns the work it asks for.
    pub fn update(&mut self, message: Message) -> (cmd: Command)
        ensures
            step(*old(self), message, *final(self), cmd),
    {
        match message {
            Message::Edit(action) => {
                self.buffer.perform(action);
                Command::Nothing
            },
            Message::FileOpened(Ok((path, contents))) => {
                self.buffer = Buffer::from_text(contents.as_str());
                self.path = Some(path);
                self.error = None;
                Command::Nothing
            },
            Message::FileOpened(Err(error)) => {
                self.error = Some(error);
                Command::Nothing
            },
            Message::Open => Command::PickAndLoad,
            Message::New => {
                self.buffer = Buffer::empty();
                self.path = None;
                Command::Nothing
            },
            Message::Save => {
                let contents = self.buffer.text();
                Command::Save { path: self.path.clone(), contents }
            },
            Message::FileSaved(Ok(path)) => {
                self.path = Some(path);
                self.error = None;
                Command::Nothing
            },
            Message::FileSaved(Err(error)) => {
                self.error = Some(error);
                Command::Nothing
            },
            Message::ThemeSelected(theme) => {
                self.theme = theme;
                Command::Nothing
            },
        }
    }

    /// The buffer's cursor, counted from zero: the line, and the byte index
    /// within that line; exactly what the buffer itself reports.
    pub fn cursor_position(&self) -> (r: (usize, usize))
        ensures
            r == buffer_cursor(self.buffer),
    {
        self.buffer.cursor_position()
    }

    /// Whether the window should use the dark look: it follows the
    /// highlighting theme.
    pub fn is_dark(&self) -> (r: bool)
        ensures
            r == (self.theme != Theme::InspiredGitHub),
    {
        self.theme.is_dark()
    }

    /// The cursor as the status line shows it: line and index counted from
    /// one (a count already at the largest `usize` stays there).
    pub fn position_label(&self) -> (r: (usize, usize))
        ensures
            r.0 == (if buffer_cursor(self.buffer).0 < usize::MAX {
                buffer_cursor(self.buffer).0 + 1
            } else {
                buffer_cursor(self.buffer).0 as int
            }),
            r.1 == (if buffer_cursor(self.buffer).1 < usize::MAX {
                buffer_cursor(self.buffer).1 + 1
            } else {
                buffer_cursor(self.buffer).1 as int
            }),
    {
        let (line, index) = self.buffer.cursor_position();
        let line1: usize = if line < usize::MAX { line + 1 } else { line };
        let index1: usize = if index < usize::MAX { index + 1 } else { index };
        (line1, index1)
    }

    /// What the status line shows: the last error while there is one, else
    /// the file's path, else that the document is untitled.
    pub fn status(&self) -> (r: Status)
        ensures
            r == (match self.error {
                Some(Error::IOFailed(kind)) => Status::IoFailure(kind),
                Some(Error::DialogClosed) => Status::DialogClosed,
                None => match self.path {
                    Some(p) => Status::File(p),
                    None => Status::Untitled,
                },
            }),
            self.error is Some ==> !(r is File) && !(r is Untitled),
    {
        match &self.error {
            Some(Error::IOFailed(kind)) => Status::IoFailure(*kind),
            Some(Error::DialogClosed) => Status::DialogClosed,
            None => match &self.path {
                Some(p) => Status::File(p.clone()),
                None => Status::Untitled,
            },
        }
    }
}

} // verus!
