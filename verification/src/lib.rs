//! Core state engine of a keyboard-driven terminal file browser: the
//! viewport/scroll arithmetic, the selection model, the prompt line editor
//! with per-kind history, and the decision logic behind every input event.
//! Terminal drawing, filesystem reads and process spawning live outside this
//! crate; they hand plain values in and take plain values back.
use vstd::prelude::*;
use vstd::string::StrSliceExecFns;
use vstd::string::StringExecFns;

pub mod config;
pub mod consts;
pub mod engine;
pub mod entries;
pub mod error;
pub mod nav;
pub mod paths;
pub mod prompt;
pub mod search;
pub mod state;
pub mod text;
pub mod widget;

pub use config::Config;
pub use state::State;

verus! {

/// The interaction mode: browsing the list, or editing a prompt line.
#[derive(PartialEq, Eq, Structural, Clone, Copy, Debug)]
pub enum Mode {
    Normal,
    Prompt,
}

/// A caret movement request.
#[derive(PartialEq, Eq, Structural, Clone, Copy, Debug)]
pub enum Move {
    Up,
    Down,
    Next,
    Prev,
    First,
    Top,
    Bottom,
}

/// A directory change request.
#[derive(PartialEq, Eq, Structural, Clone, Copy, Debug)]
pub enum FolderDir {
    Parent,
    Child,
    Home,
}

/// The classification of a directory entry.
#[derive(PartialEq, Eq, Structural, Clone, Copy, Debug)]
pub enum EntryKind {
    File,
    Dir,
    Symlink,
}

/// Which command a prompt feeds, and which history stack it uses.
#[derive(PartialEq, Eq, Structural, Clone, Copy, Debug)]
pub enum PromptKind {
    Search,
    Goto,
    Exec,
}

/// The severity of a status-line message.
#[derive(PartialEq, Eq, Structural, Clone, Copy, Debug)]
pub enum MessageKind {
    Info,
    Warn,
    Error,
}

/// A status-line message; the renderer picks a colour from the kind.
pub struct Message {
    pub text: String,
    pub kind: MessageKind,
}

impl Message {
    pub fn info(text: &str) -> (m: Self)
        ensures
            m.text@ == text@,
            m.kind == MessageKind::Info,
    {
        Self { text: text.to_owned(), kind: MessageKind::Info }
    }

    pub fn warn(text: &str) -> (m: Self)
        ensures
            m.text@ == text@,
            m.kind == MessageKind::Warn,
    {
        Self { text: text.to_owned(), kind: MessageKind::Warn }
    }

    pub fn error(text: &str) -> (m: Self)
        ensures
            m.text@ == text@,
            m.kind == MessageKind::Error,
    {
        Self { text: text.to_owned(), kind: MessageKind::Error }
    }
}

/// One directory entry, as the filesystem collaborator hands it over:
/// a name, a kind, and plain optional metadata (creation time as seconds
/// since the epoch, and a size in bytes).
pub struct Entry {
    pub file_name: String,
    pub kind: EntryKind,
    pub created: Option<u64>,
    pub size: Option<u64>,
}

impl Entry {
    pub fn is_dir(&self) -> (b: bool)
        ensures
            b == (self.kind == EntryKind::Dir),
    {
        self.kind == EntryKind::Dir
    }

    pub fn is_file(&self) -> (b: bool)
        ensures
            b == (self.kind == EntryKind::File),
    {
        self.kind == EntryKind::File
    }
}

impl Clone for Entry {
    fn clone(&self) -> (e: Self)
        ensures
            e == *self,
    {
        Entry {
            file_name: self.file_name.clone(),
            kind: self.kind,
            created: self.created,
            size: self.size,
        }
    }
}

/// A column of the entry table.
#[derive(PartialEq, Eq, Structural, Clone, Copy, Debug)]
pub enum Column {
    Name,
    Type,
    Size,
    Created,
}

impl Column {
    pub fn get_width(&self) -> (w: usize)
        ensures
            w == match *self {
                Column::Name => 40usize,
                Column::Type => 10usize,
                Column::Size => 15usize,
                Column::Created => 22usize,
            },
    {
        match *self {
            Column::Name => 40,
            Column::Type => 10,
            Column::Size => 15,
            Column::Created => 22,
        }
    }

    /// The column's heading text.
    pub fn title(&self) -> (t: &'static str)
        ensures
            t@ == match *self {
                Column::Name => "NAME"@,
                Column::Type => "TYPE"@,
                Column::Size => "SIZE"@,
                Column::Created => "CREATED"@,
            },
    {
        match *self {
            Column::Name => "NAME",
            Column::Type => "TYPE",
            Column::Size => "SIZE",
            Column::Created => "CREATED",
        }
    }
}

/// True when the path names the home directory or something under it
/// through a leading tilde component.
pub open spec fn has_tilde_prefix(path: Seq<char>) -> bool {
    path.len() >= 1 && path[0] == '~' && (path.len() == 1 || path[1] == '/')
}

/// What tilde expansion yields: paths without a tilde component pass
/// through; `~` alone becomes the home directory; `~/rest` becomes the home
/// directory with `/rest` appended. Without a home directory, a tilde path
/// cannot be expanded.
pub open spec fn spec_expand_tilde(path: Seq<char>, home: Option<Seq<char>>) -> Option<Seq<char>> {
    if !has_tilde_prefix(path) {
        Some(path)
    } else {
        match home {
            None => None,
            Some(h) => if path.len() == 1 {
                Some(h)
            } else {
                Some(h + path.skip(1))
            },
        }
    }
}

/// Expands a leading tilde component against the given home directory.
/// The home directory comes from the environment collaborator; the
/// expansion itself is pure text.
pub fn expand_tilde(path: String, home: Option<String>) -> (r: Option<String>)
    ensures
        ({
            let expanded = spec_expand_tilde(
                path@,
                match home {
                    Some(h) => Some(h@),
                    None => None,
                },
            );
            match r {
                Some(s) => expanded == Some(s@),
                None => expanded is None,
            }
        }),
{
    let len = path.as_str().unicode_len();
    if len == 0 {
        return Some(path);
    }
    if path.as_str().get_char(0) != '~' {
        return Some(path);
    }
    if len >= 2 && path.as_str().get_char(1) != '/' {
        return Some(path);
    }
    match home {
        None => None,
        Some(h) => {
            if len == 1 {
                Some(h)
            } else {
                let rest = path.as_str().substring_char(1, len);
                let mut out = h;
                out.append(rest);
                proof {
                    assert(path@.subrange(1, path@.len() as int) =~= path@.skip(1));
                }
                Some(out)
            }
        },
    }
}

} // verus!
