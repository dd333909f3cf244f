use vstd::prelude::*;

use crate::config::Config;
use crate::consts::MARGIN;
use crate::consts::PADDING;
use crate::prompt::History;
use crate::widget::List;
use crate::widget::Text;
use crate::widget::Window;
use crate::Column;
use crate::Entry;
use crate::Message;
use crate::Mode;
use crate::PromptKind;

verus! {

/// The whole navigation state: the current directory's entry list, the caret
/// and scroll offset, the selection, the prompt editor, and what the status
/// line should report. All mutation goes through the operations of this
/// crate; the well-formedness predicate `wf` is established by `new` and
/// preserved by every operation.
pub struct State {
    /// The configuration handed over at startup.
    pub config: Config,
    /// The current directory, as displayable text.
    pub path: String,
    /// The current interaction mode.
    pub mode: Mode,
    /// The displayable columns.
    pub columns: Vec<Column>,
    /// The caret's index into the entry list.
    pub index: usize,
    /// The entries of the current directory, grouped by kind.
    pub list: Vec<Entry>,
    /// How many screen rows the renderer has to work with.
    pub lines: usize,
    /// The index of the first visible entry.
    pub offset: usize,
    /// Rows of context kept visible around the caret while scrolling.
    pub padding: usize,
    /// The indices of the selected entries, without duplicates.
    pub selected: Vec<usize>,
    /// The status-line message, if any.
    pub message: Option<Message>,
    /// Captured output of an executed command, shown instead of the list.
    pub output: Option<String>,
    /// Which prompt is open, if any.
    pub title: Option<PromptKind>,
    /// The prompt's text buffer; `None` is a fresh, empty buffer.
    pub input: Option<Vec<char>>,
    /// The caret's position inside the prompt buffer.
    pub cursor: usize,
    /// Whether entries whose names start with a dot are listed.
    pub show_dotfiles: bool,
    /// How far back the prompt has walked into its history; 0 is the fresh
    /// buffer.
    pub history_index: usize,
    /// The committed prompt inputs, per prompt kind.
    pub history: History,
    /// The screen frame.
    pub window: Window,
    /// The header line showing the current path.
    pub path_text: Text,
    /// The status-line fragment showing the caret position.
    pub index_text: Text,
    /// The status-line fragment showing the selection count.
    pub select_text: Text,
    /// The widget that carries the visible slice of the list.
    pub list_widget: List,
}

impl State {
    /// How many entries fit on the screen at once.
    pub open spec fn visible_rows(&self) -> int {
        self.lines - MARGIN + 1
    }

    /// The prompt buffer's text; a missing buffer reads as empty.
    pub open spec fn buffer(&self) -> Seq<char> {
        match self.input {
            Some(v) => v@,
            None => Seq::empty(),
        }
    }

    /// The selection, as the set of selected indices.
    pub open spec fn sel(&self) -> Set<usize> {
        self.selected@.to_set()
    }

    /// Every selected index points into the list, and none repeats.
    pub open spec fn sel_ok(&self) -> bool {
        &&& forall|i: int|
            0 <= i < self.selected@.len() ==> (#[trigger] self.selected@[i]) < self.list@.len()
        &&& self.selected@.no_duplicates()
    }

    /// The caret sits in the list and inside the visible slice; an empty
    /// list pins caret and offset to zero. The one admitted exception is
    /// the tail-pinning relaxation: near the end of the list the offset
    /// stops advancing, so the caret may sit up to `padding` rows below
    /// the slice — but only within `padding` entries of the end, with the
    /// slice itself already within `padding` entries of the tail.
    pub open spec fn view_ok(&self) -> bool {
        if self.list@.len() == 0 {
            self.index == 0 && self.offset == 0
        } else {
            &&& self.offset <= self.index < self.list@.len()
            &&& (self.index < self.offset + self.visible_rows() || (self.list@.len() <= self.index
                + self.padding && self.list@.len() <= self.offset + self.visible_rows()
                + self.padding && self.index < self.offset + self.visible_rows()
                + self.padding))
        }
    }

    /// The prompt caret stays inside the buffer, and the history walk stays
    /// inside the open prompt's history stack.
    pub open spec fn prompt_ok(&self) -> bool {
        &&& self.cursor <= self.buffer().len()
        &&& match self.title {
            Some(kind) => self.history_index <= self.history.stack(kind).len(),
            None => self.history_index == 0,
        }
    }

    /// Well-formedness: every operation of this crate preserves it.
    pub open spec fn wf(&self) -> bool {
        &&& self.lines >= MARGIN + self.padding
        &&& self.view_ok()
        &&& self.sel_ok()
        &&& self.prompt_ok()
    }

    /// A fresh state for the given directory: empty list, no selection, no
    /// message, closed prompt, dotfiles shown. The screen is assumed to be
    /// the smallest the scroll arithmetic supports until the real height is
    /// handed in through `set_lines`.
    pub fn new(config: Config, path: String) -> (s: State)
        ensures
            s.wf(),
            s.config == config,
            s.path@ == path@,
            s.mode == Mode::Normal,
            s.columns@ == seq![Column::Name, Column::Type, Column::Size, Column::Created],
            s.index == 0,
            s.list@.len() == 0,
            s.lines == MARGIN + PADDING,
            s.offset == 0,
            s.padding == PADDING,
            s.selected@.len() == 0,
            s.message is None,
            s.output is None,
            s.title is None,
            s.input is None,
            s.cursor == 0,
            s.show_dotfiles == true,
            s.history_index == 0,
            s.history.stack(PromptKind::Search).len() == 0,
            s.history.stack(PromptKind::Goto).len() == 0,
            s.history.stack(PromptKind::Exec).len() == 0,
    {
        let columns = config.get_columns();
        State {
            config,
            path,
            mode: Mode::Normal,
            columns,
            index: 0,
            list: Vec::new(),
            lines: MARGIN + PADDING,
            offset: 0,
            padding: PADDING,
            selected: Vec::new(),
            message: None,
            output: None,
            title: None,
            input: None,
            cursor: 0,
            show_dotfiles: true,
            history_index: 0,
            history: History::new(),
            window: Window { pos: (0, 0), width: 0, height: 0 },
            path_text: Text { pos: (0, 0), width: 0, text: String::new() },
            index_text: Text { pos: (0, 0), width: 0, text: String::new() },
            select_text: Text { pos: (0, 0), width: 0, text: String::new() },
            list_widget: List { pos: (0, 0), width: 0, height: 0, index: 0, items: Vec::new() },
        }
    }

    /// The entry under the caret, if the list has any.
    pub fn get_current(&self) -> (r: Option<&Entry>)
        requires
            self.wf(),
        ensures
            match r {
                Some(e) => self.list@.len() > 0 && *e == self.list@[self.index as int],
                None => self.list@.len() == 0,
            },
    {
        if self.list.is_empty() {
            return None;
        }
        Some(&self.list[self.index])
    }

    /// Puts a message on the status line.
    pub fn set_message(&mut self, message: Message)
        ensures
            *final(self) == (State { message: Some(message), ..*old(self) }),
    {
        self.message = Some(message);
    }

    /// Hands the real screen height in. When the new height leaves the caret
    /// below the visible slice, the offset is pulled down just far enough to
    /// show it again.
    pub fn set_lines(&mut self, lines: usize)
        requires
            old(self).wf(),
            lines >= MARGIN + old(self).padding,
        ensures
            final(self).wf(),
            final(self).lines == lines,
            final(self).index == old(self).index,
            final(self).offset == if old(self).index < old(self).offset + (lines - MARGIN + 1) {
                old(self).offset as int
            } else {
                old(self).index - (lines - MARGIN + 1) + 1
            },
            *final(self) == (State {
                lines,
                offset: final(self).offset,
                ..*old(self)
            }),
    {
        let rows = lines - MARGIN + 1;
        if self.index - self.offset >= rows {
            self.offset = self.index - (rows - 1);
        }
        self.lines = lines;
    }

    /// Drops the captured command output, so the entry list shows again.
    pub fn clear_output(&mut self)
        ensures
            final(self).output is None,
            (State { output: old(self).output, ..*final(self) }) == *old(self),
    {
        self.output = None;
    }

    /// What the status line reports: the one-based caret position (zero on
    /// an empty list), the list length, and the selection count.
    pub fn status_counts(&self) -> (r: (usize, usize, usize))
        requires
            self.wf(),
        ensures
            r.0 == if self.list@.len() == 0 {
                0int
            } else {
                self.index + 1
            },
            r.1 == self.list@.len(),
            r.2 == self.sel().len(),
    {
        proof {
            self.selected@.unique_seq_to_set();
        }
        let length = self.list.len();
        let shown: usize = if length == 0 {
            0
        } else {
            self.index + 1
        };
        (shown, length, self.selected.len())
    }

    /// The bounds of the visible slice of the list: entries from `start`
    /// up to (and excluding) `end` are on screen, with the caret on row
    /// `caret - start` of the slice — except under the tail-pinning
    /// relaxation, where the caret may sit just past the slice.
    pub fn visible_range(&self) -> (r: (usize, usize))
        requires
            self.wf(),
        ensures
            r.0 == self.offset,
            r.1 == if self.offset + self.visible_rows() <= self.list@.len() {
                self.offset + self.visible_rows()
            } else {
                self.list@.len() as int
            },
            r.0 <= r.1 <= self.list@.len(),
            self.list@.len() > 0 && self.index < self.offset + self.visible_rows() ==> r.0
                <= self.index < r.1,
    {
        let length = self.list.len();
        let rows = self.lines - MARGIN + 1;
        let end = if rows <= length - self.offset {
            self.offset + rows
        } else {
            length
        };
        (self.offset, end)
    }
}

} // verus!
