use vstd::prelude::*;

use crate::state::State;
use crate::Mode;
use crate::PromptKind;

verus! {

/// Committed prompt inputs, one append-only stack per prompt kind, oldest
/// first. The stacks live for the whole process.
pub struct History {
    pub search: Vec<Vec<char>>,
    pub goto: Vec<Vec<char>>,
    pub execute: Vec<Vec<char>>,
}

impl History {
    /// The committed texts of one kind, oldest first.
    pub open spec fn stack(&self, kind: PromptKind) -> Seq<Seq<char>> {
        match kind {
            PromptKind::Search => self.search.deep_view(),
            PromptKind::Goto => self.goto.deep_view(),
            PromptKind::Exec => self.execute.deep_view(),
        }
    }

    pub fn new() -> (h: History)
        ensures
            h.stack(PromptKind::Search) =~= Seq::<Seq<char>>::empty(),
            h.stack(PromptKind::Goto) =~= Seq::<Seq<char>>::empty(),
            h.stack(PromptKind::Exec) =~= Seq::<Seq<char>>::empty(),
    {
        History { search: Vec::new(), goto: Vec::new(), execute: Vec::new() }
    }

    /// How many texts one kind's stack holds.
    pub fn len_of(&self, kind: PromptKind) -> (n: usize)
        ensures
            n == self.stack(kind).len(),
    {
        match kind {
            PromptKind::Search => self.search.len(),
            PromptKind::Goto => self.goto.len(),
            PromptKind::Exec => self.execute.len(),
        }
    }

    /// Reads one committed text back.
    pub fn entry_at(&self, kind: PromptKind, i: usize) -> (e: &Vec<char>)
        requires
            i < self.stack(kind).len(),
        ensures
            e@ == self.stack(kind)[i as int],
    {
        match kind {
            PromptKind::Search => &self.search[i],
            PromptKind::Goto => &self.goto[i],
            PromptKind::Exec => &self.execute[i],
        }
    }

    /// Appends a committed text to one kind's stack; the other stacks are
    /// untouched.
    pub fn push_entry(&mut self, kind: PromptKind, e: Vec<char>)
        ensures
            final(self).stack(kind) == old(self).stack(kind).push(e@),
            forall|k: PromptKind| k != kind ==> final(self).stack(k) == old(self).stack(k),
    {
        let ghost pushed = e@;
        match kind {
            PromptKind::Search => self.search.push(e),
            PromptKind::Goto => self.goto.push(e),
            PromptKind::Exec => self.execute.push(e),
        }
        proof {
            assert(self.stack(kind) =~~= old(self).stack(kind).push(pushed));
        }
    }
}

/// The buffer and caret after typing one character: the character goes in
/// at the caret, which moves past it.
pub open spec fn spec_prompt_insert(buf: Seq<char>, cur: int, c: char) -> (Seq<char>, int) {
    (buf.insert(cur, c), cur + 1)
}

/// The buffer and caret after a backspace: the character before the caret
/// goes away and the caret follows it; at the start (or with an empty
/// buffer) nothing happens.
pub open spec fn spec_prompt_delete_before(buf: Seq<char>, cur: int) -> (Seq<char>, int) {
    if buf.len() > 0 && cur > 0 {
        (buf.remove(cur - 1), cur - 1)
    } else {
        (buf, cur)
    }
}

/// The buffer and caret after a forward delete: the character under the
/// caret goes away and the caret stays; at the end nothing happens.
pub open spec fn spec_prompt_delete_at(buf: Seq<char>, cur: int) -> (Seq<char>, int) {
    if cur < buf.len() {
        (buf.remove(cur), cur)
    } else {
        (buf, cur)
    }
}

/// Typing a character and backspacing restores the buffer and the caret
/// exactly, from any buffer and any caret position inside it.
pub proof fn lemma_insert_then_delete_before(buf: Seq<char>, cur: int, c: char)
    requires
        0 <= cur <= buf.len(),
    ensures
        spec_prompt_delete_before(
            spec_prompt_insert(buf, cur, c).0,
            spec_prompt_insert(buf, cur, c).1,
        ) == (buf, cur),
{
    let grown = buf.insert(cur, c);
    buf.insert_ensures(cur, c);
    grown.remove_ensures(cur);
    assert(grown.remove(cur) =~= buf);
}

/// A copy of a character buffer.
fn copy_chars(v: &Vec<char>) -> (r: Vec<char>)
    ensures
        r@ == v@,
{
    let mut copied: Vec<char> = Vec::new();
    let mut i: usize = 0;
    while i < v.len()
        invariant
            i <= v@.len(),
            copied@ == v@.take(i as int),
        decreases v@.len() - i,
    {
        copied.push(v[i]);
        proof {
            assert(v@.take(i + 1) =~= v@.take(i as int).push(v@[i as int]));
        }
        i = i + 1;
    }
    proof {
        assert(v@.take(v@.len() as int) =~= v@);
    }
    copied
}

impl State {
    /// Opens a prompt of the given kind with a fresh, empty buffer; the
    /// history walk starts at the fresh buffer.
    pub fn open_prompt(&mut self, kind: PromptKind)
        requires
            old(self).wf(),
        ensures
            final(self).wf(),
            final(self).mode == Mode::Prompt,
            final(self).title == Some(kind),
            final(self).input is None,
            final(self).cursor == 0,
            final(self).history_index == 0,
            (State {
                mode: old(self).mode,
                title: old(self).title,
                input: old(self).input,
                cursor: old(self).cursor,
                history_index: old(self).history_index,
                ..*final(self)
            }) == *old(self),
    {
        self.mode = Mode::Prompt;
        self.title = Some(kind);
        self.input = None;
        self.cursor = 0;
        self.history_index = 0;
    }

    /// Types one character into the prompt buffer at the caret.
    pub fn prompt_insert(&mut self, c: char)
        requires
            old(self).wf(),
            old(self).buffer().len() < usize::MAX,
        ensures
            final(self).wf(),
            (final(self).buffer(), final(self).cursor as int) == spec_prompt_insert(
                old(self).buffer(),
                old(self).cursor as int,
                c,
            ),
            (State {
                input: old(self).input,
                cursor: old(self).cursor,
                ..*final(self)
            }) == *old(self),
    {
        proof {
            old(self).buffer().insert_ensures(old(self).cursor as int, c);
        }
        if self.input.is_none() {
            self.input = Some(Vec::new());
        }
        match &mut self.input {
            Some(buf) => {
                buf.insert(self.cursor, c);
            },
            None => {},
        }
        self.cursor = self.cursor + 1;
        proof {
            if old(self).input is None {
                assert(old(self).buffer().insert(old(self).cursor as int, c) =~= self.buffer());
            }
        }
    }

    /// Backspace: removes the character before the caret, if any.
    pub fn prompt_delete_before(&mut self)
        requires
            old(self).wf(),
        ensures
            final(self).wf(),
            (final(self).buffer(), final(self).cursor as int) == spec_prompt_delete_before(
                old(self).buffer(),
                old(self).cursor as int,
            ),
            (State {
                input: old(self).input,
                cursor: old(self).cursor,
                ..*final(self)
            }) == *old(self),
    {
        proof {
            if old(self).buffer().len() > 0 && old(self).cursor > 0 {
                old(self).buffer().remove_ensures(old(self).cursor - 1);
            }
        }
        match &mut self.input {
            Some(buf) => {
                if buf.len() > 0 && self.cursor > 0 {
                    self.cursor = self.cursor - 1;
                    buf.remove(self.cursor);
                }
            },
            None => {},
        }
    }

    /// Forward delete: removes the character under the caret, if any.
    pub fn prompt_delete_at(&mut self)
        requires
            old(self).wf(),
        ensures
            final(self).wf(),
            (final(self).buffer(), final(self).cursor as int) == spec_prompt_delete_at(
                old(self).buffer(),
                old(self).cursor as int,
            ),
            (State {
                input: old(self).input,
                cursor: old(self).cursor,
                ..*final(self)
            }) == *old(self),
    {
        proof {
            if old(self).cursor < old(self).buffer().len() {
                old(self).buffer().remove_ensures(old(self).cursor as int);
            }
        }
        let at_end = match &self.input {
            Some(buf) => self.cursor >= buf.len(),
            None => true,
        };
        if !at_end {
            match &mut self.input {
                Some(buf) => {
                    buf.remove(self.cursor);
                },
                None => {},
            }
        }
    }

    /// Moves the prompt caret one character left, stopping at the start.
    pub fn prompt_left(&mut self)
        requires
            old(self).wf(),
        ensures
            final(self).wf(),
            final(self).cursor == if old(self).cursor > 0 {
                old(self).cursor - 1
            } else {
                0int
            },
            (State { cursor: old(self).cursor, ..*final(self) }) == *old(self),
    {
        if self.cursor > 0 {
            self.cursor = self.cursor - 1;
        }
    }

    /// Moves the prompt caret one character right, stopping at the end of
    /// the buffer.
    pub fn prompt_right(&mut self)
        requires
            old(self).wf(),
        ensures
            final(self).wf(),
            final(self).cursor == if old(self).cursor < old(self).buffer().len() {
                old(self).cursor + 1
            } else {
                old(self).cursor as int
            },
            (State { cursor: old(self).cursor, ..*final(self) }) == *old(self),
    {
        let length = match &self.input {
            Some(buf) => buf.len(),
            None => 0,
        };
        if self.cursor < length {
            self.cursor = self.cursor + 1;
        }
    }

    /// Walks one step further back into the open prompt's history: the
    /// buffer becomes the next older committed text, most recent first, with
    /// the caret at its end. Without an open prompt, an empty history, or
    /// with the walk already at the oldest text, nothing happens.
    pub fn history_prev(&mut self)
        requires
            old(self).wf(),
        ensures
            final(self).wf(),
            match old(self).title {
                None => *final(self) == *old(self),
                Some(kind) => {
                    let stack = old(self).history.stack(kind);
                    if stack.len() > 0 && old(self).history_index < stack.len() {
                        &&& final(self).history_index == old(self).history_index + 1
                        &&& final(self).buffer() == stack[stack.len() - (old(self).history_index
                            + 1)]
                        &&& final(self).cursor == final(self).buffer().len()
                        &&& (State {
                            input: old(self).input,
                            cursor: old(self).cursor,
                            history_index: old(self).history_index,
                            ..*final(self)
                        }) == *old(self)
                    } else {
                        *final(self) == *old(self)
                    }
                },
            },
    {
        let kind = match &self.title {
            Some(k) => *k,
            None => {
                return ;
            },
        };
        let depth = self.history.len_of(kind);
        if depth > 0 && self.history_index < depth {
            self.history_index = self.history_index + 1;
            let text = copy_chars(self.history.entry_at(kind, depth - self.history_index));
            self.cursor = text.len();
            self.input = Some(text);
        }
    }

    /// Walks one step forward out of the open prompt's history: towards the
    /// more recent committed texts, and from the most recent one back to a
    /// fresh, empty buffer. At the fresh buffer, or without an open prompt,
    /// nothing happens.
    pub fn history_next(&mut self)
        requires
            old(self).wf(),
        ensures
            final(self).wf(),
            match old(self).title {
                None => *final(self) == *old(self),
                Some(kind) => {
                    let stack = old(self).history.stack(kind);
                    if old(self).history_index > 1 {
                        &&& final(self).history_index == old(self).history_index - 1
                        &&& final(self).buffer() == stack[stack.len() - (old(self).history_index
                            - 1)]
                        &&& final(self).cursor == final(self).buffer().len()
                        &&& (State {
                            input: old(self).input,
                            cursor: old(self).cursor,
                            history_index: old(self).history_index,
                            ..*final(self)
                        }) == *old(self)
                    } else if old(self).history_index == 1 {
                        &&& final(self).history_index == 0
                        &&& final(self).input is None
                        &&& final(self).cursor == 0
                        &&& (State {
                            input: old(self).input,
                            cursor: old(self).cursor,
                            history_index: old(self).history_index,
                            ..*final(self)
                        }) == *old(self)
                    } else {
                        *final(self) == *old(self)
                    }
                },
            },
    {
        let kind = match &self.title {
            Some(k) => *k,
            None => {
                return ;
            },
        };
        if self.history_index > 1 {
            self.history_index = self.history_index - 1;
            let depth = self.history.len_of(kind);
            let text = copy_chars(self.history.entry_at(kind, depth - self.history_index));
            self.cursor = text.len();
            self.input = Some(text);
        } else if self.history_index == 1 {
            self.history_index = 0;
            self.input = None;
            self.cursor = 0;
        }
    }

    /// Commits the prompt: a non-empty buffer is appended to the open
    /// prompt's history, and the prompt closes back to normal mode. The
    /// buffer itself stays for the command the prompt feeds.
    pub fn prompt_commit(&mut self)
        requires
            old(self).wf(),
        ensures
            final(self).wf(),
            final(self).mode == Mode::Normal,
            match old(self).title {
                None => final(self).history == old(self).history,
                Some(kind) => {
                    &&& (old(self).buffer().len() > 0 ==> final(self).history.stack(kind) == old(
                        self,
                    ).history.stack(kind).push(old(self).buffer()) && forall|k: PromptKind|
                        k != kind ==> final(self).history.stack(k) == old(self).history.stack(k))
                    &&& (old(self).buffer().len() == 0 ==> final(self).history == old(
                        self,
                    ).history)
                },
            },
            (State {
                mode: old(self).mode,
                history: old(self).history,
                ..*final(self)
            }) == *old(self),
    {
        let kind = match &self.title {
            Some(k) => Some(*k),
            None => None,
        };
        if let Some(kind) = kind {
            let text = match &self.input {
                Some(buf) => copy_chars(buf),
                None => Vec::new(),
            };
            if text.len() > 0 {
                self.history.push_entry(kind, text);
            }
        }
        self.mode = Mode::Normal;
    }

    /// Cancels the prompt: back to normal mode, the buffer discarded, the
    /// history untouched.
    pub fn prompt_cancel(&mut self)
        requires
            old(self).wf(),
        ensures
            final(self).wf(),
            final(self).mode == Mode::Normal,
            final(self).title is None,
            final(self).input is None,
            final(self).cursor == 0,
            final(self).history_index == 0,
            (State {
                mode: old(self).mode,
                title: old(self).title,
                input: old(self).input,
                cursor: old(self).cursor,
                history_index: old(self).history_index,
                ..*final(self)
            }) == *old(self),
    {
        self.mode = Mode::Normal;
        self.title = None;
        self.input = None;
        self.cursor = 0;
        self.history_index = 0;
    }
}

} // verus!
