use vstd::prelude::*;

use vstd::string::StringExecFns;

use crate::config::Config;
use crate::nav::moved_post;
use crate::paths::join_path;
use crate::paths::parent_path;
use crate::paths::extension_of;
use crate::paths::spec_extension;
use crate::paths::spec_join;
use crate::paths::spec_parent;
use crate::prompt::spec_prompt_delete_at;
use crate::prompt::spec_prompt_delete_before;
use crate::prompt::spec_prompt_insert;
use crate::search::do_search;
use crate::search::regex_valid;
use crate::search::search_post;
use crate::state::State;
use crate::text::chars_to_string;
use crate::text::decimal_chars;
use crate::text::lower_of;
use crate::text::spec_decimal;
use crate::Message;
use crate::MessageKind;
use crate::Mode;
use crate::Move;
use crate::EntryKind;
use crate::FolderDir;
use crate::PromptKind;

verus! {

/// One abstract input event, as the terminal collaborator decodes it from a
/// key press.
#[derive(PartialEq, Eq, Structural, Clone, Copy, Debug)]
pub enum Event {
    MoveCaret(Move),
    ChangeDir(FolderDir),
    ToggleDotfiles,
    ToggleSelect,
    SelectAll,
    ClearSelection,
    Refresh,
    OpenEntry,
    OpenPrompt(PromptKind),
    PromptInsert(char),
    PromptDeleteBefore,
    PromptDeleteAt,
    PromptLeft,
    PromptRight,
    HistoryPrev,
    HistoryNext,
    PromptCommit,
    PromptCancel,
    DismissOutput,
    Quit,
}

/// What the collaborators outside this crate are asked to do after an
/// event: nothing, or one piece of input/output whose outcome comes back
/// through the matching operation of this crate.
#[derive(Debug)]
pub enum Action {
    /// Nothing left to do but redraw.
    Nothing,
    /// Leave the program.
    Quit,
    /// Read the named directory and hand its entries to `change_directory`.
    EnterDir { path: String },
    /// Read the home directory and hand its entries to `change_directory`.
    EnterHome,
    /// Re-read the current directory and hand its entries to `refresh`.
    RefreshDir,
    /// Re-read the current directory and hand its entries to
    /// `toggle_dotfiles`.
    ToggleDotfiles,
    /// Expand and resolve this goto input; on success read the directory
    /// and hand it to `change_directory`, else report an invalid path.
    OpenPath { input: String },
    /// Open the file with the application; hand the outcome to
    /// `finish_open`.
    Launch { app: String, file_name: String },
    /// Run the command; hand the outcome to `apply_exec_outcome`.
    Execute { command: String, args: Vec<String> },
}

/// The position of the first space, or `-1` without one.
pub open spec fn first_space(s: Seq<char>) -> int
    decreases s.len(),
{
    if s.len() == 0 {
        -1
    } else if s[0] == ' ' {
        0
    } else {
        let r = first_space(s.drop_first());
        if r == -1 {
            -1
        } else {
            r + 1
        }
    }
}

/// A text split at every single space, empty pieces kept: what the exec
/// input is divided into before it runs.
pub open spec fn split_spaces(s: Seq<char>) -> Seq<Seq<char>>
    decreases s.len(),
{
    let i = first_space(s);
    if !(0 <= i < s.len()) {
        seq![s]
    } else {
        seq![s.take(i)] + split_spaces(s.skip(i + 1))
    }
}

/// Without a space, there is no first one.
proof fn lemma_first_space_none(a: Seq<char>)
    requires
        forall|k: int| 0 <= k < a.len() ==> a[k] != ' ',
    ensures
        first_space(a) == -1,
    decreases a.len(),
{
    if a.len() > 0 {
        lemma_first_space_none(a.drop_first());
    }
}

/// The first space of a space-free piece followed by a space sits right
/// after the piece.
proof fn lemma_first_space_concat(a: Seq<char>, rest: Seq<char>)
    requires
        forall|k: int| 0 <= k < a.len() ==> a[k] != ' ',
    ensures
        first_space(a + seq![' '] + rest) == a.len(),
    decreases a.len(),
{
    let s = a + seq![' '] + rest;
    if a.len() == 0 {
        assert(s[0] == ' ');
    } else {
        assert(s[0] == a[0]);
        assert(s.drop_first() =~= a.drop_first() + seq![' '] + rest);
        lemma_first_space_concat(a.drop_first(), rest);
    }
}

/// Splitting a space-free piece, a space, and a remainder yields the piece
/// and then the split of the remainder.
proof fn lemma_split_spaces_step(a: Seq<char>, rest: Seq<char>)
    requires
        forall|k: int| 0 <= k < a.len() ==> a[k] != ' ',
    ensures
        split_spaces(a + seq![' '] + rest) == seq![a] + split_spaces(rest),
{
    let s = a + seq![' '] + rest;
    lemma_first_space_concat(a, rest);
    assert(s.take(a.len() as int) =~= a);
    assert(s.skip(a.len() as int + 1) =~= rest);
}

/// Splits a buffer at every single space, empty pieces kept.
fn split_on_spaces(input: &Vec<char>) -> (r: Vec<Vec<char>>)
    ensures
        r.deep_view() == split_spaces(input@),
{
    let mut tokens: Vec<Vec<char>> = Vec::new();
    let mut piece: Vec<char> = Vec::new();
    let mut j: usize = 0;
    proof {
        assert(piece@ + input@.skip(0) =~= input@);
        assert(tokens.deep_view() =~= Seq::<Seq<char>>::empty());
        assert(Seq::<Seq<char>>::empty() + split_spaces(input@) =~= split_spaces(input@));
    }
    while j < input.len()
        invariant
            j <= input@.len(),
            forall|k: int| 0 <= k < piece@.len() ==> piece@[k] != ' ',
            tokens.deep_view() + split_spaces(piece@ + input@.skip(j as int)) == split_spaces(
                input@,
            ),
        decreases input@.len() - j,
    {
        let c = input[j];
        if c == ' ' {
            proof {
                assert(piece@ + input@.skip(j as int) =~= piece@ + seq![' '] + input@.skip(
                    j + 1,
                ));
                lemma_split_spaces_step(piece@, input@.skip(j + 1));
                assert(tokens.deep_view().push(piece@) + split_spaces(input@.skip(j + 1))
                    =~= tokens.deep_view() + (seq![piece@] + split_spaces(input@.skip(j + 1))));
            }
            let ghost old_tokens = tokens.deep_view();
            let ghost old_piece = piece@;
            tokens.push(piece);
            piece = Vec::new();
            proof {
                assert(tokens.deep_view() =~~= old_tokens.push(old_piece));
                assert(piece@ + input@.skip(j + 1) =~= input@.skip(j + 1));
            }
        } else {
            let ghost old_piece = piece@;
            piece.push(c);
            proof {
                assert(piece@ + input@.skip(j + 1) =~= old_piece + input@.skip(j as int));
            }
        }
        j = j + 1;
    }
    proof {
        assert(piece@ + input@.skip(input@.len() as int) =~= piece@);
        lemma_first_space_none(piece@);
        assert(split_spaces(piece@) =~= seq![piece@]);
        assert(tokens.deep_view().push(piece@) =~= tokens.deep_view() + seq![piece@]);
    }
    let ghost old_tokens = tokens.deep_view();
    let ghost old_piece = piece@;
    tokens.push(piece);
    proof {
        assert(tokens.deep_view() =~~= old_tokens.push(old_piece));
    }
    tokens
}

/// Divides an exec input into the command and its arguments: the pieces
/// around every single space, the first being the command, empty pieces
/// kept.
pub fn parse_command(input: &Vec<char>) -> (r: (String, Vec<String>))
    ensures
        r.0@ == split_spaces(input@)[0],
        r.1.deep_view() == split_spaces(input@).drop_first(),
{
    let tokens = split_on_spaces(input);
    proof {
        assert(split_spaces(input@).len() >= 1);
        assert(tokens.deep_view()[0] == tokens@[0]@);
    }
    let command = chars_to_string(&tokens[0]);
    let mut args: Vec<String> = Vec::new();
    let mut k: usize = 1;
    while k < tokens.len()
        invariant
            1 <= k <= tokens@.len(),
            tokens.deep_view() == split_spaces(input@),
            args.deep_view() =~= tokens.deep_view().subrange(1, k as int),
        decreases tokens@.len() - k,
    {
        let ghost old_args = args.deep_view();
        args.push(chars_to_string(&tokens[k]));
        proof {
            assert(tokens.deep_view()[k as int] =~= tokens@[k as int]@);
            assert(args.deep_view() =~~= old_args.push(tokens@[k as int]@));
            assert(tokens.deep_view().subrange(1, k + 1) =~= tokens.deep_view().subrange(
                1,
                k as int,
            ).push(tokens.deep_view()[k as int]));
        }
        k = k + 1;
    }
    proof {
        assert(tokens.deep_view().subrange(1, tokens.deep_view().len() as int)
            =~= tokens.deep_view().drop_first());
    }
    (command, args)
}

/// What came back from running an external command: it launched, with its
/// exit code (if any) and captured output, or it could not be started.
pub enum ExecOutcome {
    Launched { code: Option<i32>, stdout: String, stderr: String },
    Failed { reason: String },
}

impl State {
    /// Takes the outcome of an executed command over: a clean exit shows
    /// its standard output in place of the list, a failing exit its
    /// standard error; a missing exit code or a command that never started
    /// becomes an error on the status line.
    pub fn apply_exec_outcome(&mut self, outcome: ExecOutcome)
        requires
            old(self).wf(),
        ensures
            final(self).wf(),
            match outcome {
                ExecOutcome::Launched { code, stdout, stderr } => match code {
                    Some(c) => {
                        &&& final(self).output == Some(
                            if c == 0 {
                                stdout
                            } else {
                                stderr
                            },
                        )
                        &&& (State { output: old(self).output, ..*final(self) }) == *old(self)
                    },
                    None => {
                        &&& final(self).message matches Some(m) && m.kind == MessageKind::Error
                            && m.text@ == "Failed to execute! Reason: Status code unknown"@
                        &&& (State { message: old(self).message, ..*final(self) }) == *old(self)
                    },
                },
                ExecOutcome::Failed { reason } => {
                    &&& final(self).message matches Some(m) && m.kind == MessageKind::Error
                        && m.text@ == "Failed to execute! Reason: "@ + reason@
                    &&& (State { message: old(self).message, ..*final(self) }) == *old(self)
                },
            },
    {
        match outcome {
            ExecOutcome::Launched { code, stdout, stderr } => {
                match code {
                    Some(c) => {
                        self.output = Some(
                            if c == 0 {
                                stdout
                            } else {
                                stderr
                            },
                        );
                    },
                    None => {
                        self.message = Some(
                            Message::error("Failed to execute! Reason: Status code unknown"),
                        );
                    },
                }
            },
            ExecOutcome::Failed { reason } => {
                let mut text = String::new();
                text.append("Failed to execute! Reason: ");
                text.append(reason.as_str());
                proof {
                    assert(Seq::<char>::empty() + "Failed to execute! Reason: "@ + reason@
                        =~= "Failed to execute! Reason: "@ + reason@);
                }
                self.message = Some(
                    Message { text, kind: MessageKind::Error },
                );
            },
        }
    }

    /// Takes the outcome of opening a file over: a failure becomes an error
    /// on the status line, success changes nothing.
    pub fn finish_open(&mut self, success: bool)
        requires
            old(self).wf(),
        ensures
            final(self).wf(),
            success ==> *final(self) == *old(self),
            !success ==> match final(self).message {
                Some(m) => m.kind == MessageKind::Error && m.text@ == "Unable to open file!"@,
                None => false,
            },
            !success ==> (State { message: old(self).message, ..*final(self) }) == *old(self),
    {
        if !success {
            self.message = Some(Message::error("Unable to open file!"));
        }
    }
}

/// The status message a selection mutation owes: no message when nothing
/// is selected, singular wording for one entry, plural wording with the
/// count written out for more.
pub open spec fn sel_status_ok(count: nat, message: Option<Message>) -> bool {
    if count == 0 {
        message is None
    } else if count == 1 {
        message matches Some(m) && m.kind == MessageKind::Info && m.text@ == "1 item selected"@
    } else {
        message matches Some(m) && m.kind == MessageKind::Info && m.text@ == spec_decimal(count)
            + " items selected"@
    }
}

/// Computes the status message for a selection of this size: none for an
/// empty selection, singular for one entry, the count written out for
/// more. The selection operations do not own this text; every selection
/// mutation of the engine puts it on the status line.
pub fn selection_status(count: usize) -> (r: Option<Message>)
    ensures
        sel_status_ok(count as nat, r),
{
    if count == 0 {
        None
    } else if count == 1 {
        Some(Message::info("1 item selected"))
    } else {
        let mut text = chars_to_string(&decimal_chars(count));
        text.append(" items selected");
        Some(Message { text, kind: MessageKind::Info })
    }
}

/// What opening the entry under the caret decides: on a directory a
/// warning; on anything else the configured application for the name's
/// extension, or a warning when none is configured.
pub open spec fn open_post(pre: State, post: State, act: Action) -> bool {
    if pre.list@.len() == 0 {
        post == pre && act is Nothing
    } else {
        let e = pre.list@[pre.index as int];
        if e.kind == EntryKind::Dir {
            &&& act is Nothing
            &&& post.message matches Some(m) && m.kind == MessageKind::Warn && m.text@
                == "Entry is not a file!"@
            &&& (State { message: pre.message, ..post }) == pre
        } else {
            match act {
                Action::Launch { app, file_name } => {
                    &&& file_name@ == e.file_name@
                    &&& pre.config.app_choice(lower_of(spec_extension(e.file_name@)), Some(app@))
                    &&& post == pre
                },
                Action::Nothing => {
                    &&& pre.config.app_choice(lower_of(spec_extension(e.file_name@)), None)
                    &&& post.message matches Some(m) && m.kind == MessageKind::Warn && m.text@
                        == "No app for given file extension specified!"@
                    &&& (State { message: pre.message, ..post }) == pre
                },
                _ => false,
            }
        }
    }
}

/// What stepping into the entry under the caret decides: a file is opened
/// as `open_post` says; anything else is entered as a directory.
pub open spec fn child_post(pre: State, post: State, act: Action) -> bool {
    if pre.list@.len() == 0 {
        post == pre && act is Nothing
    } else {
        let e = pre.list@[pre.index as int];
        if e.kind == EntryKind::File {
            open_post(pre, post, act)
        } else {
            &&& post == pre
            &&& act matches Action::EnterDir { path } && path@ == spec_join(
                pre.path@,
                e.file_name@,
            )
        }
    }
}

/// The history of one prompt kind after a commit: a non-empty buffer went
/// on top of its stack, the other stacks untouched; an empty buffer left
/// the history alone.
pub open spec fn commit_history(pre: State, post: State, kind: PromptKind) -> bool {
    &&& (pre.buffer().len() > 0 ==> post.history.stack(kind) == pre.history.stack(kind).push(
        pre.buffer(),
    ) && forall|k: PromptKind| k != kind ==> post.history.stack(k) == pre.history.stack(k))
    &&& (pre.buffer().len() == 0 ==> post.history == pre.history)
}

/// What committing the open prompt decides, kind by kind: the buffer goes
/// to that kind's history, the prompt closes, and the kind's command runs —
/// the search right here against the entry names, the goto and the exec as
/// actions for the collaborators, each carrying the committed text. An
/// empty buffer commits nothing and runs nothing.
pub open spec fn commit_post(pre: State, post: State, act: Action) -> bool {
    match pre.title {
        None => post == (State { mode: Mode::Normal, ..pre }) && act is Nothing,
        Some(kind) => {
            &&& post.mode == Mode::Normal
            &&& commit_history(pre, post, kind)
            &&& match kind {
                PromptKind::Search => {
                    &&& act is Nothing
                    &&& (pre.buffer().len() == 0 ==> (State {
                        mode: pre.mode,
                        history: pre.history,
                        ..post
                    }) == pre)
                    &&& (pre.buffer().len() > 0 ==> ({
                        let pattern = pre.buffer();
                        let mid = State { mode: post.mode, history: post.history, ..pre };
                        if regex_valid(pattern) {
                            search_post(mid, post, pattern)
                        } else {
                            &&& post.message matches Some(m) && m.kind == MessageKind::Error
                                && m.text@ == "Invalid search pattern!"@
                            &&& (State { message: pre.message, ..post }) == mid
                        }
                    }))
                },
                PromptKind::Goto => {
                    &&& (State { mode: pre.mode, history: pre.history, ..post }) == pre
                    &&& (pre.buffer().len() == 0 ==> act is Nothing)
                    &&& (pre.buffer().len() > 0 ==> match act {
                        Action::OpenPath { input } => input@ == pre.buffer(),
                        _ => false,
                    })
                },
                PromptKind::Exec => {
                    &&& (State { mode: pre.mode, history: pre.history, ..post }) == pre
                    &&& (pre.buffer().len() == 0 ==> act is Nothing)
                    &&& (pre.buffer().len() > 0 ==> match act {
                        Action::Execute { command, args } => command@ == split_spaces(
                            pre.buffer(),
                        )[0] && args.deep_view() == split_spaces(pre.buffer()).drop_first(),
                        _ => false,
                    })
                },
            }
        },
    }
}

/// What one event does to the state, and which action it asks of the
/// collaborators outside this crate, event by event.
pub open spec fn handled(pre: State, post: State, ev: Event, act: Action) -> bool {
    match ev {
        Event::MoveCaret(m) => moved_post(pre, post, m) && act is Nothing,
        Event::ChangeDir(dir) => match dir {
            FolderDir::Parent => post == pre && match spec_parent(pre.path@) {
                Some(p) => act matches Action::EnterDir { path } && path@ == p,
                None => act is Nothing,
            },
            FolderDir::Child => child_post(pre, post, act),
            FolderDir::Home => post == pre && act is EnterHome,
        },
        Event::ToggleDotfiles => post == pre && act is ToggleDotfiles,
        Event::ToggleSelect => {
            &&& act is Nothing
            &&& (pre.list@.len() == 0 ==> post == pre)
            &&& (pre.list@.len() > 0 ==> post.sel() == crate::nav::spec_toggle(
                pre.sel(),
                pre.index,
            ) && sel_status_ok(post.selected@.len(), post.message) && (State {
                selected: pre.selected,
                message: pre.message,
                ..post
            }) == pre)
        },
        Event::SelectAll => {
            &&& act is Nothing
            &&& (pre.list@.len() == 0 ==> post == pre)
            &&& (pre.list@.len() > 0 ==> post.selected@.len() == pre.list@.len() && (forall|j: int|
                0 <= j < post.selected@.len() ==> #[trigger] post.selected@[j] == j)
                && sel_status_ok(post.selected@.len(), post.message) && (State {
                selected: pre.selected,
                message: pre.message,
                ..post
            }) == pre)
        },
        Event::ClearSelection => {
            &&& act is Nothing
            &&& post.selected@.len() == 0
            &&& post.message is None
            &&& (State { selected: pre.selected, message: pre.message, ..post }) == pre
        },
        Event::Refresh => post == pre && act is RefreshDir,
        Event::OpenEntry => open_post(pre, post, act),
        Event::OpenPrompt(kind) => act is Nothing && post == (State {
            mode: Mode::Prompt,
            title: Some(kind),
            input: None,
            cursor: 0,
            history_index: 0,
            ..pre
        }),
        Event::PromptInsert(c) => {
            &&& act is Nothing
            &&& (post.buffer(), post.cursor as int) == spec_prompt_insert(
                pre.buffer(),
                pre.cursor as int,
                c,
            )
            &&& (State { input: pre.input, cursor: pre.cursor, ..post }) == pre
        },
        Event::PromptDeleteBefore => {
            &&& act is Nothing
            &&& (post.buffer(), post.cursor as int) == spec_prompt_delete_before(
                pre.buffer(),
                pre.cursor as int,
            )
            &&& (State { input: pre.input, cursor: pre.cursor, ..post }) == pre
        },
        Event::PromptDeleteAt => {
            &&& act is Nothing
            &&& (post.buffer(), post.cursor as int) == spec_prompt_delete_at(
                pre.buffer(),
                pre.cursor as int,
            )
            &&& (State { input: pre.input, cursor: pre.cursor, ..post }) == pre
        },
        Event::PromptLeft => {
            &&& act is Nothing
            &&& post.cursor == if pre.cursor > 0 {
                pre.cursor - 1
            } else {
                0int
            }
            &&& (State { cursor: pre.cursor, ..post }) == pre
        },
        Event::PromptRight => {
            &&& act is Nothing
            &&& post.cursor == if pre.cursor < pre.buffer().len() {
                pre.cursor + 1
            } else {
                pre.cursor as int
            }
            &&& (State { cursor: pre.cursor, ..post }) == pre
        },
        Event::HistoryPrev => act is Nothing && match pre.title {
            None => post == pre,
            Some(kind) => {
                let stack = pre.history.stack(kind);
                if stack.len() > 0 && pre.history_index < stack.len() {
                    &&& post.history_index == pre.history_index + 1
                    &&& post.buffer() == stack[stack.len() - (pre.history_index + 1)]
                    &&& post.cursor == post.buffer().len()
                    &&& (State {
                        input: pre.input,
                        cursor: pre.cursor,
                        history_index: pre.history_index,
                        ..post
                    }) == pre
                } else {
                    post == pre
                }
            },
        },
        Event::HistoryNext => act is Nothing && match pre.title {
            None => post == pre,
            Some(kind) => {
                let stack = pre.history.stack(kind);
                if pre.history_index > 1 {
                    &&& post.history_index == pre.history_index - 1
                    &&& post.buffer() == stack[stack.len() - (pre.history_index - 1)]
                    &&& post.cursor == post.buffer().len()
                    &&& (State {
                        input: pre.input,
                        cursor: pre.cursor,
                        history_index: pre.history_index,
                        ..post
                    }) == pre
                } else if pre.history_index == 1 {
                    &&& post.history_index == 0
                    &&& post.input is None
                    &&& post.cursor == 0
                    &&& (State {
                        input: pre.input,
                        cursor: pre.cursor,
                        history_index: pre.history_index,
                        ..post
                    }) == pre
                } else {
                    post == pre
                }
            },
        },
        Event::PromptCommit => commit_post(pre, post, act),
        Event::PromptCancel => {
            &&& act is Nothing
            &&& post == (State {
                mode: Mode::Normal,
                title: None,
                input: None,
                cursor: 0,
                history_index: 0,
                ..pre
            })
        },
        Event::DismissOutput => {
            &&& act is RefreshDir
            &&& post == (State { output: None, ..pre })
        },
        Event::Quit => post == pre && act is Quit,
    }
}

/// Opens the entry under the caret, as `open_post` says: a directory earns
/// a warning, a file the configured application for its extension.
fn open_current(state: &mut State) -> (act: Action)
    requires
        old(state).wf(),
    ensures
        final(state).wf(),
        open_post(*old(state), *final(state), act),
{
    if state.list.len() == 0 {
        return Action::Nothing;
    }
    let entry = &state.list[state.index];
    let name = entry.file_name.clone();
    let is_dir = entry.kind == EntryKind::Dir;
    if is_dir {
        state.set_message(Message::warn("Entry is not a file!"));
        return Action::Nothing;
    }
    let ext = extension_of(name.as_str());
    match state.config.get_app(ext.as_str()) {
        Some(app) => Action::Launch { app, file_name: name },
        None => {
            state.set_message(Message::warn("No app for given file extension specified!"));
            Action::Nothing
        },
    }
}

/// Dispatches one input event: the state changes as `handled` says, and
/// the returned action tells the caller which piece of input/output to
/// perform next, if any.
pub fn handle_event(state: &mut State, ev: Event) -> (act: Action)
    requires
        old(state).wf(),
        ev matches Event::PromptInsert(_) ==> old(state).buffer().len() < usize::MAX,
    ensures
        final(state).wf(),
        handled(*old(state), *final(state), ev, act),
{
    match ev {
        Event::MoveCaret(m) => {
            crate::nav::move_caret(state, m);
            Action::Nothing
        },
        Event::ChangeDir(dir) => match dir {
            FolderDir::Parent => match parent_path(state.path.as_str()) {
                Some(parent) => Action::EnterDir { path: parent },
                None => Action::Nothing,
            },
            FolderDir::Child => {
                if state.list.len() == 0 {
                    return Action::Nothing;
                }
                let entry = &state.list[state.index];
                let is_file = entry.kind == EntryKind::File;
                if is_file {
                    open_current(state)
                } else {
                    let joined = join_path(state.path.as_str(), entry.file_name.as_str());
                    Action::EnterDir { path: joined }
                }
            },
            FolderDir::Home => Action::EnterHome,
        },
        Event::ToggleDotfiles => Action::ToggleDotfiles,
        Event::ToggleSelect => {
            state.toggle_select();
            if state.list.len() > 0 {
                state.message = selection_status(state.selected.len());
            }
            Action::Nothing
        },
        Event::SelectAll => {
            state.select_all();
            if state.list.len() > 0 {
                state.message = selection_status(state.selected.len());
            }
            Action::Nothing
        },
        Event::ClearSelection => {
            state.clear_selection();
            state.message = None;
            Action::Nothing
        },
        Event::Refresh => Action::RefreshDir,
        Event::OpenEntry => open_current(state),
        Event::OpenPrompt(kind) => {
            state.open_prompt(kind);
            Action::Nothing
        },
        Event::PromptInsert(c) => {
            state.prompt_insert(c);
            Action::Nothing
        },
        Event::PromptDeleteBefore => {
            state.prompt_delete_before();
            Action::Nothing
        },
        Event::PromptDeleteAt => {
            state.prompt_delete_at();
            Action::Nothing
        },
        Event::PromptLeft => {
            state.prompt_left();
            Action::Nothing
        },
        Event::PromptRight => {
            state.prompt_right();
            Action::Nothing
        },
        Event::HistoryPrev => {
            state.history_prev();
            Action::Nothing
        },
        Event::HistoryNext => {
            state.history_next();
            Action::Nothing
        },
        Event::PromptCommit => {
            let kind = match &state.title {
                Some(k) => Some(*k),
                None => None,
            };
            state.prompt_commit();
            match kind {
                None => Action::Nothing,
                Some(PromptKind::Search) => {
                    do_search(state);
                    Action::Nothing
                },
                Some(PromptKind::Goto) => {
                    match &state.input {
                        Some(buf) => {
                            if buf.len() == 0 {
                                Action::Nothing
                            } else {
                                Action::OpenPath { input: chars_to_string(buf) }
                            }
                        },
                        None => Action::Nothing,
                    }
                },
                Some(PromptKind::Exec) => {
                    match &state.input {
                        Some(buf) => {
                            if buf.len() == 0 {
                                Action::Nothing
                            } else {
                                let (command, args) = parse_command(buf);
                                Action::Execute { command, args }
                            }
                        },
                        None => Action::Nothing,
                    }
                },
            }
        },
        Event::PromptCancel => {
            state.prompt_cancel();
            Action::Nothing
        },
        Event::DismissOutput => {
            state.clear_output();
            Action::RefreshDir
        },
        Event::Quit => Action::Quit,
    }
}

} // verus!
