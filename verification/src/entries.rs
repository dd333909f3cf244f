use vstd::prelude::*;

use vstd::string::StrSliceExecFns;

use crate::consts::MARGIN;
use crate::state::State;
use crate::Entry;
use crate::EntryKind;

verus! {

/// Whether an entry stays in the list under the dotfile setting: with
/// dotfiles hidden, names starting with a dot are dropped.
pub open spec fn keeps(e: Entry, show_dotfiles: bool) -> bool {
    show_dotfiles || e.file_name@.len() == 0 || e.file_name@[0] != '.'
}

/// The entries that stay visible under the dotfile setting, in their
/// original order.
pub open spec fn visible_entries(raw: Seq<Entry>, show_dotfiles: bool) -> Seq<Entry> {
    raw.filter(|e: Entry| keeps(e, show_dotfiles))
}

/// The directories of a list, keeping their relative order.
pub open spec fn dirs_of(s: Seq<Entry>) -> Seq<Entry> {
    s.filter(|e: Entry| e.kind == EntryKind::Dir)
}

/// The symbolic links of a list, keeping their relative order.
pub open spec fn symlinks_of(s: Seq<Entry>) -> Seq<Entry> {
    s.filter(|e: Entry| e.kind == EntryKind::Symlink)
}

/// The files of a list, keeping their relative order.
pub open spec fn files_of(s: Seq<Entry>) -> Seq<Entry> {
    s.filter(|e: Entry| e.kind == EntryKind::File)
}

/// The list grouped by kind — directories, then symbolic links, then files —
/// with the relative order inside each group exactly as handed over.
pub open spec fn grouped(s: Seq<Entry>) -> Seq<Entry> {
    dirs_of(s) + symlinks_of(s) + files_of(s)
}

/// What the entry list holds after a directory read: the dotfile filter
/// applied first, then the grouping by kind.
pub open spec fn arranged(raw: Seq<Entry>, show_dotfiles: bool) -> Seq<Entry> {
    grouped(visible_entries(raw, show_dotfiles))
}

/// Drops the entries hidden by the dotfile setting, keeping order.
pub fn filter_dotfiles(raw: Vec<Entry>, show_dotfiles: bool) -> (r: Vec<Entry>)
    ensures
        r@ == visible_entries(raw@, show_dotfiles),
{
    let mut kept: Vec<Entry> = Vec::new();
    let mut i: usize = 0;
    while i < raw.len()
        invariant
            i <= raw@.len(),
            kept@ == visible_entries(raw@.take(i as int), show_dotfiles),
        decreases raw@.len() - i,
    {
        proof {
            broadcast use vstd::prelude::Seq::lemma_filter_push;

            assert(raw@.take(i + 1) =~= raw@.take(i as int).push(raw@[i as int]));
        }
        let e = &raw[i];
        let keep = if show_dotfiles {
            true
        } else if e.file_name.as_str().is_empty() {
            true
        } else {
            e.file_name.as_str().get_char(0) != '.'
        };
        if keep {
            kept.push(e.clone());
        }
        i = i + 1;
    }
    proof {
        assert(raw@.take(raw@.len() as int) =~= raw@);
    }
    kept
}

/// Groups a list by kind: directories first, then symbolic links, then
/// files, each group in its original relative order.
pub fn group_entries(raw: Vec<Entry>) -> (r: Vec<Entry>)
    ensures
        r@ == grouped(raw@),
{
    let mut dirs: Vec<Entry> = Vec::new();
    let mut symlinks: Vec<Entry> = Vec::new();
    let mut files: Vec<Entry> = Vec::new();
    let mut i: usize = 0;
    while i < raw.len()
        invariant
            i <= raw@.len(),
            dirs@ == dirs_of(raw@.take(i as int)),
            symlinks@ == symlinks_of(raw@.take(i as int)),
            files@ == files_of(raw@.take(i as int)),
        decreases raw@.len() - i,
    {
        proof {
            broadcast use vstd::prelude::Seq::lemma_filter_push;

            assert(raw@.take(i + 1) =~= raw@.take(i as int).push(raw@[i as int]));
        }
        let e = raw[i].clone();
        match e.kind {
            EntryKind::Dir => dirs.push(e),
            EntryKind::Symlink => symlinks.push(e),
            EntryKind::File => files.push(e),
        }
        i = i + 1;
    }
    proof {
        assert(raw@.take(raw@.len() as int) =~= raw@);
    }
    let mut out = dirs;
    out.append(&mut symlinks);
    out.append(&mut files);
    out
}

/// Filters and groups a directory read, as the entry list shows it.
pub fn arrange_entries(raw: Vec<Entry>, show_dotfiles: bool) -> (r: Vec<Entry>)
    ensures
        r@ == arranged(raw@, show_dotfiles),
{
    let kept = filter_dotfiles(raw, show_dotfiles);
    group_entries(kept)
}

impl State {
    /// Enters a directory: installs its freshly read entries (filtered and
    /// grouped), moves the caret and the viewport to the top, drops the
    /// selection and any status message, all in one step. The filesystem
    /// collaborator reads the entries; this crate decides what the state
    /// becomes.
    pub fn change_directory(&mut self, path: String, raw: Vec<Entry>)
        requires
            old(self).wf(),
        ensures
            final(self).wf(),
            final(self).path == path,
            final(self).list@ == arranged(raw@, old(self).show_dotfiles),
            final(self).index == 0,
            final(self).offset == 0,
            final(self).selected@.len() == 0,
            final(self).message is None,
            (State {
                path: old(self).path,
                list: old(self).list,
                index: old(self).index,
                offset: old(self).offset,
                selected: old(self).selected,
                message: old(self).message,
                ..*final(self)
            }) == *old(self),
    {
        self.path = path;
        self.list = arrange_entries(raw, self.show_dotfiles);
        self.index = 0;
        self.offset = 0;
        self.selected = Vec::new();
        self.message = None;
    }

    /// Re-reads the current directory: the entry list is replaced and the
    /// selection and status message dropped, but the caret and viewport
    /// stay where they were, clamped into the new list and back into the
    /// visible slice when the list shrank or the caret had drifted into
    /// the tail relaxation.
    pub fn refresh(&mut self, raw: Vec<Entry>)
        requires
            old(self).wf(),
        ensures
            final(self).wf(),
            final(self).list@ == arranged(raw@, old(self).show_dotfiles),
            final(self).selected@.len() == 0,
            final(self).message is None,
            final(self).index == if final(self).list@.len() == 0 {
                0int
            } else if old(self).index < final(self).list@.len() {
                old(self).index as int
            } else {
                final(self).list@.len() - 1
            },
            final(self).offset == ({
                let held = if old(self).offset <= final(self).index {
                    old(self).offset as int
                } else {
                    final(self).index as int
                };
                if final(self).list@.len() == 0 {
                    0int
                } else if final(self).index < held + old(self).visible_rows() {
                    held
                } else {
                    final(self).index - old(self).visible_rows() + 1
                }
            }),
            (State {
                list: old(self).list,
                index: old(self).index,
                offset: old(self).offset,
                selected: old(self).selected,
                message: old(self).message,
                ..*final(self)
            }) == *old(self),
    {
        self.list = arrange_entries(raw, self.show_dotfiles);
        let length = self.list.len();
        if length == 0 {
            self.index = 0;
            self.offset = 0;
        } else {
            if self.index >= length {
                self.index = length - 1;
            }
            if self.offset > self.index {
                self.offset = self.index;
            }
            let rows = self.lines - MARGIN + 1;
            if self.index - self.offset >= rows {
                self.offset = self.index - (rows - 1);
            }
        }
        self.selected = Vec::new();
        self.message = None;
    }

    /// Flips the dotfile setting and installs the re-read entries under the
    /// new setting; caret, viewport, selection and status message reset as
    /// for any directory change.
    pub fn toggle_dotfiles(&mut self, raw: Vec<Entry>)
        requires
            old(self).wf(),
        ensures
            final(self).wf(),
            final(self).show_dotfiles == !old(self).show_dotfiles,
            final(self).list@ == arranged(raw@, !old(self).show_dotfiles),
            final(self).index == 0,
            final(self).offset == 0,
            final(self).selected@.len() == 0,
            final(self).message is None,
            (State {
                show_dotfiles: old(self).show_dotfiles,
                list: old(self).list,
                index: old(self).index,
                offset: old(self).offset,
                selected: old(self).selected,
                message: old(self).message,
                ..*final(self)
            }) == *old(self),
    {
        self.show_dotfiles = !self.show_dotfiles;
        self.list = arrange_entries(raw, self.show_dotfiles);
        self.index = 0;
        self.offset = 0;
        self.selected = Vec::new();
        self.message = None;
    }
}

} // verus!
