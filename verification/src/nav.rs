use vstd::prelude::*;

use crate::consts::MARGIN;
use crate::state::State;
use crate::Move;

verus! {

/// The caret after one step down: stops at the end of the list; the offset
/// follows once the caret reaches the lower context zone, but stops within
/// `padding` entries of the end so the tail settles at the bottom of the
/// screen instead of leaving blank rows — the tail-pinning relaxation that
/// `view_ok` admits.
pub open spec fn spec_move_down(s: State) -> State {
    if s.list@.len() == 0 || s.index + 1 >= s.list@.len() {
        s
    } else {
        let caret = s.index + 1;
        let scroll = caret + s.padding >= s.offset + s.visible_rows() && s.list@.len() - caret
            > s.padding;
        let shifted = if scroll {
            s.offset + 1
        } else {
            s.offset as int
        };
        State { index: caret as usize, offset: shifted as usize, ..s }
    }
}

/// The caret after one step up: stops at the start of the list; the offset
/// follows once the caret enters the upper context zone, but never below
/// zero.
pub open spec fn spec_move_up(s: State) -> State {
    if s.list@.len() == 0 || s.index == 0 {
        s
    } else {
        let caret = s.index - 1;
        let shifted = if s.offset > 0 && caret < s.offset + s.padding {
            s.offset - 1
        } else {
            s.offset as int
        };
        State { index: caret as usize, offset: shifted as usize, ..s }
    }
}

/// The state after jumping to the top of the list.
pub open spec fn spec_jump_top(s: State) -> State {
    if s.list@.len() == 0 {
        s
    } else {
        State { index: 0, offset: 0, ..s }
    }
}

/// The offset that pins the last entry to the last visible row, or zero when
/// the whole list fits on screen.
pub open spec fn spec_bottom_offset(s: State) -> int {
    if s.list@.len() >= s.visible_rows() {
        s.list@.len() - s.visible_rows()
    } else {
        0
    }
}

/// The state after jumping to the bottom of the list.
pub open spec fn spec_jump_bottom(s: State) -> State {
    if s.list@.len() == 0 {
        s
    } else {
        State {
            index: (s.list@.len() - 1) as usize,
            offset: spec_bottom_offset(s) as usize,
            ..s
        }
    }
}

/// The offset recomputed after a jump of the caret: zero when the caret is
/// visible without scrolling; unchanged when the caret already sits in the
/// viewport; otherwise pulled to keep `pad` rows of context under the caret,
/// or pinned to the tail when the caret is within `pad` entries of the end.
pub open spec fn spec_snap_offset(index: int, offset: int, len: int, rows: int, pad: int) -> int {
    if index + pad + 1 < rows {
        0
    } else if offset > index || index - offset + pad + 1 > rows {
        if len - index <= pad {
            if len >= rows {
                len - rows
            } else {
                0
            }
        } else {
            index - (rows - 1 - pad)
        }
    } else {
        offset
    }
}

impl State {
    /// Recomputes the offset after the caret jumped, as `spec_snap_offset`
    /// says.
    fn snap_offset(&mut self)
        requires
            old(self).lines >= MARGIN + old(self).padding,
            old(self).list@.len() > 0,
            old(self).index < old(self).list@.len(),
        ensures
            *final(self) == (State {
                offset: spec_snap_offset(
                    old(self).index as int,
                    old(self).offset as int,
                    old(self).list@.len() as int,
                    old(self).visible_rows(),
                    old(self).padding as int,
                ) as usize,
                ..*old(self)
            }),
            final(self).offset <= final(self).index,
            final(self).index < final(self).offset + final(self).visible_rows(),
    {
        let rows = self.lines - MARGIN + 1;
        let pad = self.padding;
        let length = self.list.len();
        if self.index < rows - pad - 1 {
            self.offset = 0;
        } else if self.offset > self.index || self.index - self.offset > rows - 1 - pad {
            if length - self.index <= pad {
                self.offset = if length >= rows {
                    length - rows
                } else {
                    0
                };
            } else {
                self.offset = self.index - (rows - 1 - pad);
            }
        }
    }

    /// Moves the caret one entry down, scrolling as `spec_move_down` says.
    /// A well-formed state stays well-formed: the caret keeps to the list
    /// and to the visible slice.
    pub fn move_down(&mut self)
        requires
            old(self).wf(),
        ensures
            final(self).wf(),
            *final(self) == spec_move_down(*old(self)),
    {
        let length = self.list.len();
        if length == 0 || self.index >= length - 1 {
            return ;
        }
        let rows = self.lines - MARGIN + 1;
        self.index = self.index + 1;
        let in_scroll_zone = self.index - self.offset >= rows - self.padding;
        if in_scroll_zone && length - self.index > self.padding {
            self.offset = self.offset + 1;
        }
    }

    /// Moves the caret one entry up, scrolling as `spec_move_up` says.
    pub fn move_up(&mut self)
        requires
            old(self).wf(),
        ensures
            final(self).wf(),
            *final(self) == spec_move_up(*old(self)),
    {
        if self.list.len() == 0 || self.index == 0 {
            return ;
        }
        self.index = self.index - 1;
        if self.offset > 0 && (self.index < self.offset || self.index - self.offset
            < self.padding) {
            self.offset = self.offset - 1;
        }
    }

    /// Jumps to the first entry; the viewport follows to the top.
    pub fn jump_top(&mut self)
        requires
            old(self).wf(),
        ensures
            final(self).wf(),
            *final(self) == spec_jump_top(*old(self)),
            final(self).index == 0,
            final(self).offset == 0,
    {
        if self.list.len() == 0 {
            return ;
        }
        self.index = 0;
        self.offset = 0;
    }

    /// Jumps to the last entry; the viewport is pinned so the tail of the
    /// list fills the screen.
    pub fn jump_bottom(&mut self)
        requires
            old(self).wf(),
        ensures
            final(self).wf(),
            *final(self) == spec_jump_bottom(*old(self)),
    {
        let length = self.list.len();
        if length == 0 {
            return ;
        }
        let rows = self.lines - MARGIN + 1;
        self.index = length - 1;
        self.offset = if length >= rows {
            length - rows
        } else {
            0
        };
    }
}

/// `n` is the smallest member of the selection.
pub open spec fn is_min_sel(s: Set<usize>, n: usize) -> bool {
    s.contains(n) && forall|m: usize| #[trigger] s.contains(m) ==> n <= m
}

/// `n` is the largest member of the selection.
pub open spec fn is_max_sel(s: Set<usize>, n: usize) -> bool {
    s.contains(n) && forall|m: usize| #[trigger] s.contains(m) ==> m <= n
}

/// `n` is the nearest selected index strictly after `cur`.
pub open spec fn is_next_sel(s: Set<usize>, cur: usize, n: usize) -> bool {
    s.contains(n) && n > cur && forall|m: usize| #[trigger] s.contains(m) && m > cur ==> n <= m
}

/// `n` is the nearest selected index strictly before `cur`.
pub open spec fn is_prev_sel(s: Set<usize>, cur: usize, n: usize) -> bool {
    s.contains(n) && n < cur && forall|m: usize| #[trigger] s.contains(m) && m < cur ==> m <= n
}

/// What a jump of the caret to `target` leaves behind: only the caret and
/// the offset change, and the offset snaps as `spec_snap_offset` says.
pub open spec fn jump_post(pre: State, post: State, target: usize) -> bool {
    &&& post.index == target
    &&& post.offset == spec_snap_offset(
        target as int,
        pre.offset as int,
        pre.list@.len() as int,
        pre.visible_rows(),
        pre.padding as int,
    )
    &&& (State { index: pre.index, offset: pre.offset, ..post }) == pre
}

/// What the forward selection jump leaves behind: the caret lands on the
/// nearest selected index after it, or wraps to the smallest selected index.
pub open spec fn next_post(pre: State, post: State) -> bool {
    &&& ((exists|m: usize| pre.sel().contains(m) && m > pre.index) ==> is_next_sel(
        pre.sel(),
        pre.index,
        post.index,
    ))
    &&& (!(exists|m: usize| pre.sel().contains(m) && m > pre.index) ==> is_min_sel(
        pre.sel(),
        post.index,
    ))
    &&& jump_post(pre, post, post.index)
}

/// What the backward selection jump leaves behind: the caret lands on the
/// nearest selected index before it, or wraps to the largest selected index.
pub open spec fn prev_post(pre: State, post: State) -> bool {
    &&& ((exists|m: usize| pre.sel().contains(m) && m < pre.index) ==> is_prev_sel(
        pre.sel(),
        pre.index,
        post.index,
    ))
    &&& (!(exists|m: usize| pre.sel().contains(m) && m < pre.index) ==> is_max_sel(
        pre.sel(),
        post.index,
    ))
    &&& jump_post(pre, post, post.index)
}

/// What the jump to the first selected entry leaves behind.
pub open spec fn first_post(pre: State, post: State) -> bool {
    &&& is_min_sel(pre.sel(), post.index)
    &&& jump_post(pre, post, post.index)
}

/// The selection with index `i` toggled: out if it was in, in if it was out.
pub open spec fn spec_toggle(s: Set<usize>, i: usize) -> Set<usize> {
    if s.contains(i) {
        s.remove(i)
    } else {
        s.insert(i)
    }
}

/// Toggling is its own inverse: toggling the same index twice restores the
/// selection's membership exactly.
pub proof fn lemma_toggle_involutive(s: Set<usize>, i: usize)
    ensures
        spec_toggle(spec_toggle(s, i), i) == s,
{
    if s.contains(i) {
        assert(spec_toggle(s.remove(i), i) =~= s);
    } else {
        assert(spec_toggle(s.insert(i), i) =~= s);
    }
}

impl State {
    /// Jumps to the selected entry nearest after the caret, wrapping to the
    /// smallest selected index when none follows; the offset snaps as after
    /// any jump. Without entries or without a selection nothing happens.
    pub fn move_next(&mut self)
        requires
            old(self).wf(),
        ensures
            final(self).wf(),
            old(self).list@.len() == 0 || old(self).selected@.len() == 0 ==> *final(self) == *old(
                self,
            ),
            old(self).list@.len() > 0 && old(self).selected@.len() > 0 ==> next_post(
                *old(self),
                *final(self),
            ),
    {
        if self.list.len() == 0 || self.selected.len() == 0 {
            return ;
        }
        let cur = self.index;
        let mut low: usize = self.selected[0];
        let mut above: Option<usize> = None;
        let mut k: usize = 0;
        while k < self.selected.len()
            invariant
                k <= self.selected@.len(),
                self.selected@.len() > 0,
                exists|j: int| 0 <= j < self.selected@.len() && self.selected@[j] == low,
                forall|j: int| 0 <= j < k ==> low <= #[trigger] self.selected@[j],
                match above {
                    None => forall|j: int| 0 <= j < k ==> !(#[trigger] self.selected@[j] > cur),
                    Some(a) => (exists|j: int|
                        0 <= j < self.selected@.len() && self.selected@[j] == a) && a > cur
                        && forall|j: int|
                        0 <= j < k && #[trigger] self.selected@[j] > cur ==> a <= self.selected@[j],
                },
            decreases self.selected@.len() - k,
        {
            let v = self.selected[k];
            if v < low {
                low = v;
            }
            let closer = match above {
                None => true,
                Some(a) => v < a,
            };
            if v > cur && closer {
                above = Some(v);
            }
            k = k + 1;
        }
        let target = match above {
            Some(a) => a,
            None => low,
        };
        proof {
            assert forall|m: usize| self.sel().contains(m) implies exists|j: int|
                0 <= j < self.selected@.len() && self.selected@[j] == m by {
                assert(self.selected@.contains(m));
            }
            assert(self.selected@[choose|j: int|
                0 <= j < self.selected@.len() && self.selected@[j] == target] == target);
            assert(self.selected@.contains(target));
            assert(self.sel().contains(target));
        }
        self.index = target;
        self.snap_offset();
    }

    /// Jumps to the selected entry nearest before the caret, wrapping to the
    /// largest selected index when none precedes; the offset snaps the same
    /// way as for the forward jump.
    pub fn move_prev(&mut self)
        requires
            old(self).wf(),
        ensures
            final(self).wf(),
            old(self).list@.len() == 0 || old(self).selected@.len() == 0 ==> *final(self) == *old(
                self,
            ),
            old(self).list@.len() > 0 && old(self).selected@.len() > 0 ==> prev_post(
                *old(self),
                *final(self),
            ),
    {
        if self.list.len() == 0 || self.selected.len() == 0 {
            return ;
        }
        let cur = self.index;
        let mut high: usize = self.selected[0];
        let mut below: Option<usize> = None;
        let mut k: usize = 0;
        while k < self.selected.len()
            invariant
                k <= self.selected@.len(),
                self.selected@.len() > 0,
                exists|j: int| 0 <= j < self.selected@.len() && self.selected@[j] == high,
                forall|j: int| 0 <= j < k ==> #[trigger] self.selected@[j] <= high,
                match below {
                    None => forall|j: int| 0 <= j < k ==> !(#[trigger] self.selected@[j] < cur),
                    Some(b) => (exists|j: int|
                        0 <= j < self.selected@.len() && self.selected@[j] == b) && b < cur
                        && forall|j: int|
                        0 <= j < k && #[trigger] self.selected@[j] < cur ==> self.selected@[j] <= b,
                },
            decreases self.selected@.len() - k,
        {
            let v = self.selected[k];
            if v > high {
                high = v;
            }
            let closer = match below {
                None => true,
                Some(b) => v > b,
            };
            if v < cur && closer {
                below = Some(v);
            }
            k = k + 1;
        }
        let target = match below {
            Some(b) => b,
            None => high,
        };
        proof {
            assert forall|m: usize| self.sel().contains(m) implies exists|j: int|
                0 <= j < self.selected@.len() && self.selected@[j] == m by {
                assert(self.selected@.contains(m));
            }
            assert(self.selected@[choose|j: int|
                0 <= j < self.selected@.len() && self.selected@[j] == target] == target);
            assert(self.selected@.contains(target));
            assert(self.sel().contains(target));
        }
        self.index = target;
        self.snap_offset();
    }

    /// Jumps to the smallest selected index; the offset snaps as after any
    /// jump. Without entries or without a selection nothing happens.
    pub fn move_first(&mut self)
        requires
            old(self).wf(),
        ensures
            final(self).wf(),
            old(self).list@.len() == 0 || old(self).selected@.len() == 0 ==> *final(self) == *old(
                self,
            ),
            old(self).list@.len() > 0 && old(self).selected@.len() > 0 ==> first_post(
                *old(self),
                *final(self),
            ),
    {
        if self.list.len() == 0 || self.selected.len() == 0 {
            return ;
        }
        let mut low: usize = self.selected[0];
        let mut k: usize = 0;
        while k < self.selected.len()
            invariant
                k <= self.selected@.len(),
                self.selected@.len() > 0,
                exists|j: int| 0 <= j < self.selected@.len() && self.selected@[j] == low,
                forall|j: int| 0 <= j < k ==> low <= #[trigger] self.selected@[j],
            decreases self.selected@.len() - k,
        {
            let v = self.selected[k];
            if v < low {
                low = v;
            }
            k = k + 1;
        }
        proof {
            assert forall|m: usize| self.sel().contains(m) implies low <= m by {
                assert(self.selected@.contains(m));
            }
            assert(self.selected@[choose|j: int|
                0 <= j < self.selected@.len() && self.selected@[j] == low] == low);
            assert(self.selected@.contains(low));
            assert(self.sel().contains(low));
        }
        self.index = low;
        self.snap_offset();
    }

    /// Adds the caret's entry to the selection, or removes it when already
    /// selected. Nothing happens on an empty list.
    pub fn toggle_select(&mut self)
        requires
            old(self).wf(),
        ensures
            final(self).wf(),
            old(self).list@.len() == 0 ==> *final(self) == *old(self),
            old(self).list@.len() > 0 ==> ({
                &&& final(self).sel() == spec_toggle(old(self).sel(), old(self).index)
                &&& final(self).selected@.len() == if old(self).sel().contains(old(self).index) {
                    old(self).selected@.len() - 1
                } else {
                    old(self).selected@.len() + 1int
                }
                &&& (State { selected: old(self).selected, ..*final(self) }) == *old(self)
            }),
    {
        if self.list.len() == 0 {
            return ;
        }
        let mut k: usize = 0;
        let mut pos: Option<usize> = None;
        while k < self.selected.len()
            invariant
                k <= self.selected@.len(),
                match pos {
                    None => forall|j: int| 0 <= j < k ==> #[trigger] self.selected@[j]
                        != self.index,
                    Some(p) => p < k <= self.selected@.len() && self.selected@[p as int]
                        == self.index,
                },
            decreases self.selected@.len() - k,
        {
            if pos.is_none() && self.selected[k] == self.index {
                pos = Some(k);
            }
            k = k + 1;
        }
        match pos {
            Some(p) => {
                proof {
                    assert(old(self).selected@.contains(old(self).index));
                    assert(old(self).sel().contains(old(self).index));
                }
                self.selected.remove(p);
                proof {
                    lemma_distinct_remove_to_set(old(self).selected@, p as int);
                }
            },
            None => {
                proof {
                    if old(self).selected@.contains(old(self).index) {
                        let j = choose|j: int|
                            0 <= j < old(self).selected@.len() && old(self).selected@[j] == old(
                                self,
                            ).index;
                        assert(old(self).selected@[j] == old(self).index);
                    }
                    assert(!old(self).sel().contains(old(self).index));
                }
                self.selected.push(self.index);
                proof {
                    broadcast use vstd::seq_lib::lemma_seq_contains_after_push;

                    assert(self.selected@.to_set() =~= old(self).sel().insert(old(self).index));
                    assert(forall|j: int|
                        0 <= j < old(self).selected@.len() ==> old(self).selected@[j] != old(
                            self,
                        ).index);
                }
            },
        }
    }

    /// Empties the selection; everything else stays.
    pub fn clear_selection(&mut self)
        requires
            old(self).wf(),
        ensures
            final(self).wf(),
            final(self).selected@.len() == 0,
            (State { selected: old(self).selected, ..*final(self) }) == *old(self),
    {
        self.selected = Vec::new();
    }

    /// Selects every entry of the list; the selection becomes exactly the
    /// indices `0` up to the list's length. Nothing happens on an empty
    /// list.
    pub fn select_all(&mut self)
        requires
            old(self).wf(),
        ensures
            final(self).wf(),
            old(self).list@.len() == 0 ==> *final(self) == *old(self),
            old(self).list@.len() > 0 ==> ({
                &&& final(self).selected@.len() == old(self).list@.len()
                &&& forall|j: int|
                    0 <= j < final(self).selected@.len() ==> #[trigger] final(self).selected@[j]
                        == j
                &&& (State { selected: old(self).selected, ..*final(self) }) == *old(self)
            }),
    {
        if self.list.len() == 0 {
            return ;
        }
        let length = self.list.len();
        let mut all: Vec<usize> = Vec::new();
        let mut k: usize = 0;
        while k < length
            invariant
                k <= length,
                all@.len() == k,
                forall|j: int| 0 <= j < k ==> #[trigger] all@[j] == j,
            decreases length - k,
        {
            all.push(k);
            k = k + 1;
        }
        self.selected = all;
    }
}

/// Removing one position from a repeat-free sequence removes exactly that
/// value from its set.
proof fn lemma_distinct_remove_to_set(s: Seq<usize>, p: int)
    requires
        0 <= p < s.len(),
        s.no_duplicates(),
    ensures
        s.remove(p).to_set() == s.to_set().remove(s[p]),
        s.remove(p).no_duplicates(),
{
    s.remove_ensures(p);
    let r = s.remove(p);
    assert forall|x: usize| r.to_set().contains(x) implies s.to_set().remove(s[p]).contains(
        x,
    ) by {
        let j = choose|j: int| 0 <= j < r.len() && r[j] == x;
        if j < p {
            assert(s[j] == x);
        } else {
            assert(s[j + 1] == x);
        }
    }
    assert forall|x: usize| s.to_set().remove(s[p]).contains(x) implies r.to_set().contains(
        x,
    ) by {
        let j = choose|j: int| 0 <= j < s.len() && s[j] == x;
        assert(j != p);
        if j < p {
            assert(r[j] == x);
        } else {
            assert(r[j - 1] == x);
        }
    }
    assert(r.to_set() =~= s.to_set().remove(s[p]));
}

/// What one dispatched caret movement leaves behind, movement by movement.
pub open spec fn moved_post(pre: State, post: State, movement: Move) -> bool {
    &&& movement == Move::Down ==> post == spec_move_down(pre)
    &&& movement == Move::Up ==> post == spec_move_up(pre)
    &&& movement == Move::Top ==> post == spec_jump_top(pre)
    &&& movement == Move::Bottom ==> post == spec_jump_bottom(pre)
    &&& matches!(movement, Move::Next | Move::Prev | Move::First) && (pre.list@.len() == 0
        || pre.selected@.len() == 0) ==> post == pre
    &&& pre.list@.len() > 0 && pre.selected@.len() > 0 ==> {
        &&& movement == Move::Next ==> next_post(pre, post)
        &&& movement == Move::Prev ==> prev_post(pre, post)
        &&& movement == Move::First ==> first_post(pre, post)
    }
}

/// Dispatches one caret movement. Movements that rest on the selection do
/// nothing without one; every movement does nothing on an empty list.
pub fn move_caret(state: &mut State, movement: Move)
    requires
        old(state).wf(),
    ensures
        final(state).wf(),
        moved_post(*old(state), *final(state), movement),
{
    match movement {
        Move::Down => state.move_down(),
        Move::Up => state.move_up(),
        Move::Next => state.move_next(),
        Move::Prev => state.move_prev(),
        Move::First => state.move_first(),
        Move::Top => state.jump_top(),
        Move::Bottom => state.jump_bottom(),
    }
}

/// Jumping to the bottom and then to the top always lands on the first
/// entry with the viewport at the top, whatever the list's length: on an
/// empty list both jumps leave the state alone, whose caret and offset are
/// already pinned to zero.
pub proof fn lemma_bottom_then_top(s: State)
    requires
        s.wf(),
    ensures
        spec_jump_top(spec_jump_bottom(s)).index == 0,
        spec_jump_top(spec_jump_bottom(s)).offset == 0,
{
}

} // verus!
