use vstd::prelude::*;

use crate::nav::is_min_sel;
use crate::nav::spec_snap_offset;
use crate::state::State;
use crate::text::chars_to_string;
use crate::Entry;
use crate::Message;
use crate::MessageKind;

verus! {

/// The compiled regular expression of the regex crate, carried opaquely.
#[verifier::external_type_specification]
#[verifier::external_body]
pub struct ExRegex(regex::Regex);

/// Whether a pattern text compiles as a regular expression (within the
/// default size limit): `regex::Regex::new` succeeds on exactly these
/// patterns, a function of the pattern text alone.
pub uninterp spec fn regex_valid(pattern: Seq<char>) -> bool;

/// The pattern text a compiled regular expression was built from.
pub uninterp spec fn regex_source(re: regex::Regex) -> Seq<char>;

/// Whether a pattern matches anywhere in a text, as
/// `regex::Regex::is_match` decides it: a function of the pattern and the
/// text alone.
pub uninterp spec fn regex_match(pattern: Seq<char>, text: Seq<char>) -> bool;

/// Relies on `regex::Regex::new`: compiling is deterministic in the
/// pattern, and the compiled value carries the pattern it was built from.
/// The compilation error itself carries nothing the callers read.
#[verifier::external_body]
pub(crate) fn regex_new(pattern: &str) -> (r: Option<regex::Regex>)
    ensures
        r is Some <==> regex_valid(pattern@),
        r is Some ==> regex_source(r->0) == pattern@,
{
    regex::Regex::new(pattern).ok()
}

/// Relies on `regex::Regex::is_match`: whether a match exists anywhere in
/// the text depends on the compiled pattern and the text alone.
#[verifier::external_body]
pub(crate) fn regex_is_match(re: &regex::Regex, text: &str) -> (r: bool)
    ensures
        r == regex_match(regex_source(*re), text@),
{
    re.is_match(text)
}

/// Whether a search with this pattern selects the entry: its name matches.
pub open spec fn search_hit(pattern: Seq<char>, e: Entry) -> bool {
    regex_match(pattern, e.file_name@)
}

/// What a completed search leaves behind when the pattern compiles: the
/// selection holds exactly the indices of the matching entries, in
/// ascending order, and the caret has jumped to the first of them (the
/// viewport snapping along), or stayed where it was when nothing matched.
pub open spec fn search_post(pre: State, post: State, pattern: Seq<char>) -> bool {
    &&& forall|j1: int, j2: int|
        0 <= j1 < j2 < post.selected@.len() ==> post.selected@[j1] < post.selected@[j2]
    &&& forall|m: usize|
        post.sel().contains(m) <==> m < pre.list@.len() && search_hit(
            pattern,
            pre.list@[m as int],
        )
    &&& (post.selected@.len() > 0 ==> is_min_sel(post.sel(), post.index) && post.offset
        == spec_snap_offset(
        post.index as int,
        pre.offset as int,
        pre.list@.len() as int,
        pre.visible_rows(),
        pre.padding as int,
    ))
    &&& (post.selected@.len() == 0 ==> post.index == pre.index && post.offset == pre.offset)
    &&& (State {
        selected: pre.selected,
        index: pre.index,
        offset: pre.offset,
        ..post
    }) == pre
}

/// Runs the committed search input, taken as a regular expression, against
/// the entry names: an empty input does nothing; an input that does not
/// compile as a pattern leaves everything but the status message alone and
/// reports the bad pattern there; one that compiles replaces the selection
/// with the matching entries and jumps to the first of them.
pub fn do_search(state: &mut State)
    requires
        old(state).wf(),
    ensures
        final(state).wf(),
        old(state).buffer().len() == 0 ==> *final(state) == *old(state),
        old(state).buffer().len() > 0 ==> ({
            let pattern = old(state).buffer();
            if regex_valid(pattern) {
                search_post(*old(state), *final(state), pattern)
            } else {
                &&& final(state).message matches Some(m) && m.kind == MessageKind::Error
                    && m.text@ == "Invalid search pattern!"@
                &&& (State { message: old(state).message, ..*final(state) }) == *old(state)
            }
        }),
{
    let pattern: String = match &state.input {
        Some(buf) => {
            if buf.len() == 0 {
                return ;
            }
            chars_to_string(buf)
        },
        None => {
            return ;
        },
    };
    match regex_new(pattern.as_str()) {
        Some(re) => {
            let mut hits: Vec<usize> = Vec::new();
            let mut i: usize = 0;
            let length = state.list.len();
            while i < length
                invariant
                    i <= length,
                    length == state.list@.len(),
                    regex_source(re) == old(state).buffer(),
                    forall|j1: int, j2: int|
                        0 <= j1 < j2 < hits@.len() ==> hits@[j1] < hits@[j2],
                    forall|j: int|
                        0 <= j < hits@.len() ==> (#[trigger] hits@[j]) < i && search_hit(
                            regex_source(re),
                            state.list@[hits@[j] as int],
                        ),
                    forall|m: usize|
                        m < i && search_hit(regex_source(re), state.list@[m as int])
                            ==> hits@.contains(m),
                decreases length - i,
            {
                proof {
                    broadcast use vstd::seq_lib::lemma_seq_contains_after_push;

                }
                if regex_is_match(&re, state.list[i].file_name.as_str()) {
                    hits.push(i);
                }
                i = i + 1;
            }
            state.selected = hits;
            proof {
                assert(state.selected@.no_duplicates()) by {
                    assert forall|j1: int, j2: int|
                        0 <= j1 < state.selected@.len() && 0 <= j2 < state.selected@.len() && j1
                            != j2 implies state.selected@[j1] != state.selected@[j2] by {
                        if j1 < j2 {
                            assert(state.selected@[j1] < state.selected@[j2]);
                        } else {
                            assert(state.selected@[j2] < state.selected@[j1]);
                        }
                    }
                }
                assert forall|m: usize| state.sel().contains(m) implies m < state.list@.len()
                    && search_hit(regex_source(re), state.list@[m as int]) by {
                    let j = choose|j: int|
                        0 <= j < state.selected@.len() && state.selected@[j] == m;
                }
                assert forall|m: usize|
                    m < state.list@.len() && search_hit(
                        regex_source(re),
                        state.list@[m as int],
                    ) implies state.sel().contains(m) by {
                    assert(state.selected@.contains(m));
                }
            }
            let ghost mid = *state;
            state.move_first();
            proof {
                assert(state.selected == mid.selected);
                assert forall|m: usize| state.sel().contains(m) implies m < old(
                    state,
                ).list@.len() && search_hit(regex_source(re), old(state).list@[m as int]) by {
                    assert(mid.sel().contains(m));
                }
                assert forall|m: usize|
                    m < old(state).list@.len() && search_hit(
                        regex_source(re),
                        old(state).list@[m as int],
                    ) implies state.sel().contains(m) by {
                    assert(mid.sel().contains(m));
                }
                if mid.selected@.len() > 0 {
                    assert(mid.selected@[0] < mid.list@.len());
                    assert(is_min_sel(mid.sel(), state.index));
                    assert(state.sel() == mid.sel());
                }
            }
        },
        None => {
            state.message = Some(Message::error("Invalid search pattern!"));
        },
    }
}

} // verus!
