//! Properties of the dialog session that relate several of its events.

use vstd::prelude::*;

use crate::dialog::{placeholder, DialogView, FocusEvent};
use crate::palette::{active_style, dimmed_style};

verus! {

/// Typing `a` and then `b` is typing `a + b`.
pub proof fn lemma_typed_concat(v: DialogView, a: Seq<char>, b: Seq<char>)
    ensures
        v.typed(a + b) == v.typed(a).typed(b),
    decreases b.len(),
{
    if b.len() == 0 {
        assert(a + b =~= a);
    } else {
        assert((a + b).drop_last() =~= a + b.drop_last());
        assert((a + b).last() == b.last());
        lemma_typed_concat(v, a, b.drop_last());
    }
}

/// Typing leaves the result slot, the parent's name, the focus and whether
/// the session has ended as they were.
pub proof fn lemma_typed_keeps_slot(v: DialogView, s: Seq<char>)
    ensures
        v.typed(s).result == v.result,
        v.typed(s).closed == v.closed,
        v.typed(s).current_folder == v.current_folder,
        v.typed(s).is_focused == v.is_focused,
        v.typed(s).reset_on_cancel == v.reset_on_cancel,
        v.closed ==> v.typed(s) == v,
    decreases s.len(),
{
    if s.len() > 0 {
        lemma_typed_keeps_slot(v, s.drop_last());
    }
}

/// With the cursor at the end of the text, typing appends.
pub proof fn lemma_typed_at_end(v: DialogView, s: Seq<char>)
    requires
        v.wf(),
        !v.closed,
        v.sel_start == v.folder_name.len(),
        v.sel_end == v.folder_name.len(),
    ensures
        v.typed(s).wf(),
        !v.typed(s).closed,
        v.typed(s).folder_name == v.folder_name + s,
        v.typed(s).sel_start == v.typed(s).folder_name.len(),
        v.typed(s).sel_end == v.typed(s).folder_name.len(),
    decreases s.len(),
{
    if s.len() == 0 {
        assert(v.folder_name + s =~= v.folder_name);
    } else {
        lemma_typed_at_end(v, s.drop_last());
        let w = v.typed(s.drop_last());
        let f = w.folder_name;
        assert(f.subrange(0, f.len() as int) =~= f);
        assert(f.subrange(f.len() as int, f.len() as int) =~= Seq::<char>::empty());
        assert(f.push(s.last()) + Seq::<char>::empty() =~= v.folder_name + s);
    }
}

/// The field emptied by selecting all of it and pressing backspace.
pub open spec fn cleared(v: DialogView) -> DialogView {
    v.focus_gained().backspace()
}

/// Changes of focus never touch the field's text, the result slot, or whether
/// the session has ended.
pub proof fn lemma_focus_events_keep_text(v: DialogView, evs: Seq<FocusEvent>)
    ensures
        v.focus_events(evs).folder_name == v.folder_name,
        v.focus_events(evs).result == v.result,
        v.focus_events(evs).closed == v.closed,
        v.wf() ==> v.focus_events(evs).wf(),
    decreases evs.len(),
{
    if evs.len() > 0 {
        lemma_focus_events_keep_text(v, evs.drop_last());
    }
}

/// Opening the dialog under any parent folder and confirming without an edit
/// emits the placeholder, whatever changes of window or field focus came
/// in between.
pub proof fn confirm_unedited_gives_placeholder(parent: Seq<char>, evs: Seq<FocusEvent>)
    ensures
        DialogView::fresh().with_parent(parent).confirmed().result == placeholder(),
        DialogView::fresh().with_parent(parent).focus_events(evs).confirmed().result
            == placeholder(),
{
    lemma_focus_events_keep_text(DialogView::fresh().with_parent(parent), evs);
}

/// What is typed into the field is exactly what confirming emits: after the
/// field is cleared, for every string; over a fully selected field, for every
/// non-empty one; and for text the editor hands over as a whole.
pub proof fn typed_text_round_trips(v: DialogView, s: Seq<char>)
    requires
        v.wf(),
        !v.closed,
    ensures
        cleared(v).typed(s).confirmed().result == s,
        s.len() > 0 ==> v.focus_gained().typed(s).confirmed().result == s,
        v.with_text(s).confirmed().result == s,
{
    let c = cleared(v);
    assert(c.folder_name =~= Seq::<char>::empty());
    lemma_typed_at_end(c, s);
    assert(Seq::<char>::empty() + s =~= s);
    if s.len() > 0 {
        let g = v.focus_gained();
        let first = seq![s[0]];
        assert(first + s.drop_first() =~= s);
        lemma_typed_concat(g, first, s.drop_first());
        assert(first.drop_last() =~= Seq::<char>::empty());
        assert(g.typed(first.drop_last()) == g);
        assert(first.last() == s[0]);
        let t = g.typed(first);
        assert(t == g.type_char(s[0]));
        assert(t.folder_name =~= first);
        lemma_typed_at_end(t, s.drop_first());
    }
}

/// Cancelling leaves the result slot at its value from before, whatever was
/// typed or set; for a freshly opened dialog that value is empty. Where the
/// session resets on cancel, the field holds the placeholder again.
pub proof fn cancel_keeps_prior_result(v: DialogView, s: Seq<char>, parent: Seq<char>)
    ensures
        v.typed(s).cancelled().result == v.result,
        v.with_text(s).cancelled().result == v.result,
        cleared(v).typed(s).cancelled().result == v.result,
        DialogView::fresh().with_parent(parent).focus_gained().typed(s).cancelled().result
            == Seq::<char>::empty(),
        !v.closed && v.reset_on_cancel ==> v.typed(s).cancelled().folder_name == placeholder(),
{
    lemma_typed_keeps_slot(v, s);
    lemma_typed_keeps_slot(cleared(v), s);
    lemma_typed_keeps_slot(DialogView::fresh().with_parent(parent).focus_gained(), s);
}

/// When the field gains focus while holding some text, all of that text is
/// selected, and the next keystroke replaces it entirely.
pub proof fn focus_selects_all(v: DialogView, c: char)
    requires
        v.wf(),
        !v.closed,
    ensures
        v.focus_gained().sel_start == 0,
        v.focus_gained().sel_end == v.folder_name.len(),
        v.focus_gained().folder_name == v.folder_name,
        v.focus_gained().type_char(c).folder_name == seq![c],
{
    let f = v.folder_name;
    assert(f.subrange(0, 0).push(c) + f.subrange(f.len() as int, f.len() as int) =~= seq![c]);
}

/// Losing the window's focus dims the styling and regaining it restores the
/// active styling; neither touches the field's text or selection.
pub proof fn focus_round_trip_restyles(v: DialogView)
    ensures
        v.with_window_focus(false).style() == dimmed_style(),
        v.with_window_focus(false).with_window_focus(true).style() == active_style(),
        v.with_window_focus(false).folder_name == v.folder_name,
        v.with_window_focus(false).with_window_focus(true).folder_name == v.folder_name,
        v.with_window_focus(false).with_window_focus(true) == v.with_window_focus(true),
        v.is_focused ==> v.with_window_focus(false).with_window_focus(true) == v,
{
}

/// Once the session has ended, no event changes the field or the result slot.
pub proof fn closed_is_terminal(v: DialogView, c: char, t: Seq<char>, focused: bool)
    requires
        v.closed,
    ensures
        v.focus_gained() == v,
        v.type_char(c) == v,
        v.typed(t) == v,
        v.backspace() == v,
        v.with_text(t) == v,
        v.confirmed() == v,
        v.cancelled() == v,
        v.window_closed() == v,
        v.with_window_focus(focused).folder_name == v.folder_name,
        v.with_window_focus(focused).result == v.result,
{
    lemma_typed_keeps_slot(v, t);
}

} // verus!
