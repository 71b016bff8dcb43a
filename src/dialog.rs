//! The dialog session as a state machine over an abstract view.

use vstd::prelude::*;

use crate::palette::{spec_style_for, style_for, FocusStyle};
use crate::laws::lemma_typed_at_end;
use crate::text::push_char;

verus! {

/// The text the field holds when the dialog opens.
pub open spec fn placeholder() -> Seq<char> {
    "untitled folder"@
}

/// The parent folder shown before a caller names one.
pub open spec fn unnamed_parent() -> Seq<char> {
    "current folder name"@
}

/// A change of focus: the window gains or loses it, or the text field gains it.
#[derive(Clone, Copy, Debug, PartialEq, Eq, Structural)]
pub enum FocusEvent {
    Window(bool),
    Field,
}

/// The abstract state of one dialog session.
pub ghost struct DialogView {
    /// What the text field holds.
    pub folder_name: Seq<char>,
    /// The parent folder's name, shown for context only.
    pub current_folder: Seq<char>,
    /// Whether the window holds input focus.
    pub is_focused: bool,
    /// Selected characters of the field, `sel_start..sel_end`; an empty range is a cursor.
    pub sel_start: nat,
    pub sel_end: nat,
    /// The output slot read by the caller once the window has closed.
    pub result: Seq<char>,
    /// Whether the session has ended.
    pub closed: bool,
    /// Whether cancelling puts the placeholder back into the field.
    pub reset_on_cancel: bool,
}

impl DialogView {
    /// The selection lies within the field's text.
    pub open spec fn wf(self) -> bool {
        self.sel_start <= self.sel_end <= self.folder_name.len()
    }

    /// A freshly opened session: placeholder text with the cursor after it,
    /// an empty result slot.
    pub open spec fn fresh() -> DialogView {
        DialogView {
            folder_name: placeholder(),
            current_folder: unnamed_parent(),
            is_focused: false,
            sel_start: placeholder().len(),
            sel_end: placeholder().len(),
            result: Seq::empty(),
            closed: false,
            reset_on_cancel: false,
        }
    }

    pub open spec fn with_parent(self, parent: Seq<char>) -> DialogView {
        DialogView { current_folder: parent, ..self }
    }

    pub open spec fn with_prior_result(self, prior: Seq<char>) -> DialogView {
        DialogView { result: prior, ..self }
    }

    pub open spec fn with_reset_on_cancel(self, reset: bool) -> DialogView {
        DialogView { reset_on_cancel: reset, ..self }
    }

    /// The window gains or loses focus; nothing but the flag changes.
    pub open spec fn with_window_focus(self, focused: bool) -> DialogView {
        DialogView { is_focused: focused, ..self }
    }

    /// The focus-dependent colours of this state.
    pub open spec fn style(self) -> FocusStyle {
        spec_style_for(self.is_focused)
    }

    /// The text field gains focus: all of its text becomes selected.
    pub open spec fn focus_gained(self) -> DialogView {
        if self.closed {
            self
        } else {
            DialogView { sel_start: 0, sel_end: self.folder_name.len(), ..self }
        }
    }

    pub open spec fn focus_event(self, e: FocusEvent) -> DialogView {
        match e {
            FocusEvent::Window(focused) => self.with_window_focus(focused),
            FocusEvent::Field => self.focus_gained(),
        }
    }

    /// The focus changes of `evs`, one after the other.
    pub open spec fn focus_events(self, evs: Seq<FocusEvent>) -> DialogView
        decreases evs.len(),
    {
        if evs.len() == 0 {
            self
        } else {
            self.focus_events(evs.drop_last()).focus_event(evs.last())
        }
    }

    /// One keystroke: the selection is replaced by the character, and the
    /// cursor stands after it.
    pub open spec fn type_char(self, c: char) -> DialogView {
        if self.closed {
            self
        } else {
            DialogView {
                folder_name: self.folder_name.subrange(0, self.sel_start as int).push(c)
                    + self.folder_name.subrange(self.sel_end as int, self.folder_name.len() as int),
                sel_start: self.sel_start + 1,
                sel_end: self.sel_start + 1,
                ..self
            }
        }
    }

    /// The keystrokes of `s`, one after the other.
    pub open spec fn typed(self, s: Seq<char>) -> DialogView
        decreases s.len(),
    {
        if s.len() == 0 {
            self
        } else {
            self.typed(s.drop_last()).type_char(s.last())
        }
    }

    /// Backspace: removes the selection, or else the character before the cursor.
    pub open spec fn backspace(self) -> DialogView {
        if self.closed {
            self
        } else if self.sel_start < self.sel_end {
            DialogView {
                folder_name: self.folder_name.subrange(0, self.sel_start as int)
                    + self.folder_name.subrange(self.sel_end as int, self.folder_name.len() as int),
                sel_end: self.sel_start,
                ..self
            }
        } else if self.sel_start > 0 {
            DialogView {
                folder_name: self.folder_name.subrange(0, self.sel_start - 1)
                    + self.folder_name.subrange(self.sel_start as int, self.folder_name.len() as int),
                sel_start: (self.sel_start - 1) as nat,
                sel_end: (self.sel_start - 1) as nat,
                ..self
            }
        } else {
            self
        }
    }

    /// The field's text is replaced as a whole, the cursor at its end.
    pub open spec fn with_text(self, t: Seq<char>) -> DialogView {
        if self.closed {
            self
        } else {
            DialogView { folder_name: t, sel_start: t.len(), sel_end: t.len(), ..self }
        }
    }

    /// Confirm: the field's text goes into the result slot and the session ends.
    pub open spec fn confirmed(self) -> DialogView {
        if self.closed {
            self
        } else {
            DialogView { result: self.folder_name, closed: true, ..self }
        }
    }

    /// Cancel: the result slot keeps its prior value and the session ends;
    /// the field goes back to the placeholder where so configured.
    pub open spec fn cancelled(self) -> DialogView {
        if self.closed {
            self
        } else if self.reset_on_cancel {
            DialogView {
                folder_name: placeholder(),
                sel_start: placeholder().len(),
                sel_end: placeholder().len(),
                closed: true,
                ..self
            }
        } else {
            DialogView { closed: true, ..self }
        }
    }

    /// The window is closed without either action: the session ends, and
    /// nothing else changes.
    pub open spec fn window_closed(self) -> DialogView {
        DialogView { closed: true, ..self }
    }
}

/// One "New Folder" dialog session, from opening to close.
pub struct TemplateApp {
    folder_name: String,
    current_folder: String,
    is_focused: bool,
    sel_start: usize,
    sel_end: usize,
    result: String,
    closed: bool,
    reset_on_cancel: bool,
}

impl View for TemplateApp {
    type V = DialogView;

    closed spec fn view(&self) -> DialogView {
        DialogView {
            folder_name: self.folder_name@,
            current_folder: self.current_folder@,
            is_focused: self.is_focused,
            sel_start: self.sel_start as nat,
            sel_end: self.sel_end as nat,
            result: self.result@,
            closed: self.closed,
            reset_on_cancel: self.reset_on_cancel,
        }
    }
}

impl TemplateApp {
    pub open spec fn wf(&self) -> bool {
        self@.wf()
    }

    /// Opens a session with the placeholder in the field.
    pub fn new() -> (app: Self)
        ensures
            app@ == DialogView::fresh(),
            app.wf(),
    {
        let folder_name = String::from_str("untitled folder");
        let len = folder_name.as_str().unicode_len();
        TemplateApp {
            folder_name,
            current_folder: String::from_str("current folder name"),
            is_focused: false,
            sel_start: len,
            sel_end: len,
            result: String::new(),
            closed: false,
            reset_on_cancel: false,
        }
    }

    /// Sets the parent folder's name shown in the description.
    pub fn with_current_folder(self, name: String) -> (app: Self)
        requires
            self.wf(),
        ensures
            app@ == self@.with_parent(name@),
            app.wf(),
    {
        let mut app = self;
        app.current_folder = name;
        app
    }

    /// Sets the value the result slot holds until the dialog is confirmed.
    pub fn with_result(self, result: String) -> (app: Self)
        requires
            self.wf(),
        ensures
            app@ == self@.with_prior_result(result@),
            app.wf(),
    {
        let mut app = self;
        app.result = result;
        app
    }

    /// Chooses whether cancelling puts the placeholder back into the field.
    pub fn with_reset_on_cancel(self, reset: bool) -> (app: Self)
        requires
            self.wf(),
        ensures
            app@ == self@.with_reset_on_cancel(reset),
            app.wf(),
    {
        let mut app = self;
        app.reset_on_cancel = reset;
        app
    }

    /// The field's current text, the name the dialog would emit if confirmed now.
    pub fn get_result(&self) -> (r: String)
        ensures
            r@ == self@.folder_name,
    {
        self.folder_name.clone()
    }

    /// The content of the result slot: the confirmed name, or the prior value.
    pub fn result(&self) -> (r: String)
        ensures
            r@ == self@.result,
    {
        self.result.clone()
    }

    /// What the text field holds.
    pub fn folder_name(&self) -> (r: &str)
        ensures
            r@ == self@.folder_name,
    {
        self.folder_name.as_str()
    }

    /// The parent folder's name.
    pub fn current_folder(&self) -> (r: &str)
        ensures
            r@ == self@.current_folder,
    {
        self.current_folder.as_str()
    }

    /// The selected character range of the field.
    pub fn selection(&self) -> (r: (usize, usize))
        ensures
            r.0 == self@.sel_start,
            r.1 == self@.sel_end,
    {
        (self.sel_start, self.sel_end)
    }

    pub fn is_focused(&self) -> (r: bool)
        ensures
            r == self@.is_focused,
    {
        self.is_focused
    }

    pub fn is_closed(&self) -> (r: bool)
        ensures
            r == self@.closed,
    {
        self.closed
    }

    /// The colours for the current focus.
    pub fn style(&self) -> (s: FocusStyle)
        ensures
            s == self@.style(),
    {
        style_for(self.is_focused)
    }

    /// The sentence that says where the folder will be made.
    pub fn description(&self) -> (r: String)
        ensures
            r@ == "Name of new folder inside “"@ + self@.current_folder + "”"@,
    {
        let mut r = String::from_str("Name of new folder inside “");
        r.append(self.current_folder.as_str());
        r.append("”");
        r
    }

    /// The parent folder's name as its own label line.
    pub fn folder_label(&self) -> (r: String)
        ensures
            r@ == "“"@ + self@.current_folder + "”:"@,
    {
        let mut r = String::from_str("“");
        r.append(self.current_folder.as_str());
        r.append("”:");
        r
    }

    /// The window gains or loses input focus.
    pub fn set_window_focus(&mut self, focused: bool)
        requires
            old(self).wf(),
        ensures
            final(self)@ == old(self)@.with_window_focus(focused),
            final(self).wf(),
    {
        self.is_focused = focused;
    }

    /// The text field gains focus: its whole text is selected.
    pub fn field_gained_focus(&mut self)
        requires
            old(self).wf(),
        ensures
            final(self)@ == old(self)@.focus_gained(),
            final(self).wf(),
    {
        if !self.closed {
            self.sel_start = 0;
            self.sel_end = self.folder_name.as_str().unicode_len();
        }
    }

    /// A change of focus.
    pub fn on_focus_event(&mut self, e: FocusEvent)
        requires
            old(self).wf(),
        ensures
            final(self)@ == old(self)@.focus_event(e),
            final(self).wf(),
    {
        match e {
            FocusEvent::Window(focused) => self.set_window_focus(focused),
            FocusEvent::Field => self.field_gained_focus(),
        }
    }

    /// One keystroke in the field.
    pub fn type_char(&mut self, c: char)
        requires
            old(self).wf(),
            old(self)@.folder_name.len() < usize::MAX,
        ensures
            final(self)@ == old(self)@.type_char(c),
            final(self).wf(),
            !old(self)@.closed && old(self)@.sel_start == 0 && old(self)@.sel_end
                == old(self)@.folder_name.len() ==> final(self)@.folder_name == seq![c],
            !old(self)@.closed && old(self)@.sel_end == old(self)@.folder_name.len()
                && old(self)@.sel_start == old(self)@.sel_end ==> final(self)@.folder_name
                == old(self)@.folder_name.push(c),
    {
        proof {
            let f = self@.folder_name;
            assert(f.subrange(0, 0).push(c) + f.subrange(f.len() as int, f.len() as int) =~= seq![c]);
            assert(f.subrange(0, f.len() as int).push(c) + f.subrange(f.len() as int, f.len() as int)
                =~= f.push(c));
        }
        if self.closed {
            return;
        }
        let len = self.folder_name.as_str().unicode_len();
        let start = self.sel_start;
        let end = self.sel_end;
        let mut next = String::from_str(self.folder_name.as_str().substring_char(0, start));
        push_char(&mut next, c);
        next.append(self.folder_name.as_str().substring_char(end, len));
        self.folder_name = next;
        self.sel_start = start + 1;
        self.sel_end = start + 1;
    }

    /// The characters of `s` typed one after the other.
    pub fn type_str(&mut self, s: &str)
        requires
            old(self).wf(),
            old(self)@.folder_name.len() + s@.len() < usize::MAX,
        ensures
            final(self)@ == old(self)@.typed(s@),
            final(self).wf(),
            !old(self)@.closed && old(self)@.sel_end == old(self)@.folder_name.len()
                && old(self)@.sel_start == old(self)@.sel_end ==> final(self)@.folder_name
                == old(self)@.folder_name + s@,
    {
        proof {
            if !self@.closed && self@.sel_end == self@.folder_name.len() && self@.sel_start
                == self@.sel_end {
                lemma_typed_at_end(self@, s@);
            }
        }
        let n = s.unicode_len();
        let mut i: usize = 0;
        while i < n
            invariant
                i <= n,
                n == s@.len(),
                self.wf(),
                self@ == old(self)@.typed(s@.subrange(0, i as int)),
                self@.folder_name.len() <= old(self)@.folder_name.len() + i,
                old(self)@.folder_name.len() + s@.len() < usize::MAX,
            decreases n - i,
        {
            let c = s.get_char(i);
            self.type_char(c);
            proof {
                assert(s@.subrange(0, i + 1).drop_last() =~= s@.subrange(0, i as int));
            }
            i = i + 1;
        }
        proof {
            assert(s@.subrange(0, n as int) =~= s@);
        }
    }

    /// Backspace in the field.
    pub fn backspace(&mut self)
        requires
            old(self).wf(),
        ensures
            final(self)@ == old(self)@.backspace(),
            final(self).wf(),
    {
        if self.closed {
            return;
        }
        let len = self.folder_name.as_str().unicode_len();
        let start = self.sel_start;
        let end = self.sel_end;
        if start < end {
            let mut next = String::from_str(self.folder_name.as_str().substring_char(0, start));
            next.append(self.folder_name.as_str().substring_char(end, len));
            self.folder_name = next;
            self.sel_end = start;
        } else if start > 0 {
            let mut next = String::from_str(
                self.folder_name.as_str().substring_char(0, start - 1),
            );
            next.append(self.folder_name.as_str().substring_char(start, len));
            self.folder_name = next;
            self.sel_start = start - 1;
            self.sel_end = start - 1;
        }
    }

    /// The field's text as a whole, as an editor widget hands it back.
    pub fn set_folder_name(&mut self, text: String)
        requires
            old(self).wf(),
        ensures
            final(self)@ == old(self)@.with_text(text@),
            final(self).wf(),
    {
        if !self.closed {
            let len = text.as_str().unicode_len();
            self.folder_name = text;
            self.sel_start = len;
            self.sel_end = len;
        }
    }

    /// The confirm button: the field's text becomes the result, and the
    /// session ends. A second activation does nothing.
    pub fn confirm(&mut self)
        requires
            old(self).wf(),
        ensures
            final(self)@ == old(self)@.confirmed(),
            final(self).wf(),
    {
        if !self.closed {
            self.result = self.folder_name.clone();
            self.closed = true;
        }
    }

    /// The cancel button: the session ends and the result slot keeps its value.
    pub fn cancel(&mut self)
        requires
            old(self).wf(),
        ensures
            final(self)@ == old(self)@.cancelled(),
            final(self).wf(),
    {
        if !self.closed {
            if self.reset_on_cancel {
                let folder_name = String::from_str("untitled folder");
                let len = folder_name.as_str().unicode_len();
                self.folder_name = folder_name;
                self.sel_start = len;
                self.sel_end = len;
            }
            self.closed = true;
        }
    }

    /// The window is closed from outside, with neither button.
    pub fn close_window(&mut self)
        requires
            old(self).wf(),
        ensures
            final(self)@ == old(self)@.window_closed(),
            final(self).wf(),
    {
        self.closed = true;
    }
}

impl Default for TemplateApp {
    fn default() -> (app: Self)
        ensures
            app@ == DialogView::fresh(),
            app.wf(),
    {
        TemplateApp::new()
    }
}

} // verus!
