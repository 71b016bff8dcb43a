use folder_dialog::dialog::FocusEvent;
use folder_dialog::palette::{style_for, Rgba};
use folder_dialog::text::parent_folder_from_input;
use folder_dialog::TemplateApp;

#[test]
fn documents_then_photos_is_emitted() {
    let parent = parent_folder_from_input(Some("Documents\n"));
    assert_eq!(parent, "Documents");
    let mut app = TemplateApp::new().with_current_folder(parent);
    assert_eq!(app.description(), "Name of new folder inside “Documents”");
    assert_eq!(app.folder_label(), "“Documents”:");
    app.field_gained_focus();
    app.backspace();
    assert_eq!(app.folder_name(), "");
    app.type_str("Photos");
    app.confirm();
    assert!(app.is_closed());
    assert_eq!(app.result(), "Photos");
}

#[test]
fn empty_parent_cancel_emits_empty_line() {
    let parent = parent_folder_from_input(Some(""));
    let mut app = TemplateApp::new().with_current_folder(parent);
    assert_eq!(app.current_folder(), "");
    app.field_gained_focus();
    assert_eq!(app.folder_name(), "untitled folder");
    assert_eq!(app.selection(), (0, 15));
    app.cancel();
    assert!(app.is_closed());
    assert_eq!(app.result(), "");
}

#[test]
fn confirm_without_edit_gives_placeholder() {
    for parent in ["Documents", "", "a b c", "Übersicht"] {
        let mut app = TemplateApp::new().with_current_folder(parent.to_string());
        app.confirm();
        assert_eq!(app.result(), "untitled folder");
    }
    let mut app = TemplateApp::new();
    app.set_window_focus(true);
    app.field_gained_focus();
    app.confirm();
    assert_eq!(app.result(), "untitled folder");
}

#[test]
fn typed_text_is_what_confirm_emits() {
    for s in ["x", "Photos", "new folder 2", "Ärger/ü", ""] {
        let mut app = TemplateApp::new();
        app.field_gained_focus();
        app.backspace();
        app.type_str(s);
        app.confirm();
        assert_eq!(app.result(), s);
    }
}

#[test]
fn overtyping_selected_text_round_trips() {
    let mut app = TemplateApp::new();
    app.field_gained_focus();
    app.type_str("Projects");
    assert_eq!(app.folder_name(), "Projects");
    assert_eq!(app.selection(), (8, 8));
    app.confirm();
    assert_eq!(app.result(), "Projects");
}

#[test]
fn editor_text_is_what_confirm_emits() {
    let mut app = TemplateApp::new();
    app.set_folder_name(String::from("Invoices 2024"));
    assert_eq!(app.selection(), (13, 13));
    app.confirm();
    assert_eq!(app.result(), "Invoices 2024");
}

#[test]
fn empty_name_passes_through_confirm() {
    let mut app = TemplateApp::new();
    app.set_folder_name(String::new());
    app.confirm();
    assert_eq!(app.result(), "");
}

#[test]
fn cancel_discards_typing() {
    let mut app = TemplateApp::new().with_current_folder(String::from("Documents"));
    app.field_gained_focus();
    app.type_str("Trash");
    app.cancel();
    assert_eq!(app.result(), "");
    assert_eq!(app.folder_name(), "Trash");
}

#[test]
fn cancel_keeps_prior_result() {
    let mut app = TemplateApp::new().with_result(String::from("before"));
    app.type_str("zzz");
    app.cancel();
    assert_eq!(app.result(), "before");
}

#[test]
fn cancel_with_reset_restores_placeholder() {
    let mut app = TemplateApp::new().with_reset_on_cancel(true);
    app.field_gained_focus();
    app.type_str("Draft");
    app.cancel();
    assert_eq!(app.folder_name(), "untitled folder");
    assert_eq!(app.selection(), (15, 15));
    assert_eq!(app.result(), "");
}

#[test]
fn focus_gain_selects_all_and_keystroke_replaces() {
    let mut app = TemplateApp::new();
    app.set_folder_name(String::from("Reports"));
    app.field_gained_focus();
    assert_eq!(app.selection(), (0, 7));
    assert_eq!(app.folder_name(), "Reports");
    app.type_char('Q');
    assert_eq!(app.folder_name(), "Q");
    assert_eq!(app.selection(), (1, 1));
}

#[test]
fn focus_gain_selects_by_characters() {
    let mut app = TemplateApp::new();
    app.set_folder_name(String::from("Ünïcödé"));
    app.field_gained_focus();
    assert_eq!(app.selection(), (0, 7));
    app.type_char('é');
    assert_eq!(app.folder_name(), "é");
}

#[test]
fn focus_loss_and_regain_restyles_without_editing() {
    let mut app = TemplateApp::new();
    app.set_folder_name(String::from("Music"));
    app.set_window_focus(true);
    let active = app.style();
    app.set_window_focus(false);
    let dimmed = app.style();
    assert_eq!(dimmed, style_for(false));
    assert_eq!(dimmed.field_border, Rgba::transparent());
    assert_eq!(app.folder_name(), "Music");
    app.set_window_focus(true);
    assert_eq!(app.style(), active);
    assert_eq!(app.style(), style_for(true));
    assert_eq!(app.folder_name(), "Music");
    assert_eq!(app.selection(), (5, 5));
    assert!(app.is_focused());
}

#[test]
fn typing_inserts_at_cursor() {
    let mut app = TemplateApp::new();
    app.set_folder_name(String::from("ab"));
    app.type_char('c');
    assert_eq!(app.folder_name(), "abc");
    assert_eq!(app.selection(), (3, 3));
}

#[test]
fn backspace_removes_before_cursor_or_selection() {
    let mut app = TemplateApp::new();
    app.set_folder_name(String::from("añb"));
    app.backspace();
    assert_eq!(app.folder_name(), "añ");
    app.backspace();
    assert_eq!(app.folder_name(), "a");
    assert_eq!(app.selection(), (1, 1));
    app.backspace();
    app.backspace();
    assert_eq!(app.folder_name(), "");
    assert_eq!(app.selection(), (0, 0));
}

#[test]
fn second_confirm_is_ignored() {
    let mut app = TemplateApp::new();
    app.set_folder_name(String::from("First"));
    app.confirm();
    app.set_folder_name(String::from("Second"));
    app.type_char('x');
    app.backspace();
    app.field_gained_focus();
    app.confirm();
    app.cancel();
    assert_eq!(app.folder_name(), "First");
    assert_eq!(app.result(), "First");
}

#[test]
fn cancel_then_confirm_is_ignored() {
    let mut app = TemplateApp::new();
    app.cancel();
    app.confirm();
    assert_eq!(app.result(), "");
}

#[test]
fn window_close_leaves_result_unset() {
    let mut app = TemplateApp::new();
    app.type_str("abc");
    app.close_window();
    assert!(app.is_closed());
    assert_eq!(app.result(), "");
    app.confirm();
    assert_eq!(app.result(), "");
}

#[test]
fn fresh_dialog_state() {
    let app = TemplateApp::default();
    assert_eq!(app.folder_name(), "untitled folder");
    assert_eq!(app.current_folder(), "current folder name");
    assert_eq!(app.selection(), (15, 15));
    assert!(!app.is_focused());
    assert!(!app.is_closed());
    assert_eq!(app.result(), "");
    assert_eq!(app.style(), style_for(false));
}

#[test]
fn get_result_is_the_field_text() {
    let app = TemplateApp::default().with_current_folder("Documents".to_string());
    assert_eq!(app.get_result(), "untitled folder");
    assert_eq!(app.result(), "");
    let mut app = app;
    app.field_gained_focus();
    app.type_str("Letters");
    assert_eq!(app.get_result(), "Letters");
    app.cancel();
    assert_eq!(app.get_result(), "Letters");
    assert_eq!(app.result(), "");
}

#[test]
fn focus_events_leave_the_text_alone() {
    let mut app = TemplateApp::new().with_current_folder(String::from("Home"));
    for e in [
        FocusEvent::Window(true),
        FocusEvent::Field,
        FocusEvent::Window(false),
        FocusEvent::Field,
        FocusEvent::Window(true),
    ] {
        app.on_focus_event(e);
    }
    assert!(app.is_focused());
    assert_eq!(app.selection(), (0, 15));
    assert_eq!(app.folder_name(), "untitled folder");
    app.confirm();
    assert_eq!(app.result(), "untitled folder");
}

#[test]
fn typing_at_end_appends() {
    let mut app = TemplateApp::new();
    app.set_folder_name(String::from("Notes"));
    app.type_str(" 2025 ñ");
    assert_eq!(app.folder_name(), "Notes 2025 ñ");
}
