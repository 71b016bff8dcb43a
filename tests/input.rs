use folder_dialog::text::parent_folder_from_input;

#[test]
fn startup_line_is_trimmed() {
    assert_eq!(parent_folder_from_input(Some("  Documents \n")), "Documents");
    assert_eq!(parent_folder_from_input(Some("\tMy Files\r\n")), "My Files");
}

#[test]
fn blank_startup_line_gives_empty_parent() {
    assert_eq!(parent_folder_from_input(Some("   \n")), "");
    assert_eq!(parent_folder_from_input(Some("")), "");
}

#[test]
fn unreadable_startup_line_gives_empty_parent() {
    assert_eq!(parent_folder_from_input(None), "");
}

#[test]
fn unicode_white_space_is_trimmed() {
    assert_eq!(parent_folder_from_input(Some("\u{3000}Docs\u{a0}\u{2029}")), "Docs");
    assert_eq!(parent_folder_from_input(Some("\u{85}\u{1680}Docs\u{202f}\u{205f}")), "Docs");
    assert_eq!(parent_folder_from_input(Some("\u{b}\u{c}Docs\u{2000}\u{200a}")), "Docs");
}

#[test]
fn non_white_space_is_kept() {
    assert_eq!(parent_folder_from_input(Some("\u{200b}Docs\u{feff}")), "\u{200b}Docs\u{feff}");
    assert_eq!(parent_folder_from_input(Some("\u{8}Docs\u{e}")), "\u{8}Docs\u{e}");
    assert_eq!(parent_folder_from_input(Some(" a b ")), "a b");
}
