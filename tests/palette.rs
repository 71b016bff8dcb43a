use folder_dialog::palette::{fixed_colors, style_for, Rgba};

#[test]
fn active_palette_values() {
    let s = style_for(true);
    assert_eq!(s.field_border, Rgba { r: 56, g: 100, b: 138, a: 255 });
    assert_eq!(s.selection, Rgba { r: 71, g: 98, b: 135, a: 255 });
    assert_eq!(s.confirm_fill, Rgba { r: 48, g: 98, b: 212, a: 255 });
}

#[test]
fn dimmed_palette_values() {
    let s = style_for(false);
    assert_eq!(s.field_border, Rgba { r: 0, g: 0, b: 0, a: 0 });
    assert_eq!(s.selection, Rgba { r: 70, g: 70, b: 70, a: 255 });
    assert_eq!(s.confirm_fill, Rgba { r: 89, g: 88, b: 86, a: 255 });
}

#[test]
fn style_is_a_function_of_focus() {
    assert_eq!(style_for(true), style_for(true));
    assert_eq!(style_for(false), style_for(false));
    assert_ne!(style_for(true), style_for(false));
}

#[test]
fn fixed_palette_values() {
    let c = fixed_colors();
    assert_eq!(c.text, Rgba::rgb(221, 221, 221));
    assert_eq!(c.field_fill, Rgba::rgb(44, 43, 40));
    assert_eq!(c.field_outline, Rgba::rgb(83, 82, 82));
    assert_eq!(c.cancel_fill, Rgba::rgb(89, 88, 86));
    assert_eq!(c.background, Rgba { r: 33, g: 32, b: 29, a: 255 });
}
