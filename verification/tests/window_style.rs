use codex_pulse::window_style::{frameless_styles, popup_styles};

#[test]
fn popup_styles_of_an_overlapped_window() {
    let (style, ex_style, changed) = popup_styles(0x10CF_0000, 0x0004_0100);
    assert_eq!(style, 0x9000_0000_isize);
    assert_eq!(ex_style, 0x80);
    assert!(changed);
    assert_eq!(popup_styles(style, ex_style), (style, ex_style, false));
}

#[test]
fn popup_styles_drop_the_child_flag() {
    let (style, ex_style, changed) = popup_styles(0x4000_0000, 0x80);
    assert_eq!(style, 0x8000_0000_isize);
    assert_eq!(ex_style, 0x80);
    assert!(changed);
}

#[test]
fn frameless_styles_clear_the_frame_only() {
    let (style, ex_style, changed) = frameless_styles(0x14CF_0000, 0x0000_0300);
    assert_eq!(style, 0x1400_0000);
    assert_eq!(ex_style, 0);
    assert!(changed);
    assert_eq!(frameless_styles(style, ex_style), (style, ex_style, false));
    assert_eq!(frameless_styles(0x9000_0000, 0x80), (0x9000_0000, 0x80, false));
}
