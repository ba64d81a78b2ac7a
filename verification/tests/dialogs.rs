use zfs_tui::dialog::{
    dialog_frame, footnote, footnote_x, rule, DIALOG_HEIGHT, DIALOG_WIDTH, FIELD_WIDTH,
};
use zfs_tui::keys::{decode, KEY_ENTER, KEY_ESC, KEY_PDN, KEY_PUP, KEY_TAB};
use zfs_tui::text::{decimal_string, fit_to_width, pad_to};
use zfs_tui::{Cancelled, ConfirmDialog, InputDialog, Key};

fn type_keys(dialog: &mut InputDialog, text: &str) {
    for byte in text.bytes() {
        assert_eq!(dialog.handle_key(byte as i32), None);
    }
}

#[test]
fn decode_reads_the_terminal_library_codes() {
    assert_eq!(decode(ncurses::KEY_HOME), Key::Home);
    assert_eq!(decode(ncurses::KEY_END), Key::End);
    assert_eq!(decode(ncurses::KEY_UP), Key::Up);
    assert_eq!(decode(ncurses::KEY_DOWN), Key::Down);
    assert_eq!(decode(ncurses::KEY_LEFT), Key::Left);
    assert_eq!(decode(ncurses::KEY_RIGHT), Key::Right);
    assert_eq!(decode(ncurses::KEY_BACKSPACE), Key::Backspace);
    assert_eq!(decode(ncurses::KEY_PPAGE), Key::PageUp);
    assert_eq!(decode(ncurses::KEY_NPAGE), Key::PageDown);
}

#[test]
fn decode_by_number() {
    assert_eq!(decode(0x102), Key::Down);
    assert_eq!(decode(0x103), Key::Up);
    assert_eq!(decode(0x104), Key::Left);
    assert_eq!(decode(0x105), Key::Right);
    assert_eq!(decode(0x106), Key::Home);
    assert_eq!(decode(0x107), Key::Backspace);
    assert_eq!(decode(0x168), Key::End);
    assert_eq!(decode(KEY_PUP), Key::PageUp);
    assert_eq!(decode(KEY_PDN), Key::PageDown);
    assert_eq!(decode(KEY_TAB), Key::Tab);
    assert_eq!(decode(KEY_ENTER), Key::Enter);
    assert_eq!(decode(KEY_ESC), Key::Escape);
}

#[test]
fn decode_function_keys() {
    assert_eq!(decode(ncurses::KEY_F1), Key::Function(1));
    assert_eq!(decode(ncurses::KEY_F5), Key::Function(5));
    assert_eq!(decode(ncurses::KEY_F10), Key::Function(10));
    assert_eq!(decode(ncurses::KEY_F12), Key::Function(12));
    for n in 1..=12u8 {
        assert_eq!(decode(0x108 + n as i32), Key::Function(n));
    }
    assert_eq!(decode(ncurses::KEY_F0), Key::Other);
    assert_eq!(decode(ncurses::KEY_F13), Key::Other);
}

#[test]
fn decode_characters_and_the_rest() {
    assert_eq!(decode(0x20), Key::Char(b' '));
    assert_eq!(decode(0x61), Key::Char(b'a'));
    assert_eq!(decode(0x7f), Key::Char(0x7f));
    assert_eq!(decode(0x1f), Key::Other);
    assert_eq!(decode(0x80), Key::Other);
    assert_eq!(decode(0), Key::Other);
    assert_eq!(decode(-1), Key::Other);
    assert_eq!(decode(ncurses::KEY_DL), Key::Other);
    assert_eq!(decode(ncurses::KEY_IL), Key::Other);
    assert_eq!(decode(i32::MAX), Key::Other);
    assert_eq!(decode(i32::MIN), Key::Other);
}

#[test]
fn input_dialog_abc_backspace_enter() {
    let mut dialog = InputDialog::new(" Create Dataset: ", "Enter the name of the new Dataset", "");
    type_keys(&mut dialog, "abc");
    assert_eq!(dialog.input, "abc");
    assert_eq!(dialog.handle_key(ncurses::KEY_BACKSPACE), None);
    assert_eq!(dialog.input, "ab");
    assert_eq!(dialog.handle_key(KEY_ENTER), Some(Ok("ab".to_string())));
}

#[test]
fn input_dialog_abc_escape() {
    let mut dialog = InputDialog::new("t", "p", "");
    type_keys(&mut dialog, "abc");
    assert_eq!(dialog.handle_key(KEY_ESC), Some(Err(Cancelled)));
    assert_eq!(dialog.input, "abc");
}

#[test]
fn input_dialog_starts_with_the_prefill() {
    let mut dialog = InputDialog::new("t", "p", "tank/a@");
    assert_eq!(dialog.title, "t");
    assert_eq!(dialog.prompt, "p");
    assert_eq!(dialog.input, "tank/a@");
    type_keys(&mut dialog, "monday");
    assert_eq!(dialog.handle_key(KEY_ENTER), Some(Ok("tank/a@monday".to_string())));
}

#[test]
fn input_dialog_backspace_on_an_empty_line() {
    let mut dialog = InputDialog::new("t", "p", "");
    assert_eq!(dialog.handle_key(ncurses::KEY_BACKSPACE), None);
    assert_eq!(dialog.input, "");
    assert_eq!(dialog.handle_key(KEY_ENTER), Some(Ok(String::new())));
}

#[test]
fn input_dialog_accepts_blank_to_delete() {
    let mut dialog = InputDialog::new("t", "p", "");
    assert_eq!(dialog.handle_key(0x20), None);
    assert_eq!(dialog.handle_key(0x7e), None);
    assert_eq!(dialog.handle_key(0x7f), None);
    assert_eq!(dialog.input, " ~\u{7f}");
}

#[test]
fn input_dialog_ignores_other_keys() {
    let mut dialog = InputDialog::new("t", "p", "pool");
    for key in [KEY_TAB, 0x1f, 0x80, ncurses::KEY_UP, ncurses::KEY_F5, ncurses::KEY_HOME, -1] {
        assert_eq!(dialog.handle_key(key), None);
        assert_eq!(dialog.input, "pool");
    }
}

#[test]
fn input_field_is_padded_to_its_width() {
    let mut dialog = InputDialog::new("t", "p", "abc");
    assert_eq!(dialog.field(), format!("{:<64}", "abc"));
    assert_eq!(dialog.handle_key(ncurses::KEY_BACKSPACE), None);
    assert_eq!(dialog.field(), format!("{:<64}", "ab"));
    assert_eq!(dialog.field().len(), FIELD_WIDTH);
}

#[test]
fn input_field_cuts_a_line_that_is_too_long() {
    let long = "x".repeat(70);
    let dialog = InputDialog::new("t", "p", &long);
    assert_eq!(dialog.field(), "x".repeat(64));
}

#[test]
fn confirm_dialog_enter_and_escape() {
    let dialog = ConfirmDialog::new(" Confirm Destroy: ", "prompt", "tank/a");
    assert_eq!(dialog.title, " Confirm Destroy: ");
    assert_eq!(dialog.prompt, "prompt");
    assert_eq!(dialog.info, "tank/a");
    assert_eq!(dialog.handle_key(KEY_ENTER), Some(Ok(())));
    assert_eq!(dialog.handle_key(KEY_ESC), Some(Err(Cancelled)));
}

#[test]
fn confirm_dialog_ignores_other_keys() {
    let dialog = ConfirmDialog::new("t", "p", "i");
    for key in [0x20, 0x61, 0x79, KEY_TAB, ncurses::KEY_BACKSPACE, ncurses::KEY_F10, 0, -1] {
        assert_eq!(dialog.handle_key(key), None);
    }
}

#[test]
fn dialog_box_is_centred() {
    let frame = dialog_frame(24, 80, " Confirm Scrub: ");
    assert_eq!(frame.height, 8);
    assert_eq!(frame.width, 70);
    assert_eq!(frame.start_y, 8);
    assert_eq!(frame.start_x, 5);
    assert_eq!(frame.title, " Confirm Scrub: ");
    let frame = dialog_frame(51, 201, "t");
    assert_eq!((frame.start_y, frame.start_x), (21, 65));
    let frame = dialog_frame(0, 0, "t");
    assert_eq!((frame.start_y, frame.start_x), (-4, -35));
    assert_eq!((DIALOG_HEIGHT, DIALOG_WIDTH), (8, 70));
}

#[test]
fn footnote_is_centred_in_the_box() {
    assert_eq!(footnote(), "ESC Cancel  ENTER Confirm");
    assert_eq!(footnote_x(), 23);
    assert_eq!(footnote_x(), 70 / 2 - footnote().len() as i32 / 2);
}

#[test]
fn rule_is_as_wide_as_the_field() {
    assert_eq!(rule(), "-".repeat(64));
}

#[test]
fn pad_and_fit() {
    let mut text = "ab".to_string();
    pad_to(&mut text, 5);
    assert_eq!(text, "ab   ");
    pad_to(&mut text, 3);
    assert_eq!(text, "ab   ");
    assert_eq!(fit_to_width("abcdef", 4), "abcd");
    assert_eq!(fit_to_width("abcdef", 6), "abcdef");
    assert_eq!(fit_to_width("abcdef", 8), "abcdef  ");
    assert_eq!(fit_to_width("abcdef", 0), "");
}

#[test]
fn decimal_strings() {
    assert_eq!(decimal_string(0), "0");
    assert_eq!(decimal_string(7), "7");
    assert_eq!(decimal_string(10), "10");
    assert_eq!(decimal_string(409), "409");
    assert_eq!(decimal_string(usize::MAX), usize::MAX.to_string());
}
