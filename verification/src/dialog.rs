//! The two modal dialogs: one that edits a line of text, one that only asks
//! for confirmation. Each is a state that takes one key at a time; whoever
//! reads the keys feeds them in until the dialog resolves.

use vstd::prelude::*;
use crate::frame::{Frame, FrameView};
use crate::keys::{decode, key_of, Key, KEY_ENTER, KEY_ESC};
use crate::text::{fit, fit_to_width};

verus! {

/// Rows of a dialog box.
pub const DIALOG_HEIGHT: i32 = 8;

/// Columns of a dialog box.
pub const DIALOG_WIDTH: i32 = 70;

/// Characters of the input field, and of the rule below it.
pub const FIELD_WIDTH: usize = 64;

/// Column, inside the box, where prompt, field and rule start.
pub const TEXT_X: i32 = 3;

/// Row of the prompt, inside the box.
pub const PROMPT_Y: i32 = 2;

/// Row of the input field or of the information line.
pub const FIELD_Y: i32 = 3;

/// Row of the rule.
pub const RULE_Y: i32 = 5;

/// Row of the footnote.
pub const FOOTNOTE_Y: i32 = 6;

/// What a dialog resolves to when it is left with Escape.
#[derive(Clone, Copy, Debug, PartialEq, Eq, Structural)]
pub struct Cancelled;

/// The hint on the last line of every dialog.
pub open spec fn footnote_text() -> Seq<char> {
    "ESC Cancel  ENTER Confirm"@
}

/// The hint on the last line of every dialog.
pub fn footnote() -> (text: &'static str)
    ensures
        text@ == footnote_text(),
        text@.len() == 25,
{
    proof {
        reveal_strlit("ESC Cancel  ENTER Confirm");
    }
    "ESC Cancel  ENTER Confirm"
}

/// The column, inside the box, at which the footnote is centred: half the
/// box's width less half the footnote's length.
pub fn footnote_x() -> (x: i32)
    ensures
        x == DIALOG_WIDTH / 2 - footnote_text().len() / 2,
        x == 23,
{
    let len = footnote().unicode_len();
    DIALOG_WIDTH / 2 - (len as i32) / 2
}

/// The rule that separates the field from the footnote.
pub fn rule() -> (line: String)
    ensures
        line@ == Seq::new(FIELD_WIDTH as nat, |i: int| '-'),
{
    let mut line = String::new();
    let mut n: usize = 0;
    while n < FIELD_WIDTH
        invariant
            n <= FIELD_WIDTH,
            line@ == Seq::new(n as nat, |i: int| '-'),
        decreases FIELD_WIDTH - n,
    {
        line.push('-');
        n = n + 1;
    }
    line
}

/// The box of a dialog, centred on a terminal of `max_y` rows and `max_x`
/// columns.
pub open spec fn dialog_box(max_y: int, max_x: int, title: Seq<char>) -> FrameView {
    FrameView {
        height: 8,
        width: 70,
        start_y: max_y / 2 - 4,
        start_x: max_x / 2 - 35,
        title,
    }
}

/// The box of a dialog, centred on a terminal of `max_y` rows and `max_x`
/// columns. On a terminal smaller than the box the start is negative.
pub fn dialog_frame(max_y: i32, max_x: i32, title: &str) -> (frame: Frame)
    requires
        0 <= max_y,
        0 <= max_x,
    ensures
        frame@ == dialog_box(max_y as int, max_x as int, title@),
{
    Frame {
        height: DIALOG_HEIGHT,
        width: DIALOG_WIDTH,
        start_y: max_y / 2 - DIALOG_HEIGHT / 2,
        start_x: max_x / 2 - DIALOG_WIDTH / 2,
        title: String::from_str(title),
    }
}

/// The line that a key leaves in the input field: a character from blank
/// to delete is appended, backspace removes the last one, any other key
/// changes nothing.
pub open spec fn edited(input: Seq<char>, key: Key) -> Seq<char> {
    match key {
        Key::Char(c) => input.push(c as char),
        Key::Backspace => if input.len() > 0 {
            input.drop_last()
        } else {
            input
        },
        _ => input,
    }
}

/// What an input dialog holding `input` resolves to on a key, if the key
/// ends it: Enter gives the line, Escape cancels.
pub open spec fn input_result(input: Seq<char>, key: Key) -> Option<Result<Seq<char>, Cancelled>> {
    match key {
        Key::Enter => Some(Ok(input)),
        Key::Escape => Some(Err(Cancelled)),
        _ => None,
    }
}

/// What a confirm dialog resolves to on a key, if the key ends it.
pub open spec fn confirm_result(key: Key) -> Option<Result<(), Cancelled>> {
    match key {
        Key::Enter => Some(Ok(())),
        Key::Escape => Some(Err(Cancelled)),
        _ => None,
    }
}

/// The result of an input dialog with its text as plain data.
pub open spec fn result_text(result: Option<Result<String, Cancelled>>) -> Option<
    Result<Seq<char>, Cancelled>,
> {
    match result {
        Some(Ok(line)) => Some(Ok(line@)),
        Some(Err(e)) => Some(Err(e)),
        None => None,
    }
}

/// A dialog that edits one line of text.
#[derive(Clone, Debug, PartialEq, Eq)]
pub struct InputDialog {
    pub title: String,
    pub prompt: String,
    /// The line as edited so far.
    pub input: String,
}

/// An input dialog as plain data.
pub struct InputDialogView {
    pub title: Seq<char>,
    pub prompt: Seq<char>,
    pub input: Seq<char>,
}

impl View for InputDialog {
    type V = InputDialogView;

    open spec fn view(&self) -> InputDialogView {
        InputDialogView { title: self.title@, prompt: self.prompt@, input: self.input@ }
    }
}

impl InputDialog {
    /// A dialog whose line starts as `info`.
    pub fn new(title: &str, prompt: &str, info: &str) -> (dialog: InputDialog)
        ensures
            dialog@ == (InputDialogView { title: title@, prompt: prompt@, input: info@ }),
    {
        InputDialog {
            title: String::from_str(title),
            prompt: String::from_str(prompt),
            input: String::from_str(info),
        }
    }

    /// Takes one key. Enter resolves the dialog to the line, Escape to
    /// `Cancelled`; both leave the line as it is. Any other key edits the
    /// line, or does nothing, and the dialog goes on: the result is `None`.
    pub fn handle_key(&mut self, key: i32) -> (result: Option<Result<String, Cancelled>>)
        ensures
            result_text(result) == input_result(old(self)@.input, key_of(key as int)),
            final(self)@ == (InputDialogView {
                input: edited(old(self)@.input, key_of(key as int)),
                ..old(self)@
            }),
            key == KEY_ESC ==> result == Some(Err::<String, Cancelled>(Cancelled)),
            key == KEY_ENTER ==> (result matches Some(Ok(line)) && line@ == old(self)@.input),
    {
        match decode(key) {
            Key::Enter => Some(Ok(self.input.clone())),
            Key::Escape => Some(Err(Cancelled)),
            Key::Char(c) => {
                self.input.push(c as char);
                None
            },
            Key::Backspace => {
                self.input.pop();
                None
            },
            _ => None,
        }
    }

    /// The line as the field shows it: cut or padded with blanks to the
    /// field's width, so that it covers what was shown before.
    pub fn field(&self) -> (shown: String)
        ensures
            shown@ == fit(self@.input, FIELD_WIDTH as nat),
    {
        fit_to_width(self.input.as_str(), FIELD_WIDTH)
    }
}

/// A dialog that shows a line of information and asks for confirmation.
#[derive(Clone, Debug, PartialEq, Eq)]
pub struct ConfirmDialog {
    pub title: String,
    pub prompt: String,
    pub info: String,
}

/// A confirm dialog as plain data.
pub struct ConfirmDialogView {
    pub title: Seq<char>,
    pub prompt: Seq<char>,
    pub info: Seq<char>,
}

impl View for ConfirmDialog {
    type V = ConfirmDialogView;

    open spec fn view(&self) -> ConfirmDialogView {
        ConfirmDialogView { title: self.title@, prompt: self.prompt@, info: self.info@ }
    }
}

impl ConfirmDialog {
    /// A dialog that shows `info` below `prompt`.
    pub fn new(title: &str, prompt: &str, info: &str) -> (dialog: ConfirmDialog)
        ensures
            dialog@ == (ConfirmDialogView { title: title@, prompt: prompt@, info: info@ }),
    {
        ConfirmDialog {
            title: String::from_str(title),
            prompt: String::from_str(prompt),
            info: String::from_str(info),
        }
    }

    /// Takes one key. Enter confirms, Escape cancels, and on any other key
    /// the dialog goes on: the result is `None`.
    pub fn handle_key(&self, key: i32) -> (result: Option<Result<(), Cancelled>>)
        ensures
            result == confirm_result(key_of(key as int)),
            key == KEY_ESC ==> result == Some(Err::<(), Cancelled>(Cancelled)),
            key == KEY_ENTER ==> result == Some(Ok::<(), Cancelled>(())),
    {
        match decode(key) {
            Key::Enter => Some(Ok(())),
            Key::Escape => Some(Err(Cancelled)),
            _ => None,
        }
    }
}

} // verus!
