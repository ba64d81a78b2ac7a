//! The controller: two panes, one of them focused, and the size of the
//! terminal. It turns each key into a change of its panes and tells the
//! caller what to do next, and it lays out each frame.

use vstd::prelude::*;
use crate::action::{Action, ActionRequest, ActionRequestView};
use crate::content::{
    item_names, moved, row_views, scrolled, texts, visible_rows, Content, ContentType,
    ContentView, ResourceItem, Row,
};
use crate::dialog::{dialog_box, dialog_frame};
use crate::frame::{Frame, FrameView};
use crate::keys::{decode, key_of, Key};
use crate::menu::{lemma_menu_width, menu_line, menu_text};
use crate::text::{lemma_fit_has_width, pad, pad_to};

verus! {

/// The two panes and the terminal's size.
#[derive(Debug)]
pub struct Screen {
    max_y: i32,
    max_x: i32,
    left_content: Content,
    right_content: Content,
}

/// The controller as plain data.
pub struct ScreenView {
    pub max_y: int,
    pub max_x: int,
    pub left: ContentView,
    pub right: ContentView,
}

/// What the caller is to do after a key.
#[derive(Clone, Debug, PartialEq, Eq)]
pub enum Dispatch {
    /// Leave the main loop.
    Quit,
    /// Go on. Where `request` holds an action, run its dialog and make the
    /// call that it resolves to; then, where `refresh` is set, list both
    /// panes anew.
    Continue { refresh: bool, request: Option<ActionRequest> },
}

/// The outcome of a key as plain data.
pub enum DispatchView {
    Quit,
    Continue { refresh: bool, request: Option<ActionRequestView> },
}

impl View for Dispatch {
    type V = DispatchView;

    open spec fn view(&self) -> DispatchView {
        match *self {
            Dispatch::Quit => DispatchView::Quit,
            Dispatch::Continue { refresh, request } => DispatchView::Continue {
                refresh,
                request: request_view(request),
            },
        }
    }
}

/// An optional action as plain data.
pub open spec fn request_view(request: Option<ActionRequest>) -> Option<ActionRequestView> {
    match request {
        Some(r) => Some(r@),
        None => None,
    }
}

/// An empty pane of the given kind, cursor and scroll offset at the top,
/// nothing marked.
pub open spec fn empty_pane(focused: bool, kind: ContentType) -> ContentView {
    ContentView {
        kind,
        items: Seq::empty(),
        cursor: 0,
        scroll_offset: 0,
        focused,
        selection: Seq::empty(),
    }
}

/// The window of a pane that takes the columns from `start_x` on, `width`
/// of them, and all rows but the last.
pub open spec fn pane_frame(max_y: int, start_x: int, width: int, kind: ContentType) -> FrameView {
    FrameView { height: max_y - 1, width, start_y: 0, start_x, title: kind.title() }
}

impl ScreenView {
    /// Exactly one pane is focused, and the terminal's size is not negative.
    pub open spec fn wf(self) -> bool {
        &&& self.left.focused != self.right.focused
        &&& 0 <= self.max_y
        &&& 0 <= self.max_x
    }

    /// The pane that keys go to.
    pub open spec fn focused(self) -> ContentView {
        if self.left.focused {
            self.left
        } else {
            self.right
        }
    }

    /// This controller with `pane` in place of the focused pane.
    pub open spec fn with_focused(self, pane: ContentView) -> ScreenView {
        if self.left.focused {
            ScreenView { left: pane, ..self }
        } else {
            ScreenView { right: pane, ..self }
        }
    }

    /// After a navigation key: the cursor of the focused pane has moved.
    pub open spec fn navigated(self, key: Key) -> ScreenView {
        let pane = self.focused();
        self.with_focused(pane.with_cursor(moved(key, pane.cursor, pane.items.len())))
    }

    /// After a change of focus: the left pane is focused if it was not, and
    /// the right pane if the left one was.
    pub open spec fn switched_window(self) -> ScreenView {
        ScreenView {
            left: ContentView { focused: !self.left.focused, ..self.left },
            right: ContentView { focused: self.left.focused, ..self.right },
            ..self
        }
    }

    /// After a change of kind: an empty, focused pane of the next kind
    /// stands in place of the focused one.
    pub open spec fn switched_mode(self) -> ScreenView {
        self.with_focused(empty_pane(true, self.focused().kind.successor()))
    }

    /// The action that function key `n` triggers: the one bound to the key
    /// for the focused pane's kind, on that pane's active selection. No
    /// action but create is triggered where nothing is selected.
    pub open spec fn request(self, n: int) -> Option<ActionRequestView> {
        let pane = self.focused();
        match Action::for_key(pane.kind, n) {
            Some(action) => if action != Action::Create && pane.active_selection().len() == 0 {
                None
            } else {
                Some(
                    ActionRequestView { action, kind: pane.kind, targets: pane.active_selection() },
                )
            },
            None => None,
        }
    }

    /// The controller after a key.
    pub open spec fn after_key(self, key: Key) -> ScreenView {
        match key {
            Key::Home | Key::End | Key::Up | Key::Down | Key::PageUp | Key::PageDown => {
                self.navigated(key)
            },
            Key::Left | Key::Right => self.switched_window(),
            Key::Tab => self.switched_mode(),
            _ => self,
        }
    }

    /// What the caller is to do after a key: function key 10 quits;
    /// function keys 1 to 9 trigger their action, if any, and ask for a
    /// refresh either way; a change of focus or of kind asks for a refresh;
    /// any other key asks for nothing.
    pub open spec fn dispatch(self, key: Key) -> DispatchView {
        match key {
            Key::Function(n) => if n == 10 {
                DispatchView::Quit
            } else if 1 <= n <= 9 {
                DispatchView::Continue { refresh: true, request: self.request(n as int) }
            } else {
                DispatchView::Continue { refresh: false, request: None }
            },
            Key::Left | Key::Right | Key::Tab => DispatchView::Continue {
                refresh: true,
                request: None,
            },
            _ => DispatchView::Continue { refresh: false, request: None },
        }
    }

    /// After a frame was laid out for a terminal of the given size: the
    /// size is taken over, a negative one as none, and both panes are
    /// scrolled to their cursors.
    pub open spec fn drawn(self, max_y: int, max_x: int) -> ScreenView {
        let rows = if max_y < 0 {
            0
        } else {
            max_y
        };
        let cols = if max_x < 0 {
            0
        } else {
            max_x
        };
        ScreenView {
            max_y: rows,
            max_x: cols,
            left: scrolled(self.left, rows),
            right: scrolled(self.right, rows),
        }
    }

    /// Columns of the left pane's window: half the terminal's.
    pub open spec fn left_width(self) -> int {
        self.max_x / 2
    }

    /// The menu bar as shown: the focused pane's, padded with blanks to
    /// the terminal's width.
    pub open spec fn menu(self) -> Seq<char> {
        pad(menu_text(self.focused().kind), self.max_x as nat)
    }
}

/// What is drawn of one pane: its window, and the lines inside it.
#[derive(Clone, Debug, PartialEq, Eq)]
pub struct PaneDrawing {
    pub frame: Frame,
    pub rows: Vec<Row>,
}

/// One frame of the main view.
#[derive(Clone, Debug, PartialEq, Eq)]
pub struct Drawing {
    /// The menu bar, shown in bold from the first column of row `menu_y`.
    pub menu: String,
    pub menu_y: i32,
    pub left: PaneDrawing,
    pub right: PaneDrawing,
}

impl View for Screen {
    type V = ScreenView;

    closed spec fn view(&self) -> ScreenView {
        ScreenView {
            max_y: self.max_y as int,
            max_x: self.max_x as int,
            left: self.left_content@,
            right: self.right_content@,
        }
    }
}

impl Screen {
    /// A controller with an empty dataset pane on the left, focused, an
    /// empty snapshot pane on the right, and no terminal size yet.
    pub fn new() -> (screen: Screen)
        ensures
            screen@ == (ScreenView {
                max_y: 0,
                max_x: 0,
                left: empty_pane(true, ContentType::Datasets),
                right: empty_pane(false, ContentType::Snapshots),
            }),
            screen@.wf(),
    {
        Screen {
            max_y: 0,
            max_x: 0,
            left_content: Content::new(true, ContentType::Datasets),
            right_content: Content::new(false, ContentType::Snapshots),
        }
    }

    /// The left pane.
    pub fn left(&self) -> (pane: &Content)
        ensures
            pane@ == self@.left,
    {
        &self.left_content
    }

    /// The right pane.
    pub fn right(&self) -> (pane: &Content)
        ensures
            pane@ == self@.right,
    {
        &self.right_content
    }

    /// Rows of the terminal, as of the last frame.
    pub fn max_y(&self) -> (rows: i32)
        ensures
            rows == self@.max_y,
    {
        self.max_y
    }

    /// Columns of the terminal, as of the last frame.
    pub fn max_x(&self) -> (cols: i32)
        ensures
            cols == self@.max_x,
    {
        self.max_x
    }

    /// The kind that the focused pane lists.
    pub fn content_type(&self) -> (kind: &ContentType)
        ensures
            *kind == self@.focused().kind,
    {
        if self.left_content.focused {
            &self.left_content.kind
        } else {
            &self.right_content.kind
        }
    }

    /// The names that an action applies to: the focused pane's active
    /// selection.
    pub fn selected_elements(&self) -> (names: Vec<String>)
        ensures
            texts(names@) == self@.focused().active_selection(),
    {
        if self.left_content.focused {
            self.left_content.selected_elements()
        } else {
            self.right_content.selected_elements()
        }
    }

    /// Replaces the lists of both panes by fresh listings. Cursors, scroll
    /// offsets, marks and focus stay as they are.
    pub fn update_content(&mut self, left: Vec<ResourceItem>, right: Vec<ResourceItem>)
        ensures
            final(self)@ == (ScreenView {
                left: ContentView { items: item_names(left@), ..old(self)@.left },
                right: ContentView {
                    items: item_names(right@),
                    ..old(self)@.right
                },
                ..old(self)@
            }),
            old(self)@.wf() ==> final(self)@.wf(),
    {
        self.left_content.update(left);
        self.right_content.update(right);
    }

    /// Moves the cursor of the focused pane as the navigation key says.
    pub fn navigate(&mut self, key: Key)
        ensures
            final(self)@ == old(self)@.navigated(key),
            old(self)@.wf() ==> final(self)@.wf(),
    {
        if self.left_content.focused {
            self.left_content.navigate(key);
        } else {
            self.right_content.navigate(key);
        }
    }

    /// Moves the focus to the other pane.
    pub fn switch_window(&mut self)
        ensures
            final(self)@ == old(self)@.switched_window(),
            final(self)@.left.focused != final(self)@.right.focused,
            old(self)@.wf() ==> final(self)@.wf(),
    {
        if self.left_content.focused {
            self.left_content.focused = false;
            self.right_content.focused = true;
        } else {
            self.left_content.focused = true;
            self.right_content.focused = false;
        }
    }

    /// Replaces the focused pane by an empty, focused pane of the next
    /// kind. The other pane stays as it is.
    pub fn switch_mode(&mut self)
        ensures
            final(self)@ == old(self)@.switched_mode(),
            final(self)@.focused() == empty_pane(true, old(self)@.focused().kind.successor()),
            old(self)@.wf() ==> final(self)@.wf(),
    {
        if self.left_content.focused {
            let kind = self.left_content.next();
            self.left_content = Content::new(true, kind);
        } else {
            let kind = self.right_content.next();
            self.right_content = Content::new(true, kind);
        }
    }

    /// The action that function key `n` triggers, with the names it applies
    /// to, if the key triggers one for the focused pane's kind.
    pub fn action_request(&self, n: u8) -> (request: Option<ActionRequest>)
        ensures
            request_view(request) == self@.request(n as int),
    {
        let kind = *self.content_type();
        match Action::bound_to(kind, n) {
            Some(action) => {
                let targets = self.selected_elements();
                let create = match action {
                    Action::Create => true,
                    _ => false,
                };
                if !create && targets.len() == 0 {
                    None
                } else {
                    Some(ActionRequest { action, kind, targets })
                }
            },
            None => None,
        }
    }

    /// Handles one key, given by its code: changes the panes as the key
    /// says, and tells the caller what to do next.
    pub fn handle_keys(&mut self, key: i32) -> (dispatch: Dispatch)
        ensures
            final(self)@ == old(self)@.after_key(key_of(key as int)),
            dispatch@ == old(self)@.dispatch(key_of(key as int)),
            old(self)@.wf() ==> final(self)@.wf(),
    {
        let k = decode(key);
        match k {
            Key::Function(n) => {
                if n == 10 {
                    Dispatch::Quit
                } else if 1 <= n && n <= 9 {
                    Dispatch::Continue { refresh: true, request: self.action_request(n) }
                } else {
                    Dispatch::Continue { refresh: false, request: None }
                }
            },
            Key::Home | Key::End | Key::Up | Key::Down | Key::PageUp | Key::PageDown => {
                self.navigate(k);
                Dispatch::Continue { refresh: false, request: None }
            },
            Key::Left | Key::Right => {
                self.switch_window();
                Dispatch::Continue { refresh: true, request: None }
            },
            Key::Tab => {
                self.switch_mode();
                Dispatch::Continue { refresh: true, request: None }
            },
            _ => Dispatch::Continue { refresh: false, request: None },
        }
    }

    /// The menu bar for the focused pane, padded with blanks to the
    /// terminal's width.
    pub fn draw_menu(&self) -> (menu: String)
        requires
            0 <= self@.max_x,
        ensures
            menu@ == self@.menu(),
    {
        let mut menu = menu_line(*self.content_type());
        pad_to(&mut menu, self.max_x as usize);
        menu
    }

    /// Scrolls both panes to their cursors and lays out their windows: the
    /// left one on the left half of the terminal, the right one on the
    /// rest, both on all rows but the last.
    pub fn draw_content(&mut self) -> (panes: (PaneDrawing, PaneDrawing))
        requires
            0 <= old(self)@.max_y,
            0 <= old(self)@.max_x,
        ensures
            final(self)@ == old(self)@.drawn(old(self)@.max_y, old(self)@.max_x),
            old(self)@.wf() ==> final(self)@.wf(),
            panes.0.frame@ == pane_frame(
                final(self)@.max_y,
                0,
                final(self)@.left_width(),
                final(self)@.left.kind,
            ),
            row_views(panes.0.rows@) == visible_rows(
                final(self)@.left,
                final(self)@.max_y,
                final(self)@.left_width(),
            ),
            panes.1.frame@ == pane_frame(
                final(self)@.max_y,
                final(self)@.left_width(),
                final(self)@.max_x - final(self)@.left_width(),
                final(self)@.right.kind,
            ),
            row_views(panes.1.rows@) == visible_rows(
                final(self)@.right,
                final(self)@.max_y,
                final(self)@.max_x - final(self)@.left_width(),
            ),
    {
        let height = self.max_y;
        let left_width = self.max_x / 2;
        let right_width = self.max_x - left_width;
        let left_frame = Frame {
            height: height - 1,
            width: left_width,
            start_y: 0,
            start_x: 0,
            title: self.left_content.kind.text(),
        };
        self.left_content.scroll_window(height);
        let left_rows = self.left_content.write_content(height, left_width);
        let right_frame = Frame {
            height: height - 1,
            width: right_width,
            start_y: 0,
            start_x: left_width,
            title: self.right_content.kind.text(),
        };
        self.right_content.scroll_window(height);
        let right_rows = self.right_content.write_content(height, right_width);
        (
            PaneDrawing { frame: left_frame, rows: left_rows },
            PaneDrawing { frame: right_frame, rows: right_rows },
        )
    }

    /// Lays out one frame for a terminal of `max_y` rows and `max_x`
    /// columns: the menu bar on the last row, and the two panes above it.
    /// A negative size counts as none.
    pub fn draw(&mut self, max_y: i32, max_x: i32) -> (drawing: Drawing)
        ensures
            final(self)@ == old(self)@.drawn(max_y as int, max_x as int),
            0 <= final(self)@.max_y,
            0 <= final(self)@.max_x,
            old(self)@.wf() ==> final(self)@.wf(),
            drawing.menu@ == final(self)@.menu(),
            drawing.menu_y == final(self)@.max_y - 1,
            drawing.left.frame@ == pane_frame(
                final(self)@.max_y,
                0,
                final(self)@.left_width(),
                final(self)@.left.kind,
            ),
            row_views(drawing.left.rows@) == visible_rows(
                final(self)@.left,
                final(self)@.max_y,
                final(self)@.left_width(),
            ),
            drawing.right.frame@ == pane_frame(
                final(self)@.max_y,
                final(self)@.left_width(),
                final(self)@.max_x - final(self)@.left_width(),
                final(self)@.right.kind,
            ),
            row_views(drawing.right.rows@) == visible_rows(
                final(self)@.right,
                final(self)@.max_y,
                final(self)@.max_x - final(self)@.left_width(),
            ),
    {
        self.max_y = if max_y < 0 {
            0
        } else {
            max_y
        };
        self.max_x = if max_x < 0 {
            0
        } else {
            max_x
        };
        let menu = self.draw_menu();
        let menu_y = self.max_y - 1;
        let (left, right) = self.draw_content();
        Drawing { menu, menu_y, left, right }
    }

    /// The box of a dialog with the given title, centred on the terminal.
    pub fn dialog_frame(&self, title: &str) -> (frame: Frame)
        requires
            0 <= self@.max_y,
            0 <= self@.max_x,
        ensures
            frame@ == dialog_box(self@.max_y, self@.max_x, title@),
    {
        dialog_frame(self.max_y, self.max_x, title)
    }
}

/// After a change of focus exactly one pane is focused, whatever was
/// focused before; and where exactly one pane was focused, a second change
/// brings back the controller as it was.
pub proof fn lemma_switch_window_toggles(screen: ScreenView)
    ensures
        screen.switched_window().left.focused != screen.switched_window().right.focused,
        screen.left.focused != screen.right.focused ==> screen.switched_window().switched_window()
            == screen,
{
}

/// A change of kind puts an empty pane of the next kind in place of the
/// focused one: cursor and scroll offset at the top, nothing marked, and
/// focused. The other pane, and with it the rule that exactly one pane is
/// focused, stay as they were.
pub proof fn lemma_switch_mode_resets(screen: ScreenView)
    ensures
        screen.switched_mode().focused().kind == screen.focused().kind.successor(),
        screen.switched_mode().focused().cursor == 0,
        screen.switched_mode().focused().scroll_offset == 0,
        screen.switched_mode().focused().selection.len() == 0,
        screen.switched_mode().focused().items.len() == 0,
        screen.switched_mode().focused().focused,
        screen.left.focused ==> screen.switched_mode().right == screen.right,
        !screen.left.focused ==> screen.switched_mode().left == screen.left,
        screen.wf() ==> screen.switched_mode().wf(),
{
}

/// No key but function key 10 ends the main loop, and no key changes the
/// terminal's size or breaks the rule that exactly one pane is focused.
/// Cursors that point at entries still do so after any key, and no key
/// touches the list or the marks of a pane that stays.
pub proof fn lemma_keys_keep_running(screen: ScreenView, key: Key)
    ensures
        screen.dispatch(key) is Quit <==> key == Key::Function(10),
        screen.wf() ==> screen.after_key(key).wf(),
        screen.after_key(key).max_y == screen.max_y,
        screen.after_key(key).max_x == screen.max_x,
        screen.left.cursor_in_range() ==> screen.after_key(key).left.cursor_in_range(),
        screen.right.cursor_in_range() ==> screen.after_key(key).right.cursor_in_range(),
        key != Key::Tab ==> screen.after_key(key).left.items == screen.left.items
            && screen.after_key(key).right.items == screen.right.items
            && screen.after_key(key).left.selection == screen.left.selection
            && screen.after_key(key).right.selection == screen.right.selection
            && screen.after_key(key).left.kind == screen.left.kind
            && screen.after_key(key).right.kind == screen.right.kind,
{
}

/// The menu bar as shown fills the terminal's width, and is never cut.
pub proof fn lemma_menu_fills_width(screen: ScreenView)
    requires
        0 <= screen.max_x,
    ensures
        screen.menu().len() == if screen.max_x > 81 {
            screen.max_x
        } else {
            81
        },
        screen.menu().take(81) == menu_text(screen.focused().kind),
{
    lemma_menu_width(screen.focused().kind);
    lemma_fit_has_width(menu_text(screen.focused().kind), screen.max_x as nat);
}

} // verus!
