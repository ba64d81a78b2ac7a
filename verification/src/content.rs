//! One pane: a scrollable list of resources of one kind, with its cursor.

use vstd::prelude::*;
use crate::keys::Key;
use crate::text::{fit, fit_to_width, lemma_fit_has_width};

verus! {

/// Rows at the bottom of a pane's window that hold no list entry.
pub const BOTTOM_BORDER_SIZE: usize = 3;

/// Window row of the first list entry.
pub const TOP_CONTENT_Y: i32 = 1;

/// Window column where each list entry starts.
pub const TOP_CONTENT_X: i32 = 1;

/// How far page up and page down move the cursor.
pub const PAGE_STEP: usize = 10;

/// The kinds of resource that a pane can list.
#[derive(Clone, Copy, Debug, PartialEq, Eq, Structural)]
pub enum ContentType {
    Datasets,
    Pools,
    Volumes,
    Snapshots,
}

impl ContentType {
    /// The kind that follows this one when a pane changes what it lists:
    /// pools, datasets, volumes, snapshots, and round to pools again.
    pub open spec fn successor(self) -> ContentType {
        match self {
            ContentType::Pools => ContentType::Datasets,
            ContentType::Datasets => ContentType::Volumes,
            ContentType::Volumes => ContentType::Snapshots,
            ContentType::Snapshots => ContentType::Pools,
        }
    }

    /// The title of a window that lists this kind.
    pub open spec fn title(self) -> Seq<char> {
        match self {
            ContentType::Pools => " Pools: "@,
            ContentType::Datasets => " Datasets: "@,
            ContentType::Volumes => " Volumes: "@,
            ContentType::Snapshots => " Snapshots: "@,
        }
    }

    /// The title of a window that lists this kind.
    pub fn text(&self) -> (title: String)
        ensures
            title@ == self.title(),
    {
        match self {
            ContentType::Pools => String::from_str(" Pools: "),
            ContentType::Datasets => String::from_str(" Datasets: "),
            ContentType::Volumes => String::from_str(" Volumes: "),
            ContentType::Snapshots => String::from_str(" Snapshots: "),
        }
    }
}

/// One listed resource. The name is whatever the provider reported.
#[derive(Clone, Debug, PartialEq, Eq)]
pub struct ResourceItem {
    pub name: String,
}

/// The names of a list of resources, in order.
pub open spec fn item_names(items: Seq<ResourceItem>) -> Seq<Seq<char>> {
    Seq::new(items.len(), |i: int| items[i].name@)
}

/// The texts of a list of strings, in order.
pub open spec fn texts(strings: Seq<String>) -> Seq<Seq<char>> {
    Seq::new(strings.len(), |i: int| strings[i]@)
}

/// A pane. `cursor` is the highlighted entry and `scroll_offset` the first
/// entry shown. A refresh may leave the cursor past the end of a list that
/// has shrunk: every function here takes such a pane too.
#[derive(Clone, Debug, PartialEq, Eq)]
pub struct Content {
    pub kind: ContentType,
    pub items: Vec<ResourceItem>,
    pub cursor: usize,
    pub scroll_offset: usize,
    pub focused: bool,
    pub selection: Vec<String>,
}

/// A pane as plain data.
pub struct ContentView {
    pub kind: ContentType,
    pub items: Seq<Seq<char>>,
    pub cursor: nat,
    pub scroll_offset: nat,
    pub focused: bool,
    pub selection: Seq<Seq<char>>,
}

impl ContentView {
    /// The cursor points at an entry, or there is none to point at.
    pub open spec fn cursor_in_range(self) -> bool {
        self.items.len() > 0 ==> self.cursor < self.items.len()
    }

    /// This pane with the cursor elsewhere.
    pub open spec fn with_cursor(self, cursor: nat) -> ContentView {
        ContentView { cursor, ..self }
    }

    /// The names that an action applies to: the marked ones if any are
    /// marked, else the one under the cursor, if there is one.
    pub open spec fn active_selection(self) -> Seq<Seq<char>> {
        if self.selection.len() > 0 {
            self.selection
        } else if self.cursor < self.items.len() {
            seq![self.items[self.cursor as int]]
        } else {
            Seq::empty()
        }
    }
}

impl View for Content {
    type V = ContentView;

    open spec fn view(&self) -> ContentView {
        ContentView {
            kind: self.kind,
            items: item_names(self.items@),
            cursor: self.cursor as nat,
            scroll_offset: self.scroll_offset as nat,
            focused: self.focused,
            selection: texts(self.selection@),
        }
    }
}

/// Where home puts the cursor.
pub open spec fn moved_home(cursor: nat, len: nat) -> nat {
    if len == 0 {
        cursor
    } else {
        0
    }
}

/// Where end puts the cursor.
pub open spec fn moved_end(cursor: nat, len: nat) -> nat {
    if len == 0 {
        cursor
    } else {
        (len - 1) as nat
    }
}

/// Where one step up puts the cursor.
pub open spec fn moved_up(cursor: nat, len: nat) -> nat {
    if len == 0 || cursor == 0 {
        cursor
    } else {
        (cursor - 1) as nat
    }
}

/// Where one step down puts the cursor: one entry on, but never onto the
/// last entry.
pub open spec fn moved_down(cursor: nat, len: nat) -> nat {
    if cursor + 2 < len {
        cursor + 1
    } else {
        cursor
    }
}

/// Where page up puts the cursor.
pub open spec fn paged_up(cursor: nat, len: nat) -> nat {
    if len == 0 {
        cursor
    } else if cursor > 10 {
        (cursor - 10) as nat
    } else {
        0
    }
}

/// Where page down puts the cursor.
pub open spec fn paged_down(cursor: nat, len: nat) -> nat {
    if cursor + 11 < len {
        cursor + 10
    } else if len >= 2 {
        (len - 2) as nat
    } else {
        cursor
    }
}

/// Where a navigation key puts the cursor of a list of `len` entries; any
/// other key leaves it.
pub open spec fn moved(key: Key, cursor: nat, len: nat) -> nat {
    match key {
        Key::Home => moved_home(cursor, len),
        Key::End => moved_end(cursor, len),
        Key::Up => moved_up(cursor, len),
        Key::Down => moved_down(cursor, len),
        Key::PageUp => paged_up(cursor, len),
        Key::PageDown => paged_down(cursor, len),
        _ => cursor,
    }
}

/// Entries below the cursor's row that a window of `height` rows can still
/// show: the height less the bottom rows and the cursor's own row, never
/// less than none.
pub open spec fn viewport_span(height: int) -> nat {
    if height > 4 {
        (height - 4) as nat
    } else {
        0
    }
}

/// The scroll offset that brings the cursor into a window of `height` rows.
pub open spec fn scrolled_offset(cursor: nat, offset: nat, height: int) -> nat {
    if cursor < offset {
        cursor
    } else if cursor - offset > viewport_span(height) {
        (cursor - viewport_span(height)) as nat
    } else {
        offset
    }
}

/// The cursor pulled back onto the last entry but one, where it stands on
/// the last entry or past it and the list has more than two.
pub open spec fn clamped_cursor(cursor: nat, len: nat) -> nat {
    if len > 2 && cursor > len - 2 {
        (len - 2) as nat
    } else {
        cursor
    }
}

/// A pane after its scroll offset and cursor were reconciled with a window
/// of `height` rows.
pub open spec fn scrolled(pane: ContentView, height: int) -> ContentView {
    ContentView {
        scroll_offset: scrolled_offset(pane.cursor, pane.scroll_offset, height),
        cursor: clamped_cursor(pane.cursor, pane.items.len()),
        ..pane
    }
}

/// One line of a pane's window.
#[derive(Clone, Debug, PartialEq, Eq)]
pub struct Row {
    /// Window row.
    pub y: i32,
    /// The entry's name, cut or padded to the window's inner width.
    pub text: String,
    /// Whether the line is shown reversed, as the cursor's.
    pub highlighted: bool,
}

/// A line as plain data.
pub struct RowView {
    pub y: int,
    pub text: Seq<char>,
    pub highlighted: bool,
}

impl View for Row {
    type V = RowView;

    open spec fn view(&self) -> RowView {
        RowView { y: self.y as int, text: self.text@, highlighted: self.highlighted }
    }
}

/// The lines of a list of rows.
pub open spec fn row_views(rows: Seq<Row>) -> Seq<RowView> {
    Seq::new(rows.len(), |i: int| rows[i]@)
}

/// Characters of a window of `width` columns that lie between its borders.
pub open spec fn inner_width(width: int) -> nat {
    if width > 2 {
        (width - 2) as nat
    } else {
        0
    }
}

/// How many entries a window of `height` rows shows of a list of `len`
/// entries scrolled to `offset`.
pub open spec fn visible_count(len: nat, offset: nat, height: int) -> nat {
    let room: nat = if height > 3 {
        (height - 3) as nat
    } else {
        0
    };
    if offset >= len {
        0
    } else if len - offset < room {
        (len - offset) as nat
    } else {
        room
    }
}

/// The `j`-th line that a window of `width` columns shows of a pane.
pub open spec fn row_at(pane: ContentView, j: int, width: int) -> RowView {
    RowView {
        y: j + 1,
        text: fit(pane.items[pane.scroll_offset + j], inner_width(width)),
        highlighted: pane.focused && pane.scroll_offset + j == pane.cursor,
    }
}

/// What a window of `height` rows and `width` columns shows of a pane.
pub open spec fn visible_rows(pane: ContentView, height: int, width: int) -> Seq<RowView> {
    Seq::new(
        visible_count(pane.items.len(), pane.scroll_offset, height),
        |j: int| row_at(pane, j, width),
    )
}

/// The name cut or padded with blanks to fill a window of `width` columns
/// between its two borders.
pub fn fit_to_window(result_name: &str, width: usize) -> (text: String)
    ensures
        text@ == fit(result_name@, inner_width(width as int)),
{
    let inner: usize = if width > 2 {
        width - 2
    } else {
        0
    };
    fit_to_width(result_name, inner)
}

/// A copy of a list of strings.
pub fn copy_strings(strings: &Vec<String>) -> (copy: Vec<String>)
    ensures
        texts(copy@) == texts(strings@),
{
    let mut copy: Vec<String> = Vec::new();
    let mut i: usize = 0;
    while i < strings.len()
        invariant
            i <= strings.len(),
            copy.len() == i,
            forall|j: int| 0 <= j < i ==> copy[j]@ == strings[j]@,
        decreases strings.len() - i,
    {
        copy.push(strings[i].clone());
        i = i + 1;
    }
    assert(texts(copy@) =~= texts(strings@));
    copy
}

impl Content {
    /// An empty pane of the given kind, cursor and scroll offset at the top,
    /// nothing marked.
    pub fn new(is_selected: bool, c_type: ContentType) -> (pane: Content)
        ensures
            pane@ == (ContentView {
                kind: c_type,
                items: Seq::empty(),
                cursor: 0,
                scroll_offset: 0,
                focused: is_selected,
                selection: Seq::empty(),
            }),
    {
        let pane = Content {
            kind: c_type,
            items: Vec::new(),
            cursor: 0,
            scroll_offset: 0,
            focused: is_selected,
            selection: Vec::new(),
        };
        assert(item_names(pane.items@) =~= Seq::empty());
        assert(texts(pane.selection@) =~= Seq::empty());
        pane
    }

    /// Replaces the list by a fresh listing. Cursor, scroll offset and marks
    /// stay as they are.
    pub fn update(&mut self, items: Vec<ResourceItem>)
        ensures
            final(self)@ == (ContentView { items: item_names(items@), ..old(self)@ }),
    {
        self.items = items;
    }

    /// The kind that this pane lists after the next change of kind. The pane
    /// itself stays as it is.
    pub fn next(&mut self) -> (kind: ContentType)
        ensures
            kind == old(self).kind.successor(),
            *final(self) == *old(self),
    {
        match self.kind {
            ContentType::Pools => ContentType::Datasets,
            ContentType::Datasets => ContentType::Volumes,
            ContentType::Volumes => ContentType::Snapshots,
            ContentType::Snapshots => ContentType::Pools,
        }
    }

    /// Puts the cursor on the first entry.
    pub fn move_home(&mut self)
        ensures
            final(self)@ == old(self)@.with_cursor(
                moved_home(old(self)@.cursor, old(self)@.items.len()),
            ),
            final(self)@.cursor_in_range(),
    {
        if self.items.len() > 0 {
            self.cursor = 0;
        }
    }

    /// Puts the cursor on the last entry.
    pub fn move_end(&mut self)
        ensures
            final(self)@ == old(self)@.with_cursor(
                moved_end(old(self)@.cursor, old(self)@.items.len()),
            ),
            final(self)@.cursor_in_range(),
    {
        if self.items.len() > 0 {
            self.cursor = self.items.len() - 1;
        }
    }

    /// Moves the cursor up by one entry, unless it is on the first.
    pub fn move_up(&mut self)
        ensures
            final(self)@ == old(self)@.with_cursor(
                moved_up(old(self)@.cursor, old(self)@.items.len()),
            ),
            old(self)@.cursor_in_range() ==> final(self)@.cursor_in_range(),
    {
        if self.items.len() > 0 && self.cursor > 0 {
            self.cursor = self.cursor - 1;
        }
    }

    /// Moves the cursor down by one entry, unless that would put it on the
    /// last entry.
    pub fn move_down(&mut self)
        ensures
            final(self)@ == old(self)@.with_cursor(
                moved_down(old(self)@.cursor, old(self)@.items.len()),
            ),
            old(self)@.cursor_in_range() ==> final(self)@.cursor_in_range(),
    {
        let len = self.items.len();
        if len > 2 && self.cursor < len - 2 {
            self.cursor = self.cursor + 1;
        }
    }

    /// Moves the cursor up by ten entries, or to the first.
    pub fn page_up(&mut self)
        ensures
            final(self)@ == old(self)@.with_cursor(
                paged_up(old(self)@.cursor, old(self)@.items.len()),
            ),
            old(self)@.cursor_in_range() ==> final(self)@.cursor_in_range(),
    {
        if self.items.len() > 0 {
            if self.cursor > PAGE_STEP {
                self.cursor = self.cursor - PAGE_STEP;
            } else {
                self.cursor = 0;
            }
        }
    }

    /// Moves the cursor down by ten entries, or to the last but one where
    /// fewer than eleven follow it. A list of one entry keeps its cursor.
    pub fn page_down(&mut self)
        ensures
            final(self)@ == old(self)@.with_cursor(
                paged_down(old(self)@.cursor, old(self)@.items.len()),
            ),
            old(self)@.cursor_in_range() ==> final(self)@.cursor_in_range(),
    {
        let len = self.items.len();
        if len > PAGE_STEP + 1 && self.cursor < len - (PAGE_STEP + 1) {
            self.cursor = self.cursor + PAGE_STEP;
        } else if len >= 2 {
            self.cursor = len - 2;
        }
    }

    /// Moves the cursor as a navigation key says; any other key leaves it.
    pub fn navigate(&mut self, key: Key)
        ensures
            final(self)@ == old(self)@.with_cursor(
                moved(key, old(self)@.cursor, old(self)@.items.len()),
            ),
            old(self)@.cursor_in_range() ==> final(self)@.cursor_in_range(),
    {
        match key {
            Key::Home => self.move_home(),
            Key::End => self.move_end(),
            Key::Up => self.move_up(),
            Key::Down => self.move_down(),
            Key::PageUp => self.page_up(),
            Key::PageDown => self.page_down(),
            _ => {},
        }
    }

    /// Reconciles the scroll offset with the cursor for a window of `height`
    /// rows, so that the cursor's row is on it, then pulls a cursor that
    /// stands on the last entry of a list of more than two, or past it,
    /// back onto the last but one.
    pub fn scroll_window(&mut self, height: i32)
        ensures
            final(self)@ == scrolled(old(self)@, height as int),
    {
        let span: usize = if height > 4 {
            (height - 4) as usize
        } else {
            0
        };
        if self.cursor < self.scroll_offset {
            self.scroll_offset = self.cursor;
        } else if self.cursor - self.scroll_offset > span {
            self.scroll_offset = self.cursor - span;
        }
        let len = self.items.len();
        if len > 2 && self.cursor > len - 2 {
            self.cursor = len - 2;
        }
    }

    /// The names that an action applies to: the marked ones if any are
    /// marked, else the one under the cursor. It is empty where nothing is
    /// marked and the cursor points at no entry.
    pub fn selected_elements(&self) -> (names: Vec<String>)
        ensures
            texts(names@) == self@.active_selection(),
            self@.selection.len() > 0 ==> texts(names@) == self@.selection,
            self@.selection.len() == 0 && self@.cursor < self@.items.len() ==> texts(names@)
                == seq![self@.items[self@.cursor as int]],
    {
        if self.selection.len() > 0 {
            copy_strings(&self.selection)
        } else if self.cursor < self.items.len() {
            let mut names: Vec<String> = Vec::new();
            names.push(self.items[self.cursor].name.clone());
            assert(texts(names@) =~= seq![self.items[self.cursor as int].name@]);
            names
        } else {
            let names: Vec<String> = Vec::new();
            assert(texts(names@) =~= Seq::empty());
            names
        }
    }

    /// The lines that a window of `height` rows and `width` columns shows of
    /// this pane: one for each entry from the scroll offset on, as far as
    /// the window has room above its bottom rows.
    pub fn write_content(&self, height: i32, width: i32) -> (rows: Vec<Row>)
        ensures
            row_views(rows@) == visible_rows(self@, height as int, width as int),
    {
        let len = self.items.len();
        let room: usize = if height > 3 {
            (height - 3) as usize
        } else {
            0
        };
        let count: usize = if self.scroll_offset >= len {
            0
        } else if len - self.scroll_offset < room {
            len - self.scroll_offset
        } else {
            room
        };
        let inner: usize = if width > 2 {
            (width - 2) as usize
        } else {
            0
        };
        let mut rows: Vec<Row> = Vec::new();
        let mut j: usize = 0;
        while j < count
            invariant
                j <= count,
                count == visible_count(self@.items.len(), self@.scroll_offset, height as int),
                len == self.items.len(),
                count > 0 ==> self.scroll_offset + count <= len,
                count <= i32::MAX - 3,
                inner == inner_width(width as int),
                rows.len() == j,
                forall|k: int| 0 <= k < j ==> rows[k]@ == row_at(self@, k, width as int),
            decreases count - j,
        {
            let i = self.scroll_offset + j;
            let text = fit_to_width(self.items[i].name.as_str(), inner);
            let row = Row { y: j as i32 + TOP_CONTENT_Y, text, highlighted: self.focused && i == self.cursor };
            rows.push(row);
            j = j + 1;
        }
        assert(row_views(rows@) =~= visible_rows(self@, height as int, width as int));
        rows
    }
}

/// Where `times` steps down put the cursor.
pub open spec fn moved_down_times(cursor: nat, len: nat, times: nat) -> nat
    decreases times,
{
    if times == 0 {
        cursor
    } else {
        moved_down(moved_down_times(cursor, len, (times - 1) as nat), len)
    }
}

/// In a list that is not empty, home and end always leave the cursor on an
/// entry, and so does every movement of a cursor that was on one. A cursor
/// past the end, as a refresh can leave it, comes back onto an entry by
/// one step up only from just past the end, by page up only from less than
/// ten past it, never by one step down, and by page down only where the
/// list has two entries or more.
pub proof fn lemma_navigation_keeps_cursor_in_range(key: Key, cursor: nat, len: nat)
    requires
        len > 0,
    ensures
        cursor < len ==> moved(key, cursor, len) < len,
        moved_home(cursor, len) < len,
        moved_end(cursor, len) < len,
        moved_up(cursor, len) < len <==> cursor <= len,
        moved_down(cursor, len) < len <==> cursor < len,
        paged_up(cursor, len) < len <==> cursor < len + 10,
        paged_down(cursor, len) < len <==> (len >= 2 || cursor == 0),
{
}

/// Stepping down from the first entry never reaches the last one: after
/// `times` steps the cursor is on entry `times`, or on the last but one
/// once it has got that far, and there it stays. In a list of fewer than
/// three entries it never leaves the first.
pub proof fn lemma_move_down_stops_short(len: nat, times: nat)
    ensures
        len >= 2 && times <= len - 2 ==> moved_down_times(0, len, times) == times,
        len >= 2 && times > len - 2 ==> moved_down_times(0, len, times) == len - 2,
        len < 3 ==> moved_down_times(0, len, times) == 0,
        len > 0 ==> moved_down_times(0, len, times) < len,
        moved_down(moved_down_times(0, len, times), len) == moved_down_times(0, len, times)
            <==> len < 2 || times >= len - 2,
    decreases times,
{
    if times > 0 {
        lemma_move_down_stops_short(len, (times - 1) as nat);
    }
}

/// Home and then end leave the cursor on the last entry, wherever it was.
pub proof fn lemma_home_then_end(cursor: nat, len: nat)
    requires
        len > 0,
    ensures
        moved_end(moved_home(cursor, len), len) == len - 1,
{
}

/// Scrolling brings the cursor it was given onto the window: the new
/// scroll offset is at most the cursor, and the cursor at most the span of
/// the window below the offset. The span is the window's height less the
/// bottom rows and one, for every window that has a row for entries. The
/// cursor that scrolling leaves is still within the span; it is below the
/// offset only where it was pulled back from the end of the list to before
/// the offset.
pub proof fn lemma_scroll_brackets_cursor(pane: ContentView, height: int)
    ensures
        scrolled(pane, height).scroll_offset <= pane.cursor,
        pane.cursor <= scrolled(pane, height).scroll_offset + viewport_span(height),
        scrolled(pane, height).cursor <= scrolled(pane, height).scroll_offset + viewport_span(
            height,
        ),
        scrolled(pane, height).scroll_offset <= scrolled(pane, height).cursor <==> (scrolled(
            pane,
            height,
        ).cursor == pane.cursor || scrolled(pane, height).scroll_offset + 2
            <= pane.items.len()),
        height >= 4 ==> viewport_span(height) == height - BOTTOM_BORDER_SIZE - 1,
{
}

/// What a window shows of a pane fits the window: no more lines than it
/// has rows above its bottom rows, each on a row of its own from the first
/// content row down, each as wide as the window is between its borders,
/// each showing an entry of the list. Only the cursor's line is
/// highlighted, and only in the focused pane.
pub proof fn lemma_visible_rows_fit_window(pane: ContentView, height: int, width: int)
    ensures
        visible_rows(pane, height, width).len() <= pane.items.len(),
        height > 3 ==> visible_rows(pane, height, width).len() <= height - BOTTOM_BORDER_SIZE,
        height <= 3 ==> visible_rows(pane, height, width).len() == 0,
        forall|j: int|
            0 <= j < visible_rows(pane, height, width).len() ==> {
                let row = #[trigger] visible_rows(pane, height, width)[j];
                &&& row.y == j + TOP_CONTENT_Y
                &&& row.y <= height - BOTTOM_BORDER_SIZE
                &&& pane.scroll_offset + j < pane.items.len()
                &&& row.text.len() == inner_width(width)
                &&& (row.highlighted <==> pane.focused && pane.scroll_offset + j == pane.cursor)
            },
{
    assert forall|j: int| 0 <= j < visible_rows(pane, height, width).len() implies {
        let row = #[trigger] visible_rows(pane, height, width)[j];
        row.text.len() == inner_width(width)
    } by {
        lemma_fit_has_width(pane.items[pane.scroll_offset + j], inner_width(width));
    }
}

} // verus!
