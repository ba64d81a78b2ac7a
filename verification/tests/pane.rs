use zfs_tui::content::{fit_to_window, BOTTOM_BORDER_SIZE};
use zfs_tui::{Content, ContentType, Key, ResourceItem};

fn listing(names: &[&str]) -> Vec<ResourceItem> {
    names.iter().map(|n| ResourceItem { name: n.to_string() }).collect()
}

fn numbered(count: usize) -> Vec<ResourceItem> {
    (0..count).map(|i| ResourceItem { name: format!("tank/fs{}", i) }).collect()
}

fn pane_of(count: usize, cursor: usize) -> Content {
    let mut pane = Content::new(true, ContentType::Datasets);
    pane.update(numbered(count));
    pane.cursor = cursor;
    pane
}

#[test]
fn new_pane_is_empty_and_at_the_top() {
    let pane = Content::new(false, ContentType::Volumes);
    assert_eq!(pane.kind, ContentType::Volumes);
    assert!(pane.items.is_empty());
    assert_eq!(pane.cursor, 0);
    assert_eq!(pane.scroll_offset, 0);
    assert!(!pane.focused);
    assert!(pane.selection.is_empty());
}

#[test]
fn titles_of_the_four_kinds() {
    assert_eq!(ContentType::Pools.text(), " Pools: ");
    assert_eq!(ContentType::Datasets.text(), " Datasets: ");
    assert_eq!(ContentType::Volumes.text(), " Volumes: ");
    assert_eq!(ContentType::Snapshots.text(), " Snapshots: ");
}

#[test]
fn next_cycles_through_the_kinds() {
    let mut pane = Content::new(true, ContentType::Pools);
    let mut seen = vec![];
    for _ in 0..4 {
        let kind = pane.next();
        seen.push(kind);
        pane = Content::new(true, kind);
    }
    assert_eq!(
        seen,
        vec![
            ContentType::Datasets,
            ContentType::Volumes,
            ContentType::Snapshots,
            ContentType::Pools
        ]
    );
}

#[test]
fn next_leaves_the_pane_alone() {
    let mut pane = pane_of(5, 3);
    let before = pane.clone();
    assert_eq!(pane.next(), ContentType::Volumes);
    assert_eq!(pane, before);
}

#[test]
fn update_replaces_items_and_keeps_the_cursor() {
    let mut pane = pane_of(20, 12);
    pane.scroll_offset = 7;
    pane.update(listing(&["a", "b", "c"]));
    assert_eq!(pane.items, listing(&["a", "b", "c"]));
    assert_eq!(pane.cursor, 12);
    assert_eq!(pane.scroll_offset, 7);
    assert!(pane.focused);
}

#[test]
fn navigation_on_an_empty_list_changes_nothing() {
    for key in [Key::Home, Key::End, Key::Up, Key::Down, Key::PageUp, Key::PageDown] {
        let mut pane = Content::new(true, ContentType::Pools);
        pane.navigate(key);
        assert_eq!(pane, Content::new(true, ContentType::Pools));
        let mut stale = Content::new(true, ContentType::Pools);
        stale.cursor = 4;
        pane = stale.clone();
        pane.navigate(key);
        assert_eq!(pane, stale);
    }
}

#[test]
fn cursor_stays_in_range_after_every_movement() {
    for len in 1..16usize {
        for cursor in 0..len {
            for key in [Key::Home, Key::End, Key::Up, Key::Down, Key::PageUp, Key::PageDown] {
                let mut pane = pane_of(len, cursor);
                pane.navigate(key);
                assert!(pane.cursor < len, "{:?} from {} of {}", key, cursor, len);
            }
        }
    }
}

#[test]
fn move_up_from_past_the_end_can_stay_out_of_range() {
    let mut pane = pane_of(1, 5);
    pane.move_up();
    assert_eq!(pane.cursor, 4);
}

#[test]
fn move_home_and_move_end() {
    let mut pane = pane_of(9, 4);
    pane.move_home();
    assert_eq!(pane.cursor, 0);
    pane.move_end();
    assert_eq!(pane.cursor, 8);
}

#[test]
fn home_then_end_from_any_start() {
    for len in 1..12usize {
        for cursor in 0..len + 3 {
            let mut pane = pane_of(len, cursor);
            pane.move_home();
            pane.move_end();
            assert_eq!(pane.cursor, len - 1);
        }
    }
}

#[test]
fn move_up_stops_at_the_first_entry() {
    let mut pane = pane_of(4, 1);
    pane.move_up();
    assert_eq!(pane.cursor, 0);
    pane.move_up();
    assert_eq!(pane.cursor, 0);
}

#[test]
fn move_down_steps_while_two_more_follow() {
    let mut pane = pane_of(5, 0);
    pane.move_down();
    assert_eq!(pane.cursor, 1);
    pane.move_down();
    pane.move_down();
    assert_eq!(pane.cursor, 3);
    pane.move_down();
    assert_eq!(pane.cursor, 3);
}

#[test]
fn move_down_repeated_never_reaches_the_last_entry() {
    for len in 0..14usize {
        let mut pane = pane_of(len, 0);
        for step in 1..=20usize {
            pane.move_down();
            let expected = if len >= 2 { step.min(len - 2) } else { 0 };
            assert_eq!(pane.cursor, expected);
        }
    }
}

#[test]
fn move_down_on_short_lists_stays_at_the_top() {
    for len in 0..3usize {
        let mut pane = pane_of(len, 0);
        for _ in 0..5 {
            pane.move_down();
        }
        assert_eq!(pane.cursor, 0);
    }
}

#[test]
fn page_up_moves_ten_or_to_the_top() {
    let mut pane = pane_of(40, 25);
    pane.page_up();
    assert_eq!(pane.cursor, 15);
    pane.page_up();
    assert_eq!(pane.cursor, 5);
    pane.page_up();
    assert_eq!(pane.cursor, 0);
    let mut pane = pane_of(40, 10);
    pane.page_up();
    assert_eq!(pane.cursor, 0);
    let mut pane = pane_of(40, 11);
    pane.page_up();
    assert_eq!(pane.cursor, 1);
}

#[test]
fn page_down_moves_ten_or_to_the_last_but_one() {
    let mut pane = pane_of(40, 0);
    pane.page_down();
    assert_eq!(pane.cursor, 10);
    let mut pane = pane_of(40, 28);
    pane.page_down();
    assert_eq!(pane.cursor, 38);
    let mut pane = pane_of(40, 29);
    pane.page_down();
    assert_eq!(pane.cursor, 38);
    let mut pane = pane_of(12, 0);
    pane.page_down();
    assert_eq!(pane.cursor, 10);
    let mut pane = pane_of(11, 0);
    pane.page_down();
    assert_eq!(pane.cursor, 9);
    let mut pane = pane_of(2, 1);
    pane.page_down();
    assert_eq!(pane.cursor, 0);
}

#[test]
fn page_down_on_a_single_entry_keeps_the_cursor() {
    let mut pane = pane_of(1, 0);
    pane.page_down();
    assert_eq!(pane.cursor, 0);
}

#[test]
fn navigate_ignores_other_keys() {
    let mut pane = pane_of(9, 4);
    for key in [Key::Tab, Key::Left, Key::Enter, Key::Char(b'j'), Key::Function(5), Key::Other] {
        pane.navigate(key);
        assert_eq!(pane.cursor, 4);
    }
}

#[test]
fn scroll_follows_the_cursor_upwards() {
    let mut pane = pane_of(30, 4);
    pane.scroll_offset = 9;
    pane.scroll_window(24);
    assert_eq!(pane.scroll_offset, 4);
    assert_eq!(pane.cursor, 4);
}

#[test]
fn scroll_follows_the_cursor_downwards() {
    let mut pane = pane_of(50, 30);
    pane.scroll_window(24);
    assert_eq!(pane.scroll_offset, 30 - (24 - BOTTOM_BORDER_SIZE - 1));
    assert_eq!(pane.scroll_offset, 10);
    assert_eq!(pane.cursor, 30);
}

#[test]
fn scroll_leaves_a_visible_cursor_alone() {
    let mut pane = pane_of(50, 25);
    pane.scroll_offset = 5;
    pane.scroll_window(24);
    assert_eq!(pane.scroll_offset, 5);
    let mut pane = pane_of(50, 26);
    pane.scroll_offset = 5;
    pane.scroll_window(24);
    assert_eq!(pane.scroll_offset, 6);
}

#[test]
fn scroll_pulls_the_cursor_off_the_last_entry() {
    let mut pane = pane_of(10, 9);
    pane.scroll_window(24);
    assert_eq!(pane.cursor, 8);
    assert_eq!(pane.scroll_offset, 0);
    let mut pane = pane_of(3, 40);
    pane.scroll_window(24);
    assert_eq!(pane.cursor, 1);
    let mut pane = pane_of(2, 1);
    pane.scroll_window(24);
    assert_eq!(pane.cursor, 1);
}

#[test]
fn scroll_brackets_the_cursor_it_was_given() {
    for height in [-3i32, 0, 3, 4, 5, 8, 24] {
        let span = if height > 4 { (height - 4) as usize } else { 0 };
        for len in 0..12usize {
            for cursor in 0..14usize {
                for offset in 0..14usize {
                    let mut pane = pane_of(len, cursor);
                    pane.scroll_offset = offset;
                    pane.scroll_window(height);
                    assert!(pane.scroll_offset <= cursor);
                    assert!(cursor <= pane.scroll_offset + span);
                    assert!(pane.cursor <= pane.scroll_offset + span);
                }
            }
        }
    }
}

#[test]
fn scroll_in_a_window_without_room_puts_the_offset_on_the_cursor() {
    let mut pane = pane_of(3, 2);
    pane.scroll_window(4);
    assert_eq!(pane.scroll_offset, 2);
    assert_eq!(pane.cursor, 1);
    let mut pane = pane_of(9, 5);
    pane.scroll_window(-1);
    assert_eq!(pane.scroll_offset, 5);
}

#[test]
fn selection_falls_back_to_the_cursor_item() {
    let pane = pane_of(6, 2);
    assert_eq!(pane.selected_elements(), vec!["tank/fs2".to_string()]);
}

#[test]
fn selection_is_returned_verbatim() {
    let mut pane = pane_of(6, 2);
    pane.selection = vec!["tank/fs5".to_string(), "tank/fs1".to_string(), "tank/fs5".to_string()];
    assert_eq!(
        pane.selected_elements(),
        vec!["tank/fs5".to_string(), "tank/fs1".to_string(), "tank/fs5".to_string()]
    );
}

#[test]
fn selection_is_empty_where_the_cursor_points_at_nothing() {
    let pane = Content::new(true, ContentType::Datasets);
    assert!(pane.selected_elements().is_empty());
    let pane = pane_of(2, 2);
    assert!(pane.selected_elements().is_empty());
}

#[test]
fn fit_to_window_pads_and_cuts() {
    assert_eq!(fit_to_window("tank", 10), "tank    ");
    assert_eq!(fit_to_window("tank/home/alice", 10), "tank/hom");
    assert_eq!(fit_to_window("12345678", 10), "12345678");
    assert_eq!(fit_to_window("tank", 2), "");
    assert_eq!(fit_to_window("tank", 0), "");
    assert_eq!(fit_to_window("", 5), "   ");
}

#[test]
fn write_content_lists_the_visible_entries() {
    let mut pane = pane_of(10, 3);
    pane.scroll_offset = 2;
    let rows = pane.write_content(7, 12);
    assert_eq!(rows.len(), 4);
    for (j, row) in rows.iter().enumerate() {
        assert_eq!(row.y, j as i32 + 1);
        assert_eq!(row.text, format!("tank/fs{}  ", j + 2));
        assert_eq!(row.highlighted, j == 1);
    }
}

#[test]
fn write_content_highlights_only_in_the_focused_pane() {
    let mut pane = pane_of(4, 1);
    pane.focused = false;
    let rows = pane.write_content(24, 20);
    assert_eq!(rows.len(), 4);
    assert!(rows.iter().all(|row| !row.highlighted));
}

#[test]
fn write_content_stops_at_the_end_of_the_list() {
    let mut pane = pane_of(5, 4);
    pane.scroll_offset = 3;
    let rows = pane.write_content(24, 9);
    assert_eq!(rows.len(), 2);
    assert_eq!(rows[0].text, "tank/fs");
    assert_eq!(rows[1].y, 2);
    assert!(rows[1].highlighted);
}

#[test]
fn write_content_shows_nothing_without_room() {
    let pane = pane_of(5, 0);
    assert!(pane.write_content(3, 20).is_empty());
    assert!(pane.write_content(-4, 20).is_empty());
    let mut pane = pane_of(5, 0);
    pane.scroll_offset = 5;
    assert!(pane.write_content(24, 20).is_empty());
    let rows = pane_of(5, 0).write_content(4, 1);
    assert_eq!(rows.len(), 1);
    assert_eq!(rows[0].text, "");
}
