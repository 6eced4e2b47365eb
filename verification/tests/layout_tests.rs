use cocoa_way::geometry::{Point, Size};
use cocoa_way::layout::{Layout, Tile};
use cocoa_way::toplevel::Toplevel;

fn three_tiles() -> Layout {
    let mut layout = Layout::new(1000, 500);
    layout.add_tile(Toplevel::new(1));
    layout.add_tile(Toplevel::new(2));
    layout.add_tile(Toplevel::new(3));
    layout
}

#[test]
fn new_layout_is_empty_with_default_spacing() {
    let layout = Layout::new(800, 600);
    assert!(layout.tiles.is_empty());
    assert_eq!(layout.focused_idx, None);
    assert_eq!(layout.view_size, Size { w: 800, h: 600 });
    assert_eq!(layout.gap, 10);
    assert_eq!(layout.padding, 10);
    assert!(layout.focused_tile().is_none());
}

#[test]
fn tile_new_is_unfocused_with_border_two() {
    let tile = Tile::new(Toplevel::new(7), Point::new(3, 4), Size::new(50, 60));
    assert_eq!(tile.surface_id(), 7);
    assert_eq!(tile.bounds(), (Point { x: 3, y: 4 }, Size { w: 50, h: 60 }));
    assert!(!tile.is_focused);
    assert_eq!(tile.border_width, 2);
}

#[test]
fn three_tiles_share_the_view() {
    let layout = three_tiles();
    assert_eq!(layout.tiles.len(), 3);
    let xs: Vec<i32> = layout.tiles.iter().map(|t| t.position.x).collect();
    assert_eq!(xs, vec![10, 340, 670]);
    for tile in layout.tiles.iter() {
        assert_eq!(tile.size, Size { w: 320, h: 480 });
        assert_eq!(tile.position.y, 10);
    }
}

#[test]
fn widths_gaps_and_padding_fit_the_view() {
    for n in 1..=8usize {
        let mut layout = Layout::new(1000, 500);
        for id in 0..n {
            layout.add_tile(Toplevel::new(id as u64));
        }
        let sum: i32 = layout.tiles.iter().map(|t| t.size.w).sum();
        let total = sum + (n as i32 - 1) * layout.gap + 2 * layout.padding;
        assert!(total <= 1000, "n = {}", n);
        assert!(total > 1000 - n as i32, "n = {}", n);
        for tile in layout.tiles.iter() {
            assert!(tile.size.w >= 100);
        }
    }
}

#[test]
fn tiles_are_disjoint_and_ordered() {
    let layout = three_tiles();
    for pair in layout.tiles.windows(2) {
        assert_eq!(pair[0].position.x + pair[0].size.w + layout.gap, pair[1].position.x);
    }
    let last = &layout.tiles[2];
    assert!(last.position.x + last.size.w + layout.padding <= 1000);
}

#[test]
fn narrow_view_floors_width_at_one_hundred() {
    let mut layout = Layout::new(50, 500);
    layout.add_tile(Toplevel::new(1));
    assert_eq!(layout.tiles[0].size, Size { w: 100, h: 480 });
    layout.add_tile(Toplevel::new(2));
    assert_eq!(layout.tiles[0].size.w, 100);
    assert_eq!(layout.tiles[1].size.w, 100);
    assert_eq!(layout.tiles[1].position.x, 120);
}

#[test]
fn single_tile_gets_the_full_view_less_padding() {
    let mut layout = Layout::new(640, 480);
    layout.add_tile(Toplevel::new(9));
    assert_eq!(layout.tiles[0].position, Point { x: 10, y: 10 });
    assert_eq!(layout.tiles[0].size, Size { w: 620, h: 460 });
}

#[test]
fn calculate_tile_size_values() {
    let layout = Layout::new(1000, 500);
    assert_eq!(layout.calculate_tile_size(0), Size { w: 1000, h: 500 });
    assert_eq!(layout.calculate_tile_size(1), Size { w: 980, h: 480 });
    assert_eq!(layout.calculate_tile_size(2), Size { w: 485, h: 480 });
    assert_eq!(layout.calculate_tile_size(3), Size { w: 320, h: 480 });
    assert_eq!(layout.calculate_tile_size(20), Size { w: 100, h: 480 });
    assert_eq!(layout.calculate_tile_size(usize::MAX), Size { w: 100, h: 480 });
    assert_eq!(layout.calculate_new_tile_position(), Point { x: 10, y: 10 });
}

#[test]
fn extreme_view_sizes_do_not_overflow() {
    let mut layout = Layout::new(i32::MAX, i32::MIN);
    layout.add_tile(Toplevel::new(1));
    assert_eq!(layout.tiles[0].size, Size { w: i32::MAX - 20, h: i32::MIN });
    let mut small = Layout::new(i32::MIN, i32::MAX);
    small.add_tile(Toplevel::new(1));
    assert_eq!(small.tiles[0].size, Size { w: 100, h: i32::MAX - 20 });
}

#[test]
fn resize_with_no_tiles_changes_only_the_view() {
    let mut layout = Layout::new(800, 600);
    layout.set_view_size(1024, 768);
    assert!(layout.tiles.is_empty());
    assert_eq!(layout.focused_idx, None);
    assert_eq!(layout.view_size, Size { w: 1024, h: 768 });
}

#[test]
fn resize_rearranges_every_tile() {
    let mut layout = three_tiles();
    layout.set_view_size(700, 300);
    let xs: Vec<i32> = layout.tiles.iter().map(|t| t.position.x).collect();
    assert_eq!(xs, vec![10, 240, 470]);
    for tile in layout.tiles.iter() {
        assert_eq!(tile.size, Size { w: 220, h: 280 });
        assert_eq!(tile.toplevel.size, Some(Size { w: 220, h: 280 }));
        assert!(tile.toplevel.configure_due);
    }
}

#[test]
fn add_tile_focuses_the_new_tile() {
    let layout = three_tiles();
    assert_eq!(layout.focused_idx, Some(2));
    let flags: Vec<bool> = layout.tiles.iter().map(|t| t.is_focused).collect();
    assert_eq!(flags, vec![false, false, true]);
    assert_eq!(layout.focused_tile().map(|t| t.surface_id()), Some(3));
}

#[test]
fn relayout_asks_every_window_for_its_size() {
    let mut layout = three_tiles();
    for tile in layout.tiles.iter_mut() {
        assert!(tile.toplevel.take_configure());
        assert!(!tile.toplevel.configure_due);
    }
    layout.relayout();
    for tile in layout.tiles.iter() {
        assert_eq!(tile.toplevel.size, Some(tile.size));
        assert!(tile.toplevel.configure_due);
    }
}

#[test]
fn add_then_remove_restores_count_and_focus() {
    let mut layout = three_tiles();
    let count = layout.tiles.len();
    let focus = layout.focused_idx;
    layout.add_tile(Toplevel::new(99));
    assert_eq!(layout.tiles.len(), count + 1);
    layout.remove_tile(99);
    assert_eq!(layout.tiles.len(), count);
    assert_eq!(layout.focused_idx, focus);
    let ids: Vec<u64> = layout.tiles.iter().map(|t| t.surface_id()).collect();
    assert_eq!(ids, vec![1, 2, 3]);
}

#[test]
fn add_then_remove_on_empty_layout_clears_focus() {
    let mut layout = Layout::new(1000, 500);
    layout.add_tile(Toplevel::new(5));
    layout.remove_tile(5);
    assert!(layout.tiles.is_empty());
    assert_eq!(layout.focused_idx, None);
}

#[test]
fn add_then_remove_moves_an_earlier_focus_to_the_last_tile() {
    let mut layout = three_tiles();
    layout.focus_next();
    assert_eq!(layout.focused_idx, Some(0));
    layout.add_tile(Toplevel::new(99));
    layout.remove_tile(99);
    assert_eq!(layout.tiles.len(), 3);
    assert_eq!(layout.focused_idx, Some(2));
}

#[test]
fn removing_focused_middle_tile_keeps_index_one() {
    let mut layout = three_tiles();
    layout.focus_prev();
    assert_eq!(layout.focused_idx, Some(1));
    layout.remove_tile(2);
    assert_eq!(layout.tiles.len(), 2);
    assert_eq!(layout.focused_idx, Some(1));
    assert_eq!(layout.focused_tile().map(|t| t.surface_id()), Some(3));
    let xs: Vec<i32> = layout.tiles.iter().map(|t| t.position.x).collect();
    assert_eq!(xs, vec![10, 505]);
    assert_eq!(layout.tiles[0].size, Size { w: 485, h: 480 });
    assert!(layout.tiles[1].is_focused);
}

#[test]
fn removing_last_focused_tile_clamps_focus() {
    let mut layout = three_tiles();
    layout.remove_tile(3);
    assert_eq!(layout.focused_idx, Some(1));
    layout.remove_tile(2);
    assert_eq!(layout.focused_idx, Some(0));
    layout.remove_tile(1);
    assert_eq!(layout.focused_idx, None);
    assert!(layout.tiles.is_empty());
}

#[test]
fn removing_unknown_surface_changes_nothing() {
    let mut layout = three_tiles();
    for tile in layout.tiles.iter_mut() {
        tile.toplevel.take_configure();
    }
    layout.remove_tile(42);
    assert_eq!(layout.tiles.len(), 3);
    assert_eq!(layout.focused_idx, Some(2));
    assert!(layout.tiles.iter().all(|t| !t.toplevel.configure_due));
}

#[test]
fn remove_takes_only_the_first_tile_of_a_surface() {
    let mut layout = Layout::new(1000, 500);
    layout.add_tile(Toplevel::new(1));
    layout.add_tile(Toplevel::new(2));
    layout.add_tile(Toplevel::new(1));
    layout.remove_tile(1);
    let ids: Vec<u64> = layout.tiles.iter().map(|t| t.surface_id()).collect();
    assert_eq!(ids, vec![2, 1]);
}

#[test]
fn focus_next_cycles_back_after_n_steps() {
    for start in 0..3usize {
        let mut layout = three_tiles();
        layout.focused_idx = Some(start);
        for _ in 0..3 {
            layout.focus_next();
        }
        assert_eq!(layout.focused_idx, Some(start));
    }
}

#[test]
fn focus_next_and_prev_wrap() {
    let mut layout = three_tiles();
    layout.focus_next();
    assert_eq!(layout.focused_idx, Some(0));
    layout.focus_next();
    assert_eq!(layout.focused_idx, Some(1));
    layout.focus_prev();
    layout.focus_prev();
    assert_eq!(layout.focused_idx, Some(2));
    layout.focus_prev();
    assert_eq!(layout.focused_idx, Some(1));
}

#[test]
fn focus_from_none_selects_first_or_last() {
    let mut layout = three_tiles();
    layout.focused_idx = None;
    layout.focus_next();
    assert_eq!(layout.focused_idx, Some(0));
    layout.focused_idx = None;
    layout.focus_prev();
    assert_eq!(layout.focused_idx, Some(2));
}

#[test]
fn focus_moves_do_nothing_on_empty_layout() {
    let mut layout = Layout::new(1000, 500);
    layout.focus_next();
    assert_eq!(layout.focused_idx, None);
    layout.focus_prev();
    assert_eq!(layout.focused_idx, None);
}

#[test]
fn contains_point_is_half_open() {
    let tile = Tile::new(Toplevel::new(1), Point::new(10, 10), Size::new(320, 480));
    assert!(tile.contains_point(Point::new(10, 10)));
    assert!(tile.contains_point(Point::new(329, 489)));
    assert!(!tile.contains_point(Point::new(330, 100)));
    assert!(!tile.contains_point(Point::new(100, 490)));
    assert!(!tile.contains_point(Point::new(9, 100)));
    assert!(!tile.contains_point(Point::new(100, 9)));
}

#[test]
fn contains_point_near_the_largest_coordinate() {
    let tile = Tile::new(Toplevel::new(1), Point::new(i32::MAX - 5, 0), Size::new(100, 100));
    assert!(tile.contains_point(Point::new(i32::MAX, 50)));
    assert!(!tile.contains_point(Point::new(i32::MAX - 6, 50)));
}

#[test]
fn focus_at_focuses_the_tile_under_the_point() {
    let mut layout = three_tiles();
    let hit = layout.focus_at(Point::new(400, 200)).map(|t| t.surface_id());
    assert_eq!(hit, Some(2));
    assert_eq!(layout.focused_idx, Some(1));
    let miss = layout.focus_at(Point::new(335, 200)).map(|t| t.surface_id());
    assert_eq!(miss, None);
    assert_eq!(layout.focused_idx, Some(1));
}

#[test]
fn focus_at_twice_gives_the_same_tile() {
    let mut layout = three_tiles();
    let first = layout.focus_at(Point::new(700, 50)).map(|t| *t);
    let focus = layout.focused_idx;
    let second = layout.focus_at(Point::new(700, 50)).map(|t| *t);
    assert_eq!(first, second);
    assert_eq!(first.map(|t| t.surface_id()), Some(3));
    assert_eq!(layout.focused_idx, focus);
}

#[test]
fn tile_for_surface_finds_the_tile() {
    let layout = three_tiles();
    assert_eq!(layout.tile_for_surface(2).map(|t| t.position.x), Some(340));
    assert!(layout.tile_for_surface(4).is_none());
    assert_eq!(layout.position_of(3), Some(2));
    assert_eq!(layout.position_of(4), None);
}

#[test]
fn request_size_asks_for_the_tile_size() {
    let mut tile = Tile::new(Toplevel::new(1), Point::new(0, 0), Size::new(300, 200));
    assert_eq!(tile.toplevel.size, None);
    tile.request_size();
    assert_eq!(tile.toplevel.size, Some(Size { w: 300, h: 200 }));
    assert!(tile.toplevel.configure_due);
    assert_eq!(tile.size, Size { w: 300, h: 200 });
}

#[test]
fn activate_leaves_one_window_activated() {
    let mut layout = three_tiles();
    layout.activate(1);
    layout.activate(3);
    let flags: Vec<bool> = layout.tiles.iter().map(|t| t.toplevel.activated).collect();
    assert_eq!(flags, vec![false, false, true]);
    layout.activate(2);
    let flags: Vec<bool> = layout.tiles.iter().map(|t| t.toplevel.activated).collect();
    assert_eq!(flags, vec![false, true, false]);
}

#[test]
fn request_size_all_reaches_every_window() {
    let mut layout = three_tiles();
    layout.request_size_all(Size::new(111, 222));
    for tile in layout.tiles.iter() {
        assert_eq!(tile.toplevel.size, Some(Size { w: 111, h: 222 }));
        assert_eq!(tile.size, Size { w: 320, h: 480 });
    }
}

#[test]
fn default_layout_has_no_view_and_no_spacing() {
    let layout = Layout::default();
    assert!(layout.tiles.is_empty());
    assert_eq!(layout.focused_idx, None);
    assert_eq!(layout.view_size, Size { w: 0, h: 0 });
    assert_eq!((layout.gap, layout.padding), (0, 0));
    assert!(layout.is_well_formed());
}

#[test]
fn well_formedness_is_decided() {
    let mut layout = three_tiles();
    assert!(layout.is_well_formed());
    layout.focused_idx = Some(3);
    assert!(!layout.is_well_formed());
    layout.focused_idx = None;
    assert!(layout.is_well_formed());
    layout.gap = -1;
    assert!(!layout.is_well_formed());
    layout.gap = 0;
    layout.padding = -1;
    assert!(!layout.is_well_formed());
}

#[test]
fn front_and_back_hit_tests_agree_on_an_arranged_row() {
    let mut layout = three_tiles();
    for x in (0..1000).step_by(7) {
        let p = Point::new(x, 100);
        let back = cocoa_way::input::hit_test(&layout, p);
        let focus = layout.focused_idx;
        let front = layout.focus_at(p).map(|t| t.surface_id());
        assert_eq!(front, back.map(|i| i as u64 + 1));
        layout.focused_idx = focus;
    }
}
