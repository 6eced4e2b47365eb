use cocoa_way::geometry::{Point, Size};
use cocoa_way::input::{
    button_code, hit_test, plan_key, plan_scroll, Axis, AxisSource, ButtonEvent, DragState,
    InputRouter, KeyAction, MouseButton, PointerFocus, ScrollPlan,
};
use cocoa_way::layout::{Layout, Tile};
use cocoa_way::toplevel::Toplevel;

fn one_tile() -> Layout {
    let mut layout = Layout::new(340, 500);
    layout.add_tile(Toplevel::new(1));
    layout
}

#[test]
fn hit_test_finds_the_tile_under_the_pointer() {
    let layout = one_tile();
    assert_eq!(layout.tiles[0].bounds(), (Point { x: 10, y: 10 }, Size { w: 320, h: 480 }));
    assert_eq!(hit_test(&layout, Point::new(50, 50)), Some(0));
    assert_eq!(hit_test(&layout, Point::new(5, 5)), None);
    assert_eq!(hit_test(&layout, Point::new(330, 490)), None);
}

#[test]
fn hit_test_twice_gives_the_same_answer() {
    let layout = one_tile();
    let p = Point::new(50, 50);
    assert_eq!(hit_test(&layout, p), hit_test(&layout, p));
    let q = Point::new(5, 5);
    assert_eq!(hit_test(&layout, q), hit_test(&layout, q));
}

#[test]
fn hit_test_prefers_the_tile_added_last() {
    let mut layout = Layout::new(1000, 500);
    layout.tiles.push(Tile::new(Toplevel::new(1), Point::new(0, 0), Size::new(200, 200)));
    layout.tiles.push(Tile::new(Toplevel::new(2), Point::new(100, 100), Size::new(200, 200)));
    assert_eq!(hit_test(&layout, Point::new(150, 150)), Some(1));
    assert_eq!(hit_test(&layout, Point::new(50, 50)), Some(0));
    assert_eq!(hit_test(&layout, Point::new(250, 250)), Some(1));
    assert_eq!(hit_test(&layout, Point::new(350, 350)), None);
    assert_eq!(layout.focus_at(Point::new(150, 150)).map(|t| t.surface_id()), Some(1));
}

#[test]
fn motion_reports_the_surface_and_its_location() {
    let layout = one_tile();
    let mut router = InputRouter::new();
    let motion = router.pointer_motion(&layout, Point::new(50, 50));
    assert_eq!(motion.focus, Some(PointerFocus { surface: 1, location: Point { x: 10, y: 10 } }));
    assert!(!motion.redraw);
    assert_eq!(router.pointer_focus, Some(1));
    assert_eq!(router.last_pointer, Point { x: 50, y: 50 });

    let motion = router.pointer_motion(&layout, Point::new(5, 5));
    assert_eq!(motion.focus, None);
    assert_eq!(router.pointer_focus, None);
}

#[test]
fn drag_captures_offset_then_follows_the_pointer() {
    let layout = one_tile();
    let mut router = InputRouter::new();
    router.surface_positions.insert(1, Point::new(20, 20));

    router.move_request(1);
    assert_eq!(router.start_drag_request, Some(1));
    assert_eq!(router.drag_state, None);

    let motion = router.pointer_motion(&layout, Point::new(100, 100));
    assert!(motion.redraw);
    assert_eq!(router.start_drag_request, None);
    assert_eq!(router.drag_state, Some(DragState { target: 1, offset_x: 80, offset_y: 80 }));
    assert_eq!(router.position_of(1), Point { x: 20, y: 20 });

    router.pointer_motion(&layout, Point::new(150, 150));
    assert_eq!(router.position_of(1), Point { x: 70, y: 70 });

    let released = router.pointer_button(MouseButton::Left, false);
    assert_eq!(released, ButtonEvent { button: 0x110, pressed: false, sets_focus: false });
    assert_eq!(router.drag_state, None);
    let motion = router.pointer_motion(&layout, Point::new(300, 300));
    assert!(!motion.redraw);
    assert_eq!(router.position_of(1), Point { x: 70, y: 70 });
}

#[test]
fn drag_of_an_unplaced_surface_starts_at_the_origin() {
    let layout = one_tile();
    let mut router = InputRouter::new();
    assert_eq!(router.position_of(9), Point { x: 0, y: 0 });
    router.move_request(9);
    router.pointer_motion(&layout, Point::new(30, 40));
    assert_eq!(router.drag_state, Some(DragState { target: 9, offset_x: 30, offset_y: 40 }));
    router.pointer_motion(&layout, Point::new(25, 50));
    assert_eq!(router.position_of(9), Point { x: -5, y: 10 });
}

#[test]
fn press_captures_an_armed_drag_at_the_last_pointer_position() {
    let layout = one_tile();
    let mut router = InputRouter::new();
    router.surface_positions.insert(1, Point::new(20, 20));
    router.pointer_motion(&layout, Point::new(60, 70));
    router.move_request(1);
    router.pointer_button(MouseButton::Left, true);
    assert_eq!(router.drag_state, Some(DragState { target: 1, offset_x: 40, offset_y: 50 }));
    assert_eq!(router.start_drag_request, None);
}

#[test]
fn a_new_drag_replaces_the_old_one() {
    let layout = one_tile();
    let mut router = InputRouter::new();
    router.move_request(1);
    router.pointer_motion(&layout, Point::new(10, 10));
    router.move_request(2);
    router.pointer_motion(&layout, Point::new(15, 15));
    assert_eq!(router.drag_state, Some(DragState { target: 2, offset_x: 15, offset_y: 15 }));
}

#[test]
fn dragged_position_saturates() {
    let layout = one_tile();
    let mut router = InputRouter::new();
    router.surface_positions.insert(1, Point::new(i32::MAX, i32::MIN));
    router.move_request(1);
    router.pointer_motion(&layout, Point::new(0, 0));
    router.pointer_motion(&layout, Point::new(10, -10));
    assert_eq!(router.position_of(1), Point { x: i32::MAX, y: i32::MIN });
}

#[test]
fn motion_to_the_same_point_twice_changes_nothing_more() {
    let layout = one_tile();
    let mut router = InputRouter::new();
    router.move_request(1);
    let first = router.pointer_motion(&layout, Point::new(50, 50));
    let state = (router.pointer_focus, router.drag_state, router.surface_positions.clone());
    let second = router.pointer_motion(&layout, Point::new(50, 50));
    assert_eq!(first, second);
    assert_eq!(state, (router.pointer_focus, router.drag_state, router.surface_positions.clone()));
}

#[test]
fn primary_press_sets_keyboard_focus() {
    let layout = one_tile();
    let mut router = InputRouter::new();
    router.pointer_motion(&layout, Point::new(50, 50));
    router.pointer_button(MouseButton::Right, true);
    assert_eq!(router.keyboard_focus, None);
    let event = router.pointer_button(MouseButton::Left, true);
    assert_eq!(event, ButtonEvent { button: 0x110, pressed: true, sets_focus: true });
    assert_eq!(router.keyboard_focus, Some(1));

    router.pointer_motion(&layout, Point::new(5, 5));
    router.pointer_button(MouseButton::Left, false);
    assert_eq!(router.keyboard_focus, Some(1));
    router.pointer_button(MouseButton::Left, true);
    assert_eq!(router.keyboard_focus, None);
}

#[test]
fn other_buttons_do_not_end_a_drag() {
    let layout = one_tile();
    let mut router = InputRouter::new();
    router.move_request(1);
    router.pointer_motion(&layout, Point::new(50, 50));
    router.pointer_button(MouseButton::Right, false);
    router.pointer_button(MouseButton::Middle, true);
    assert!(router.drag_state.is_some());
}

#[test]
fn button_codes() {
    assert_eq!(button_code(MouseButton::Left), 0x110);
    assert_eq!(button_code(MouseButton::Right), 0x111);
    assert_eq!(button_code(MouseButton::Middle), 0x112);
    assert_eq!(button_code(MouseButton::Other), 0x110);
}

#[test]
fn forget_drops_every_reference() {
    let layout = one_tile();
    let mut router = InputRouter::new();
    router.move_request(1);
    router.pointer_motion(&layout, Point::new(50, 50));
    router.pointer_button(MouseButton::Left, true);
    router.move_request(1);
    router.forget(2);
    assert_eq!(router.keyboard_focus, Some(1));
    router.forget(1);
    assert_eq!(router.pointer_focus, None);
    assert_eq!(router.keyboard_focus, None);
    assert_eq!(router.drag_state, None);
    assert_eq!(router.start_drag_request, None);
    assert!(router.surface_positions.is_empty());
}

#[test]
fn scroll_picks_one_axis() {
    assert_eq!(plan_scroll(true, false, false, false), None);
    assert_eq!(plan_scroll(false, false, false, true), None);
    assert_eq!(
        plan_scroll(true, true, true, false),
        Some(ScrollPlan {
            axis: Axis::Horizontal,
            source: AxisSource::Wheel,
            factor: -10,
            stop_horizontal: false,
            stop_vertical: false,
        })
    );
    assert_eq!(
        plan_scroll(false, false, true, true),
        Some(ScrollPlan {
            axis: Axis::Vertical,
            source: AxisSource::Finger,
            factor: -1,
            stop_horizontal: false,
            stop_vertical: true,
        })
    );
    assert_eq!(
        plan_scroll(false, true, false, true),
        Some(ScrollPlan {
            axis: Axis::Horizontal,
            source: AxisSource::Finger,
            factor: -1,
            stop_horizontal: true,
            stop_vertical: false,
        })
    );
}

#[test]
fn router_well_formedness_is_decided() {
    let mut router = InputRouter::new();
    assert!(router.is_well_formed());
    router.drag_state = Some(DragState { target: 1, offset_x: 1 << 32, offset_y: -(1 << 32) });
    assert!(router.is_well_formed());
    router.drag_state = Some(DragState { target: 1, offset_x: (1 << 32) + 1, offset_y: 0 });
    assert!(!router.is_well_formed());
    router.drag_state = Some(DragState { target: 1, offset_x: 0, offset_y: i64::MIN });
    assert!(!router.is_well_formed());
}

#[test]
fn only_a_primary_press_sets_the_focus() {
    let mut router = InputRouter::new();
    assert_eq!(
        router.pointer_button(MouseButton::Right, true),
        ButtonEvent { button: 0x111, pressed: true, sets_focus: false }
    );
    assert_eq!(
        router.pointer_button(MouseButton::Middle, false),
        ButtonEvent { button: 0x112, pressed: false, sets_focus: false }
    );
    assert_eq!(
        router.pointer_button(MouseButton::Other, true),
        ButtonEvent { button: 0x110, pressed: true, sets_focus: false }
    );
}

#[test]
fn key_actions() {
    assert_eq!(plan_key(true, Some(1), true), KeyAction::Exit);
    assert_eq!(plan_key(true, None, false), KeyAction::Exit);
    assert_eq!(plan_key(false, Some(30), true), KeyAction::Forward { keycode: 38, pressed: true });
    assert_eq!(plan_key(false, Some(0), false), KeyAction::Forward { keycode: 8, pressed: false });
    assert_eq!(
        plan_key(false, Some(u32::MAX - 8), true),
        KeyAction::Forward { keycode: u32::MAX, pressed: true }
    );
    assert_eq!(plan_key(false, Some(u32::MAX - 7), true), KeyAction::Ignore);
    assert_eq!(plan_key(false, None, true), KeyAction::Ignore);
}
