use hx::dispatcher::Helix;
use hx::motion::{
    motion, move_cursor, normal_motion, DisplayPoint, LayoutSnapshot, Motion, SelectionGoal,
};
use hx::state::Mode;

fn layout(widths: &[u32]) -> LayoutSnapshot {
    LayoutSnapshot { line_lengths: widths.to_vec() }
}

#[test]
fn down_moves_one_row_by_default() {
    let map = layout(&[5, 7]);
    let start = DisplayPoint { row: 0, column: 3 };
    let moved = Motion::Down.move_point(&map, start, SelectionGoal::NoGoal, None);
    assert_eq!(
        moved,
        Some((DisplayPoint { row: 1, column: 3 }, SelectionGoal::Column(3)))
    );
}

#[test]
fn down_clamps_to_a_shorter_row_and_keeps_the_goal() {
    let map = layout(&[5, 2, 7]);
    let start = DisplayPoint { row: 0, column: 4 };
    let first = Motion::Down.move_point(&map, start, SelectionGoal::NoGoal, None);
    assert_eq!(
        first,
        Some((DisplayPoint { row: 1, column: 2 }, SelectionGoal::Column(4)))
    );
    // The sticky goal restores the column on the next, wider row.
    let (p1, g1) = first.unwrap();
    let second = Motion::Down.move_point(&map, p1, g1, None);
    assert_eq!(
        second,
        Some((DisplayPoint { row: 2, column: 4 }, SelectionGoal::Column(4)))
    );
}

#[test]
fn down_with_repeat_count_equals_sequential_single_steps() {
    let map = layout(&[9, 1, 4, 6, 0]);
    let start = DisplayPoint { row: 0, column: 6 };
    let mut point = start;
    let mut goal = SelectionGoal::NoGoal;
    for _ in 0..3 {
        let (p, g) = Motion::Down
            .move_point(&map, point, goal, Some(1))
            .unwrap_or((point, goal));
        point = p;
        goal = g;
    }
    let at_once = Motion::Down
        .move_point(&map, start, SelectionGoal::NoGoal, Some(3))
        .unwrap_or((start, SelectionGoal::NoGoal));
    assert_eq!(at_once, (point, goal));
    assert_eq!(at_once, (DisplayPoint { row: 3, column: 6 }, SelectionGoal::Column(6)));
}

#[test]
fn down_from_the_last_row_is_a_noop_for_every_count() {
    let map = layout(&[5, 2, 7]);
    let last = DisplayPoint { row: 2, column: 1 };
    for times in 1..5usize {
        let moved = Motion::Down.move_point(&map, last, SelectionGoal::NoGoal, Some(times));
        assert_eq!(moved, None);
        let moved_with_goal =
            Motion::Down.move_point(&map, last, SelectionGoal::Column(6), Some(times));
        assert_eq!(moved_with_goal, None);
    }
}

#[test]
fn down_on_a_single_row_layout_is_a_noop() {
    let map = layout(&[4]);
    let start = DisplayPoint { row: 0, column: 2 };
    assert_eq!(
        Motion::Down.move_point(&map, start, SelectionGoal::NoGoal, None),
        None
    );
}

#[test]
fn a_count_that_overshoots_stops_at_the_last_row() {
    let map = layout(&[3, 3, 3]);
    let start = DisplayPoint { row: 0, column: 0 };
    let moved = Motion::Down.move_point(&map, start, SelectionGoal::NoGoal, Some(100));
    assert_eq!(
        moved,
        Some((DisplayPoint { row: 2, column: 0 }, SelectionGoal::Column(0)))
    );
}

#[test]
fn move_cursor_keeps_the_cursor_on_a_noop() {
    let map = layout(&[5]);
    let cursor = DisplayPoint { row: 0, column: 5 };
    let goal = SelectionGoal::Column(5);
    assert_eq!(move_cursor(Motion::Down, None, &map, cursor, goal), (cursor, goal));
}

#[test]
fn normal_motion_moves_the_cursor() {
    let map = layout(&[5, 3]);
    let cursor = DisplayPoint { row: 0, column: 1 };
    assert_eq!(
        normal_motion(Motion::Down, None, &map, cursor, SelectionGoal::NoGoal),
        (DisplayPoint { row: 1, column: 1 }, SelectionGoal::Column(1))
    );
}

#[test]
fn motion_actions_move_only_in_normal_mode() {
    let map = layout(&[5, 5]);
    let cursor = DisplayPoint { row: 0, column: 0 };

    let mut hx = Helix::new();
    hx.set_enabled(true, true, true);
    hx.on_editor_focused(1, true);
    assert_eq!(
        motion(&hx, Motion::Down, None, &map, cursor, SelectionGoal::NoGoal),
        Some((DisplayPoint { row: 1, column: 0 }, SelectionGoal::Column(0)))
    );

    hx.switch_mode(Mode::Insert, true, true);
    assert_eq!(
        motion(&hx, Motion::Down, None, &map, cursor, SelectionGoal::NoGoal),
        None
    );
}

#[test]
fn motion_actions_are_noops_while_disabled() {
    let map = layout(&[5, 5]);
    let cursor = DisplayPoint { row: 0, column: 0 };
    let hx = Helix::new();
    assert_eq!(
        motion(&hx, Motion::Down, None, &map, cursor, SelectionGoal::NoGoal),
        None
    );
}
