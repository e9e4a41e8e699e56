use turn_timer::pose::{check_axis, clamp_coordinate, Position, Viewport, MARGIN};

fn square(side: i32) -> Viewport {
    Viewport { x: 0, y: 0, width: side, height: side }
}

#[test]
fn margin_is_twenty_pixels() {
    assert_eq!(MARGIN, 20);
}

#[test]
fn clamp_pulls_a_pose_near_the_origin_to_the_margin() {
    let v = square(100);
    assert!(v.check_fits());
    assert_eq!(v.clamp(Position { x: 5, y: 5 }), Position { x: 20, y: 20 });
}

#[test]
fn clamp_pulls_a_pose_beyond_the_far_edge_back() {
    let v = square(100);
    assert_eq!(v.clamp(Position { x: 200, y: 200 }), Position { x: 80, y: 80 });
}

#[test]
fn clamp_leaves_a_pose_inside_alone() {
    let v = square(100);
    assert_eq!(v.clamp(Position { x: 20, y: 80 }), Position { x: 20, y: 80 });
    assert_eq!(v.clamp(Position { x: 50, y: 33 }), Position { x: 50, y: 33 });
}

#[test]
fn clamp_treats_each_axis_on_its_own() {
    let v = Viewport { x: 10, y: -50, width: 300, height: 100 };
    assert_eq!(v.clamp(Position { x: 0, y: 500 }), Position { x: 30, y: 30 });
    assert_eq!(v.clamp(Position { x: 1000, y: -500 }), Position { x: 290, y: -30 });
}

#[test]
fn clamp_is_idempotent_on_concrete_values() {
    let v = Viewport { x: 7, y: 3, width: 90, height: 41 };
    for p in [
        Position { x: -1000, y: -1000 },
        Position { x: 0, y: 0 },
        Position { x: 27, y: 23 },
        Position { x: 50, y: 24 },
        Position { x: 77, y: 1000 },
        Position { x: i32::MAX, y: i32::MIN },
    ] {
        let once = v.clamp(p);
        assert_eq!(v.clamp(once), once);
    }
}

#[test]
fn an_axis_too_short_for_both_margins_gives_the_upper_edge() {
    // width 30: the lower edge is 20, the upper edge is 10.
    let v = Viewport { x: 0, y: 0, width: 30, height: 100 };
    assert_eq!(v.clamp(Position { x: -5, y: 50 }).x, 10);
    assert_eq!(v.clamp(Position { x: 15, y: 50 }).x, 10);
    assert_eq!(v.clamp(Position { x: 500, y: 50 }).x, 10);
    let once = v.clamp(Position { x: 15, y: 50 });
    assert_eq!(v.clamp(once), once);
}

#[test]
fn an_empty_viewport_gives_the_upper_edge_below_the_origin() {
    let v = Viewport { x: 0, y: 0, width: 0, height: 0 };
    assert!(v.check_fits());
    assert_eq!(v.clamp(Position { x: 120, y: 250 }), Position { x: -20, y: -20 });
}

#[test]
fn clamp_coordinate_follows_the_formula() {
    assert_eq!(clamp_coordinate(5, 0, 100), 20);
    assert_eq!(clamp_coordinate(200, 0, 100), 80);
    assert_eq!(clamp_coordinate(60, 0, 100), 60);
    assert_eq!(clamp_coordinate(0, 100, 50), 120);
    assert_eq!(clamp_coordinate(0, -100, 50), -70);
}

#[test]
fn edges_that_no_i32_can_hold_are_told_apart() {
    assert!(check_axis(0, 10000));
    assert!(check_axis(i32::MAX - 20, 0));
    assert!(!check_axis(i32::MAX - 19, 0));
    assert!(!check_axis(i32::MAX, 0));
    assert!(check_axis(i32::MIN, 40));
    assert!(!check_axis(i32::MIN, 0));
    assert!(!check_axis(i32::MIN, 19));
    assert!(check_axis(0, i32::MAX));
    assert!(!check_axis(21, i32::MAX));
    assert!(check_axis(20, i32::MAX));
    assert!(!Viewport { x: 0, y: i32::MAX, width: 10, height: 10 }.check_fits());
    assert!(!Viewport { x: i32::MAX, y: 0, width: 10, height: 10 }.check_fits());
}
