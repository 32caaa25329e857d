use phi::data::{Rectangle, SdlRect};

fn rect(x: i64, y: i64, w: i64, h: i64) -> Rectangle {
    Rectangle { x, y, w, h }
}

#[test]
fn move_inside_clamps_to_parent_origin() {
    let me = rect(-10, 5, 20, 20);
    let parent = rect(0, 0, 100, 100);
    assert_eq!(me.move_inside(parent), Some(rect(0, 5, 20, 20)));
}

#[test]
fn move_inside_clamps_to_far_edges() {
    let parent = rect(10, 20, 100, 50);
    assert_eq!(rect(200, 200, 30, 10).move_inside(parent), Some(rect(80, 60, 30, 10)));
    assert_eq!(rect(95, 25, 30, 10).move_inside(parent), Some(rect(80, 25, 30, 10)));
}

#[test]
fn move_inside_leaves_a_contained_rectangle_alone() {
    let parent = rect(0, 0, 100, 100);
    let me = rect(40, 60, 20, 20);
    assert_eq!(me.move_inside(parent), Some(me));
}

#[test]
fn move_inside_refuses_a_larger_rectangle() {
    let parent = rect(0, 0, 100, 100);
    assert_eq!(rect(0, 0, 101, 10).move_inside(parent), None);
    assert_eq!(rect(0, 0, 10, 101).move_inside(parent), None);
    assert_eq!(rect(500, 500, 100, 100).move_inside(parent), Some(rect(0, 0, 100, 100)));
}

#[test]
fn move_inside_result_is_contained() {
    let parent = rect(-50, -50, 120, 80);
    for x in [-1000i64, -50, 0, 69, 70, 1000] {
        for y in [-1000i64, -50, 0, 29, 30, 1000] {
            let moved = rect(x, y, 40, 40).move_inside(parent).unwrap();
            assert!(parent.contains(moved));
            assert_eq!((moved.w, moved.h), (40, 40));
        }
    }
}

#[test]
fn move_inside_handles_the_ends_of_the_range() {
    let parent = rect(i64::MAX - 10, i64::MIN, 10, 10);
    let me = rect(i64::MIN, i64::MAX, 5, 5);
    assert_eq!(me.move_inside(parent), Some(rect(i64::MAX - 10, i64::MIN + 5, 5, 5)));
}

#[test]
fn contains_includes_the_edges() {
    let a = rect(0, 0, 10, 10);
    assert!(a.contains(a));
    assert!(a.contains(rect(0, 0, 10, 1)));
    assert!(a.contains(rect(10, 10, 0, 0)));
    assert!(!a.contains(rect(0, 0, 11, 10)));
    assert!(!a.contains(rect(-1, 0, 5, 5)));
    assert!(!a.contains(rect(5, 5, 5, 6)));
}

#[test]
fn contains_means_all_four_corners_inside() {
    let a = rect(2, 3, 20, 30);
    let b = rect(5, 6, 7, 8);
    assert!(a.contains(b));
    for (px, py) in [(b.x, b.y), (b.x + b.w, b.y), (b.x, b.y + b.h), (b.x + b.w, b.y + b.h)] {
        assert!(a.x <= px && px <= a.x + a.w);
        assert!(a.y <= py && py <= a.y + a.h);
    }
}

#[test]
fn contains_does_not_overflow() {
    let a = rect(i64::MAX, i64::MAX, i64::MAX, i64::MAX);
    assert!(a.contains(a));
    assert!(!a.contains(rect(i64::MIN, i64::MIN, i64::MIN, i64::MIN)));
}

#[test]
fn overlaps_is_strict() {
    let a = rect(0, 0, 10, 10);
    assert!(a.overlaps(rect(9, 9, 10, 10)));
    assert!(!a.overlaps(rect(10, 0, 10, 10)));
    assert!(!a.overlaps(rect(0, 10, 10, 10)));
    assert!(!a.overlaps(rect(-10, 0, 10, 10)));
    assert!(a.overlaps(rect(2, 2, 2, 2)));
}

#[test]
fn overlaps_is_symmetric() {
    let rects = [
        rect(0, 0, 10, 10),
        rect(5, 5, 10, 10),
        rect(10, 0, 10, 10),
        rect(-3, 4, 4, 1),
        rect(0, 0, 0, 0),
        rect(3, 3, -2, 5),
    ];
    for a in rects {
        for b in rects {
            assert_eq!(a.overlaps(b), b.overlaps(a));
        }
    }
}

#[test]
fn to_sdl_keeps_values_in_range() {
    assert_eq!(rect(-7, 9, 43, 39).to_sdl(), Some(SdlRect { x: -7, y: 9, w: 43, h: 39 }));
}

#[test]
fn to_sdl_gives_nothing_for_an_empty_rectangle() {
    assert_eq!(rect(1, 2, 0, 5).to_sdl(), None);
    assert_eq!(rect(1, 2, 5, 0).to_sdl(), None);
}

#[test]
fn to_sdl_saturates() {
    assert_eq!(
        rect(i64::MIN, i64::MAX, i64::MAX, 1).to_sdl(),
        Some(SdlRect { x: i32::MIN, y: i32::MAX, w: u32::MAX, h: 1 })
    );
    assert_eq!(
        rect(i32::MAX as i64 + 1, i32::MIN as i64 - 1, u32::MAX as i64, u32::MAX as i64 + 1).to_sdl(),
        Some(SdlRect { x: i32::MAX, y: i32::MIN, w: u32::MAX, h: u32::MAX })
    );
}
