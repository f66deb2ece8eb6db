use nimbus_scroll::geometry::{Point, Rect};

#[test]
fn rect_at_a_point_is_one_by_one() {
    let r = Rect::at(Point { x: 640, y: 480 });
    assert_eq!(r, Rect { left: 640, top: 480, right: 641, bottom: 481 });
    assert_eq!(r.right - r.left, 1);
    assert_eq!(r.bottom - r.top, 1);
}

#[test]
fn rect_at_negative_coordinates() {
    assert_eq!(
        Rect::at(Point { x: -1920, y: -1 }),
        Rect { left: -1920, top: -1, right: -1919, bottom: 0 }
    );
    assert_eq!(
        Rect::at(Point { x: i32::MIN, y: i32::MIN }),
        Rect { left: i32::MIN, top: i32::MIN, right: i32::MIN + 1, bottom: i32::MIN + 1 }
    );
}

#[test]
fn rect_at_the_largest_coordinate_has_no_room() {
    assert_eq!(
        Rect::at(Point { x: i32::MAX, y: i32::MAX }),
        Rect { left: i32::MAX, top: i32::MAX, right: i32::MAX, bottom: i32::MAX }
    );
    assert_eq!(
        Rect::at(Point { x: i32::MAX - 1, y: 0 }),
        Rect { left: i32::MAX - 1, top: 0, right: i32::MAX, bottom: 1 }
    );
}

#[test]
fn zero_rect() {
    assert_eq!(Rect::zero(), Rect { left: 0, top: 0, right: 0, bottom: 0 });
}

#[test]
fn same_compares_every_side() {
    let r = Rect { left: 1, top: 2, right: 3, bottom: 4 };
    assert!(r.same(&r));
    assert!(r.same(&Rect { left: 1, top: 2, right: 3, bottom: 4 }));
    assert!(!r.same(&Rect { left: 0, top: 2, right: 3, bottom: 4 }));
    assert!(!r.same(&Rect { left: 1, top: 0, right: 3, bottom: 4 }));
    assert!(!r.same(&Rect { left: 1, top: 2, right: 0, bottom: 4 }));
    assert!(!r.same(&Rect { left: 1, top: 2, right: 3, bottom: 0 }));
}
