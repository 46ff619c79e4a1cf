use witui::geometry::{Point, Rect, SideOffsets, Size};

#[test]
fn from_size_is_anchored_at_the_origin() {
    let rect = Rect::from_size(Size::new(4, 3));
    assert_eq!(rect, Rect::new(Point::new(0, 0), Size::new(4, 3)));
    assert_eq!(rect.max_x(), 4);
    assert_eq!(rect.max_y(), 3);
}

#[test]
fn intersection_of_overlapping_rects() {
    let a = Rect::new(Point::new(1, 1), Size::new(5, 4));
    let b = Rect::new(Point::new(3, 0), Size::new(10, 3));
    assert_eq!(a.intersection(&b), Some(Rect::new(Point::new(3, 1), Size::new(3, 2))));
    assert_eq!(b.intersection(&a), a.intersection(&b));
    assert!(a.intersects(&b));
}

#[test]
fn intersection_of_disjoint_rects_is_none() {
    let a = Rect::new(Point::new(0, 0), Size::new(2, 2));
    let b = Rect::new(Point::new(2, 0), Size::new(2, 2));
    assert_eq!(a.intersection(&b), None);
    assert!(!a.intersects(&b));
    let empty = Rect::new(Point::new(1, 1), Size::new(0, 5));
    assert_eq!(a.intersection(&empty), None);
}

#[test]
fn intersection_near_the_machine_limit() {
    let a = Rect::new(Point::new(usize::MAX - 1, 0), Size::new(usize::MAX, 1));
    let b = Rect::new(Point::new(0, 0), Size::new(usize::MAX, 1));
    assert_eq!(a.intersection(&b), Some(Rect::new(Point::new(usize::MAX - 1, 0), Size::new(1, 1))));
}

#[test]
fn inset_takes_the_offsets_off() {
    let rect = Rect::new(Point::new(2, 3), Size::new(10, 8));
    let inner = rect.inset(SideOffsets::new(1, 2, 3, 4));
    assert_eq!(inner, Rect::new(Point::new(6, 4), Size::new(4, 4)));
    assert_eq!(rect.inner_rect(SideOffsets::new(1, 2, 3, 4)), inner);
}

#[test]
fn inset_saturates_at_zero_area() {
    let rect = Rect::new(Point::new(2, 3), Size::new(4, 2));
    let inner = rect.inset(SideOffsets::new(5, 1, 5, 9));
    assert_eq!(inner.size, Size::new(0, 0));
    assert_eq!(inner.origin, Point::new(6, 5));
    assert!(inner.is_empty());
    let all = rect.inset(SideOffsets::new_all_same(usize::MAX));
    assert_eq!(all.size, Size::new(0, 0));
}

#[test]
fn containment_of_points_and_sizes() {
    let rect = Rect::new(Point::new(2, 3), Size::new(4, 2));
    assert!(rect.contains(Point::new(2, 3)));
    assert!(rect.contains(Point::new(5, 4)));
    assert!(!rect.contains(Point::new(6, 4)));
    assert!(!rect.contains(Point::new(5, 5)));
    assert!(!rect.contains(Point::new(1, 3)));
    assert!(Size::new(4, 2).contains(Size::new(4, 2)));
    assert!(!Size::new(4, 2).contains(Size::new(5, 1)));
    assert!(rect.contains_rect(&Rect::new(Point::new(3, 3), Size::new(3, 2))));
    assert!(!rect.contains_rect(&Rect::new(Point::new(3, 3), Size::new(4, 2))));
    assert!(rect.contains_rect(&Rect::new(Point::new(100, 100), Size::new(0, 0))));
}

#[test]
fn size_arithmetic_saturates() {
    assert_eq!(Size::new(3, 5).saturating_sub(Size::new(4, 2)), Size::new(0, 3));
    assert_eq!(Size::new(usize::MAX, 5).saturating_add(Size::new(4, 2)), Size::new(usize::MAX, 7));
    assert_eq!(Size::new(3, 5).min(Size::new(4, 2)), Size::new(3, 2));
    assert_eq!(Size::new(3, 5).max(Size::new(4, 2)), Size::new(4, 5));
    assert!(Size::new(0, 5).is_empty());
    assert!(!Size::new(1, 1).is_empty());
    assert_eq!(SideOffsets::new(1, 2, 3, 4).size(), Size::new(6, 4));
}
