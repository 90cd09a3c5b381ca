use mctk::layout::{Alignment, Dimension, Direction, PositionType, Rect, Size};

fn px(x: i32) -> Dimension<i32> {
    Dimension::Px(x)
}

fn pct(x: i32) -> Dimension<i32> {
    Dimension::Pct(x)
}

#[test]
fn layout_defaults() {
    assert_eq!(Direction::default(), Direction::Row);
    assert_eq!(PositionType::default(), PositionType::Relative);
    assert_eq!(Alignment::default(), Alignment::Start);
    assert_eq!(Dimension::<i32>::default(), Dimension::Auto);
    let s: Size<i32> = Size::default();
    assert_eq!(s.width, Dimension::Auto);
    assert_eq!(s.height, Dimension::Auto);
    let r: Rect<i32> = Rect::default();
    assert_eq!(r.left, Dimension::Auto);
    assert_eq!(r.bottom, Dimension::Auto);
}

#[test]
fn dimension_resolved_and_pct() {
    assert!(px(3).resolved());
    assert!(!pct(3).resolved());
    assert!(!Dimension::<i32>::Auto.resolved());
    assert!(pct(3).is_pct());
    assert!(!px(3).is_pct());
}

#[test]
fn dimension_most_specific_prefers_pixels() {
    let auto = Dimension::<i32>::Auto;
    assert_eq!(auto.most_specific(&pct(50)), pct(50));
    assert_eq!(pct(50).most_specific(&auto), pct(50));
    assert_eq!(pct(50).most_specific(&px(20)), px(20));
    assert_eq!(px(20).most_specific(&pct(50)), px(20));
    // On a tie the first wins.
    assert_eq!(px(20).most_specific(&px(30)), px(20));
    assert_eq!(pct(20).most_specific(&pct(30)), pct(20));
    assert_eq!(auto.most_specific(&auto), auto);
    // Merging a length with itself changes nothing.
    for d in [auto, px(4), pct(4)] {
        assert_eq!(d.most_specific(&d), d);
    }
}

#[test]
fn dimension_more_specific_only_fills_auto() {
    let auto = Dimension::<i32>::Auto;
    assert_eq!(auto.more_specific(&px(7)), px(7));
    assert_eq!(pct(5).more_specific(&px(7)), pct(5));
    assert_eq!(px(5).more_specific(&px(7)), px(5));
}

#[test]
fn size_axes_follow_direction() {
    let s = Size { width: px(100), height: px(40) };
    assert_eq!(s.main(Direction::Row), px(100));
    assert_eq!(s.cross(Direction::Row), px(40));
    assert_eq!(s.main(Direction::Column), px(40));
    assert_eq!(s.cross(Direction::Column), px(100));
    assert!(s.resolved());
    assert!(!Size { width: px(1), height: pct(1) }.resolved());
}

#[test]
fn size_main_mut_writes_one_axis() {
    let mut s = Size { width: px(100), height: px(40) };
    *s.main_mut(Direction::Column) = pct(10);
    assert_eq!(s.height, pct(10));
    assert_eq!(s.width, px(100));
    *s.cross_mut(Direction::Column) = Dimension::Auto;
    assert_eq!(s.width, Dimension::Auto);
    assert_eq!(s.height, pct(10));
}

#[test]
fn size_merges_axis_by_axis() {
    let a = Size { width: Dimension::Auto, height: pct(50) };
    let b = Size { width: px(10), height: px(20) };
    let m = a.most_specific(&b);
    assert_eq!(m.width, px(10));
    assert_eq!(m.height, px(20));
    let f = a.more_specific(&b);
    assert_eq!(f.width, px(10));
    assert_eq!(f.height, pct(50));
}

#[test]
fn direction_size_reads_back() {
    for dir in [Direction::Row, Direction::Column] {
        let s = dir.size(px(3), px(9));
        assert_eq!(s.main(dir), px(3));
        assert_eq!(s.cross(dir), px(9));
    }
    let s = Direction::Column.size(px(3), px(9));
    assert_eq!(s.height, px(3));
    assert_eq!(s.width, px(9));
}

#[test]
fn direction_rect_places_lengths_on_start_sides() {
    let r = Direction::Row.rect(px(5), px(6), Alignment::Start, Alignment::Center);
    assert_eq!(r.left, px(5));
    assert_eq!(r.top, px(6));
    assert_eq!(r.right, Dimension::Auto);
    assert_eq!(r.bottom, Dimension::Auto);

    let r = Direction::Column.rect(px(5), px(6), Alignment::End, Alignment::End);
    assert_eq!(r.bottom, px(5));
    assert_eq!(r.right, px(6));
    assert_eq!(r.top, Dimension::Auto);
    assert_eq!(r.left, Dimension::Auto);
}

#[test]
fn rect_built_by_direction_reads_back() {
    let aligns = [Alignment::Start, Alignment::End, Alignment::Center, Alignment::Stretch];
    for dir in [Direction::Row, Direction::Column] {
        for a in aligns {
            for c in aligns {
                let r = dir.rect(px(1), px(2), a, c);
                assert_eq!(r.main(dir, a), px(1));
                assert_eq!(r.cross(dir, c), px(2));
                assert_eq!(r.main_reverse(dir, a), Dimension::Auto);
                assert_eq!(r.cross_reverse(dir, c), Dimension::Auto);
            }
        }
    }
}

#[test]
fn rect_sides_by_direction_and_alignment() {
    let r = Rect { left: px(1), right: px(2), top: px(3), bottom: px(4) };
    assert_eq!(r.main(Direction::Row, Alignment::Start), px(1));
    assert_eq!(r.main(Direction::Row, Alignment::End), px(2));
    assert_eq!(r.main_reverse(Direction::Row, Alignment::End), px(1));
    assert_eq!(r.main(Direction::Column, Alignment::Center), px(3));
    assert_eq!(r.main_reverse(Direction::Column, Alignment::Center), px(4));
    assert_eq!(r.cross(Direction::Row, Alignment::End), px(4));
    assert_eq!(r.cross_reverse(Direction::Row, Alignment::End), px(3));
    assert_eq!(r.cross(Direction::Column, Alignment::Stretch), px(1));
    assert_eq!(r.cross_reverse(Direction::Column, Alignment::Stretch), px(2));
}

#[test]
fn rect_main_mut_writes_one_side() {
    let mut r = Rect { left: px(1), right: px(2), top: px(3), bottom: px(4) };
    *r.main_mut(Direction::Row, Alignment::End) = px(20);
    assert_eq!(r.right, px(20));
    assert_eq!(r.main(Direction::Row, Alignment::End), px(20));
    assert_eq!(r.left, px(1));
    *r.cross_mut(Direction::Row, Alignment::Start) = pct(30);
    assert_eq!(r.top, pct(30));
    assert_eq!(r.bottom, px(4));
}

#[test]
fn rect_most_specific_fills_open_axes() {
    let explicit = Rect { left: px(5), right: Dimension::Auto, top: Dimension::Auto, bottom: px(8) };
    let flow = Rect { left: px(1), right: px(2), top: px(3), bottom: Dimension::Auto };
    let m = explicit.most_specific(&flow);
    // The sides set explicitly are kept.
    assert_eq!(m.left, px(5));
    assert_eq!(m.bottom, px(8));
    // The facing sides are not filled in: their axis is pinned already.
    assert_eq!(m.right, Dimension::Auto);
    assert_eq!(m.top, Dimension::Auto);

    let open: Rect<i32> = Rect::default();
    let m = open.most_specific(&flow);
    assert_eq!(m.left, px(1));
    assert_eq!(m.right, px(2));
    assert_eq!(m.top, px(3));
    assert_eq!(m.bottom, Dimension::Auto);

    // Merging a rectangle with itself changes nothing.
    assert_eq!(flow.most_specific(&flow), flow);
}
