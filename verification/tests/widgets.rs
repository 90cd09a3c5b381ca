use mctk::widgets::carousel::{Carousel, CarouselItem};
use mctk::widgets::slider::{Slider, SliderMsg};

#[derive(Default, Debug, PartialEq)]
struct Scroll {
    offset: i32,
}

#[test]
fn carousel_scrolling_is_opt_in() {
    let c: Carousel<Scroll> = Carousel::new();
    assert!(!c.x_scrollable());
    assert!(!c.y_scrollable());
    assert!(!c.scrollable());
    assert!(c.state.is_none());
    let c = c.scroll_x();
    assert!(c.x_scrollable());
    assert!(!c.y_scrollable());
    assert!(c.scrollable());
    assert_eq!(c.state, Some(Scroll::default()));
    let c: Carousel<Scroll> = Carousel::new().scroll_y();
    assert!(c.y_scrollable() && !c.x_scrollable() && c.scrollable());
    let _item = CarouselItem::default();
}

#[test]
fn slider_reports_new_values() {
    let mut s = Slider::new(30).on_slide(|v| v * 10);
    assert_eq!(s.value, 30);
    assert!(!s.dirty);
    assert!(!s.is_dirty());
    assert_eq!(s.pointer().value, 30);
    assert_eq!(s.update(SliderMsg::ValueChanged(42)), vec![420]);
    let quiet: Slider<fn(i32) -> i32> = Slider::new(5);
    assert!(quiet.update(SliderMsg::ValueChanged(1)).is_empty());
    let d: Slider<fn(i32) -> i32> = Slider::default();
    assert_eq!(d.value, 0);
}
