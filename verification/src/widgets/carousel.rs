//! A scrolling strip of slides that snaps to whole slides.
use vstd::prelude::*;

verus! {

/// One slide of a carousel.
#[derive(Debug, Default, Clone)]
pub struct CarouselItem {}

/// A carousel. `x` and `y` are its style settings for scrolling along each axis,
/// which start out off; `state` is its scrolling state, kept once scrolling is on.
#[derive(Debug)]
pub struct Carousel<S> {
    pub x: bool,
    pub y: bool,
    pub state: Option<S>,
}

impl<S: Default> Carousel<S> {
    /// A carousel that does not scroll yet.
    pub fn new() -> (r: Self)
        ensures
            !r.x,
            !r.y,
            r.state is None,
    {
        Carousel { x: false, y: false, state: None }
    }

    /// Turns on scrolling along the x axis, with a fresh scrolling state.
    pub fn scroll_x(self) -> (r: Self)
        ensures
            r.x,
            r.y == self.y,
            r.state matches Some(st) && call_ensures(S::default, (), st),
    {
        Carousel { x: true, y: self.y, state: Some(S::default()) }
    }

    /// Turns on scrolling along the y axis, with a fresh scrolling state.
    pub fn scroll_y(self) -> (r: Self)
        ensures
            r.y,
            r.x == self.x,
            r.state matches Some(st) && call_ensures(S::default, (), st),
    {
        Carousel { x: self.x, y: true, state: Some(S::default()) }
    }

    /// Whether the carousel scrolls along the x axis.
    pub fn x_scrollable(&self) -> (r: bool)
        ensures
            r == self.x,
    {
        self.x
    }

    /// Whether the carousel scrolls along the y axis.
    pub fn y_scrollable(&self) -> (r: bool)
        ensures
            r == self.y,
    {
        self.y
    }

    /// Whether the carousel scrolls along either axis.
    pub fn scrollable(&self) -> (r: bool)
        ensures
            r == (self.x || self.y),
    {
        self.x_scrollable() || self.y_scrollable()
    }
}

} // verus!
