//! Four-sided box properties: `Edges` (top, right, bottom, left), as used for
//! padding and margins, and `Corners` (top-left, top-right, bottom-right,
//! bottom-left), as used for border radii.
use vstd::prelude::*;

verus! {

/// Represents the edges of a box in a 2D space, such as padding or margin.
///
/// Each field represents the size of the edge on one side of the box: `top`, `right`, `bottom`, and `left`.
#[derive(Clone, Default, Debug, Eq, PartialEq)]
pub struct Edges<T: Clone + Default + std::fmt::Debug> {
    /// The size of the top edge.
    pub top: T,
    /// The size of the right edge.
    pub right: T,
    /// The size of the bottom edge.
    pub bottom: T,
    /// The size of the left edge.
    pub left: T,
}

/// Calling `p` on `x` cannot fail.
pub open spec fn callable<T, P: Fn(&T) -> bool>(p: P, x: &T) -> bool {
    call_requires(p, (x,))
}

/// `p` may answer `b` when asked about `x`.
pub open spec fn answers<T, P: Fn(&T) -> bool>(p: P, x: &T, b: bool) -> bool {
    call_ensures(p, (x,), b)
}

/// The predicate can be asked about `a`, then about `b` whenever it said no to `a`,
/// and so on down the list: what a short-circuiting "any" needs of it.
pub open spec fn callable_until_yes<T, P: Fn(&T) -> bool>(p: P, a: &T, b: &T, c: &T, d: &T) -> bool {
    &&& callable(p, a)
    &&& answers(p, a, false) ==> callable(p, b)
    &&& answers(p, a, false) && answers(p, b, false) ==> callable(p, c)
    &&& answers(p, a, false) && answers(p, b, false) && answers(p, c, false) ==> callable(p, d)
}

impl<T: Clone + Default + std::fmt::Debug> Edges<T> {
    /// Constructs `Edges` where all sides are set to the same specified value.
    pub fn all(value: T) -> (r: Self)
        ensures
            cloned(value, r.top),
            cloned(value, r.right),
            cloned(value, r.bottom),
            r.left == value,
    {
        Self { top: value.clone(), right: value.clone(), bottom: value.clone(), left: value }
    }

    /// Applies a function to each field of the `Edges`, producing a new `Edges<U>`.
    pub fn map<U: Clone + Default + std::fmt::Debug, F: Fn(&T) -> U>(&self, f: F) -> (r: Edges<U>)
        requires
            call_requires(f, (&self.top,)),
            call_requires(f, (&self.right,)),
            call_requires(f, (&self.bottom,)),
            call_requires(f, (&self.left,)),
        ensures
            call_ensures(f, (&self.top,), r.top),
            call_ensures(f, (&self.right,), r.right),
            call_ensures(f, (&self.bottom,), r.bottom),
            call_ensures(f, (&self.left,), r.left),
    {
        Edges { top: f(&self.top), right: f(&self.right), bottom: f(&self.bottom), left: f(&self.left) }
    }

    /// Checks if any of the edges satisfy a given predicate, asking about the
    /// edges in the order top, right, bottom, left and stopping at the first yes.
    pub fn any<F: Fn(&T) -> bool>(&self, predicate: F) -> (r: bool)
        requires
            callable_until_yes(predicate, &self.top, &self.right, &self.bottom, &self.left),
        ensures
            r ==> answers(predicate, &self.top, true) || answers(predicate, &self.right, true)
                || answers(predicate, &self.bottom, true) || answers(predicate, &self.left, true),
            !r ==> answers(predicate, &self.top, false) && answers(predicate, &self.right, false)
                && answers(predicate, &self.bottom, false) && answers(predicate, &self.left, false),
    {
        predicate(&self.top) || predicate(&self.right) || predicate(&self.bottom) || predicate(
            &self.left,
        )
    }
}

/// Represents the corners of a box in a 2D space, such as border radius.
///
/// Each field represents the size of the corner on one side of the box: `top_left`, `top_right`, `bottom_right`, and `bottom_left`.
#[derive(Clone, Default, Debug, Eq, PartialEq)]
pub struct Corners<T: Clone + Default + std::fmt::Debug> {
    /// The value associated with the top left corner.
    pub top_left: T,
    /// The value associated with the top right corner.
    pub top_right: T,
    /// The value associated with the bottom right corner.
    pub bottom_right: T,
    /// The value associated with the bottom left corner.
    pub bottom_left: T,
}

impl<T: Clone + Default + std::fmt::Debug> Corners<T> {
    /// Constructs `Corners` where all sides are set to the same specified value.
    pub fn all(value: T) -> (r: Self)
        ensures
            cloned(value, r.top_left),
            cloned(value, r.top_right),
            cloned(value, r.bottom_right),
            r.bottom_left == value,
    {
        Self {
            top_left: value.clone(),
            top_right: value.clone(),
            bottom_right: value.clone(),
            bottom_left: value,
        }
    }

    /// Applies a function to each field of the `Corners`, producing a new `Corners<U>`.
    pub fn map<U: Clone + Default + std::fmt::Debug, F: Fn(&T) -> U>(&self, f: F) -> (r: Corners<
        U,
    >)
        requires
            call_requires(f, (&self.top_left,)),
            call_requires(f, (&self.top_right,)),
            call_requires(f, (&self.bottom_right,)),
            call_requires(f, (&self.bottom_left,)),
        ensures
            call_ensures(f, (&self.top_left,), r.top_left),
            call_ensures(f, (&self.top_right,), r.top_right),
            call_ensures(f, (&self.bottom_right,), r.bottom_right),
            call_ensures(f, (&self.bottom_left,), r.bottom_left),
    {
        Corners {
            top_left: f(&self.top_left),
            top_right: f(&self.top_right),
            bottom_right: f(&self.bottom_right),
            bottom_left: f(&self.bottom_left),
        }
    }
}

} // verus!
