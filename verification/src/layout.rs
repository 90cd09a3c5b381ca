//! The discrete side of the flexbox-like layout: direction, positioning,
//! alignment, and the rules by which lengths along an axis are chosen, read
//! and written, whatever number type carries them.
use vstd::prelude::*;

verus! {

/// The main axis along which children are laid out.
#[derive(Debug, Copy, Clone, PartialEq, Eq, Structural)]
pub enum Direction {
    Row,
    Column,
}

impl Default for Direction {
    fn default() -> (r: Self)
        ensures
            r == Direction::Row,
    {
        Direction::Row
    }
}

/// Whether a node takes part in its parent's flow or is placed on its own.
#[derive(Debug, Copy, Clone, PartialEq, Eq, Structural)]
pub enum PositionType {
    Absolute,
    Relative,
}

impl Default for PositionType {
    fn default() -> (r: Self)
        ensures
            r == PositionType::Relative,
    {
        PositionType::Relative
    }
}

/// Where children go along an axis.
#[derive(Debug, Copy, Clone, PartialEq, Eq, Structural)]
pub enum Alignment {
    Start,
    End,
    Center,
    Stretch,
}

impl Default for Alignment {
    fn default() -> (r: Self)
        ensures
            r == Alignment::Start,
    {
        Alignment::Start
    }
}

/// Cross-axis alignment of canvas components.
pub enum AlignItems {
    Start,
    End,
    Center,
    Stretch,
}

/// Main-axis distribution of canvas components.
pub enum JustifyContent {
    Start,
    Center,
    SpaceBetween,
    SpaceAround,
    SpaceEvenly,
}

/// A length along one axis: not known yet, in pixels, or a percentage of the
/// parent's length.
#[derive(Debug, Copy, Clone, PartialEq)]
pub enum Dimension<T> {
    Auto,
    Px(T),
    Pct(T),
}

impl<T> Default for Dimension<T> {
    fn default() -> (r: Self)
        ensures
            r == Dimension::<T>::Auto,
    {
        Dimension::Auto
    }
}

/// How much a length says: nothing, relative to the parent, or exactly.
pub open spec fn specificity<T>(d: Dimension<T>) -> int {
    match d {
        Dimension::Auto => 0,
        Dimension::Pct(_) => 1,
        Dimension::Px(_) => 2,
    }
}

impl<T: Copy> Dimension<T> {
    /// Of two lengths, the more specific one; the first on a tie.
    pub open spec fn spec_most_specific(self, other: Self) -> Self {
        match (self, other) {
            (Dimension::Auto, _) => other,
            (_, Dimension::Auto) => self,
            (Dimension::Px(_), _) => self,
            (_, Dimension::Px(_)) => other,
            _ => self,
        }
    }

    /// Whether the length is known in pixels.
    pub fn resolved(&self) -> (r: bool)
        ensures
            r == (*self is Px),
    {
        match self {
            Dimension::Px(_) => true,
            _ => false,
        }
    }

    /// Whether the length is a percentage.
    pub fn is_pct(&self) -> (r: bool)
        ensures
            r == (*self is Pct),
    {
        match self {
            Dimension::Pct(_) => true,
            _ => false,
        }
    }

    /// Between two lengths, the most specific: pixels over a percentage over
    /// `Auto`, `self` when both say as much.
    pub fn most_specific(&self, other: &Self) -> (r: Self)
        ensures
            r == self.spec_most_specific(*other),
    {
        match (self, other) {
            (Dimension::Auto, _) => *other,
            (_, Dimension::Auto) => *self,
            (Dimension::Px(_), _) => *self,
            (_, Dimension::Px(_)) => *other,
            _ => *self,
        }
    }

    /// `other` where `self` is `Auto`, else `self`.
    pub fn more_specific(&self, other: &Self) -> (r: Self)
        ensures
            r == (if *self is Auto { *other } else { *self }),
    {
        match self {
            Dimension::Auto => *other,
            _ => *self,
        }
    }
}

/// A width and a height.
#[derive(Debug, Copy, Clone, PartialEq)]
pub struct Size<T> {
    pub width: Dimension<T>,
    pub height: Dimension<T>,
}

impl<T> Default for Size<T> {
    fn default() -> (r: Self)
        ensures
            r.width is Auto,
            r.height is Auto,
    {
        Size { width: Dimension::Auto, height: Dimension::Auto }
    }
}

impl<T: Copy> Size<T> {
    /// The length along the main axis of `dir`.
    pub open spec fn spec_main(self, dir: Direction) -> Dimension<T> {
        match dir {
            Direction::Row => self.width,
            Direction::Column => self.height,
        }
    }

    /// The length across the main axis of `dir`.
    pub open spec fn spec_cross(self, dir: Direction) -> Dimension<T> {
        match dir {
            Direction::Row => self.height,
            Direction::Column => self.width,
        }
    }

    /// Whether both lengths are known in pixels.
    pub fn resolved(&self) -> (r: bool)
        ensures
            r == (self.width is Px && self.height is Px),
    {
        self.width.resolved() && self.height.resolved()
    }

    /// Axis by axis, the most specific of the two sizes.
    pub fn most_specific(&self, other: &Self) -> (r: Self)
        ensures
            r.width == self.width.spec_most_specific(other.width),
            r.height == self.height.spec_most_specific(other.height),
    {
        Size {
            width: self.width.most_specific(&other.width),
            height: self.height.most_specific(&other.height),
        }
    }

    /// Axis by axis, `other` where `self` is `Auto`.
    pub fn more_specific(&self, other: &Self) -> (r: Self)
        ensures
            r.width == (if self.width is Auto { other.width } else { self.width }),
            r.height == (if self.height is Auto { other.height } else { self.height }),
    {
        Size {
            width: self.width.more_specific(&other.width),
            height: self.height.more_specific(&other.height),
        }
    }

    /// The length along the main axis of `dir`.
    pub fn main(&self, dir: Direction) -> (r: Dimension<T>)
        ensures
            r == self.spec_main(dir),
    {
        match dir {
            Direction::Row => self.width,
            Direction::Column => self.height,
        }
    }

    /// The length along the main axis of `dir`, to be written.
    pub fn main_mut(&mut self, dir: Direction) -> (r: &mut Dimension<T>)
        ensures
            *r == old(self).spec_main(dir),
            final(self).spec_main(dir) == *final(r),
            final(self).spec_cross(dir) == old(self).spec_cross(dir),
    {
        match dir {
            Direction::Row => &mut self.width,
            Direction::Column => &mut self.height,
        }
    }

    /// The length across the main axis of `dir`.
    pub fn cross(&self, dir: Direction) -> (r: Dimension<T>)
        ensures
            r == self.spec_cross(dir),
    {
        match dir {
            Direction::Row => self.height,
            Direction::Column => self.width,
        }
    }
    /// The length across the main axis of `dir`, to be written.
    pub fn cross_mut(&mut self, dir: Direction) -> (r: &mut Dimension<T>)
        ensures
            *r == old(self).spec_cross(dir),
            final(self).spec_cross(dir) == *final(r),
            final(self).spec_main(dir) == old(self).spec_main(dir),
    {
        match dir {
            Direction::Row => &mut self.height,
            Direction::Column => &mut self.width,
        }
    }
}

impl Direction {
    /// The size whose length along this direction is `main` and across it `cross`.
    pub fn size<T: Copy>(&self, main: Dimension<T>, cross: Dimension<T>) -> (r: Size<T>)
        ensures
            r.spec_main(*self) == main,
            r.spec_cross(*self) == cross,
    {
        match self {
            Direction::Row => Size { width: main, height: cross },
            Direction::Column => Size { width: cross, height: main },
        }
    }

    /// The rectangle that holds `main` on the main-axis side that
    /// `axis_alignment` starts from, `cross` on the cross-axis side that
    /// `cross_alignment` starts from, and `Auto` on the other two sides.
    pub fn rect<T: Copy>(
        &self,
        main: Dimension<T>,
        cross: Dimension<T>,
        axis_alignment: Alignment,
        cross_alignment: Alignment,
    ) -> (r: Rect<T>)
        ensures
            r == Rect::<T>::spec_auto().with(main_side(*self, axis_alignment), main).with(
                cross_side(*self, cross_alignment),
                cross,
            ),
    {
        let mut rect: Rect<T> = Rect::default();
        match (self, axis_alignment) {
            (Direction::Row, Alignment::End) => rect.right = main,
            (Direction::Row, _) => rect.left = main,
            (Direction::Column, Alignment::End) => rect.bottom = main,
            (Direction::Column, _) => rect.top = main,
        }
        match (self, cross_alignment) {
            (Direction::Row, Alignment::End) => rect.bottom = cross,
            (Direction::Row, _) => rect.top = cross,
            (Direction::Column, Alignment::End) => rect.right = cross,
            (Direction::Column, _) => rect.left = cross,
        }
        rect
    }
}

/// One side of a rectangle.
#[derive(Debug, Copy, Clone, PartialEq, Eq, Structural)]
pub enum Side {
    Left,
    Right,
    Top,
    Bottom,
}

/// The side facing `s` across the rectangle.
pub open spec fn opposite(s: Side) -> Side {
    match s {
        Side::Left => Side::Right,
        Side::Right => Side::Left,
        Side::Top => Side::Bottom,
        Side::Bottom => Side::Top,
    }
}

/// Whether `s` bounds the rectangle horizontally.
pub open spec fn is_horizontal(s: Side) -> bool {
    s is Left || s is Right
}

/// The main-axis side that children aligned by `align` along `dir` start from.
pub open spec fn main_side(dir: Direction, align: Alignment) -> Side {
    match (dir, align) {
        (Direction::Row, Alignment::End) => Side::Right,
        (Direction::Row, _) => Side::Left,
        (Direction::Column, Alignment::End) => Side::Bottom,
        (Direction::Column, _) => Side::Top,
    }
}

/// The cross-axis side that children aligned by `align` across `dir` start from.
pub open spec fn cross_side(dir: Direction, align: Alignment) -> Side {
    match (dir, align) {
        (Direction::Row, Alignment::End) => Side::Bottom,
        (Direction::Row, _) => Side::Top,
        (Direction::Column, Alignment::End) => Side::Right,
        (Direction::Column, _) => Side::Left,
    }
}

/// A length for each side of a box: a position, a margin or a padding.
#[derive(Debug, Copy, Clone, PartialEq)]
pub struct Rect<T> {
    pub left: Dimension<T>,
    pub right: Dimension<T>,
    pub top: Dimension<T>,
    pub bottom: Dimension<T>,
}

impl<T> Default for Rect<T> {
    fn default() -> (r: Self)
        ensures
            r == Rect::<T>::spec_auto(),
    {
        Rect {
            left: Dimension::Auto,
            right: Dimension::Auto,
            top: Dimension::Auto,
            bottom: Dimension::Auto,
        }
    }
}

impl<T> Rect<T> {
    /// The rectangle with every side `Auto`.
    pub open spec fn spec_auto() -> Self {
        Rect {
            left: Dimension::Auto,
            right: Dimension::Auto,
            top: Dimension::Auto,
            bottom: Dimension::Auto,
        }
    }

    /// The length on side `s`.
    pub open spec fn at(self, s: Side) -> Dimension<T> {
        match s {
            Side::Left => self.left,
            Side::Right => self.right,
            Side::Top => self.top,
            Side::Bottom => self.bottom,
        }
    }

    /// The rectangle with side `s` set to `d`.
    pub open spec fn with(self, s: Side, d: Dimension<T>) -> Self {
        match s {
            Side::Left => Rect { left: d, ..self },
            Side::Right => Rect { right: d, ..self },
            Side::Top => Rect { top: d, ..self },
            Side::Bottom => Rect { bottom: d, ..self },
        }
    }
}


impl<T: Copy> Rect<T> {
    /// The length on the main-axis side that `align` starts from.
    pub fn main(&self, dir: Direction, align: Alignment) -> (r: Dimension<T>)
        ensures
            r == self.at(main_side(dir, align)),
    {
        match (dir, align) {
            (Direction::Row, Alignment::End) => self.right,
            (Direction::Row, _) => self.left,
            (Direction::Column, Alignment::End) => self.bottom,
            (Direction::Column, _) => self.top,
        }
    }

    /// The length on the main-axis side that `align` starts from, to be written.
    pub fn main_mut(&mut self, dir: Direction, align: Alignment) -> (r: &mut Dimension<T>)
        ensures
            *r == old(self).at(main_side(dir, align)),
            *final(self) == old(self).with(main_side(dir, align), *final(r)),
    {
        match (dir, align) {
            (Direction::Row, Alignment::End) => &mut self.right,
            (Direction::Row, _) => &mut self.left,
            (Direction::Column, Alignment::End) => &mut self.bottom,
            (Direction::Column, _) => &mut self.top,
        }
    }

    /// The length on the main-axis side that `align` ends at.
    pub fn main_reverse(&self, dir: Direction, align: Alignment) -> (r: Dimension<T>)
        ensures
            r == self.at(opposite(main_side(dir, align))),
    {
        match (dir, align) {
            (Direction::Row, Alignment::End) => self.left,
            (Direction::Row, _) => self.right,
            (Direction::Column, Alignment::End) => self.top,
            (Direction::Column, _) => self.bottom,
        }
    }

    /// The length on the cross-axis side that `align` starts from.
    pub fn cross(&self, dir: Direction, align: Alignment) -> (r: Dimension<T>)
        ensures
            r == self.at(cross_side(dir, align)),
    {
        match (dir, align) {
            (Direction::Row, Alignment::End) => self.bottom,
            (Direction::Row, _) => self.top,
            (Direction::Column, Alignment::End) => self.right,
            (Direction::Column, _) => self.left,
        }
    }

    /// The length on the cross-axis side that `align` starts from, to be written.
    pub fn cross_mut(&mut self, dir: Direction, align: Alignment) -> (r: &mut Dimension<T>)
        ensures
            *r == old(self).at(cross_side(dir, align)),
            *final(self) == old(self).with(cross_side(dir, align), *final(r)),
    {
        match (dir, align) {
            (Direction::Row, Alignment::End) => &mut self.bottom,
            (Direction::Row, _) => &mut self.top,
            (Direction::Column, Alignment::End) => &mut self.right,
            (Direction::Column, _) => &mut self.left,
        }
    }

    /// The length on the cross-axis side that `align` ends at.
    pub fn cross_reverse(&self, dir: Direction, align: Alignment) -> (r: Dimension<T>)
        ensures
            r == self.at(opposite(cross_side(dir, align))),
    {
        match (dir, align) {
            (Direction::Row, Alignment::End) => self.top,
            (Direction::Row, _) => self.bottom,
            (Direction::Column, Alignment::End) => self.left,
            (Direction::Column, _) => self.right,
        }
    }

    /// Side `s` of the merge of `self` with `other`: `self`'s when it is in
    /// pixels, `other`'s when that is in pixels and `self` pins neither side
    /// of the axis, else `self`'s.
    pub open spec fn spec_merged_side(self, other: Self, s: Side) -> Dimension<T> {
        if self.at(s) is Px {
            self.at(s)
        } else if other.at(s) is Px && !(self.at(opposite(s)) is Px) {
            other.at(s)
        } else {
            self.at(s)
        }
    }

    /// Side by side, the pixel lengths of `self`, completed by those of
    /// `other` on the axes that `self` leaves open.
    pub fn most_specific(&self, other: &Self) -> (r: Self)
        ensures
            forall|s: Side| #[trigger] r.at(s) == self.spec_merged_side(*other, s),
    {
        let top = if self.top.resolved() {
            self.top
        } else if other.top.resolved() && !self.bottom.resolved() {
            other.top
        } else {
            self.top
        };
        let bottom = if self.bottom.resolved() {
            self.bottom
        } else if other.bottom.resolved() && !self.top.resolved() {
            other.bottom
        } else {
            self.bottom
        };
        let left = if self.left.resolved() {
            self.left
        } else if other.left.resolved() && !self.right.resolved() {
            other.left
        } else {
            self.left
        };
        let right = if self.right.resolved() {
            self.right
        } else if other.right.resolved() && !self.left.resolved() {
            other.right
        } else {
            self.right
        };
        let r = Rect { top, left, bottom, right };
        assert forall|s: Side| #[trigger] r.at(s) == self.spec_merged_side(*other, s) by {
            match s {
                Side::Left => {},
                Side::Right => {},
                Side::Top => {},
                Side::Bottom => {},
            }
        }
        r
    }
}


/// Of two lengths, `most_specific` keeps the one that says more, `self` on a
/// tie, and never makes up a third.
pub proof fn lemma_most_specific_says_most<T: Copy>(a: Dimension<T>, b: Dimension<T>)
    ensures
        specificity(a.spec_most_specific(b)) == if specificity(a) >= specificity(b) {
            specificity(a)
        } else {
            specificity(b)
        },
        specificity(a) >= specificity(b) ==> a.spec_most_specific(b) == a,
        specificity(a) < specificity(b) ==> a.spec_most_specific(b) == b,
{
}

/// Merging a length, or a rectangle, with itself changes nothing.
pub proof fn lemma_most_specific_idempotent<T: Copy>(d: Dimension<T>, r: Rect<T>)
    ensures
        d.spec_most_specific(d) == d,
        forall|s: Side| #[trigger] r.spec_merged_side(r, s) == r.at(s),
{
}

/// The four sides that a direction and two alignments pick are all
/// different: the main-axis pair bounds the rectangle horizontally exactly
/// when the direction is a row, and the cross-axis pair the other way.
pub proof fn lemma_main_and_cross_sides_differ(
    dir: Direction,
    axis_alignment: Alignment,
    cross_alignment: Alignment,
)
    ensures
        is_horizontal(main_side(dir, axis_alignment)) == (dir is Row),
        is_horizontal(cross_side(dir, cross_alignment)) == (dir is Column),
        main_side(dir, axis_alignment) != opposite(main_side(dir, axis_alignment)),
        cross_side(dir, cross_alignment) != opposite(cross_side(dir, cross_alignment)),
        main_side(dir, axis_alignment) != cross_side(dir, cross_alignment),
        main_side(dir, axis_alignment) != opposite(cross_side(dir, cross_alignment)),
        opposite(main_side(dir, axis_alignment)) != cross_side(dir, cross_alignment),
        opposite(main_side(dir, axis_alignment)) != opposite(cross_side(dir, cross_alignment)),
{
}

/// Reading the rectangle that `Direction::rect` builds with `Rect::main` and
/// `Rect::cross`, under the same direction and alignments, gives back the two
/// lengths it was built from; the two sides facing them stay `Auto`.
pub proof fn lemma_rect_reads_back<T: Copy>(
    dir: Direction,
    main: Dimension<T>,
    cross: Dimension<T>,
    axis_alignment: Alignment,
    cross_alignment: Alignment,
)
    ensures
        ({
            let r = Rect::<T>::spec_auto().with(main_side(dir, axis_alignment), main).with(
                cross_side(dir, cross_alignment),
                cross,
            );
            &&& r.at(main_side(dir, axis_alignment)) == main
            &&& r.at(cross_side(dir, cross_alignment)) == cross
            &&& r.at(opposite(main_side(dir, axis_alignment))) is Auto
            &&& r.at(opposite(cross_side(dir, cross_alignment))) is Auto
        }),
{
    lemma_main_and_cross_sides_differ(dir, axis_alignment, cross_alignment);
}

/// Writing one side of a rectangle and reading it back gives what was
/// written; the other sides keep their lengths.
pub proof fn lemma_with_then_at<T>(r: Rect<T>, s: Side, t: Side, d: Dimension<T>)
    ensures
        r.with(s, d).at(t) == if s == t { d } else { r.at(t) },
{
}

/// Which side a direction and an alignment start from: only `End` starts
/// from the far side, the right of a row's main axis or the bottom of a
/// column's, and across, the bottom of a row or the right of a column; every
/// other alignment starts from the near side, left or top. Reading a
/// rectangle's main length gives that side's length, and its reverse the
/// facing side's.
pub proof fn lemma_alignment_picks_the_side<T: Copy>(r: Rect<T>, align: Alignment)
    ensures
        main_side(Direction::Row, align) == if align is End { Side::Right } else { Side::Left },
        main_side(Direction::Column, align) == if align is End { Side::Bottom } else { Side::Top },
        cross_side(Direction::Row, align) == if align is End { Side::Bottom } else { Side::Top },
        cross_side(Direction::Column, align) == if align is End { Side::Right } else { Side::Left },
        r.at(Side::Left) == r.left,
        r.at(Side::Right) == r.right,
        r.at(Side::Top) == r.top,
        r.at(Side::Bottom) == r.bottom,
{
}

} // verus!
