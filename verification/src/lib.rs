//! Verified core of a retained-mode GUI toolkit: integer geometry, box
//! edges and corners, the layout's rules for choosing and addressing
//! lengths, input vocabulary, what each window input delivers to which
//! node, the fingers on a touch screen,
//! instrumentation spans, the node tree's addressing scheme, and the editing
//! state machines of the built-in widgets.
use vstd::prelude::*;

pub mod animations;
pub mod clock;
pub mod dispatch;
pub mod edges;
pub mod geometry;
pub mod input;
pub mod instrumenting;
pub mod layout;
pub mod node;
pub mod pointer;
pub mod renderer;
pub mod text;
pub mod touch;
pub mod widgets;

verus! {

} // verus!
