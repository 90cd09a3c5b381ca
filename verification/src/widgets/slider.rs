//! A horizontal slider over the values 0 to 100.
use vstd::prelude::*;

verus! {

/// The slider keeps no state of its own beyond its value.
#[derive(Debug, Default)]
pub struct SliderState {}

/// Messages that the slider's pointer sends to the slider.
#[derive(Debug, Copy, Clone, PartialEq, Eq, Structural)]
pub enum SliderMsg {
    ValueChanged(i32),
}

/// A slider showing `value`, which reports new values through `on_slide`.
/// `dirty` marks a change of its state that needs a new view.
pub struct Slider<F> {
    pub value: i32,
    pub on_slide: Option<F>,
    pub state: Option<SliderState>,
    pub dirty: bool,
}

/// The knob of a slider, drawn at `value`.
#[derive(Debug)]
pub struct Pointer {
    pub value: i32,
}

impl<F> Slider<F> {
    /// A slider at `value`, with no callback.
    pub fn new(value: i32) -> (r: Self)
        ensures
            r.value == value,
            r.on_slide is None,
            r.state is Some,
            !r.dirty,
    {
        Slider { value, on_slide: None, state: Some(SliderState {  }), dirty: false }
    }

    /// A slider at 0, with no callback.
    pub fn default() -> (r: Self)
        ensures
            r.value == 0,
            r.on_slide is None,
            r.state is Some,
            !r.dirty,
    {
        Self::new(0)
    }

    /// Sets the callback that turns a new value into a message.
    pub fn on_slide(self, f: F) -> (r: Self)
        ensures
            r.value == self.value,
            r.on_slide == Some(f),
            r.state == self.state,
            r.dirty == self.dirty,
    {
        let mut s = self;
        s.on_slide = Some(f);
        s
    }

    /// Whether the state changed since the last time this was asked; asking
    /// clears the mark.
    pub fn is_dirty(&mut self) -> (r: bool)
        ensures
            r == old(self).dirty,
            !final(self).dirty,
            final(self).value == old(self).value,
            final(self).on_slide == old(self).on_slide,
            final(self).state == old(self).state,
    {
        let d = self.dirty;
        self.dirty = false;
        d
    }

    /// The knob, drawn at the slider's value.
    pub fn pointer(&self) -> (r: Pointer)
        ensures
            r.value == self.value,
    {
        Pointer { value: self.value }
    }

    /// Handles a message from the knob: a new value goes out through the callback,
    /// if one is set.
    pub fn update<M>(&self, msg: SliderMsg) -> (r: Vec<M>) where F: Fn(i32) -> M
        requires
            self.on_slide matches Some(f) ==> call_requires(f, (msg->ValueChanged_0,)),
        ensures
            match self.on_slide {
                Some(f) => r@.len() == 1 && call_ensures(f, (msg->ValueChanged_0,), r@[0]),
                None => r@.len() == 0,
            },
    {
        let mut m: Vec<M> = Vec::new();
        match msg {
            SliderMsg::ValueChanged(value) => {
                if let Some(slide_fn) = &self.on_slide {
                    m.push(slide_fn(value));
                }
            },
        }
        m
    }
}

} // verus!
