//! What each input of the window does: which events go to which nodes, in
//! which order, and what the toolkit remembers between inputs (buttons and
//! keys held, the focus, the node under the mouse, drags and touches).
//!
//! Delivering an event into the node tree is outside work: [`on_input`] and
//! [`on_dispatched`] hand back a [`Step`], the caller carries it out and, when
//! the step delivered an event, reports what came of it through
//! [`on_dispatched`], until a step delivers nothing. Positions are opaque
//! values of type `P`; the comparisons of distances and times that the window
//! makes are handed in as [`GeometryFacts`].
use vstd::prelude::*;

use crate::input::{Key, ModifiersHeld, MouseButton};

verus! {

/// An input from the window.
#[derive(Debug, Clone, Copy)]
pub enum InputKind<P> {
    Resize,
    MouseMotion(P),
    Scroll,
    MousePress(MouseButton),
    MouseRelease(MouseButton),
    KeyDown(Key),
    KeyUp(Key),
    TouchDown(P),
    TouchUp(P),
    TouchMoved(P),
    TouchCancel(P),
    Text,
    WindowFocus(bool),
    Timer,
    MouseLeaveWindow,
    MouseEnterWindow,
    DragStart,
    Dragging,
    DragEnd,
    DragDrop,
    Exit,
    Menu(i32),
}

/// The window's measurements for the input at hand.
#[derive(Debug, Clone, Copy)]
pub struct GeometryFacts {
    /// The pointer (or finger) is farther than the drag threshold from where the drag would start.
    pub past_drag_threshold: bool,
    /// This release (or touch) comes soon enough after, and close enough to, the last one to
    /// make a double click (or double tap).
    pub double_click: bool,
    /// The drag being ended was short enough to count as a click.
    pub short_drag: bool,
}

/// An event to deliver into the node tree.
#[derive(Debug, Clone, Copy, PartialEq)]
pub enum UiEvent<P> {
    MouseMotion,
    Scroll,
    MouseDown(MouseButton),
    MouseUp(MouseButton),
    Click(MouseButton),
    DoubleClick(MouseButton),
    MouseEnter,
    MouseLeave,
    /// A drag with this button starts, at this position.
    DragStart(MouseButton, P),
    /// A drag with this button, started at this position, goes on.
    Drag(MouseButton, P),
    /// A drag with this button, started at this position, ends.
    DragEnd(MouseButton, P),
    KeyDown(Key),
    KeyPress(Key),
    KeyUp(Key),
    TextEntry,
    TouchDown,
    TouchUp,
    TouchMotion,
    TouchCancel,
    Tap,
    DoubleTap,
    TouchDragStart(P),
    TouchDrag(P),
    TouchDragEnd(P),
    /// The window lost the focus; for the root component only.
    RootBlur,
    /// The window gained the focus; for the root component only.
    RootFocus,
    Tick,
    DragTarget,
    DragEnter,
    DragLeave,
    DragDrop,
    MenuSelect(i32),
    /// A menu selection for the root component; the messages it gives go to
    /// the node `forward_to`, if any, else to the root's own update.
    RootMenuSelect(i32, Option<u64>),
}

/// One event, the node it is aimed at (`None`: the nodes under the pointer,
/// or the whole tree), and whether the focus it asks for is then honoured.
#[derive(Debug, Clone, Copy, PartialEq)]
pub struct Dispatch<P> {
    pub event: UiEvent<P>,
    pub target: Option<u64>,
    pub focusable: bool,
}

/// What came of delivering an event.
#[derive(Debug, Clone, Copy)]
pub struct Dispatched {
    /// The node that took the event.
    pub target: Option<u64>,
    /// The node whose handler ran last.
    pub current_node: Option<u64>,
    /// The focus the event asks for: `None` to blur.
    pub focus: Option<u64>,
    /// Whether the event still bubbles.
    pub bubbles: bool,
}

/// Focus changes, in order: turn the window's text input off; blur a node; give
/// a node the focus, turning the window's text input on or off.
#[derive(Debug, Clone, Copy, PartialEq)]
pub struct FocusPlan {
    pub text_input_off: bool,
    pub blur: Option<u64>,
    pub focus: Option<(u64, bool)>,
}

/// What to do, in order: the focus changes, a further blur, forgetting what
/// is held and dragged, and the next event to deliver, if any.
#[derive(Debug, Clone, Copy, PartialEq)]
pub struct Step<P> {
    pub focus_plan: FocusPlan,
    pub blur_after: Option<u64>,
    pub cleared: bool,
    pub next: Option<Dispatch<P>>,
}

/// What the machine waits to hear about from the event it handed out.
#[derive(Debug, Clone, Copy, PartialEq)]
pub enum Pending<P> {
    Idle,
    FocusOnly,
    DragStarted(P),
    Moved,
    Left(Option<u64>),
    Entered(Option<u64>),
    Released(MouseButton, bool, bool),
    DragEnded(MouseButton, bool),
    DragEndClicked(MouseButton, Option<u64>),
    Clicked,
    KeyPressed(Key),
    TouchReleased(P, bool, bool),
    TouchDragEnded(P, bool),
    TouchDragEndClicked(P, Option<u64>),
    TouchDragStarted(P),
    TouchMoved,
    WindowLeft,
    WindowDragEnded,
    DragTargeted,
    DragLeft(Option<u64>),
    DragEntered(Option<u64>),
    Clearing,
    MenuSelected(i32),
}

/// The abstract input state.
#[verifier::ext_equal]
pub ghost struct InputModel<P> {
    pub focus: u64,
    pub root: u64,
    pub mouse_over: Option<u64>,
    pub buttons_held: Seq<MouseButton>,
    pub keys_held: Seq<Key>,
    pub mouse_position: P,
    pub drag_started: Option<P>,
    pub drag_button: Option<MouseButton>,
    pub drag_target: Option<u64>,
    pub touch_held: bool,
    pub touch_position: P,
    pub is_touch_drag: bool,
    pub touch_drag_started: Option<P>,
    pub pending: Pending<P>,
}

/// Where a drag started: `start`, or `here` when no start is recorded.
pub open spec fn started<P>(start: Option<P>, here: P) -> P {
    match start {
        Some(d) => d,
        None => here,
    }
}

/// A drag in progress knows where it started.
pub open spec fn model_wf<P>(m: InputModel<P>) -> bool {
    &&& m.drag_button is Some ==> m.drag_started is Some
    &&& m.is_touch_drag ==> m.touch_drag_started is Some
}

/// The modifier keys among the keys held.
pub open spec fn modifiers_of(keys: Seq<Key>) -> ModifiersHeld {
    ModifiersHeld {
        shift: keys.contains(Key::LShift) || keys.contains(Key::RShift),
        alt: keys.contains(Key::LAlt) || keys.contains(Key::RAlt),
        ctrl: keys.contains(Key::LCtrl) || keys.contains(Key::RCtrl),
        meta: keys.contains(Key::LMeta) || keys.contains(Key::RMeta),
    }
}

/// The button held down first, of those still held.
pub open spec fn first_held(buttons: Seq<MouseButton>) -> Option<MouseButton> {
    if buttons.len() > 0 {
        Some(buttons[0])
    } else {
        None
    }
}

/// `s` with `x` added at the end, unless already there.
pub open spec fn with_added<T>(s: Seq<T>, x: T) -> Seq<T> {
    if s.contains(x) {
        s
    } else {
        s.push(x)
    }
}

/// Whether a value differs from `x`.
pub open spec fn differs_from<T>(x: T) -> spec_fn(T) -> bool {
    |y: T| y != x
}

/// `s` without `x`.
pub open spec fn without<T>(s: Seq<T>, x: T) -> Seq<T> {
    s.filter(differs_from(x))
}

pub open spec fn no_plan() -> FocusPlan {
    FocusPlan { text_input_off: false, blur: None, focus: None }
}

/// A step that delivers nothing.
pub open spec fn done_step<P>() -> Step<P> {
    Step { focus_plan: no_plan(), blur_after: None, cleared: false, next: None }
}

/// A step that delivers `event` to `target`.
pub open spec fn sent<P>(event: UiEvent<P>, target: Option<u64>, focusable: bool) -> Step<P> {
    Step {
        focus_plan: no_plan(),
        blur_after: None,
        cleared: false,
        next: Some(Dispatch { event, target, focusable }),
    }
}

/// `step`, after the focus changes `plan`.
pub open spec fn planned<P>(plan: FocusPlan, step: Step<P>) -> Step<P> {
    Step { focus_plan: plan, ..step }
}

/// The focus an event asked for: none blurs the focused node and hands the
/// focus to the root; another node blurs the focused node and takes the
/// focus, with the window's text input on when it is not node 0; asking for
/// node 0 also turns the text input off first.
pub open spec fn focus_plan<P>(m: InputModel<P>, req: Option<u64>) -> (InputModel<P>, FocusPlan) {
    let off = req == Some(0u64);
    match req {
        None => (
            InputModel { focus: m.root, ..m },
            FocusPlan { text_input_off: off, blur: Some(m.focus), focus: None },
        ),
        Some(f) => if f != m.focus {
            (
                InputModel { focus: f, ..m },
                FocusPlan { text_input_off: off, blur: Some(m.focus), focus: Some((f, f > 0)) },
            )
        } else {
            (m, FocusPlan { text_input_off: off, blur: None, focus: None })
        },
    }
}

/// After a click that ended at `node`: a focused node other than the root
/// that was not clicked loses the focus to the root.
pub open spec fn unfocused<P>(m: InputModel<P>, node: Option<u64>) -> (InputModel<P>, Option<u64>) {
    if node != Some(m.focus) && m.focus != m.root {
        (InputModel { focus: m.root, ..m }, Some(m.focus))
    } else {
        (m, None)
    }
}

/// Forgets the buttons and keys held, the node under the mouse, and every
/// drag and touch in progress; the focus stays.
pub open spec fn cleared<P>(m: InputModel<P>) -> InputModel<P> {
    InputModel {
        mouse_over: None,
        buttons_held: Seq::empty(),
        keys_held: Seq::empty(),
        drag_started: None,
        drag_button: None,
        drag_target: None,
        touch_held: false,
        is_touch_drag: false,
        touch_drag_started: None,
        pending: Pending::Idle,
        ..m
    }
}

pub open spec fn cleared_step<P>() -> Step<P> {
    Step { cleared: true, ..done_step() }
}

/// The end of a mouse drag with `b`, whose last event ended at `node`.
pub open spec fn drag_finished<P>(m: InputModel<P>, b: MouseButton, node: Option<u64>, plan: FocusPlan) -> (InputModel<P>, Step<P>) {
    let (m1, blur) = unfocused(m, node);
    (
        InputModel {
            drag_started: None,
            drag_button: None,
            buttons_held: without(m1.buttons_held, b),
            pending: Pending::Idle,
            ..m1
        },
        Step { focus_plan: plan, blur_after: blur, ..done_step() },
    )
}

/// The end of a touch drag, the finger lifting at `pos`.
pub open spec fn touch_drag_finished<P>(m: InputModel<P>, pos: P, node: Option<u64>, plan: FocusPlan) -> (InputModel<P>, Step<P>) {
    let (m1, blur) = unfocused(m, node);
    (
        InputModel {
            touch_drag_started: None,
            is_touch_drag: false,
            touch_held: false,
            touch_position: pos,
            pending: Pending::Idle,
            ..m1
        },
        Step { focus_plan: plan, blur_after: blur, ..done_step() },
    )
}

/// What is left to do when the mouse has left the window: end a mouse drag,
/// or forget everything held.
pub open spec fn window_left<P>(m: InputModel<P>, plan: FocusPlan) -> (InputModel<P>, Step<P>) {
    match m.drag_button {
        Some(b) => (
            InputModel {
                drag_started: None,
                drag_button: None,
                pending: Pending::WindowDragEnded,
                ..m
            },
            planned(plan, sent(UiEvent::DragEnd(b, started(m.drag_started, m.mouse_position)), None, false)),
        ),
        None => (cleared(m), Step { focus_plan: plan, ..cleared_step() }),
    }
}

/// The state and step after a window input.
pub open spec fn input_step<P>(m0: InputModel<P>, input: InputKind<P>, g: GeometryFacts) -> (InputModel<P>, Step<P>) {
    let m = InputModel { pending: Pending::Idle, ..m0 };
    match input {
        InputKind::Resize => (m, done_step()),
        InputKind::MouseMotion(pos) => match first_held(m.buttons_held) {
            Some(held) => {
                let ds = match m.drag_started {
                    Some(d) => d,
                    None => m.mouse_position,
                };
                if m.drag_button is None && g.past_drag_threshold {
                    (
                        InputModel {
                            drag_started: Some(ds),
                            drag_button: Some(held),
                            pending: Pending::DragStarted(pos),
                            ..m
                        },
                        sent(UiEvent::DragStart(held, ds), None, true),
                    )
                } else {
                    (
                        InputModel {
                            drag_started: Some(ds),
                            mouse_position: pos,
                            pending: Pending::Moved,
                            ..m
                        },
                        sent(UiEvent::MouseMotion, None, false),
                    )
                }
            },
            None => (
                InputModel { mouse_position: pos, pending: Pending::Moved, ..m },
                sent(UiEvent::MouseMotion, None, false),
            ),
        },
        InputKind::Scroll => (m, sent(UiEvent::Scroll, None, false)),
        InputKind::MousePress(b) => (
            InputModel {
                buttons_held: with_added(m.buttons_held, b),
                pending: Pending::FocusOnly,
                ..m
            },
            sent(UiEvent::MouseDown(b), None, true),
        ),
        InputKind::MouseRelease(b) => (
            InputModel {
                pending: Pending::Released(b, b is Left && g.double_click, g.short_drag),
                ..m
            },
            sent(UiEvent::MouseUp(b), None, true),
        ),
        InputKind::KeyDown(k) => (
            InputModel { keys_held: with_added(m.keys_held, k), pending: Pending::FocusOnly, ..m },
            sent(UiEvent::KeyDown(k), Some(m.focus), true),
        ),
        InputKind::KeyUp(k) => if m.keys_held.contains(k) {
            (
                InputModel {
                    keys_held: without(m.keys_held, k),
                    pending: Pending::KeyPressed(k),
                    ..m
                },
                sent(UiEvent::KeyPress(k), Some(m.focus), true),
            )
        } else {
            (
                InputModel { pending: Pending::FocusOnly, ..m },
                sent(UiEvent::KeyUp(k), Some(m.focus), true),
            )
        },
        InputKind::TouchDown(pos) => (
            InputModel {
                touch_held: true,
                touch_position: pos,
                pending: Pending::FocusOnly,
                ..m
            },
            sent(UiEvent::TouchDown, None, true),
        ),
        InputKind::TouchUp(pos) => (
            InputModel {
                pending: Pending::TouchReleased(pos, g.double_click, g.short_drag),
                ..m
            },
            sent(UiEvent::TouchUp, None, true),
        ),
        InputKind::TouchMoved(pos) => if m.touch_held {
            let ds = match m.touch_drag_started {
                Some(d) => d,
                None => m.touch_position,
            };
            if !m.is_touch_drag && g.past_drag_threshold {
                (
                    InputModel {
                        touch_drag_started: Some(ds),
                        is_touch_drag: true,
                        pending: Pending::TouchDragStarted(pos),
                        ..m
                    },
                    sent(UiEvent::TouchDragStart(ds), None, true),
                )
            } else {
                (
                    InputModel {
                        touch_drag_started: Some(ds),
                        touch_position: pos,
                        pending: Pending::TouchMoved,
                        ..m
                    },
                    sent(UiEvent::TouchMotion, None, false),
                )
            }
        } else {
            (
                InputModel { touch_position: pos, pending: Pending::TouchMoved, ..m },
                sent(UiEvent::TouchMotion, None, false),
            )
        },
        InputKind::TouchCancel(pos) => (
            InputModel {
                touch_held: false,
                touch_position: pos,
                pending: Pending::FocusOnly,
                ..m
            },
            sent(UiEvent::TouchCancel, None, true),
        ),
        InputKind::Text => {
            let mods = modifiers_of(m.keys_held);
            if !mods.alt && !mods.ctrl && !mods.meta {
                (
                    InputModel { pending: Pending::FocusOnly, ..m },
                    sent(UiEvent::TextEntry, Some(m.focus), true),
                )
            } else {
                (m, done_step())
            }
        },
        InputKind::WindowFocus(gained) => if gained {
            (m, sent(UiEvent::RootFocus, Some(m.root), false))
        } else {
            (cleared(m), Step { cleared: true, ..sent(UiEvent::RootBlur, Some(m.root), false) })
        },
        InputKind::Timer => (m, sent(UiEvent::Tick, None, false)),
        InputKind::MouseLeaveWindow => match m.mouse_over {
            Some(over) => (
                InputModel { pending: Pending::WindowLeft, ..m },
                sent(UiEvent::MouseLeave, Some(over), true),
            ),
            None => window_left(m, no_plan()),
        },
        InputKind::MouseEnterWindow => (m, done_step()),
        InputKind::DragStart => (m, done_step()),
        InputKind::Dragging => (
            InputModel { pending: Pending::DragTargeted, ..m },
            sent(UiEvent::DragTarget, None, false),
        ),
        InputKind::DragEnd => match m.drag_target {
            Some(t) => (
                InputModel { pending: Pending::Clearing, ..m },
                sent(UiEvent::DragLeave, Some(t), false),
            ),
            None => (cleared(m), cleared_step()),
        },
        InputKind::DragDrop => (
            InputModel { pending: Pending::Clearing, ..m },
            sent(
                UiEvent::DragDrop,
                match m.drag_target {
                    Some(t) => Some(t),
                    None => Some(0u64),
                },
                false,
            ),
        ),
        InputKind::Exit => (m, done_step()),
        InputKind::Menu(id) => if m.focus != m.root {
            (
                InputModel { pending: Pending::MenuSelected(id), ..m },
                sent(UiEvent::MenuSelect(id), None, false),
            )
        } else {
            (m, sent(UiEvent::RootMenuSelect(id, None), None, false))
        },
    }
}

/// The state and step after the event handed out last was delivered with result `r`.
pub open spec fn dispatched_step<P>(m0: InputModel<P>, r: Dispatched) -> (InputModel<P>, Step<P>) {
    let m = InputModel { pending: Pending::Idle, ..m0 };
    match m0.pending {
        Pending::Idle => (m, done_step()),
        Pending::FocusOnly => {
            let (m1, plan) = focus_plan(m, r.focus);
            (m1, planned(plan, done_step()))
        },
        Pending::DragStarted(pos) => {
            let (m1, plan) = focus_plan(m, r.focus);
            (
                InputModel {
                    drag_target: r.target,
                    mouse_position: pos,
                    pending: Pending::Moved,
                    ..m1
                },
                planned(plan, sent(UiEvent::MouseMotion, None, false)),
            )
        },
        Pending::Moved => {
            let held = first_held(m.buttons_held);
            if held is Some && m.drag_button is Some {
                (
                    m,
                    sent(
                        UiEvent::Drag(held->0, started(m.drag_started, m.mouse_position)),
                        m.drag_target,
                        false,
                    ),
                )
            } else if r.target != m.mouse_over {
                match m.mouse_over {
                    Some(over) => (
                        InputModel { pending: Pending::Left(r.target), ..m },
                        sent(UiEvent::MouseLeave, Some(over), true),
                    ),
                    None => (
                        InputModel { pending: Pending::Entered(r.target), ..m },
                        sent(UiEvent::MouseEnter, r.target, true),
                    ),
                }
            } else {
                (m, done_step())
            }
        },
        Pending::Left(entered) => {
            let (m1, plan) = focus_plan(m, r.focus);
            match entered {
                Some(e) => (
                    InputModel { pending: Pending::Entered(entered), ..m1 },
                    planned(plan, sent(UiEvent::MouseEnter, Some(e), true)),
                ),
                None => (InputModel { mouse_over: None, ..m1 }, planned(plan, done_step())),
            }
        },
        Pending::Entered(entered) => {
            let (m1, plan) = focus_plan(m, r.focus);
            (InputModel { mouse_over: entered, ..m1 }, planned(plan, done_step()))
        },
        Pending::Released(b, double, short) => {
            let (m1, plan) = focus_plan(m, r.focus);
            if m1.drag_button == Some(b) {
                (
                    InputModel { pending: Pending::DragEnded(b, short), ..m1 },
                    planned(plan, sent(UiEvent::DragEnd(b, started(m1.drag_started, m1.mouse_position)), m1.drag_target, true)),
                )
            } else if m1.buttons_held.contains(b) {
                (
                    InputModel {
                        buttons_held: without(m1.buttons_held, b),
                        pending: Pending::Clicked,
                        ..m1
                    },
                    planned(
                        plan,
                        sent(if double { UiEvent::DoubleClick(b) } else { UiEvent::Click(b) }, None, true),
                    ),
                )
            } else {
                (m1, planned(plan, done_step()))
            }
        },
        Pending::DragEnded(b, short) => {
            let (m1, plan) = focus_plan(m, r.focus);
            if short {
                (
                    InputModel { pending: Pending::DragEndClicked(b, r.current_node), ..m1 },
                    planned(plan, sent(UiEvent::Click(b), None, true)),
                )
            } else {
                drag_finished(m1, b, r.current_node, plan)
            }
        },
        Pending::DragEndClicked(b, node) => {
            let (m1, plan) = focus_plan(m, r.focus);
            drag_finished(m1, b, node, plan)
        },
        Pending::Clicked => {
            let (m1, plan) = focus_plan(m, r.focus);
            let (m2, blur) = unfocused(m1, r.current_node);
            (m2, Step { focus_plan: plan, blur_after: blur, ..done_step() })
        },
        Pending::KeyPressed(k) => {
            let (m1, plan) = focus_plan(m, r.focus);
            (
                InputModel { pending: Pending::FocusOnly, ..m1 },
                planned(plan, sent(UiEvent::KeyUp(k), Some(m1.focus), true)),
            )
        },
        Pending::TouchReleased(pos, double, short) => {
            let (m1, plan) = focus_plan(m, r.focus);
            if m1.is_touch_drag {
                (
                    InputModel { pending: Pending::TouchDragEnded(pos, short), ..m1 },
                    planned(
                        plan,
                        sent(UiEvent::TouchDragEnd(started(m1.touch_drag_started, m1.touch_position)), m1.drag_target, true),
                    ),
                )
            } else if m1.touch_held {
                (
                    InputModel {
                        touch_held: false,
                        touch_position: pos,
                        pending: Pending::Clicked,
                        ..m1
                    },
                    planned(plan, sent(if double { UiEvent::DoubleTap } else { UiEvent::Tap }, None, true)),
                )
            } else {
                (m1, planned(plan, done_step()))
            }
        },
        Pending::TouchDragEnded(pos, short) => {
            let (m1, plan) = focus_plan(m, r.focus);
            if short {
                (
                    InputModel { pending: Pending::TouchDragEndClicked(pos, r.current_node), ..m1 },
                    planned(plan, sent(UiEvent::Click(MouseButton::Left), None, true)),
                )
            } else {
                touch_drag_finished(m1, pos, r.current_node, plan)
            }
        },
        Pending::TouchDragEndClicked(pos, node) => {
            let (m1, plan) = focus_plan(m, r.focus);
            touch_drag_finished(m1, pos, node, plan)
        },
        Pending::TouchDragStarted(pos) => {
            let (m1, plan) = focus_plan(m, r.focus);
            (
                InputModel {
                    drag_target: r.target,
                    touch_position: pos,
                    pending: Pending::TouchMoved,
                    ..m1
                },
                planned(plan, sent(UiEvent::TouchMotion, None, false)),
            )
        },
        Pending::TouchMoved => if m.touch_held && m.is_touch_drag {
            (m, sent(UiEvent::TouchDrag(started(m.touch_drag_started, m.touch_position)), m.drag_target, false))
        } else {
            (m, done_step())
        },
        Pending::WindowLeft => {
            let (m1, plan) = focus_plan(m, r.focus);
            window_left(m1, plan)
        },
        Pending::WindowDragEnded => (cleared(m), cleared_step()),
        Pending::DragTargeted => if r.target != m.drag_target {
            match m.drag_target {
                Some(t) => (
                    InputModel { pending: Pending::DragLeft(r.target), ..m },
                    sent(UiEvent::DragLeave, Some(t), false),
                ),
                None => (
                    InputModel { pending: Pending::DragEntered(r.target), ..m },
                    sent(UiEvent::DragEnter, r.target, false),
                ),
            }
        } else {
            (m, done_step())
        },
        Pending::DragLeft(entered) => match entered {
            Some(e) => (
                InputModel { pending: Pending::DragEntered(entered), ..m },
                sent(UiEvent::DragEnter, Some(e), false),
            ),
            None => (InputModel { drag_target: None, ..m }, done_step()),
        },
        Pending::DragEntered(entered) => (InputModel { drag_target: entered, ..m }, done_step()),
        Pending::Clearing => (cleared(m), cleared_step()),
        Pending::MenuSelected(id) => if r.bubbles {
            (m, sent(UiEvent::RootMenuSelect(id, Some(m.focus)), None, false))
        } else {
            (m, done_step())
        },
    }
}


fn contains_button(v: &Vec<MouseButton>, b: MouseButton) -> (r: bool)
    ensures
        r == v@.contains(b),
{
    let mut i: usize = 0;
    while i < v.len()
        invariant
            i <= v@.len(),
            forall|j: int| 0 <= j < i ==> v@[j] != b,
        decreases v@.len() - i,
    {
        if v[i] == b {
            return true;
        }
        i = i + 1;
    }
    false
}

fn contains_key(v: &Vec<Key>, k: Key) -> (r: bool)
    ensures
        r == v@.contains(k),
{
    let mut i: usize = 0;
    while i < v.len()
        invariant
            i <= v@.len(),
            forall|j: int| 0 <= j < i ==> v@[j] != k,
        decreases v@.len() - i,
    {
        if v[i] == k {
            return true;
        }
        i = i + 1;
    }
    false
}

fn button_removed(v: &Vec<MouseButton>, b: MouseButton) -> (r: Vec<MouseButton>)
    ensures
        r@ == without(v@, b),
{
    let ghost pred = differs_from(b);
    let mut r: Vec<MouseButton> = Vec::new();
    let mut i: usize = 0;
    while i < v.len()
        invariant
            i <= v@.len(),
            pred == differs_from(b),
            r@ == v@.take(i as int).filter(pred),
        decreases v@.len() - i,
    {
        proof {
            assert(v@.take(i + 1) =~= v@.take(i as int).push(v@[i as int]));
            v@.take(i as int).lemma_filter_push(v@[i as int], pred);
        }
        if v[i] != b {
            r.push(v[i]);
        }
        i = i + 1;
    }
    proof {
        assert(v@.take(v@.len() as int) =~= v@);
    }
    r
}

fn key_removed(v: &Vec<Key>, k: Key) -> (r: Vec<Key>)
    ensures
        r@ == without(v@, k),
{
    let ghost pred = differs_from(k);
    let mut r: Vec<Key> = Vec::new();
    let mut i: usize = 0;
    while i < v.len()
        invariant
            i <= v@.len(),
            pred == differs_from(k),
            r@ == v@.take(i as int).filter(pred),
        decreases v@.len() - i,
    {
        proof {
            assert(v@.take(i + 1) =~= v@.take(i as int).push(v@[i as int]));
            v@.take(i as int).lemma_filter_push(v@[i as int], pred);
        }
        if v[i] != k {
            r.push(v[i]);
        }
        i = i + 1;
    }
    proof {
        assert(v@.take(v@.len() as int) =~= v@);
    }
    r
}

/// The modifier keys among `keys`.
pub fn held_modifiers(keys: &Vec<Key>) -> (r: ModifiersHeld)
    ensures
        r == modifiers_of(keys@),
{
    ModifiersHeld {
        shift: contains_key(keys, Key::LShift) || contains_key(keys, Key::RShift),
        alt: contains_key(keys, Key::LAlt) || contains_key(keys, Key::RAlt),
        ctrl: contains_key(keys, Key::LCtrl) || contains_key(keys, Key::RCtrl),
        meta: contains_key(keys, Key::LMeta) || contains_key(keys, Key::RMeta),
    }
}


/// What the toolkit remembers between inputs.
pub struct InputState<P> {
    focus: u64,
    root: u64,
    mouse_over: Option<u64>,
    buttons_held: Vec<MouseButton>,
    keys_held: Vec<Key>,
    mouse_position: P,
    drag_started: Option<P>,
    drag_button: Option<MouseButton>,
    drag_target: Option<u64>,
    touch_held: bool,
    touch_position: P,
    is_touch_drag: bool,
    touch_drag_started: Option<P>,
    pending: Pending<P>,
}

fn done<P>() -> (r: Step<P>)
    ensures
        r == done_step::<P>(),
{
    Step {
        focus_plan: FocusPlan { text_input_off: false, blur: None, focus: None },
        blur_after: None,
        cleared: false,
        next: None,
    }
}

fn send<P>(event: UiEvent<P>, target: Option<u64>, focusable: bool) -> (r: Step<P>)
    ensures
        r == sent(event, target, focusable),
{
    Step {
        focus_plan: FocusPlan { text_input_off: false, blur: None, focus: None },
        blur_after: None,
        cleared: false,
        next: Some(Dispatch { event, target, focusable }),
    }
}

impl<P: Copy> InputState<P> {
    /// The abstract state.
    pub closed spec fn view(&self) -> InputModel<P> {
        InputModel {
            focus: self.focus,
            root: self.root,
            mouse_over: self.mouse_over,
            buttons_held: self.buttons_held@,
            keys_held: self.keys_held@,
            mouse_position: self.mouse_position,
            drag_started: self.drag_started,
            drag_button: self.drag_button,
            drag_target: self.drag_target,
            touch_held: self.touch_held,
            touch_position: self.touch_position,
            is_touch_drag: self.is_touch_drag,
            touch_drag_started: self.touch_drag_started,
            pending: self.pending,
        }
    }

    /// Nothing held, nothing under the mouse, the root node `root` focused, the
    /// pointer and the last touch at `position`.
    pub fn new(root: u64, position: P) -> (r: Self)
        ensures
            r@ == (InputModel {
                focus: root,
                root,
                mouse_over: None,
                buttons_held: Seq::empty(),
                keys_held: Seq::empty(),
                mouse_position: position,
                drag_started: None,
                drag_button: None,
                drag_target: None,
                touch_held: false,
                touch_position: position,
                is_touch_drag: false,
                touch_drag_started: None,
                pending: Pending::Idle,
            }),
            model_wf(r@),
    {
        InputState {
            focus: root,
            root,
            mouse_over: None,
            buttons_held: Vec::new(),
            keys_held: Vec::new(),
            mouse_position: position,
            drag_started: None,
            drag_button: None,
            drag_target: None,
            touch_held: false,
            touch_position: position,
            is_touch_drag: false,
            touch_drag_started: None,
            pending: Pending::Idle,
        }
    }

    /// The focused node.
    pub fn focus(&self) -> (r: u64)
        ensures
            r == self@.focus,
    {
        self.focus
    }

    /// The last pointer position.
    pub fn mouse_position(&self) -> (r: P)
        ensures
            r == self@.mouse_position,
    {
        self.mouse_position
    }

    /// Where the pointer was when a button went down, if one is held.
    pub fn drag_started(&self) -> (r: Option<P>)
        ensures
            r == self@.drag_started,
    {
        self.drag_started
    }

    /// The last touch position.
    pub fn touch_position(&self) -> (r: P)
        ensures
            r == self@.touch_position,
    {
        self.touch_position
    }

    /// Where the finger was when it started moving, if it is down.
    pub fn touch_drag_started(&self) -> (r: Option<P>)
        ensures
            r == self@.touch_drag_started,
    {
        self.touch_drag_started
    }

    /// The modifier keys held.
    pub fn modifiers(&self) -> (r: ModifiersHeld)
        ensures
            r == modifiers_of(self@.keys_held),
    {
        held_modifiers(&self.keys_held)
    }

    fn apply_focus(&mut self, req: Option<u64>) -> (plan: FocusPlan)
        ensures
            (final(self)@, plan) == focus_plan(old(self)@, req),
    {
        let off = req == Some(0u64);
        match req {
            None => {
                let old_focus = self.focus;
                self.focus = self.root;
                FocusPlan { text_input_off: off, blur: Some(old_focus), focus: None }
            },
            Some(f) => {
                if f != self.focus {
                    let old_focus = self.focus;
                    self.focus = f;
                    FocusPlan { text_input_off: off, blur: Some(old_focus), focus: Some((f, f > 0)) }
                } else {
                    FocusPlan { text_input_off: off, blur: None, focus: None }
                }
            },
        }
    }

    fn unfocus(&mut self, node: Option<u64>) -> (r: Option<u64>)
        ensures
            (final(self)@, r) == unfocused(old(self)@, node),
    {
        if node != Some(self.focus) && self.focus != self.root {
            let old_focus = self.focus;
            self.focus = self.root;
            Some(old_focus)
        } else {
            None
        }
    }

    fn clear(&mut self)
        ensures
            final(self)@ == cleared(old(self)@),
    {
        self.mouse_over = None;
        self.buttons_held = Vec::new();
        self.keys_held = Vec::new();
        self.drag_started = None;
        self.drag_button = None;
        self.drag_target = None;
        self.touch_held = false;
        self.is_touch_drag = false;
        self.touch_drag_started = None;
        self.pending = Pending::Idle;
    }

    fn finish_drag(&mut self, b: MouseButton, node: Option<u64>, plan: FocusPlan) -> (r: Step<P>)
        ensures
            (final(self)@, r) == drag_finished(old(self)@, b, node, plan),
    {
        let blur = self.unfocus(node);
        self.drag_started = None;
        self.drag_button = None;
        self.buttons_held = button_removed(&self.buttons_held, b);
        self.pending = Pending::Idle;
        Step { focus_plan: plan, blur_after: blur, cleared: false, next: None }
    }

    fn finish_touch_drag(&mut self, pos: P, node: Option<u64>, plan: FocusPlan) -> (r: Step<P>)
        ensures
            (final(self)@, r) == touch_drag_finished(old(self)@, pos, node, plan),
    {
        let blur = self.unfocus(node);
        self.touch_drag_started = None;
        self.is_touch_drag = false;
        self.touch_held = false;
        self.touch_position = pos;
        self.pending = Pending::Idle;
        Step { focus_plan: plan, blur_after: blur, cleared: false, next: None }
    }

    fn leave_window(&mut self, plan: FocusPlan) -> (r: Step<P>)
        ensures
            (final(self)@, r) == window_left(old(self)@, plan),
    {
        match self.drag_button {
            Some(b) => {
                let start = match self.drag_started {
                    Some(d) => d,
                    None => self.mouse_position,
                };
                self.drag_started = None;
                self.drag_button = None;
                self.pending = Pending::WindowDragEnded;
                let mut st = send(UiEvent::DragEnd(b, start), None, false);
                st.focus_plan = plan;
                st
            },
            None => {
                self.clear();
                Step { focus_plan: plan, blur_after: None, cleared: true, next: None }
            },
        }
    }
}


/// Takes in one input of the window: updates what is held and hands back the
/// first thing to do (see [`input_step`]).
pub fn on_input<P: Copy>(s: &mut InputState<P>, input: InputKind<P>, geometry: GeometryFacts) -> (r: Step<P>)
    ensures
        (final(s)@, r) == input_step(old(s)@, input, geometry),
{
    s.pending = Pending::Idle;
    match input {
        InputKind::Resize => done(),
        InputKind::MouseMotion(pos) => {
            if s.buttons_held.len() > 0 {
                let held = s.buttons_held[0];
                let ds = match s.drag_started {
                    Some(d) => d,
                    None => s.mouse_position,
                };
                s.drag_started = Some(ds);
                if s.drag_button.is_none() && geometry.past_drag_threshold {
                    s.drag_button = Some(held);
                    s.pending = Pending::DragStarted(pos);
                    send(UiEvent::DragStart(held, ds), None, true)
                } else {
                    s.mouse_position = pos;
                    s.pending = Pending::Moved;
                    send(UiEvent::MouseMotion, None, false)
                }
            } else {
                s.mouse_position = pos;
                s.pending = Pending::Moved;
                send(UiEvent::MouseMotion, None, false)
            }
        },
        InputKind::Scroll => send(UiEvent::Scroll, None, false),
        InputKind::MousePress(b) => {
            if !contains_button(&s.buttons_held, b) {
                s.buttons_held.push(b);
            }
            s.pending = Pending::FocusOnly;
            send(UiEvent::MouseDown(b), None, true)
        },
        InputKind::MouseRelease(b) => {
            let double = match b {
                MouseButton::Left => geometry.double_click,
                _ => false,
            };
            s.pending = Pending::Released(b, double, geometry.short_drag);
            send(UiEvent::MouseUp(b), None, true)
        },
        InputKind::KeyDown(k) => {
            if !contains_key(&s.keys_held, k) {
                s.keys_held.push(k);
            }
            s.pending = Pending::FocusOnly;
            send(UiEvent::KeyDown(k), Some(s.focus), true)
        },
        InputKind::KeyUp(k) => {
            if contains_key(&s.keys_held, k) {
                s.keys_held = key_removed(&s.keys_held, k);
                s.pending = Pending::KeyPressed(k);
                send(UiEvent::KeyPress(k), Some(s.focus), true)
            } else {
                s.pending = Pending::FocusOnly;
                send(UiEvent::KeyUp(k), Some(s.focus), true)
            }
        },
        InputKind::TouchDown(pos) => {
            s.touch_held = true;
            s.touch_position = pos;
            s.pending = Pending::FocusOnly;
            send(UiEvent::TouchDown, None, true)
        },
        InputKind::TouchUp(pos) => {
            s.pending = Pending::TouchReleased(pos, geometry.double_click, geometry.short_drag);
            send(UiEvent::TouchUp, None, true)
        },
        InputKind::TouchMoved(pos) => {
            if s.touch_held {
                let ds = match s.touch_drag_started {
                    Some(d) => d,
                    None => s.touch_position,
                };
                s.touch_drag_started = Some(ds);
                if !s.is_touch_drag && geometry.past_drag_threshold {
                    s.is_touch_drag = true;
                    s.pending = Pending::TouchDragStarted(pos);
                    send(UiEvent::TouchDragStart(ds), None, true)
                } else {
                    s.touch_position = pos;
                    s.pending = Pending::TouchMoved;
                    send(UiEvent::TouchMotion, None, false)
                }
            } else {
                s.touch_position = pos;
                s.pending = Pending::TouchMoved;
                send(UiEvent::TouchMotion, None, false)
            }
        },
        InputKind::TouchCancel(pos) => {
            s.touch_held = false;
            s.touch_position = pos;
            s.pending = Pending::FocusOnly;
            send(UiEvent::TouchCancel, None, true)
        },
        InputKind::Text => {
            let mods = held_modifiers(&s.keys_held);
            if !mods.alt && !mods.ctrl && !mods.meta {
                s.pending = Pending::FocusOnly;
                send(UiEvent::TextEntry, Some(s.focus), true)
            } else {
                done()
            }
        },
        InputKind::WindowFocus(gained) => {
            if gained {
                send(UiEvent::RootFocus, Some(s.root), false)
            } else {
                s.clear();
                let mut st = send(UiEvent::RootBlur, Some(s.root), false);
                st.cleared = true;
                st
            }
        },
        InputKind::Timer => send(UiEvent::Tick, None, false),
        InputKind::MouseLeaveWindow => match s.mouse_over {
            Some(over) => {
                s.pending = Pending::WindowLeft;
                send(UiEvent::MouseLeave, Some(over), true)
            },
            None => s.leave_window(FocusPlan { text_input_off: false, blur: None, focus: None }),
        },
        InputKind::MouseEnterWindow => done(),
        InputKind::DragStart => done(),
        InputKind::Dragging => {
            s.pending = Pending::DragTargeted;
            send(UiEvent::DragTarget, None, false)
        },
        InputKind::DragEnd => match s.drag_target {
            Some(t) => {
                s.pending = Pending::Clearing;
                send(UiEvent::DragLeave, Some(t), false)
            },
            None => {
                s.clear();
                Step {
                    focus_plan: FocusPlan { text_input_off: false, blur: None, focus: None },
                    blur_after: None,
                    cleared: true,
                    next: None,
                }
            },
        },
        InputKind::DragDrop => {
            let target = match s.drag_target {
                Some(t) => Some(t),
                None => Some(0u64),
            };
            s.pending = Pending::Clearing;
            send(UiEvent::DragDrop, target, false)
        },
        InputKind::Exit => done(),
        InputKind::Menu(id) => {
            if s.focus != s.root {
                s.pending = Pending::MenuSelected(id);
                send(UiEvent::MenuSelect(id), None, false)
            } else {
                send(UiEvent::RootMenuSelect(id, None), None, false)
            }
        },
    }
}


/// Takes in what came of delivering the event that the last step handed out,
/// and hands back the next thing to do (see [`dispatched_step`]).
#[verifier::rlimit(100)]
#[verifier::spinoff_prover]
pub fn on_dispatched<P: Copy>(s: &mut InputState<P>, result: Dispatched) -> (r: Step<P>)
    ensures
        (final(s)@, r) == dispatched_step(old(s)@, result),
{
    let pending = s.pending;
    s.pending = Pending::Idle;
    match pending {
        Pending::Idle => done(),
        Pending::FocusOnly => {
            let plan = s.apply_focus(result.focus);
            let mut st = done();
            st.focus_plan = plan;
            st
        },
        Pending::DragStarted(pos) => {
            let plan = s.apply_focus(result.focus);
            s.drag_target = result.target;
            s.mouse_position = pos;
            s.pending = Pending::Moved;
            let mut st = send(UiEvent::MouseMotion, None, false);
            st.focus_plan = plan;
            st
        },
        Pending::Moved => {
            if s.buttons_held.len() > 0 && s.drag_button.is_some() {
                let held = s.buttons_held[0];
                let start = match s.drag_started {
                    Some(d) => d,
                    None => s.mouse_position,
                };
                send(UiEvent::Drag(held, start), s.drag_target, false)
            } else if result.target != s.mouse_over {
                match s.mouse_over {
                    Some(over) => {
                        s.pending = Pending::Left(result.target);
                        send(UiEvent::MouseLeave, Some(over), true)
                    },
                    None => {
                        s.pending = Pending::Entered(result.target);
                        send(UiEvent::MouseEnter, result.target, true)
                    },
                }
            } else {
                done()
            }
        },
        Pending::Left(entered) => {
            let plan = s.apply_focus(result.focus);
            match entered {
                Some(e) => {
                    s.pending = Pending::Entered(entered);
                    let mut st = send(UiEvent::MouseEnter, Some(e), true);
                    st.focus_plan = plan;
                    st
                },
                None => {
                    s.mouse_over = None;
                    let mut st = done();
                    st.focus_plan = plan;
                    st
                },
            }
        },
        Pending::Entered(entered) => {
            let plan = s.apply_focus(result.focus);
            s.mouse_over = entered;
            let mut st = done();
            st.focus_plan = plan;
            st
        },
        Pending::Released(b, double, short) => {
            let plan = s.apply_focus(result.focus);
            if s.drag_button == Some(b) {
                let start = match s.drag_started {
                    Some(d) => d,
                    None => s.mouse_position,
                };
                s.pending = Pending::DragEnded(b, short);
                let mut st = send(UiEvent::DragEnd(b, start), s.drag_target, true);
                st.focus_plan = plan;
                st
            } else if contains_button(&s.buttons_held, b) {
                s.buttons_held = button_removed(&s.buttons_held, b);
                s.pending = Pending::Clicked;
                let event = if double {
                    UiEvent::DoubleClick(b)
                } else {
                    UiEvent::Click(b)
                };
                let mut st = send(event, None, true);
                st.focus_plan = plan;
                st
            } else {
                let mut st = done();
                st.focus_plan = plan;
                st
            }
        },
        Pending::DragEnded(b, short) => {
            let plan = s.apply_focus(result.focus);
            if short {
                s.pending = Pending::DragEndClicked(b, result.current_node);
                let mut st = send(UiEvent::Click(b), None, true);
                st.focus_plan = plan;
                st
            } else {
                s.finish_drag(b, result.current_node, plan)
            }
        },
        Pending::DragEndClicked(b, node) => {
            let plan = s.apply_focus(result.focus);
            s.finish_drag(b, node, plan)
        },
        Pending::Clicked => {
            let plan = s.apply_focus(result.focus);
            let blur = s.unfocus(result.current_node);
            Step { focus_plan: plan, blur_after: blur, cleared: false, next: None }
        },
        Pending::KeyPressed(k) => {
            let plan = s.apply_focus(result.focus);
            s.pending = Pending::FocusOnly;
            let mut st = send(UiEvent::KeyUp(k), Some(s.focus), true);
            st.focus_plan = plan;
            st
        },
        Pending::TouchReleased(pos, double, short) => {
            let plan = s.apply_focus(result.focus);
            if s.is_touch_drag {
                let start = match s.touch_drag_started {
                    Some(d) => d,
                    None => s.touch_position,
                };
                s.pending = Pending::TouchDragEnded(pos, short);
                let mut st = send(UiEvent::TouchDragEnd(start), s.drag_target, true);
                st.focus_plan = plan;
                st
            } else if s.touch_held {
                s.touch_held = false;
                s.touch_position = pos;
                s.pending = Pending::Clicked;
                let event = if double {
                    UiEvent::DoubleTap
                } else {
                    UiEvent::Tap
                };
                let mut st = send(event, None, true);
                st.focus_plan = plan;
                st
            } else {
                let mut st = done();
                st.focus_plan = plan;
                st
            }
        },
        Pending::TouchDragEnded(pos, short) => {
            let plan = s.apply_focus(result.focus);
            if short {
                s.pending = Pending::TouchDragEndClicked(pos, result.current_node);
                let mut st = send(UiEvent::Click(MouseButton::Left), None, true);
                st.focus_plan = plan;
                st
            } else {
                s.finish_touch_drag(pos, result.current_node, plan)
            }
        },
        Pending::TouchDragEndClicked(pos, node) => {
            let plan = s.apply_focus(result.focus);
            s.finish_touch_drag(pos, node, plan)
        },
        Pending::TouchDragStarted(pos) => {
            let plan = s.apply_focus(result.focus);
            s.drag_target = result.target;
            s.touch_position = pos;
            s.pending = Pending::TouchMoved;
            let mut st = send(UiEvent::TouchMotion, None, false);
            st.focus_plan = plan;
            st
        },
        Pending::TouchMoved => {
            if s.touch_held && s.is_touch_drag {
                let start = match s.touch_drag_started {
                    Some(d) => d,
                    None => s.touch_position,
                };
                send(UiEvent::TouchDrag(start), s.drag_target, false)
            } else {
                done()
            }
        },
        Pending::WindowLeft => {
            let plan = s.apply_focus(result.focus);
            s.leave_window(plan)
        },
        Pending::WindowDragEnded => {
            s.clear();
            Step {
                focus_plan: FocusPlan { text_input_off: false, blur: None, focus: None },
                blur_after: None,
                cleared: true,
                next: None,
            }
        },
        Pending::DragTargeted => {
            if result.target != s.drag_target {
                match s.drag_target {
                    Some(t) => {
                        s.pending = Pending::DragLeft(result.target);
                        send(UiEvent::DragLeave, Some(t), false)
                    },
                    None => {
                        s.pending = Pending::DragEntered(result.target);
                        send(UiEvent::DragEnter, result.target, false)
                    },
                }
            } else {
                done()
            }
        },
        Pending::DragLeft(entered) => match entered {
            Some(e) => {
                s.pending = Pending::DragEntered(entered);
                send(UiEvent::DragEnter, Some(e), false)
            },
            None => {
                s.drag_target = None;
                done()
            },
        },
        Pending::DragEntered(entered) => {
            s.drag_target = entered;
            done()
        },
        Pending::Clearing => {
            s.clear();
            Step {
                focus_plan: FocusPlan { text_input_off: false, blur: None, focus: None },
                blur_after: None,
                cleared: true,
                next: None,
            }
        },
        Pending::MenuSelected(id) => {
            if result.bubbles {
                send(UiEvent::RootMenuSelect(id, Some(s.focus)), None, false)
            } else {
                done()
            }
        },
    }
}


/// A key press goes out only when a key comes up that had gone down and was
/// still held; it goes to the focused node. A key that goes down is held
/// until it comes up. No delivery result ever leads to a key press.
pub proof fn lemma_key_press_needs_key_held<P>(
    m: InputModel<P>,
    input: InputKind<P>,
    g: GeometryFacts,
    r: Dispatched,
    k: Key,
)
    ensures
        input_step(m, input, g).1.next matches Some(d) ==> (d.event == UiEvent::<P>::KeyPress(k)
            ==> input == InputKind::<P>::KeyUp(k) && m.keys_held.contains(k) && d.target == Some(
            m.focus,
        )),
        input == InputKind::<P>::KeyDown(k) ==> input_step(m, input, g).0.keys_held.contains(k),
        input == InputKind::<P>::KeyUp(k) ==> !input_step(m, input, g).0.keys_held.contains(k),
        !(dispatched_step(m, r).1.next matches Some(d) && d.event is KeyPress),
{
    if input == InputKind::<P>::KeyDown(k) {
        if !m.keys_held.contains(k) {
            assert(m.keys_held.push(k)[m.keys_held.len() as int] == k);
        }
    }
    if input == InputKind::<P>::KeyUp(k) {
        let w = without(m.keys_held, k);
        if w.contains(k) {
            let i = choose|i: int| 0 <= i < w.len() && w[i] == k;
            m.keys_held.lemma_filter_pred(differs_from(k), i);
        }
    }
}

/// Text is entered only while neither Alt, Ctrl nor Meta is held, and then
/// goes to the focused node. No delivery result ever leads to text entry.
pub proof fn lemma_text_entry_without_command_keys<P>(
    m: InputModel<P>,
    input: InputKind<P>,
    g: GeometryFacts,
    r: Dispatched,
)
    ensures
        input_step(m, input, g).1.next matches Some(d) ==> (d.event is TextEntry ==> {
            &&& input is Text
            &&& !modifiers_of(m.keys_held).alt
            &&& !modifiers_of(m.keys_held).ctrl
            &&& !modifiers_of(m.keys_held).meta
            &&& d.target == Some(m.focus)
        }),
        input is Text && !modifiers_of(m.keys_held).alt && !modifiers_of(m.keys_held).ctrl
            && !modifiers_of(m.keys_held).meta ==> input_step(m, input, g).1.next is Some,
        !(dispatched_step(m, r).1.next matches Some(d) && d.event is TextEntry),
{
}

/// After a click (or tap), or a drag that ends away from a short click: once
/// the focus the event asked for is granted, a focused node other than the
/// root that the click did not end at is blurred, and the root takes the focus.
pub proof fn lemma_click_elsewhere_blurs<P>(m: InputModel<P>, r: Dispatched)
    requires
        m.pending is Clicked || (m.pending matches Pending::DragEnded(_, short) && !short)
            || m.pending is DragEndClicked,
    ensures
        ({
            let (m1, _) = focus_plan(InputModel { pending: Pending::Idle, ..m }, r.focus);
            let node = match m.pending {
                Pending::DragEndClicked(_, n) => n,
                _ => r.current_node,
            };
            let (m2, step) = dispatched_step(m, r);
            if node != Some(m1.focus) && m1.focus != m1.root {
                step.blur_after == Some(m1.focus) && m2.focus == m1.root
            } else {
                step.blur_after is None && m2.focus == m1.focus
            }
        }),
{
}

/// A double click goes out for a release only of the left button, when the
/// window reports a double click, no drag with that button is ending, and the
/// button was held.
pub proof fn lemma_double_click_only_left<P>(
    m: InputModel<P>,
    b: MouseButton,
    g: GeometryFacts,
    r: Dispatched,
)
    ensures
        ({
            let (m1, _) = input_step(m, InputKind::MouseRelease(b), g);
            dispatched_step(m1, r).1.next matches Some(d) ==> (d.event == UiEvent::<P>::DoubleClick(
                b,
            ) ==> b is Left && g.double_click)
        }),
{
}

/// Every input and every delivery result keeps a drag in progress knowing
/// where it started.
pub proof fn lemma_drags_know_their_start<P>(
    m: InputModel<P>,
    input: InputKind<P>,
    g: GeometryFacts,
    r: Dispatched,
)
    requires
        model_wf(m),
    ensures
        model_wf(input_step(m, input, g).0),
        model_wf(dispatched_step(m, r).0),
{
}

/// A scroll goes to the nodes under the pointer, whichever node has the
/// focus: it hands out exactly one `Scroll` event with no target, asks for no
/// focus change, and leaves all that is remembered as it was.
pub proof fn lemma_scroll_goes_under_the_pointer<P>(m: InputModel<P>, g: GeometryFacts)
    ensures
        input_step(m, InputKind::<P>::Scroll, g).1 == (Step::<P> {
            focus_plan: FocusPlan { text_input_off: false, blur: None, focus: None },
            blur_after: None,
            cleared: false,
            next: Some(Dispatch { event: UiEvent::<P>::Scroll, target: None, focusable: false }),
        }),
        input_step(m, InputKind::<P>::Scroll, g).0 == (InputModel { pending: Pending::<P>::Idle, ..m }),
{
}

/// Presses, releases, touches, timer ticks and outside drags moving over the
/// window go to the nodes under the pointer (no target); a press, a release
/// and a touch may move the focus, the others may not. A press leaves its
/// button held; a touch leaves a finger held where it touched.
pub proof fn lemma_pointer_events_have_no_target<P>(m: InputModel<P>, g: GeometryFacts, b: MouseButton, pos: P)
    ensures
        input_step(m, InputKind::<P>::MousePress(b), g).1.next == Some(
            Dispatch { event: UiEvent::<P>::MouseDown(b), target: None, focusable: true },
        ),
        input_step(m, InputKind::<P>::MousePress(b), g).0.buttons_held.contains(b),
        input_step(m, InputKind::<P>::MouseRelease(b), g).1.next == Some(
            Dispatch { event: UiEvent::<P>::MouseUp(b), target: None, focusable: true },
        ),
        input_step(m, InputKind::<P>::TouchDown(pos), g).1.next == Some(
            Dispatch { event: UiEvent::<P>::TouchDown, target: None, focusable: true },
        ),
        input_step(m, InputKind::<P>::TouchDown(pos), g).0.touch_held,
        input_step(m, InputKind::<P>::TouchDown(pos), g).0.touch_position == pos,
        input_step(m, InputKind::<P>::TouchUp(pos), g).1.next == Some(
            Dispatch { event: UiEvent::<P>::TouchUp, target: None, focusable: true },
        ),
        input_step(m, InputKind::<P>::TouchCancel(pos), g).1.next == Some(
            Dispatch { event: UiEvent::<P>::TouchCancel, target: None, focusable: true },
        ),
        !input_step(m, InputKind::<P>::TouchCancel(pos), g).0.touch_held,
        input_step(m, InputKind::<P>::Timer, g).1.next == Some(
            Dispatch { event: UiEvent::<P>::Tick, target: None, focusable: false },
        ),
        input_step(m, InputKind::<P>::Dragging, g).1.next == Some(
            Dispatch { event: UiEvent::<P>::DragTarget, target: None, focusable: false },
        ),
{
    if !m.buttons_held.contains(b) {
        assert(m.buttons_held.push(b)[m.buttons_held.len() as int] == b);
    }
}

/// A key going down goes to the focused node, and so does a key coming up
/// that was not held; the window gaining or losing the focus is told to the
/// root alone, and losing it forgets all that is held, dragged and touched
/// while the focus stays. Resizing, the mouse coming back into the window,
/// an outside drag starting and exiting hand out nothing and change nothing.
pub proof fn lemma_keys_and_window_events<P>(m: InputModel<P>, g: GeometryFacts, k: Key)
    ensures
        input_step(m, InputKind::<P>::KeyDown(k), g).1.next == Some(
            Dispatch { event: UiEvent::<P>::KeyDown(k), target: Some(m.focus), focusable: true },
        ),
        !m.keys_held.contains(k) ==> input_step(m, InputKind::<P>::KeyUp(k), g).1.next == Some(
            Dispatch { event: UiEvent::<P>::KeyUp(k), target: Some(m.focus), focusable: true },
        ),
        input_step(m, InputKind::<P>::WindowFocus(true), g).1.next == Some(
            Dispatch { event: UiEvent::<P>::RootFocus, target: Some(m.root), focusable: false },
        ),
        input_step(m, InputKind::<P>::WindowFocus(false), g).1.next == Some(
            Dispatch { event: UiEvent::<P>::RootBlur, target: Some(m.root), focusable: false },
        ),
        input_step(m, InputKind::<P>::WindowFocus(false), g).1.cleared,
        ({
            let m1 = input_step(m, InputKind::<P>::WindowFocus(false), g).0;
            &&& m1.focus == m.focus
            &&& m1.buttons_held.len() == 0
            &&& m1.keys_held.len() == 0
            &&& m1.mouse_over is None
            &&& m1.drag_button is None
            &&& m1.drag_target is None
            &&& !m1.touch_held
            &&& !m1.is_touch_drag
        }),
        input_step(m, InputKind::<P>::Resize, g).1.next is None,
        input_step(m, InputKind::<P>::MouseEnterWindow, g).1.next is None,
        input_step(m, InputKind::<P>::DragStart, g).1.next is None,
        input_step(m, InputKind::<P>::Exit, g).1.next is None,
        input_step(m, InputKind::<P>::Resize, g).0 == (InputModel { pending: Pending::<P>::Idle, ..m }),
{
}

/// A finger lifted without a touch drag, while a finger was held, taps: once
/// the release has been delivered, the next event is a `Tap` to the nodes
/// under the finger unless the window reported a double tap, and a
/// `DoubleTap` only when it did. A touch drag being ended instead ends the
/// drag at its drop target. Nothing else ever hands out a tap.
pub proof fn lemma_lifting_a_finger_taps<P>(
    m: InputModel<P>,
    pos: P,
    g: GeometryFacts,
    r: Dispatched,
    input: InputKind<P>,
    r2: Dispatched,
)
    ensures
        ({
            let m1 = input_step(m, InputKind::<P>::TouchUp(pos), g).0;
            let s2 = dispatched_step(m1, r).1;
            &&& m.touch_held && !m.is_touch_drag && !g.double_click ==> s2.next == Some(
                Dispatch { event: UiEvent::<P>::Tap, target: None, focusable: true },
            )
            &&& m.touch_held && !m.is_touch_drag && g.double_click ==> s2.next == Some(
                Dispatch { event: UiEvent::<P>::DoubleTap, target: None, focusable: true },
            )
            &&& m.touch_held && !m.is_touch_drag ==> !dispatched_step(m1, r).0.touch_held
            &&& m.is_touch_drag ==> s2.next == Some(
                Dispatch {
                    event: UiEvent::<P>::TouchDragEnd(started(m.touch_drag_started, m.touch_position)),
                    target: m.drag_target,
                    focusable: true,
                },
            )
        }),
        !(input_step(m, input, g).1.next matches Some(d) && (d.event is Tap || d.event is DoubleTap)),
        dispatched_step(m, r2).1.next matches Some(d) ==> (d.event is DoubleTap ==> (
            m.pending matches Pending::TouchReleased(_, double, _) && double)),
        dispatched_step(m, r2).1.next matches Some(d) ==> (d.event is Tap ==> (
            m.pending matches Pending::TouchReleased(_, double, _) && !double)),
{
}

/// An outside drag that ends (or is called off) never drops its data: with
/// a drop target it tells that target the drag left, and once that is
/// delivered forgets everything held; without one it hands out nothing and
/// forgets everything held at once. Only a drop hands out `DragDrop`, to the
/// drop target, or to node 0 when there is none.
pub proof fn lemma_drag_end_never_drops<P>(
    m: InputModel<P>,
    g: GeometryFacts,
    input: InputKind<P>,
    r: Dispatched,
    r2: Dispatched,
)
    ensures
        m.drag_target matches Some(t) ==> input_step(m, InputKind::<P>::DragEnd, g).1.next == Some(
            Dispatch { event: UiEvent::<P>::DragLeave, target: Some(t), focusable: false },
        ),
        m.drag_target matches Some(t) ==> ({
            let (m2, s2) = dispatched_step(input_step(m, InputKind::<P>::DragEnd, g).0, r);
            &&& s2.next is None
            &&& s2.cleared
            &&& m2.drag_target is None
            &&& m2.buttons_held.len() == 0
            &&& m2.keys_held.len() == 0
            &&& m2.focus == m.focus
        }),
        m.drag_target is None ==> ({
            let (m1, s1) = input_step(m, InputKind::<P>::DragEnd, g);
            &&& s1.next is None
            &&& s1.cleared
            &&& m1.buttons_held.len() == 0
            &&& m1.keys_held.len() == 0
            &&& m1.focus == m.focus
        }),
        input_step(m, InputKind::<P>::DragDrop, g).1.next == Some(
            Dispatch {
                event: UiEvent::<P>::DragDrop,
                target: Some(
                    match m.drag_target {
                        Some(t) => t,
                        None => 0u64,
                    },
                ),
                focusable: false,
            },
        ),
        input_step(m, input, g).1.next matches Some(d) ==> (d.event is DragDrop ==> input is DragDrop),
        !(dispatched_step(m, r2).1.next matches Some(d) && d.event is DragDrop),
{
}

/// A released button that was held and is not dragging clicks: once the
/// release is delivered, a `Click` goes to the nodes under the pointer, or a
/// `DoubleClick` when it is the left button and the window reported a
/// double click; the button is no longer held. A button that was dragging
/// ends its drag at the drop target instead.
pub proof fn lemma_release_clicks<P>(m: InputModel<P>, b: MouseButton, g: GeometryFacts, r: Dispatched)
    ensures
        ({
            let m1 = input_step(m, InputKind::<P>::MouseRelease(b), g).0;
            let (m2, s2) = dispatched_step(m1, r);
            &&& m.drag_button != Some(b) && m.buttons_held.contains(b) && !(b is Left
                && g.double_click) ==> s2.next == Some(
                Dispatch { event: UiEvent::<P>::Click(b), target: None, focusable: true },
            )
            &&& m.drag_button != Some(b) && m.buttons_held.contains(b) && b is Left && g.double_click
                ==> s2.next == Some(
                Dispatch { event: UiEvent::<P>::DoubleClick(b), target: None, focusable: true },
            )
            &&& m.drag_button != Some(b) ==> !m2.buttons_held.contains(b)
            &&& m.drag_button != Some(b) && !m.buttons_held.contains(b) ==> s2.next is None
            &&& m.drag_button == Some(b) ==> s2.next == Some(
                Dispatch {
                    event: UiEvent::<P>::DragEnd(b, started(m.drag_started, m.mouse_position)),
                    target: m.drag_target,
                    focusable: true,
                },
            )
        }),
{
    let m1 = input_step(m, InputKind::<P>::MouseRelease(b), g).0;
    let w = without(m.buttons_held, b);
    if w.contains(b) {
        let i = choose|i: int| 0 <= i < w.len() && w[i] == b;
        m.buttons_held.lemma_filter_pred(differs_from(b), i);
    }
}

/// Moving the mouse with no button held moves it and goes to the nodes under
/// it; once delivered, when the node under the mouse has changed, the node it
/// was over is told the mouse left, or, when it was over none, the new node
/// is told the mouse entered; when the node is the same, nothing follows.
/// With a button held, moving past the drag threshold starts a drag with the
/// first button held, from where the drag began.
pub proof fn lemma_motion_enters_and_leaves<P>(m: InputModel<P>, pos: P, g: GeometryFacts, r: Dispatched)
    ensures
        m.buttons_held.len() == 0 ==> ({
            let (m1, s1) = input_step(m, InputKind::<P>::MouseMotion(pos), g);
            let s2 = dispatched_step(m1, r).1;
            &&& s1.next == Some(Dispatch { event: UiEvent::<P>::MouseMotion, target: None, focusable: false })
            &&& m1.mouse_position == pos
            &&& r.target != m.mouse_over && m.mouse_over is Some ==> s2.next == Some(
                Dispatch { event: UiEvent::<P>::MouseLeave, target: m.mouse_over, focusable: true },
            )
            &&& r.target != m.mouse_over && m.mouse_over is None ==> s2.next == Some(
                Dispatch { event: UiEvent::<P>::MouseEnter, target: r.target, focusable: true },
            )
            &&& r.target == m.mouse_over ==> s2.next is None
        }),
        m.buttons_held.len() > 0 && m.drag_button is None && g.past_drag_threshold ==> input_step(
            m,
            InputKind::<P>::MouseMotion(pos),
            g,
        ).1.next == Some(
            Dispatch {
                event: UiEvent::<P>::DragStart(m.buttons_held[0], started(m.drag_started, m.mouse_position)),
                target: None,
                focusable: true,
            },
        ),
{
}

/// A menu selection goes to the nodes when a node other than the root has
/// the focus, and straight to the root otherwise; when the nodes let it
/// bubble, it then goes to the root, which forwards to the focused node.
pub proof fn lemma_menu_reaches_the_root<P>(m: InputModel<P>, id: i32, g: GeometryFacts, r: Dispatched)
    ensures
        m.focus != m.root ==> input_step(m, InputKind::<P>::Menu(id), g).1.next == Some(
            Dispatch { event: UiEvent::<P>::MenuSelect(id), target: None, focusable: false },
        ),
        m.focus != m.root && r.bubbles ==> dispatched_step(
            input_step(m, InputKind::<P>::Menu(id), g).0,
            r,
        ).1.next == Some(
            Dispatch { event: UiEvent::<P>::RootMenuSelect(id, Some(m.focus)), target: None, focusable: false },
        ),
        m.focus != m.root && !r.bubbles ==> dispatched_step(
            input_step(m, InputKind::<P>::Menu(id), g).0,
            r,
        ).1.next is None,
        m.focus == m.root ==> input_step(m, InputKind::<P>::Menu(id), g).1.next == Some(
            Dispatch { event: UiEvent::<P>::RootMenuSelect(id, None), target: None, focusable: false },
        ),
{
}

/// Once a press has been delivered, the focus goes where the event asked: to
/// no node blurs the focused node and hands the focus to the root; to another
/// node blurs the focused node and focuses that one, with the window's text
/// input on unless it is node 0; to the focused node changes nothing. Asking
/// for node 0 first turns the text input off.
pub proof fn lemma_focus_follows_the_event<P>(m: InputModel<P>, b: MouseButton, g: GeometryFacts, r: Dispatched)
    ensures
        ({
            let m1 = input_step(m, InputKind::<P>::MousePress(b), g).0;
            let (m2, s2) = dispatched_step(m1, r);
            &&& r.focus is None ==> m2.focus == m.root && s2.focus_plan.blur == Some(m.focus)
                && s2.focus_plan.focus is None
            &&& (r.focus matches Some(f) && f != m.focus) ==> m2.focus == r.focus->0
                && s2.focus_plan.blur == Some(m.focus) && s2.focus_plan.focus == Some(
                (r.focus->0, r.focus->0 > 0),
            )
            &&& r.focus == Some(m.focus) ==> m2.focus == m.focus && s2.focus_plan.blur is None
                && s2.focus_plan.focus is None
            &&& s2.focus_plan.text_input_off == (r.focus == Some(0u64))
            &&& s2.next is None
            &&& m2.buttons_held == m1.buttons_held
        }),
{
}

/// A key that was held and comes up is pressed: the focused node hears of
/// the key press, and once that is delivered and the focus has moved where
/// it asked, the node then focused hears that the key came up.
pub proof fn lemma_key_up_after_key_press<P>(m: InputModel<P>, k: Key, g: GeometryFacts, r: Dispatched)
    requires
        m.keys_held.contains(k),
    ensures
        input_step(m, InputKind::<P>::KeyUp(k), g).1.next == Some(
            Dispatch { event: UiEvent::<P>::KeyPress(k), target: Some(m.focus), focusable: true },
        ),
        ({
            let m1 = input_step(m, InputKind::<P>::KeyUp(k), g).0;
            let (m2, s2) = dispatched_step(m1, r);
            &&& s2.next == Some(
                Dispatch { event: UiEvent::<P>::KeyUp(k), target: Some(m2.focus), focusable: true },
            )
            &&& m2.focus == match r.focus {
                Some(f) => f,
                None => m.root,
            }
        }),
{
}

/// Moving the mouse during a drag goes on dragging: the motion goes to the
/// nodes under the pointer, and once delivered the drop target hears of the
/// drag with the first button held, from where the drag started.
pub proof fn lemma_drag_goes_to_the_drop_target<P>(m: InputModel<P>, pos: P, g: GeometryFacts, r: Dispatched)
    requires
        m.buttons_held.len() > 0,
        m.drag_button is Some,
    ensures
        input_step(m, InputKind::<P>::MouseMotion(pos), g).1.next == Some(
            Dispatch { event: UiEvent::<P>::MouseMotion, target: None, focusable: false },
        ),
        input_step(m, InputKind::<P>::MouseMotion(pos), g).0.mouse_position == pos,
        dispatched_step(input_step(m, InputKind::<P>::MouseMotion(pos), g).0, r).1.next == Some(
            Dispatch {
                event: UiEvent::<P>::Drag(m.buttons_held[0], started(m.drag_started, m.mouse_position)),
                target: m.drag_target,
                focusable: false,
            },
        ),
{
}

/// An outside drag moving over the window asks for the drop target under
/// it; once that is delivered, when the target has changed, the old target
/// hears the drag left, or, when there was none, the new one hears it
/// entered; after the leave is delivered the new target, if any, hears the
/// drag entered, and otherwise there is no target any more.
pub proof fn lemma_outside_drag_enters_and_leaves<P>(
    m: InputModel<P>,
    g: GeometryFacts,
    r: Dispatched,
    r2: Dispatched,
)
    ensures
        ({
            let m1 = input_step(m, InputKind::<P>::Dragging, g).0;
            let (m2, s2) = dispatched_step(m1, r);
            let (m3, s3) = dispatched_step(m2, r2);
            &&& r.target != m.drag_target && m.drag_target is Some ==> s2.next == Some(
                Dispatch { event: UiEvent::<P>::DragLeave, target: m.drag_target, focusable: false },
            )
            &&& r.target != m.drag_target && m.drag_target is Some && r.target is Some ==> s3.next
                == Some(Dispatch { event: UiEvent::<P>::DragEnter, target: r.target, focusable: false })
            &&& r.target != m.drag_target && m.drag_target is Some && r.target is None ==> s3.next
                is None && m3.drag_target is None
            &&& r.target != m.drag_target && m.drag_target is None ==> s2.next == Some(
                Dispatch { event: UiEvent::<P>::DragEnter, target: r.target, focusable: false },
            )
            &&& r.target != m.drag_target && m.drag_target is None ==> m3.drag_target == r.target
            &&& r.target == m.drag_target ==> s2.next is None
        }),
{
}

/// A finger held and moved past the drag threshold starts a touch drag from
/// where it touched; once delivered, the node under it becomes the drop
/// target. Moving on during the drag goes to the nodes under the finger and
/// then to the drop target, from where the drag started.
pub proof fn lemma_touch_drag_starts_and_goes_on<P>(
    m: InputModel<P>,
    pos: P,
    g: GeometryFacts,
    r: Dispatched,
)
    ensures
        m.touch_held && !m.is_touch_drag && g.past_drag_threshold ==> ({
            let (m1, s1) = input_step(m, InputKind::<P>::TouchMoved(pos), g);
            let (m2, s2) = dispatched_step(m1, r);
            &&& s1.next == Some(
                Dispatch {
                    event: UiEvent::<P>::TouchDragStart(started(m.touch_drag_started, m.touch_position)),
                    target: None,
                    focusable: true,
                },
            )
            &&& m1.is_touch_drag
            &&& m2.drag_target == r.target
            &&& m2.touch_position == pos
            &&& s2.next == Some(Dispatch { event: UiEvent::<P>::TouchMotion, target: None, focusable: false })
        }),
        m.touch_held && m.is_touch_drag ==> ({
            let (m1, s1) = input_step(m, InputKind::<P>::TouchMoved(pos), g);
            &&& s1.next == Some(Dispatch { event: UiEvent::<P>::TouchMotion, target: None, focusable: false })
            &&& m1.touch_position == pos
            &&& dispatched_step(m1, r).1.next == Some(
                Dispatch {
                    event: UiEvent::<P>::TouchDrag(started(m.touch_drag_started, m.touch_position)),
                    target: m.drag_target,
                    focusable: false,
                },
            )
        }),
{
}

/// The mouse leaving the window: the node it was over hears it left; then a
/// mouse drag in progress ends, with no target, from where it started, or
/// else all that is held and dragged is forgotten.
pub proof fn lemma_leaving_the_window<P>(m: InputModel<P>, g: GeometryFacts, r: Dispatched)
    ensures
        m.mouse_over is Some ==> input_step(m, InputKind::<P>::MouseLeaveWindow, g).1.next == Some(
            Dispatch { event: UiEvent::<P>::MouseLeave, target: m.mouse_over, focusable: true },
        ),
        m.mouse_over is Some && m.drag_button is Some ==> dispatched_step(
            input_step(m, InputKind::<P>::MouseLeaveWindow, g).0,
            r,
        ).1.next == Some(
            Dispatch {
                event: UiEvent::<P>::DragEnd(m.drag_button->0, started(m.drag_started, m.mouse_position)),
                target: None,
                focusable: false,
            },
        ),
        m.mouse_over is None && m.drag_button is Some ==> input_step(
            m,
            InputKind::<P>::MouseLeaveWindow,
            g,
        ).1.next == Some(
            Dispatch {
                event: UiEvent::<P>::DragEnd(m.drag_button->0, started(m.drag_started, m.mouse_position)),
                target: None,
                focusable: false,
            },
        ),
        m.mouse_over is None && m.drag_button is None ==> ({
            let (m1, s1) = input_step(m, InputKind::<P>::MouseLeaveWindow, g);
            &&& s1.next is None
            &&& s1.cleared
            &&& m1.buttons_held.len() == 0
            &&& m1.focus == m.focus
        }),
{
}

} // verus!
