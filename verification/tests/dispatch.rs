use mctk::dispatch::{
    on_dispatched, on_input, Dispatch, Dispatched, GeometryFacts, InputKind, InputState, UiEvent,
};
use mctk::input::{Key, MouseButton};

type P = (i32, i32);

fn still() -> GeometryFacts {
    GeometryFacts { past_drag_threshold: false, double_click: false, short_drag: false }
}

fn result(target: Option<u64>, current: Option<u64>, focus: Option<u64>) -> Dispatched {
    Dispatched { target, current_node: current, focus, bubbles: true }
}

fn event_of(step: &mctk::dispatch::Step<P>) -> Option<UiEvent<P>> {
    step.next.map(|d| d.event)
}

#[test]
fn key_press_only_after_key_down() {
    let mut s: InputState<P> = InputState::new(1, (0, 0));
    let up = on_input(&mut s, InputKind::KeyUp(Key::A), still());
    assert_eq!(event_of(&up), Some(UiEvent::KeyUp(Key::A)));
    on_dispatched(&mut s, result(None, None, Some(1)));

    let down = on_input(&mut s, InputKind::KeyDown(Key::A), still());
    assert_eq!(down.next, Some(Dispatch { event: UiEvent::KeyDown(Key::A), target: Some(1), focusable: true }));
    on_dispatched(&mut s, result(None, None, Some(1)));
    let press = on_input(&mut s, InputKind::KeyUp(Key::A), still());
    assert_eq!(event_of(&press), Some(UiEvent::KeyPress(Key::A)));
    // The key-up event follows the key press.
    let after = on_dispatched(&mut s, result(None, None, Some(1)));
    assert_eq!(event_of(&after), Some(UiEvent::KeyUp(Key::A)));
    let last = on_dispatched(&mut s, result(None, None, Some(1)));
    assert_eq!(last.next, None);
}

#[test]
fn no_text_entry_while_ctrl_held() {
    let mut s: InputState<P> = InputState::new(1, (0, 0));
    let t = on_input(&mut s, InputKind::Text, still());
    assert_eq!(event_of(&t), Some(UiEvent::TextEntry));
    on_dispatched(&mut s, result(None, None, Some(1)));
    on_input(&mut s, InputKind::KeyDown(Key::LCtrl), still());
    on_dispatched(&mut s, result(None, None, Some(1)));
    assert!(s.modifiers().ctrl);
    let t = on_input(&mut s, InputKind::Text, still());
    assert_eq!(t.next, None);
}

#[test]
fn focus_moves_and_click_elsewhere_blurs() {
    let mut s: InputState<P> = InputState::new(1, (0, 0));
    on_input(&mut s, InputKind::MousePress(MouseButton::Left), still());
    let st = on_dispatched(&mut s, result(Some(5), Some(5), Some(5)));
    assert_eq!(st.focus_plan.blur, Some(1));
    assert_eq!(st.focus_plan.focus, Some((5, true)));
    assert_eq!(s.focus(), 5);

    // Release over another node: a click, then the focused node loses the focus.
    on_input(&mut s, InputKind::MouseRelease(MouseButton::Left), still());
    let click = on_dispatched(&mut s, result(Some(7), Some(7), Some(5)));
    assert_eq!(event_of(&click), Some(UiEvent::Click(MouseButton::Left)));
    let end = on_dispatched(&mut s, result(Some(7), Some(7), Some(5)));
    assert_eq!(end.blur_after, Some(5));
    assert_eq!(s.focus(), 1);
}

#[test]
fn double_click_only_for_the_left_button() {
    let double = GeometryFacts { past_drag_threshold: false, double_click: true, short_drag: false };
    let mut s: InputState<P> = InputState::new(1, (0, 0));
    on_input(&mut s, InputKind::MousePress(MouseButton::Right), still());
    on_dispatched(&mut s, result(None, None, Some(1)));
    on_input(&mut s, InputKind::MouseRelease(MouseButton::Right), double);
    let c = on_dispatched(&mut s, result(None, None, Some(1)));
    assert_eq!(event_of(&c), Some(UiEvent::Click(MouseButton::Right)));
    on_dispatched(&mut s, result(None, None, Some(1)));

    on_input(&mut s, InputKind::MousePress(MouseButton::Left), still());
    on_dispatched(&mut s, result(None, None, Some(1)));
    on_input(&mut s, InputKind::MouseRelease(MouseButton::Left), double);
    let c = on_dispatched(&mut s, result(None, None, Some(1)));
    assert_eq!(event_of(&c), Some(UiEvent::DoubleClick(MouseButton::Left)));
}

#[test]
fn drag_starts_past_threshold_and_short_drag_clicks() {
    let far = GeometryFacts { past_drag_threshold: true, double_click: false, short_drag: false };
    let mut s: InputState<P> = InputState::new(1, (0, 0));
    on_input(&mut s, InputKind::MousePress(MouseButton::Left), still());
    on_dispatched(&mut s, result(None, None, Some(1)));
    let st = on_input(&mut s, InputKind::MouseMotion((30, 0)), far);
    assert_eq!(event_of(&st), Some(UiEvent::DragStart(MouseButton::Left, (0, 0))));
    let st = on_dispatched(&mut s, result(Some(4), Some(4), Some(1)));
    assert_eq!(event_of(&st), Some(UiEvent::MouseMotion));
    let st = on_dispatched(&mut s, result(Some(4), Some(4), Some(1)));
    assert_eq!(st.next, Some(Dispatch { event: UiEvent::Drag(MouseButton::Left, (0, 0)), target: Some(4), focusable: false }));
    on_dispatched(&mut s, result(Some(4), Some(4), Some(1)));

    let short = GeometryFacts { past_drag_threshold: false, double_click: false, short_drag: true };
    on_input(&mut s, InputKind::MouseRelease(MouseButton::Left), short);
    let st = on_dispatched(&mut s, result(Some(4), Some(4), Some(1)));
    assert_eq!(st.next, Some(Dispatch { event: UiEvent::DragEnd(MouseButton::Left, (0, 0)), target: Some(4), focusable: true }));
    let st = on_dispatched(&mut s, result(Some(4), Some(4), Some(1)));
    assert_eq!(event_of(&st), Some(UiEvent::Click(MouseButton::Left)));
    let st = on_dispatched(&mut s, result(Some(4), Some(4), Some(1)));
    assert_eq!(st.next, None);
    assert_eq!(s.drag_started(), None);
}

#[test]
fn moving_over_another_node_leaves_then_enters() {
    let mut s: InputState<P> = InputState::new(1, (0, 0));
    on_input(&mut s, InputKind::MouseMotion((1, 1)), still());
    let st = on_dispatched(&mut s, result(Some(3), Some(3), Some(1)));
    assert_eq!(st.next, Some(Dispatch { event: UiEvent::MouseEnter, target: Some(3), focusable: true }));
    on_dispatched(&mut s, result(Some(3), Some(3), Some(1)));
    on_input(&mut s, InputKind::MouseMotion((9, 9)), still());
    let st = on_dispatched(&mut s, result(Some(8), Some(8), Some(1)));
    assert_eq!(st.next, Some(Dispatch { event: UiEvent::MouseLeave, target: Some(3), focusable: true }));
    let st = on_dispatched(&mut s, result(Some(3), Some(3), Some(1)));
    assert_eq!(st.next, Some(Dispatch { event: UiEvent::MouseEnter, target: Some(8), focusable: true }));
}

#[test]
fn drag_and_drop_targets() {
    let mut s: InputState<P> = InputState::new(1, (0, 0));
    let st = on_input(&mut s, InputKind::Dragging, still());
    assert_eq!(event_of(&st), Some(UiEvent::DragTarget));
    let st = on_dispatched(&mut s, result(Some(6), Some(6), None));
    assert_eq!(st.next, Some(Dispatch { event: UiEvent::DragEnter, target: Some(6), focusable: false }));
    on_dispatched(&mut s, result(Some(6), Some(6), None));
    let st = on_input(&mut s, InputKind::DragDrop, still());
    assert_eq!(st.next, Some(Dispatch { event: UiEvent::DragDrop, target: Some(6), focusable: false }));
    let st = on_dispatched(&mut s, result(Some(6), Some(6), None));
    assert!(st.cleared);
    // With no drag target, a drop goes to node 0.
    let st = on_input(&mut s, InputKind::DragDrop, still());
    assert_eq!(st.next, Some(Dispatch { event: UiEvent::DragDrop, target: Some(0), focusable: false }));
}
