use mctk::input::{Data, Key, ModifiersHeld, MouseButton};
use mctk::widgets::textbox::{
    cursor_blink_visible, TextBox, TextBoxAction, TextBoxInput, TextBoxMessage, TextBoxText, TextBoxTextState,
};

fn editor(text: &str) -> TextBoxTextState {
    let mut t = TextBoxText { default_text: text.to_string(), state: None };
    t.reset_state();
    t.state.unwrap()
}

fn plain() -> ModifiersHeld {
    ModifiersHeld::default()
}

fn shift() -> ModifiersHeld {
    ModifiersHeld { shift: true, ..Default::default() }
}

fn ctrl() -> ModifiersHeld {
    ModifiersHeld { ctrl: true, ..Default::default() }
}

fn change_text(m: &TextBoxMessage) -> &str {
    match m {
        TextBoxMessage::Change(s) => s.as_str(),
        other => panic!("not a change: {:?}", other),
    }
}

#[test]
fn reset_state_starts_from_default_text() {
    let mut t = TextBoxText { default_text: "abc".to_string(), state: None };
    t.reset_state();
    let st = t.state.as_ref().unwrap();
    assert_eq!(st.text, "abc");
    assert_eq!(st.cursor_pos, 0);
    assert_eq!(st.selection_from, None);
    assert!(!st.focused);
    assert!(!st.cursor_visible);
    assert!(st.dirty);
}

#[test]
fn selection_is_ordered() {
    let mut e = editor("hello");
    assert_eq!(e.selection(), None);
    e.selection_from = Some(1);
    e.cursor_pos = 4;
    assert_eq!(e.selection(), Some((1, 4)));
    e.selection_from = Some(4);
    e.cursor_pos = 1;
    assert_eq!(e.selection(), Some((1, 4)));
    e.selection_from = Some(2);
    e.cursor_pos = 2;
    assert_eq!(e.selection(), None);
}

#[test]
fn insert_at_cursor_and_over_selection() {
    let mut e = editor("hello");
    e.cursor_pos = 2;
    e.dirty = false;
    e.insert_text("XY");
    assert_eq!(e.text, "heXYllo");
    assert_eq!(e.cursor_pos, 4);
    assert!(e.dirty);
    e.selection_from = Some(0);
    e.insert_text("Z");
    assert_eq!(e.text, "Zllo");
    assert_eq!(e.cursor_pos, 1);
    assert_eq!(e.selection_from, None);
}

#[test]
fn insert_multibyte_text_moves_cursor_by_bytes() {
    let mut e = editor("ab");
    e.cursor_pos = 1;
    e.insert_text("é");
    assert_eq!(e.text, "aéb");
    assert_eq!(e.cursor_pos, 3);
}

#[test]
fn backspace_deletes_before_cursor_or_selection() {
    let mut e = editor("hello");
    e.cursor_pos = 3;
    e.dirty = false;
    let fx = e.on_key_down(Key::Backspace, plain(), None);
    assert_eq!(e.text, "helo");
    assert_eq!(e.cursor_pos, 2);
    assert!(e.dirty);
    assert_eq!(fx.messages.len(), 1);
    assert_eq!(change_text(&fx.messages[0]), "helo");
    e.selection_from = Some(0);
    let fx = e.on_key_down(Key::Backspace, plain(), None);
    assert_eq!(e.text, "lo");
    assert_eq!(e.cursor_pos, 0);
    assert_eq!(e.selection_from, None);
    assert_eq!(fx.messages.len(), 1);
    let fx = e.on_key_down(Key::Backspace, plain(), None);
    assert_eq!(e.text, "lo");
    assert!(fx.messages.is_empty());
}

#[test]
fn backspace_removes_a_whole_character() {
    let mut e = editor("aéb");
    e.cursor_pos = 2;
    e.on_key_down(Key::Backspace, plain(), None);
    assert_eq!(e.text, "ab");
    assert_eq!(e.cursor_pos, 1);
}

#[test]
fn backspace_after_typing_restores() {
    let mut e = editor("hello");
    e.cursor_pos = 2;
    e.on_text_entry("x");
    assert_eq!(e.text, "hexllo");
    e.on_key_down(Key::Backspace, plain(), None);
    assert_eq!(e.text, "hello");
    assert_eq!(e.cursor_pos, 2);
}

#[test]
fn arrows_move_and_select() {
    let mut e = editor("hello");
    e.cursor_pos = 3;
    e.on_key_down(Key::Left, plain(), None);
    assert_eq!(e.cursor_pos, 2);
    e.on_key_down(Key::Right, plain(), None);
    assert_eq!(e.cursor_pos, 3);
    e.on_key_down(Key::Left, shift(), None);
    assert_eq!((e.cursor_pos, e.selection_from), (2, Some(3)));
    e.on_key_down(Key::Left, shift(), None);
    assert_eq!((e.cursor_pos, e.selection_from), (1, Some(3)));
    assert_eq!(e.selection(), Some((1, 3)));
    e.on_key_down(Key::Right, shift(), None);
    e.on_key_down(Key::Right, shift(), None);
    assert_eq!((e.cursor_pos, e.selection_from), (3, None));
    e.selection_from = Some(1);
    e.on_key_down(Key::Right, plain(), None);
    assert_eq!((e.cursor_pos, e.selection_from), (3, None));
    e.cursor_pos = 5;
    e.on_key_down(Key::Right, plain(), None);
    assert_eq!(e.cursor_pos, 5);
    e.cursor_pos = 0;
    e.selection_from = Some(2);
    e.on_key_down(Key::Left, plain(), None);
    assert_eq!((e.cursor_pos, e.selection_from), (0, None));
}

#[test]
fn up_and_down_jump_to_the_ends() {
    let mut e = editor("hello");
    e.cursor_pos = 2;
    e.on_key_down(Key::Down, plain(), None);
    assert_eq!((e.cursor_pos, e.selection_from), (5, None));
    e.on_key_down(Key::Up, shift(), None);
    assert_eq!((e.cursor_pos, e.selection_from), (0, Some(5)));
    e.on_key_down(Key::Up, plain(), None);
    assert_eq!((e.cursor_pos, e.selection_from), (0, None));
    e.on_key_down(Key::Down, shift(), None);
    assert_eq!((e.cursor_pos, e.selection_from), (0, None));
    e.cursor_pos = 2;
    e.on_key_down(Key::Down, shift(), None);
    assert_eq!((e.cursor_pos, e.selection_from), (5, Some(2)));
}

#[test]
fn return_gives_up_focus() {
    let mut e = editor("hi");
    let fx = e.on_key_down(Key::Return, plain(), None);
    assert!(fx.blur);
    assert!(fx.messages.is_empty());
    assert_eq!(e.text, "hi");
}

#[test]
fn cut_copy_paste_keys() {
    let mut e = editor("hello world");
    e.selection_from = Some(0);
    e.cursor_pos = 5;
    let fx = e.on_key_down(Key::C, ctrl(), None);
    assert_eq!(fx.clipboard.as_deref(), Some("hello"));
    assert!(fx.messages.is_empty());
    assert_eq!(e.text, "hello world");
    let fx = e.on_key_down(Key::X, ctrl(), None);
    assert_eq!(fx.clipboard.as_deref(), Some("hello"));
    assert_eq!(e.text, " world");
    assert_eq!(e.cursor_pos, 0);
    assert_eq!(change_text(&fx.messages[0]), " world");
    let fx = e.on_key_down(Key::V, ctrl(), Some(Data::String("hello".to_string())));
    assert_eq!(e.text, "hello world");
    assert_eq!(e.cursor_pos, 5);
    assert_eq!(change_text(&fx.messages[0]), "hello world");
    let fx = e.on_key_down(Key::X, ctrl(), None);
    assert!(fx.clipboard.is_none());
    assert!(fx.messages.is_empty());
    let fx = e.on_key_down(Key::V, ctrl(), Some(Data::Filepath("/tmp".into())));
    assert!(fx.messages.is_empty());
    assert_eq!(e.text, "hello world");
    let fx = e.on_key_down(Key::V, plain(), Some(Data::String("zz".to_string())));
    assert!(fx.messages.is_empty());
    assert_eq!(e.text, "hello world");
}

#[test]
fn other_keys_change_nothing() {
    let mut e = editor("abc");
    e.cursor_pos = 1;
    e.dirty = false;
    let fx = e.on_key_down(Key::A, plain(), None);
    assert!(fx.messages.is_empty() && fx.clipboard.is_none() && !fx.blur);
    assert_eq!((e.text.as_str(), e.cursor_pos, e.dirty), ("abc", 1, false));
}

#[test]
fn select_word_finds_word_around_cursor() {
    let mut e = editor("foo bar-baz");
    e.cursor_pos = 5;
    assert!(e.select_word());
    assert_eq!((e.selection_from, e.cursor_pos), (Some(4), 7));
    let mut e = editor("foo bar");
    e.cursor_pos = 3;
    assert!(e.select_word());
    assert_eq!((e.selection_from, e.cursor_pos), (Some(0), 3));
    let mut e = editor("a  b");
    e.cursor_pos = 2;
    assert!(!e.select_word());
    assert_eq!((e.selection_from, e.cursor_pos), (None, 2));
    let mut e = editor("word");
    e.cursor_pos = 4;
    assert!(e.select_word());
    assert_eq!((e.selection_from, e.cursor_pos), (Some(0), 4));
    let mut e = editor("");
    let r = e.on_double_click();
    assert!(r.focus && r.stop_bubbling);
    assert_eq!((e.selection_from, e.cursor_pos), (None, 0));
    let mut e = editor("two words");
    e.cursor_pos = 5;
    e.on_double_click();
    assert_eq!((e.selection_from, e.cursor_pos), (Some(4), 9));
}

#[test]
fn focus_and_blur() {
    let mut e = editor("text");
    let m = e.on_focus();
    assert!(matches!(m, TextBoxMessage::Open));
    assert!(e.focused && e.cursor_visible);
    e.cursor_pos = 2;
    e.selection_from = Some(0);
    let ms = e.on_blur();
    assert!(!e.focused && !e.cursor_visible);
    assert_eq!((e.cursor_pos, e.selection_from), (0, None));
    assert_eq!(ms.len(), 2);
    assert!(matches!(ms[0], TextBoxMessage::Close));
    assert!(matches!(&ms[1], TextBoxMessage::Commit(s) if s == "text"));
}

#[test]
fn cursor_blinks_every_half_second() {
    assert!(cursor_blink_visible(0));
    assert!(cursor_blink_visible(499));
    assert!(!cursor_blink_visible(500));
    assert!(!cursor_blink_visible(999));
    assert!(cursor_blink_visible(1000));
    let mut e = editor("x");
    e.blink_at(700);
    assert!(!e.cursor_visible);
    e.focused = true;
    e.blink_at(700);
    assert!(!e.cursor_visible);
    e.blink_at(1200);
    assert!(e.cursor_visible);
    e.on_tick();
    assert_eq!(e.text, "x");
}

#[test]
fn clicks_and_drags_move_the_cursor() {
    let mut e = editor("hello");
    e.selection_from = Some(1);
    let r = e.on_click(MouseButton::Right, 3);
    assert!(r.focus && r.stop_bubbling);
    assert_eq!((e.cursor_pos, e.selection_from), (0, Some(1)));
    e.on_click(MouseButton::Left, 3);
    assert_eq!((e.cursor_pos, e.selection_from), (3, None));
    assert!(e.cursor_visible);
    let r = e.on_drag_start(1);
    assert!(r.focus && r.stop_bubbling);
    assert_eq!(e.selection_from, Some(1));
    e.on_drag(4);
    assert_eq!(e.cursor_pos, 4);
    e.on_drag_end();
    assert_eq!(e.selection(), Some((1, 4)));
    e.on_drag(1);
    e.on_drag_end();
    assert_eq!(e.selection_from, None);
}

#[test]
fn menu_actions() {
    let mut t = TextBoxText { default_text: "copy me".to_string(), state: None };
    t.reset_state();
    t.state.as_mut().unwrap().selection_from = Some(0);
    t.state.as_mut().unwrap().cursor_pos = 4;
    let fx = t.handle_action(TextBoxAction::Copy, None);
    assert_eq!(fx.clipboard.as_deref(), Some("copy"));
    assert!(fx.messages.is_empty());
    let fx = t.handle_action(TextBoxAction::Cut, None);
    assert_eq!(fx.clipboard.as_deref(), Some("copy"));
    assert_eq!(change_text(&fx.messages[0]), " me");
    let fx = t.handle_action(TextBoxAction::Cut, None);
    assert!(fx.clipboard.is_none());
    assert_eq!(change_text(&fx.messages[0]), " me");
    let fx = t.handle_action(TextBoxAction::Paste, Some(Data::String("paste".into())));
    assert_eq!(change_text(&fx.messages[0]), "paste me");
    assert_eq!(t.selection(), None);
    assert_eq!(t.copy(), None);
    assert!(!t.paste(None));
    assert!(t.paste(Some("!".into())));
    assert_eq!(t.state.as_ref().unwrap().text, "paste! me");
    t.activate();
    t.insert_text("?");
    assert_eq!(t.state.as_ref().unwrap().text, "paste!? me");
    t.state.as_mut().unwrap().cursor_pos = 1;
    assert!(t.select_word());
    assert_eq!(t.selection(), Some((0, 5)));
    assert_eq!(t.cut(), Some("paste".to_string()));
}

#[test]
fn text_box_routes_messages_to_callbacks() {
    let mut b = TextBox::new(Some("start".to_string()))
        .on_change(|s: &str| format!("changed:{}", s))
        .on_commit(|s: &str| format!("committed:{}", s))
        .on_focus(|| "focused".to_string());
    assert_eq!(b.text_child().default_text, "start");
    assert!(!b.dirty);
    assert_eq!(b.update(TextBoxInput::Message(TextBoxMessage::Open)), vec!["focused".to_string()]);
    assert!(b.state.as_ref().unwrap().focused);
    assert_eq!(b.update(TextBoxInput::Message(TextBoxMessage::Change("ab".into()))), vec!["changed:ab".to_string()]);
    assert_eq!(b.update(TextBoxInput::Message(TextBoxMessage::Commit("ab".into()))), vec!["committed:ab".to_string()]);
    assert!(b.update(TextBoxInput::Message(TextBoxMessage::Close)).is_empty());
    assert!(!b.state.as_ref().unwrap().focused);
    assert!(b.is_dirty());
    assert!(!b.is_dirty());
    // Other messages are passed on unchanged.
    assert_eq!(b.update(TextBoxInput::Other("elsewhere".to_string())), vec!["elsewhere".to_string()]);
    assert!(!b.dirty);
}

#[test]
fn text_box_passes_changes_on_without_state() {
    let mut b = TextBox::new(None).on_change(|s: &str| s.len()).on_commit(|s: &str| s.len() + 1).on_focus(|| 0usize);
    b.state = None;
    assert_eq!(b.update(TextBoxInput::Message(TextBoxMessage::Change("abc".into()))), vec![3]);
    assert_eq!(b.update(TextBoxInput::Message(TextBoxMessage::Commit("abc".into()))), vec![4]);
    assert!(b.state.is_none());
}

#[test]
fn text_box_without_callbacks_stays_quiet() {
    type F = fn(&str) -> u8;
    type G = fn() -> u8;
    let mut b: TextBox<F, F, G> = TextBox::new(None);
    assert_eq!(b.text_child().default_text, "");
    assert!(b.update(TextBoxInput::Message(TextBoxMessage::Open)).is_empty());
    assert!(b.update(TextBoxInput::Message(TextBoxMessage::Change("x".into()))).is_empty());
    assert!(b.state.as_ref().unwrap().focused);
}
