//! The text box widget: a single line of editable text with a cursor, a
//! selection, clipboard actions and a blinking cursor.
//!
//! The cursor and the selection anchor are byte offsets into the UTF-8
//! encoding of the text. The editing state machine is described over
//! [`EditState`], an abstract view of the widget's state, and every handler
//! is specified as a function from the old view to the new one.
use vstd::prelude::*;
use vstd::utf8::*;
use std::time::Instant;

use crate::clock::{elapsed_millis, instant_now};
use crate::input::{Data, Key, ModifiersHeld, MouseButton};
use crate::text::{
    char_width_at, chars_of, is_alphanumeric, alphanumeric, splice, str_slice,
    string_insert_str, string_remove, string_replace_range, utf8,
};

verus! {

broadcast use {encode_utf8_valid_utf8, encode_utf8_decode_utf8};

/// Half of a cursor blink period, in milliseconds.
pub const CURSOR_BLINK_PERIOD: u128 = 500;

/// Messages that the editable text sends to its enclosing [`TextBox`].
#[derive(Debug)]
pub enum TextBoxMessage {
    Open,
    Close,
    Change(String),
    Commit(String),
}

/// What a handler asks of the event it handled: the focus for the box, and
/// that the event go no further up the tree.
#[derive(Debug, Copy, Clone, PartialEq, Eq, Structural)]
pub struct EventResponse {
    pub focus: bool,
    pub stop_bubbling: bool,
}

/// Clipboard actions, as chosen from a context menu.
#[derive(Debug, Copy, Clone, PartialEq, Eq, Structural)]
pub enum TextBoxAction {
    Cut,
    Copy,
    Paste,
}

/// The abstract editing state: the UTF-8 bytes of the text, the cursor, and the
/// anchor of the selection (the selection runs between anchor and cursor).
#[verifier::ext_equal]
pub ghost struct EditState {
    pub text: Seq<u8>,
    pub cursor: int,
    pub selection_from: Option<int>,
}

/// The selected byte range `(start, end)`, with `start < end`, if anything is selected.
pub open spec fn selection_range(e: EditState) -> Option<(int, int)> {
    match e.selection_from {
        None => None,
        Some(s) => if e.cursor == s {
            None
        } else if e.cursor > s {
            Some((s, e.cursor))
        } else {
            Some((e.cursor, s))
        },
    }
}

/// Inserting the bytes `t` is possible: the places it goes to are character
/// boundaries and the result fits in memory.
pub open spec fn can_insert(e: EditState, t: Seq<u8>) -> bool {
    &&& e.text.len() + t.len() <= isize::MAX
    &&& match selection_range(e) {
        Some((a, b)) => is_char_boundary(e.text, a) && is_char_boundary(e.text, b),
        None => is_char_boundary(e.text, e.cursor),
    }
}

/// The state after typing or pasting `t`: it replaces the selection, if any, or
/// goes in at the cursor; the cursor ends up right after it.
pub open spec fn inserted(e: EditState, t: Seq<u8>) -> EditState {
    match selection_range(e) {
        Some((a, b)) => EditState {
            text: splice(e.text, a, b, t),
            cursor: a + t.len(),
            selection_from: None,
        },
        None => EditState {
            text: splice(e.text, e.cursor, e.cursor, t),
            cursor: e.cursor + t.len(),
            selection_from: e.selection_from,
        },
    }
}

/// The selected bytes, which copying puts on the clipboard.
pub open spec fn copied(e: EditState) -> Option<Seq<u8>> {
    match selection_range(e) {
        Some((a, b)) => Some(e.text.subrange(a, b)),
        None => None,
    }
}

/// Cutting is possible when nothing is selected, or the selection can be deleted.
pub open spec fn can_cut(e: EditState) -> bool {
    selection_range(e) is Some ==> can_insert(e, Seq::empty())
}

/// The state after cutting: the selection is deleted.
pub open spec fn cut_state(e: EditState) -> EditState {
    if selection_range(e) is Some {
        inserted(e, Seq::empty())
    } else {
        e
    }
}

/// The text that a clipboard content offers for pasting.
pub open spec fn clipboard_text(d: Option<Data>) -> Option<Seq<u8>> {
    match d {
        Some(Data::String(s)) => Some(utf8(s@)),
        _ => None,
    }
}

/// Pasting `clip` is possible.
pub open spec fn can_paste(e: EditState, clip: Option<Seq<u8>>) -> bool {
    clip matches Some(t) ==> can_insert(e, t)
}

/// The state after pasting `clip`.
pub open spec fn pasted(e: EditState, clip: Option<Seq<u8>>) -> EditState {
    match clip {
        Some(t) => inserted(e, t),
        None => e,
    }
}

/// Backspace is possible: a selection is deleted at character boundaries, or the
/// character that starts right before the cursor is deleted.
pub open spec fn can_backspace(e: EditState) -> bool {
    match selection_range(e) {
        Some((a, b)) => is_char_boundary(e.text, a) && is_char_boundary(e.text, b)
            && e.text.len() <= isize::MAX,
        None => e.cursor > 0 ==> (e.cursor - 1 < e.text.len() && is_char_boundary(
            e.text,
            e.cursor - 1,
        )),
    }
}

/// The state after Backspace, and whether the text changed.
pub open spec fn backspaced(e: EditState) -> (EditState, bool) {
    match selection_range(e) {
        Some((a, b)) => (
            EditState { text: splice(e.text, a, b, Seq::empty()), cursor: a, selection_from: None },
            true,
        ),
        None => if e.cursor > 0 {
            (
                EditState {
                    text: splice(
                        e.text,
                        e.cursor - 1,
                        e.cursor - 1 + char_width_at(e.text, e.cursor - 1),
                        Seq::empty(),
                    ),
                    cursor: e.cursor - 1,
                    selection_from: e.selection_from,
                },
                true,
            )
        } else {
            (e, false)
        },
    }
}

/// The state after the Left arrow key, extending the selection when `shift` is held.
pub open spec fn moved_left(e: EditState, shift: bool) -> EditState {
    if e.cursor > 0 {
        if shift {
            let sel = match e.selection_from {
                Some(s) => if e.cursor == s + 1 {
                    None
                } else {
                    Some(s)
                },
                None => Some(e.cursor),
            };
            EditState { cursor: e.cursor - 1, selection_from: sel, ..e }
        } else if e.selection_from is Some {
            EditState { selection_from: None, ..e }
        } else {
            EditState { cursor: e.cursor - 1, ..e }
        }
    } else if !shift && e.selection_from is Some {
        EditState { selection_from: None, ..e }
    } else {
        e
    }
}

/// The state after the Right arrow key, extending the selection when `shift` is held.
pub open spec fn moved_right(e: EditState, shift: bool) -> EditState {
    if e.cursor < e.text.len() {
        if shift {
            let sel = match e.selection_from {
                Some(s) => if e.cursor + 1 == s {
                    None
                } else {
                    Some(s)
                },
                None => Some(e.cursor),
            };
            EditState { cursor: e.cursor + 1, selection_from: sel, ..e }
        } else if e.selection_from is Some {
            EditState { selection_from: None, ..e }
        } else {
            EditState { cursor: e.cursor + 1, ..e }
        }
    } else if !shift && e.selection_from is Some {
        EditState { selection_from: None, ..e }
    } else {
        e
    }
}

/// The state after the Up arrow key: to the start of the text; with `shift`, the
/// text before the cursor becomes selected.
pub open spec fn moved_up(e: EditState, shift: bool) -> EditState {
    if shift {
        if e.cursor > 0 {
            EditState { cursor: 0, selection_from: Some(e.cursor), ..e }
        } else {
            e
        }
    } else {
        EditState { cursor: 0, selection_from: None, ..e }
    }
}

/// The state after the Down arrow key: to the end of the text; with `shift`, the
/// text after the cursor becomes selected.
pub open spec fn moved_down(e: EditState, shift: bool) -> EditState {
    if shift {
        if e.cursor > 0 {
            EditState { cursor: e.text.len() as int, selection_from: Some(e.cursor), ..e }
        } else {
            e
        }
    } else {
        EditState { cursor: e.text.len() as int, selection_from: None, ..e }
    }
}

/// What a key press does: the new state, whether the text changed, what goes on
/// the clipboard, and whether the box gives up the focus.
#[verifier::ext_equal]
pub ghost struct KeyOutcome {
    pub state: EditState,
    pub changed: bool,
    pub clipboard: Option<Seq<u8>>,
    pub blur: bool,
}

pub open spec fn unchanged(e: EditState) -> KeyOutcome {
    KeyOutcome { state: e, changed: false, clipboard: None, blur: false }
}

/// A key press is possible on this state: the edits it makes are at character
/// boundaries, and moving left does not overflow the selection anchor.
pub open spec fn can_press(e: EditState, key: Key, m: ModifiersHeld, clip: Option<Seq<u8>>) -> bool {
    match key {
        Key::Backspace => can_backspace(e),
        Key::Left => (m.shift && e.cursor > 0) ==> (e.selection_from matches Some(s) ==> s
            < usize::MAX),
        Key::X => m.ctrl ==> can_cut(e),
        Key::C => m.ctrl ==> can_copy(e),
        Key::V => m.ctrl ==> can_paste(e, clip),
        _ => true,
    }
}

/// The outcome of pressing `key` with the modifiers `m`, the clipboard holding `clip`.
pub open spec fn key_pressed(e: EditState, key: Key, m: ModifiersHeld, clip: Option<Seq<u8>>) -> KeyOutcome {
    match key {
        Key::Backspace => {
            let (s, changed) = backspaced(e);
            KeyOutcome { state: s, changed, clipboard: None, blur: false }
        },
        Key::Left => unchanged(moved_left(e, m.shift)),
        Key::Right => unchanged(moved_right(e, m.shift)),
        Key::Up => unchanged(moved_up(e, m.shift)),
        Key::Down => unchanged(moved_down(e, m.shift)),
        Key::Return => KeyOutcome { state: e, changed: false, clipboard: None, blur: true },
        Key::X => if m.ctrl {
            KeyOutcome {
                state: cut_state(e),
                changed: copied(e) is Some,
                clipboard: copied(e),
                blur: false,
            }
        } else {
            unchanged(e)
        },
        Key::C => if m.ctrl {
            KeyOutcome { state: e, changed: false, clipboard: copied(e), blur: false }
        } else {
            unchanged(e)
        },
        Key::V => if m.ctrl {
            KeyOutcome { state: pasted(e, clip), changed: clip is Some, clipboard: None, blur: false }
        } else {
            unchanged(e)
        },
        _ => unchanged(e),
    }
}

/// Index of the first character at or after `i` that is not alphanumeric, or
/// `otherwise` when there is none.
pub open spec fn first_non_alnum_from(cs: Seq<char>, i: int, otherwise: int) -> int
    decreases cs.len() - i,
{
    if i >= cs.len() || i < 0 {
        otherwise
    } else if !alphanumeric(cs[i]) {
        i
    } else {
        first_non_alnum_from(cs, i + 1, otherwise)
    }
}

/// Index of the last character before `lim` that is not alphanumeric, or `-1`.
pub open spec fn last_non_alnum_before(cs: Seq<char>, lim: int) -> int
    decreases lim,
{
    if lim <= 0 {
        -1
    } else if !alphanumeric(cs[lim - 1]) {
        lim - 1
    } else {
        last_non_alnum_before(cs, lim - 1)
    }
}

/// Where the word around the cursor ends: the first non-alphanumeric character
/// at or after the cursor (counting characters), else the end of the text.
pub open spec fn word_end(cs: Seq<char>, cursor: int, len: int) -> int {
    first_non_alnum_from(cs, cursor, len)
}

/// Where the word around the cursor starts. Scanning backwards, the last
/// `len - cursor` characters are skipped, then the alphanumeric characters
/// before the first non-alphanumeric one are counted back from the cursor.
pub open spec fn word_start(cs: Seq<char>, cursor: int, len: int) -> int {
    let lim = cs.len() - (len - cursor);
    let i = last_non_alnum_before(cs, lim);
    if i < 0 {
        0
    } else {
        cursor - (lim - 1 - i)
    }
}

/// The state after selecting the word around the cursor, and whether there was
/// a word to select.
pub open spec fn word_selected(e: EditState) -> (EditState, bool) {
    let cs = decode_utf8(e.text);
    let start = word_start(cs, e.cursor, e.text.len() as int);
    let end = word_end(cs, e.cursor, e.text.len() as int);
    if start != end {
        (EditState { cursor: end, selection_from: Some(start), ..e }, true)
    } else {
        (e, false)
    }
}

/// The cursor of a focused box is shown during the first half of every blink period.
pub open spec fn blink_visible(elapsed_ms: int) -> bool {
    (elapsed_ms / CURSOR_BLINK_PERIOD as int) % 2 == 0
}

/// The state of the editable text.
#[derive(Debug)]
pub struct TextBoxTextState {
    pub focused: bool,
    pub text: String,
    pub cursor_pos: usize,
    pub selection_from: Option<usize>,
    pub activated_at: Instant,
    pub cursor_visible: bool,
    pub dirty: bool,
}

pub open spec fn opt_int(o: Option<usize>) -> Option<int> {
    match o {
        Some(s) => Some(s as int),
        None => None,
    }
}

/// A message that announces a change to the text `t`.
pub open spec fn is_change_of(m: TextBoxMessage, t: Seq<char>) -> bool {
    m matches TextBoxMessage::Change(s) && s@ == t
}

/// A clipboard write holds exactly the bytes `b`, if any.
pub open spec fn clipboard_matches(c: Option<String>, b: Option<Seq<u8>>) -> bool {
    match (c, b) {
        (Some(s), Some(t)) => utf8(s@) == t,
        (None, None) => true,
        _ => false,
    }
}


/// Copying is possible: the selection, if any, lies on character boundaries.
pub open spec fn can_copy(e: EditState) -> bool {
    selection_range(e) matches Some((a, b)) ==> is_char_boundary(e.text, a) && is_char_boundary(
        e.text,
        b,
    )
}

/// What a handler asks of its surroundings: messages to send up, text to put on
/// the clipboard, and whether to give up the focus.
#[derive(Debug)]
pub struct TextBoxEffects {
    pub messages: Vec<TextBoxMessage>,
    pub clipboard: Option<String>,
    pub blur: bool,
}

/// Whether the cursor shows `elapsed_ms` milliseconds after the box was activated.
pub fn cursor_blink_visible(elapsed_ms: u128) -> (r: bool)
    ensures
        r == blink_visible(elapsed_ms as int),
{
    (elapsed_ms / CURSOR_BLINK_PERIOD) % 2 == 0
}

/// Every character takes at least one byte.
pub proof fn lemma_utf8_len_at_least_chars(cs: Seq<char>)
    ensures
        cs.len() <= utf8(cs).len(),
    decreases cs.len(),
{
    if cs.len() > 0 {
        lemma_utf8_len_at_least_chars(cs.drop_first());
        assert(encode_scalar(cs[0] as u32).len() >= 1);
    }
}

/// A run of alphanumeric characters from `i` up to `j`, stopped at `j`, ends the scan at `j`.
proof fn lemma_first_non_alnum_run(cs: Seq<char>, i: int, j: int, otherwise: int)
    requires
        0 <= i <= j <= cs.len(),
        forall|k: int| i <= k < j ==> alphanumeric(#[trigger] cs[k]),
        j < cs.len() ==> !alphanumeric(cs[j]),
    ensures
        first_non_alnum_from(cs, i, otherwise) == if j < cs.len() {
            j
        } else {
            otherwise
        },
    decreases j - i,
{
    if i < j {
        lemma_first_non_alnum_run(cs, i + 1, j, otherwise);
    }
}

/// A run of alphanumeric characters back from `lim` over `k` characters, stopped
/// there, ends the backward scan there.
proof fn lemma_last_non_alnum_run(cs: Seq<char>, lim: int, k: int)
    requires
        0 <= k <= lim <= cs.len(),
        forall|t: int| lim - k <= t < lim ==> alphanumeric(#[trigger] cs[t]),
        k < lim ==> !alphanumeric(cs[lim - 1 - k]),
    ensures
        last_non_alnum_before(cs, lim) == if k < lim {
            lim - 1 - k
        } else {
            -1
        },
    decreases k,
{
    if k > 0 {
        lemma_last_non_alnum_run(cs, lim - 1, k - 1);
    }
}


/// A character boundary lies where two valid UTF-8 texts are joined.
pub proof fn lemma_boundary_at_join(x: Seq<u8>, y: Seq<u8>)
    requires
        valid_utf8(x),
        valid_utf8(y),
    ensures
        is_char_boundary(x + y, x.len() as int),
    decreases x.len(),
{
    valid_utf8_concat(x, y);
    if x.len() > 0 {
        let w = length_of_first_scalar(x);
        assert(1 <= w <= x.len());
        let rest = pop_first_scalar(x);
        assert((x + y)[0] == x[0]);
        assert(length_of_first_scalar(x + y) == w);
        assert(pop_first_scalar(x + y) =~= rest + y);
        lemma_boundary_at_join(rest, y);
        assert(valid_utf8(x + y));
        reveal_with_fuel(is_char_boundary, 2);
    }
}

/// The selection, when there is one, runs forwards from the smaller to the larger
/// of anchor and cursor.
pub proof fn lemma_selection_ordered(e: EditState)
    ensures
        selection_range(e) matches Some((a, b)) ==> {
            &&& a < b
            &&& e.selection_from matches Some(s) && ((a == s && b == e.cursor) || (a == e.cursor
                && b == s))
        },
        selection_range(e) is None <==> (e.selection_from is None || e.selection_from == Some(
            e.cursor,
        )),
{
}

/// Cutting a selection and pasting what was cut gives back the text as it was,
/// with the cursor at the end of the pasted part.
pub proof fn lemma_paste_after_cut_restores(e: EditState)
    requires
        valid_utf8(e.text),
        selection_range(e) is Some,
        can_cut(e),
    ensures
        can_paste(cut_state(e), copied(e)),
        pasted(cut_state(e), copied(e)).text == e.text,
        selection_range(e) matches Some((a, b)) && pasted(cut_state(e), copied(e)).cursor == b,
        pasted(cut_state(e), copied(e)).selection_from is None,
{
    let (a, b) = selection_range(e).unwrap();
    let t = e.text;
    let c = cut_state(e);
    lemma_selection_ordered(e);
    valid_utf8_split(t, a);
    valid_utf8_split(t, b);
    let front = t.subrange(0, a);
    let back = t.subrange(b, t.len() as int);
    assert(c.text =~= front + back);
    lemma_boundary_at_join(front, back);
    assert(selection_range(c) is None);
    assert(front.len() == a);
    let p = pasted(c, copied(e));
    assert(p.text =~= t);
}

/// Moving left and then right without Shift, with nothing selected and the cursor
/// not at the start, puts the cursor back where it was.
pub proof fn lemma_right_undoes_left(e: EditState)
    requires
        e.selection_from is None,
        0 < e.cursor <= e.text.len(),
    ensures
        moved_right(moved_left(e, false), false) == e,
{
}

/// Extending the selection one step left and then one step right, starting with
/// no selection, ends with no selection and the cursor back where it was.
pub proof fn lemma_shift_right_undoes_shift_left(e: EditState)
    requires
        e.selection_from is None,
        0 < e.cursor <= e.text.len(),
    ensures
        moved_right(moved_left(e, true), true) == e,
{
}

/// Typing one ASCII character and pressing Backspace, with nothing selected,
/// gives back the text and the cursor as they were (and the whole state, when
/// no selection anchor was set).
pub proof fn lemma_backspace_undoes_ascii_insert(e: EditState, ch: u8)
    requires
        valid_utf8(e.text),
        selection_range(e) is None,
        can_insert(e, seq![ch]),
        ch < 0x80,
    ensures
        can_backspace(inserted(e, seq![ch])),
        backspaced(inserted(e, seq![ch])).0.text == e.text,
        backspaced(inserted(e, seq![ch])).0.cursor == e.cursor,
        e.selection_from is None ==> backspaced(inserted(e, seq![ch])).0 == e,
        backspaced(inserted(e, seq![ch])).1,
{
    let t = e.text;
    let c = e.cursor;
    let i = inserted(e, seq![ch]);
    valid_utf8_split(t, c);
    let front = t.subrange(0, c);
    let back = t.subrange(c, t.len() as int);
    let one: Seq<u8> = seq![ch];
    assert(is_leading_byte_width_1(ch)) by (bit_vector)
        requires
            ch < 0x80,
    ;
    assert(valid_first_scalar(one)) by {
        assert(codepoint_width_1(ch) == ch as u32) by (bit_vector)
            requires
                ch < 0x80,
        ;
    }
    assert(one[0] == ch);
    assert(length_of_first_scalar(one) == 1);
    assert(pop_first_scalar(one) =~= Seq::<u8>::empty());
    assert(valid_utf8(Seq::<u8>::empty()));
    assert(valid_utf8(one));
    valid_utf8_concat(one, back);
    assert(i.text =~= front + (one + back));
    lemma_boundary_at_join(front, one + back);
    assert(front.len() == c);
    assert(i.text[c] == ch);
    assert(i.text.subrange(c, i.text.len() as int)[0] == ch);
    assert(char_width_at(i.text, c) == 1);
    valid_utf8_concat(front, one);
    lemma_boundary_at_join(front + one, back);
    assert(i.text =~= (front + one) + back);
    assert((front + one).len() == c + 1);
    let b = backspaced(i).0;
    assert(b.text =~= t);
}


proof fn lemma_first_non_alnum_props(cs: Seq<char>, i: int, otherwise: int)
    requires
        0 <= i,
    ensures
        ({
            let r = first_non_alnum_from(cs, i, otherwise);
            ||| (r == otherwise && forall|k: int| i <= k < cs.len() ==> alphanumeric(#[trigger] cs[k]))
            ||| (i <= r < cs.len() && !alphanumeric(cs[r]) && forall|k: int|
                i <= k < r ==> alphanumeric(#[trigger] cs[k]))
        }),
    decreases cs.len() - i,
{
    if i < cs.len() && alphanumeric(cs[i]) {
        lemma_first_non_alnum_props(cs, i + 1, otherwise);
    }
}

proof fn lemma_last_non_alnum_props(cs: Seq<char>, lim: int)
    requires
        lim <= cs.len(),
    ensures
        ({
            let r = last_non_alnum_before(cs, lim);
            ||| (r == -1 && forall|k: int| 0 <= k < lim ==> alphanumeric(#[trigger] cs[k]))
            ||| (0 <= r < lim && !alphanumeric(cs[r]) && forall|k: int|
                r < k < lim ==> alphanumeric(#[trigger] cs[k]))
        }),
    decreases lim,
{
    if lim > 0 && alphanumeric(cs[lim - 1]) {
        lemma_last_non_alnum_props(cs, lim - 1);
    }
}

/// In a text of one-byte characters, selecting the word around the cursor selects
/// the longest run of alphanumeric characters that contains or touches the
/// cursor; there is no word to select exactly when the characters on both sides
/// of the cursor are not alphanumeric (or absent).
pub proof fn lemma_word_selection_is_maximal(e: EditState, cs: Seq<char>)
    requires
        e.text == utf8(cs),
        cs.len() == e.text.len(),
        0 <= e.cursor <= e.text.len(),
    ensures
        ({
            let (s, found) = word_selected(e);
            &&& found ==> {
                &&& s.selection_from matches Some(a) && {
                    &&& a <= e.cursor <= s.cursor
                    &&& forall|k: int| a <= k < s.cursor ==> alphanumeric(#[trigger] cs[k])
                    &&& (a == 0 || !alphanumeric(cs[a - 1]))
                    &&& (s.cursor == cs.len() || !alphanumeric(cs[s.cursor]))
                }
                &&& s.text == e.text
            }
            &&& !found ==> {
                &&& s == e
                &&& (e.cursor == cs.len() || !alphanumeric(cs[e.cursor]))
                &&& (e.cursor == 0 || !alphanumeric(cs[e.cursor - 1]))
            }
        }),
{
    assert(decode_utf8(e.text) == cs);
    lemma_first_non_alnum_props(cs, e.cursor, e.text.len() as int);
    lemma_last_non_alnum_props(cs, e.cursor);
}


/// The cursor lies within the text.
pub open spec fn cursor_in_text(e: EditState) -> bool {
    0 <= e.cursor <= e.text.len()
}

/// The character that starts at a boundary inside a valid text ends within it.
proof fn lemma_char_fits(b: Seq<u8>, i: int)
    requires
        valid_utf8(b),
        is_char_boundary(b, i),
        i < b.len(),
    ensures
        1 <= char_width_at(b, i),
        i + char_width_at(b, i) <= b.len(),
{
    valid_utf8_split(b, i);
    let rest = b.subrange(i, b.len() as int);
    assert(rest.len() > 0);
    assert(valid_first_scalar(rest));
}

/// Every key press keeps the cursor within the text.
pub proof fn lemma_key_press_keeps_cursor_in_text(
    e: EditState,
    key: Key,
    m: ModifiersHeld,
    clip: Option<Seq<u8>>,
)
    requires
        valid_utf8(e.text),
        cursor_in_text(e),
        can_press(e, key, m, clip),
    ensures
        cursor_in_text(key_pressed(e, key, m, clip).state),
{
    lemma_selection_ordered(e);
    if let Some((a, b)) = selection_range(e) {
        if key is Backspace || (key is X && m.ctrl) || (key is V && m.ctrl && clip is Some) {
            assert(b <= e.text.len());
        }
    }
    if key is Backspace && selection_range(e) is None && e.cursor > 0 {
        lemma_char_fits(e.text, e.cursor - 1);
    }
}

/// Arrow keys without Shift, nothing anchored: Right moves the cursor one byte
/// on and Left one byte back, within the text; the text stays and nothing
/// gets anchored.
pub proof fn lemma_arrows_move_the_cursor(e: EditState, m: ModifiersHeld, clip: Option<Seq<u8>>)
    requires
        e.selection_from is None,
        0 <= e.cursor <= e.text.len(),
        !m.shift,
    ensures
        (key_pressed(e, Key::Right, m, clip).state == EditState {
            text: e.text,
            cursor: if e.cursor < e.text.len() { e.cursor + 1 } else { e.cursor },
            selection_from: None,
        }),
        (key_pressed(e, Key::Left, m, clip).state == EditState {
            text: e.text,
            cursor: if e.cursor > 0 { e.cursor - 1 } else { e.cursor },
            selection_from: None,
        }),
        !key_pressed(e, Key::Right, m, clip).changed,
        !key_pressed(e, Key::Left, m, clip).changed,
{
}

/// Arrow keys without Shift while a selection is anchored drop the anchor and
/// leave the cursor and the text where they are.
pub proof fn lemma_arrows_drop_the_anchor(e: EditState, m: ModifiersHeld, clip: Option<Seq<u8>>, a: int)
    requires
        e.selection_from == Some(a),
        !m.shift,
    ensures
        (key_pressed(e, Key::Right, m, clip).state == EditState { selection_from: None, ..e }),
        (key_pressed(e, Key::Left, m, clip).state == EditState { selection_from: None, ..e }),
{
}

/// Shift+Right with nothing anchored and the cursor before the end anchors the
/// selection at the old cursor and moves the cursor one byte on: exactly the
/// byte after the old cursor is selected. Shift+Left likewise selects the byte
/// before it.
pub proof fn lemma_shift_arrows_select_one_step(e: EditState, m: ModifiersHeld, clip: Option<Seq<u8>>)
    requires
        e.selection_from is None,
        0 <= e.cursor <= e.text.len(),
        m.shift,
    ensures
        (e.cursor < e.text.len() ==> {
            let s = key_pressed(e, Key::Right, m, clip).state;
            &&& s == EditState { text: e.text, cursor: e.cursor + 1, selection_from: Some(e.cursor) }
            &&& selection_range(s) == Some((e.cursor, e.cursor + 1))
        }),
        (e.cursor > 0 ==> {
            let s = key_pressed(e, Key::Left, m, clip).state;
            &&& s == EditState { text: e.text, cursor: e.cursor - 1, selection_from: Some(e.cursor) }
            &&& selection_range(s) == Some((e.cursor - 1, e.cursor))
        }),
{
}

/// Up goes to the start of the text and Down to its end; with Shift, from a
/// cursor past the start, the anchor is set at the old cursor, so the text
/// between the old cursor and the end reached is selected; without Shift
/// nothing stays anchored. The text never changes.
pub proof fn lemma_up_down_go_to_the_ends(e: EditState, m: ModifiersHeld, clip: Option<Seq<u8>>)
    requires
        0 <= e.cursor <= e.text.len(),
    ensures
        (!m.shift ==> key_pressed(e, Key::Up, m, clip).state == EditState {
            text: e.text,
            cursor: 0,
            selection_from: None,
        }),
        (!m.shift ==> key_pressed(e, Key::Down, m, clip).state == EditState {
            text: e.text,
            cursor: e.text.len() as int,
            selection_from: None,
        }),
        (m.shift && e.cursor > 0 ==> key_pressed(e, Key::Up, m, clip).state == EditState {
            text: e.text,
            cursor: 0,
            selection_from: Some(e.cursor),
        }),
        (m.shift && e.cursor > 0 ==> key_pressed(e, Key::Down, m, clip).state == EditState {
            text: e.text,
            cursor: e.text.len() as int,
            selection_from: Some(e.cursor),
        }),
        !key_pressed(e, Key::Up, m, clip).changed,
        !key_pressed(e, Key::Down, m, clip).changed,
{
}

/// Return gives up the focus and changes nothing else; a key with no editing
/// meaning changes nothing at all.
pub proof fn lemma_return_blurs(e: EditState, m: ModifiersHeld, clip: Option<Seq<u8>>)
    ensures
        (key_pressed(e, Key::Return, m, clip) == (KeyOutcome {
            state: e,
            changed: false,
            clipboard: None,
            blur: true,
        })),
        (key_pressed(e, Key::A, m, clip) == (KeyOutcome {
            state: e,
            changed: false,
            clipboard: None,
            blur: false,
        })),
{
}

/// Backspace over a selection from `a` to `b` deletes exactly those bytes,
/// leaves the cursor at `a` and drops the anchor; with nothing selected and a
/// one-byte character before the cursor, it deletes exactly that byte and
/// moves the cursor back over it; at the start of the text it does nothing.
pub proof fn lemma_backspace_deletes(e: EditState, m: ModifiersHeld, clip: Option<Seq<u8>>)
    requires
        0 <= e.cursor <= e.text.len(),
        e.selection_from matches Some(s) ==> 0 <= s <= e.text.len(),
    ensures
        ({
            let o = key_pressed(e, Key::Backspace, m, clip);
            &&& selection_range(e) matches Some((a, b)) ==> {
                &&& o.state.text == e.text.subrange(0, a) + e.text.subrange(b, e.text.len() as int)
                &&& o.state.cursor == a
                &&& o.state.selection_from is None
                &&& o.changed
            }
            &&& selection_range(e) is None && e.cursor > 0 && e.text[e.cursor - 1] < 0x80 ==> {
                &&& o.state.text == e.text.subrange(0, e.cursor - 1) + e.text.subrange(
                    e.cursor,
                    e.text.len() as int,
                )
                &&& o.state.cursor == e.cursor - 1
                &&& o.changed
            }
            &&& selection_range(e) is None && e.cursor == 0 ==> o.state == e && !o.changed
            &&& !o.blur
            &&& o.clipboard is None
        }),
{
    let o = key_pressed(e, Key::Backspace, m, clip);
    if selection_range(e) is None && e.cursor > 0 && e.text[e.cursor - 1] < 0x80 {
        let c = e.cursor;
        let rest = e.text.subrange(c - 1, e.text.len() as int);
        let b0 = rest[0];
        assert(b0 < 0x80);
        assert(is_leading_byte_width_1(b0)) by (bit_vector)
            requires
                b0 < 0x80,
        ;
        assert(char_width_at(e.text, c - 1) == 1);
        assert(o.state.text =~= e.text.subrange(0, c - 1) + e.text.subrange(c, e.text.len() as int));
    }
    if let Some((a, b)) = selection_range(e) {
        assert(o.state.text =~= e.text.subrange(0, a) + e.text.subrange(b, e.text.len() as int));
    }
}

/// Ctrl+C puts exactly the selected bytes on the clipboard and changes
/// nothing; Ctrl+X does the same and deletes them, leaving the cursor where
/// the selection started; Ctrl+V puts the clipboard's text in place of the
/// selection (or at the cursor) and leaves the cursor right after it. Without
/// a selection, Ctrl+C and Ctrl+X put nothing on the clipboard.
pub proof fn lemma_clipboard_keys(e: EditState, m: ModifiersHeld, clip: Option<Seq<u8>>)
    requires
        m.ctrl,
        0 <= e.cursor <= e.text.len(),
        e.selection_from matches Some(s) ==> 0 <= s <= e.text.len(),
    ensures
        (selection_range(e) matches Some((a, b)) ==> {
            let c = key_pressed(e, Key::C, m, clip);
            let x = key_pressed(e, Key::X, m, clip);
            &&& c.clipboard == Some(e.text.subrange(a, b))
            &&& c.state == e
            &&& !c.changed
            &&& x.clipboard == Some(e.text.subrange(a, b))
            &&& x.state.text == e.text.subrange(0, a) + e.text.subrange(b, e.text.len() as int)
            &&& x.state.cursor == a
            &&& x.state.selection_from is None
            &&& x.changed
        }),
        selection_range(e) is None ==> key_pressed(e, Key::C, m, clip).clipboard is None
            && key_pressed(e, Key::X, m, clip).clipboard is None && key_pressed(e, Key::X, m, clip).state
            == e,
        (clip matches Some(t) ==> {
            let v = key_pressed(e, Key::V, m, clip);
            &&& v.changed
            &&& match selection_range(e) {
                Some((a, b)) => {
                    &&& v.state.text == e.text.subrange(0, a) + t + e.text.subrange(
                        b,
                        e.text.len() as int,
                    )
                    &&& v.state.cursor == a + t.len()
                    &&& v.state.selection_from is None
                },
                None => {
                    &&& v.state.text == e.text.subrange(0, e.cursor) + t + e.text.subrange(
                        e.cursor,
                        e.text.len() as int,
                    )
                    &&& v.state.cursor == e.cursor + t.len()
                },
            }
        }),
        clip is None ==> key_pressed(e, Key::V, m, clip).state == e && !key_pressed(
            e,
            Key::V,
            m,
            clip,
        ).changed,
{
    if let Some((a, b)) = selection_range(e) {
        let x = key_pressed(e, Key::X, m, clip);
        assert(x.state.text =~= e.text.subrange(0, a) + e.text.subrange(b, e.text.len() as int));
    }
}

/// Typed text goes in at the cursor, the bytes before it staying in front and
/// those after it following, and the cursor ends right after the typed text;
/// over a selection, the typed text takes the selected bytes' place and the
/// anchor is dropped.
pub proof fn lemma_typing_goes_in_at_the_cursor(e: EditState, t: Seq<u8>)
    requires
        0 <= e.cursor <= e.text.len(),
        e.selection_from matches Some(s) ==> 0 <= s <= e.text.len(),
    ensures
        selection_range(e) is None ==> inserted(e, t).text == e.text.subrange(0, e.cursor) + t
            + e.text.subrange(e.cursor, e.text.len() as int),
        selection_range(e) is None ==> inserted(e, t).cursor == e.cursor + t.len(),
        selection_range(e) matches Some((a, b)) ==> (inserted(e, t).text == e.text.subrange(0, a) + t
            + e.text.subrange(b, e.text.len() as int) && inserted(e, t).cursor == a + t.len()
            && inserted(e, t).selection_from is None),
{
}

impl TextBoxTextState {
    /// The editing view of this state.
    pub open spec fn edit(&self) -> EditState {
        EditState {
            text: utf8(self.text@),
            cursor: self.cursor_pos as int,
            selection_from: opt_int(self.selection_from),
        }
    }

    /// All but the editing view are as in `old`.
    pub open spec fn same_display(&self, old: &Self) -> bool {
        &&& self.focused == old.focused
        &&& self.activated_at == old.activated_at
        &&& self.cursor_visible == old.cursor_visible
    }

    /// The selected byte range, if anything is selected.
    pub fn selection(&self) -> (r: Option<(usize, usize)>)
        ensures
            match selection_range(self.edit()) {
                Some((a, b)) => r == Some((a as usize, b as usize)),
                None => r is None,
            },
    {
        let pos = self.cursor_pos;
        match self.selection_from {
            Some(selection_from) => {
                if pos == selection_from {
                    None
                } else if pos > selection_from {
                    Some((selection_from, pos))
                } else {
                    Some((pos, selection_from))
                }
            },
            None => None,
        }
    }

    /// Puts `text` in place of the selection, or at the cursor, and moves the cursor after it.
    pub fn insert_text(&mut self, text: &str)
        requires
            can_insert(old(self).edit(), utf8(text@)),
        ensures
            final(self).edit() == inserted(old(self).edit(), utf8(text@)),
            final(self).dirty,
            final(self).same_display(old(self)),
    {
        let n = text.as_bytes().len();
        if let Some((a, b)) = self.selection() {
            string_replace_range(&mut self.text, a, b, text);
            self.cursor_pos = a + n;
            self.selection_from = None;
        } else {
            let pos = self.cursor_pos;
            string_insert_str(&mut self.text, pos, text);
            self.cursor_pos = pos + n;
        }
        self.dirty = true;
    }

    /// Selects the word around the cursor; returns whether there was a word to select.
    pub fn select_word(&mut self) -> (r: bool)
        requires
            old(self).cursor_pos <= utf8(old(self).text@).len(),
        ensures
            (final(self).edit(), r) == word_selected(old(self).edit()),
            final(self).same_display(old(self)),
            final(self).dirty == old(self).dirty,
    {
        let pos = self.cursor_pos;
        let len = self.text.as_str().as_bytes().len();
        let cs = chars_of(self.text.as_str());
        let n = cs.len();
        proof {
            lemma_utf8_len_at_least_chars(self.text@);
        }
        let end: usize;
        if pos >= n {
            end = len;
        } else {
            let mut j = pos;
            loop
                invariant
                    pos <= j <= n,
                    n == cs@.len(),
                    forall|k: int| pos <= k < j ==> alphanumeric(#[trigger] cs@[k]),
                ensures
                    pos <= j <= n,
                    forall|k: int| pos <= k < j ==> alphanumeric(#[trigger] cs@[k]),
                    j < n ==> !alphanumeric(cs@[j as int]),
                decreases n - j,
            {
                if j >= n {
                    break;
                }
                if !is_alphanumeric(cs[j]) {
                    break;
                }
                j = j + 1;
            }
            proof {
                lemma_first_non_alnum_run(cs@, pos as int, j as int, len as int);
            }
            end = if j < n {
                j
            } else {
                len
            };
        }
        let skipped = len - pos;
        let lim: usize = if skipped <= n {
            n - skipped
        } else {
            0
        };
        let mut k: usize = 0;
        loop
            invariant
                k <= lim <= n,
                n == cs@.len(),
                forall|t: int| lim - k <= t < lim ==> alphanumeric(#[trigger] cs@[t]),
            ensures
                k <= lim,
                forall|t: int| lim - k <= t < lim ==> alphanumeric(#[trigger] cs@[t]),
                k < lim ==> !alphanumeric(cs@[lim - 1 - k]),
            decreases lim - k,
        {
            if k >= lim {
                break;
            }
            if !is_alphanumeric(cs[lim - 1 - k]) {
                break;
            }
            k = k + 1;
        }
        proof {
            lemma_last_non_alnum_run(cs@, lim as int, k as int);
        }
        let start: usize = if k < lim {
            pos - k
        } else {
            0
        };
        if start != end {
            self.selection_from = Some(start);
            self.cursor_pos = end;
            true
        } else {
            false
        }
    }

    /// The selected text, for the clipboard.
    pub fn copy(&self) -> (r: Option<String>)
        requires
            can_copy(self.edit()),
        ensures
            clipboard_matches(r, copied(self.edit())),
    {
        if let Some((a, b)) = self.selection() {
            let piece = str_slice(self.text.as_str(), a, b);
            Some(piece.to_owned())
        } else {
            None
        }
    }

    /// Deletes the selection and hands it back for the clipboard.
    pub fn cut(&mut self) -> (r: Option<String>)
        requires
            can_cut(old(self).edit()),
        ensures
            final(self).edit() == cut_state(old(self).edit()),
            clipboard_matches(r, copied(old(self).edit())),
            final(self).dirty == (old(self).dirty || copied(old(self).edit()) is Some),
            final(self).same_display(old(self)),
    {
        if self.selection().is_some() {
            let piece = self.copy();
            proof {
                reveal_strlit("");
                assert(utf8(""@) =~= Seq::<u8>::empty());
            }
            self.insert_text("");
            piece
        } else {
            None
        }
    }

    /// Inserts the clipboard's text, if it holds text; returns whether it did.
    pub fn paste(&mut self, clipboard: Option<Data>) -> (r: bool)
        requires
            can_paste(old(self).edit(), clipboard_text(clipboard)),
        ensures
            final(self).edit() == pasted(old(self).edit(), clipboard_text(clipboard)),
            r == clipboard_text(clipboard) is Some,
            final(self).dirty == (old(self).dirty || r),
            final(self).same_display(old(self)),
    {
        if let Some(Data::String(text)) = clipboard {
            self.insert_text(text.as_str());
            true
        } else {
            false
        }
    }

    /// Starts a fresh blink cycle with the cursor shown, and drops the selection anchor.
    pub fn activate(&mut self)
        ensures
            final(self).text@ == old(self).text@,
            final(self).cursor_pos == old(self).cursor_pos,
            final(self).selection_from is None,
            final(self).cursor_visible,
            final(self).focused == old(self).focused,
            final(self).dirty == old(self).dirty,
    {
        self.activated_at = instant_now();
        self.cursor_visible = true;
        self.selection_from = None;
    }

    /// Handles a key press. `clipboard` is what the clipboard holds; it is only
    /// read for Ctrl+V.
    pub fn on_key_down(&mut self, key: Key, modifiers: ModifiersHeld, clipboard: Option<Data>) -> (r:
        TextBoxEffects)
        requires
            can_press(old(self).edit(), key, modifiers, clipboard_text(clipboard)),
        ensures
            ({
                let o = key_pressed(old(self).edit(), key, modifiers, clipboard_text(clipboard));
                &&& final(self).edit() == o.state
                &&& final(self).dirty == (old(self).dirty || o.changed)
                &&& r.blur == o.blur
                &&& clipboard_matches(r.clipboard, o.clipboard)
                &&& o.changed ==> r.messages@.len() == 1 && is_change_of(
                    r.messages@[0],
                    final(self).text@,
                )
                &&& !o.changed ==> r.messages@.len() == 0
            }),
            final(self).same_display(old(self)),
    {
        let ghost e = self.edit();
        let pos = self.cursor_pos;
        let len = self.text.as_str().as_bytes().len();
        let mut changed = false;
        let mut clip_out: Option<String> = None;
        let mut blur = false;
        match key {
            Key::Backspace => {
                if let Some((a, b)) = self.selection() {
                    proof {
                        reveal_strlit("");
                    }
                    string_replace_range(&mut self.text, a, b, "");
                    self.cursor_pos = a;
                    self.selection_from = None;
                    changed = true;
                } else if pos > 0 {
                    string_remove(&mut self.text, pos - 1);
                    self.cursor_pos = pos - 1;
                    changed = true;
                }
            },
            Key::Left => {
                if pos > 0 {
                    if modifiers.shift {
                        if let Some(s) = self.selection_from {
                            if pos == s + 1 {
                                self.selection_from = None;
                            }
                        } else {
                            self.selection_from = Some(pos);
                        }
                        self.cursor_pos = pos - 1;
                    } else if self.selection_from.is_some() {
                        self.selection_from = None;
                    } else {
                        self.cursor_pos = pos - 1;
                    }
                } else if !modifiers.shift && self.selection_from.is_some() {
                    self.selection_from = None;
                }
            },
            Key::Right => {
                if pos < len {
                    if modifiers.shift {
                        if let Some(s) = self.selection_from {
                            if pos + 1 == s {
                                self.selection_from = None;
                            }
                        } else {
                            self.selection_from = Some(pos);
                        }
                        self.cursor_pos = pos + 1;
                    } else if self.selection_from.is_some() {
                        self.selection_from = None;
                    } else {
                        self.cursor_pos = pos + 1;
                    }
                } else if !modifiers.shift && self.selection_from.is_some() {
                    self.selection_from = None;
                }
            },
            Key::Up => {
                if modifiers.shift {
                    if pos > 0 {
                        self.selection_from = Some(pos);
                        self.cursor_pos = 0;
                    }
                } else {
                    self.cursor_pos = 0;
                    self.selection_from = None;
                }
            },
            Key::Down => {
                if modifiers.shift {
                    if pos > 0 {
                        self.selection_from = Some(pos);
                        self.cursor_pos = len;
                    }
                } else {
                    self.cursor_pos = len;
                    self.selection_from = None;
                }
            },
            Key::Return => {
                blur = true;
            },
            Key::X => {
                if modifiers.ctrl {
                    clip_out = self.cut();
                    changed = clip_out.is_some();
                }
            },
            Key::C => {
                if modifiers.ctrl {
                    clip_out = self.copy();
                }
            },
            Key::V => {
                if modifiers.ctrl {
                    changed = self.paste(clipboard);
                }
            },
            _ => {},
        }
        let mut messages: Vec<TextBoxMessage> = Vec::new();
        if changed {
            self.dirty = true;
            messages.push(TextBoxMessage::Change(self.text.clone()));
        }
        TextBoxEffects { messages, clipboard: clip_out, blur }
    }

    /// Handles typed text: it goes in like an insertion and the change is announced.
    pub fn on_text_entry(&mut self, text: &str) -> (r: TextBoxMessage)
        requires
            can_insert(old(self).edit(), utf8(text@)),
        ensures
            final(self).edit() == inserted(old(self).edit(), utf8(text@)),
            final(self).dirty,
            final(self).same_display(old(self)),
            is_change_of(r, final(self).text@),
    {
        self.insert_text(text);
        self.dirty = true;
        TextBoxMessage::Change(self.text.clone())
    }

    /// Handles gaining the focus: the cursor shows, and the box is told it is open.
    pub fn on_focus(&mut self) -> (r: TextBoxMessage)
        ensures
            final(self).focused,
            final(self).cursor_visible,
            final(self).edit() == old(self).edit(),
            final(self).text@ == old(self).text@,
            final(self).activated_at == old(self).activated_at,
            final(self).dirty == old(self).dirty,
            r is Open,
    {
        self.focused = true;
        self.cursor_visible = true;
        TextBoxMessage::Open
    }

    /// Handles losing the focus: the cursor hides and goes back to the start, the
    /// selection is dropped, and the box is told it is closed and the text committed.
    pub fn on_blur(&mut self) -> (r: Vec<TextBoxMessage>)
        ensures
            !final(self).focused,
            !final(self).cursor_visible,
            final(self).selection_from is None,
            final(self).cursor_pos == 0,
            final(self).text@ == old(self).text@,
            final(self).activated_at == old(self).activated_at,
            final(self).dirty == old(self).dirty,
            r@.len() == 2,
            r@[0] is Close,
            r@[1] matches TextBoxMessage::Commit(t) && t@ == old(self).text@,
    {
        self.focused = false;
        self.cursor_visible = false;
        self.selection_from = None;
        self.cursor_pos = 0;
        let mut r: Vec<TextBoxMessage> = Vec::new();
        r.push(TextBoxMessage::Close);
        r.push(TextBoxMessage::Commit(self.text.clone()));
        r
    }

    /// Sets the cursor's visibility for a focused box `elapsed_ms` milliseconds
    /// after it was activated.
    pub fn blink_at(&mut self, elapsed_ms: u128)
        ensures
            final(self).cursor_visible == if old(self).focused {
                blink_visible(elapsed_ms as int)
            } else {
                old(self).cursor_visible
            },
            final(self).edit() == old(self).edit(),
            final(self).text@ == old(self).text@,
            final(self).focused == old(self).focused,
            final(self).activated_at == old(self).activated_at,
            final(self).dirty == old(self).dirty,
    {
        if self.focused {
            let visible = cursor_blink_visible(elapsed_ms);
            if visible != self.cursor_visible {
                self.cursor_visible = visible;
            }
        }
    }

    /// Handles a timer tick: a focused box blinks its cursor by the time elapsed
    /// since it was activated. Only the cursor's visibility can change, and only
    /// for a focused box.
    pub fn on_tick(&mut self)
        ensures
            !old(self).focused ==> final(self).cursor_visible == old(self).cursor_visible,
            final(self).edit() == old(self).edit(),
            final(self).text@ == old(self).text@,
            final(self).focused == old(self).focused,
            final(self).activated_at == old(self).activated_at,
            final(self).dirty == old(self).dirty,
    {
        if self.focused {
            let elapsed = elapsed_millis(&self.activated_at);
            self.blink_at(elapsed);
        }
    }

    /// Handles a click that lands at byte offset `new_pos` of the text: a left
    /// click activates the box and moves the cursor there; other buttons change
    /// nothing. Any click takes the focus and stops there.
    pub fn on_click(&mut self, button: MouseButton, new_pos: usize) -> (r: EventResponse)
        ensures
            r == (EventResponse { focus: true, stop_bubbling: true }),
            button is Left ==> {
                &&& final(self).cursor_pos == new_pos
                &&& final(self).selection_from is None
                &&& final(self).cursor_visible
            },
            !(button is Left) ==> {
                &&& final(self).cursor_pos == old(self).cursor_pos
                &&& final(self).selection_from == old(self).selection_from
                &&& final(self).cursor_visible == old(self).cursor_visible
                &&& final(self).activated_at == old(self).activated_at
            },
            final(self).text@ == old(self).text@,
            final(self).focused == old(self).focused,
            final(self).dirty == old(self).dirty,
    {
        match button {
            MouseButton::Left => {
                self.activate();
                if new_pos != self.cursor_pos {
                    self.cursor_pos = new_pos;
                }
            },
            _ => {},
        }
        EventResponse { focus: true, stop_bubbling: true }
    }

    /// Handles a double click: selects the word around the cursor, takes the
    /// focus and stops there.
    pub fn on_double_click(&mut self) -> (r: EventResponse)
        requires
            old(self).cursor_pos <= utf8(old(self).text@).len(),
        ensures
            final(self).edit() == word_selected(old(self).edit()).0,
            final(self).same_display(old(self)),
            final(self).dirty == old(self).dirty,
            r == (EventResponse { focus: true, stop_bubbling: true }),
    {
        self.select_word();
        EventResponse { focus: true, stop_bubbling: true }
    }

    /// Handles the start of a drag at byte offset `pos`: the box is activated,
    /// the selection is anchored there, and the box takes the focus and stops
    /// the event there.
    pub fn on_drag_start(&mut self, pos: usize) -> (r: EventResponse)
        ensures
            r == (EventResponse { focus: true, stop_bubbling: true }),
            final(self).selection_from == Some(pos),
            final(self).cursor_pos == old(self).cursor_pos,
            final(self).cursor_visible,
            final(self).text@ == old(self).text@,
            final(self).focused == old(self).focused,
            final(self).dirty == old(self).dirty,
    {
        self.activate();
        self.selection_from = Some(pos);
        EventResponse { focus: true, stop_bubbling: true }
    }

    /// Handles the end of a drag: an empty selection leaves no anchor behind.
    pub fn on_drag_end(&mut self)
        ensures
            final(self).selection_from == if selection_range(old(self).edit()) is None {
                None
            } else {
                old(self).selection_from
            },
            final(self).cursor_pos == old(self).cursor_pos,
            final(self).text@ == old(self).text@,
            final(self).same_display(old(self)),
            final(self).dirty == old(self).dirty,
    {
        if self.selection().is_none() {
            self.selection_from = None;
        }
    }

    /// Handles a drag that is over byte offset `new_pos`: the cursor follows it.
    pub fn on_drag(&mut self, new_pos: usize)
        ensures
            final(self).cursor_pos == new_pos,
            final(self).selection_from == old(self).selection_from,
            final(self).text@ == old(self).text@,
            final(self).same_display(old(self)),
            final(self).dirty == old(self).dirty,
    {
        if new_pos != self.cursor_pos {
            self.cursor_pos = new_pos;
        }
    }

    /// Carries out a clipboard action chosen from a menu. Cut and Paste announce
    /// the resulting text whether or not anything changed; Copy announces nothing.
    pub fn handle_action(&mut self, action: TextBoxAction, clipboard: Option<Data>) -> (r:
        TextBoxEffects)
        requires
            match action {
                TextBoxAction::Cut => can_cut(old(self).edit()),
                TextBoxAction::Copy => can_copy(old(self).edit()),
                TextBoxAction::Paste => can_paste(old(self).edit(), clipboard_text(clipboard)),
            },
        ensures
            !r.blur,
            final(self).same_display(old(self)),
            match action {
                TextBoxAction::Cut => {
                    &&& final(self).edit() == cut_state(old(self).edit())
                    &&& final(self).dirty == (old(self).dirty || copied(old(self).edit()) is Some)
                    &&& clipboard_matches(r.clipboard, copied(old(self).edit()))
                    &&& r.messages@.len() == 1
                    &&& is_change_of(r.messages@[0], final(self).text@)
                },
                TextBoxAction::Copy => {
                    &&& final(self).edit() == old(self).edit()
                    &&& final(self).text@ == old(self).text@
                    &&& final(self).dirty == old(self).dirty
                    &&& clipboard_matches(r.clipboard, copied(old(self).edit()))
                    &&& r.messages@.len() == 0
                },
                TextBoxAction::Paste => {
                    &&& final(self).edit() == pasted(old(self).edit(), clipboard_text(clipboard))
                    &&& final(self).dirty == (old(self).dirty || clipboard_text(clipboard) is Some)
                    &&& r.clipboard is None
                    &&& r.messages@.len() == 1
                    &&& is_change_of(r.messages@[0], final(self).text@)
                },
            },
    {
        let mut messages: Vec<TextBoxMessage> = Vec::new();
        match action {
            TextBoxAction::Cut => {
                let clip = self.cut();
                messages.push(TextBoxMessage::Change(self.text.clone()));
                TextBoxEffects { messages, clipboard: clip, blur: false }
            },
            TextBoxAction::Copy => {
                let clip = self.copy();
                TextBoxEffects { messages, clipboard: clip, blur: false }
            },
            TextBoxAction::Paste => {
                self.paste(clipboard);
                messages.push(TextBoxMessage::Change(self.text.clone()));
                TextBoxEffects { messages, clipboard: None, blur: false }
            },
        }
    }

}


/// The editable text inside a [`TextBox`].
#[derive(Debug)]
pub struct TextBoxText {
    pub default_text: String,
    pub state: Option<TextBoxTextState>,
}

impl TextBoxText {
    /// The current state; meaningful once the state has been set up.
    pub open spec fn st(&self) -> TextBoxTextState {
        self.state.unwrap()
    }

    /// Sets up a fresh state: the default text, unfocused, cursor at the start,
    /// nothing selected, cursor hidden, and in need of a new text layout.
    pub fn reset_state(&mut self)
        ensures
            final(self).default_text@ == old(self).default_text@,
            final(self).state is Some,
            final(self).st().text@ == old(self).default_text@,
            !final(self).st().focused,
            final(self).st().cursor_pos == 0,
            final(self).st().selection_from is None,
            !final(self).st().cursor_visible,
            final(self).st().dirty,
    {
        self.state = Some(
            TextBoxTextState {
                focused: false,
                text: self.default_text.clone(),
                cursor_pos: 0,
                selection_from: None,
                activated_at: instant_now(),
                cursor_visible: false,
                dirty: true,
            },
        );
    }

    /// The selected byte range, if anything is selected.
    pub fn selection(&self) -> (r: Option<(usize, usize)>)
        requires
            self.state is Some,
        ensures
            match selection_range(self.st().edit()) {
                Some((a, b)) => r == Some((a as usize, b as usize)),
                None => r is None,
            },
    {
        match &self.state {
            Some(st) => st.selection(),
            None => None,
        }
    }

    /// Selects the word around the cursor; returns whether there was a word to select.
    pub fn select_word(&mut self) -> (r: bool)
        requires
            old(self).state is Some,
            old(self).st().cursor_pos <= utf8(old(self).st().text@).len(),
        ensures
            final(self).state is Some,
            (final(self).st().edit(), r) == word_selected(old(self).st().edit()),
            final(self).st().same_display(&old(self).st()),
            final(self).st().dirty == old(self).st().dirty,
            final(self).default_text == old(self).default_text,
    {
        match &mut self.state {
            Some(st) => st.select_word(),
            None => false,
        }
    }

    /// Puts `text` in place of the selection, or at the cursor, and moves the cursor after it.
    pub fn insert_text(&mut self, text: &str)
        requires
            old(self).state is Some,
            can_insert(old(self).st().edit(), utf8(text@)),
        ensures
            final(self).state is Some,
            final(self).st().edit() == inserted(old(self).st().edit(), utf8(text@)),
            final(self).st().dirty,
            final(self).st().same_display(&old(self).st()),
            final(self).default_text == old(self).default_text,
    {
        match &mut self.state {
            Some(st) => st.insert_text(text),
            None => {},
        }
    }

    /// Starts a fresh blink cycle with the cursor shown, and drops the selection anchor.
    pub fn activate(&mut self)
        requires
            old(self).state is Some,
        ensures
            final(self).state is Some,
            final(self).st().text@ == old(self).st().text@,
            final(self).st().cursor_pos == old(self).st().cursor_pos,
            final(self).st().selection_from is None,
            final(self).st().cursor_visible,
            final(self).st().focused == old(self).st().focused,
            final(self).st().dirty == old(self).st().dirty,
            final(self).default_text == old(self).default_text,
    {
        match &mut self.state {
            Some(st) => st.activate(),
            None => {},
        }
    }

    /// Deletes the selection and hands it back for the clipboard.
    pub fn cut(&mut self) -> (r: Option<String>)
        requires
            old(self).state is Some,
            can_cut(old(self).st().edit()),
        ensures
            final(self).state is Some,
            final(self).st().edit() == cut_state(old(self).st().edit()),
            clipboard_matches(r, copied(old(self).st().edit())),
            final(self).st().dirty == (old(self).st().dirty || copied(old(self).st().edit()) is Some),
            final(self).st().same_display(&old(self).st()),
            final(self).default_text == old(self).default_text,
    {
        match &mut self.state {
            Some(st) => st.cut(),
            None => None,
        }
    }

    /// The selected text, for the clipboard.
    pub fn copy(&self) -> (r: Option<String>)
        requires
            self.state is Some,
            can_copy(self.st().edit()),
        ensures
            clipboard_matches(r, copied(self.st().edit())),
    {
        match &self.state {
            Some(st) => st.copy(),
            None => None,
        }
    }

    /// Inserts the clipboard's text, if it holds text; returns whether it did.
    pub fn paste(&mut self, clipboard: Option<Data>) -> (r: bool)
        requires
            old(self).state is Some,
            can_paste(old(self).st().edit(), clipboard_text(clipboard)),
        ensures
            final(self).state is Some,
            final(self).st().edit() == pasted(old(self).st().edit(), clipboard_text(clipboard)),
            r == clipboard_text(clipboard) is Some,
            final(self).st().dirty == (old(self).st().dirty || r),
            final(self).st().same_display(&old(self).st()),
            final(self).default_text == old(self).default_text,
    {
        match &mut self.state {
            Some(st) => st.paste(clipboard),
            None => false,
        }
    }

    /// Carries out a clipboard action chosen from a menu (see
    /// [`TextBoxTextState::handle_action`]).
    pub fn handle_action(&mut self, action: TextBoxAction, clipboard: Option<Data>) -> (r:
        TextBoxEffects)
        requires
            old(self).state is Some,
            match action {
                TextBoxAction::Cut => can_cut(old(self).st().edit()),
                TextBoxAction::Copy => can_copy(old(self).st().edit()),
                TextBoxAction::Paste => can_paste(old(self).st().edit(), clipboard_text(clipboard)),
            },
        ensures
            final(self).state is Some,
            !r.blur,
            final(self).st().same_display(&old(self).st()),
            final(self).default_text == old(self).default_text,
            match action {
                TextBoxAction::Cut => {
                    &&& final(self).st().edit() == cut_state(old(self).st().edit())
                    &&& final(self).st().dirty == (old(self).st().dirty || copied(
                        old(self).st().edit(),
                    ) is Some)
                    &&& clipboard_matches(r.clipboard, copied(old(self).st().edit()))
                    &&& r.messages@.len() == 1
                    &&& is_change_of(r.messages@[0], final(self).st().text@)
                },
                TextBoxAction::Copy => {
                    &&& final(self).st().text@ == old(self).st().text@
                    &&& final(self).st().edit() == old(self).st().edit()
                    &&& final(self).st().dirty == old(self).st().dirty
                    &&& clipboard_matches(r.clipboard, copied(old(self).st().edit()))
                    &&& r.messages@.len() == 0
                },
                TextBoxAction::Paste => {
                    &&& final(self).st().edit() == pasted(
                        old(self).st().edit(),
                        clipboard_text(clipboard),
                    )
                    &&& final(self).st().dirty == (old(self).st().dirty || clipboard_text(
                        clipboard,
                    ) is Some)
                    &&& r.clipboard is None
                    &&& r.messages@.len() == 1
                    &&& is_change_of(r.messages@[0], final(self).st().text@)
                },
            },
    {
        match &mut self.state {
            Some(st) => st.handle_action(action, clipboard),
            None => TextBoxEffects { messages: Vec::new(), clipboard: None, blur: false },
        }
    }
}


/// The state of a [`TextBox`]: whether its text has the focus.
#[derive(Debug, Default)]
pub struct TextBoxState {
    pub focused: bool,
}

/// A single-line text input. It reports changes, commits and focus through the
/// callbacks `on_change`, `on_commit` and `on_focus`. `dirty` marks a change
/// of its state that needs a new view.
pub struct TextBox<Ch, Co, Fo> {
    pub text: Option<String>,
    pub on_change: Option<Ch>,
    pub on_commit: Option<Co>,
    pub on_focus: Option<Fo>,
    pub state: Option<TextBoxState>,
    pub dirty: bool,
}

/// A message that reaches a [`TextBox`]: one from its editable text, or any
/// other, which it passes on unchanged.
pub enum TextBoxInput<M> {
    Message(TextBoxMessage),
    Other(M),
}

/// `f` can be called on any `&str` that reads `s`.
pub open spec fn str_callable<M, F: Fn(&str) -> M>(f: F, s: Seq<char>) -> bool {
    forall|x: &str| x@ == s ==> call_requires(f, (x,))
}

/// `m` is what `f` may return for some `&str` that reads `s`.
pub open spec fn str_answer<M, F: Fn(&str) -> M>(f: F, s: Seq<char>, m: M) -> bool {
    exists|x: &str| x@ == s && call_ensures(f, (x,), m)
}

/// A message that carries text `t`.
pub open spec fn text_of(m: TextBoxMessage) -> Seq<char> {
    match m {
        TextBoxMessage::Change(s) => s@,
        TextBoxMessage::Commit(s) => s@,
        _ => Seq::empty(),
    }
}

impl<Ch, Co, Fo> TextBox<Ch, Co, Fo> {
    /// A text box that starts out with `default` as its text, with no callbacks.
    pub fn new(default: Option<String>) -> (r: Self)
        ensures
            r.text == default,
            r.on_change is None,
            r.on_commit is None,
            r.on_focus is None,
            r.state matches Some(st) && !st.focused,
            !r.dirty,
    {
        TextBox {
            text: default,
            on_change: None,
            on_commit: None,
            on_focus: None,
            state: Some(TextBoxState { focused: false }),
            dirty: false,
        }
    }

    /// Whether the state changed since the last time this was asked; asking
    /// clears the mark.
    pub fn is_dirty(&mut self) -> (r: bool)
        ensures
            r == old(self).dirty,
            !final(self).dirty,
            final(self).text == old(self).text,
            final(self).on_change == old(self).on_change,
            final(self).on_commit == old(self).on_commit,
            final(self).on_focus == old(self).on_focus,
            final(self).state == old(self).state,
    {
        let d = self.dirty;
        self.dirty = false;
        d
    }

    /// Sets the callback that turns a changed text into a message.
    pub fn on_change(self, change_fn: Ch) -> (r: Self)
        ensures
            r.on_change == Some(change_fn),
            r.text == self.text,
            r.on_commit == self.on_commit,
            r.on_focus == self.on_focus,
            r.state == self.state,
            r.dirty == self.dirty,
    {
        let mut s = self;
        s.on_change = Some(change_fn);
        s
    }

    /// Sets the callback that turns a committed text into a message.
    pub fn on_commit(self, commit_fn: Co) -> (r: Self)
        ensures
            r.on_commit == Some(commit_fn),
            r.text == self.text,
            r.on_change == self.on_change,
            r.on_focus == self.on_focus,
            r.state == self.state,
            r.dirty == self.dirty,
    {
        let mut s = self;
        s.on_commit = Some(commit_fn);
        s
    }

    /// Sets the callback that produces a message when the box gains the focus.
    pub fn on_focus(self, focus_fn: Fo) -> (r: Self)
        ensures
            r.on_focus == Some(focus_fn),
            r.text == self.text,
            r.on_change == self.on_change,
            r.on_commit == self.on_commit,
            r.state == self.state,
            r.dirty == self.dirty,
    {
        let mut s = self;
        s.on_focus = Some(focus_fn);
        s
    }

    /// The editable text inside the box, which starts out with the box's text
    /// (or nothing) and has its state set up when it is first shown.
    pub fn text_child(&self) -> (r: TextBoxText)
        ensures
            r.default_text@ == match self.text {
                Some(t) => t@,
                None => Seq::<char>::empty(),
            },
            r.state is None,
    {
        let default_text = match &self.text {
            Some(t) => t.clone(),
            None => String::new(),
        };
        TextBoxText { default_text, state: None }
    }

    /// Handles a message: opening and closing set the focus flag (and mark the
    /// box dirty), each message from the editable text goes out through its
    /// callback, if one is set, and any other message is passed on.
    pub fn update<M>(&mut self, input: TextBoxInput<M>) -> (r: Vec<M>) where
        Ch: Fn(&str) -> M,
        Co: Fn(&str) -> M,
        Fo: Fn() -> M,

        requires
            input matches TextBoxInput::Message(message) ==> {
                &&& (message is Open || message is Close) ==> old(self).state is Some
                &&& message is Open ==> (old(self).on_focus matches Some(f) ==> call_requires(
                    f,
                    (),
                ))
                &&& message is Change ==> (old(self).on_change matches Some(f) ==> str_callable(
                    f,
                    text_of(message),
                ))
                &&& message is Commit ==> (old(self).on_commit matches Some(f) ==> str_callable(
                    f,
                    text_of(message),
                ))
            },
        ensures
            final(self).text == old(self).text,
            final(self).on_change == old(self).on_change,
            final(self).on_commit == old(self).on_commit,
            final(self).on_focus == old(self).on_focus,
            match input {
                TextBoxInput::Message(TextBoxMessage::Open) => {
                    &&& final(self).state matches Some(st) && st.focused
                    &&& final(self).dirty
                    &&& match old(self).on_focus {
                        Some(f) => r@.len() == 1 && call_ensures(f, (), r@[0]),
                        None => r@.len() == 0,
                    }
                },
                TextBoxInput::Message(TextBoxMessage::Close) => {
                    &&& final(self).state matches Some(st) && !st.focused
                    &&& final(self).dirty
                    &&& r@.len() == 0
                },
                TextBoxInput::Message(TextBoxMessage::Change(s)) => {
                    &&& final(self).state == old(self).state
                    &&& final(self).dirty == old(self).dirty
                    &&& match old(self).on_change {
                        Some(f) => r@.len() == 1 && str_answer(f, s@, r@[0]),
                        None => r@.len() == 0,
                    }
                },
                TextBoxInput::Message(TextBoxMessage::Commit(s)) => {
                    &&& final(self).state == old(self).state
                    &&& final(self).dirty == old(self).dirty
                    &&& match old(self).on_commit {
                        Some(f) => r@.len() == 1 && str_answer(f, s@, r@[0]),
                        None => r@.len() == 0,
                    }
                },
                TextBoxInput::Other(x) => {
                    &&& final(self).state == old(self).state
                    &&& final(self).dirty == old(self).dirty
                    &&& r@ == seq![x]
                },
            },
    {
        let message = match input {
            TextBoxInput::Message(message) => message,
            TextBoxInput::Other(x) => {
                let mut m: Vec<M> = Vec::new();
                m.push(x);
                return m;
            },
        };
        let mut m: Vec<M> = Vec::new();
        match message {
            TextBoxMessage::Open => {
                self.dirty = true;
                self.state = Some(TextBoxState { focused: true });
                if let Some(focus_fn) = &self.on_focus {
                    m.push(focus_fn());
                }
            },
            TextBoxMessage::Close => {
                self.dirty = true;
                self.state = Some(TextBoxState { focused: false });
            },
            TextBoxMessage::Change(s) => {
                if let Some(change_fn) = &self.on_change {
                    let t: &str = s.as_str();
                    m.push(change_fn(t));
                }
            },
            TextBoxMessage::Commit(s) => {
                if let Some(commit_fn) = &self.on_commit {
                    let t: &str = s.as_str();
                    m.push(commit_fn(t));
                }
            },
        }
        m
    }
}

} // verus!
