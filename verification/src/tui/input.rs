//! Text fields: the `tui_input` crate's `Input`, held as it is and read through names.
use vstd::prelude::*;
use tui_input::backend::crossterm::EventHandler;
use crate::tui::keys::{KeyKind, KeyPress, ALT, CONTROL, META, NO_MODIFIERS, SHIFT};
use crate::tui::keys::KeyCode::{BackTab, Backspace, Char, Delete, Down, End, Enter, Esc, Home, Left, Other, Right, Tab, Up};
use crossterm::event::KeyCode as CK;
use crossterm::event::KeyEventKind as KK;

verus! {

#[verifier::external_type_specification]
#[verifier::external_body]
pub struct ExInput(tui_input::Input);

/// The text a `tui_input::Input` holds.
pub uninterp spec fn input_text(input: tui_input::Input) -> Seq<char>;

/// The cursor position of a `tui_input::Input`, in characters before the cursor.
pub uninterp spec fn input_cursor(input: tui_input::Input) -> nat;

/// The yank buffer of a `tui_input::Input`: the text its cut requests collected, which
/// Ctrl-Y inserts.
pub uninterp spec fn input_yank(input: tui_input::Input) -> Seq<char>;

/// Whether the last request a `tui_input::Input` handled was a cut (its `last_was_cut`):
/// a following cut then adds to the yank buffer instead of replacing it.
pub uninterp spec fn input_last_cut(input: tui_input::Input) -> bool;

/// `tui_input::Input::new`: a field holding `value` with the cursor at its end, and an
/// empty yank buffer.
#[verifier::external_body]
pub fn new_input(value: String) -> (res: tui_input::Input)
    ensures
        input_text(res) == value@,
        input_cursor(res) == value@.len(),
        input_yank(res) == Seq::<char>::empty(),
        !input_last_cut(res),
{
    tui_input::Input::new(value)
}

/// `tui_input::Input::default`: an empty field with the cursor at the start, and an empty
/// yank buffer.
#[verifier::external_body]
pub fn empty_input() -> (res: tui_input::Input)
    ensures
        input_text(res) == Seq::<char>::empty(),
        input_cursor(res) == 0,
        input_yank(res) == Seq::<char>::empty(),
        !input_last_cut(res),
{
    tui_input::Input::default()
}

/// `tui_input::Input::value`: the text the field holds.
#[verifier::external_body]
pub fn input_value(input: &tui_input::Input) -> (res: &str)
    ensures
        res@ == input_text(*input),
{
    input.value()
}

/// What `tui_input` does with a field for a key: the `InputRequest` its crossterm
/// backend maps the key to.
pub enum EditRequest {
    InsertChar(char),
    GoToPrevChar,
    GoToNextChar,
    GoToPrevWord,
    GoToNextWord,
    GoToStart,
    GoToEnd,
    DeletePrevChar,
    DeleteNextChar,
    DeletePrevWord,
    DeleteNextWord,
    DeleteLine,
    DeleteTillEnd,
    Yank,
}

/// The request for a key, as `tui_input::backend::crossterm::to_input_request` maps it:
/// only presses and repeats count, and the modifiers must be exactly the ones listed.
pub open spec fn edit_request(key: KeyPress) -> Option<EditRequest> {
    let m = key.modifiers;
    if key.kind == KeyKind::Release {
        None
    } else {
        match key.code {
            Backspace => if m == NO_MODIFIERS {
                Some(EditRequest::DeletePrevChar)
            } else if m == META || m == ALT {
                Some(EditRequest::DeletePrevWord)
            } else {
                None
            },
            Delete => if m == NO_MODIFIERS {
                Some(EditRequest::DeleteNextChar)
            } else if m == CONTROL {
                Some(EditRequest::DeleteNextWord)
            } else {
                None
            },
            Left => if m == NO_MODIFIERS {
                Some(EditRequest::GoToPrevChar)
            } else if m == CONTROL {
                Some(EditRequest::GoToPrevWord)
            } else {
                None
            },
            Right => if m == NO_MODIFIERS {
                Some(EditRequest::GoToNextChar)
            } else if m == CONTROL {
                Some(EditRequest::GoToNextWord)
            } else {
                None
            },
            Home => if m == NO_MODIFIERS { Some(EditRequest::GoToStart) } else { None },
            End => if m == NO_MODIFIERS { Some(EditRequest::GoToEnd) } else { None },
            Char(c) => if m == CONTROL {
                if c == 'h' {
                    Some(EditRequest::DeletePrevChar)
                } else if c == 'b' {
                    Some(EditRequest::GoToPrevChar)
                } else if c == 'f' {
                    Some(EditRequest::GoToNextChar)
                } else if c == 'u' {
                    Some(EditRequest::DeleteLine)
                } else if c == 'w' {
                    Some(EditRequest::DeletePrevWord)
                } else if c == 'k' {
                    Some(EditRequest::DeleteTillEnd)
                } else if c == 'y' {
                    Some(EditRequest::Yank)
                } else if c == 'a' {
                    Some(EditRequest::GoToStart)
                } else if c == 'e' {
                    Some(EditRequest::GoToEnd)
                } else {
                    None
                }
            } else if m == META {
                if c == 'b' {
                    Some(EditRequest::GoToPrevWord)
                } else if c == 'f' {
                    Some(EditRequest::GoToNextWord)
                } else if c == 'd' {
                    Some(EditRequest::DeletePrevWord)
                } else {
                    None
                }
            } else if m == NO_MODIFIERS || m == SHIFT || m == (CONTROL | ALT) {
                Some(EditRequest::InsertChar(c))
            } else {
                None
            },
            _ => None,
        }
    }
}

/// Where the grapheme before the cursor starts, in characters: the boundary that
/// `unicode_segmentation::GraphemeCursor::prev_boundary` finds from the cursor's
/// position in `text`.
pub uninterp spec fn grapheme_start_before(text: Seq<char>, cursor: nat) -> nat;

/// Where the grapheme after the cursor ends, in characters: the boundary that
/// `unicode_segmentation::GraphemeCursor::next_boundary` finds from the cursor's
/// position in `text`.
pub uninterp spec fn grapheme_end_after(text: Seq<char>, cursor: nat) -> nat;

/// Where the word before the cursor starts, in characters, as `tui_input` finds it from
/// the word boundaries of `unicode_segmentation` (0 when there is none).
pub uninterp spec fn word_start_before(text: Seq<char>, cursor: nat) -> nat;

/// Where the next word after the cursor starts, in characters, as `tui_input` finds it
/// from the word boundaries of `unicode_segmentation` (the text's end when there is none).
pub uninterp spec fn word_start_after(text: Seq<char>, cursor: nat) -> nat;

/// The text `t` with the characters from `from` up to `to` taken out.
pub open spec fn cut(t: Seq<char>, from: nat, to: nat) -> Seq<char> {
    t.subrange(0, from as int) + t.subrange(to as int, t.len() as int)
}

/// What a request does to a field's text `t` and cursor `c` (a character count at most
/// the text's length), with yank buffer `y`, giving text `t2` and cursor `c2`. Moving and
/// deleting by one character steps over a whole grapheme; at the start (or end) of the
/// text they do nothing. A yank inserts the yank buffer at the cursor.
pub open spec fn edit_effect(req: EditRequest, t: Seq<char>, c: nat, y: Seq<char>, t2: Seq<char>, c2: nat) -> bool {
    let len = t.len();
    match req {
        EditRequest::InsertChar(ch) => t2 == t.insert(c as int, ch) && c2 == c + 1,
        EditRequest::GoToPrevChar => t2 == t && c2 == (if c == 0 { 0 } else { grapheme_start_before(t, c) }),
        EditRequest::GoToNextChar => t2 == t && c2 == (if c == len { c } else { grapheme_end_after(t, c) }),
        EditRequest::GoToPrevWord => t2 == t && c2 == (if c == 0 { 0 } else { word_start_before(t, c) }),
        EditRequest::GoToNextWord => t2 == t && c2 == (if c == len { c } else { word_start_after(t, c) }),
        EditRequest::GoToStart => t2 == t && c2 == 0,
        EditRequest::GoToEnd => t2 == t && c2 == len,
        EditRequest::DeletePrevChar => if c == 0 {
            t2 == t && c2 == c
        } else {
            t2 == cut(t, grapheme_start_before(t, c), c) && c2 == grapheme_start_before(t, c)
        },
        EditRequest::DeleteNextChar => if c == len {
            t2 == t && c2 == c
        } else {
            t2 == cut(t, c, grapheme_end_after(t, c)) && c2 == c
        },
        EditRequest::DeletePrevWord => if c == 0 {
            t2 == t && c2 == c
        } else {
            t2 == cut(t, word_start_before(t, c), c) && c2 == word_start_before(t, c)
        },
        EditRequest::DeleteNextWord => if c == len {
            t2 == t && c2 == c
        } else {
            t2 == cut(t, c, word_start_after(t, c)) && c2 == c
        },
        EditRequest::DeleteLine => t2 == Seq::<char>::empty() && c2 == 0,
        EditRequest::DeleteTillEnd => t2 == t.subrange(0, c as int) && c2 == c,
        EditRequest::Yank => t2 == t.subrange(0, c as int) + y + t.subrange(c as int, len as int)
            && c2 == c + y.len(),
    }
}

/// The requests that cut text into the yank buffer.
pub open spec fn is_cut(req: EditRequest) -> bool {
    req is DeleteLine || req is DeletePrevWord || req is DeleteNextWord || req is DeleteTillEnd
}

/// A request that steps by one grapheme past the start or end of the text: it is turned
/// down before anything is recorded, and the whole field stays as it was.
pub open spec fn is_refused_step(req: EditRequest, t: Seq<char>, c: nat) -> bool {
    ||| (req is GoToPrevChar || req is DeletePrevChar) && c == 0
    ||| (req is GoToNextChar || req is DeleteNextChar) && c == t.len()
}

/// The yank buffer after cutting `d`: right after another cut it grows (at the front for
/// a cut to the left of the cursor, at the back for one to its right), else it becomes `d`.
pub open spec fn yank_after_cut(y: Seq<char>, last_cut: bool, d: Seq<char>, left: bool) -> Seq<char> {
    if last_cut {
        if left { d + y } else { y + d }
    } else {
        d
    }
}

/// What a request does to the yank buffer `y` and the cut flag `k`, giving `y2` and `k2`,
/// for text `t` and cursor `c`: cuts of a non-empty stretch record it; after any request
/// that is not turned down, the flag says whether it was a cut.
pub open spec fn yank_effect(req: EditRequest, t: Seq<char>, c: nat, y: Seq<char>, k: bool, y2: Seq<char>, k2: bool) -> bool {
    let len = t.len();
    &&& k2 == (if is_refused_step(req, t, c) { k } else { is_cut(req) })
    &&& y2 == match req {
        EditRequest::DeleteLine => if len == 0 { y } else { yank_after_cut(y, k, t, c == len) },
        EditRequest::DeletePrevWord => if c == 0 {
            y
        } else {
            yank_after_cut(y, k, t.subrange(word_start_before(t, c) as int, c as int), true)
        },
        EditRequest::DeleteNextWord => if c == len {
            y
        } else {
            yank_after_cut(y, k, t.subrange(c as int, word_start_after(t, c) as int), false)
        },
        EditRequest::DeleteTillEnd => yank_after_cut(y, k, t.subrange(c as int, len as int), false),
        _ => y,
    }
}

/// What is known of a field after it handles `key`: a key that maps to no request leaves
/// the field as it was; otherwise the text, cursor and yank buffer change as the request
/// says.
pub open spec fn edited_by(before: tui_input::Input, key: KeyPress, after: tui_input::Input) -> bool {
    let t = input_text(before);
    let c = input_cursor(before);
    match edit_request(key) {
        None => after == before,
        Some(req) => c <= t.len() ==> {
            &&& edit_effect(req, t, c, input_yank(before), input_text(after), input_cursor(after))
            &&& yank_effect(req, t, c, input_yank(before), input_last_cut(before), input_yank(after), input_last_cut(after))
        },
    }
}

/// `tui_input`'s `EventHandler::handle_event` for the key event of `key`.
///
/// Claims: a key that `tui_input` maps to no request leaves the field as it was; for the
/// others, the field's text, cursor, yank buffer and cut flag change as the request says,
/// with the grapheme and word boundaries given by the names above; the boundary before a
/// cursor past the start lies before it, and the one after a cursor short of the end lies
/// after it, within the text. The cursor never passes the end of the text.
#[verifier::external_body]
pub fn input_handle_key(input: &mut tui_input::Input, key: KeyPress)
    ensures
        edited_by(*old(input), key, *final(input)),
        input_cursor(*final(input)) <= input_text(*final(input)).len(),
        ({
            let t = input_text(*old(input));
            let c = input_cursor(*old(input));
            edit_request(key) is Some && c <= t.len() ==> {
                &&& edit_effect(edit_request(key)->Some_0, t, c, input_yank(*old(input)),
                        input_text(*final(input)), input_cursor(*final(input)))
                &&& 0 < c ==> grapheme_start_before(t, c) < c && word_start_before(t, c) < c
                &&& c < t.len() ==> c < grapheme_end_after(t, c) <= t.len() && c < word_start_after(t, c) <= t.len()
            }
        }),
{
    let code = match key.code {
        Char(c) => CK::Char(c), Enter => CK::Enter, Esc => CK::Esc, Tab => CK::Tab,
        BackTab => CK::BackTab, Up => CK::Up, Down => CK::Down, Left => CK::Left,
        Right => CK::Right, Backspace => CK::Backspace, Delete => CK::Delete,
        Home => CK::Home, End => CK::End, Other => CK::Null,
    };
    let kind = match key.kind {
        KeyKind::Press => KK::Press, KeyKind::Repeat => KK::Repeat, KeyKind::Release => KK::Release,
    };
    let mods = crossterm::event::KeyModifiers::from_bits_retain(key.modifiers);
    let event = crossterm::event::KeyEvent::new_with_kind(code, mods, kind);
    input.handle_event(&crossterm::event::Event::Key(event));
}

} // verus!
