//! Key presses and the key map that turns them into actions.
use vstd::prelude::*;

verus! {

/// The key of a key press, as far as the front end tells keys apart.
#[derive(Debug, Clone, Copy, PartialEq, Eq, Structural)]
pub enum KeyCode {
    Char(char),
    Enter,
    Esc,
    Tab,
    BackTab,
    Up,
    Down,
    Left,
    Right,
    Backspace,
    Delete,
    Home,
    End,
    /// Any other key (function keys, page keys, ...).
    Other,
}

/// Whether a key event is a press, an auto-repeat, or a release.
#[derive(Debug, Clone, Copy, PartialEq, Eq, Structural)]
pub enum KeyKind {
    Press,
    Repeat,
    Release,
}

/// No modifier key held.
pub const NO_MODIFIERS: u8 = 0;
/// The shift modifier bit.
pub const SHIFT: u8 = 1;
/// The control modifier bit.
pub const CONTROL: u8 = 2;
/// The alt modifier bit.
pub const ALT: u8 = 4;
/// The super modifier bit.
pub const SUPER: u8 = 8;
/// The hyper modifier bit.
pub const HYPER: u8 = 16;
/// The meta modifier bit.
pub const META: u8 = 32;

/// A key event: the key, the modifier bits held (`SHIFT`, `CONTROL`, `ALT`, `SUPER`,
/// `HYPER`, `META`), and the kind of event.
#[derive(Debug, Clone, Copy, PartialEq, Eq, Structural)]
pub struct KeyPress {
    pub code: KeyCode,
    pub modifiers: u8,
    pub kind: KeyKind,
}

/// A key with its modifiers, as the key map matches it.
#[derive(Debug, Clone, Copy, PartialEq, Eq, Structural)]
pub struct KeyBinding {
    pub code: KeyCode,
    pub modifiers: u8,
}

impl KeyBinding {
    /// The key with no modifier held.
    pub fn plain(code: KeyCode) -> (b: Self)
        ensures
            b == (KeyBinding { code, modifiers: NO_MODIFIERS }),
    {
        KeyBinding { code, modifiers: NO_MODIFIERS }
    }
}

/// What a key does on a list or detail screen.
#[derive(Debug, Clone, Copy, PartialEq, Eq, Structural)]
pub enum Action {
    Quit,
    MoveUp,
    MoveDown,
    Select,
    New,
    Delete,
    Edit,
    Confirm,
    Cancel,
    Search,
}

/// The bindings from keys to actions; no key is bound twice.
#[derive(Debug)]
pub struct KeyMap(pub Vec<(KeyBinding, Action)>);

/// The action bound to `b` in `bindings`, if any (the first binding of `b`).
pub open spec fn lookup(bindings: Seq<(KeyBinding, Action)>, b: KeyBinding) -> Option<Action>
    decreases bindings.len(),
{
    if bindings.len() == 0 {
        None
    } else if bindings[0].0 == b {
        Some(bindings[0].1)
    } else {
        lookup(bindings.drop_first(), b)
    }
}

/// No key is bound twice.
pub open spec fn keys_distinct(bindings: Seq<(KeyBinding, Action)>) -> bool {
    forall|i: int, j: int| 0 <= i < j < bindings.len() ==> bindings[i].0 != bindings[j].0
}

/// The bindings of the default key map.
pub open spec fn default_bindings() -> Seq<(KeyBinding, Action)> {
    seq![
        (KeyBinding { code: KeyCode::Char('q'), modifiers: 0 }, Action::Quit),
        (KeyBinding { code: KeyCode::Char('j'), modifiers: 0 }, Action::MoveDown),
        (KeyBinding { code: KeyCode::Down, modifiers: 0 }, Action::MoveDown),
        (KeyBinding { code: KeyCode::Char('k'), modifiers: 0 }, Action::MoveUp),
        (KeyBinding { code: KeyCode::Up, modifiers: 0 }, Action::MoveUp),
        (KeyBinding { code: KeyCode::Enter, modifiers: 0 }, Action::Select),
        (KeyBinding { code: KeyCode::Char('n'), modifiers: 0 }, Action::New),
        (KeyBinding { code: KeyCode::Char('d'), modifiers: 0 }, Action::Delete),
        (KeyBinding { code: KeyCode::Delete, modifiers: 0 }, Action::Delete),
        (KeyBinding { code: KeyCode::Char('e'), modifiers: 0 }, Action::Edit),
        (KeyBinding { code: KeyCode::Char('y'), modifiers: 0 }, Action::Confirm),
        (KeyBinding { code: KeyCode::Char('/'), modifiers: 0 }, Action::Search),
        (KeyBinding { code: KeyCode::Esc, modifiers: 0 }, Action::Cancel),
    ]
}

impl KeyMap {
    /// The key map in effect: no key bound twice.
    pub open spec fn wf(&self) -> bool {
        keys_distinct(self.0@)
    }

    /// The default bindings: `q` quits, `j`/`k` and the arrows move, Enter selects,
    /// `n` creates, `d`/Delete deletes, `e` edits, `y` confirms, `/` searches and Esc cancels.
    pub fn default() -> (m: Self)
        ensures
            m.0@ == default_bindings(),
            m.wf(),
    {
        let mut v: Vec<(KeyBinding, Action)> = Vec::new();
        v.push((KeyBinding::plain(KeyCode::Char('q')), Action::Quit));
        v.push((KeyBinding::plain(KeyCode::Char('j')), Action::MoveDown));
        v.push((KeyBinding::plain(KeyCode::Down), Action::MoveDown));
        v.push((KeyBinding::plain(KeyCode::Char('k')), Action::MoveUp));
        v.push((KeyBinding::plain(KeyCode::Up), Action::MoveUp));
        v.push((KeyBinding::plain(KeyCode::Enter), Action::Select));
        v.push((KeyBinding::plain(KeyCode::Char('n')), Action::New));
        v.push((KeyBinding::plain(KeyCode::Char('d')), Action::Delete));
        v.push((KeyBinding::plain(KeyCode::Delete), Action::Delete));
        v.push((KeyBinding::plain(KeyCode::Char('e')), Action::Edit));
        v.push((KeyBinding::plain(KeyCode::Char('y')), Action::Confirm));
        v.push((KeyBinding::plain(KeyCode::Char('/')), Action::Search));
        v.push((KeyBinding::plain(KeyCode::Esc), Action::Cancel));
        assert(v@ =~= default_bindings());
        KeyMap(v)
    }

    /// The action bound to the key press's key and modifiers, if any.
    pub fn resolve(&self, key: KeyPress) -> (res: Option<Action>)
        ensures
            res == lookup(self.0@, KeyBinding { code: key.code, modifiers: key.modifiers }),
    {
        let b = KeyBinding { code: key.code, modifiers: key.modifiers };
        let n = self.0.len();
        let mut i: usize = 0;
        assert(self.0@.skip(0) =~= self.0@);
        while i < n
            invariant
                n == self.0@.len(),
                i <= n,
                b == (KeyBinding { code: key.code, modifiers: key.modifiers }),
                lookup(self.0@, b) == lookup(self.0@.skip(i as int), b),
            decreases n - i,
        {
            proof {
                assert(self.0@.skip(i as int).drop_first() =~= self.0@.skip(i + 1));
            }
            if self.0[i].0 == b {
                assert(self.0@.skip(i as int)[0] == self.0@[i as int]);
                return Some(self.0[i].1);
            }
            i = i + 1;
        }
        assert(self.0@.skip(n as int).len() == 0);
        None
    }
}

/// In a key map without repeated keys, a key resolves to the action it is bound to.
pub proof fn law_lookup_finds_binding(bindings: Seq<(KeyBinding, Action)>, i: int)
    requires
        keys_distinct(bindings),
        0 <= i < bindings.len(),
    ensures
        lookup(bindings, bindings[i].0) == Some(bindings[i].1),
    decreases i,
{
    if i > 0 {
        assert(bindings[0].0 != bindings[i].0);
        let rest = bindings.drop_first();
        assert forall|a: int, b: int| 0 <= a < b < rest.len() implies rest[a].0 != rest[b].0 by {
            assert(bindings[a + 1].0 != bindings[b + 1].0);
        }
        law_lookup_finds_binding(rest, i - 1);
    }
}

} // verus!
