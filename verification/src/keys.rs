//! Keys, and what they are bound to.

use vstd::prelude::*;

use crate::action::{Action, ActionModel, Mode};
use crate::text;
use crate::types::Duplicate;

verus! {

/// Which key was pressed.
#[derive(Clone, Copy, Debug, PartialEq, Eq, Structural)]
pub enum KeyCode {
    Backspace,
    Enter,
    Left,
    Right,
    Up,
    Down,
    Tab,
    Esc,
    Char(char),
    /// Any other key, by a number.
    Other(u32),
}

/// A key, with what was held down along with it.
#[derive(Clone, Copy, Debug, PartialEq, Eq, Structural)]
pub struct Key {
    pub code: KeyCode,
    pub shift: bool,
    pub control: bool,
    /// The other modifiers.
    pub others: u8,
    /// Whether the key was pressed, repeated or released.
    pub kind: u8,
    /// The state of the keyboard.
    pub state: u8,
}

/// The ASCII upper-case letter of an ASCII lower-case one; any other character itself.
fn to_ascii_upper(c: char) -> (r: char)
    ensures
        r == text::ascii_upper(c),
{
    if c >= 'a' && c <= 'z' {
        ((c as u32 - 32) as u8) as char
    } else {
        c
    }
}

impl Key {
    /// The key in a form in which the shift key is held down for every upper-case letter, and
    /// for no lower-case one.
    pub open spec fn normal(self) -> Key {
        match self.code {
            KeyCode::Char(c) => if 'A' <= c <= 'Z' {
                Key { shift: true, ..self }
            } else if self.shift {
                Key { code: KeyCode::Char(text::ascii_upper(c)), ..self }
            } else {
                self
            },
            _ => self,
        }
    }

    /// The key in its normal form.
    pub fn normalize(&self) -> (r: Key)
        ensures
            r == self.normal(),
    {
        match self.code {
            KeyCode::Char(c) => if c >= 'A' && c <= 'Z' {
                Key { shift: true, ..*self }
            } else if self.shift {
                Key { code: KeyCode::Char(to_ascii_upper(c)), ..*self }
            } else {
                *self
            },
            _ => *self,
        }
    }
}

/// The normal form of a normal form is that form.
pub proof fn normal_stays(key: Key)
    ensures
        key.normal().normal() == key.normal(),
{
}

/// The keys in their normal forms.
pub open spec fn normal_keys(keys: Seq<Key>) -> Seq<Key> {
    keys.map_values(|k: Key| k.normal())
}

fn same_keys(a: &Vec<Key>, b: &Vec<Key>) -> (r: bool)
    ensures
        r == (normal_keys(a@) == normal_keys(b@)),
{
    assert(normal_keys(a@).len() == a@.len());
    assert(normal_keys(b@).len() == b@.len());
    if a.len() != b.len() {
        return false;
    }
    let mut i: usize = 0;
    while i < a.len()
        invariant
            a.len() == b.len(),
            i <= a.len(),
            forall|j: int| 0 <= j < i ==> a[j].normal() == b[j].normal(),
        decreases a.len() - i,
    {
        if a[i].normalize() != b[i].normalize() {
            assert(normal_keys(a@)[i as int] != normal_keys(b@)[i as int]);
            return false;
        }
        i += 1;
    }
    assert(normal_keys(a@) =~= normal_keys(b@));
    true
}

/// What some keys are bound to.
#[derive(Clone, Debug, PartialEq, Eq)]
pub struct Binding {
    pub keys: Vec<Key>,
    pub action: Action,
}

/// The actions that keys are bound to. A later binding of the same keys takes the place of an
/// earlier one.
#[derive(Clone, Debug, PartialEq, Eq)]
pub struct KeyMap {
    pub bindings: Vec<Binding>,
}

/// What the bindings make of keys in their normal forms.
pub open spec fn bound(bindings: Seq<Binding>) -> Map<Seq<Key>, ActionModel>
    decreases bindings.len(),
{
    if bindings.len() == 0 {
        Map::empty()
    } else {
        bound(bindings.drop_last()).insert(
            normal_keys(bindings.last().keys@),
            bindings.last().action@,
        )
    }
}

impl View for KeyMap {
    type V = Map<Seq<Key>, ActionModel>;

    open spec fn view(&self) -> Map<Seq<Key>, ActionModel> {
        bound(self.bindings@)
    }
}

/// What the map holds for the keys.
pub open spec fn looked_up(map: Map<Seq<Key>, ActionModel>, keys: Seq<Key>) -> Option<ActionModel> {
    if map.dom().contains(normal_keys(keys)) {
        Some(map[normal_keys(keys)])
    } else {
        None
    }
}

impl KeyMap {
    /// No keys are bound.
    pub fn new() -> (r: Self)
        ensures
            r@ == Map::<Seq<Key>, ActionModel>::empty(),
    {
        KeyMap { bindings: Vec::new() }
    }

    /// Binds the keys to the action.
    pub fn insert(&mut self, keys: Vec<Key>, action: Action)
        ensures
            final(self)@ == old(self)@.insert(normal_keys(keys@), action@),
    {
        let ghost before = self.bindings@;
        self.bindings.push(Binding { keys, action });
        assert(self.bindings@.drop_last() =~= before);
    }

    /// The action that the keys are bound to.
    pub fn get(&self, keys: &Vec<Key>) -> (r: Option<Action>)
        ensures
            text::opt_view(r) == looked_up(self@, keys@),
    {
        let mut i: usize = self.bindings.len();
        assert(self.bindings@.take(i as int) =~= self.bindings@);
        while i > 0
            invariant
                i <= self.bindings.len(),
                looked_up(bound(self.bindings@.take(i as int)), keys@) == looked_up(self@, keys@),
            decreases i,
        {
            let ghost part = self.bindings@.take(i as int);
            i -= 1;
            assert(part.drop_last() =~= self.bindings@.take(i as int));
            assert(part.last() == self.bindings@[i as int]);
            if same_keys(&self.bindings[i].keys, keys) {
                return Some(self.bindings[i].action.duplicate());
            }
        }
        None
    }
}

/// The actions of each view that has any.
#[derive(Clone, Debug, PartialEq, Eq)]
pub struct KeyBindings {
    pub modes: Vec<(Mode, KeyMap)>,
}

/// The maps of the views. A later map of the same view takes the place of an earlier one.
pub open spec fn maps(modes: Seq<(Mode, KeyMap)>) -> Map<Mode, Map<Seq<Key>, ActionModel>>
    decreases modes.len(),
{
    if modes.len() == 0 {
        Map::empty()
    } else {
        maps(modes.drop_last()).insert(modes.last().0, modes.last().1@)
    }
}

impl View for KeyBindings {
    type V = Map<Mode, Map<Seq<Key>, ActionModel>>;

    open spec fn view(&self) -> Map<Mode, Map<Seq<Key>, ActionModel>> {
        maps(self.modes@)
    }
}

impl KeyBindings {
    /// No view has keys.
    pub fn new() -> (r: Self)
        ensures
            r@ == Map::<Mode, Map<Seq<Key>, ActionModel>>::empty(),
    {
        KeyBindings { modes: Vec::new() }
    }

    /// Gives the view this map.
    pub fn insert(&mut self, mode: Mode, map: KeyMap)
        ensures
            final(self)@ == old(self)@.insert(mode, map@),
    {
        let ghost before = self.modes@;
        self.modes.push((mode, map));
        assert(self.modes@.drop_last() =~= before);
    }

    /// The map of the view.
    pub fn get(&self, mode: Mode) -> (r: Option<&KeyMap>)
        ensures
            match r {
                Some(m) => self@.dom().contains(mode) && self@[mode] == m@,
                None => !self@.dom().contains(mode),
            },
    {
        let mut i: usize = self.modes.len();
        assert(self.modes@.take(i as int) =~= self.modes@);
        while i > 0
            invariant
                i <= self.modes.len(),
                maps(self.modes@.take(i as int)).dom().contains(mode) == self@.dom().contains(mode),
                self@.dom().contains(mode) ==> maps(self.modes@.take(i as int))[mode] == self@[mode],
            decreases i,
        {
            let ghost part = self.modes@.take(i as int);
            i -= 1;
            assert(part.drop_last() =~= self.modes@.take(i as int));
            assert(part.last() == self.modes@[i as int]);
            if self.modes[i].0 == mode {
                return Some(&self.modes[i].1);
            }
        }
        None
    }
}

/// What is bound is found, however its letters are shifted, and other keys keep what they had.
pub proof fn bound_is_found(
    map: Map<Seq<Key>, ActionModel>,
    keys: Seq<Key>,
    action: ActionModel,
    other: Seq<Key>,
)
    ensures
        looked_up(map.insert(normal_keys(keys), action), keys) == Some(action),
        normal_keys(other) == normal_keys(keys) ==> looked_up(
            map.insert(normal_keys(keys), action),
            other,
        ) == Some(action),
        normal_keys(other) != normal_keys(keys) ==> looked_up(
            map.insert(normal_keys(keys), action),
            other,
        ) == looked_up(map, other),
{
}

} // verus!
