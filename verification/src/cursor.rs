//! Cursor identities, buttons, emitted events, and the per-cursor
//! accumulated state.

use vstd::prelude::*;

use crate::arith::{sat_add, sat_add_i64};

verus! {

/// One of the two logical cursors. Never more than two exist.
#[derive(Clone, Copy, Debug, PartialEq, Eq, Structural)]
pub enum CursorId {
    Left,
    Right,
}

/// A pointer button. The declaration order (Left, Right, Middle) is the
/// deterministic order in which held buttons are listed.
#[derive(Clone, Copy, Debug, PartialEq, Eq, PartialOrd, Ord, Hash, Structural)]
pub enum Button {
    Left,
    Right,
    Middle,
}

/// The set of currently-held buttons, one flag per possible button.
#[derive(Clone, Copy, Debug, PartialEq, Eq, Structural)]
pub struct ButtonSet {
    pub left: bool,
    pub right: bool,
    pub middle: bool,
}

impl ButtonSet {
    /// Membership of a button in the set.
    pub open spec fn spec_contains(self, b: Button) -> bool {
        match b {
            Button::Left => self.left,
            Button::Right => self.right,
            Button::Middle => self.middle,
        }
    }

    /// The empty set.
    pub open spec fn spec_empty() -> ButtonSet {
        ButtonSet { left: false, right: false, middle: false }
    }

    /// The set with `b` added.
    pub open spec fn spec_insert(self, b: Button) -> ButtonSet {
        match b {
            Button::Left => ButtonSet { left: true, ..self },
            Button::Right => ButtonSet { right: true, ..self },
            Button::Middle => ButtonSet { middle: true, ..self },
        }
    }

    /// The set with `b` removed.
    pub open spec fn spec_remove(self, b: Button) -> ButtonSet {
        match b {
            Button::Left => ButtonSet { left: false, ..self },
            Button::Right => ButtonSet { right: false, ..self },
            Button::Middle => ButtonSet { middle: false, ..self },
        }
    }

    /// An empty button set.
    pub fn empty() -> (s: ButtonSet)
        ensures
            s == ButtonSet::spec_empty(),
    {
        ButtonSet { left: false, right: false, middle: false }
    }

    /// Whether `b` is currently held.
    pub fn contains(&self, b: Button) -> (r: bool)
        ensures
            r == self.spec_contains(b),
    {
        match b {
            Button::Left => self.left,
            Button::Right => self.right,
            Button::Middle => self.middle,
        }
    }

    /// Adds `b` to the set.
    pub fn insert(&mut self, b: Button)
        ensures
            *final(self) == old(self).spec_insert(b),
    {
        match b {
            Button::Left => self.left = true,
            Button::Right => self.right = true,
            Button::Middle => self.middle = true,
        }
    }

    /// Removes `b` from the set.
    pub fn remove(&mut self, b: Button)
        ensures
            *final(self) == old(self).spec_remove(b),
    {
        match b {
            Button::Left => self.left = false,
            Button::Right => self.right = false,
            Button::Middle => self.middle = false,
        }
    }

    /// The held buttons in the deterministic order Left, Right, Middle.
    pub open spec fn spec_held(self) -> Seq<Button> {
        (if self.left { seq![Button::Left] } else { Seq::empty() })
        + (if self.right { seq![Button::Right] } else { Seq::empty() })
        + (if self.middle { seq![Button::Middle] } else { Seq::empty() })
    }

    /// Lists the held buttons, in the order Left, Right, Middle.
    pub fn held(&self) -> (v: Vec<Button>)
        ensures
            v@ == self.spec_held(),
    {
        let mut v: Vec<Button> = Vec::new();
        if self.left {
            v.push(Button::Left);
        }
        if self.right {
            v.push(Button::Right);
        }
        if self.middle {
            v.push(Button::Middle);
        }
        proof {
            assert(v@ =~= self.spec_held());
        }
        v
    }
}

/// One batched update for one cursor, emitted at a synchronization
/// boundary. Motion is a rational delta: `dx_num` and `dy_num` are
/// numerators over the decoder scale's denominator.
#[derive(Clone, Copy, Debug, PartialEq, Eq)]
pub struct CursorEvent {
    pub cursor: CursorId,
    pub dx_num: i64,
    pub dy_num: i64,
    pub wheel: i64,
    pub button: Option<(Button, bool)>,
}

/// Accumulated per-cursor state, owned by the consumer: a rational
/// position (numerators over the decoder scale's denominator) and the
/// currently-held buttons.
#[derive(Clone, Copy, Debug, PartialEq, Eq)]
pub struct CursorState {
    pub id: CursorId,
    pub x_num: i64,
    pub y_num: i64,
    pub buttons: ButtonSet,
}

/// The button set after applying one event's (button, pressed)
/// transition, if any.
pub open spec fn spec_apply_button(s: ButtonSet, t: Option<(Button, bool)>) -> ButtonSet {
    match t {
        Option::None => s,
        Option::Some((b, down)) => if down {
            s.spec_insert(b)
        } else {
            s.spec_remove(b)
        },
    }
}

impl CursorState {
    /// A fresh cursor at the origin with no buttons held.
    pub fn new(id: CursorId) -> (s: CursorState)
        ensures
            s.id == id,
            s.x_num == 0,
            s.y_num == 0,
            s.buttons == ButtonSet::spec_empty(),
    {
        CursorState { id, x_num: 0, y_num: 0, buttons: ButtonSet::empty() }
    }

    /// Folds one event into the state: position moves by the event's
    /// delta (saturating at the i64 range), and the button set follows
    /// the event's transition.
    pub fn apply(&mut self, event: CursorEvent)
        ensures
            final(self).id == old(self).id,
            final(self).x_num as int == sat_add(old(self).x_num as int, event.dx_num as int),
            final(self).y_num as int == sat_add(old(self).y_num as int, event.dy_num as int),
            final(self).buttons == spec_apply_button(old(self).buttons, event.button),
    {
        self.x_num = sat_add_i64(self.x_num, event.dx_num);
        self.y_num = sat_add_i64(self.y_num, event.dy_num);
        match event.button {
            Option::None => {},
            Option::Some((b, down)) => {
                if down {
                    self.buttons.insert(b);
                } else {
                    self.buttons.remove(b);
                }
            },
        }
    }
}

} // verus!
