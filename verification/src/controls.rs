//! The held movement keys and the direction that they give.

use vstd::prelude::*;
use vstd::string::StrSliceExecFns;

verus! {

/// Which of the four movement keys are held down.
#[derive(Clone, Copy, Debug, PartialEq, Eq, Structural)]
pub struct ControlState {
    pub up: bool,
    pub down: bool,
    pub left: bool,
    pub right: bool,
}

/// A movement key went down (`S..`) or came up (`E..`).
#[derive(Clone, Copy, Debug, PartialEq, Eq, Structural)]
pub enum ControlMsg {
    SUp,
    SDown,
    SLeft,
    SRight,
    EUp,
    EDown,
    ELeft,
    ERight,
}

/// One of the four movement keys.
#[derive(Clone, Copy, Debug, PartialEq, Eq, Structural)]
pub enum Key {
    Up,
    Down,
    Left,
    Right,
}

/// The movement key that a key of the keyboard stands for, by the key's name: an
/// arrow key, or one of W, A, S and D in either case.
pub open spec fn key_of(name: Seq<char>) -> Option<Key> {
    if name == "ArrowUp"@ || name == "w"@ || name == "W"@ {
        Some(Key::Up)
    } else if name == "ArrowDown"@ || name == "s"@ || name == "S"@ {
        Some(Key::Down)
    } else if name == "ArrowLeft"@ || name == "a"@ || name == "A"@ {
        Some(Key::Left)
    } else if name == "ArrowRight"@ || name == "d"@ || name == "D"@ {
        Some(Key::Right)
    } else {
        None
    }
}

/// The message for a movement key that went down (`pressed`) or came up.
pub open spec fn message_of(key: Key, pressed: bool) -> ControlMsg {
    match key {
        Key::Up => if pressed { ControlMsg::SUp } else { ControlMsg::EUp },
        Key::Down => if pressed { ControlMsg::SDown } else { ControlMsg::EDown },
        Key::Left => if pressed { ControlMsg::SLeft } else { ControlMsg::ELeft },
        Key::Right => if pressed { ControlMsg::SRight } else { ControlMsg::ERight },
    }
}

/// Whether two strings hold the same characters.
pub fn same_text(a: &str, b: &str) -> (r: bool)
    ensures
        r == (a@ == b@),
{
    let n = a.unicode_len();
    if n != b.unicode_len() {
        return false;
    }
    let mut i: usize = 0;
    while i < n
        invariant
            n == a@.len(),
            n == b@.len(),
            i <= n,
            forall|j: int| 0 <= j < i ==> a@[j] == b@[j],
        decreases n - i,
    {
        if a.get_char(i) != b.get_char(i) {
            return false;
        }
        i += 1;
    }
    assert(a@ =~= b@);
    true
}

/// The movement key that the key named `name` stands for, if it is one.
pub fn movement_key(name: &str) -> (r: Option<Key>)
    ensures
        r == key_of(name@),
{
    if same_text(name, "ArrowUp") || same_text(name, "w") || same_text(name, "W") {
        Some(Key::Up)
    } else if same_text(name, "ArrowDown") || same_text(name, "s") || same_text(name, "S") {
        Some(Key::Down)
    } else if same_text(name, "ArrowLeft") || same_text(name, "a") || same_text(name, "A") {
        Some(Key::Left)
    } else if same_text(name, "ArrowRight") || same_text(name, "d") || same_text(name, "D") {
        Some(Key::Right)
    } else {
        None
    }
}

/// The message for the key named `name` that went down (`pressed`) or came up:
/// none unless it is a movement key.
pub fn key_message(name: &str, pressed: bool) -> (r: Option<ControlMsg>)
    ensures
        r == match key_of(name@) {
            Some(key) => Some(message_of(key, pressed)),
            None => None,
        },
{
    match movement_key(name) {
        None => None,
        Some(Key::Up) => Some(if pressed { ControlMsg::SUp } else { ControlMsg::EUp }),
        Some(Key::Down) => Some(if pressed { ControlMsg::SDown } else { ControlMsg::EDown }),
        Some(Key::Left) => Some(if pressed { ControlMsg::SLeft } else { ControlMsg::ELeft }),
        Some(Key::Right) => Some(if pressed { ControlMsg::SRight } else { ControlMsg::ERight }),
    }
}

/// One component of the direction: 1 where only the positive key is held, -1
/// where only the negative key is held, 0 where neither or both are.
pub open spec fn axis(positive: bool, negative: bool) -> int {
    if positive == negative {
        0
    } else if positive {
        1
    } else {
        -1
    }
}

impl Default for ControlState {
    /// No key is held.
    fn default() -> (r: ControlState)
        ensures
            r == (ControlState { up: false, down: false, left: false, right: false }),
    {
        ControlState { up: false, down: false, left: false, right: false }
    }
}

impl ControlState {
    /// The state after `msg`: the key that it names is held or released, the
    /// other three stay as they are.
    pub open spec fn after(self, msg: ControlMsg) -> ControlState {
        match msg {
            ControlMsg::SUp => ControlState { up: true, ..self },
            ControlMsg::SDown => ControlState { down: true, ..self },
            ControlMsg::SLeft => ControlState { left: true, ..self },
            ControlMsg::SRight => ControlState { right: true, ..self },
            ControlMsg::EUp => ControlState { up: false, ..self },
            ControlMsg::EDown => ControlState { down: false, ..self },
            ControlMsg::ELeft => ControlState { left: false, ..self },
            ControlMsg::ERight => ControlState { right: false, ..self },
        }
    }

    /// Records that a key went down or came up.
    pub fn apply(&mut self, msg: ControlMsg)
        ensures
            *final(self) == old(self).after(msg),
    {
        match msg {
            ControlMsg::SUp => self.up = true,
            ControlMsg::SDown => self.down = true,
            ControlMsg::SLeft => self.left = true,
            ControlMsg::SRight => self.right = true,
            ControlMsg::EUp => self.up = false,
            ControlMsg::EDown => self.down = false,
            ControlMsg::ELeft => self.left = false,
            ControlMsg::ERight => self.right = false,
        }
    }

    /// The direction of movement: forward first (up against down), then strafe
    /// (right against left). Opposing keys cancel.
    pub fn get_2d_vec(&self) -> (r: [i8; 2])
        ensures
            r[0] == axis(self.up, self.down),
            r[1] == axis(self.right, self.left),
    {
        let forward: i8 = if self.up == self.down {
            0
        } else if self.up {
            1
        } else {
            -1
        };
        let strafe: i8 = if self.right == self.left {
            0
        } else if self.right {
            1
        } else {
            -1
        };
        [forward, strafe]
    }
}

/// Each component of a direction is -1, 0 or 1, whatever keys are held.
pub proof fn lemma_axis_is_unit(positive: bool, negative: bool)
    ensures
        -1 <= axis(positive, negative) <= 1,
        axis(positive, negative) == -axis(negative, positive),
{
}

} // verus!
