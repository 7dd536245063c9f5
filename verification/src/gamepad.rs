//! The buttons of a gamepad, whatever the controller, and their state.
use crate::common::NINTENDO_VENDOR_ID;
use crate::input::ButtonsStatus;
use vstd::prelude::*;
use vstd::std_specs::convert::FromSpecImpl;

verus! {

/// The number of keys of a gamepad.
pub const JOYKEY_COUNT: usize = 20;

/// A key of a gamepad, named after the Joy-Con.
#[derive(Debug, Copy, Clone, PartialEq, Eq, Structural, Hash)]
pub enum JoyKey {
    Up,
    Down,
    Left,
    Right,
    N,
    S,
    E,
    W,
    L,
    R,
    ZL,
    ZR,
    SL,
    SR,
    L3,
    R3,
    Minus,
    Plus,
    Capture,
    Home,
}

impl JoyKey {
    /// The position of the key in the list of keys.
    pub open spec fn spec_index(self) -> nat {
        match self {
            JoyKey::Up => 0,
            JoyKey::Down => 1,
            JoyKey::Left => 2,
            JoyKey::Right => 3,
            JoyKey::N => 4,
            JoyKey::S => 5,
            JoyKey::E => 6,
            JoyKey::W => 7,
            JoyKey::L => 8,
            JoyKey::R => 9,
            JoyKey::ZL => 10,
            JoyKey::ZR => 11,
            JoyKey::SL => 12,
            JoyKey::SR => 13,
            JoyKey::L3 => 14,
            JoyKey::R3 => 15,
            JoyKey::Minus => 16,
            JoyKey::Plus => 17,
            JoyKey::Capture => 18,
            JoyKey::Home => 19,
        }
    }

    /// The key at position `i` of the list of keys.
    pub open spec fn spec_from_index(i: int) -> JoyKey {
        if i == 0 {
            JoyKey::Up
        } else if i == 1 {
            JoyKey::Down
        } else if i == 2 {
            JoyKey::Left
        } else if i == 3 {
            JoyKey::Right
        } else if i == 4 {
            JoyKey::N
        } else if i == 5 {
            JoyKey::S
        } else if i == 6 {
            JoyKey::E
        } else if i == 7 {
            JoyKey::W
        } else if i == 8 {
            JoyKey::L
        } else if i == 9 {
            JoyKey::R
        } else if i == 10 {
            JoyKey::ZL
        } else if i == 11 {
            JoyKey::ZR
        } else if i == 12 {
            JoyKey::SL
        } else if i == 13 {
            JoyKey::SR
        } else if i == 14 {
            JoyKey::L3
        } else if i == 15 {
            JoyKey::R3
        } else if i == 16 {
            JoyKey::Minus
        } else if i == 17 {
            JoyKey::Plus
        } else if i == 18 {
            JoyKey::Capture
        } else {
            JoyKey::Home
        }
    }

    pub fn index(self) -> (r: usize)
        ensures
            r == self.spec_index(),
            r < JOYKEY_COUNT,
    {
        match self {
            JoyKey::Up => 0,
            JoyKey::Down => 1,
            JoyKey::Left => 2,
            JoyKey::Right => 3,
            JoyKey::N => 4,
            JoyKey::S => 5,
            JoyKey::E => 6,
            JoyKey::W => 7,
            JoyKey::L => 8,
            JoyKey::R => 9,
            JoyKey::ZL => 10,
            JoyKey::ZR => 11,
            JoyKey::SL => 12,
            JoyKey::SR => 13,
            JoyKey::L3 => 14,
            JoyKey::R3 => 15,
            JoyKey::Minus => 16,
            JoyKey::Plus => 17,
            JoyKey::Capture => 18,
            JoyKey::Home => 19,
        }
    }

    pub fn from_index(i: usize) -> (r: JoyKey)
        requires
            i < JOYKEY_COUNT,
        ensures
            r == JoyKey::spec_from_index(i as int),
            r.spec_index() == i,
    {
        match i {
            0 => JoyKey::Up,
            1 => JoyKey::Down,
            2 => JoyKey::Left,
            3 => JoyKey::Right,
            4 => JoyKey::N,
            5 => JoyKey::S,
            6 => JoyKey::E,
            7 => JoyKey::W,
            8 => JoyKey::L,
            9 => JoyKey::R,
            10 => JoyKey::ZL,
            11 => JoyKey::ZR,
            12 => JoyKey::SL,
            13 => JoyKey::SR,
            14 => JoyKey::L3,
            15 => JoyKey::R3,
            16 => JoyKey::Minus,
            17 => JoyKey::Plus,
            18 => JoyKey::Capture,
            _ => JoyKey::Home,
        }
    }
}

/// Each key has its own position, and the positions are the first twenty
/// naturals.
pub proof fn law_joykey_index(k: JoyKey, i: int)
    ensures
        k.spec_index() < JOYKEY_COUNT,
        JoyKey::spec_from_index(k.spec_index() as int) == k,
        0 <= i < JOYKEY_COUNT ==> JoyKey::spec_from_index(i).spec_index() == i,
{
}

/// Whether a key is held down.
#[derive(Debug, Copy, Clone, PartialEq, Eq, Structural)]
pub enum KeyStatus {
    Pressed,
    Released,
}

impl Default for KeyStatus {
    fn default() -> (r: Self)
        ensures
            r == KeyStatus::Released,
    {
        KeyStatus::Released
    }
}

impl From<bool> for KeyStatus {
    fn from(b: bool) -> (r: Self) {
        if b {
            KeyStatus::Pressed
        } else {
            KeyStatus::Released
        }
    }
}

impl FromSpecImpl<bool> for KeyStatus {
    open spec fn obeys_from_spec() -> bool {
        true
    }

    open spec fn from_spec(b: bool) -> KeyStatus {
        if b {
            KeyStatus::Pressed
        } else {
            KeyStatus::Released
        }
    }
}

/// The status of a key that is pressed when `b` holds.
pub open spec fn status(b: bool) -> KeyStatus {
    if b {
        KeyStatus::Pressed
    } else {
        KeyStatus::Released
    }
}

fn key_status(b: bool) -> (r: KeyStatus)
    ensures
        r == status(b),
{
    if b {
        KeyStatus::Pressed
    } else {
        KeyStatus::Released
    }
}

/// The status of each key, by position.
pub struct KeyMap {
    pub keys: Vec<KeyStatus>,
}

impl KeyMap {
    pub fn get(&self, key: JoyKey) -> (r: KeyStatus)
        requires
            self.keys@.len() == JOYKEY_COUNT,
        ensures
            r == self.keys@[key.spec_index() as int],
    {
        self.keys[key.index()]
    }
}

/// Whether bit `n` of `x` is set.
pub open spec fn bit(x: u8, n: nat) -> bool {
    (x as nat / vstd::arithmetic::power2::pow2(n)) % 2 == 1
}

/// The status of each key of a Joy-Con or Pro Controller, by position.
pub open spec fn joycon_key_seq(b: ButtonsStatus) -> Seq<KeyStatus> {
    seq![
        status(bit(b.left.0, 1)),
        status(bit(b.left.0, 0)),
        status(bit(b.left.0, 3)),
        status(bit(b.left.0, 2)),
        status(bit(b.right.0, 1)),
        status(bit(b.right.0, 2)),
        status(bit(b.right.0, 3)),
        status(bit(b.right.0, 0)),
        status(bit(b.left.0, 6)),
        status(bit(b.right.0, 6)),
        status(bit(b.left.0, 7)),
        status(bit(b.right.0, 7)),
        status(bit(b.left.0, 5) || bit(b.right.0, 5)),
        status(bit(b.left.0, 4) || bit(b.right.0, 4)),
        status(bit(b.middle.0, 3)),
        status(bit(b.middle.0, 2)),
        status(bit(b.middle.0, 0)),
        status(bit(b.middle.0, 1)),
        status(bit(b.middle.0, 5)),
        status(bit(b.middle.0, 4)),
    ]
}

/// Each key of a Joy-Con or Pro Controller is pressed exactly when its own
/// button is: the directions, L and ZL on the left byte (down, up, right,
/// left, SR, SL, L, ZL from bit 0); Y, X, B, A as W, N, S, E, with R and ZR,
/// on the right byte (Y, X, B, A, SR, SL, R, ZR from bit 0); the stick clicks,
/// minus, plus, HOME and capture on the middle byte (minus, plus, right
/// stick, left stick, HOME, capture from bit 0); SL and SR on either side.
pub proof fn law_joycon_key_buttons(b: ButtonsStatus)
    ensures
        joycon_key_seq(b).len() == JOYKEY_COUNT,
        joycon_key_seq(b)[JoyKey::Up.spec_index() as int] == status((b.left.0 / 2) % 2 == 1),
        joycon_key_seq(b)[JoyKey::Down.spec_index() as int] == status((b.left.0 / 1) % 2 == 1),
        joycon_key_seq(b)[JoyKey::Left.spec_index() as int] == status((b.left.0 / 8) % 2 == 1),
        joycon_key_seq(b)[JoyKey::Right.spec_index() as int] == status((b.left.0 / 4) % 2 == 1),
        joycon_key_seq(b)[JoyKey::N.spec_index() as int] == status((b.right.0 / 2) % 2 == 1),
        joycon_key_seq(b)[JoyKey::S.spec_index() as int] == status((b.right.0 / 4) % 2 == 1),
        joycon_key_seq(b)[JoyKey::E.spec_index() as int] == status((b.right.0 / 8) % 2 == 1),
        joycon_key_seq(b)[JoyKey::W.spec_index() as int] == status((b.right.0 / 1) % 2 == 1),
        joycon_key_seq(b)[JoyKey::L.spec_index() as int] == status((b.left.0 / 64) % 2 == 1),
        joycon_key_seq(b)[JoyKey::R.spec_index() as int] == status((b.right.0 / 64) % 2 == 1),
        joycon_key_seq(b)[JoyKey::ZL.spec_index() as int] == status((b.left.0 / 128) % 2 == 1),
        joycon_key_seq(b)[JoyKey::ZR.spec_index() as int] == status((b.right.0 / 128) % 2 == 1),
        joycon_key_seq(b)[JoyKey::L3.spec_index() as int] == status((b.middle.0 / 8) % 2 == 1),
        joycon_key_seq(b)[JoyKey::R3.spec_index() as int] == status((b.middle.0 / 4) % 2 == 1),
        joycon_key_seq(b)[JoyKey::Minus.spec_index() as int] == status((b.middle.0 / 1) % 2 == 1),
        joycon_key_seq(b)[JoyKey::Plus.spec_index() as int] == status((b.middle.0 / 2) % 2 == 1),
        joycon_key_seq(b)[JoyKey::Capture.spec_index() as int] == status((b.middle.0 / 32) % 2 == 1),
        joycon_key_seq(b)[JoyKey::Home.spec_index() as int] == status((b.middle.0 / 16) % 2 == 1),
        joycon_key_seq(b)[JoyKey::SL.spec_index() as int] == status((b.left.0 / 32) % 2 == 1 || (b.right.0 / 32) % 2 == 1),
        joycon_key_seq(b)[JoyKey::SR.spec_index() as int] == status((b.left.0 / 16) % 2 == 1 || (b.right.0 / 16) % 2 == 1),
{
    vstd::arithmetic::power2::lemma2_to64();
}

/// Bit `n` of `x`.
fn get_bit(x: u8, n: u8) -> (r: bool)
    requires
        n < 8,
    ensures
        r == bit(x, n as nat),
{
    proof {
        vstd::arithmetic::power2::lemma2_to64();
    }
    let p: u8 = if n == 0 { 1 } else if n == 1 { 2 } else if n == 2 { 4 } else if n == 3 { 8 } else if n == 4 {
        16
    } else if n == 5 {
        32
    } else if n == 6 {
        64
    } else {
        128
    };
    (x / p) % 2 == 1
}

/// The keys of a Joy-Con or Pro Controller from the buttons of its report:
/// SL and SR are pressed when they are on either side.
#[verifier::rlimit(40)]
#[verifier::spinoff_prover]
pub fn joycon_keys(b: &ButtonsStatus) -> (r: KeyMap)
    ensures
        r.keys@ == joycon_key_seq(*b),
{
    let l = b.left.0;
    let rt = b.right.0;
    let m = b.middle.0;
    let mut keys: Vec<KeyStatus> = Vec::new();
    keys.push(key_status(get_bit(l, 1)));
    assert(keys@ =~= joycon_key_seq(*b).subrange(0, 1));
    keys.push(key_status(get_bit(l, 0)));
    assert(keys@ =~= joycon_key_seq(*b).subrange(0, 2));
    keys.push(key_status(get_bit(l, 3)));
    assert(keys@ =~= joycon_key_seq(*b).subrange(0, 3));
    keys.push(key_status(get_bit(l, 2)));
    assert(keys@ =~= joycon_key_seq(*b).subrange(0, 4));
    keys.push(key_status(get_bit(rt, 1)));
    assert(keys@ =~= joycon_key_seq(*b).subrange(0, 5));
    keys.push(key_status(get_bit(rt, 2)));
    assert(keys@ =~= joycon_key_seq(*b).subrange(0, 6));
    keys.push(key_status(get_bit(rt, 3)));
    assert(keys@ =~= joycon_key_seq(*b).subrange(0, 7));
    keys.push(key_status(get_bit(rt, 0)));
    assert(keys@ =~= joycon_key_seq(*b).subrange(0, 8));
    keys.push(key_status(get_bit(l, 6)));
    assert(keys@ =~= joycon_key_seq(*b).subrange(0, 9));
    keys.push(key_status(get_bit(rt, 6)));
    assert(keys@ =~= joycon_key_seq(*b).subrange(0, 10));
    keys.push(key_status(get_bit(l, 7)));
    assert(keys@ =~= joycon_key_seq(*b).subrange(0, 11));
    keys.push(key_status(get_bit(rt, 7)));
    assert(keys@ =~= joycon_key_seq(*b).subrange(0, 12));
    keys.push(key_status(get_bit(l, 5) || get_bit(rt, 5)));
    assert(keys@ =~= joycon_key_seq(*b).subrange(0, 13));
    keys.push(key_status(get_bit(l, 4) || get_bit(rt, 4)));
    assert(keys@ =~= joycon_key_seq(*b).subrange(0, 14));
    keys.push(key_status(get_bit(m, 3)));
    assert(keys@ =~= joycon_key_seq(*b).subrange(0, 15));
    keys.push(key_status(get_bit(m, 2)));
    assert(keys@ =~= joycon_key_seq(*b).subrange(0, 16));
    keys.push(key_status(get_bit(m, 0)));
    assert(keys@ =~= joycon_key_seq(*b).subrange(0, 17));
    keys.push(key_status(get_bit(m, 1)));
    assert(keys@ =~= joycon_key_seq(*b).subrange(0, 18));
    keys.push(key_status(get_bit(m, 5)));
    assert(keys@ =~= joycon_key_seq(*b).subrange(0, 19));
    keys.push(key_status(get_bit(m, 4)));
    assert(keys@ =~= joycon_key_seq(*b).subrange(0, 20));
    assert(keys@ =~= joycon_key_seq(*b));
    KeyMap { keys }
}

/// The driver of Nintendo controllers.
pub struct JoyconDriver;

impl JoyconDriver {
    /// Whether the driver takes the HID device of this vendor.
    pub fn supports(&self, vendor_id: u16) -> (r: bool)
        ensures
            r == (vendor_id == NINTENDO_VENDOR_ID),
    {
        vendor_id == NINTENDO_VENDOR_ID
    }
}

} // verus!
