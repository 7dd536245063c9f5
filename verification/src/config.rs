//! The mapping files of gyromouse: their grammar, parsed line by line into
//! commands, and the binding of the commands into a [`Buttons`] mapping.
//!
//! A line is blank, a comment after `#`, a special action, or a binding
//! `KEYS = ACTION ACTION ...`, where the keys are one key, two keys pressed
//! together (`K1 + K2`) or a chord (`K1, K2`). Names of keys and actions
//! ignore ASCII case.
use crate::gamepad::JoyKey;
use crate::mapping::{binding_key, Action, Buttons, ButtonsModel, ClickType, ExtAction, KeyboardKey, Layer, MapKey, MouseButton, VirtualKey};
use vstd::prelude::*;
use vstd::std_specs::iter::IteratorSpec;

verus! {

/// How an action acts, when it says so.
#[derive(Debug, Copy, Clone, PartialEq, Eq, Structural)]
pub enum ActionModifier {
    Toggle,
    Instant,
}

/// On which event of the key an action happens, when it says so.
#[derive(Debug, Copy, Clone, PartialEq, Eq, Structural)]
pub enum EventModifier {
    Tap,
    Hold,
    Start,
    Release,
    Turbo,
}

/// An action of a binding with its modifiers.
#[derive(Debug, Copy, Clone, PartialEq, Eq, Structural)]
pub struct JSMAction {
    pub action_mod: Option<ActionModifier>,
    pub event_mod: Option<EventModifier>,
    pub action: ActionType,
}

/// What an action presses.
#[derive(Debug, Copy, Clone, PartialEq, Eq, Structural)]
pub enum ActionType {
    Key(KeyboardKey),
    Mouse(MouseButton),
    Special(SpecialKey),
}

/// The keys that a binding is for.
#[derive(Debug, Copy, Clone, PartialEq, Eq, Structural)]
pub enum Key {
    Simple(MapKey),
    Simul(MapKey, MapKey),
    Chorded(MapKey, MapKey),
}

/// The special actions.
#[derive(Debug, Copy, Clone, PartialEq, Eq, Structural)]
pub enum SpecialKey {
    NoAction,
    GyroOn,
    GyroOff,
    GyroInvertX(bool),
    GyroInvertY(bool),
    GyroTrackBall(bool),
}

/// How a trigger is read.
#[derive(Debug, Copy, Clone, PartialEq, Eq, Structural)]
pub enum TriggerMode {
    NoFull,
    NoSkip,
    NoSkipExclusive,
    MustSkip,
    MaySkip,
    MustSkipR,
    MaySkipR,
}

/// What a stick does.
#[derive(Debug, Copy, Clone, PartialEq, Eq, Structural)]
pub enum StickMode {
    Aim,
    Flick,
    FlickOnly,
    RotateOnly,
    MouseRing,
    MouseArea,
    NoMouse,
    ScrollWheel,
}

/// A command of a mapping file.
#[derive(Debug, Clone)]
pub enum Cmd {
    Binding(Key, Vec<JSMAction>),
    Special(SpecialKey),
}

/// A command as the contracts see it.
pub enum CmdModel {
    Binding(Key, Seq<JSMAction>),
    Special(SpecialKey),
}

impl View for Cmd {
    type V = CmdModel;

    open spec fn view(&self) -> CmdModel {
        match self {
            Cmd::Binding(k, a) => CmdModel::Binding(*k, a@),
            Cmd::Special(s) => CmdModel::Special(*s),
        }
    }
}

/// Where a mapping file stops following the grammar.
#[derive(Debug, Copy, Clone, PartialEq, Eq, Structural)]
pub struct ParseError {
    /// The position, in characters, of the first character not parsed.
    pub position: usize,
}

/// A character in lower case, when it is an ASCII capital letter.
pub open spec fn lower(c: u32) -> u32 {
    if 65 <= c <= 90 {
        (c + 32) as u32
    } else {
        c
    }
}

/// Whether the characters from `p` spell `t`, ignoring ASCII case.
pub open spec fn tag_at(s: Seq<char>, p: int, t: Seq<u8>) -> bool {
    &&& 0 <= p
    &&& p + t.len() <= s.len()
    &&& forall|i: int| 0 <= i < t.len() ==> #[trigger] lower(s[p + i] as u32) == lower(t[i] as u32)
}

/// The low byte of a character.
pub open spec fn low_byte(c: char) -> u8 {
    (c as u32 % 256) as u8
}

/// Whether a byte is an ASCII letter or digit.
pub open spec fn is_alnum_byte(b: u8) -> bool {
    (0x41 <= b <= 0x5A) || (0x61 <= b <= 0x7A) || (0x30 <= b <= 0x39)
}

/// Whether the characters from `p` spell `t`, ignoring ASCII case.
fn tag_no_case(s: &[char], p: usize, t: &[u8]) -> (r: bool)
    requires
        p <= s@.len(),
    ensures
        r == tag_at(s@, p as int, t@),
        s@.len() <= usize::MAX,
{
    if t.len() > s.len() - p {
        return false;
    }
    let mut i: usize = 0;
    while i < t.len()
        invariant
            p + t@.len() <= s@.len(),
            s@.len() <= usize::MAX,
            i <= t@.len(),
            forall|j: int| 0 <= j < i ==> #[trigger] lower(s@[p + j] as u32) == lower(t@[j] as u32),
        decreases t@.len() - i,
    {
        let c = s[p + i] as u32;
        let lc: u32 = if 65 <= c && c <= 90 { c + 32 } else { c };
        let b = t[i] as u32;
        let lb: u32 = if 65 <= b && b <= 90 { b + 32 } else { b };
        if lc != lb {
            assert(lower(s@[p + i] as u32) != lower(t@[i as int] as u32));
            return false;
        }
        i += 1;
    }
    true
}

fn is_alnum_char(c: char) -> (r: bool)
    ensures
        r == is_alnum_byte(low_byte(c)),
{
    let b = (c as u32 % 256) as u8;
    (0x41 <= b && b <= 0x5A) || (0x61 <= b && b <= 0x7A) || (0x30 <= b && b <= 0x39)
}

/// Whether `c` is a space or a tab.
pub open spec fn is_space(c: char) -> bool {
    c == ' ' || c == '\t'
}

/// The position after the spaces and tabs from `p`.
pub open spec fn sp0(s: Seq<char>, p: int) -> int
    decreases s.len() - p,
{
    if 0 <= p < s.len() && is_space(s[p]) {
        sp0(s, p + 1)
    } else {
        p
    }
}

proof fn lemma_sp0_bounds(s: Seq<char>, p: int)
    requires
        0 <= p <= s.len(),
    ensures
        p <= sp0(s, p) <= s.len(),
    decreases s.len() - p,
{
    if 0 <= p < s.len() && is_space(s[p]) {
        lemma_sp0_bounds(s, p + 1);
    }
}

fn skip_spaces(s: &[char], p: usize) -> (r: usize)
    requires
        p <= s@.len(),
    ensures
        r == sp0(s@, p as int),
        p <= r <= s@.len(),
        s@.len() <= usize::MAX,
{
    let mut q = p;
    while q < s.len() && (s[q] == ' ' || s[q] == '\t')
        invariant
            p <= q <= s@.len(),
            sp0(s@, q as int) == sp0(s@, p as int),
        decreases s@.len() - q,
    {
        q += 1;
    }
    q
}

/// Whether the character at `p` is `c`.
pub open spec fn char_at(s: Seq<char>, p: int, c: char) -> bool {
    0 <= p < s.len() && s[p] == c
}

fn is_char(s: &[char], p: usize, c: char) -> (r: bool)
    requires
        p <= s@.len(),
    ensures
        r == char_at(s@, p as int, c),
        s@.len() <= usize::MAX,
{
    p < s.len() && s[p] == c
}

/// The key of the gamepad named at `p`, the first of the list that matches, ignoring case.
#[verifier::opaque]
pub open spec fn joykey_at(s: Seq<char>, p: int) -> Option<(JoyKey, int)> {
    if tag_at(s, p, seq![85u8, 112u8]) {
        Some((JoyKey::Up, p + 2))
    } else if tag_at(s, p, seq![68u8, 111u8, 119u8, 110u8]) {
        Some((JoyKey::Down, p + 4))
    } else if tag_at(s, p, seq![76u8, 101u8, 102u8, 116u8]) {
        Some((JoyKey::Left, p + 4))
    } else if tag_at(s, p, seq![82u8, 105u8, 103u8, 104u8, 116u8]) {
        Some((JoyKey::Right, p + 5))
    } else if tag_at(s, p, seq![78u8]) {
        Some((JoyKey::N, p + 1))
    } else if tag_at(s, p, seq![83u8]) {
        Some((JoyKey::S, p + 1))
    } else if tag_at(s, p, seq![69u8]) {
        Some((JoyKey::E, p + 1))
    } else if tag_at(s, p, seq![87u8]) {
        Some((JoyKey::W, p + 1))
    } else if tag_at(s, p, seq![76u8]) {
        Some((JoyKey::L, p + 1))
    } else if tag_at(s, p, seq![82u8]) {
        Some((JoyKey::R, p + 1))
    } else if tag_at(s, p, seq![90u8, 76u8]) {
        Some((JoyKey::ZL, p + 2))
    } else if tag_at(s, p, seq![90u8, 82u8]) {
        Some((JoyKey::ZR, p + 2))
    } else if tag_at(s, p, seq![83u8, 76u8]) {
        Some((JoyKey::SL, p + 2))
    } else if tag_at(s, p, seq![83u8, 82u8]) {
        Some((JoyKey::SR, p + 2))
    } else if tag_at(s, p, seq![76u8, 51u8]) {
        Some((JoyKey::L3, p + 2))
    } else if tag_at(s, p, seq![82u8, 51u8]) {
        Some((JoyKey::R3, p + 2))
    } else if tag_at(s, p, seq![77u8, 105u8, 110u8, 117u8, 115u8]) {
        Some((JoyKey::Minus, p + 5))
    } else if tag_at(s, p, seq![80u8, 108u8, 117u8, 115u8]) {
        Some((JoyKey::Plus, p + 4))
    } else if tag_at(s, p, seq![67u8, 97u8, 112u8, 116u8, 117u8, 114u8, 101u8]) {
        Some((JoyKey::Capture, p + 7))
    } else if tag_at(s, p, seq![72u8, 111u8, 109u8, 101u8]) {
        Some((JoyKey::Home, p + 4))
    } else {
        None
    }
}

fn joykey(s: &[char], p: usize) -> (r: Option<(JoyKey, usize)>)
    requires
        p <= s@.len(),
    ensures
        r is Some <==> joykey_at(s@, p as int) is Some,
        r matches Some((v, q)) ==> joykey_at(s@, p as int) == Some((v, q as int)),
        r matches Some((_, q)) ==> p < q <= s@.len(),
{
    reveal(joykey_at);
    let t = [85u8, 112u8];
    assert(t@ =~= seq![85u8, 112u8]);
    if tag_no_case(s, p, &t) {
        return Some((JoyKey::Up, p + 2));
    }
    let t = [68u8, 111u8, 119u8, 110u8];
    assert(t@ =~= seq![68u8, 111u8, 119u8, 110u8]);
    if tag_no_case(s, p, &t) {
        return Some((JoyKey::Down, p + 4));
    }
    let t = [76u8, 101u8, 102u8, 116u8];
    assert(t@ =~= seq![76u8, 101u8, 102u8, 116u8]);
    if tag_no_case(s, p, &t) {
        return Some((JoyKey::Left, p + 4));
    }
    let t = [82u8, 105u8, 103u8, 104u8, 116u8];
    assert(t@ =~= seq![82u8, 105u8, 103u8, 104u8, 116u8]);
    if tag_no_case(s, p, &t) {
        return Some((JoyKey::Right, p + 5));
    }
    let t = [78u8];
    assert(t@ =~= seq![78u8]);
    if tag_no_case(s, p, &t) {
        return Some((JoyKey::N, p + 1));
    }
    let t = [83u8];
    assert(t@ =~= seq![83u8]);
    if tag_no_case(s, p, &t) {
        return Some((JoyKey::S, p + 1));
    }
    let t = [69u8];
    assert(t@ =~= seq![69u8]);
    if tag_no_case(s, p, &t) {
        return Some((JoyKey::E, p + 1));
    }
    let t = [87u8];
    assert(t@ =~= seq![87u8]);
    if tag_no_case(s, p, &t) {
        return Some((JoyKey::W, p + 1));
    }
    let t = [76u8];
    assert(t@ =~= seq![76u8]);
    if tag_no_case(s, p, &t) {
        return Some((JoyKey::L, p + 1));
    }
    let t = [82u8];
    assert(t@ =~= seq![82u8]);
    if tag_no_case(s, p, &t) {
        return Some((JoyKey::R, p + 1));
    }
    let t = [90u8, 76u8];
    assert(t@ =~= seq![90u8, 76u8]);
    if tag_no_case(s, p, &t) {
        return Some((JoyKey::ZL, p + 2));
    }
    let t = [90u8, 82u8];
    assert(t@ =~= seq![90u8, 82u8]);
    if tag_no_case(s, p, &t) {
        return Some((JoyKey::ZR, p + 2));
    }
    let t = [83u8, 76u8];
    assert(t@ =~= seq![83u8, 76u8]);
    if tag_no_case(s, p, &t) {
        return Some((JoyKey::SL, p + 2));
    }
    let t = [83u8, 82u8];
    assert(t@ =~= seq![83u8, 82u8]);
    if tag_no_case(s, p, &t) {
        return Some((JoyKey::SR, p + 2));
    }
    let t = [76u8, 51u8];
    assert(t@ =~= seq![76u8, 51u8]);
    if tag_no_case(s, p, &t) {
        return Some((JoyKey::L3, p + 2));
    }
    let t = [82u8, 51u8];
    assert(t@ =~= seq![82u8, 51u8]);
    if tag_no_case(s, p, &t) {
        return Some((JoyKey::R3, p + 2));
    }
    let t = [77u8, 105u8, 110u8, 117u8, 115u8];
    assert(t@ =~= seq![77u8, 105u8, 110u8, 117u8, 115u8]);
    if tag_no_case(s, p, &t) {
        return Some((JoyKey::Minus, p + 5));
    }
    let t = [80u8, 108u8, 117u8, 115u8];
    assert(t@ =~= seq![80u8, 108u8, 117u8, 115u8]);
    if tag_no_case(s, p, &t) {
        return Some((JoyKey::Plus, p + 4));
    }
    let t = [67u8, 97u8, 112u8, 116u8, 117u8, 114u8, 101u8];
    assert(t@ =~= seq![67u8, 97u8, 112u8, 116u8, 117u8, 114u8, 101u8]);
    if tag_no_case(s, p, &t) {
        return Some((JoyKey::Capture, p + 7));
    }
    let t = [72u8, 111u8, 109u8, 101u8];
    assert(t@ =~= seq![72u8, 111u8, 109u8, 101u8]);
    if tag_no_case(s, p, &t) {
        return Some((JoyKey::Home, p + 4));
    }
    None
}

/// The virtual key named at `p`, ignoring case.
#[verifier::opaque]
pub open spec fn virtkey_at(s: Seq<char>, p: int) -> Option<(VirtualKey, int)> {
    if tag_at(s, p, seq![76u8, 85u8, 112u8]) {
        Some((VirtualKey::LUp, p + 3))
    } else if tag_at(s, p, seq![76u8, 68u8, 111u8, 119u8, 110u8]) {
        Some((VirtualKey::LDown, p + 5))
    } else if tag_at(s, p, seq![76u8, 76u8, 101u8, 102u8, 116u8]) {
        Some((VirtualKey::LLeft, p + 5))
    } else if tag_at(s, p, seq![76u8, 82u8, 105u8, 103u8, 104u8, 116u8]) {
        Some((VirtualKey::LRight, p + 6))
    } else if tag_at(s, p, seq![76u8, 82u8, 105u8, 110u8, 103u8]) {
        Some((VirtualKey::LRing, p + 5))
    } else if tag_at(s, p, seq![82u8, 85u8, 112u8]) {
        Some((VirtualKey::RUp, p + 3))
    } else if tag_at(s, p, seq![82u8, 68u8, 111u8, 119u8, 110u8]) {
        Some((VirtualKey::RDown, p + 5))
    } else if tag_at(s, p, seq![82u8, 76u8, 101u8, 102u8, 116u8]) {
        Some((VirtualKey::RLeft, p + 5))
    } else if tag_at(s, p, seq![82u8, 82u8, 105u8, 103u8, 104u8, 116u8]) {
        Some((VirtualKey::RRight, p + 6))
    } else if tag_at(s, p, seq![82u8, 82u8, 105u8, 110u8, 103u8]) {
        Some((VirtualKey::RRing, p + 5))
    } else {
        None
    }
}

fn virtkey(s: &[char], p: usize) -> (r: Option<(VirtualKey, usize)>)
    requires
        p <= s@.len(),
    ensures
        r is Some <==> virtkey_at(s@, p as int) is Some,
        r matches Some((v, q)) ==> virtkey_at(s@, p as int) == Some((v, q as int)),
        r matches Some((_, q)) ==> p < q <= s@.len(),
{
    reveal(virtkey_at);
    let t = [76u8, 85u8, 112u8];
    assert(t@ =~= seq![76u8, 85u8, 112u8]);
    if tag_no_case(s, p, &t) {
        return Some((VirtualKey::LUp, p + 3));
    }
    let t = [76u8, 68u8, 111u8, 119u8, 110u8];
    assert(t@ =~= seq![76u8, 68u8, 111u8, 119u8, 110u8]);
    if tag_no_case(s, p, &t) {
        return Some((VirtualKey::LDown, p + 5));
    }
    let t = [76u8, 76u8, 101u8, 102u8, 116u8];
    assert(t@ =~= seq![76u8, 76u8, 101u8, 102u8, 116u8]);
    if tag_no_case(s, p, &t) {
        return Some((VirtualKey::LLeft, p + 5));
    }
    let t = [76u8, 82u8, 105u8, 103u8, 104u8, 116u8];
    assert(t@ =~= seq![76u8, 82u8, 105u8, 103u8, 104u8, 116u8]);
    if tag_no_case(s, p, &t) {
        return Some((VirtualKey::LRight, p + 6));
    }
    let t = [76u8, 82u8, 105u8, 110u8, 103u8];
    assert(t@ =~= seq![76u8, 82u8, 105u8, 110u8, 103u8]);
    if tag_no_case(s, p, &t) {
        return Some((VirtualKey::LRing, p + 5));
    }
    let t = [82u8, 85u8, 112u8];
    assert(t@ =~= seq![82u8, 85u8, 112u8]);
    if tag_no_case(s, p, &t) {
        return Some((VirtualKey::RUp, p + 3));
    }
    let t = [82u8, 68u8, 111u8, 119u8, 110u8];
    assert(t@ =~= seq![82u8, 68u8, 111u8, 119u8, 110u8]);
    if tag_no_case(s, p, &t) {
        return Some((VirtualKey::RDown, p + 5));
    }
    let t = [82u8, 76u8, 101u8, 102u8, 116u8];
    assert(t@ =~= seq![82u8, 76u8, 101u8, 102u8, 116u8]);
    if tag_no_case(s, p, &t) {
        return Some((VirtualKey::RLeft, p + 5));
    }
    let t = [82u8, 82u8, 105u8, 103u8, 104u8, 116u8];
    assert(t@ =~= seq![82u8, 82u8, 105u8, 103u8, 104u8, 116u8]);
    if tag_no_case(s, p, &t) {
        return Some((VirtualKey::RRight, p + 6));
    }
    let t = [82u8, 82u8, 105u8, 110u8, 103u8];
    assert(t@ =~= seq![82u8, 82u8, 105u8, 110u8, 103u8]);
    if tag_no_case(s, p, &t) {
        return Some((VirtualKey::RRing, p + 5));
    }
    None
}

/// The special action named at `p`, ignoring case.
#[verifier::opaque]
pub open spec fn special_at(s: Seq<char>, p: int) -> Option<(SpecialKey, int)> {
    if tag_at(s, p, seq![110u8, 111u8, 110u8, 101u8]) {
        Some((SpecialKey::NoAction, p + 4))
    } else if tag_at(s, p, seq![103u8, 121u8, 114u8, 111u8, 95u8, 111u8, 110u8]) {
        Some((SpecialKey::GyroOn, p + 7))
    } else if tag_at(s, p, seq![103u8, 121u8, 114u8, 111u8, 95u8, 111u8, 102u8, 102u8]) {
        Some((SpecialKey::GyroOff, p + 8))
    } else if tag_at(s, p, seq![103u8, 121u8, 114u8, 111u8, 95u8, 105u8, 110u8, 118u8, 95u8, 120u8]) {
        Some((SpecialKey::GyroInvertX(true), p + 10))
    } else if tag_at(s, p, seq![103u8, 121u8, 114u8, 111u8, 95u8, 105u8, 110u8, 118u8, 95u8, 121u8]) {
        Some((SpecialKey::GyroInvertY(true), p + 10))
    } else if tag_at(s, p, seq![103u8, 121u8, 114u8, 111u8, 95u8, 116u8, 114u8, 97u8, 99u8, 107u8, 98u8, 97u8, 108u8, 108u8]) {
        Some((SpecialKey::GyroTrackBall(true), p + 14))
    } else {
        None
    }
}

fn special(s: &[char], p: usize) -> (r: Option<(SpecialKey, usize)>)
    requires
        p <= s@.len(),
    ensures
        r is Some <==> special_at(s@, p as int) is Some,
        r matches Some((v, q)) ==> special_at(s@, p as int) == Some((v, q as int)),
        r matches Some((_, q)) ==> p < q <= s@.len(),
{
    reveal(special_at);
    let t = [110u8, 111u8, 110u8, 101u8];
    assert(t@ =~= seq![110u8, 111u8, 110u8, 101u8]);
    if tag_no_case(s, p, &t) {
        return Some((SpecialKey::NoAction, p + 4));
    }
    let t = [103u8, 121u8, 114u8, 111u8, 95u8, 111u8, 110u8];
    assert(t@ =~= seq![103u8, 121u8, 114u8, 111u8, 95u8, 111u8, 110u8]);
    if tag_no_case(s, p, &t) {
        return Some((SpecialKey::GyroOn, p + 7));
    }
    let t = [103u8, 121u8, 114u8, 111u8, 95u8, 111u8, 102u8, 102u8];
    assert(t@ =~= seq![103u8, 121u8, 114u8, 111u8, 95u8, 111u8, 102u8, 102u8]);
    if tag_no_case(s, p, &t) {
        return Some((SpecialKey::GyroOff, p + 8));
    }
    let t = [103u8, 121u8, 114u8, 111u8, 95u8, 105u8, 110u8, 118u8, 95u8, 120u8];
    assert(t@ =~= seq![103u8, 121u8, 114u8, 111u8, 95u8, 105u8, 110u8, 118u8, 95u8, 120u8]);
    if tag_no_case(s, p, &t) {
        return Some((SpecialKey::GyroInvertX(true), p + 10));
    }
    let t = [103u8, 121u8, 114u8, 111u8, 95u8, 105u8, 110u8, 118u8, 95u8, 121u8];
    assert(t@ =~= seq![103u8, 121u8, 114u8, 111u8, 95u8, 105u8, 110u8, 118u8, 95u8, 121u8]);
    if tag_no_case(s, p, &t) {
        return Some((SpecialKey::GyroInvertY(true), p + 10));
    }
    let t = [103u8, 121u8, 114u8, 111u8, 95u8, 116u8, 114u8, 97u8, 99u8, 107u8, 98u8, 97u8, 108u8, 108u8];
    assert(t@ =~= seq![103u8, 121u8, 114u8, 111u8, 95u8, 116u8, 114u8, 97u8, 99u8, 107u8, 98u8, 97u8, 108u8, 108u8]);
    if tag_no_case(s, p, &t) {
        return Some((SpecialKey::GyroTrackBall(true), p + 14));
    }
    None
}

/// The mouse button named at `p`, ignoring case.
#[verifier::opaque]
pub open spec fn mousekey_at(s: Seq<char>, p: int) -> Option<(MouseButton, int)> {
    if tag_at(s, p, seq![76u8, 77u8, 111u8, 117u8, 115u8, 101u8]) {
        Some((MouseButton::Left, p + 6))
    } else if tag_at(s, p, seq![77u8, 77u8, 111u8, 117u8, 115u8, 101u8]) {
        Some((MouseButton::Middle, p + 6))
    } else if tag_at(s, p, seq![82u8, 77u8, 111u8, 117u8, 115u8, 101u8]) {
        Some((MouseButton::Right, p + 6))
    } else if tag_at(s, p, seq![115u8, 99u8, 114u8, 111u8, 108u8, 108u8, 117u8, 112u8]) {
        Some((MouseButton::ScrollUp, p + 8))
    } else if tag_at(s, p, seq![115u8, 99u8, 114u8, 111u8, 108u8, 108u8, 100u8, 111u8, 119u8, 110u8]) {
        Some((MouseButton::ScrollDown, p + 10))
    } else if tag_at(s, p, seq![115u8, 99u8, 114u8, 111u8, 108u8, 108u8, 108u8, 101u8, 102u8, 116u8]) {
        Some((MouseButton::ScrollLeft, p + 10))
    } else if tag_at(s, p, seq![115u8, 99u8, 114u8, 111u8, 108u8, 108u8, 114u8, 105u8, 103u8, 104u8, 116u8]) {
        Some((MouseButton::ScrollRight, p + 11))
    } else {
        None
    }
}

/// The three mouse-button keywords, in any case, name their own buttons:
/// `LMouse` the left one, `MMouse` the middle one and `RMouse` the right
/// one, each six characters long; and a mouse key read as one of these
/// three buttons was spelled by its keyword.
pub proof fn law_mouse_button_keywords(s: Seq<char>, p: int)
    requires
        0 <= p,
        p + 6 <= s.len(),
    ensures
        lower(s[p + 0] as u32) == 108 && lower(s[p + 1] as u32) == 109 && lower(s[p + 2] as u32) == 111 && lower(s[p + 3] as u32) == 117 && lower(s[p + 4] as u32) == 115 && lower(s[p + 5] as u32) == 101 ==> mousekey_at(s, p) == Some((MouseButton::Left, p + 6)),
        lower(s[p + 0] as u32) == 109 && lower(s[p + 1] as u32) == 109 && lower(s[p + 2] as u32) == 111 && lower(s[p + 3] as u32) == 117 && lower(s[p + 4] as u32) == 115 && lower(s[p + 5] as u32) == 101 ==> mousekey_at(s, p) == Some((MouseButton::Middle, p + 6)),
        lower(s[p + 0] as u32) == 114 && lower(s[p + 1] as u32) == 109 && lower(s[p + 2] as u32) == 111 && lower(s[p + 3] as u32) == 117 && lower(s[p + 4] as u32) == 115 && lower(s[p + 5] as u32) == 101 ==> mousekey_at(s, p) == Some((MouseButton::Right, p + 6)),
        mousekey_at(s, p) == Some((MouseButton::Left, p + 6)) ==> lower(s[p + 0] as u32) == 108 && lower(s[p + 1] as u32) == 109 && lower(s[p + 2] as u32) == 111 && lower(s[p + 3] as u32) == 117 && lower(s[p + 4] as u32) == 115 && lower(s[p + 5] as u32) == 101,
        mousekey_at(s, p) == Some((MouseButton::Middle, p + 6)) ==> lower(s[p + 0] as u32) == 109 && lower(s[p + 1] as u32) == 109 && lower(s[p + 2] as u32) == 111 && lower(s[p + 3] as u32) == 117 && lower(s[p + 4] as u32) == 115 && lower(s[p + 5] as u32) == 101,
        mousekey_at(s, p) == Some((MouseButton::Right, p + 6)) ==> lower(s[p + 0] as u32) == 114 && lower(s[p + 1] as u32) == 109 && lower(s[p + 2] as u32) == 111 && lower(s[p + 3] as u32) == 117 && lower(s[p + 4] as u32) == 115 && lower(s[p + 5] as u32) == 101,
{
    reveal(mousekey_at);
    assert(lower(s[p + 0] as u32) == lower(s[p] as u32));
    let l = seq![76u8, 77u8, 111u8, 117u8, 115u8, 101u8];
    let m = seq![77u8, 77u8, 111u8, 117u8, 115u8, 101u8];
    let r = seq![82u8, 77u8, 111u8, 117u8, 115u8, 101u8];
    if tag_at(s, p, l) {
        assert(lower(s[p + 0] as u32) == lower(l[0] as u32));
        assert(lower(s[p + 1] as u32) == lower(l[1] as u32));
        assert(lower(s[p + 2] as u32) == lower(l[2] as u32));
        assert(lower(s[p + 3] as u32) == lower(l[3] as u32));
        assert(lower(s[p + 4] as u32) == lower(l[4] as u32));
        assert(lower(s[p + 5] as u32) == lower(l[5] as u32));
    }
    if tag_at(s, p, m) {
        assert(lower(s[p + 0] as u32) == lower(m[0] as u32));
        assert(lower(s[p + 1] as u32) == lower(m[1] as u32));
        assert(lower(s[p + 2] as u32) == lower(m[2] as u32));
        assert(lower(s[p + 3] as u32) == lower(m[3] as u32));
        assert(lower(s[p + 4] as u32) == lower(m[4] as u32));
        assert(lower(s[p + 5] as u32) == lower(m[5] as u32));
    }
    if tag_at(s, p, r) {
        assert(lower(s[p + 0] as u32) == lower(r[0] as u32));
        assert(lower(s[p + 1] as u32) == lower(r[1] as u32));
        assert(lower(s[p + 2] as u32) == lower(r[2] as u32));
        assert(lower(s[p + 3] as u32) == lower(r[3] as u32));
        assert(lower(s[p + 4] as u32) == lower(r[4] as u32));
        assert(lower(s[p + 5] as u32) == lower(r[5] as u32));
    }
    if lower(s[p + 0] as u32) == 108 && lower(s[p + 1] as u32) == 109 && lower(s[p + 2] as u32) == 111 && lower(s[p + 3] as u32) == 117 && lower(s[p + 4] as u32) == 115 && lower(s[p + 5] as u32) == 101 {
        assert forall|i: int| 0 <= i < l.len() implies #[trigger] lower(s[p + i] as u32) == lower(l[i] as u32) by {
            assert(i == 0 || i == 1 || i == 2 || i == 3 || i == 4 || i == 5);
        }
    }
    if lower(s[p + 0] as u32) == 109 && lower(s[p + 1] as u32) == 109 && lower(s[p + 2] as u32) == 111 && lower(s[p + 3] as u32) == 117 && lower(s[p + 4] as u32) == 115 && lower(s[p + 5] as u32) == 101 {
        assert forall|i: int| 0 <= i < m.len() implies #[trigger] lower(s[p + i] as u32) == lower(m[i] as u32) by {
            assert(i == 0 || i == 1 || i == 2 || i == 3 || i == 4 || i == 5);
        }
    }
    if lower(s[p + 0] as u32) == 114 && lower(s[p + 1] as u32) == 109 && lower(s[p + 2] as u32) == 111 && lower(s[p + 3] as u32) == 117 && lower(s[p + 4] as u32) == 115 && lower(s[p + 5] as u32) == 101 {
        assert forall|i: int| 0 <= i < r.len() implies #[trigger] lower(s[p + i] as u32) == lower(r[i] as u32) by {
            assert(i == 0 || i == 1 || i == 2 || i == 3 || i == 4 || i == 5);
        }
    }
}

/// The keyword of each gamepad key, as the configuration spells it (case aside).
pub open spec fn joykey_name(k: JoyKey) -> Seq<u8> {
    if k == JoyKey::Up {
        seq![85u8, 112u8]
    } else if k == JoyKey::Down {
        seq![68u8, 111u8, 119u8, 110u8]
    } else if k == JoyKey::Left {
        seq![76u8, 101u8, 102u8, 116u8]
    } else if k == JoyKey::Right {
        seq![82u8, 105u8, 103u8, 104u8, 116u8]
    } else if k == JoyKey::N {
        seq![78u8]
    } else if k == JoyKey::S {
        seq![83u8]
    } else if k == JoyKey::E {
        seq![69u8]
    } else if k == JoyKey::W {
        seq![87u8]
    } else if k == JoyKey::L {
        seq![76u8]
    } else if k == JoyKey::R {
        seq![82u8]
    } else if k == JoyKey::ZL {
        seq![90u8, 76u8]
    } else if k == JoyKey::ZR {
        seq![90u8, 82u8]
    } else if k == JoyKey::SL {
        seq![83u8, 76u8]
    } else if k == JoyKey::SR {
        seq![83u8, 82u8]
    } else if k == JoyKey::L3 {
        seq![76u8, 51u8]
    } else if k == JoyKey::R3 {
        seq![82u8, 51u8]
    } else if k == JoyKey::Minus {
        seq![77u8, 105u8, 110u8, 117u8, 115u8]
    } else if k == JoyKey::Plus {
        seq![80u8, 108u8, 117u8, 115u8]
    } else if k == JoyKey::Capture {
        seq![67u8, 97u8, 112u8, 116u8, 117u8, 114u8, 101u8]
    } else if k == JoyKey::Home {
        seq![72u8, 111u8, 109u8, 101u8]
    } else {
        Seq::empty()
    }
}

/// A gamepad key read from the text is named there: the characters read spell
/// its keyword, ignoring case, and nothing more.
pub proof fn law_joykey_spells_keyword(s: Seq<char>, p: int)
    ensures
        joykey_at(s, p) matches Some((k, q)) ==> joykey_name(k).len() > 0 && q == p + joykey_name(k).len() && tag_at(
            s,
            p,
            joykey_name(k),
        ),
{
    reveal(joykey_at);
}

/// The keyword of each virtual key, as the configuration spells it (case aside).
pub open spec fn virtkey_name(k: VirtualKey) -> Seq<u8> {
    if k == VirtualKey::LUp {
        seq![76u8, 85u8, 112u8]
    } else if k == VirtualKey::LDown {
        seq![76u8, 68u8, 111u8, 119u8, 110u8]
    } else if k == VirtualKey::LLeft {
        seq![76u8, 76u8, 101u8, 102u8, 116u8]
    } else if k == VirtualKey::LRight {
        seq![76u8, 82u8, 105u8, 103u8, 104u8, 116u8]
    } else if k == VirtualKey::LRing {
        seq![76u8, 82u8, 105u8, 110u8, 103u8]
    } else if k == VirtualKey::RUp {
        seq![82u8, 85u8, 112u8]
    } else if k == VirtualKey::RDown {
        seq![82u8, 68u8, 111u8, 119u8, 110u8]
    } else if k == VirtualKey::RLeft {
        seq![82u8, 76u8, 101u8, 102u8, 116u8]
    } else if k == VirtualKey::RRight {
        seq![82u8, 82u8, 105u8, 103u8, 104u8, 116u8]
    } else if k == VirtualKey::RRing {
        seq![82u8, 82u8, 105u8, 110u8, 103u8]
    } else {
        Seq::empty()
    }
}

/// A virtual key read from the text is named there: the characters read spell
/// its keyword, ignoring case, and nothing more.
pub proof fn law_virtkey_spells_keyword(s: Seq<char>, p: int)
    ensures
        virtkey_at(s, p) matches Some((k, q)) ==> virtkey_name(k).len() > 0 && q == p + virtkey_name(k).len() && tag_at(
            s,
            p,
            virtkey_name(k),
        ),
{
    reveal(virtkey_at);
}

/// The keyword of each special action, as the configuration spells it (case aside).
pub open spec fn special_name(k: SpecialKey) -> Seq<u8> {
    if k == SpecialKey::NoAction {
        seq![110u8, 111u8, 110u8, 101u8]
    } else if k == SpecialKey::GyroOn {
        seq![103u8, 121u8, 114u8, 111u8, 95u8, 111u8, 110u8]
    } else if k == SpecialKey::GyroOff {
        seq![103u8, 121u8, 114u8, 111u8, 95u8, 111u8, 102u8, 102u8]
    } else if k == SpecialKey::GyroInvertX(true) {
        seq![103u8, 121u8, 114u8, 111u8, 95u8, 105u8, 110u8, 118u8, 95u8, 120u8]
    } else if k == SpecialKey::GyroInvertY(true) {
        seq![103u8, 121u8, 114u8, 111u8, 95u8, 105u8, 110u8, 118u8, 95u8, 121u8]
    } else if k == SpecialKey::GyroTrackBall(true) {
        seq![103u8, 121u8, 114u8, 111u8, 95u8, 116u8, 114u8, 97u8, 99u8, 107u8, 98u8, 97u8, 108u8, 108u8]
    } else {
        Seq::empty()
    }
}

/// A special action read from the text is named there: the characters read spell
/// its keyword, ignoring case, and nothing more.
pub proof fn law_special_spells_keyword(s: Seq<char>, p: int)
    ensures
        special_at(s, p) matches Some((k, q)) ==> special_name(k).len() > 0 && q == p + special_name(k).len() && tag_at(
            s,
            p,
            special_name(k),
        ),
{
    reveal(special_at);
}

/// The keyword of each mouse button, as the configuration spells it (case aside).
pub open spec fn mousekey_name(k: MouseButton) -> Seq<u8> {
    if k == MouseButton::Left {
        seq![76u8, 77u8, 111u8, 117u8, 115u8, 101u8]
    } else if k == MouseButton::Middle {
        seq![77u8, 77u8, 111u8, 117u8, 115u8, 101u8]
    } else if k == MouseButton::Right {
        seq![82u8, 77u8, 111u8, 117u8, 115u8, 101u8]
    } else if k == MouseButton::ScrollUp {
        seq![115u8, 99u8, 114u8, 111u8, 108u8, 108u8, 117u8, 112u8]
    } else if k == MouseButton::ScrollDown {
        seq![115u8, 99u8, 114u8, 111u8, 108u8, 108u8, 100u8, 111u8, 119u8, 110u8]
    } else if k == MouseButton::ScrollLeft {
        seq![115u8, 99u8, 114u8, 111u8, 108u8, 108u8, 108u8, 101u8, 102u8, 116u8]
    } else if k == MouseButton::ScrollRight {
        seq![115u8, 99u8, 114u8, 111u8, 108u8, 108u8, 114u8, 105u8, 103u8, 104u8, 116u8]
    } else {
        Seq::empty()
    }
}

/// A mouse button read from the text is named there: the characters read spell
/// its keyword, ignoring case, and nothing more.
pub proof fn law_mousekey_spells_keyword(s: Seq<char>, p: int)
    ensures
        mousekey_at(s, p) matches Some((k, q)) ==> mousekey_name(k).len() > 0 && q == p + mousekey_name(k).len() && tag_at(
            s,
            p,
            mousekey_name(k),
        ),
{
    reveal(mousekey_at);
}

/// The keyword of each keyboard key, as the configuration spells it (case aside).
pub open spec fn keyboardkey_name(k: KeyboardKey) -> Seq<u8> {
    if k == KeyboardKey::Alt {
        seq![97u8, 108u8, 116u8]
    } else if k == KeyboardKey::Backspace {
        seq![98u8, 97u8, 99u8, 107u8, 115u8, 112u8, 97u8, 99u8, 101u8]
    } else if k == KeyboardKey::CapsLock {
        seq![99u8, 97u8, 112u8, 115u8, 108u8, 111u8, 99u8, 107u8]
    } else if k == KeyboardKey::Control {
        seq![67u8, 111u8, 110u8, 116u8, 114u8, 111u8, 108u8]
    } else if k == KeyboardKey::Delete {
        seq![68u8, 101u8, 108u8, 101u8, 116u8, 101u8]
    } else if k == KeyboardKey::DownArrow {
        seq![100u8, 111u8, 119u8, 110u8]
    } else if k == KeyboardKey::End {
        seq![69u8, 110u8, 100u8]
    } else if k == KeyboardKey::Escape {
        seq![69u8, 115u8, 99u8, 97u8, 112u8, 101u8]
    } else if k == KeyboardKey::F1 {
        seq![70u8, 49u8]
    } else if k == KeyboardKey::F10 {
        seq![70u8, 49u8, 48u8]
    } else if k == KeyboardKey::F11 {
        seq![70u8, 49u8, 49u8]
    } else if k == KeyboardKey::F12 {
        seq![70u8, 49u8, 50u8]
    } else if k == KeyboardKey::F2 {
        seq![70u8, 50u8]
    } else if k == KeyboardKey::F3 {
        seq![70u8, 51u8]
    } else if k == KeyboardKey::F4 {
        seq![70u8, 52u8]
    } else if k == KeyboardKey::F5 {
        seq![70u8, 53u8]
    } else if k == KeyboardKey::F6 {
        seq![70u8, 54u8]
    } else if k == KeyboardKey::F7 {
        seq![70u8, 55u8]
    } else if k == KeyboardKey::F8 {
        seq![70u8, 56u8]
    } else if k == KeyboardKey::F9 {
        seq![70u8, 57u8]
    } else if k == KeyboardKey::Home {
        seq![72u8, 111u8, 109u8, 101u8]
    } else if k == KeyboardKey::LeftArrow {
        seq![108u8, 101u8, 102u8, 116u8]
    } else if k == KeyboardKey::Meta {
        seq![77u8, 101u8, 116u8, 97u8]
    } else if k == KeyboardKey::OptionKey {
        seq![79u8, 112u8, 116u8, 105u8, 111u8, 110u8]
    } else if k == KeyboardKey::PageDown {
        seq![80u8, 97u8, 103u8, 101u8, 68u8, 111u8, 119u8, 110u8]
    } else if k == KeyboardKey::PageUp {
        seq![80u8, 97u8, 103u8, 101u8, 85u8, 112u8]
    } else if k == KeyboardKey::Return {
        seq![82u8, 101u8, 116u8, 117u8, 114u8, 110u8]
    } else if k == KeyboardKey::RightArrow {
        seq![114u8, 105u8, 103u8, 104u8, 116u8]
    } else if k == KeyboardKey::Shift {
        seq![83u8, 104u8, 105u8, 102u8, 116u8]
    } else if k == KeyboardKey::Space {
        seq![83u8, 112u8, 97u8, 99u8, 101u8]
    } else if k == KeyboardKey::Tab {
        seq![84u8, 97u8, 98u8]
    } else if k == KeyboardKey::UpArrow {
        seq![117u8, 112u8]
    } else {
        Seq::empty()
    }
}

/// A keyboard key read from the text is named there: the characters read spell
/// its keyword, ignoring case, and nothing more; a key typing a character is
/// that one character of the text.
#[verifier::rlimit(80)]
pub proof fn law_keyboardkey_spells_keyword(s: Seq<char>, p: int)
    ensures
        keyboardkey_at(s, p) matches Some((k, q)) ==> if k is Layout {
            p < s.len() && k == KeyboardKey::Layout(s[p]) && q == p + 1
        } else {
            keyboardkey_name(k).len() > 0 && q == p + keyboardkey_name(k).len() && tag_at(s, p, keyboardkey_name(k))
        },
{
    reveal(keyboardkey_at);
}

fn mousekey(s: &[char], p: usize) -> (r: Option<(MouseButton, usize)>)
    requires
        p <= s@.len(),
    ensures
        r is Some <==> mousekey_at(s@, p as int) is Some,
        r matches Some((v, q)) ==> mousekey_at(s@, p as int) == Some((v, q as int)),
        r matches Some((_, q)) ==> p < q <= s@.len(),
{
    reveal(mousekey_at);
    let t = [76u8, 77u8, 111u8, 117u8, 115u8, 101u8];
    assert(t@ =~= seq![76u8, 77u8, 111u8, 117u8, 115u8, 101u8]);
    if tag_no_case(s, p, &t) {
        return Some((MouseButton::Left, p + 6));
    }
    let t = [77u8, 77u8, 111u8, 117u8, 115u8, 101u8];
    assert(t@ =~= seq![77u8, 77u8, 111u8, 117u8, 115u8, 101u8]);
    if tag_no_case(s, p, &t) {
        return Some((MouseButton::Middle, p + 6));
    }
    let t = [82u8, 77u8, 111u8, 117u8, 115u8, 101u8];
    assert(t@ =~= seq![82u8, 77u8, 111u8, 117u8, 115u8, 101u8]);
    if tag_no_case(s, p, &t) {
        return Some((MouseButton::Right, p + 6));
    }
    let t = [115u8, 99u8, 114u8, 111u8, 108u8, 108u8, 117u8, 112u8];
    assert(t@ =~= seq![115u8, 99u8, 114u8, 111u8, 108u8, 108u8, 117u8, 112u8]);
    if tag_no_case(s, p, &t) {
        return Some((MouseButton::ScrollUp, p + 8));
    }
    let t = [115u8, 99u8, 114u8, 111u8, 108u8, 108u8, 100u8, 111u8, 119u8, 110u8];
    assert(t@ =~= seq![115u8, 99u8, 114u8, 111u8, 108u8, 108u8, 100u8, 111u8, 119u8, 110u8]);
    if tag_no_case(s, p, &t) {
        return Some((MouseButton::ScrollDown, p + 10));
    }
    let t = [115u8, 99u8, 114u8, 111u8, 108u8, 108u8, 108u8, 101u8, 102u8, 116u8];
    assert(t@ =~= seq![115u8, 99u8, 114u8, 111u8, 108u8, 108u8, 108u8, 101u8, 102u8, 116u8]);
    if tag_no_case(s, p, &t) {
        return Some((MouseButton::ScrollLeft, p + 10));
    }
    let t = [115u8, 99u8, 114u8, 111u8, 108u8, 108u8, 114u8, 105u8, 103u8, 104u8, 116u8];
    assert(t@ =~= seq![115u8, 99u8, 114u8, 111u8, 108u8, 108u8, 114u8, 105u8, 103u8, 104u8, 116u8]);
    if tag_no_case(s, p, &t) {
        return Some((MouseButton::ScrollRight, p + 11));
    }
    None
}

/// The keyboard key named at `p`, the first of the list that matches, ignoring case; otherwise the key typing the character at `p` when its low byte is an ASCII letter or digit.
#[verifier::opaque]
pub open spec fn keyboardkey_at(s: Seq<char>, p: int) -> Option<(KeyboardKey, int)> {
    if tag_at(s, p, seq![97u8, 108u8, 116u8]) {
        Some((KeyboardKey::Alt, p + 3))
    } else if tag_at(s, p, seq![98u8, 97u8, 99u8, 107u8, 115u8, 112u8, 97u8, 99u8, 101u8]) {
        Some((KeyboardKey::Backspace, p + 9))
    } else if tag_at(s, p, seq![99u8, 97u8, 112u8, 115u8, 108u8, 111u8, 99u8, 107u8]) {
        Some((KeyboardKey::CapsLock, p + 8))
    } else if tag_at(s, p, seq![67u8, 111u8, 110u8, 116u8, 114u8, 111u8, 108u8]) {
        Some((KeyboardKey::Control, p + 7))
    } else if tag_at(s, p, seq![68u8, 101u8, 108u8, 101u8, 116u8, 101u8]) {
        Some((KeyboardKey::Delete, p + 6))
    } else if tag_at(s, p, seq![100u8, 111u8, 119u8, 110u8]) {
        Some((KeyboardKey::DownArrow, p + 4))
    } else if tag_at(s, p, seq![69u8, 110u8, 100u8]) {
        Some((KeyboardKey::End, p + 3))
    } else if tag_at(s, p, seq![69u8, 115u8, 99u8, 97u8, 112u8, 101u8]) {
        Some((KeyboardKey::Escape, p + 6))
    } else if tag_at(s, p, seq![70u8, 49u8]) {
        Some((KeyboardKey::F1, p + 2))
    } else if tag_at(s, p, seq![70u8, 49u8, 48u8]) {
        Some((KeyboardKey::F10, p + 3))
    } else if tag_at(s, p, seq![70u8, 49u8, 49u8]) {
        Some((KeyboardKey::F11, p + 3))
    } else if tag_at(s, p, seq![70u8, 49u8, 50u8]) {
        Some((KeyboardKey::F12, p + 3))
    } else if tag_at(s, p, seq![70u8, 50u8]) {
        Some((KeyboardKey::F2, p + 2))
    } else if tag_at(s, p, seq![70u8, 51u8]) {
        Some((KeyboardKey::F3, p + 2))
    } else if tag_at(s, p, seq![70u8, 52u8]) {
        Some((KeyboardKey::F4, p + 2))
    } else if tag_at(s, p, seq![70u8, 53u8]) {
        Some((KeyboardKey::F5, p + 2))
    } else if tag_at(s, p, seq![70u8, 54u8]) {
        Some((KeyboardKey::F6, p + 2))
    } else if tag_at(s, p, seq![70u8, 55u8]) {
        Some((KeyboardKey::F7, p + 2))
    } else if tag_at(s, p, seq![70u8, 56u8]) {
        Some((KeyboardKey::F8, p + 2))
    } else if tag_at(s, p, seq![70u8, 57u8]) {
        Some((KeyboardKey::F9, p + 2))
    } else if tag_at(s, p, seq![72u8, 111u8, 109u8, 101u8]) {
        Some((KeyboardKey::Home, p + 4))
    } else if tag_at(s, p, seq![108u8, 101u8, 102u8, 116u8]) {
        Some((KeyboardKey::LeftArrow, p + 4))
    } else if tag_at(s, p, seq![77u8, 101u8, 116u8, 97u8]) {
        Some((KeyboardKey::Meta, p + 4))
    } else if tag_at(s, p, seq![79u8, 112u8, 116u8, 105u8, 111u8, 110u8]) {
        Some((KeyboardKey::OptionKey, p + 6))
    } else if tag_at(s, p, seq![80u8, 97u8, 103u8, 101u8, 68u8, 111u8, 119u8, 110u8]) {
        Some((KeyboardKey::PageDown, p + 8))
    } else if tag_at(s, p, seq![80u8, 97u8, 103u8, 101u8, 85u8, 112u8]) {
        Some((KeyboardKey::PageUp, p + 6))
    } else if tag_at(s, p, seq![82u8, 101u8, 116u8, 117u8, 114u8, 110u8]) {
        Some((KeyboardKey::Return, p + 6))
    } else if tag_at(s, p, seq![114u8, 105u8, 103u8, 104u8, 116u8]) {
        Some((KeyboardKey::RightArrow, p + 5))
    } else if tag_at(s, p, seq![83u8, 104u8, 105u8, 102u8, 116u8]) {
        Some((KeyboardKey::Shift, p + 5))
    } else if tag_at(s, p, seq![83u8, 112u8, 97u8, 99u8, 101u8]) {
        Some((KeyboardKey::Space, p + 5))
    } else if tag_at(s, p, seq![84u8, 97u8, 98u8]) {
        Some((KeyboardKey::Tab, p + 3))
    } else if tag_at(s, p, seq![117u8, 112u8]) {
        Some((KeyboardKey::UpArrow, p + 2))
    } else {
        if p < s.len() && is_alnum_byte(low_byte(s[p])) { Some((KeyboardKey::Layout(s[p]), p + 1)) } else { None }
    }
}

fn keyboardkey(s: &[char], p: usize) -> (r: Option<(KeyboardKey, usize)>)
    requires
        p <= s@.len(),
    ensures
        r is Some <==> keyboardkey_at(s@, p as int) is Some,
        r matches Some((v, q)) ==> keyboardkey_at(s@, p as int) == Some((v, q as int)),
        r matches Some((_, q)) ==> p < q <= s@.len(),
{
    reveal(keyboardkey_at);
    let t = [97u8, 108u8, 116u8];
    assert(t@ =~= seq![97u8, 108u8, 116u8]);
    if tag_no_case(s, p, &t) {
        return Some((KeyboardKey::Alt, p + 3));
    }
    let t = [98u8, 97u8, 99u8, 107u8, 115u8, 112u8, 97u8, 99u8, 101u8];
    assert(t@ =~= seq![98u8, 97u8, 99u8, 107u8, 115u8, 112u8, 97u8, 99u8, 101u8]);
    if tag_no_case(s, p, &t) {
        return Some((KeyboardKey::Backspace, p + 9));
    }
    let t = [99u8, 97u8, 112u8, 115u8, 108u8, 111u8, 99u8, 107u8];
    assert(t@ =~= seq![99u8, 97u8, 112u8, 115u8, 108u8, 111u8, 99u8, 107u8]);
    if tag_no_case(s, p, &t) {
        return Some((KeyboardKey::CapsLock, p + 8));
    }
    let t = [67u8, 111u8, 110u8, 116u8, 114u8, 111u8, 108u8];
    assert(t@ =~= seq![67u8, 111u8, 110u8, 116u8, 114u8, 111u8, 108u8]);
    if tag_no_case(s, p, &t) {
        return Some((KeyboardKey::Control, p + 7));
    }
    let t = [68u8, 101u8, 108u8, 101u8, 116u8, 101u8];
    assert(t@ =~= seq![68u8, 101u8, 108u8, 101u8, 116u8, 101u8]);
    if tag_no_case(s, p, &t) {
        return Some((KeyboardKey::Delete, p + 6));
    }
    let t = [100u8, 111u8, 119u8, 110u8];
    assert(t@ =~= seq![100u8, 111u8, 119u8, 110u8]);
    if tag_no_case(s, p, &t) {
        return Some((KeyboardKey::DownArrow, p + 4));
    }
    let t = [69u8, 110u8, 100u8];
    assert(t@ =~= seq![69u8, 110u8, 100u8]);
    if tag_no_case(s, p, &t) {
        return Some((KeyboardKey::End, p + 3));
    }
    let t = [69u8, 115u8, 99u8, 97u8, 112u8, 101u8];
    assert(t@ =~= seq![69u8, 115u8, 99u8, 97u8, 112u8, 101u8]);
    if tag_no_case(s, p, &t) {
        return Some((KeyboardKey::Escape, p + 6));
    }
    let t = [70u8, 49u8];
    assert(t@ =~= seq![70u8, 49u8]);
    if tag_no_case(s, p, &t) {
        return Some((KeyboardKey::F1, p + 2));
    }
    let t = [70u8, 49u8, 48u8];
    assert(t@ =~= seq![70u8, 49u8, 48u8]);
    if tag_no_case(s, p, &t) {
        return Some((KeyboardKey::F10, p + 3));
    }
    let t = [70u8, 49u8, 49u8];
    assert(t@ =~= seq![70u8, 49u8, 49u8]);
    if tag_no_case(s, p, &t) {
        return Some((KeyboardKey::F11, p + 3));
    }
    let t = [70u8, 49u8, 50u8];
    assert(t@ =~= seq![70u8, 49u8, 50u8]);
    if tag_no_case(s, p, &t) {
        return Some((KeyboardKey::F12, p + 3));
    }
    let t = [70u8, 50u8];
    assert(t@ =~= seq![70u8, 50u8]);
    if tag_no_case(s, p, &t) {
        return Some((KeyboardKey::F2, p + 2));
    }
    let t = [70u8, 51u8];
    assert(t@ =~= seq![70u8, 51u8]);
    if tag_no_case(s, p, &t) {
        return Some((KeyboardKey::F3, p + 2));
    }
    let t = [70u8, 52u8];
    assert(t@ =~= seq![70u8, 52u8]);
    if tag_no_case(s, p, &t) {
        return Some((KeyboardKey::F4, p + 2));
    }
    let t = [70u8, 53u8];
    assert(t@ =~= seq![70u8, 53u8]);
    if tag_no_case(s, p, &t) {
        return Some((KeyboardKey::F5, p + 2));
    }
    let t = [70u8, 54u8];
    assert(t@ =~= seq![70u8, 54u8]);
    if tag_no_case(s, p, &t) {
        return Some((KeyboardKey::F6, p + 2));
    }
    let t = [70u8, 55u8];
    assert(t@ =~= seq![70u8, 55u8]);
    if tag_no_case(s, p, &t) {
        return Some((KeyboardKey::F7, p + 2));
    }
    let t = [70u8, 56u8];
    assert(t@ =~= seq![70u8, 56u8]);
    if tag_no_case(s, p, &t) {
        return Some((KeyboardKey::F8, p + 2));
    }
    let t = [70u8, 57u8];
    assert(t@ =~= seq![70u8, 57u8]);
    if tag_no_case(s, p, &t) {
        return Some((KeyboardKey::F9, p + 2));
    }
    let t = [72u8, 111u8, 109u8, 101u8];
    assert(t@ =~= seq![72u8, 111u8, 109u8, 101u8]);
    if tag_no_case(s, p, &t) {
        return Some((KeyboardKey::Home, p + 4));
    }
    let t = [108u8, 101u8, 102u8, 116u8];
    assert(t@ =~= seq![108u8, 101u8, 102u8, 116u8]);
    if tag_no_case(s, p, &t) {
        return Some((KeyboardKey::LeftArrow, p + 4));
    }
    let t = [77u8, 101u8, 116u8, 97u8];
    assert(t@ =~= seq![77u8, 101u8, 116u8, 97u8]);
    if tag_no_case(s, p, &t) {
        return Some((KeyboardKey::Meta, p + 4));
    }
    let t = [79u8, 112u8, 116u8, 105u8, 111u8, 110u8];
    assert(t@ =~= seq![79u8, 112u8, 116u8, 105u8, 111u8, 110u8]);
    if tag_no_case(s, p, &t) {
        return Some((KeyboardKey::OptionKey, p + 6));
    }
    let t = [80u8, 97u8, 103u8, 101u8, 68u8, 111u8, 119u8, 110u8];
    assert(t@ =~= seq![80u8, 97u8, 103u8, 101u8, 68u8, 111u8, 119u8, 110u8]);
    if tag_no_case(s, p, &t) {
        return Some((KeyboardKey::PageDown, p + 8));
    }
    let t = [80u8, 97u8, 103u8, 101u8, 85u8, 112u8];
    assert(t@ =~= seq![80u8, 97u8, 103u8, 101u8, 85u8, 112u8]);
    if tag_no_case(s, p, &t) {
        return Some((KeyboardKey::PageUp, p + 6));
    }
    let t = [82u8, 101u8, 116u8, 117u8, 114u8, 110u8];
    assert(t@ =~= seq![82u8, 101u8, 116u8, 117u8, 114u8, 110u8]);
    if tag_no_case(s, p, &t) {
        return Some((KeyboardKey::Return, p + 6));
    }
    let t = [114u8, 105u8, 103u8, 104u8, 116u8];
    assert(t@ =~= seq![114u8, 105u8, 103u8, 104u8, 116u8]);
    if tag_no_case(s, p, &t) {
        return Some((KeyboardKey::RightArrow, p + 5));
    }
    let t = [83u8, 104u8, 105u8, 102u8, 116u8];
    assert(t@ =~= seq![83u8, 104u8, 105u8, 102u8, 116u8]);
    if tag_no_case(s, p, &t) {
        return Some((KeyboardKey::Shift, p + 5));
    }
    let t = [83u8, 112u8, 97u8, 99u8, 101u8];
    assert(t@ =~= seq![83u8, 112u8, 97u8, 99u8, 101u8]);
    if tag_no_case(s, p, &t) {
        return Some((KeyboardKey::Space, p + 5));
    }
    let t = [84u8, 97u8, 98u8];
    assert(t@ =~= seq![84u8, 97u8, 98u8]);
    if tag_no_case(s, p, &t) {
        return Some((KeyboardKey::Tab, p + 3));
    }
    let t = [117u8, 112u8];
    assert(t@ =~= seq![117u8, 112u8]);
    if tag_no_case(s, p, &t) {
        return Some((KeyboardKey::UpArrow, p + 2));
    }
    if p < s.len() && is_alnum_char(s[p]) {
        Some((KeyboardKey::Layout(s[p]), p + 1))
    } else {
        None
    }
}
/// The key named at `p`: a virtual key, else a key of the gamepad.
pub open spec fn mapkey_at(s: Seq<char>, p: int) -> Option<(MapKey, int)> {
    match virtkey_at(s, p) {
        Some((v, q)) => Some((MapKey::Virtual(v), q)),
        None => match joykey_at(s, p) {
            Some((k, q)) => Some((MapKey::Physical(k), q)),
            None => None,
        },
    }
}

fn mapkey(s: &[char], p: usize) -> (r: Option<(MapKey, usize)>)
    requires
        p <= s@.len(),
    ensures
        r is Some <==> mapkey_at(s@, p as int) is Some,
        r matches Some((v, q)) ==> mapkey_at(s@, p as int) == Some((v, q as int)),
        r matches Some((_, q)) ==> p < q <= s@.len(),
{
    match virtkey(s, p) {
        Some((v, q)) => Some((MapKey::Virtual(v), q)),
        None => match joykey(s, p) {
            Some((k, q)) => Some((MapKey::Physical(k), q)),
            None => None,
        },
    }
}

/// Two keys joined by `sep`, with spaces or tabs around it.
pub open spec fn pair_at(s: Seq<char>, p: int, sep: char) -> Option<(MapKey, MapKey, int)> {
    match mapkey_at(s, p) {
        Some((k1, q1)) => {
            let q2 = sp0(s, q1);
            if char_at(s, q2, sep) {
                match mapkey_at(s, sp0(s, q2 + 1)) {
                    Some((k2, q3)) => Some((k1, k2, q3)),
                    None => None,
                }
            } else {
                None
            }
        },
        None => None,
    }
}

/// The keys of a binding at `p`: two keys pressed together, a chord, or one
/// key, tried in this order.
pub open spec fn keys_at(s: Seq<char>, p: int) -> Option<(Key, int)> {
    match pair_at(s, p, '+') {
        Some((k1, k2, q)) => Some((Key::Simul(k1, k2), q)),
        None => match pair_at(s, p, ',') {
            Some((k1, k2, q)) => Some((Key::Chorded(k1, k2), q)),
            None => match mapkey_at(s, p) {
                Some((k, q)) => Some((Key::Simple(k), q)),
                None => None,
            },
        },
    }
}

fn parse_pair(s: &[char], p: usize, sep: char) -> (r: Option<(MapKey, MapKey, usize)>)
    requires
        p <= s@.len(),
    ensures
        r is Some <==> pair_at(s@, p as int, sep) is Some,
        r matches Some((k1, k2, q)) ==> pair_at(s@, p as int, sep) == Some((k1, k2, q as int)),
        r matches Some((_, _, q)) ==> p < q <= s@.len(),
{
    match mapkey(s, p) {
        Some((k1, q1)) => {
            let q2 = skip_spaces(s, q1);
            if is_char(s, q2, sep) {
                let q3 = skip_spaces(s, q2 + 1);
                match mapkey(s, q3) {
                    Some((k2, q4)) => Some((k1, k2, q4)),
                    None => None,
                }
            } else {
                None
            }
        },
        None => None,
    }
}

fn keys(s: &[char], p: usize) -> (r: Option<(Key, usize)>)
    requires
        p <= s@.len(),
    ensures
        r is Some <==> keys_at(s@, p as int) is Some,
        r matches Some((v, q)) ==> keys_at(s@, p as int) == Some((v, q as int)),
        r matches Some((_, q)) ==> p < q <= s@.len(),
{
    match parse_pair(s, p, '+') {
        Some((k1, k2, q)) => Some((Key::Simul(k1, k2), q)),
        None => match parse_pair(s, p, ',') {
            Some((k1, k2, q)) => Some((Key::Chorded(k1, k2), q)),
            None => match mapkey(s, p) {
                Some((k, q)) => Some((Key::Simple(k), q)),
                None => None,
            },
        },
    }
}

/// What is pressed by the action at `p`: a special action, a mouse button
/// or a keyboard key, tried in this order.
pub open spec fn action_type_at(s: Seq<char>, p: int) -> Option<(ActionType, int)> {
    match special_at(s, p) {
        Some((v, q)) => Some((ActionType::Special(v), q)),
        None => match mousekey_at(s, p) {
            Some((v, q)) => Some((ActionType::Mouse(v), q)),
            None => match keyboardkey_at(s, p) {
                Some((v, q)) => Some((ActionType::Key(v), q)),
                None => None,
            },
        },
    }
}

/// The action modifier at `p`, if any: `^` toggles, `!` is instant.
pub open spec fn action_mod_at(s: Seq<char>, p: int) -> (Option<ActionModifier>, int) {
    if char_at(s, p, '^') {
        (Some(ActionModifier::Toggle), p + 1)
    } else if char_at(s, p, '!') {
        (Some(ActionModifier::Instant), p + 1)
    } else {
        (None, p)
    }
}

/// The event modifier at `p`, if any: `'` tap, `_` hold, `\` start, `/`
/// release, `+` turbo.
pub open spec fn event_mod_at(s: Seq<char>, p: int) -> (Option<EventModifier>, int) {
    if char_at(s, p, '\'') {
        (Some(EventModifier::Tap), p + 1)
    } else if char_at(s, p, '_') {
        (Some(EventModifier::Hold), p + 1)
    } else if char_at(s, p, '\\') {
        (Some(EventModifier::Start), p + 1)
    } else if char_at(s, p, '/') {
        (Some(EventModifier::Release), p + 1)
    } else if char_at(s, p, '+') {
        (Some(EventModifier::Turbo), p + 1)
    } else {
        (None, p)
    }
}

/// The action at `p`: an optional action modifier, what it presses, then an
/// optional event modifier.
pub open spec fn action_at(s: Seq<char>, p: int) -> Option<(JSMAction, int)> {
    let (action_mod, p1) = action_mod_at(s, p);
    match action_type_at(s, p1) {
        Some((action, p2)) => {
            let (event_mod, p3) = event_mod_at(s, p2);
            Some((JSMAction { action_mod, event_mod, action }, p3))
        },
        None => None,
    }
}

fn parse_action_type(s: &[char], p: usize) -> (r: Option<(ActionType, usize)>)
    requires
        p <= s@.len(),
    ensures
        r is Some <==> action_type_at(s@, p as int) is Some,
        r matches Some((v, q)) ==> action_type_at(s@, p as int) == Some((v, q as int)),
        r matches Some((_, q)) ==> p < q <= s@.len(),
{
    match special(s, p) {
        Some((v, q)) => Some((ActionType::Special(v), q)),
        None => match mousekey(s, p) {
            Some((v, q)) => Some((ActionType::Mouse(v), q)),
            None => match keyboardkey(s, p) {
                Some((v, q)) => Some((ActionType::Key(v), q)),
                None => None,
            },
        },
    }
}

fn action(s: &[char], p: usize) -> (r: Option<(JSMAction, usize)>)
    requires
        p <= s@.len(),
    ensures
        r is Some <==> action_at(s@, p as int) is Some,
        r matches Some((v, q)) ==> action_at(s@, p as int) == Some((v, q as int)),
        r matches Some((_, q)) ==> p < q <= s@.len(),
{
    let (action_mod, p1) = if is_char(s, p, '^') {
        (Some(ActionModifier::Toggle), p + 1)
    } else if is_char(s, p, '!') {
        (Some(ActionModifier::Instant), p + 1)
    } else {
        (None, p)
    };
    match parse_action_type(s, p1) {
        Some((action, p2)) => {
            let (event_mod, p3) = if is_char(s, p2, '\'') {
                (Some(EventModifier::Tap), p2 + 1)
            } else if is_char(s, p2, '_') {
                (Some(EventModifier::Hold), p2 + 1)
            } else if is_char(s, p2, '\\') {
                (Some(EventModifier::Start), p2 + 1)
            } else if is_char(s, p2, '/') {
                (Some(EventModifier::Release), p2 + 1)
            } else if is_char(s, p2, '+') {
                (Some(EventModifier::Turbo), p2 + 1)
            } else {
                (None, p2)
            };
            Some((JSMAction { action_mod, event_mod, action }, p3))
        },
        None => None,
    }
}

/// The further actions from `p`, each after spaces or tabs; the list stops
/// before the spaces that no action follows.
pub open spec fn more_actions_at(s: Seq<char>, p: int) -> (Seq<JSMAction>, int)
    decreases s.len() - p,
{
    let q = sp0(s, p);
    if 0 <= p < q <= s.len() {
        match action_at(s, q) {
            Some((a, r)) => if q < r <= s.len() {
                let (rest, e) = more_actions_at(s, r);
                (seq![a] + rest, e)
            } else {
                (Seq::empty(), p)
            },
            None => (Seq::empty(), p),
        }
    } else {
        (Seq::empty(), p)
    }
}

/// A binding at `p`: keys, `=`, then one action or more separated by
/// spaces or tabs.
pub open spec fn binding_at(s: Seq<char>, p: int) -> Option<(CmdModel, int)> {
    match keys_at(s, p) {
        Some((key, q1)) => {
            let q2 = sp0(s, q1);
            if char_at(s, q2, '=') {
                match action_at(s, sp0(s, q2 + 1)) {
                    Some((first, q3)) => {
                        let (rest, q4) = more_actions_at(s, q3);
                        Some((CmdModel::Binding(key, seq![first] + rest), q4))
                    },
                    None => None,
                }
            } else {
                None
            }
        },
        None => None,
    }
}

/// The command at `p`: a binding, else a special action.
pub open spec fn cmd_at(s: Seq<char>, p: int) -> Option<(CmdModel, int)> {
    match binding_at(s, p) {
        Some(r) => Some(r),
        None => match special_at(s, p) {
            Some((k, q)) => Some((CmdModel::Special(k), q)),
            None => None,
        },
    }
}

/// The end of the line from `p`: the first line feed, or the carriage
/// return of the first `\r\n`; `None` when a carriage return comes first
/// without a line feed after it.
pub open spec fn line_end_from(s: Seq<char>, p: int) -> Option<int>
    decreases s.len() - p,
{
    if p < 0 || p >= s.len() {
        Some(s.len() as int)
    } else if s[p] == '\n' {
        Some(p)
    } else if s[p] == '\r' {
        if char_at(s, p + 1, '\n') {
            Some(p)
        } else {
            None
        }
    } else {
        line_end_from(s, p + 1)
    }
}

/// The end of the comment at `p`, if one starts there.
pub open spec fn comment_at(s: Seq<char>, p: int) -> Option<int> {
    if char_at(s, p, '#') {
        line_end_from(s, p + 1)
    } else {
        None
    }
}

/// The command of the line at `p`, if any, and where the line stops:
/// spaces, an optional command, spaces, an optional comment.
pub open spec fn line_at(s: Seq<char>, p: int) -> (Option<CmdModel>, int) {
    let p1 = sp0(s, p);
    let (cmd, p2) = match cmd_at(s, p1) {
        Some((c, q)) => (Some(c), q),
        None => (None, p1),
    };
    let p3 = sp0(s, p2);
    match comment_at(s, p3) {
        Some(p4) => (cmd, p4),
        None => (cmd, p3),
    }
}

/// The commands of the lines from `p`, separated by line feeds, and where
/// they stop.
pub open spec fn lines_at(s: Seq<char>, p: int) -> (Seq<CmdModel>, int)
    decreases s.len() - p,
{
    let (cmd, q) = line_at(s, p);
    let here = match cmd {
        Some(c) => seq![c],
        None => Seq::empty(),
    };
    if 0 <= p <= q < s.len() && s[q] == '\n' {
        let (rest, e) = lines_at(s, q + 1);
        (here + rest, e)
    } else {
        (here, q)
    }
}

/// The commands of a whole file; an error where the lines stop before its
/// end.
pub open spec fn parse_model(s: Seq<char>) -> Result<Seq<CmdModel>, int> {
    let (cmds, e) = lines_at(s, 0);
    if e == s.len() {
        Ok(cmds)
    } else {
        Err(e)
    }
}

fn parse_more_actions(s: &[char], p: usize, acts: &mut Vec<JSMAction>) -> (r: usize)
    requires
        p <= s@.len(),
    ensures
        final(acts)@ == old(acts)@ + more_actions_at(s@, p as int).0,
        r == more_actions_at(s@, p as int).1,
        p <= r <= s@.len(),
{
    let mut pos = p;
    loop
        invariant
            p <= pos <= s@.len(),
            old(acts)@ + more_actions_at(s@, p as int).0 == acts@ + more_actions_at(s@, pos as int).0,
            more_actions_at(s@, p as int).1 == more_actions_at(s@, pos as int).1,
        ensures
            p <= pos <= s@.len(),
            old(acts)@ + more_actions_at(s@, p as int).0 == acts@,
            more_actions_at(s@, p as int).1 == pos,
        decreases s@.len() - pos,
    {
        let q = skip_spaces(s, pos);
        if q == pos {
            assert(acts@ + more_actions_at(s@, pos as int).0 =~= acts@);
            break;
        }
        match action(s, q) {
            Some((a, r)) => {
                let ghost before = acts@;
                acts.push(a);
                proof {
                    assert(before + more_actions_at(s@, pos as int).0 =~= acts@ + more_actions_at(s@, r as int).0);
                }
                pos = r;
            },
            None => {
                assert(acts@ + more_actions_at(s@, pos as int).0 =~= acts@);
                break;
            },
        }
    }
    pos
}

fn binding(s: &[char], p: usize) -> (r: Option<(Cmd, usize)>)
    requires
        p <= s@.len(),
    ensures
        r is Some <==> binding_at(s@, p as int) is Some,
        r matches Some((c, q)) ==> binding_at(s@, p as int) == Some((c@, q as int)),
        r matches Some((_, q)) ==> p < q <= s@.len(),
{
    match keys(s, p) {
        Some((key, q1)) => {
            let q2 = skip_spaces(s, q1);
            if is_char(s, q2, '=') {
                let q3 = skip_spaces(s, q2 + 1);
                match action(s, q3) {
                    Some((first, q4)) => {
                        let mut acts: Vec<JSMAction> = Vec::new();
                        acts.push(first);
                        let q5 = parse_more_actions(s, q4, &mut acts);
                        assert(acts@ =~= seq![first] + more_actions_at(s@, q4 as int).0);
                        Some((Cmd::Binding(key, acts), q5))
                    },
                    None => None,
                }
            } else {
                None
            }
        },
        None => None,
    }
}

fn cmd(s: &[char], p: usize) -> (r: Option<(Cmd, usize)>)
    requires
        p <= s@.len(),
    ensures
        r is Some <==> cmd_at(s@, p as int) is Some,
        r matches Some((c, q)) ==> cmd_at(s@, p as int) == Some((c@, q as int)),
        r matches Some((_, q)) ==> p < q <= s@.len(),
{
    match binding(s, p) {
        Some(r) => Some(r),
        None => match special(s, p) {
            Some((k, q)) => Some((Cmd::Special(k), q)),
            None => None,
        },
    }
}

fn comment(s: &[char], p: usize) -> (r: Option<usize>)
    requires
        p <= s@.len(),
    ensures
        r is Some <==> comment_at(s@, p as int) is Some,
        r matches Some(q) ==> comment_at(s@, p as int) == Some(q as int),
        r matches Some(q) ==> p < q <= s@.len(),
{
    if !is_char(s, p, '#') {
        return None;
    }
    let mut q = p + 1;
    while q < s.len()
        invariant
            p < q <= s@.len(),
            char_at(s@, p as int, '#'),
            line_end_from(s@, p + 1) == line_end_from(s@, q as int),
        decreases s@.len() - q,
    {
        if s[q] == '\n' {
            return Some(q);
        } else if s[q] == '\r' {
            if is_char(s, q + 1, '\n') {
                return Some(q);
            } else {
                return None;
            }
        }
        q += 1;
    }
    Some(s.len())
}

fn line(s: &[char], p: usize) -> (r: (Option<Cmd>, usize))
    requires
        p <= s@.len(),
    ensures
        p <= r.1 <= s@.len(),
        r.1 == line_at(s@, p as int).1,
        r.0 is Some <==> line_at(s@, p as int).0 is Some,
        r.0 matches Some(c) ==> line_at(s@, p as int).0 == Some(c@),
{
    let p1 = skip_spaces(s, p);
    let (cmd, p2) = match cmd(s, p1) {
        Some((c, q)) => (Some(c), q),
        None => (None, p1),
    };
    let p3 = skip_spaces(s, p2);
    match comment(s, p3) {
        Some(p4) => (cmd, p4),
        None => (cmd, p3),
    }
}

/// The commands of a mapping file, in order; the position of the first
/// character that the grammar does not take, when it stops before the end.
pub fn jsm_parse_chars(s: &[char]) -> (r: Result<Vec<Cmd>, ParseError>)
    ensures
        r is Ok <==> parse_model(s@) is Ok,
        r matches Ok(cmds) ==> parse_model(s@) matches Ok(m) && cmds@.len() == m.len() && forall|i: int|
            0 <= i < m.len() ==> #[trigger] cmds@[i]@ == m[i],
        r matches Err(e) ==> parse_model(s@) == Err::<Seq<CmdModel>, int>(e.position as int),
{
    let mut cmds: Vec<Cmd> = Vec::new();
    let mut pos: usize = 0;
    let ghost mut seen: Seq<CmdModel> = Seq::empty();
    assert(seen + lines_at(s@, 0).0 =~= lines_at(s@, 0).0);
    loop
        invariant
            pos <= s@.len(),
            cmds@.len() == seen.len(),
            forall|i: int| 0 <= i < seen.len() ==> #[trigger] cmds@[i]@ == seen[i],
            seen + lines_at(s@, pos as int).0 == lines_at(s@, 0).0,
            lines_at(s@, pos as int).1 == lines_at(s@, 0).1,
        decreases s@.len() - pos,
    {
        let (cmd, q) = line(s, pos);
        let ghost here = match line_at(s@, pos as int).0 {
            Some(c) => seq![c],
            None => Seq::<CmdModel>::empty(),
        };
        let ghost old_seen = seen;
        match cmd {
            Some(c) => {
                cmds.push(c);
            },
            None => {},
        }
        proof {
            seen = seen + here;
            assert forall|i: int| 0 <= i < seen.len() implies #[trigger] cmds@[i]@ == seen[i] by {
                if i < old_seen.len() {
                    assert(seen[i] == old_seen[i]);
                }
            }
        }
        if q < s.len() && s[q] == '\n' {
            proof {
                assert(lines_at(s@, pos as int).0 == here + lines_at(s@, q + 1).0);
                assert(seen + lines_at(s@, q + 1).0 =~= old_seen + (here + lines_at(s@, q + 1).0));
            }
            pos = q + 1;
        } else {
            proof {
                assert(lines_at(s@, pos as int).0 == here);
                assert(lines_at(s@, pos as int).1 == q);
            }
            if q == s.len() {
                return Ok(cmds);
            } else {
                return Err(ParseError { position: q });
            }
        }
    }
}


/// The commands of a mapping file, in order; the position, in characters,
/// of the first character that the grammar does not take, when it stops
/// before the end.
pub fn jsm_parse(input: &str) -> (r: Result<Vec<Cmd>, ParseError>)
    ensures
        r is Ok <==> parse_model(input@) is Ok,
        r matches Ok(cmds) ==> parse_model(input@) matches Ok(m) && cmds@.len() == m.len() && forall|i: int|
            0 <= i < m.len() ==> #[trigger] cmds@[i]@ == m[i],
        r matches Err(e) ==> parse_model(input@) == Err::<Seq<CmdModel>, int>(e.position as int),
{
    let chars = collect_chars(input);
    jsm_parse_chars(chars.as_slice())
}

/// The characters of `input`, in order.
fn collect_chars(input: &str) -> (r: Vec<char>)
    ensures
        r@ == input@,
{
    broadcast use vstd::string::axiom_spec_iter, vstd::string::next_postcondition;

    let mut it = input.chars();
    let mut r: Vec<char> = Vec::new();
    loop
        invariant
            it.obeys_prophetic_iter_laws(),
            r@ + it.remaining() == input@,
        decreases input@.len() - r@.len(),
    {
        let ghost before = it.remaining();
        match it.next() {
            Some(c) => {
                proof {
                    assert(before.len() > 0);
                }
                let ghost prev = r@;
                r.push(c);
                assert(r@ + it.remaining() =~= prev + before);
            },
            None => {
                assert(r@ + it.remaining() =~= r@);
                return r;
            },
        }
    }
}

/// The event of the `i`-th of `n` actions of a binding: its own, else a
/// press and release for a lone action, a tap for the first of several and
/// a hold for the others.
pub open spec fn event_of(a: JSMAction, i: int, n: int) -> EventModifier {
    match a.event_mod {
        Some(e) => e,
        None => if i == 0 {
            if n == 1 {
                EventModifier::Start
            } else {
                EventModifier::Tap
            }
        } else {
            EventModifier::Hold
        },
    }
}

/// Whether a binding can hold the action with this event: turbo is not
/// supported, a release needs an action modifier, and of the special
/// actions only switching the gyro on or off is an action.
pub open spec fn action_supported(a: JSMAction, e: EventModifier) -> bool {
    &&& e != EventModifier::Turbo
    &&& !(e == EventModifier::Release && a.action_mod is None)
    &&& match a.action {
        ActionType::Special(k) => k == SpecialKey::NoAction || k == SpecialKey::GyroOn || k == SpecialKey::GyroOff,
        _ => true,
    }
}

/// The outside action of what is pressed, acting as `click`.
pub open spec fn ext_action_of(t: ActionType, click: ClickType) -> ExtAction {
    match t {
        ActionType::Key(k) => ExtAction::KeyPress(k, click),
        ActionType::Mouse(b) => ExtAction::MousePress(b, click),
        ActionType::Special(SpecialKey::GyroOff) => ExtAction::GyroOff(click),
        ActionType::Special(_) => ExtAction::GyroOn(click),
    }
}

/// The action bound for `a`: none for the special action `none`; else its
/// outside action, acting as the action modifier says, or as `default`.
pub open spec fn convert_spec(a: JSMAction, action_mod: Option<ActionModifier>, default: ClickType) -> Option<Action> {
    if a.action == ActionType::Special(SpecialKey::NoAction) {
        None
    } else {
        let click = match action_mod {
            None => default,
            Some(ActionModifier::Toggle) => ClickType::Toggle,
            Some(ActionModifier::Instant) => ClickType::Click,
        };
        Some(Action::Ext(ext_action_of(a.action, click)))
    }
}

/// The layer with the action `a` bound for the event `e`.
pub open spec fn bind_action(l: Layer, a: JSMAction, e: EventModifier) -> Layer {
    match e {
        EventModifier::Tap => Layer { on_click: convert_spec(a, a.action_mod, ClickType::Click), ..l },
        EventModifier::Hold => {
            let l1 = Layer { on_hold_down: convert_spec(a, a.action_mod, ClickType::Press), ..l };
            if a.action_mod is None {
                Layer { on_hold_up: convert_spec(a, a.action_mod, ClickType::Release), ..l1 }
            } else {
                l1
            }
        },
        EventModifier::Start => {
            let l1 = Layer { on_down: convert_spec(a, a.action_mod, ClickType::Press), ..l };
            if a.action_mod is None {
                Layer { on_up: convert_spec(a, a.action_mod, ClickType::Release), ..l1 }
            } else {
                l1
            }
        },
        _ => Layer { on_up: convert_spec(a, a.action_mod, ClickType::Release), ..l },
    }
}

/// The layer with the actions from the `i`-th on bound, in order.
pub open spec fn bind_actions(l: Layer, acts: Seq<JSMAction>, i: int) -> Layer
    decreases acts.len() - i,
{
    if i < 0 || i >= acts.len() {
        l
    } else {
        bind_actions(bind_action(l, acts[i], event_of(acts[i], i, acts.len() as int)), acts, i + 1)
    }
}

/// Whether every action of the list can be bound.
pub open spec fn actions_supported(acts: Seq<JSMAction>) -> bool {
    forall|i: int| 0 <= i < acts.len() ==> #[trigger] action_supported(acts[i], event_of(acts[i], i, acts.len() as int))
}

fn convert_action_mod(action: &JSMAction, action_mod: Option<ActionModifier>, default: ClickType) -> (r: Option<Action>)
    requires
        match action.action {
            ActionType::Special(k) => k == SpecialKey::NoAction || k == SpecialKey::GyroOn || k == SpecialKey::GyroOff,
            _ => true,
        },
    ensures
        r == convert_spec(*action, action_mod, default),
{
    match action.action {
        ActionType::Special(SpecialKey::NoAction) => {
            return None;
        },
        _ => {},
    }
    let action_type = match action_mod {
        None => default,
        Some(ActionModifier::Toggle) => ClickType::Toggle,
        Some(ActionModifier::Instant) => ClickType::Click,
    };
    Some(Action::Ext(ExtAction::from_action(action.action, action_type)))
}

impl ExtAction {
    /// The outside action of what is pressed, acting as `click`.
    pub fn from_action(t: ActionType, click: ClickType) -> (r: ExtAction)
        requires
            match t {
                ActionType::Special(k) => k == SpecialKey::GyroOn || k == SpecialKey::GyroOff,
                _ => true,
            },
        ensures
            r == ext_action_of(t, click),
    {
        match t {
            ActionType::Key(k) => ExtAction::KeyPress(k, click),
            ActionType::Mouse(b) => ExtAction::MousePress(b, click),
            ActionType::Special(SpecialKey::GyroOff) => ExtAction::GyroOff(click),
            ActionType::Special(_) => ExtAction::GyroOn(click),
        }
    }
}

/// Binds the actions of a binding to `layer`: each for its event.
pub fn map_key(layer: &mut Layer, actions: &Vec<JSMAction>)
    requires
        actions_supported(actions@),
    ensures
        *final(layer) == bind_actions(*old(layer), actions@, 0),
{
    let mut i: usize = 0;
    while i < actions.len()
        invariant
            i <= actions@.len(),
            actions_supported(actions@),
            bind_actions(*old(layer), actions@, 0) == bind_actions(*layer, actions@, i as int),
        decreases actions@.len() - i,
    {
        let action = actions[i];
        let first = i == 0;
        let event = match action.event_mod {
            Some(e) => e,
            None => if first {
                if actions.len() == 1 {
                    EventModifier::Start
                } else {
                    EventModifier::Tap
                }
            } else {
                EventModifier::Hold
            },
        };
        assert(action_supported(actions@[i as int], event_of(actions@[i as int], i as int, actions@.len() as int)));
        match event {
            EventModifier::Tap => {
                layer.on_click = convert_action_mod(&action, action.action_mod, ClickType::Click);
            },
            EventModifier::Hold => {
                layer.on_hold_down = convert_action_mod(&action, action.action_mod, ClickType::Press);
                if action.action_mod.is_none() {
                    layer.on_hold_up = convert_action_mod(&action, action.action_mod, ClickType::Release);
                }
            },
            EventModifier::Start => {
                layer.on_down = convert_action_mod(&action, action.action_mod, ClickType::Press);
                if action.action_mod.is_none() {
                    layer.on_up = convert_action_mod(&action, action.action_mod, ClickType::Release);
                }
            },
            _ => {
                layer.on_up = convert_action_mod(&action, action.action_mod, ClickType::Release);
            },
        }
        i += 1;
    }
}

/// Whether the mapping can take the command: a binding of one key or of a
/// chord, whose actions can all be bound.
pub open spec fn cmd_supported(c: CmdModel) -> bool {
    match c {
        CmdModel::Binding(Key::Simple(_), acts) => actions_supported(acts),
        CmdModel::Binding(Key::Chorded(_, _), acts) => actions_supported(acts),
        _ => false,
    }
}

/// The binding of `key` in `layer` in `m`, nothing when there is none.
pub open spec fn binding_of(m: ButtonsModel, key: MapKey, layer: u8) -> Layer {
    let k = binding_key(key.spec_index(), layer);
    if m.bindings.contains_key(k) {
        m.bindings[k]
    } else {
        Layer::none()
    }
}

/// The mapping with `binding` for `key` in `layer`.
pub open spec fn with_binding(m: ButtonsModel, key: MapKey, layer: u8, binding: Layer) -> ButtonsModel {
    ButtonsModel { bindings: m.bindings.insert(binding_key(key.spec_index(), layer), binding), ..m }
}

/// The mapping after the command: the actions of a key are bound in layer
/// 0; for a chord, the first key switches its own layer on while down, and
/// the actions of the second key are bound in that layer.
pub open spec fn apply_cmd(m: ButtonsModel, c: CmdModel) -> ButtonsModel {
    match c {
        CmdModel::Binding(Key::Simple(k), acts) => with_binding(m, k, 0, bind_actions(binding_of(m, k, 0), acts, 0)),
        CmdModel::Binding(Key::Chorded(k1, k2), acts) => {
            let l1 = k1.spec_index() as u8;
            let b1 = Layer { on_down: Some(Action::Layer(l1, true)), on_up: Some(Action::Layer(l1, false)), ..binding_of(m, k1, 0) };
            let m1 = with_binding(m, k1, 0, b1);
            with_binding(m1, k2, l1, bind_actions(binding_of(m1, k2, l1), acts, 0))
        },
        _ => m,
    }
}

/// The mapping after the commands, in order.
pub open spec fn apply_cmds(m: ButtonsModel, cmds: Seq<CmdModel>) -> ButtonsModel
    decreases cmds.len(),
{
    if cmds.len() == 0 {
        m
    } else {
        apply_cmd(apply_cmds(m, cmds.drop_last()), cmds.last())
    }
}

impl Cmd {
    /// Whether the mapping can take the command.
    pub fn is_supported(&self) -> (r: bool)
        ensures
            r == cmd_supported(self@),
    {
        match self {
            Cmd::Binding(Key::Simple(_), acts) => supported_actions(acts),
            Cmd::Binding(Key::Chorded(_, _), acts) => supported_actions(acts),
            _ => false,
        }
    }
}

fn supported_actions(acts: &Vec<JSMAction>) -> (r: bool)
    ensures
        r == actions_supported(acts@),
{
    let mut i: usize = 0;
    while i < acts.len()
        invariant
            i <= acts@.len(),
            forall|j: int| 0 <= j < i ==> #[trigger] action_supported(acts@[j], event_of(acts@[j], j, acts@.len() as int)),
        decreases acts@.len() - i,
    {
        let a = acts[i];
        let event = match a.event_mod {
            Some(e) => e,
            None => if i == 0 {
                if acts.len() == 1 {
                    EventModifier::Start
                } else {
                    EventModifier::Tap
                }
            } else {
                EventModifier::Hold
            },
        };
        let ok_event = match event {
            EventModifier::Turbo => false,
            EventModifier::Release => a.action_mod.is_some(),
            _ => true,
        };
        let ok_type = match a.action {
            ActionType::Special(SpecialKey::NoAction) => true,
            ActionType::Special(SpecialKey::GyroOn) => true,
            ActionType::Special(SpecialKey::GyroOff) => true,
            ActionType::Special(_) => false,
            _ => true,
        };
        if !(ok_event && ok_type) {
            assert(!action_supported(acts@[i as int], event_of(acts@[i as int], i as int, acts@.len() as int)));
            return false;
        }
        i += 1;
    }
    true
}

/// Parses a mapping file and binds its commands into `mapping`, in order.
/// The mapping only takes bindings of one key or of a chord, whose actions
/// it can all bind.
pub fn parse_file(content: &str, mapping: &mut Buttons) -> (r: Result<(), ParseError>)
    requires
        parse_model(content@) matches Ok(cmds) ==> forall|i: int| 0 <= i < cmds.len() ==> #[trigger] cmd_supported(cmds[i]),
    ensures
        r is Ok <==> parse_model(content@) is Ok,
        r matches Err(e) ==> parse_model(content@) == Err::<Seq<CmdModel>, int>(e.position as int)
            && final(mapping)@ == old(mapping)@,
        parse_model(content@) matches Ok(cmds) ==> final(mapping)@ == apply_cmds(old(mapping)@, cmds),
        final(mapping).state@ == old(mapping).state@,
{
    let cmds = match jsm_parse(content) {
        Ok(c) => c,
        Err(e) => {
            return Err(e);
        },
    };
    let ghost model = parse_model(content@)->Ok_0;
    let mut i: usize = 0;
    while i < cmds.len()
        invariant
            i <= cmds@.len(),
            cmds@.len() == model.len(),
            forall|j: int| 0 <= j < model.len() ==> #[trigger] cmds@[j]@ == model[j],
            forall|j: int| 0 <= j < model.len() ==> #[trigger] cmd_supported(model[j]),
            mapping@ == apply_cmds(old(mapping)@, model.subrange(0, i as int)),
            mapping.state@ == old(mapping).state@,
        decreases cmds@.len() - i,
    {
        proof {
            assert(model.subrange(0, i + 1).drop_last() =~= model.subrange(0, i as int));
            assert(cmd_supported(model[i as int]));
        }
        let c = &cmds[i];
        assert(c@ == model[i as int]);
        let ghost before = mapping@;
        match c {
            Cmd::Binding(Key::Simple(key), actions) => {
                assert(model[i as int] == CmdModel::Binding(Key::Simple(*key), actions@));
                let mut layer = mapping.get(*key, 0);
                map_key(&mut layer, actions);
                mapping.set(*key, 0, layer);
            },
            Cmd::Binding(Key::Chorded(k1, k2), actions) => {
                assert(model[i as int] == CmdModel::Binding(Key::Chorded(*k1, *k2), actions@));
                let l1 = k1.to_layer();
                let mut b1 = mapping.get(*k1, 0);
                b1.on_down = Some(Action::Layer(l1, true));
                b1.on_up = Some(Action::Layer(l1, false));
                mapping.set(*k1, 0, b1);
                let mut b2 = mapping.get(*k2, l1);
                map_key(&mut b2, actions);
                mapping.set(*k2, l1, b2);
            },
            _ => {},
        }
        assert(mapping@ == apply_cmd(before, model[i as int]));
        i += 1;
    }
    assert(model.subrange(0, model.len() as int) =~= model);
    Ok(())
}

/// A lone action with no modifier presses on the press of the key and
/// releases on its release; the first of two actions with no modifier is a
/// tap and the second a hold, pressed when the hold starts and released
/// when it ends.
pub proof fn law_default_events(l: Layer, a: JSMAction, b: JSMAction)
    requires
        a.action_mod is None && a.event_mod is None,
        b.action_mod is None && b.event_mod is None,
        a.action != ActionType::Special(SpecialKey::NoAction),
        b.action != ActionType::Special(SpecialKey::NoAction),
    ensures
        bind_actions(l, seq![a], 0).on_down == Some(Action::Ext(ext_action_of(a.action, ClickType::Press))),
        bind_actions(l, seq![a], 0).on_up == Some(Action::Ext(ext_action_of(a.action, ClickType::Release))),
        bind_actions(l, seq![a, b], 0).on_click == Some(Action::Ext(ext_action_of(a.action, ClickType::Click))),
        bind_actions(l, seq![a, b], 0).on_hold_down == Some(Action::Ext(ext_action_of(b.action, ClickType::Press))),
        bind_actions(l, seq![a, b], 0).on_hold_up == Some(Action::Ext(ext_action_of(b.action, ClickType::Release))),
{
    reveal_with_fuel(bind_actions, 3);
    assert(seq![a][0] == a);
    assert(seq![a, b][0] == a && seq![a, b][1] == b);
    assert(bind_actions(bind_action(l, a, EventModifier::Start), seq![a], 1) == bind_action(l, a, EventModifier::Start));
    let l1 = bind_action(l, a, EventModifier::Tap);
    let l2 = bind_action(l1, b, EventModifier::Hold);
    assert(bind_actions(l2, seq![a, b], 2) == l2);
}

/// A chord makes its first key switch the layer named after it on while it
/// is down, and binds the actions of the second key in that layer.
pub proof fn law_chord(m: ButtonsModel, k1: MapKey, k2: MapKey, acts: Seq<JSMAction>)
    ensures
        ({
            let r = apply_cmd(m, CmdModel::Binding(Key::Chorded(k1, k2), acts));
            let l1 = k1.spec_index() as u8;
            &&& !(k1 == k2 && l1 == 0) ==> binding_of(r, k1, 0).on_down == Some(Action::Layer(l1, true))
                && binding_of(r, k1, 0).on_up == Some(Action::Layer(l1, false))
            &&& r.bindings.contains_key(binding_key(k2.spec_index(), l1))
        }),
{
    let l1 = k1.spec_index() as u8;
    crate::mapping::law_to_layer_injective(k1, k2);
    crate::mapping::law_to_layer_injective(k2, k1);
    assert(k1.spec_index() < 30 && k2.spec_index() < 30);
    if !(k1 == k2 && l1 == 0) {
        assert(binding_key(k2.spec_index(), l1) != binding_key(k1.spec_index(), 0));
    }
}

} // verus!
