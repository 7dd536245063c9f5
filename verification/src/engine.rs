//! The decisions of the gyromouse engine on keys: which presses and
//! releases a new report of the gamepad makes, and what each outside action
//! of the mapping does.
use crate::gamepad::{JoyKey, KeyMap, KeyStatus as PadStatus, JOYKEY_COUNT};
use crate::mapping::{Buttons, ButtonsModel, MAP_KEY_COUNT, ClickType, ExtAction, KeyboardKey, MapKey, MouseButton};
use vstd::prelude::*;

verus! {

/// The keys compared by [`diff`], in the order it compares them; SL and SR
/// come twice.
pub open spec fn diff_order() -> Seq<JoyKey> {
    seq![
        JoyKey::Up,
        JoyKey::Down,
        JoyKey::Left,
        JoyKey::Right,
        JoyKey::L,
        JoyKey::ZL,
        JoyKey::SL,
        JoyKey::SR,
        JoyKey::L3,
        JoyKey::R3,
        JoyKey::Minus,
        JoyKey::Plus,
        JoyKey::Capture,
        JoyKey::Home,
        JoyKey::W,
        JoyKey::N,
        JoyKey::S,
        JoyKey::E,
        JoyKey::R,
        JoyKey::ZR,
        JoyKey::SL,
        JoyKey::SR,
    ]
}

/// The mapping after the change of `key` from `old` to `new`: a press when
/// it was released and is pressed, a release in the other case.
pub open spec fn diff_key(m: ButtonsModel, key: JoyKey, now: u64, old: Seq<PadStatus>, new: Seq<PadStatus>) -> ButtonsModel {
    let i = key.spec_index() as int;
    if old[i] == PadStatus::Released && new[i] == PadStatus::Pressed {
        m.key_down(key.spec_index(), now)
    } else if old[i] == PadStatus::Pressed && new[i] == PadStatus::Released {
        m.key_up(key.spec_index(), now)
    } else {
        m
    }
}

/// Whether the mapping handles the change of `key`.
pub open spec fn diff_key_ok(m: ButtonsModel, key: JoyKey, now: u64, old: Seq<PadStatus>, new: Seq<PadStatus>) -> bool {
    let i = key.spec_index() as int;
    &&& (old[i] == PadStatus::Released && new[i] == PadStatus::Pressed) ==> m.can_press(key.spec_index(), now)
    &&& (old[i] == PadStatus::Pressed && new[i] == PadStatus::Released) ==> m.can_release(key.spec_index(), now)
}

/// The mapping after the changes of the keys of [`diff_order`] from the
/// `k`-th on.
pub open spec fn diff_from(m: ButtonsModel, k: int, now: u64, old: Seq<PadStatus>, new: Seq<PadStatus>) -> ButtonsModel
    decreases 22 - k,
{
    if k < 0 || k >= 22 {
        m
    } else {
        diff_from(diff_key(m, diff_order()[k], now, old, new), k + 1, now, old, new)
    }
}

/// Whether the mapping handles each change of the keys of [`diff_order`]
/// from the `k`-th on, in turn.
pub open spec fn diff_ok(m: ButtonsModel, k: int, now: u64, old: Seq<PadStatus>, new: Seq<PadStatus>) -> bool
    decreases 22 - k,
{
    if k < 0 || k >= 22 {
        true
    } else {
        diff_key_ok(m, diff_order()[k], now, old, new) && diff_ok(
            diff_key(m, diff_order()[k], now, old, new),
            k + 1,
            now,
            old,
            new,
        )
    }
}

/// The mapping after the changes of the keys of [`diff_order`] from the
/// `k`-th on, up to the first change that it does not handle, left undone.
pub open spec fn diff_until_refused(m: ButtonsModel, k: int, now: u64, old: Seq<PadStatus>, new: Seq<PadStatus>) -> ButtonsModel
    decreases 22 - k,
{
    if k < 0 || k >= 22 {
        m
    } else if !diff_key_ok(m, diff_order()[k], now, old, new) {
        m
    } else {
        diff_until_refused(diff_key(m, diff_order()[k], now, old, new), k + 1, now, old, new)
    }
}

/// Where `k` is first compared by [`diff`].
spec fn diff_position(k: JoyKey) -> int {
    match k {
        JoyKey::Up => 0,
        JoyKey::Down => 1,
        JoyKey::Left => 2,
        JoyKey::Right => 3,
        JoyKey::L => 4,
        JoyKey::ZL => 5,
        JoyKey::SL => 6,
        JoyKey::SR => 7,
        JoyKey::L3 => 8,
        JoyKey::R3 => 9,
        JoyKey::Minus => 10,
        JoyKey::Plus => 11,
        JoyKey::Capture => 12,
        JoyKey::Home => 13,
        JoyKey::W => 14,
        JoyKey::N => 15,
        JoyKey::S => 16,
        JoyKey::E => 17,
        JoyKey::R => 18,
        JoyKey::ZR => 19,
    }
}

/// The change of one key leaves the states of the other keys, and the
/// number of states, as they were.
proof fn lemma_diff_key_frame(m: ButtonsModel, j: JoyKey, now: u64, old: Seq<PadStatus>, new: Seq<PadStatus>, idx: int)
    requires
        idx != j.spec_index(),
        0 <= idx < MAP_KEY_COUNT,
        m.state.len() == MAP_KEY_COUNT,
    ensures
        diff_key(m, j, now, old, new).state.len() == m.state.len(),
        diff_key(m, j, now, old, new).state[idx] == m.state[idx],
{
    let key = j.spec_index();
    crate::gamepad::law_joykey_index(j, 0);
    let b = m.find_binding(key);
    lemma_act_opt_state(m, b.on_down);
    lemma_act_opt_state(m.act_opt(b.on_down), b.on_click);
    lemma_act_opt_state(m, b.on_up);
    lemma_act_opt_state(m.act_opt(b.on_up), b.on_click);
    lemma_act_opt_state(m.act_opt(b.on_up), b.on_hold_up);
    match b.on_double_click {
        Some(d) => lemma_act_opt_state(m.act_opt(b.on_up), Some(d)),
        None => {},
    }
}

/// An action changes the layers or the queue, never the states of the keys.
proof fn lemma_act_opt_state(m: ButtonsModel, a: Option<crate::mapping::Action>)
    ensures
        m.act_opt(a).state == m.state,
        a matches Some(x) ==> m.act(x).state == m.state,
{
}

/// A key pressed in the new report, and either down already or still to be
/// compared from the `i`-th comparison on, is down after them.
proof fn lemma_diff_press(m: ButtonsModel, i: int, k: JoyKey, now: u64, old: Seq<PadStatus>, new: Seq<PadStatus>)
    requires
        0 <= i <= 22,
        m.state.len() == MAP_KEY_COUNT,
        old[k.spec_index() as int] == PadStatus::Released,
        new[k.spec_index() as int] == PadStatus::Pressed,
        m.state[k.spec_index() as int].status.spec_is_down() || exists|p: int| i <= p < 22 && diff_order()[p] == k,
    ensures
        diff_from(m, i, now, old, new).state[k.spec_index() as int].status.spec_is_down(),
    decreases 22 - i,
{
    if i < 22 {
        let j = diff_order()[i];
        let m2 = diff_key(m, j, now, old, new);
        let ki = k.spec_index() as int;
        if j == k {
            assert(m2.state[ki].status.spec_is_down());
        } else {
            crate::gamepad::law_joykey_index(j, 0);
            crate::gamepad::law_joykey_index(k, 0);
            lemma_diff_key_frame(m, j, now, old, new, ki);
            if !m.state[ki].status.spec_is_down() {
                let p = choose|p: int| i <= p < 22 && diff_order()[p] == k;
                assert(p != i);
                assert(i + 1 <= p < 22 && diff_order()[p] == k);
            }
        }
        lemma_diff_press(m2, i + 1, k, now, old, new);
    }
}

/// A key released in the new report, and either up already or still to be
/// compared from the `i`-th comparison on, is up after them.
proof fn lemma_diff_release(m: ButtonsModel, i: int, k: JoyKey, now: u64, old: Seq<PadStatus>, new: Seq<PadStatus>)
    requires
        0 <= i <= 22,
        m.state.len() == MAP_KEY_COUNT,
        old[k.spec_index() as int] == PadStatus::Pressed,
        new[k.spec_index() as int] == PadStatus::Released,
        !m.state[k.spec_index() as int].status.spec_is_down() || exists|p: int| i <= p < 22 && diff_order()[p] == k,
    ensures
        !diff_from(m, i, now, old, new).state[k.spec_index() as int].status.spec_is_down(),
    decreases 22 - i,
{
    if i < 22 {
        let j = diff_order()[i];
        let m2 = diff_key(m, j, now, old, new);
        let ki = k.spec_index() as int;
        if j == k {
            assert(!m2.state[ki].status.spec_is_down());
        } else {
            crate::gamepad::law_joykey_index(j, 0);
            crate::gamepad::law_joykey_index(k, 0);
            lemma_diff_key_frame(m, j, now, old, new, ki);
            if m.state[ki].status.spec_is_down() {
                let p = choose|p: int| i <= p < 22 && diff_order()[p] == k;
                assert(p != i);
                assert(i + 1 <= p < 22 && diff_order()[p] == k);
            }
        }
        lemma_diff_release(m2, i + 1, k, now, old, new);
    }
}

/// Every key of the gamepad that the new report shows pressed and the
/// previous one released is down in the mapping after [`diff`], and every key
/// shown released after being pressed is up: no change of a key is missed.
pub proof fn law_diff_applies_every_change(
    m: ButtonsModel,
    now: u64,
    old: Seq<PadStatus>,
    new: Seq<PadStatus>,
    k: JoyKey,
)
    requires
        m.state.len() == MAP_KEY_COUNT,
    ensures
        old[k.spec_index() as int] == PadStatus::Released && new[k.spec_index() as int] == PadStatus::Pressed
            ==> diff_from(m, 0, now, old, new).state[k.spec_index() as int].status.spec_is_down(),
        old[k.spec_index() as int] == PadStatus::Pressed && new[k.spec_index() as int] == PadStatus::Released
            ==> !diff_from(m, 0, now, old, new).state[k.spec_index() as int].status.spec_is_down(),
{
    let p = diff_position(k);
    assert(0 <= p < 22 && diff_order()[p] == k);
    if old[k.spec_index() as int] == PadStatus::Released && new[k.spec_index() as int] == PadStatus::Pressed {
        lemma_diff_press(m, 0, k, now, old, new);
    }
    if old[k.spec_index() as int] == PadStatus::Pressed && new[k.spec_index() as int] == PadStatus::Released {
        lemma_diff_release(m, 0, k, now, old, new);
    }
}

fn diff_order_at(k: usize) -> (r: JoyKey)
    requires
        k < 22,
    ensures
        r == diff_order()[k as int],
{
    match k {
        0 => JoyKey::Up,
        1 => JoyKey::Down,
        2 => JoyKey::Left,
        3 => JoyKey::Right,
        4 => JoyKey::L,
        5 => JoyKey::ZL,
        6 => JoyKey::SL,
        7 => JoyKey::SR,
        8 => JoyKey::L3,
        9 => JoyKey::R3,
        10 => JoyKey::Minus,
        11 => JoyKey::Plus,
        12 => JoyKey::Capture,
        13 => JoyKey::Home,
        14 => JoyKey::W,
        15 => JoyKey::N,
        16 => JoyKey::S,
        17 => JoyKey::E,
        18 => JoyKey::R,
        19 => JoyKey::ZR,
        20 => JoyKey::SL,
        _ => JoyKey::SR,
    }
}

/// Presses and releases in `mapping` the keys whose status changed from
/// `previous` to `current`.
pub fn diff(mapping: &mut Buttons, now: u64, previous: &KeyMap, current: &KeyMap)
    requires
        old(mapping).wf(),
        previous.keys@.len() == JOYKEY_COUNT,
        current.keys@.len() == JOYKEY_COUNT,
        diff_ok(old(mapping)@, 0, now, previous.keys@, current.keys@),
    ensures
        final(mapping).wf(),
        final(mapping)@ == diff_from(old(mapping)@, 0, now, previous.keys@, current.keys@),
{
    let mut k: usize = 0;
    while k < 22
        invariant
            k <= 22,
            mapping.wf(),
            previous.keys@.len() == JOYKEY_COUNT,
            current.keys@.len() == JOYKEY_COUNT,
            diff_ok(mapping@, k as int, now, previous.keys@, current.keys@),
            diff_from(mapping@, k as int, now, previous.keys@, current.keys@) == diff_from(
                old(mapping)@,
                0,
                now,
                previous.keys@,
                current.keys@,
            ),
        decreases 22 - k,
    {
        let key = diff_order_at(k);
        let o = previous.get(key);
        let n = current.get(key);
        match (o, n) {
            (PadStatus::Released, PadStatus::Pressed) => mapping.key_down(MapKey::Physical(key), now),
            (PadStatus::Pressed, PadStatus::Released) => mapping.key_up(MapKey::Physical(key), now),
            _ => {},
        }
        k += 1;
    }
}

/// Presses and releases in `mapping` the keys whose status changed, as
/// [`diff`] does, as long as the mapping handles each change; `false` at the
/// first change that it does not handle, with the changes before it made and
/// that one and those after it not.
pub fn try_diff(mapping: &mut Buttons, now: u64, previous: &KeyMap, current: &KeyMap) -> (r: bool)
    requires
        old(mapping).wf(),
        previous.keys@.len() == JOYKEY_COUNT,
        current.keys@.len() == JOYKEY_COUNT,
    ensures
        final(mapping).wf(),
        r == diff_ok(old(mapping)@, 0, now, previous.keys@, current.keys@),
        r ==> final(mapping)@ == diff_from(old(mapping)@, 0, now, previous.keys@, current.keys@),
        final(mapping)@ == diff_until_refused(old(mapping)@, 0, now, previous.keys@, current.keys@),
{
    let mut k: usize = 0;
    while k < 22
        invariant
            k <= 22,
            mapping.wf(),
            previous.keys@.len() == JOYKEY_COUNT,
            current.keys@.len() == JOYKEY_COUNT,
            diff_ok(old(mapping)@, 0, now, previous.keys@, current.keys@) == diff_ok(
                mapping@,
                k as int,
                now,
                previous.keys@,
                current.keys@,
            ),
            diff_from(mapping@, k as int, now, previous.keys@, current.keys@) == diff_from(
                old(mapping)@,
                0,
                now,
                previous.keys@,
                current.keys@,
            ),
            diff_until_refused(mapping@, k as int, now, previous.keys@, current.keys@) == diff_until_refused(
                old(mapping)@,
                0,
                now,
                previous.keys@,
                current.keys@,
            ),
        decreases 22 - k,
    {
        let key = diff_order_at(k);
        let o = previous.get(key);
        let n = current.get(key);
        match (o, n) {
            (PadStatus::Released, PadStatus::Pressed) => {
                if !mapping.can_press(MapKey::Physical(key), now) {
                    return false;
                }
                mapping.key_down(MapKey::Physical(key), now);
            },
            (PadStatus::Pressed, PadStatus::Released) => {
                if !mapping.can_release(MapKey::Physical(key), now) {
                    return false;
                }
                mapping.key_up(MapKey::Physical(key), now);
            },
            _ => {},
        }
        k += 1;
    }
    true
}

/// What an outside action does.
#[derive(Debug, Copy, Clone, PartialEq, Eq, Structural)]
pub enum Effect {
    /// Turn the gyro mouse on or off.
    SetGyro(bool),
    KeyClick(KeyboardKey),
    KeyDown(KeyboardKey),
    KeyUp(KeyboardKey),
    MouseClick(MouseButton),
    MouseDown(MouseButton),
    MouseUp(MouseButton),
}

/// Whether the engine performs the action: the gyro switches on a press or
/// a release, keys and buttons on anything but a toggle.
pub open spec fn effect_supported(action: ExtAction) -> bool {
    match action {
        ExtAction::GyroOn(c) | ExtAction::GyroOff(c) => c == ClickType::Press || c == ClickType::Release,
        ExtAction::KeyPress(_, c) | ExtAction::MousePress(_, c) => c != ClickType::Toggle,
    }
}

/// Whether the engine performs the action.
pub fn is_effect_supported(action: ExtAction) -> (r: bool)
    ensures
        r == effect_supported(action),
{
    match action {
        ExtAction::GyroOn(c) | ExtAction::GyroOff(c) => match c {
            ClickType::Press | ClickType::Release => true,
            _ => false,
        },
        ExtAction::KeyPress(_, c) | ExtAction::MousePress(_, c) => match c {
            ClickType::Toggle => false,
            _ => true,
        },
    }
}

/// What the outside action does: pressing "gyro on" or releasing "gyro
/// off" turns the gyro on, the other way round turns it off; keys and mouse
/// buttons are clicked, pressed or released.
pub fn effect(action: ExtAction) -> (r: Effect)
    requires
        effect_supported(action),
    ensures
        action == ExtAction::GyroOn(ClickType::Press) || action == ExtAction::GyroOff(ClickType::Release) ==> r
            == Effect::SetGyro(true),
        action == ExtAction::GyroOn(ClickType::Release) || action == ExtAction::GyroOff(ClickType::Press) ==> r
            == Effect::SetGyro(false),
        action matches ExtAction::KeyPress(k, ClickType::Click) ==> r == Effect::KeyClick(k),
        action matches ExtAction::KeyPress(k, ClickType::Press) ==> r == Effect::KeyDown(k),
        action matches ExtAction::KeyPress(k, ClickType::Release) ==> r == Effect::KeyUp(k),
        action matches ExtAction::MousePress(b, ClickType::Click) ==> r == Effect::MouseClick(b),
        action matches ExtAction::MousePress(b, ClickType::Press) ==> r == Effect::MouseDown(b),
        action matches ExtAction::MousePress(b, ClickType::Release) ==> r == Effect::MouseUp(b),
{
    match action {
        ExtAction::GyroOn(ClickType::Press) | ExtAction::GyroOff(ClickType::Release) => Effect::SetGyro(true),
        ExtAction::GyroOn(_) | ExtAction::GyroOff(_) => Effect::SetGyro(false),
        ExtAction::KeyPress(c, ClickType::Click) => Effect::KeyClick(c),
        ExtAction::KeyPress(c, ClickType::Press) => Effect::KeyDown(c),
        ExtAction::KeyPress(c, _) => Effect::KeyUp(c),
        ExtAction::MousePress(c, ClickType::Click) => Effect::MouseClick(c),
        ExtAction::MousePress(c, ClickType::Press) => Effect::MouseDown(c),
        ExtAction::MousePress(c, _) => Effect::MouseUp(c),
    }
}

} // verus!
