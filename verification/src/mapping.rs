//! The binding of gamepad keys to actions, by layers, and the state machine
//! that turns presses and releases of keys into those actions: press,
//! release, click, hold and double click.
//!
//! Times are in milliseconds, on a clock that only moves forward.
use crate::gamepad::{JoyKey, JOYKEY_COUNT};
use vstd::prelude::*;
use vstd::std_specs::hash::group_hash_axioms;
use std::collections::HashMap;
use vstd::std_specs::convert::FromSpecImpl;

verus! {

broadcast use group_hash_axioms;

/// How an action on a key or a mouse button acts.
#[derive(Debug, Copy, Clone, PartialEq, Eq, Structural)]
pub enum ClickType {
    Press,
    Release,
    Click,
    Toggle,
}

impl ClickType {
    /// The new state of a switch that was `val`, for the kinds of action
    /// that set it: a press clears it, a release sets it, a toggle flips it.
    pub fn apply(self, val: bool) -> (r: bool)
        requires
            self != ClickType::Click,
        ensures
            self == ClickType::Press ==> r == false,
            self == ClickType::Release ==> r == true,
            self == ClickType::Toggle ==> r == !val,
    {
        match self {
            ClickType::Press => false,
            ClickType::Release => true,
            ClickType::Toggle => !val,
            ClickType::Click => val,
        }
    }
}

/// A key of a keyboard.
#[derive(Debug, Copy, Clone, PartialEq, Eq, Structural)]
pub enum KeyboardKey {
    Alt,
    Backspace,
    CapsLock,
    Control,
    Delete,
    DownArrow,
    End,
    Escape,
    F1,
    F2,
    F3,
    F4,
    F5,
    F6,
    F7,
    F8,
    F9,
    F10,
    F11,
    F12,
    Home,
    LeftArrow,
    Meta,
    OptionKey,
    PageDown,
    PageUp,
    Return,
    RightArrow,
    Shift,
    Space,
    Tab,
    UpArrow,
    /// The key typing this character.
    Layout(char),
}

/// A button or wheel of a mouse.
#[derive(Debug, Copy, Clone, PartialEq, Eq, Structural)]
pub enum MouseButton {
    Left,
    Middle,
    Right,
    ScrollUp,
    ScrollDown,
    ScrollLeft,
    ScrollRight,
}

/// What a binding does.
#[derive(Debug, Copy, Clone, PartialEq, Eq, Structural)]
pub enum Action {
    /// Put the layer on top of the active ones (`true`), or take it away.
    Layer(u8, bool),
    /// Something for the world outside the mapping.
    Ext(ExtAction),
}

/// An action for the world outside the mapping.
#[derive(Debug, Copy, Clone, PartialEq, Eq, Structural)]
pub enum ExtAction {
    KeyPress(KeyboardKey, ClickType),
    MousePress(MouseButton, ClickType),
    GyroOn(ClickType),
    GyroOff(ClickType),
}

/// The state of a key in the mapping.
#[derive(Debug, Copy, Clone, PartialEq, Eq, Structural)]
pub enum KeyStatus {
    Down,
    Up,
    Hold,
    DoubleUp,
    DoubleDown,
}

impl KeyStatus {
    pub open spec fn spec_is_down(self) -> bool {
        match self {
            KeyStatus::Down | KeyStatus::DoubleDown | KeyStatus::Hold => true,
            KeyStatus::Up | KeyStatus::DoubleUp => false,
        }
    }

    pub fn is_down(self) -> (r: bool)
        ensures
            r == self.spec_is_down(),
    {
        match self {
            KeyStatus::Down | KeyStatus::DoubleDown | KeyStatus::Hold => true,
            KeyStatus::Up | KeyStatus::DoubleUp => false,
        }
    }

    pub fn is_up(self) -> (r: bool)
        ensures
            r == !self.spec_is_down(),
    {
        !self.is_down()
    }
}

impl Default for KeyStatus {
    fn default() -> (r: Self)
        ensures
            r == KeyStatus::Up,
    {
        KeyStatus::Up
    }
}

/// A key is up exactly when it is not down; the held key and the second
/// press of a double click are down.
pub proof fn law_key_status_up_down(s: KeyStatus)
    ensures
        s.spec_is_down() <==> (s == KeyStatus::Down || s == KeyStatus::Hold || s == KeyStatus::DoubleDown),
{
}

/// The actions bound to a key in one layer.
#[derive(Debug, Copy, Clone, PartialEq, Eq, Structural)]
pub struct Layer {
    pub on_down: Option<Action>,
    pub on_up: Option<Action>,
    pub on_click: Option<Action>,
    pub on_double_click: Option<Action>,
    pub on_hold_down: Option<Action>,
    pub on_hold_up: Option<Action>,
}

impl Layer {
    /// The layer binding nothing.
    pub open spec fn none() -> Layer {
        Layer {
            on_down: None,
            on_up: None,
            on_click: None,
            on_double_click: None,
            on_hold_down: None,
            on_hold_up: None,
        }
    }

    /// Whether the layer binds something.
    pub open spec fn spec_is_good(self) -> bool {
        self.on_down is Some || self.on_up is Some || self.on_click is Some || self.on_hold_down is Some
            || self.on_hold_up is Some || self.on_double_click is Some
    }

    /// Whether a click is all there is to the key: no hold, no double click.
    pub open spec fn spec_is_simple_click(self) -> bool {
        self.on_hold_down is None && self.on_hold_up is None && self.on_double_click is None
    }

    fn is_good(&self) -> (r: bool)
        ensures
            r == self.spec_is_good(),
    {
        self.on_down.is_some() || self.on_up.is_some() || self.on_click.is_some() || self.on_hold_down.is_some()
            || self.on_hold_up.is_some() || self.on_double_click.is_some()
    }

    fn is_simple_click(&self) -> (r: bool)
        ensures
            r == self.spec_is_simple_click(),
    {
        self.on_hold_down.is_none() && self.on_hold_up.is_none() && self.on_double_click.is_none()
    }
}

impl Default for Layer {
    fn default() -> (r: Self)
        ensures
            r == Layer::none(),
    {
        Layer {
            on_click: None,
            on_double_click: None,
            on_down: None,
            on_up: None,
            on_hold_down: None,
            on_hold_up: None,
        }
    }
}

/// The number of virtual keys.
pub const VIRTKEY_COUNT: usize = 10;

/// The number of keys that can be bound.
pub const MAP_KEY_COUNT: usize = 30;

/// A direction of a stick, or its outer ring, seen as a key.
#[derive(Debug, Clone, Copy, PartialEq, Eq, Structural, Hash)]
pub enum VirtualKey {
    LUp,
    LDown,
    LLeft,
    LRight,
    LRing,
    RUp,
    RDown,
    RLeft,
    RRight,
    RRing,
}

impl VirtualKey {
    pub open spec fn spec_index(self) -> nat {
        match self {
            VirtualKey::LUp => 0,
            VirtualKey::LDown => 1,
            VirtualKey::LLeft => 2,
            VirtualKey::LRight => 3,
            VirtualKey::LRing => 4,
            VirtualKey::RUp => 5,
            VirtualKey::RDown => 6,
            VirtualKey::RLeft => 7,
            VirtualKey::RRight => 8,
            VirtualKey::RRing => 9,
        }
    }

    pub fn index(self) -> (r: usize)
        ensures
            r == self.spec_index(),
            r < VIRTKEY_COUNT,
    {
        match self {
            VirtualKey::LUp => 0,
            VirtualKey::LDown => 1,
            VirtualKey::LLeft => 2,
            VirtualKey::LRight => 3,
            VirtualKey::LRing => 4,
            VirtualKey::RUp => 5,
            VirtualKey::RDown => 6,
            VirtualKey::RLeft => 7,
            VirtualKey::RRight => 8,
            VirtualKey::RRing => 9,
        }
    }
}

/// A key that can be bound: a key of the gamepad or a virtual key.
#[derive(Debug, Clone, Copy, PartialEq, Eq, Structural, Hash)]
pub enum MapKey {
    Physical(JoyKey),
    Virtual(VirtualKey),
}

impl MapKey {
    /// The position of the key: the gamepad keys first, then the virtual ones.
    pub open spec fn spec_index(self) -> nat {
        match self {
            MapKey::Physical(k) => k.spec_index(),
            MapKey::Virtual(v) => v.spec_index() + 20,
        }
    }

    pub fn index(self) -> (r: usize)
        ensures
            r == self.spec_index(),
            r < MAP_KEY_COUNT,
    {
        match self {
            MapKey::Physical(k) => k.index(),
            MapKey::Virtual(v) => v.index() + JOYKEY_COUNT,
        }
    }

    /// The layer that a chord on this key switches on: its position.
    pub fn to_layer(self) -> (r: u8)
        ensures
            r == self.spec_index(),
    {
        self.index() as u8
    }

    /// The key at position `i`.
    pub fn from_index(i: usize) -> (r: MapKey)
        requires
            i < MAP_KEY_COUNT,
        ensures
            r.spec_index() == i,
    {
        if i < JOYKEY_COUNT {
            MapKey::Physical(JoyKey::from_index(i))
        } else {
            let v = match i - JOYKEY_COUNT {
                0 => VirtualKey::LUp,
                1 => VirtualKey::LDown,
                2 => VirtualKey::LLeft,
                3 => VirtualKey::LRight,
                4 => VirtualKey::LRing,
                5 => VirtualKey::RUp,
                6 => VirtualKey::RDown,
                7 => VirtualKey::RLeft,
                8 => VirtualKey::RRight,
                _ => VirtualKey::RRing,
            };
            MapKey::Virtual(v)
        }
    }
}

/// Two keys have the same layer only if they are the same key.
pub proof fn law_to_layer_injective(a: MapKey, b: MapKey)
    ensures
        a.spec_index() == b.spec_index() ==> a == b,
        a.spec_index() < MAP_KEY_COUNT,
{
    assert(a.spec_index() == b.spec_index() ==> a == b) by {
        if a.spec_index() == b.spec_index() {
            match a {
                MapKey::Physical(x) => match b {
                    MapKey::Physical(y) => {
                        crate::gamepad::law_joykey_index(x, 0);
                        crate::gamepad::law_joykey_index(y, 0);
                    },
                    MapKey::Virtual(_) => {
                        crate::gamepad::law_joykey_index(x, 0);
                    },
                },
                MapKey::Virtual(_) => match b {
                    MapKey::Physical(y) => {
                        crate::gamepad::law_joykey_index(y, 0);
                    },
                    MapKey::Virtual(_) => {},
                },
            }
        }
    }
    match a {
        MapKey::Physical(x) => crate::gamepad::law_joykey_index(x, 0),
        MapKey::Virtual(_) => {},
    }
}

impl From<JoyKey> for MapKey {
    fn from(k: JoyKey) -> (r: Self) {
        MapKey::Physical(k)
    }
}

impl FromSpecImpl<JoyKey> for MapKey {
    open spec fn obeys_from_spec() -> bool {
        true
    }

    open spec fn from_spec(k: JoyKey) -> MapKey {
        MapKey::Physical(k)
    }
}

impl From<VirtualKey> for MapKey {
    fn from(k: VirtualKey) -> (r: Self) {
        MapKey::Virtual(k)
    }
}

impl FromSpecImpl<VirtualKey> for MapKey {
    open spec fn obeys_from_spec() -> bool {
        true
    }

    open spec fn from_spec(k: VirtualKey) -> MapKey {
        MapKey::Virtual(k)
    }
}

/// The state of a key and when it last changed.
#[derive(Debug, Copy, Clone, PartialEq, Eq, Structural)]
pub struct KeyState {
    pub status: KeyStatus,
    pub last_update: u64,
}

/// The time from `then` to `now`, zero when `then` is later.
pub open spec fn elapsed(now: u64, then: u64) -> u64 {
    if now >= then {
        (now - then) as u64
    } else {
        0
    }
}

/// The entry of the bindings for `key` in `layer`.
pub open spec fn binding_key(key: nat, layer: u8) -> u16 {
    (key * 256 + layer) as u16
}

/// The mapping as the contracts see it.
pub struct ButtonsModel {
    pub bindings: Map<u16, Layer>,
    pub state: Seq<KeyState>,
    pub layers: Seq<u8>,
    pub ext: Seq<ExtAction>,
    pub hold_delay: u64,
    pub double_click_interval: u64,
}

/// The binding of `key` in the topmost of `layers` that binds something to
/// it, or nothing.
pub open spec fn binding_in(bindings: Map<u16, Layer>, key: nat, layers: Seq<u8>) -> Layer
    decreases layers.len(),
{
    if layers.len() == 0 {
        Layer::none()
    } else {
        let k = binding_key(key, layers.last());
        if bindings.contains_key(k) && bindings[k].spec_is_good() {
            bindings[k]
        } else {
            binding_in(bindings, key, layers.drop_last())
        }
    }
}

/// The layers without `l`, in the same order.
pub open spec fn without(layers: Seq<u8>, l: u8) -> Seq<u8>
    decreases layers.len(),
{
    if layers.len() == 0 {
        layers
    } else {
        let rest = without(layers.drop_last(), l);
        if layers.last() != l {
            rest.push(layers.last())
        } else {
            rest
        }
    }
}

impl ButtonsModel {
    /// The binding that applies to `key`.
    pub open spec fn find_binding(self, key: nat) -> Layer {
        binding_in(self.bindings, key, self.layers)
    }

    /// The mapping after `action`.
    pub open spec fn act(self, action: Action) -> ButtonsModel {
        match action {
            Action::Layer(l, true) => ButtonsModel { layers: without(self.layers, l).push(l), ..self },
            Action::Layer(l, false) => ButtonsModel { layers: without(self.layers, l), ..self },
            Action::Ext(e) => ButtonsModel { ext: self.ext.push(e), ..self },
        }
    }

    /// The mapping after `action`, if any.
    pub open spec fn act_opt(self, action: Option<Action>) -> ButtonsModel {
        match action {
            Some(a) => self.act(a),
            None => self,
        }
    }

    /// The mapping with the state of `key` set.
    pub open spec fn set_state(self, key: nat, status: KeyStatus, last_update: u64) -> ButtonsModel {
        ButtonsModel { state: self.state.update(key as int, KeyState { status, last_update }), ..self }
    }

    /// Whether a press of `key` at `now` is one that the mapping handles: a
    /// second press after the double-click interval, before a tick saw it
    /// expire, is not.
    pub open spec fn can_press(self, key: nat, now: u64) -> bool {
        !(self.state[key as int].status == KeyStatus::DoubleUp && elapsed(now, self.state[key as int].last_update)
            >= self.double_click_interval)
    }

    /// The mapping after a press of `key` at `now`.
    pub open spec fn key_down(self, key: nat, now: u64) -> ButtonsModel {
        let st = self.state[key as int];
        if st.status.spec_is_down() {
            self
        } else {
            let b = self.find_binding(key);
            let m1 = self.act_opt(b.on_down);
            let m2 = if b.spec_is_simple_click() {
                m1.act_opt(b.on_click)
            } else {
                m1
            };
            let status = if st.status == KeyStatus::Up {
                KeyStatus::Down
            } else {
                KeyStatus::DoubleDown
            };
            m2.set_state(key, status, now)
        }
    }

    /// Whether the release of `key` at `now` goes to the double click.
    pub open spec fn releases_to_double(self, key: nat, now: u64) -> bool {
        let b = self.find_binding(key);
        &&& !b.spec_is_simple_click()
        &&& (b.on_hold_up is None || elapsed(now, self.state[key as int].last_update) < self.hold_delay)
        &&& b.on_double_click is Some
    }

    /// Whether a release of `key` at `now` is one that the mapping handles: a
    /// held key bound to a double click and released early is not.
    pub open spec fn can_release(self, key: nat, now: u64) -> bool {
        !(self.state[key as int].status == KeyStatus::Hold && self.releases_to_double(key, now))
    }

    /// The mapping after a release of `key` at `now`.
    pub open spec fn key_up(self, key: nat, now: u64) -> ButtonsModel {
        let st = self.state[key as int];
        if !st.status.spec_is_down() {
            self
        } else {
            let b = self.find_binding(key);
            let m1 = self.act_opt(b.on_up);
            if b.spec_is_simple_click() {
                m1.set_state(key, KeyStatus::Up, now)
            } else if b.on_hold_up is None || elapsed(now, st.last_update) < self.hold_delay {
                match b.on_double_click {
                    Some(double) => if st.status == KeyStatus::DoubleDown {
                        m1.act(double).set_state(key, KeyStatus::Up, now)
                    } else {
                        m1.set_state(key, KeyStatus::DoubleUp, now)
                    },
                    None => m1.act_opt(b.on_click).set_state(key, KeyStatus::Up, now),
                }
            } else {
                m1.act_opt(b.on_hold_up).set_state(key, KeyStatus::Up, now)
            }
        }
    }

    /// The mapping after the time check of `key` at `now`: a key down long
    /// enough is held, a double click not completed in time is a click.
    pub open spec fn tick_key(self, key: nat, now: u64) -> ButtonsModel {
        let st = self.state[key as int];
        let b = self.find_binding(key);
        if st.status == KeyStatus::Down {
            match b.on_hold_down {
                Some(hold_down) => if elapsed(now, st.last_update) >= self.hold_delay {
                    self.act(hold_down).set_state(key, KeyStatus::Hold, st.last_update)
                } else {
                    self
                },
                None => self,
            }
        } else if st.status == KeyStatus::DoubleUp {
            if elapsed(now, st.last_update) >= self.double_click_interval {
                self.act_opt(b.on_click).set_state(key, KeyStatus::Up, st.last_update)
            } else {
                self
            }
        } else {
            self
        }
    }

    /// The mapping after the time check of the keys from `from` on, in order.
    pub open spec fn tick_from(self, from: nat, now: u64) -> ButtonsModel
        decreases MAP_KEY_COUNT - from,
    {
        if from >= MAP_KEY_COUNT {
            self
        } else {
            self.tick_key(from, now).tick_from(from + 1, now)
        }
    }
}

/// What a sequence with `y` pushed holds.
proof fn lemma_push_contains(t: Seq<u8>, y: u8, x: u8)
    ensures
        t.push(y).contains(x) <==> (t.contains(x) || y == x),
{
    if t.push(y).contains(x) {
        let i = choose|i: int| 0 <= i < t.push(y).len() && t.push(y)[i] == x;
        if i < t.len() {
            assert(t[i] == x);
        }
    }
    if t.contains(x) {
        let i = choose|i: int| 0 <= i < t.len() && t[i] == x;
        assert(t.push(y)[i] == x);
    }
    if y == x {
        assert(t.push(y)[t.len() as int] == x);
    }
}

/// What is left without `l` is what was there but `l`.
proof fn lemma_without_contains(s: Seq<u8>, l: u8, x: u8)
    ensures
        without(s, l).contains(x) <==> (s.contains(x) && x != l),
    decreases s.len(),
{
    if s.len() > 0 {
        let t = s.drop_last();
        let y = s.last();
        lemma_without_contains(t, l, x);
        assert(s =~= t.push(y));
        lemma_push_contains(t, y, x);
        lemma_push_contains(without(t, l), y, x);
    }
}

/// Taking `l` away keeps the other layers distinct.
proof fn lemma_without_no_duplicates(s: Seq<u8>, l: u8)
    requires
        s.no_duplicates(),
    ensures
        without(s, l).no_duplicates(),
    decreases s.len(),
{
    if s.len() > 0 {
        assert(s.drop_last().no_duplicates()) by {
            assert forall|i: int, j: int|
                0 <= i < s.drop_last().len() && 0 <= j < s.drop_last().len() && i != j implies s.drop_last()[i]
                != s.drop_last()[j] by {
                assert(s[i] == s.drop_last()[i] && s[j] == s.drop_last()[j]);
            }
        }
        lemma_without_no_duplicates(s.drop_last(), l);
        if s.last() != l {
            lemma_without_contains(s.drop_last(), l, s.last());
            if s.drop_last().contains(s.last()) {
                let i = choose|i: int| 0 <= i < s.drop_last().len() && s.drop_last()[i] == s.last();
                assert(s[i] == s[s.len() - 1]);
            }
            let r = without(s.drop_last(), l);
            assert forall|i: int, j: int|
                0 <= i < r.push(s.last()).len() && 0 <= j < r.push(s.last()).len() && i != j implies r.push(
                s.last(),
            )[i] != r.push(s.last())[j] by {
                if i == r.len() {
                    assert(r.contains(r.push(s.last())[j]));
                } else if j == r.len() {
                    assert(r.contains(r.push(s.last())[i]));
                }
            }
        }
    }
}

/// Taking `l` away twice is taking it away once.
proof fn lemma_without_twice(s: Seq<u8>, l: u8)
    ensures
        without(without(s, l), l) == without(s, l),
    decreases s.len(),
{
    if s.len() > 0 {
        lemma_without_twice(s.drop_last(), l);
        let r = without(s.drop_last(), l);
        if s.last() != l {
            assert(r.push(s.last()).drop_last() =~= r);
        }
    }
}

/// Activating a layer puts it on top, once, and keeps the active layers
/// distinct; deactivating it leaves no trace of it; an outside action only
/// queues itself.
pub proof fn law_layer_actions(m: ButtonsModel, l: u8)
    requires
        m.layers.no_duplicates(),
    ensures
        m.act(Action::Layer(l, true)).layers.last() == l,
        m.act(Action::Layer(l, true)).layers.no_duplicates(),
        !m.act(Action::Layer(l, false)).layers.contains(l),
        m.act(Action::Layer(l, false)).layers.no_duplicates(),
        m.act(Action::Layer(l, true)).act(Action::Layer(l, false)).layers == without(m.layers, l),
        forall|x: u8| x != l ==> (#[trigger] m.act(Action::Layer(l, true)).layers.contains(x) <==> m.layers.contains(x)),
{
    lemma_without_no_duplicates(m.layers, l);
    lemma_without_contains(m.layers, l, l);
    let r = without(m.layers, l);
    assert forall|i: int, j: int|
        0 <= i < r.push(l).len() && 0 <= j < r.push(l).len() && i != j implies r.push(l)[i] != r.push(l)[j] by {
        if i == r.len() {
            assert(r.contains(r.push(l)[j]));
        } else if j == r.len() {
            assert(r.contains(r.push(l)[i]));
        }
    }
    assert(r.push(l).drop_last() =~= r);
    lemma_without_twice(m.layers, l);
    assert forall|x: u8| x != l implies (#[trigger] m.act(Action::Layer(l, true)).layers.contains(x)
        <==> m.layers.contains(x)) by {
        lemma_without_contains(m.layers, l, x);
        if r.push(l).contains(x) {
            let i = choose|i: int| 0 <= i < r.push(l).len() && r.push(l)[i] == x;
            assert(r[i] == x);
        }
        if r.contains(x) {
            let i = choose|i: int| 0 <= i < r.len() && r[i] == x;
            assert(r.push(l)[i] == x);
        }
    }
}

/// An action, if any, keeps the active layers distinct.
proof fn lemma_act_opt_distinct(m: ButtonsModel, a: Option<Action>)
    requires
        m.layers.no_duplicates(),
    ensures
        m.act_opt(a).layers.no_duplicates(),
{
    match a {
        Some(Action::Layer(l, _)) => law_layer_actions(m, l),
        _ => {},
    }
}

/// The time checks of the keys keep the active layers distinct.
proof fn lemma_tick_distinct(m: ButtonsModel, from: nat, now: u64)
    requires
        m.layers.no_duplicates(),
    ensures
        m.tick_from(from, now).layers.no_duplicates(),
    decreases MAP_KEY_COUNT - from,
{
    if from < MAP_KEY_COUNT {
        let st = m.state[from as int];
        let b = m.find_binding(from);
        lemma_act_opt_distinct(m, b.on_hold_down);
        lemma_act_opt_distinct(m, b.on_click);
        lemma_tick_distinct(m.tick_key(from, now), from + 1, now);
    }
}

/// Whatever the mapping does, the active layers stay distinct: a press, a
/// release, the time checks.
pub proof fn law_layers_stay_distinct(m: ButtonsModel, key: nat, now: u64)
    requires
        m.layers.no_duplicates(),
    ensures
        m.key_down(key, now).layers.no_duplicates(),
        m.key_up(key, now).layers.no_duplicates(),
        m.tick_from(0, now).layers.no_duplicates(),
{
    let b = m.find_binding(key);
    lemma_act_opt_distinct(m, b.on_down);
    lemma_act_opt_distinct(m.act_opt(b.on_down), b.on_click);
    lemma_act_opt_distinct(m, b.on_up);
    let m1 = m.act_opt(b.on_up);
    lemma_act_opt_distinct(m1, b.on_double_click);
    lemma_act_opt_distinct(m1, b.on_click);
    lemma_act_opt_distinct(m1, b.on_hold_up);
    lemma_tick_distinct(m, 0, now);
}

/// A press of a key that is already down changes nothing, and neither does
/// a release of a key that is up; so pressing twice is pressing once.
pub proof fn law_repeated_press_release(m: ButtonsModel, key: nat, t1: u64, t2: u64)
    requires
        key < MAP_KEY_COUNT,
        m.state.len() == MAP_KEY_COUNT,
    ensures
        m.state[key as int].status.spec_is_down() ==> m.key_down(key, t1) == m,
        !m.state[key as int].status.spec_is_down() ==> m.key_up(key, t1) == m,
        m.key_down(key, t1).key_down(key, t2) == m.key_down(key, t1),
        m.key_up(key, t1).key_up(key, t2) == m.key_up(key, t1),
{
}

/// A key bound only to a click, in the topmost layer binding it, queues the
/// click once for a press and its release, and ends up again.
pub proof fn law_simple_click(m: ButtonsModel, key: nat, e: ExtAction, t1: u64, t2: u64)
    requires
        key < MAP_KEY_COUNT,
        m.state.len() == MAP_KEY_COUNT,
        m.state[key as int].status == KeyStatus::Up,
        m.find_binding(key) == (Layer { on_click: Some(Action::Ext(e)), ..Layer::none() }),
    ensures
        m.key_down(key, t1).ext == m.ext.push(e),
        m.key_down(key, t1).key_up(key, t2).ext == m.ext.push(e),
        m.key_down(key, t1).key_up(key, t2).layers == m.layers,
        m.key_down(key, t1).key_up(key, t2).state[key as int] == (KeyState { status: KeyStatus::Up, last_update: t2 }),
{
    let m1 = m.key_down(key, t1);
    assert(m1.layers == m.layers && m1.bindings == m.bindings);
    assert(m1.find_binding(key) == m.find_binding(key));
}

/// A key held: pressed at `t0`, seen held by a time check at `t1`, at least
/// the hold delay later, and released at `t2`. The check fires the hold
/// action and the key keeps its press time, so the release, however soon
/// after the check, fires the hold release and never the click: the queue
/// gets the hold action then the hold release, and the key is up again.
pub proof fn law_hold_then_release(
    m: ButtonsModel,
    key: nat,
    hold: ExtAction,
    release: ExtAction,
    t0: u64,
    t1: u64,
    t2: u64,
)
    requires
        key < MAP_KEY_COUNT,
        m.state.len() == MAP_KEY_COUNT,
        m.state[key as int].status == KeyStatus::Up,
        m.find_binding(key).on_down is None,
        m.find_binding(key).on_up is None,
        m.find_binding(key).on_hold_down == Some(Action::Ext(hold)),
        m.find_binding(key).on_hold_up == Some(Action::Ext(release)),
        t0 <= t1 <= t2,
        t1 - t0 >= m.hold_delay,
    ensures
        m.key_down(key, t0).tick_key(key, t1).state[key as int] == (KeyState {
            status: KeyStatus::Hold,
            last_update: t0,
        }),
        m.key_down(key, t0).tick_key(key, t1).ext == m.ext.push(hold),
        m.key_down(key, t0).tick_key(key, t1).key_up(key, t2).ext == m.ext.push(hold).push(release),
        m.key_down(key, t0).tick_key(key, t1).key_up(key, t2).state[key as int].status == KeyStatus::Up,
{
    let m1 = m.key_down(key, t0);
    assert(m1.layers == m.layers && m1.bindings == m.bindings);
    assert(m1.find_binding(key) == m.find_binding(key));
    let m2 = m1.tick_key(key, t1);
    assert(m2.layers == m.layers && m2.bindings == m.bindings);
    assert(m2.find_binding(key) == m.find_binding(key));
}

/// A key bound to a click and a double click, with no hold release: two
/// quick presses, the second within the double-click interval of the first
/// release, give the double click alone; one press and release followed by
/// a time check past the interval gives the click alone. Either way the key
/// ends up.
pub proof fn law_double_click(
    m: ButtonsModel,
    key: nat,
    click: ExtAction,
    double: ExtAction,
    t0: u64,
    t1: u64,
    t2: u64,
    t3: u64,
)
    requires
        key < MAP_KEY_COUNT,
        m.state.len() == MAP_KEY_COUNT,
        m.state[key as int].status == KeyStatus::Up,
        m.find_binding(key).on_down is None,
        m.find_binding(key).on_up is None,
        m.find_binding(key).on_hold_up is None,
        m.find_binding(key).on_click == Some(Action::Ext(click)),
        m.find_binding(key).on_double_click == Some(Action::Ext(double)),
        t0 <= t1 <= t2 <= t3,
    ensures
        t2 - t1 < m.double_click_interval ==> m.key_down(key, t0).key_up(key, t1).key_down(key, t2).key_up(
            key,
            t3,
        ).ext == m.ext.push(double),
        t2 - t1 < m.double_click_interval ==> m.key_down(key, t0).key_up(key, t1).key_down(key, t2).key_up(
            key,
            t3,
        ).state[key as int].status == KeyStatus::Up,
        t2 - t1 >= m.double_click_interval ==> m.key_down(key, t0).key_up(key, t1).tick_key(key, t2).ext
            == m.ext.push(click),
        t2 - t1 >= m.double_click_interval ==> m.key_down(key, t0).key_up(key, t1).tick_key(
            key,
            t2,
        ).state[key as int].status == KeyStatus::Up,
{
    let m1 = m.key_down(key, t0);
    assert(m1.layers == m.layers && m1.bindings == m.bindings && m1.ext == m.ext);
    assert(m1.find_binding(key) == m.find_binding(key));
    let m2 = m1.key_up(key, t1);
    assert(m2.layers == m.layers && m2.bindings == m.bindings && m2.ext == m.ext);
    assert(m2.find_binding(key) == m.find_binding(key));
    assert(m2.state[key as int] == (KeyState { status: KeyStatus::DoubleUp, last_update: t1 }));
    let m3 = m2.key_down(key, t2);
    assert(m3.layers == m.layers && m3.bindings == m.bindings && m3.ext == m.ext);
    assert(m3.find_binding(key) == m.find_binding(key));
}

/// The bindings of the keys, the state of the keys, the active layers and
/// the actions waiting to be performed.
pub struct Buttons {
    pub bindings: HashMap<u16, Layer>,
    pub state: Vec<KeyState>,
    pub current_layers: Vec<u8>,
    pub ext_actions: Vec<ExtAction>,
    pub hold_delay: u64,
    pub double_click_interval: u64,
}

impl View for Buttons {
    type V = ButtonsModel;

    open spec fn view(&self) -> ButtonsModel {
        ButtonsModel {
            bindings: self.bindings@,
            state: self.state@,
            layers: self.current_layers@,
            ext: self.ext_actions@,
            hold_delay: self.hold_delay,
            double_click_interval: self.double_click_interval,
        }
    }
}

impl Buttons {
    /// Every key has a state.
    pub open spec fn wf(&self) -> bool {
        self.state@.len() == MAP_KEY_COUNT
    }

    /// No binding, every key up since time zero, layer 0 active, a hold
    /// after 100 ms and a double click within 200 ms.
    pub fn new() -> (r: Self)
        ensures
            r.wf(),
            r@.bindings == Map::<u16, Layer>::empty(),
            forall|i: int| 0 <= i < MAP_KEY_COUNT ==> #[trigger] r@.state[i] == (KeyState {
                status: KeyStatus::Up,
                last_update: 0,
            }),
            r@.layers == seq![0u8],
            r@.ext == Seq::<ExtAction>::empty(),
            r@.hold_delay == 100,
            r@.double_click_interval == 200,
    {
        let mut state: Vec<KeyState> = Vec::new();
        let mut i: usize = 0;
        while i < MAP_KEY_COUNT
            invariant
                i <= MAP_KEY_COUNT,
                state@.len() == i,
                forall|j: int| 0 <= j < i ==> #[trigger] state@[j] == (KeyState {
                    status: KeyStatus::Up,
                    last_update: 0,
                }),
            decreases MAP_KEY_COUNT - i,
        {
            state.push(KeyState { status: KeyStatus::Up, last_update: 0 });
            i += 1;
        }
        let mut current_layers: Vec<u8> = Vec::new();
        current_layers.push(0);
        assert(current_layers@ =~= seq![0u8]);
        Buttons {
            bindings: HashMap::new(),
            state,
            current_layers,
            ext_actions: Vec::new(),
            hold_delay: 100,
            double_click_interval: 200,
        }
    }

    /// Back to the state of `new`.
    pub fn reset(&mut self)
        ensures
            final(self).wf(),
            final(self)@.bindings == Map::<u16, Layer>::empty(),
            forall|i: int| 0 <= i < MAP_KEY_COUNT ==> #[trigger] final(self)@.state[i] == (KeyState {
                status: KeyStatus::Up,
                last_update: 0,
            }),
            final(self)@.layers == seq![0u8],
            final(self)@.ext == Seq::<ExtAction>::empty(),
            final(self)@.hold_delay == 100,
            final(self)@.double_click_interval == 200,
    {
        *self = Self::new();
    }

    /// The binding of `key` in `layer`; nothing when there is none.
    pub fn get(&self, key: MapKey, layer: u8) -> (r: Layer)
        ensures
            self@.bindings.contains_key(binding_key(key.spec_index(), layer)) ==> r
                == self@.bindings[binding_key(key.spec_index(), layer)],
            !self@.bindings.contains_key(binding_key(key.spec_index(), layer)) ==> r == Layer::none(),
    {
        let k: u16 = (key.index() * 256 + layer as usize) as u16;
        match self.bindings.get(&k) {
            Some(l) => *l,
            None => Layer::default(),
        }
    }

    /// Binds `binding` to `key` in `layer`.
    pub fn set(&mut self, key: MapKey, layer: u8, binding: Layer)
        ensures
            final(self)@ == (ButtonsModel {
                bindings: old(self)@.bindings.insert(binding_key(key.spec_index(), layer), binding),
                ..old(self)@
            }),
    {
        let k: u16 = (key.index() * 256 + layer as usize) as u16;
        self.bindings.insert(k, binding);
    }

    /// The binding that applies to `key`: the one of the topmost active
    /// layer that binds something to it.
    fn find_binding(&self, key: usize) -> (r: Layer)
        requires
            key < MAP_KEY_COUNT,
        ensures
            r == self@.find_binding(key as nat),
    {
        let mut i = self.current_layers.len();
        assert(self.current_layers@.subrange(0, i as int) =~= self.current_layers@);
        while i > 0
            invariant
                i <= self.current_layers@.len(),
                key < MAP_KEY_COUNT,
                self@.find_binding(key as nat) == binding_in(
                    self@.bindings,
                    key as nat,
                    self.current_layers@.subrange(0, i as int),
                ),
            decreases i,
        {
            let layer = self.current_layers[i - 1];
            let k: u16 = (key * 256 + layer as usize) as u16;
            proof {
                assert(self.current_layers@.subrange(0, i - 1) =~= self.current_layers@.subrange(
                    0,
                    i as int,
                ).drop_last());
            }
            match self.bindings.get(&k) {
                Some(l) => {
                    if l.is_good() {
                        return *l;
                    }
                },
                None => {},
            }
            i -= 1;
        }
        Layer::default()
    }

    /// Performs `action`: switches a layer or queues an outside action.
    fn action(action: &Action, current_layers: &mut Vec<u8>, ext_actions: &mut Vec<ExtAction>)
        ensures
            match *action {
                Action::Layer(l, true) => final(current_layers)@ == without(old(current_layers)@, l).push(l)
                    && final(ext_actions)@ == old(ext_actions)@,
                Action::Layer(l, false) => final(current_layers)@ == without(old(current_layers)@, l)
                    && final(ext_actions)@ == old(ext_actions)@,
                Action::Ext(e) => final(current_layers)@ == old(current_layers)@ && final(ext_actions)@
                    == old(ext_actions)@.push(e),
            },
    {
        match *action {
            Action::Layer(l, true) => {
                retain_other(current_layers, l);
                current_layers.push(l);
            },
            Action::Layer(l, false) => {
                retain_other(current_layers, l);
            },
            Action::Ext(e) => ext_actions.push(e),
        }
    }

    fn act(&mut self, action: &Action)
        ensures
            final(self)@ == old(self)@.act(*action),
            final(self).state@.len() == old(self).state@.len(),
    {
        Self::action(action, &mut self.current_layers, &mut self.ext_actions);
    }

    fn act_opt(&mut self, action: &Option<Action>)
        ensures
            final(self)@ == old(self)@.act_opt(*action),
            final(self).state@.len() == old(self).state@.len(),
    {
        match action {
            Some(a) => self.act(a),
            None => {},
        }
    }

    fn set_state(&mut self, key: usize, status: KeyStatus, last_update: u64)
        requires
            key < old(self).state@.len(),
        ensures
            final(self)@ == old(self)@.set_state(key as nat, status, last_update),
            final(self).state@.len() == old(self).state@.len(),
    {
        self.state.set(key, KeyState { status, last_update });
    }

    /// Checks the time for every key: a key down for `hold_delay` is held,
    /// a double click not completed within `double_click_interval` is a
    /// click. Gives back the outside actions waiting, in order, and clears
    /// them.
    pub fn tick(&mut self, now: u64) -> (r: Vec<ExtAction>)
        requires
            old(self).wf(),
        ensures
            final(self).wf(),
            r@ == old(self)@.tick_from(0, now).ext,
            final(self)@ == (ButtonsModel { ext: Seq::empty(), ..old(self)@.tick_from(0, now) }),
    {
        let mut key: usize = 0;
        while key < MAP_KEY_COUNT
            invariant
                key <= MAP_KEY_COUNT,
                self.wf(),
                self@.tick_from(key as nat, now) == old(self)@.tick_from(0, now),
            decreases MAP_KEY_COUNT - key,
        {
            let ghost before = self@;
            let binding = self.find_binding(key);
            let st = self.state[key];
            match st.status {
                KeyStatus::Down => {
                    match binding.on_hold_down {
                        Some(hold_down) => {
                            if now.saturating_sub(st.last_update) >= self.hold_delay {
                                self.act(&hold_down);
                                self.set_state(key, KeyStatus::Hold, st.last_update);
                            }
                        },
                        None => {},
                    }
                },
                KeyStatus::DoubleUp => {
                    if now.saturating_sub(st.last_update) >= self.double_click_interval {
                        self.act_opt(&binding.on_click);
                        self.set_state(key, KeyStatus::Up, st.last_update);
                    }
                },
                _ => {},
            }
            assert(self@ == before.tick_key(key as nat, now));
            key += 1;
        }
        let mut r: Vec<ExtAction> = Vec::new();
        std::mem::swap(&mut r, &mut self.ext_actions);
        r
    }

    /// Whether a press of `key` at `now` is one that the mapping handles.
    pub fn can_press(&self, key: MapKey, now: u64) -> (r: bool)
        requires
            self.wf(),
        ensures
            r == self@.can_press(key.spec_index(), now),
    {
        let st = self.state[key.index()];
        !(st.status == KeyStatus::DoubleUp && now.saturating_sub(st.last_update) >= self.double_click_interval)
    }

    /// Whether a release of `key` at `now` is one that the mapping handles.
    pub fn can_release(&self, key: MapKey, now: u64) -> (r: bool)
        requires
            self.wf(),
        ensures
            r == self@.can_release(key.spec_index(), now),
    {
        let k = key.index();
        let st = self.state[k];
        if st.status != KeyStatus::Hold {
            return true;
        }
        let b = self.find_binding(k);
        let to_double = !b.is_simple_click() && (b.on_hold_up.is_none() || now.saturating_sub(st.last_update)
            < self.hold_delay) && b.on_double_click.is_some();
        !to_double
    }

    /// A press of `key` at `now`.
    pub fn key_down(&mut self, key: MapKey, now: u64)
        requires
            old(self).wf(),
            old(self)@.can_press(key.spec_index(), now),
        ensures
            final(self).wf(),
            final(self)@ == old(self)@.key_down(key.spec_index(), now),
    {
        let k = key.index();
        let st = self.state[k];
        if st.status.is_down() {
            return;
        }
        let binding = self.find_binding(k);
        self.act_opt(&binding.on_down);
        if binding.is_simple_click() {
            self.act_opt(&binding.on_click);
        }
        let status = match st.status {
            KeyStatus::Up => KeyStatus::Down,
            _ => KeyStatus::DoubleDown,
        };
        self.set_state(k, status, now);
    }

    /// A release of `key` at `now`.
    pub fn key_up(&mut self, key: MapKey, now: u64)
        requires
            old(self).wf(),
            old(self)@.can_release(key.spec_index(), now),
        ensures
            final(self).wf(),
            final(self)@ == old(self)@.key_up(key.spec_index(), now),
    {
        let k = key.index();
        let st = self.state[k];
        if st.status.is_up() {
            return;
        }
        let binding = self.find_binding(k);
        self.act_opt(&binding.on_up);
        let mut new_status = KeyStatus::Up;
        if !binding.is_simple_click() {
            if binding.on_hold_up.is_none() || now.saturating_sub(st.last_update) < self.hold_delay {
                match binding.on_double_click {
                    Some(double) => {
                        match st.status {
                            KeyStatus::DoubleDown => {
                                self.act(&double);
                                new_status = KeyStatus::Up;
                            },
                            _ => {
                                new_status = KeyStatus::DoubleUp;
                            },
                        }
                    },
                    None => {
                        self.act_opt(&binding.on_click);
                    },
                }
            } else {
                self.act_opt(&binding.on_hold_up);
            }
        }
        self.set_state(k, new_status, now);
    }

    /// A press or a release of `key` at `now`.
    pub fn key(&mut self, key: MapKey, pressed: bool, now: u64)
        requires
            old(self).wf(),
            pressed ==> old(self)@.can_press(key.spec_index(), now),
            !pressed ==> old(self)@.can_release(key.spec_index(), now),
        ensures
            final(self).wf(),
            pressed ==> final(self)@ == old(self)@.key_down(key.spec_index(), now),
            !pressed ==> final(self)@ == old(self)@.key_up(key.spec_index(), now),
    {
        if pressed {
            self.key_down(key, now);
        } else {
            self.key_up(key, now);
        }
    }
}

/// Removes every `l` from `v`, keeping the order of the rest.
fn retain_other(v: &mut Vec<u8>, l: u8)
    ensures
        final(v)@ == without(old(v)@, l),
{
    let mut out: Vec<u8> = Vec::new();
    let mut i: usize = 0;
    while i < v.len()
        invariant
            i <= v@.len(),
            out@ == without(v@.subrange(0, i as int), l),
        decreases v@.len() - i,
    {
        let ghost s = v@.subrange(0, i + 1);
        proof {
            assert(s.drop_last() =~= v@.subrange(0, i as int));
            assert(s.last() == v@[i as int]);
            assert(without(s, l) == (if v@[i as int] != l {
                without(v@.subrange(0, i as int), l).push(v@[i as int])
            } else {
                without(v@.subrange(0, i as int), l)
            }));
        }
        if v[i] != l {
            out.push(v[i]);
        }
        i += 1;
    }
    assert(v@.subrange(0, v@.len() as int) =~= v@);
    *v = out;
}

} // verus!
