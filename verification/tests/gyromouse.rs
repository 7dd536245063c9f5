use joy::engine::{diff, effect, Effect};
use joy::gamepad::{KeyMap, KeyStatus as Pad};
use joy::config::{
    jsm_parse, map_key, parse_file, ActionModifier, ActionType, Cmd, EventModifier, JSMAction, Key,
    SpecialKey,
};
use joy::gamepad::JoyKey;
use joy::mapping::{
    Action, Buttons, ClickType, ExtAction, KeyStatus, KeyboardKey, Layer, MapKey, MouseButton,
    VirtualKey,
};

fn key_a() -> ExtAction {
    ExtAction::KeyPress(KeyboardKey::Layout('a'), ClickType::Click)
}

#[test]
fn click_type_apply() {
    assert!(!ClickType::Press.apply(true));
    assert!(ClickType::Release.apply(false));
    assert!(!ClickType::Toggle.apply(true));
    assert!(ClickType::Toggle.apply(ClickType::Toggle.apply(true)));
}

#[test]
fn key_status_up_down() {
    assert!(KeyStatus::Down.is_down());
    assert!(KeyStatus::Hold.is_down());
    assert!(KeyStatus::DoubleDown.is_down());
    assert!(KeyStatus::Up.is_up());
    assert!(KeyStatus::DoubleUp.is_up());
}

#[test]
fn map_key_layers_are_distinct() {
    assert_eq!(0, MapKey::Physical(JoyKey::Up).to_layer());
    assert_eq!(19, MapKey::Physical(JoyKey::Home).to_layer());
    assert_eq!(20, MapKey::Virtual(VirtualKey::LUp).to_layer());
    assert_eq!(29, MapKey::Virtual(VirtualKey::RRing).to_layer());
    for i in 0..30usize {
        assert_eq!(i as u8, MapKey::from_index(i).to_layer());
    }
}

#[test]
fn simple_click_fires_once() {
    let mut b = Buttons::new();
    let key = MapKey::Physical(JoyKey::S);
    b.set(key, 0, Layer { on_click: Some(Action::Ext(key_a())), ..Layer::default() });
    b.key_down(key, 10);
    // A second press while down does nothing.
    b.key_down(key, 20);
    b.key_up(key, 30);
    b.key_up(key, 40);
    assert_eq!(vec![key_a()], b.tick(50));
    assert!(b.tick(60).is_empty());
}

#[test]
fn hold_fires_after_delay() {
    let mut b = Buttons::new();
    let key = MapKey::Physical(JoyKey::E);
    let press = ExtAction::MousePress(MouseButton::Left, ClickType::Press);
    let release = ExtAction::MousePress(MouseButton::Left, ClickType::Release);
    b.set(
        key,
        0,
        Layer {
            on_click: Some(Action::Ext(key_a())),
            on_hold_down: Some(Action::Ext(press)),
            on_hold_up: Some(Action::Ext(release)),
            ..Layer::default()
        },
    );
    b.key_down(key, 0);
    assert!(b.tick(50).is_empty());
    assert_eq!(vec![press], b.tick(100));
    b.key_up(key, 300);
    assert_eq!(vec![release], b.tick(301));
    // A short press is a click.
    b.key_down(key, 1000);
    b.key_up(key, 1050);
    assert_eq!(vec![key_a()], b.tick(1051));
}

#[test]
fn double_click() {
    let mut b = Buttons::new();
    let key = MapKey::Physical(JoyKey::N);
    let double = ExtAction::GyroOff(ClickType::Toggle);
    b.set(
        key,
        0,
        Layer { on_click: Some(Action::Ext(key_a())), on_double_click: Some(Action::Ext(double)), ..Layer::default() },
    );
    b.key_down(key, 0);
    b.key_up(key, 10);
    assert!(b.tick(20).is_empty());
    b.key_down(key, 50);
    b.key_up(key, 60);
    assert_eq!(vec![double], b.tick(70));
    // A single click is known once the interval is over.
    b.key_down(key, 1000);
    b.key_up(key, 1010);
    assert!(b.tick(1100).is_empty());
    assert_eq!(vec![key_a()], b.tick(1210));
}

#[test]
fn chord_switches_layer() {
    let mut b = Buttons::new();
    let l = MapKey::Physical(JoyKey::L);
    let s = MapKey::Physical(JoyKey::S);
    let other = ExtAction::KeyPress(KeyboardKey::Space, ClickType::Click);
    b.set(l, 0, Layer { on_down: Some(Action::Layer(8, true)), on_up: Some(Action::Layer(8, false)), ..Layer::default() });
    b.set(s, 0, Layer { on_click: Some(Action::Ext(key_a())), ..Layer::default() });
    b.set(s, 8, Layer { on_click: Some(Action::Ext(other)), ..Layer::default() });
    b.key_down(l, 0);
    assert_eq!(vec![0u8, 8], b.current_layers);
    b.key_down(s, 1);
    b.key_up(s, 2);
    b.key_up(l, 3);
    assert_eq!(vec![0u8], b.current_layers);
    b.key_down(s, 4);
    b.key_up(s, 5);
    assert_eq!(vec![other, key_a()], b.tick(6));
}

#[test]
fn parse_simple_file() {
    let cmds = jsm_parse("# a mapping\nS = a\nE = ^space  # comment\nL, S = LMouse b_\n\ngyro_on").unwrap();
    assert_eq!(4, cmds.len());
    match &cmds[0] {
        Cmd::Binding(Key::Simple(MapKey::Physical(JoyKey::S)), acts) => {
            assert_eq!(
                vec![JSMAction { action_mod: None, event_mod: None, action: ActionType::Key(KeyboardKey::Layout('a')) }],
                *acts
            );
        }
        _ => panic!("not a binding of S"),
    }
    match &cmds[1] {
        Cmd::Binding(Key::Simple(MapKey::Physical(JoyKey::E)), acts) => {
            assert_eq!(
                vec![JSMAction {
                    action_mod: Some(ActionModifier::Toggle),
                    event_mod: None,
                    action: ActionType::Key(KeyboardKey::Space)
                }],
                *acts
            );
        }
        _ => panic!("not a binding of E"),
    }
    match &cmds[2] {
        Cmd::Binding(Key::Chorded(MapKey::Physical(JoyKey::L), MapKey::Physical(JoyKey::S)), acts) => {
            assert_eq!(2, acts.len());
            assert_eq!(ActionType::Mouse(MouseButton::Left), acts[0].action);
            assert_eq!(Some(EventModifier::Hold), acts[1].event_mod);
        }
        _ => panic!("not a chord"),
    }
    match &cmds[3] {
        Cmd::Special(SpecialKey::GyroOn) => {}
        _ => panic!("not a special action"),
    }
}

#[test]
fn parse_keys_case_and_prefix() {
    let cmds = jsm_parse("lup + r = F2").unwrap();
    match &cmds[0] {
        Cmd::Binding(Key::Simul(MapKey::Virtual(VirtualKey::LUp), MapKey::Physical(JoyKey::R)), acts) => {
            assert_eq!(ActionType::Key(KeyboardKey::F2), acts[0].action);
        }
        _ => panic!("not a simultaneous binding"),
    }
    // The first keyword of the list that matches wins: F1 before F10, and
    // the rest of the line does not follow the grammar.
    assert_eq!(12, jsm_parse("lup + r = F10").unwrap_err().position);
}

#[test]
fn parse_error_position() {
    assert_eq!(0, jsm_parse("S =").unwrap_err().position);
    assert_eq!(0, jsm_parse("?").unwrap_err().position);
    assert!(jsm_parse("").unwrap().is_empty());
    assert!(jsm_parse("   # only a comment\n\n").unwrap().is_empty());
    // Lines are separated by line feeds alone.
    assert_eq!(19, jsm_parse("   # only a comment\r\n").unwrap_err().position);
    assert_eq!(2, jsm_parse("  #\rx").unwrap_err().position);
}

#[test]
fn map_key_default_events() {
    let a = JSMAction { action_mod: None, event_mod: None, action: ActionType::Key(KeyboardKey::Tab) };
    let b = JSMAction { action_mod: None, event_mod: None, action: ActionType::Mouse(MouseButton::Right) };
    let mut layer = Layer::default();
    map_key(&mut layer, &vec![a]);
    assert_eq!(Some(Action::Ext(ExtAction::KeyPress(KeyboardKey::Tab, ClickType::Press))), layer.on_down);
    assert_eq!(Some(Action::Ext(ExtAction::KeyPress(KeyboardKey::Tab, ClickType::Release))), layer.on_up);
    let mut layer = Layer::default();
    map_key(&mut layer, &vec![a, b]);
    assert_eq!(Some(Action::Ext(ExtAction::KeyPress(KeyboardKey::Tab, ClickType::Click))), layer.on_click);
    assert_eq!(Some(Action::Ext(ExtAction::MousePress(MouseButton::Right, ClickType::Press))), layer.on_hold_down);
    assert_eq!(Some(Action::Ext(ExtAction::MousePress(MouseButton::Right, ClickType::Release))), layer.on_hold_up);
}

#[test]
fn parse_file_binds_chord() {
    let mut b = Buttons::new();
    parse_file("L, S = a\nS = b", &mut b).unwrap();
    let l = MapKey::Physical(JoyKey::L);
    let s = MapKey::Physical(JoyKey::S);
    assert_eq!(Some(Action::Layer(8, true)), b.get(l, 0).on_down);
    assert_eq!(Some(Action::Layer(8, false)), b.get(l, 0).on_up);
    assert_eq!(
        Some(Action::Ext(ExtAction::KeyPress(KeyboardKey::Layout('a'), ClickType::Press))),
        b.get(s, 8).on_down
    );
    assert_eq!(
        Some(Action::Ext(ExtAction::KeyPress(KeyboardKey::Layout('b'), ClickType::Press))),
        b.get(s, 0).on_down
    );
    let mut b2 = Buttons::new();
    assert_eq!(0, parse_file("!", &mut b2).unwrap_err().position);
}

#[test]
fn diff_presses_and_releases() {
    let mut b = Buttons::new();
    let s = MapKey::Physical(JoyKey::S);
    b.set(s, 0, Layer { on_click: Some(Action::Ext(key_a())), ..Layer::default() });
    let released = KeyMap { keys: vec![Pad::Released; 20] };
    let mut pressed = KeyMap { keys: vec![Pad::Released; 20] };
    pressed.keys[JoyKey::S.index()] = Pad::Pressed;
    diff(&mut b, 0, &released, &pressed);
    assert!(b.state[s.index()].status.is_down());
    diff(&mut b, 10, &pressed, &pressed);
    diff(&mut b, 20, &pressed, &released);
    assert!(b.state[s.index()].status.is_up());
    assert_eq!(vec![key_a()], b.tick(30));
}

#[test]
fn effects_of_actions() {
    assert_eq!(Effect::SetGyro(true), effect(ExtAction::GyroOn(ClickType::Press)));
    assert_eq!(Effect::SetGyro(true), effect(ExtAction::GyroOff(ClickType::Release)));
    assert_eq!(Effect::SetGyro(false), effect(ExtAction::GyroOff(ClickType::Press)));
    assert_eq!(Effect::KeyClick(KeyboardKey::Tab), effect(ExtAction::KeyPress(KeyboardKey::Tab, ClickType::Click)));
    assert_eq!(Effect::MouseUp(MouseButton::Middle), effect(ExtAction::MousePress(MouseButton::Middle, ClickType::Release)));
}
