use veloren::controls::{
    handle_key, handle_window_event, keypress_eq, window_step, GameAction, GameEvent, KeyState, WindowInput,
};
use veloren::ui::hud::Hud;
use veloren::keybinds::{str_to_vkcode, vkcode_to_str, Keybinds, VKeyCode};
use veloren::ui::input::VirtualKeyCode;

#[test]
fn key_names_round_trip() {
    for code in [
        VirtualKeyCode::A,
        VirtualKeyCode::Z,
        VirtualKeyCode::Key0,
        VirtualKeyCode::Key1,
        VirtualKeyCode::Escape,
        VirtualKeyCode::Return,
        VirtualKeyCode::Space,
        VirtualKeyCode::LControl,
        VirtualKeyCode::LShift,
    ] {
        assert_eq!(str_to_vkcode(vkcode_to_str(&code)), Some(code));
    }
}

#[test]
fn key_names_that_do_not_come_back() {
    assert_eq!(vkcode_to_str(&VirtualKeyCode::Key9), "Key9");
    assert_eq!(str_to_vkcode("Key9"), Some(VirtualKeyCode::Key0));
    assert_eq!(vkcode_to_str(&VirtualKeyCode::F1), "F1");
    assert_eq!(str_to_vkcode("F1"), None);
    assert_eq!(str_to_vkcode("nonsense"), None);
    assert_eq!(str_to_vkcode(""), None);
}

#[test]
fn default_bindings() {
    let k = Keybinds::default();
    assert_eq!(k.general.forward, Some(VKeyCode(VirtualKeyCode::W)));
    assert_eq!(k.general.back, Some(VKeyCode(VirtualKeyCode::S)));
    assert_eq!(k.general.pause, Some(VKeyCode(VirtualKeyCode::Escape)));
    assert_eq!(k.general.interact, None);
    assert_eq!(k.mount.dismount, Some(VKeyCode(VirtualKeyCode::M)));
    assert_eq!(VKeyCode(VirtualKeyCode::Q).code(), VirtualKeyCode::Q);
    assert!(Keybinds::complete(Keybinds::default()) == Keybinds::default());
}

#[test]
fn movement_keys() {
    let g = Keybinds::default().general;
    let mut ks = KeyState::new();
    assert_eq!(handle_key(&g, Some(VirtualKeyCode::W), true, false, &mut ks), GameAction::Nothing);
    assert!(ks.up && !ks.down);
    handle_key(&g, Some(VirtualKeyCode::Space), true, false, &mut ks);
    assert!(ks.jump());
    handle_key(&g, Some(VirtualKeyCode::W), false, false, &mut ks);
    assert!(!ks.up);
    handle_key(&g, Some(VirtualKeyCode::D), true, false, &mut ks);
    handle_key(&g, Some(VirtualKeyCode::A), true, false, &mut ks);
    assert!(ks.right && ks.left);
    let before = ks;
    handle_key(&g, Some(VirtualKeyCode::X), true, false, &mut ks);
    handle_key(&g, None, true, false, &mut ks);
    assert_eq!(ks, before);
}

#[test]
fn pause_and_quit() {
    let g = Keybinds::default().general;
    let mut ks = KeyState::new();
    assert_eq!(handle_key(&g, Some(VirtualKeyCode::Escape), true, false, &mut ks), GameAction::UntrapCursor);
    assert_eq!(handle_key(&g, Some(VirtualKeyCode::Q), true, false, &mut ks), GameAction::Nothing);
    assert_eq!(handle_key(&g, Some(VirtualKeyCode::Q), true, true, &mut ks), GameAction::Quit);
    assert!(keypress_eq(&g.chat, Some(VirtualKeyCode::Return)));
    assert!(!keypress_eq(&g.interact, Some(VirtualKeyCode::E)));
    assert_eq!(ks, KeyState::new());
}

#[test]
fn missing_bindings_are_filled() {
    let mut user = Keybinds::default();
    user.general.forward = None;
    user.general.back = Some(VKeyCode(VirtualKeyCode::K));
    user.general.interact = Some(VKeyCode(VirtualKeyCode::E));
    user.mount.dismount = None;
    let k = Keybinds::complete(user);
    assert_eq!(k.general.forward, Some(VKeyCode(VirtualKeyCode::W)));
    assert_eq!(k.general.back, Some(VKeyCode(VirtualKeyCode::K)));
    assert_eq!(k.general.interact, Some(VKeyCode(VirtualKeyCode::E)));
    assert_eq!(k.general.use_item, Some(VKeyCode(VirtualKeyCode::Q)));
    assert_eq!(k.general.attack_1, None);
    let mut items = Keybinds::default();
    items.general.use_item = Some(VKeyCode(VirtualKeyCode::F));
    items.general.attack_1 = Some(VKeyCode(VirtualKeyCode::J));
    items.general.skill_3 = Some(VKeyCode(VirtualKeyCode::Key3));
    let k = Keybinds::complete(items);
    assert_eq!(k.general.use_item, Some(VKeyCode(VirtualKeyCode::F)));
    assert_eq!(k.general.attack_1, Some(VKeyCode(VirtualKeyCode::J)));
    assert_eq!(k.general.skill_3, Some(VKeyCode(VirtualKeyCode::Key3)));
    assert_eq!(k.general.skill_1, None);
    assert_eq!(k.mount.dismount, Some(VKeyCode(VirtualKeyCode::M)));
    let mut no_interact = Keybinds::default();
    no_interact.general.pause = None;
    assert_eq!(Keybinds::complete(no_interact).general.interact, None);
    assert_eq!(Keybinds::complete(no_interact).general.pause, Some(VKeyCode(VirtualKeyCode::Escape)));
}

#[test]
fn window_events_go_to_the_hud_first() {
    let g = Keybinds::default().general;
    let mut hud = Hud::new();
    let mut ks = KeyState::new();
    let w = GameEvent::KeyboardInput { key: Some(VirtualKeyCode::W), pressed: true, ctrl: false };
    assert_eq!(handle_window_event(&mut hud, &g, &mut ks, &w), (false, GameAction::Nothing));
    assert!(ks.up);
    assert_eq!(handle_window_event(&mut hud, &g, &mut ks, &GameEvent::Character('\r')), (true, GameAction::Nothing));
    assert!(hud.chat_enabled());
    let s = GameEvent::KeyboardInput { key: Some(VirtualKeyCode::S), pressed: true, ctrl: false };
    assert_eq!(handle_window_event(&mut hud, &g, &mut ks, &s), (true, GameAction::Nothing));
    assert!(!ks.down);
    assert_eq!(handle_window_event(&mut hud, &g, &mut ks, &GameEvent::Character('\n')), (true, GameAction::Nothing));
    assert!(!hud.chat_enabled());
    let q = GameEvent::KeyboardInput { key: Some(VirtualKeyCode::Q), pressed: true, ctrl: true };
    assert_eq!(handle_window_event(&mut hud, &g, &mut ks, &q), (false, GameAction::Quit));
    assert_eq!(handle_window_event(&mut hud, &g, &mut ks, &GameEvent::CloseRequest), (false, GameAction::Quit));
    assert_eq!(handle_window_event(&mut hud, &g, &mut ks, &GameEvent::Other), (false, GameAction::Nothing));
}

#[test]
fn named_keys_have_distinct_names() {
    let keys = [
        VirtualKeyCode::Key0,
        VirtualKeyCode::Key9,
        VirtualKeyCode::A,
        VirtualKeyCode::Z,
        VirtualKeyCode::Escape,
        VirtualKeyCode::F1,
        VirtualKeyCode::F10,
        VirtualKeyCode::F12,
        VirtualKeyCode::Snapshot,
        VirtualKeyCode::Pause,
        VirtualKeyCode::PageDown,
        VirtualKeyCode::PageUp,
        VirtualKeyCode::Back,
        VirtualKeyCode::Return,
        VirtualKeyCode::LControl,
        VirtualKeyCode::LShift,
    ];
    for (i, a) in keys.iter().enumerate() {
        assert_ne!(vkcode_to_str(a), "");
        for b in keys.iter().skip(i + 1) {
            assert_ne!(vkcode_to_str(a), vkcode_to_str(b));
        }
    }
}

#[test]
fn cursor_trap_follows_clicks_and_focus() {
    assert_eq!(window_step(false, WindowInput::MouseMotion), (false, false));
    assert_eq!(window_step(true, WindowInput::MouseMotion), (true, true));
    assert_eq!(window_step(false, WindowInput::MouseButton { left: true }), (true, true));
    assert_eq!(window_step(false, WindowInput::MouseButton { left: false }), (false, true));
    assert_eq!(window_step(true, WindowInput::Focused(false)), (false, false));
    assert_eq!(window_step(true, WindowInput::Focused(true)), (true, false));
    assert_eq!(window_step(true, WindowInput::Other), (true, true));
}
