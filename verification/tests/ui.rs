use veloren::ui::hud::{ChatBox, Hud, HudEvent, HudInput, TextBox, MAX_MSGS};
use veloren::ui::input::{
    convert_character, convert_keycode, convert_mousebutton, map_key, map_mouse, Button, ElementState, Input, Key,
    KeyboardInput, MouseButton, UiMouseButton, VirtualKeyCode,
};
use veloren::ui::labels::{
    build_label, build_time_label, chat_label, debug_build_time_label, debug_fps_label, debug_git_hash_label,
    debug_version_label, version_label,
};
use veloren::ui::state::{MenuPage, UiInternalEvent, UiState, MAX_CHAT_LINES};

fn texts(events: Vec<HudEvent>) -> Vec<String> {
    events.into_iter().map(|e| match e {
        HudEvent::ChatMsgSent { text } => text,
    }).collect()
}

#[test]
fn text_box_editing() {
    let mut tb = TextBox::new();
    assert_eq!(tb.handle_char('h'), None);
    assert_eq!(tb.handle_char('i'), None);
    assert_eq!(tb.get_text(), "hi");
    assert_eq!(tb.handle_char('\x08'), None);
    assert_eq!(tb.get_text(), "h");
    assert_eq!(tb.handle_char('\x08'), None);
    assert_eq!(tb.handle_char('\x08'), None);
    assert_eq!(tb.get_text(), "");
    tb.set_text("yo".to_string());
    assert_eq!(tb.handle_char('\r'), Some("yo".to_string()));
    assert_eq!(tb.get_text(), "");
    let tb = TextBox::new().with_text("abc".to_string());
    assert_eq!(tb.get_text(), "abc");
}

#[test]
fn chat_box_keeps_the_last_lines() {
    let mut cb = ChatBox::new();
    assert_eq!(cb.messages().len(), MAX_MSGS);
    assert!(cb.messages().iter().all(|m| m.is_empty()));
    for i in 0..12 {
        cb.add_chat_msg(format!("m{}", i));
    }
    assert_eq!(cb.messages().len(), 10);
    assert_eq!(cb.messages()[0], "m2");
    assert_eq!(cb.messages()[9], "m11");
}

#[test]
fn hud_chat_flow() {
    let mut hud = Hud::new();
    assert!(!hud.chat_enabled());
    assert!(!hud.handle_event(&HudInput::Character('a')));
    assert!(!hud.handle_event(&HudInput::KeyboardInput));
    assert!(!hud.handle_event(&HudInput::Other));
    assert!(hud.handle_event(&HudInput::Character('\n')));
    assert!(hud.chat_enabled());
    assert!(hud.handle_event(&HudInput::KeyboardInput));
    for c in "hey".chars() {
        assert!(hud.handle_event(&HudInput::Character(c)));
    }
    assert!(hud.handle_event(&HudInput::Character('\x08')));
    assert!(hud.handle_event(&HudInput::Character('y')));
    assert!(texts(hud.get_events()).is_empty());
    assert!(hud.handle_event(&HudInput::Character('\r')));
    assert!(!hud.chat_enabled());
    assert_eq!(texts(hud.get_events()), vec!["hey".to_string()]);
    assert!(texts(hud.get_events()).is_empty());
    hud.add_chat_msg("hello".to_string());
    assert_eq!(hud.chat_box().messages()[MAX_MSGS - 1], "hello");
}

#[test]
fn ui_state_events() {
    let mut s = UiState::normal_game();
    assert!(s.show_fps && s.show_version && !s.show_chat && !s.show_menu);
    assert_eq!(s.menupage, MenuPage::Main);
    assert!(s.handle_internal_event(UiInternalEvent::SendChat).is_none());
    assert!(s.handle_internal_event(UiInternalEvent::UpdateChatText("hi".to_string())).is_none());
    assert_eq!(s.chat_message, "hi");
    assert_eq!(s.handle_internal_event(UiInternalEvent::SendChat), Some("hi".to_string()));
    assert_eq!(s.chat_message, "");
    for i in 0..15 {
        s.handle_internal_event(UiInternalEvent::NewChatMessage(format!("a{}", i), format!("m{}", i)));
    }
    assert_eq!(s.chat_lines.len(), MAX_CHAT_LINES);
    assert_eq!(s.chat_lines[0], ("a14".to_string(), "m14".to_string()));
    assert_eq!(s.chat_lines[MAX_CHAT_LINES - 1], ("a3".to_string(), "m3".to_string()));
}

#[test]
fn input_translation() {
    assert_eq!(map_key(VirtualKeyCode::A), Key::A);
    assert_eq!(map_key(VirtualKeyCode::Return), Key::Return);
    assert_eq!(map_key(VirtualKeyCode::Other), Key::Unknown);
    assert_eq!(map_mouse(MouseButton::Left), UiMouseButton::Left);
    assert_eq!(map_mouse(MouseButton::Other(1)), UiMouseButton::X2);
    assert_eq!(map_mouse(MouseButton::Other(9)), UiMouseButton::Unknown);
    match convert_keycode(KeyboardInput { state: ElementState::Pressed, virtual_keycode: Some(VirtualKeyCode::Space) }) {
        Some(Input::Press(b)) => assert_eq!(b, Button::Keyboard(Key::Space)),
        _ => panic!("a press"),
    }
    assert!(convert_keycode(KeyboardInput { state: ElementState::Released, virtual_keycode: None }).is_none());
    match convert_mousebutton(ElementState::Released, MouseButton::Right) {
        Input::Release(b) => assert_eq!(b, Button::Mouse(UiMouseButton::Right)),
        _ => panic!("a release"),
    }
    match convert_character('x') {
        Input::Text(t) => assert_eq!(t, "x"),
        _ => panic!("text"),
    }
    match convert_character('\t') {
        Input::Text(t) => assert_eq!(t, ""),
        _ => panic!("text"),
    }
}

#[test]
fn labels() {
    assert_eq!(chat_label("bob", "hi there"), "bob: hi there");
    assert_eq!(version_label("0.1.0"), "Version 0.1.0");
    assert_eq!(build_time_label("noon"), "Built at noon");
    assert_eq!(build_label("0123456789abcdef"), "Build 01234567");
    assert_eq!(build_label("abc"), "Build abc");
}

#[test]
fn text_box_events() {
    let mut tb = TextBox::new();
    assert_eq!(tb.handle_event(&HudInput::Character('o')), (true, None));
    assert_eq!(tb.handle_event(&HudInput::Character('k')), (true, None));
    assert_eq!(tb.handle_event(&HudInput::KeyboardInput), (true, None));
    assert_eq!(tb.get_text(), "ok");
    assert_eq!(tb.handle_event(&HudInput::Other), (false, None));
    assert_eq!(tb.get_text(), "ok");
    assert_eq!(tb.handle_event(&HudInput::Character('\x08')), (true, None));
    assert_eq!(tb.handle_event(&HudInput::Character('\r')), (true, Some("o".to_string())));
    assert_eq!(tb.get_text(), "");
}

#[test]
fn hud_debug_box() {
    let mut hud = Hud::new();
    let d = hud.debug_box();
    assert_eq!(d.header, "Debug");
    assert_eq!(d.version_label, "");
    assert_eq!(d.githash_label, "");
    assert_eq!(d.buildtime_label, "");
    assert_eq!(d.fps_label, "");
    assert_eq!(d.pos_label, "");
    hud.set_debug_labels(
        "Version: 0.1".to_string(),
        "Git hash: abc".to_string(),
        "Build time: now".to_string(),
        "FPS: 60".to_string(),
        "Unknown position".to_string(),
    );
    let d = hud.debug_box();
    assert_eq!(d.header, "Debug");
    assert_eq!(d.fps_label, "FPS: 60");
    assert_eq!(d.pos_label, "Unknown position");
    assert!(!hud.chat_enabled());
}

#[test]
fn debug_box_labels() {
    assert_eq!(debug_version_label("0.1.0"), "Version: 0.1.0");
    assert_eq!(debug_build_time_label("now"), "Build time: now");
    assert_eq!(debug_git_hash_label("0123456789abcdef"), "Git hash: 01234567");
    assert_eq!(debug_git_hash_label("01234567"), "Git hash: 01234567");
    assert_eq!(debug_git_hash_label("abc"), "Git hash: <none>");
    assert_eq!(debug_git_hash_label("ééééé"), "Git hash: éééé");
    assert_eq!(debug_git_hash_label("aéééé"), "Git hash: <none>");
    assert_eq!(debug_fps_label(60), "FPS: 60");
    assert_eq!(debug_fps_label(0), "FPS: 0");
    assert_eq!(debug_fps_label(1207), "FPS: 1207");
}
