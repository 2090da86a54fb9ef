//! What the game does with the window's events and the keys the player
//! presses.
use crate::keybinds::{General, VKeyCode};
use crate::ui::hud::{spec_hud_step, Hud, HudInput};
use crate::ui::input::VirtualKeyCode;
use vstd::prelude::*;

verus! {

/// Which movement keys are held down.
#[derive(Clone, Copy, Debug, PartialEq, Eq, Structural)]
pub struct KeyState {
    pub up: bool,
    pub down: bool,
    pub left: bool,
    pub right: bool,
    pub jump: bool,
}

impl KeyState {
    /// No key held.
    pub fn new() -> (r: KeyState)
        ensures
            !r.up && !r.down && !r.left && !r.right && !r.jump,
    {
        KeyState { up: false, down: false, left: false, right: false, jump: false }
    }

    pub fn jump(&self) -> (r: bool)
        ensures
            r == self.jump,
    {
        self.jump
    }
}

/// What the game does beyond updating the held keys.
#[derive(Clone, Copy, Debug, PartialEq, Eq, Structural)]
pub enum GameAction {
    /// Nothing more.
    Nothing,
    /// Free the cursor.
    UntrapCursor,
    /// Stop the game.
    Quit,
}

/// `key` is the key bound in `binding`.
pub open spec fn spec_bound(binding: Option<VKeyCode>, key: Option<VirtualKeyCode>) -> bool {
    binding matches Some(b) && key == Some(b.0)
}

/// Whether the key of an event is the key bound in `binding`; an unbound
/// action, or an event without a key, never matches.
pub fn keypress_eq(binding: &Option<VKeyCode>, key: Option<VirtualKeyCode>) -> (r: bool)
    ensures
        r == spec_bound(*binding, key),
{
    match (binding, key) {
        (Some(b), Some(k)) => b.0 == k,
        _ => false,
    }
}

/// What a key event asks of the game: pause frees the cursor, the item key
/// with Ctrl held quits.
pub open spec fn spec_key_action(general: General, key: Option<VirtualKeyCode>, ctrl: bool) -> GameAction {
    if spec_bound(general.pause, key) {
        GameAction::UntrapCursor
    } else if spec_bound(general.use_item, key) && ctrl {
        GameAction::Quit
    } else {
        GameAction::Nothing
    }
}

/// The held keys after a key event: the movement key it is bound to (the
/// first of forward, left, back, right and jump that matches) is held while
/// pressed and let go when released.
pub open spec fn spec_key_state(general: General, key: Option<VirtualKeyCode>, pressed: bool, s: KeyState) -> KeyState {
    if spec_bound(general.forward, key) {
        KeyState { up: pressed, ..s }
    } else if spec_bound(general.left, key) {
        KeyState { left: pressed, ..s }
    } else if spec_bound(general.back, key) {
        KeyState { down: pressed, ..s }
    } else if spec_bound(general.right, key) {
        KeyState { right: pressed, ..s }
    } else if spec_bound(general.jump, key) {
        KeyState { jump: pressed, ..s }
    } else {
        s
    }
}

/// The key of an event is the one bound in `binding`.
pub open spec fn hits(binding: Option<VKeyCode>, key: Option<VirtualKeyCode>) -> bool {
    &&& binding is Some
    &&& key is Some
    &&& binding.unwrap().0 == key.unwrap()
}

/// A key event moves: the forward key holds `up`, the left key `left`, the
/// back key `down`, the right key `right` and the jump key `jump` (the first
/// of these, in that order, that the key is bound to) while pressed, and
/// lets it go when released; no other held key changes, and a key bound to
/// none of them changes nothing.
pub proof fn lemma_movement_keys(general: General, key: Option<VirtualKeyCode>, pressed: bool, s: KeyState)
    ensures
        ({
            let r = spec_key_state(general, key, pressed, s);
            let f = hits(general.forward, key);
            let l = hits(general.left, key);
            let b = hits(general.back, key);
            let rt = hits(general.right, key);
            let j = hits(general.jump, key);
            &&& r.up == (if f { pressed } else { s.up })
            &&& r.left == (if !f && l { pressed } else { s.left })
            &&& r.down == (if !f && !l && b { pressed } else { s.down })
            &&& r.right == (if !f && !l && !b && rt { pressed } else { s.right })
            &&& r.jump == (if !f && !l && !b && !rt && j { pressed } else { s.jump })
        }),
{
}

/// A key event asks to free the cursor when its key is the pause key, and
/// to quit when its key is the item key with Ctrl held (and not the pause
/// key); otherwise it asks nothing.
pub proof fn lemma_key_actions(general: General, key: Option<VirtualKeyCode>, ctrl: bool)
    ensures
        spec_key_action(general, key, ctrl) == if hits(general.pause, key) {
            GameAction::UntrapCursor
        } else if hits(general.use_item, key) && ctrl {
            GameAction::Quit
        } else {
            GameAction::Nothing
        },
{
}

/// Takes a key event (its key, whether it went down, whether Ctrl is held)
/// under the bindings `general`: updates the held keys and answers what
/// else the game is to do.
pub fn handle_key(general: &General, key: Option<VirtualKeyCode>, pressed: bool, ctrl: bool, keys: &mut KeyState) -> (r: GameAction)
    ensures
        r == spec_key_action(*general, key, ctrl),
        *final(keys) == spec_key_state(*general, key, pressed, *old(keys)),
{
    let action = if keypress_eq(&general.pause, key) {
        GameAction::UntrapCursor
    } else if keypress_eq(&general.use_item, key) {
        if ctrl {
            GameAction::Quit
        } else {
            GameAction::Nothing
        }
    } else {
        GameAction::Nothing
    };
    if keypress_eq(&general.forward, key) {
        keys.up = pressed;
    } else if keypress_eq(&general.left, key) {
        keys.left = pressed;
    } else if keypress_eq(&general.back, key) {
        keys.down = pressed;
    } else if keypress_eq(&general.right, key) {
        keys.right = pressed;
    } else if keypress_eq(&general.jump, key) {
        keys.jump = pressed;
    }
    action
}

/// A window event, as far as the game's decisions read it.
#[derive(Clone, Copy, Debug, PartialEq, Eq, Structural)]
pub enum GameEvent {
    /// The window is asked to close.
    CloseRequest,
    /// A key went down or up; `ctrl` tells whether Ctrl was held.
    KeyboardInput { key: Option<VirtualKeyCode>, pressed: bool, ctrl: bool },
    /// A character was typed.
    Character(char),
    /// Anything else: the cursor, the mouse wheel, a resize.
    Other,
}

/// The event as the display sees it.
pub open spec fn spec_hud_input(event: GameEvent) -> HudInput {
    match event {
        GameEvent::Character(ch) => HudInput::Character(ch),
        GameEvent::KeyboardInput { .. } => HudInput::KeyboardInput,
        _ => HudInput::Other,
    }
}

fn hud_input(event: &GameEvent) -> (r: HudInput)
    ensures
        r == spec_hud_input(*event),
{
    match *event {
        GameEvent::Character(ch) => HudInput::Character(ch),
        GameEvent::KeyboardInput { .. } => HudInput::KeyboardInput,
        _ => HudInput::Other,
    }
}

/// Takes a window event: the display has it first, and an event it uses
/// goes no further. Otherwise a close request stops the game and a key
/// event goes to `handle_key`. Answers whether the display used the event,
/// and what else the game is to do.
pub fn handle_window_event(hud: &mut Hud, general: &General, keys: &mut KeyState, event: &GameEvent) -> (r: (
    bool,
    GameAction,
))
    ensures
        (final(hud).input_state(), r.0) == spec_hud_step(old(hud).input_state(), spec_hud_input(*event)),
        final(hud).spec_chat_box() == old(hud).spec_chat_box(),
        final(hud).spec_debug_box() == old(hud).spec_debug_box(),
        r.0 ==> r.1 == GameAction::Nothing && *final(keys) == *old(keys),
        !r.0 ==> match *event {
            GameEvent::CloseRequest => r.1 == GameAction::Quit && *final(keys) == *old(keys),
            GameEvent::KeyboardInput { key, pressed, ctrl } => r.1 == spec_key_action(*general, key, ctrl)
                && *final(keys) == spec_key_state(*general, key, pressed, *old(keys)),
            _ => r.1 == GameAction::Nothing && *final(keys) == *old(keys),
        },
{
    let input = hud_input(event);
    if hud.handle_event(&input) {
        return (true, GameAction::Nothing);
    }
    match *event {
        GameEvent::CloseRequest => (false, GameAction::Quit),
        GameEvent::KeyboardInput { key, pressed, ctrl } => (false, handle_key(general, key, pressed, ctrl, keys)),
        _ => (false, GameAction::Nothing),
    }
}

/// A window event, as far as the cursor trap reads it.
#[derive(Clone, Copy, Debug, PartialEq, Eq, Structural)]
pub enum WindowInput {
    /// The mouse moved.
    MouseMotion,
    /// A mouse button went down or up; `left` tells whether it was the
    /// left one.
    MouseButton { left: bool },
    /// The window gained (`true`) or lost (`false`) the focus.
    Focused(bool),
    /// Any other event: keys, characters, the wheel, a resize, a close
    /// request, the cursor's position.
    Other,
}

/// The cursor trap after a window event, and whether the event is handed
/// on to the game: mouse motion only while the cursor is trapped; a left
/// click traps the cursor and a lost focus frees it; focus changes are not
/// handed on.
pub open spec fn spec_window_step(trapped: bool, input: WindowInput) -> (bool, bool) {
    match input {
        WindowInput::MouseMotion => (trapped, trapped),
        WindowInput::MouseButton { left } => (trapped || left, true),
        WindowInput::Focused(focused) => (trapped && focused, false),
        WindowInput::Other => (trapped, true),
    }
}

/// Takes a window event with the cursor trapped or not: answers whether it
/// is trapped afterwards and whether the event goes on to the game.
pub fn window_step(trapped: bool, input: WindowInput) -> (r: (bool, bool))
    ensures
        r == spec_window_step(trapped, input),
{
    match input {
        WindowInput::MouseMotion => (trapped, trapped),
        WindowInput::MouseButton { left } => (trapped || left, true),
        WindowInput::Focused(focused) => (trapped && focused, false),
        WindowInput::Other => (trapped, true),
    }
}

/// A left click always leaves the cursor trapped, losing the focus always
/// leaves it free, and nothing else changes the trap; mouse motion reaches
/// the game exactly while the cursor is trapped, focus changes never, and
/// every other event always.
pub proof fn lemma_cursor_trap(trapped: bool, input: WindowInput)
    ensures
        input == (WindowInput::MouseButton { left: true }) ==> spec_window_step(trapped, input).0,
        input == WindowInput::Focused(false) ==> !spec_window_step(trapped, input).0,
        input != (WindowInput::MouseButton { left: true }) && input != WindowInput::Focused(false)
            ==> spec_window_step(trapped, input).0 == trapped,
        input == WindowInput::MouseMotion ==> spec_window_step(trapped, input).1 == trapped,
        input is Focused ==> !spec_window_step(trapped, input).1,
        !(input is MouseMotion) && !(input is Focused) ==> spec_window_step(trapped, input).1,
{
}

} // verus!
