//! Remote input: which message the receiver side sends to the sender for each keyboard
//! or mouse event it captures.

use vstd::prelude::*;
use vstd::string::StringExecFns;
use crate::decimal::{
    decimal_chars, format_i32, format_u32, lemma_parse_format_roundtrip, parse_u32_spec,
    signed_decimal_chars,
};
use vstd::utf8::encode_utf8;

verus! {

/// A mouse button.
#[derive(Debug, Clone, Copy, PartialEq, Eq, Structural)]
pub enum MouseButton {
    Left,
    Right,
    Middle,
    X1,
    X2,
}

/// Whether a key or button went down or up.
#[derive(Debug, Clone, Copy, PartialEq, Eq, Structural)]
pub enum KeyAction {
    Press,
    Release,
}

/// A captured input event.
#[derive(Debug, Clone, Copy, PartialEq, Eq, Structural)]
pub enum InputEvent {
    /// A key, by its virtual key code and scan code.
    Keyboard { vk: u8, scan_code: u32, action: KeyAction },
    /// A mouse button.
    MouseButton { action: KeyAction, button: MouseButton },
    /// A relative mouse movement.
    MouseMoveRelative { x: i32, y: i32 },
    /// Any other event (absolute movement, wheel, ...).
    Other,
}

/// The kind of a button message, which selects its prefix.
#[derive(Debug, Clone, Copy, PartialEq, Eq, Structural)]
pub enum ButtonCommand {
    PressKeyboard,
    ReleaseKeyboard,
    PressMouse,
    ReleaseMouse,
}

/// What to do for a captured event.
#[derive(Debug)]
pub enum InputAction {
    /// Send nothing, then look for a shutdown as after every event.
    Nothing,
    /// A movement by (0, 0): send nothing and go straight to the next event.
    SkipMove,
    /// Send `text` with the prefix of `command` on the keyboard channel.
    SendButton { command: ButtonCommand, text: String },
    /// Send `text` on the mouse channel, if that channel is open.
    SendMouseMove { text: String },
}

/// The number that identifies a mouse button in a message.
pub open spec fn button_code(button: MouseButton) -> i32 {
    match button {
        MouseButton::Left => 0,
        MouseButton::Right => 1,
        MouseButton::Middle => 2,
        MouseButton::X1 => 3,
        MouseButton::X2 => 4,
    }
}

/// The number of a mouse button.
pub fn button_to_i32(button: MouseButton) -> (code: i32)
    ensures
        code == button_code(button),
{
    match button {
        MouseButton::Left => 0,
        MouseButton::Right => 1,
        MouseButton::Middle => 2,
        MouseButton::X1 => 3,
        MouseButton::X2 => 4,
    }
}

/// The key number that a keyboard message carries: the left and right shift keys
/// (scan codes 42 and 54) are sent as 160 and 161, every other key as its virtual key code.
pub open spec fn key_number(vk: u8, scan_code: u32) -> nat {
    if scan_code == 42 {
        160
    } else if scan_code == 54 {
        161
    } else {
        vk as nat
    }
}

/// The text of a keyboard message: the decimal key number.
pub fn key_text(vk: u8, scan_code: u32) -> (text: String)
    ensures
        text@ == decimal_chars(key_number(vk, scan_code)),
        scan_code != 42 && scan_code != 54 ==> text@ == decimal_chars(vk as nat),
        scan_code == 42 ==> text@ == decimal_chars(160),
        scan_code == 54 ==> text@ == decimal_chars(161),
{
    if scan_code == 42 {
        format_u32(160)
    } else if scan_code == 54 {
        format_u32(161)
    } else {
        format_u32(vk as u32)
    }
}

/// The text of a relative mouse movement: `x`, a space, and `y`, in decimal.
pub open spec fn mouse_move_chars(x: i32, y: i32) -> Seq<char> {
    signed_decimal_chars(x as int) + seq![' '] + signed_decimal_chars(y as int)
}

/// The text sent for a relative mouse movement.
pub fn mouse_move_text(x: i32, y: i32) -> (text: String)
    ensures
        text@ == mouse_move_chars(x, y),
{
    let mut text = format_i32(x);
    text.append(" ");
    let ys = format_i32(y);
    text.append(ys.as_str());
    proof {
        reveal_strlit(" ");
        assert(text@ =~= mouse_move_chars(x, y));
    }
    text
}

/// A button message: its prefix followed by its text.
pub fn button_message(prefix: &str, text: &str) -> (message: String)
    ensures
        message@ == prefix@ + text@,
{
    let mut message = String::from_str(prefix);
    message.append(text);
    message
}

/// The command of a key event.
pub open spec fn keyboard_command(action: KeyAction) -> ButtonCommand {
    match action {
        KeyAction::Press => ButtonCommand::PressKeyboard,
        KeyAction::Release => ButtonCommand::ReleaseKeyboard,
    }
}

/// The command of a mouse button event.
pub open spec fn mouse_command(action: KeyAction) -> ButtonCommand {
    match action {
        KeyAction::Press => ButtonCommand::PressMouse,
        KeyAction::Release => ButtonCommand::ReleaseMouse,
    }
}

/// Whether `a` is what is done for `event`.
pub open spec fn is_action_for(event: InputEvent, a: InputAction) -> bool {
    match event {
        InputEvent::Keyboard { vk, scan_code, action } => a matches InputAction::SendButton {
            command,
            text,
        } && command == keyboard_command(action) && text@ == decimal_chars(
            key_number(vk, scan_code),
        ),
        InputEvent::MouseButton { action, button } => a matches InputAction::SendButton {
            command,
            text,
        } && command == mouse_command(action) && text@ == signed_decimal_chars(
            button_code(button) as int,
        ),
        InputEvent::MouseMoveRelative { x, y } => if x == 0 && y == 0 {
            a is SkipMove
        } else {
            a matches InputAction::SendMouseMove { text } && text@ == mouse_move_chars(x, y)
        },
        InputEvent::Other => a is Nothing,
    }
}

/// What the input capture does for a captured event.
pub fn input_action(event: InputEvent) -> (a: InputAction)
    ensures
        is_action_for(event, a),
{
    match event {
        InputEvent::Keyboard { vk, scan_code, action } => {
            let command = match action {
                KeyAction::Press => ButtonCommand::PressKeyboard,
                KeyAction::Release => ButtonCommand::ReleaseKeyboard,
            };
            InputAction::SendButton { command, text: key_text(vk, scan_code) }
        },
        InputEvent::MouseButton { action, button } => {
            let command = match action {
                KeyAction::Press => ButtonCommand::PressMouse,
                KeyAction::Release => ButtonCommand::ReleaseMouse,
            };
            InputAction::SendButton { command, text: format_i32(button_to_i32(button)) }
        },
        InputEvent::MouseMoveRelative { x, y } => {
            if x == 0 && y == 0 {
                InputAction::SkipMove
            } else {
                InputAction::SendMouseMove { text: mouse_move_text(x, y) }
            }
        },
        InputEvent::Other => InputAction::Nothing,
    }
}

/// A key other than the two shift keys is sent as its own virtual key code: the text
/// reads back as `vk`, for every `u8`; the shift keys read back as 160 and 161.
pub proof fn lemma_key_text_reads_back(vk: u8, scan_code: u32, action: KeyAction, a: InputAction)
    requires
        is_action_for(InputEvent::Keyboard { vk, scan_code, action }, a),
    ensures
        a matches InputAction::SendButton { command, text } && parse_u32_spec(encode_utf8(text@))
            == Some(if scan_code == 42 { 160u32 } else if scan_code == 54 { 161u32 } else { vk as u32 }),
        scan_code != 42 && scan_code != 54 ==> key_number(vk, scan_code) == vk as nat,
{
    if scan_code == 42 {
        lemma_parse_format_roundtrip(160);
    } else if scan_code == 54 {
        lemma_parse_format_roundtrip(161);
    } else {
        lemma_parse_format_roundtrip(vk as u32);
    }
}

/// A key or mouse button going down is sent with a press command and going up with a
/// release command, of the keyboard or the mouse as the event is; press and release of
/// the same key or button therefore give different commands.
pub proof fn lemma_button_commands(event: InputEvent, a: InputAction)
    requires
        is_action_for(event, a),
    ensures
        event matches InputEvent::Keyboard { action, .. } ==> (a matches InputAction::SendButton {
            command,
            ..
        } && command == (if action == KeyAction::Press {
            ButtonCommand::PressKeyboard
        } else {
            ButtonCommand::ReleaseKeyboard
        })),
        event matches InputEvent::MouseButton { action, .. } ==> (a matches InputAction::SendButton {
            command,
            ..
        } && command == (if action == KeyAction::Press {
            ButtonCommand::PressMouse
        } else {
            ButtonCommand::ReleaseMouse
        })),
{
}

/// Each mouse button has its own number, from 0 to 4 (left 0, right 1, middle 2,
/// X1 3, X2 4), and a button event's text is that number in decimal.
pub proof fn lemma_mouse_button_numbers(action: KeyAction, button: MouseButton, other: MouseButton, a: InputAction)
    requires
        is_action_for(InputEvent::MouseButton { action, button }, a),
    ensures
        0 <= button_code(button) <= 4,
        button != other ==> button_code(button) != button_code(other),
        button == MouseButton::Left ==> button_code(button) == 0,
        button == MouseButton::Right ==> button_code(button) == 1,
        button == MouseButton::Middle ==> button_code(button) == 2,
        button == MouseButton::X1 ==> button_code(button) == 3,
        button == MouseButton::X2 ==> button_code(button) == 4,
        a matches InputAction::SendButton { text, .. } && text@ == decimal_chars(
            button_code(button) as nat,
        ),
{
}

/// A relative movement is skipped exactly when it is by (0, 0); any other movement is
/// sent as the decimal text of `x`, a space, and the decimal text of `y`.
pub proof fn lemma_mouse_moves(x: i32, y: i32, a: InputAction)
    requires
        is_action_for(InputEvent::MouseMoveRelative { x, y }, a),
    ensures
        (a is SkipMove) <==> (x == 0 && y == 0),
        (x != 0 || y != 0) ==> (a matches InputAction::SendMouseMove { text } && text@
            == signed_decimal_chars(x as int) + seq![' '] + signed_decimal_chars(y as int)),
{
}

} // verus!
