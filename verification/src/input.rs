//! Keys that the demo reacts to.

use vstd::prelude::*;

verus! {

/// `winit::keyboard::KeyCode`, carried through as an opaque value.
#[verifier::external_type_specification]
#[verifier::external_body]
pub struct ExKeyCode(winit::keyboard::KeyCode);

/// A physical key, as far as the demo tells keys apart.
#[derive(Clone, Copy, Debug, PartialEq, Eq, Structural)]
pub enum Key {
    Escape,
    Space,
    Other,
}

/// What a key press asks for.
#[derive(Clone, Copy, Debug, PartialEq, Eq, Structural)]
pub enum KeyCommand {
    /// Leave the event loop.
    Exit,
    /// Switch to the other pipeline variant.
    TogglePipeline,
    /// Nothing.
    Ignore,
}

/// The [`Key`] of a `winit::keyboard::KeyCode`: `Escape` and `Space` for
/// the variants of those names, `Other` for every other variant.
pub uninterp spec fn key_of(code: winit::keyboard::KeyCode) -> Key;

/// Tells the variants `Escape` and `Space` of `winit::keyboard::KeyCode`
/// from the rest. Trusted: the result is `Escape` or `Space` exactly for
/// the variant of that name.
#[verifier::external_body]
fn classify(code: &winit::keyboard::KeyCode) -> (key: Key)
    ensures
        key == key_of(*code),
{
    match code {
        winit::keyboard::KeyCode::Escape => Key::Escape,
        winit::keyboard::KeyCode::Space => Key::Space,
        _ => Key::Other,
    }
}

/// The command of a key event: only a press of Escape or Space has one.
pub open spec fn command_of(key: Key, is_pressed: bool) -> KeyCommand {
    match (key, is_pressed) {
        (Key::Escape, true) => KeyCommand::Exit,
        (Key::Space, true) => KeyCommand::TogglePipeline,
        _ => KeyCommand::Ignore,
    }
}

/// Decides what a key event asks for.
pub fn key_command(key: Key, is_pressed: bool) -> (command: KeyCommand)
    ensures
        command == command_of(key, is_pressed),
        !is_pressed ==> command == KeyCommand::Ignore,
{
    if !is_pressed {
        return KeyCommand::Ignore;
    }
    match key {
        Key::Escape => KeyCommand::Exit,
        Key::Space => KeyCommand::TogglePipeline,
        Key::Other => KeyCommand::Ignore,
    }
}

/// Decides what a key event of the window system asks for.
pub fn code_command(code: winit::keyboard::KeyCode, is_pressed: bool) -> (command: KeyCommand)
    ensures
        command == command_of(key_of(code), is_pressed),
        !is_pressed ==> command == KeyCommand::Ignore,
{
    key_command(classify(&code), is_pressed)
}

} // verus!
