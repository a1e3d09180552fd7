//! Window and input events as the frame loop reads them.

use vstd::prelude::*;

verus! {

/// A size in physical pixels.
#[derive(Clone, Copy, Debug, PartialEq, Eq, Structural)]
pub struct PhysicalSize {
    pub width: u32,
    pub height: u32,
}

/// Whether a key went down or came up.
#[derive(Clone, Copy, Debug, PartialEq, Eq, Structural)]
pub enum ElementState {
    Pressed,
    Released,
}

/// The meaning of a key, as far as the loop tells keys apart.
#[derive(Clone, Copy, Debug, PartialEq, Eq, Structural)]
pub enum KeyCode {
    Escape,
    Other,
}

/// One keyboard event.
#[derive(Clone, Copy, Debug, PartialEq, Eq, Structural)]
pub struct KeyboardInput {
    pub state: ElementState,
    /// `None` where the platform gave the key no meaning.
    pub key: Option<KeyCode>,
    /// A modifier key was held while the key changed state.
    pub modified: bool,
    /// The event was generated by holding the key down.
    pub repeat: bool,
}

/// An event addressed to one window.
#[derive(Clone, Copy, Debug, PartialEq, Eq, Structural)]
pub enum WindowEvent {
    CloseRequested,
    KeyboardInput(KeyboardInput),
    /// The window's surface now has this size.
    Resized(PhysicalSize),
    /// The display scale changed, and with it the surface size.
    ScaleFactorChanged { new_inner_size: PhysicalSize },
    /// Any event the loop has no generic reading for.
    Other,
}

/// An event as the host delivers it to the loop.
#[derive(Clone, Copy, Debug, PartialEq, Eq, Structural)]
pub enum Event {
    WindowEvent { window_id: u64, event: WindowEvent },
    RedrawRequested { window_id: u64 },
    MainEventsCleared,
    Other,
}

/// The one key press that asks the loop to exit: the escape key going down,
/// alone and not as a repeat.
pub open spec fn is_exit_key(input: KeyboardInput) -> bool {
    &&& input.state == ElementState::Pressed
    &&& input.key == Some(KeyCode::Escape)
    &&& !input.modified
    &&& !input.repeat
}

impl KeyboardInput {
    /// Whether this is the key press that asks the loop to exit.
    pub fn is_exit_key(&self) -> (exit: bool)
        ensures
            exit == is_exit_key(*self),
    {
        let pressed = match self.state {
            ElementState::Pressed => true,
            ElementState::Released => false,
        };
        let escape = match self.key {
            Some(KeyCode::Escape) => true,
            _ => false,
        };
        pressed && escape && !self.modified && !self.repeat
    }
}

} // verus!
