//! The typed event model and the decoding of raw platform message codes.
//!
//! Keyboard decoding maps four raw message identifiers (key-down, key-up,
//! system-key-down, system-key-up) onto two outcomes, a press or a release
//! of a virtual-key code; every other identifier yields no event. Mouse
//! decoding maps a raw message code onto a mouse action through a fixed
//! table; a code outside the table yields no event, never an error.

use vstd::prelude::*;

verus! {

/// A keyboard event: a virtual-key code that was pressed or released.
#[derive(Debug, Clone, Copy, PartialEq, Eq, Structural)]
pub enum KeyEvent {
    KeyPress(u32),
    KeyUp(u32),
}

/// A 2D screen coordinate.
#[derive(Debug, Clone, Copy, PartialEq, Eq, Structural)]
pub struct Point {
    pub x: i32,
    pub y: i32,
}

impl Default for Point {
    /// The origin, `(0, 0)`.
    fn default() -> (p: Point)
        ensures
            p.x == 0,
            p.y == 0,
    {
        Point { x: 0, y: 0 }
    }
}

/// A mouse action, one per raw message code in the fixed decoding table.
#[derive(Debug, Clone, Copy, PartialEq, Eq, Structural)]
pub enum MouseEvent {
    MouseMove,
    MouseLeftBUttonDown,
    MouseLeftButtonUp,
    MouseRightButtonDown,
    MouseRightButtonUp,
    MouseWheelRouting,
    MouseMiddleButtonDown,
    MouseMiddleButtonUp,
}

/// The unified payload delivered to the registered callback: a keyboard
/// event, or a mouse action together with the cursor position.
#[derive(Debug, Clone, Copy, PartialEq, Eq)]
pub enum Event {
    KeyEvent(KeyEvent),
    MouseEvent((MouseEvent, Point)),
}

/// What keyboard decoding returns for a raw message identifier: the two
/// down-variants map to a press, the two up-variants to a release, and
/// everything else to no event.
pub open spec fn spec_decode_key_event(wparam: usize, vk_code: u32) -> Option<KeyEvent> {
    if wparam == 0x100 || wparam == 0x104 {
        Some(KeyEvent::KeyPress(vk_code))
    } else if wparam == 0x101 || wparam == 0x105 {
        Some(KeyEvent::KeyUp(vk_code))
    } else {
        None
    }
}

/// Decodes a raw keyboard message identifier and the virtual-key code it
/// carried. Key-down and system-key-down become a press, key-up and
/// system-key-up a release; any other identifier is silently ignored.
pub fn decode_key_event(wparam: usize, vk_code: u32) -> (r: Option<KeyEvent>)
    ensures
        r == spec_decode_key_event(wparam, vk_code),
{
    match wparam {
        0x100 | 0x104 => Some(KeyEvent::KeyPress(vk_code)),
        0x101 | 0x105 => Some(KeyEvent::KeyUp(vk_code)),
        _ => None,
    }
}

/// The fixed decoding table from a raw mouse message code to a mouse
/// action; a code outside the table maps to no event.
pub open spec fn spec_decode_mouse_event(code: i32) -> Option<MouseEvent> {
    if code == 0x200 {
        Some(MouseEvent::MouseMove)
    } else if code == 0x201 {
        Some(MouseEvent::MouseLeftBUttonDown)
    } else if code == 0x202 {
        Some(MouseEvent::MouseLeftButtonUp)
    } else if code == 0x204 {
        Some(MouseEvent::MouseRightButtonDown)
    } else if code == 0x205 {
        Some(MouseEvent::MouseRightButtonUp)
    } else if code == 0x207 {
        Some(MouseEvent::MouseMiddleButtonDown)
    } else if code == 0x208 {
        Some(MouseEvent::MouseMiddleButtonUp)
    } else if code == 0x20A {
        Some(MouseEvent::MouseWheelRouting)
    } else {
        None
    }
}

/// Decodes a raw mouse message code through the fixed table. A code
/// outside the table yields `None`; the caller treats that as "no event",
/// not as an error.
pub fn decode_mouse_event(code: i32) -> (r: Option<MouseEvent>)
    ensures
        r == spec_decode_mouse_event(code),
{
    match code {
        0x200 => Some(MouseEvent::MouseMove),
        0x201 => Some(MouseEvent::MouseLeftBUttonDown),
        0x202 => Some(MouseEvent::MouseLeftButtonUp),
        0x204 => Some(MouseEvent::MouseRightButtonDown),
        0x205 => Some(MouseEvent::MouseRightButtonUp),
        0x207 => Some(MouseEvent::MouseMiddleButtonDown),
        0x208 => Some(MouseEvent::MouseMiddleButtonUp),
        0x20A => Some(MouseEvent::MouseWheelRouting),
        _ => None,
    }
}

/// Every recognized keyboard message identifier decodes to a press for the
/// down-variants and a release for the up-variants, and every identifier
/// outside those four decodes to no event.
pub proof fn lemma_key_decode_exact(vk_code: u32)
    ensures
        spec_decode_key_event(0x100, vk_code) == Some(KeyEvent::KeyPress(vk_code)),
        spec_decode_key_event(0x104, vk_code) == Some(KeyEvent::KeyPress(vk_code)),
        spec_decode_key_event(0x101, vk_code) == Some(KeyEvent::KeyUp(vk_code)),
        spec_decode_key_event(0x105, vk_code) == Some(KeyEvent::KeyUp(vk_code)),
        forall|wparam: usize|
            !(wparam == 0x100 || wparam == 0x101 || wparam == 0x104 || wparam == 0x105)
                ==> spec_decode_key_event(wparam, vk_code) is None,
{
}

/// Every raw mouse code in the fixed table decodes to exactly its mapped
/// action, and every code outside the table decodes to no event.
pub proof fn lemma_mouse_decode_exact()
    ensures
        spec_decode_mouse_event(0x200) == Some(MouseEvent::MouseMove),
        spec_decode_mouse_event(0x201) == Some(MouseEvent::MouseLeftBUttonDown),
        spec_decode_mouse_event(0x202) == Some(MouseEvent::MouseLeftButtonUp),
        spec_decode_mouse_event(0x204) == Some(MouseEvent::MouseRightButtonDown),
        spec_decode_mouse_event(0x205) == Some(MouseEvent::MouseRightButtonUp),
        spec_decode_mouse_event(0x207) == Some(MouseEvent::MouseMiddleButtonDown),
        spec_decode_mouse_event(0x208) == Some(MouseEvent::MouseMiddleButtonUp),
        spec_decode_mouse_event(0x20A) == Some(MouseEvent::MouseWheelRouting),
        forall|code: i32|
            !(code == 0x200 || code == 0x201 || code == 0x202 || code == 0x204
                || code == 0x205 || code == 0x207 || code == 0x208 || code == 0x20A)
                ==> spec_decode_mouse_event(code) is None,
{
}

} // verus!
