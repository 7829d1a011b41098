//! The decision core of the two hook procedures.
//!
//! The platform invokes a raw hook procedure on every system-wide keyboard
//! or mouse event. That procedure must never panic and must always pass
//! the event on to the next hook in the chain, so it stays minimal: it
//! reads the raw payload, asks these functions what to deliver, invokes
//! the returned callback with the returned event if there is one, and then
//! unconditionally calls the next hook. A delivered callback runs inline
//! on the installing thread: if it blocks, it stalls input delivery
//! system-wide until it returns.

use vstd::prelude::*;

use crate::events::{
    spec_decode_key_event, spec_decode_mouse_event, decode_key_event, decode_mouse_event, Event,
    Point,
};
use crate::registry::{spec_register_callback, HookRegistry};

verus! {

/// What a keyboard hook procedure delivers: the registered callback paired
/// with the decoded event, or nothing when no callback is registered or
/// the raw identifier is not recognized.
pub open spec fn spec_keyboard_hook_event<C>(
    r: HookRegistry<C>,
    wparam: usize,
    vk_code: u32,
) -> Option<(C, Event)> {
    match (r.callback, spec_decode_key_event(wparam, vk_code)) {
        (Some(callback), Some(key)) => Some((callback, Event::KeyEvent(key))),
        _ => None,
    }
}

/// What a mouse hook procedure delivers: the registered callback paired
/// with the decoded action and the cursor position, or nothing when no
/// callback is registered or the raw code is outside the fixed table.
pub open spec fn spec_mouse_hook_event<C>(
    r: HookRegistry<C>,
    code: i32,
    x: i32,
    y: i32,
) -> Option<(C, Event)> {
    match (r.callback, spec_decode_mouse_event(code)) {
        (Some(callback), Some(action)) => Some(
            (callback, Event::MouseEvent((action, Point { x, y }))),
        ),
        _ => None,
    }
}

/// The keyboard hook procedure's decision: which callback to invoke with
/// which event for a raw keyboard payload, or `None` to deliver nothing.
/// The caller still passes the raw event to the next hook in the chain
/// either way.
pub fn keyboard_hook_event<C: Copy>(
    registry: &HookRegistry<C>,
    wparam: usize,
    vk_code: u32,
) -> (r: Option<(C, Event)>)
    ensures
        r == spec_keyboard_hook_event(*registry, wparam, vk_code),
{
    match registry.get_callback() {
        Some(callback) => match decode_key_event(wparam, vk_code) {
            Some(key) => Some((*callback, Event::KeyEvent(key))),
            None => None,
        },
        None => None,
    }
}

/// The mouse hook procedure's decision: which callback to invoke with
/// which action and cursor position for a raw mouse payload, or `None` to
/// deliver nothing. The caller still passes the raw event to the next
/// hook in the chain either way.
pub fn mouse_hook_event<C: Copy>(registry: &HookRegistry<C>, code: i32, x: i32, y: i32) -> (r:
    Option<(C, Event)>)
    ensures
        r == spec_mouse_hook_event(*registry, code, x, y),
{
    match registry.get_callback() {
        Some(callback) => match decode_mouse_event(code) {
            Some(action) => Some((*callback, Event::MouseEvent((action, Point { x, y })))),
            None => None,
        },
        None => None,
    }
}

/// The most recently registered callback is the one delivered with every
/// subsequently decoded event, and a replaced callback is never delivered
/// again: after registering `first` and then `second`, every delivery
/// carries `second`.
pub proof fn lemma_latest_callback_wins<C>(
    r: HookRegistry<C>,
    first: C,
    second: C,
    wparam: usize,
    vk_code: u32,
    code: i32,
    x: i32,
    y: i32,
)
    ensures
        ({
            let after = spec_register_callback(spec_register_callback(r, first), second);
            &&& (spec_keyboard_hook_event(after, wparam, vk_code) matches Some(p) ==> p.0
                == second)
            &&& (spec_mouse_hook_event(after, code, x, y) matches Some(p) ==> p.0 == second)
        }),
{
}

} // verus!
