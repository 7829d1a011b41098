//! A small, verified core for a process-wide input-hook adapter.
//!
//! The library models the typed keyboard and mouse events, the decoding of
//! raw platform message codes into those events, the process-wide registry
//! that holds the hook handles, the registered callback and the termination
//! flag, and the decisions of the hook lifecycle (install bookkeeping, the
//! message-pump continue test, and shutdown). The platform layer that owns
//! the actual operating-system hook subscription, the blocking message pump
//! and the global registry instance drives these functions and performs the
//! calls they decide on.

pub mod events;
pub mod hook_proc;
pub mod lifecycle;
pub mod registry;

pub use events::{decode_key_event, decode_mouse_event, Event, KeyEvent, MouseEvent, Point};
pub use hook_proc::{keyboard_hook_event, mouse_hook_event};
pub use lifecycle::{pump_should_continue, set_hook_callback, stop_hook, HookError, StopPlan};
pub use registry::{HookHandle, HookRegistry};
