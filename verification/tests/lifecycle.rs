use std::cell::Cell;

use input_hook::{
    keyboard_hook_event, mouse_hook_event, pump_should_continue, set_hook_callback, stop_hook,
    Event, HookHandle, HookRegistry, KeyEvent, MouseEvent, Point,
};

#[test]
fn key_down_is_delivered_to_registered_callback_exactly_once() {
    let count: Cell<u32> = Cell::new(0);
    let mut registry: HookRegistry<&Cell<u32>> = HookRegistry::new();
    set_hook_callback(&mut registry, &count).unwrap();

    if let Some((callback, event)) = keyboard_hook_event(&registry, 0x100, 65) {
        assert_eq!(event, Event::KeyEvent(KeyEvent::KeyPress(65)));
        callback.set(callback.get() + 1);
    }
    assert_eq!(count.get(), 1);
}

#[test]
fn left_button_down_is_delivered_with_cursor_position_exactly_once() {
    let count: Cell<u32> = Cell::new(0);
    let mut registry: HookRegistry<&Cell<u32>> = HookRegistry::new();
    set_hook_callback(&mut registry, &count).unwrap();

    if let Some((callback, event)) = mouse_hook_event(&registry, 0x201, 120, 340) {
        assert_eq!(
            event,
            Event::MouseEvent((MouseEvent::MouseLeftBUttonDown, Point { x: 120, y: 340 }))
        );
        callback.set(callback.get() + 1);
    }
    assert_eq!(count.get(), 1);
}

#[test]
fn nothing_is_delivered_without_a_callback_or_for_unknown_codes() {
    let registry: HookRegistry<i32> = HookRegistry::new();
    assert_eq!(keyboard_hook_event(&registry, 0x100, 65), None);
    assert_eq!(mouse_hook_event(&registry, 0x201, 1, 2), None);

    let mut registry: HookRegistry<i32> = HookRegistry::new();
    set_hook_callback(&mut registry, 5).unwrap();
    assert_eq!(keyboard_hook_event(&registry, 0x102, 65), None);
    assert_eq!(mouse_hook_event(&registry, 0x203, 1, 2), None);
}

#[test]
fn latest_registered_callback_wins_and_replaced_one_is_never_delivered() {
    let mut registry: HookRegistry<i32> = HookRegistry::new();
    set_hook_callback(&mut registry, 1).unwrap();
    set_hook_callback(&mut registry, 2).unwrap();

    for _ in 0..3 {
        let (callback, _) = keyboard_hook_event(&registry, 0x100, 65).unwrap();
        assert_eq!(callback, 2);
        assert_ne!(callback, 1);
        let (callback, _) = mouse_hook_event(&registry, 0x200, 0, 0).unwrap();
        assert_eq!(callback, 2);
    }
}

#[test]
fn stop_before_any_start_is_a_safe_no_op() {
    let mut registry: HookRegistry<i32> = HookRegistry::new();
    let plan = stop_hook(&mut registry).unwrap();
    assert_eq!(plan.keyboard, None);
    assert_eq!(plan.mouse, None);
    assert!(registry.exit_flag);
}

#[test]
fn stop_is_idempotent() {
    let mut registry: HookRegistry<i32> = HookRegistry::new();
    registry.set_keyboard_hook_handle(HookHandle { raw: 11 });
    let first = stop_hook(&mut registry).unwrap();
    assert_eq!(first.keyboard, Some(HookHandle { raw: 11 }));
    let second = stop_hook(&mut registry).unwrap();
    assert_eq!(second.keyboard, None);
    assert_eq!(second.mouse, None);
}

#[test]
fn stop_clears_handles_so_a_second_start_reinstalls_cleanly() {
    let mut registry: HookRegistry<i32> = HookRegistry::new();

    registry.set_keyboard_hook_handle(HookHandle { raw: 11 });
    registry.set_mouse_hook_handle(HookHandle { raw: 22 });
    registry.clear_exit_flag();

    let plan = stop_hook(&mut registry).unwrap();
    assert_eq!(plan.keyboard, Some(HookHandle { raw: 11 }));
    assert_eq!(plan.mouse, Some(HookHandle { raw: 22 }));
    assert_eq!(registry.keyboard_hook, None);
    assert_eq!(registry.mouse_hook, None);

    registry.set_keyboard_hook_handle(HookHandle { raw: 33 });
    registry.set_mouse_hook_handle(HookHandle { raw: 44 });
    registry.clear_exit_flag();
    assert_eq!(registry.keyboard_hook, Some(HookHandle { raw: 33 }));
    assert_eq!(registry.mouse_hook, Some(HookHandle { raw: 44 }));

    let plan = stop_hook(&mut registry).unwrap();
    assert_eq!(plan.keyboard, Some(HookHandle { raw: 33 }));
    assert_eq!(plan.mouse, Some(HookHandle { raw: 44 }));
}

#[test]
fn a_running_session_observes_a_stop_request_within_one_pump_cycle() {
    let mut registry: HookRegistry<i32> = HookRegistry::new();

    registry.set_keyboard_hook_handle(HookHandle { raw: 11 });
    registry.set_mouse_hook_handle(HookHandle { raw: 22 });
    registry.clear_exit_flag();
    assert!(pump_should_continue(&registry, true));
    assert!(!pump_should_continue(&registry, false));

    let plan = stop_hook(&mut registry).unwrap();
    assert!(!pump_should_continue(&registry, true));
    assert_eq!(plan.keyboard, Some(HookHandle { raw: 11 }));
    assert_eq!(plan.mouse, Some(HookHandle { raw: 22 }));
    assert_eq!(registry.keyboard_hook, None);
    assert_eq!(registry.mouse_hook, None);
}

#[test]
fn recording_an_install_hands_back_the_displaced_handle() {
    let mut registry: HookRegistry<i32> = HookRegistry::new();
    assert_eq!(registry.set_keyboard_hook_handle(HookHandle { raw: 11 }), None);
    assert_eq!(
        registry.set_keyboard_hook_handle(HookHandle { raw: 33 }),
        Some(HookHandle { raw: 11 })
    );
    assert_eq!(registry.keyboard_hook, Some(HookHandle { raw: 33 }));

    assert_eq!(registry.set_mouse_hook_handle(HookHandle { raw: 22 }), None);
    assert_eq!(
        registry.set_mouse_hook_handle(HookHandle { raw: 44 }),
        Some(HookHandle { raw: 22 })
    );
    assert_eq!(registry.mouse_hook, Some(HookHandle { raw: 44 }));
}

#[test]
fn callback_registration_leaves_handles_and_exit_flag_untouched() {
    let mut registry: HookRegistry<i32> = HookRegistry::new();
    registry.set_keyboard_hook_handle(HookHandle { raw: 7 });
    set_hook_callback(&mut registry, 9).unwrap();
    assert_eq!(registry.keyboard_hook, Some(HookHandle { raw: 7 }));
    assert_eq!(registry.mouse_hook, None);
    assert!(!registry.exit_flag);
    assert_eq!(*registry.get_callback(), Some(9));
}
