use xeyes_hook::callback::{
    dispatch_pointer_event, PointerEvent, HC_ACTION, WM_HOOK_MOUSE_POS, WM_MOUSEMOVE,
};
use xeyes_hook::installer::{install, uninstall};
use xeyes_hook::lifecycle::{dll_main, ModuleState, DLL_PROCESS_ATTACH};
use xeyes_hook::registry::HookRegistry;
use xeyes_hook::share::{region_name, CreationOutcome, RegionStore};

fn event_at(x: i32, y: i32) -> PointerEvent {
    PointerEvent { x, y, mouse_data: 0, flags: 0, time: 1, extra_info: 0 }
}

#[test]
fn install_then_move_forwards_position() {
    let mut store = RegionStore::new();
    let mut module = ModuleState::new();
    let mut registry = HookRegistry::new();
    let name = region_name();

    assert!(dll_main(&mut module, &mut store, 5, DLL_PROCESS_ATTACH, CreationOutcome::Created));
    assert!(install(&mut store, &mut registry, &name, 42));

    let messages = dispatch_pointer_event(
        &registry,
        &store,
        &name,
        HC_ACTION,
        WM_MOUSEMOVE,
        event_at(100, 200),
    );
    assert_eq!(messages.len(), 1);
    assert_eq!(messages[0].window, 42);
    assert_eq!(messages[0].message, WM_HOOK_MOUSE_POS);
    assert_eq!(messages[0].event.x, 100);
    assert_eq!(messages[0].event.y, 200);
}

#[test]
fn uninstall_stops_delivery() {
    let mut store = RegionStore::new();
    let mut module = ModuleState::new();
    let mut registry = HookRegistry::new();
    let name = region_name();

    assert!(dll_main(&mut module, &mut store, 5, DLL_PROCESS_ATTACH, CreationOutcome::Created));
    assert!(install(&mut store, &mut registry, &name, 42));
    let messages = dispatch_pointer_event(
        &registry,
        &store,
        &name,
        HC_ACTION,
        WM_MOUSEMOVE,
        event_at(100, 200),
    );
    assert_eq!(messages.len(), 1);

    assert!(uninstall(&store, &mut registry, &name));
    let after = dispatch_pointer_event(
        &registry,
        &store,
        &name,
        HC_ACTION,
        WM_MOUSEMOVE,
        event_at(150, 250),
    );
    assert!(after.is_empty());
}

#[test]
fn failed_creation_blocks_install() {
    let mut store = RegionStore::new();
    let mut module = ModuleState::new();
    let mut registry = HookRegistry::new();
    let name = region_name();

    assert!(!dll_main(
        &mut module,
        &mut store,
        5,
        DLL_PROCESS_ATTACH,
        CreationOutcome::CreationFailed,
    ));
    assert!(!install(&mut store, &mut registry, &name, 7));
    // no hook was registered with the platform
    assert_eq!(registry.hooks.len(), 0);
}

#[test]
fn reinstall_delivers_to_latest_window_only() {
    let mut store = RegionStore::new();
    let mut module = ModuleState::new();
    let mut registry = HookRegistry::new();
    let name = region_name();

    assert!(dll_main(&mut module, &mut store, 5, DLL_PROCESS_ATTACH, CreationOutcome::Created));
    assert!(install(&mut store, &mut registry, &name, 5));
    assert!(install(&mut store, &mut registry, &name, 42));

    // the first registration leaked, so two hooks run, but both read the
    // one shared record: every message goes to the latest window
    let messages = dispatch_pointer_event(
        &registry,
        &store,
        &name,
        HC_ACTION,
        WM_MOUSEMOVE,
        event_at(100, 200),
    );
    assert_eq!(messages.len(), 2);
    for msg in &messages {
        assert_eq!(msg.window, 42);
        assert_ne!(msg.window, 5);
    }
}
