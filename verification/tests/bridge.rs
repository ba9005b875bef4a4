use xeyes_hook::callback::{
    hook_callback, should_forward, PointerEvent, HC_ACTION, WM_HOOK_MOUSE_POS, WM_MOUSEMOVE,
};
use xeyes_hook::errors::HookError;
use xeyes_hook::installer::{
    end_hook, end_hook_impl, install_hook, install_hook_impl, DeregistrationOutcome,
    RegistrationOutcome,
};
use xeyes_hook::lifecycle::{
    dll_main, ModuleState, DLL_PROCESS_ATTACH, DLL_PROCESS_DETACH,
};
use xeyes_hook::registry::HookRegistry;
use xeyes_hook::share::{region_name, CreationOutcome, MapView, RegionStore, SHARE_RECORD_SIZE};

fn event_at(x: i32, y: i32) -> PointerEvent {
    PointerEvent { x, y, mouse_data: 0, flags: 0, time: 1, extra_info: 0 }
}

fn attached_store() -> RegionStore {
    let mut store = RegionStore::new();
    let mut module = ModuleState::new();
    let ok = dll_main(
        &mut module,
        &mut store,
        5,
        DLL_PROCESS_ATTACH,
        CreationOutcome::Created,
    );
    assert!(ok);
    store
}

#[test]
fn region_name_is_well_known() {
    assert_eq!(region_name(), "XEyesMemoryMapObject".to_string());
}

#[test]
fn map_view_open_without_region_fails() {
    let store = RegionStore::new();
    let r = MapView::open(&store, &region_name());
    assert_eq!(r.err(), Some(HookError::MappingOpenFailure));
}

#[test]
fn map_view_open_other_name_fails() {
    let store = attached_store();
    let other = String::from("SomeOtherMapObject");
    let r = MapView::open(&store, &other);
    assert_eq!(r.err(), Some(HookError::MappingOpenFailure));
}

#[test]
fn map_view_open_reads_fresh_record() {
    let store = attached_store();
    let view = MapView::open(&store, &region_name()).unwrap();
    assert_eq!(view.record.hook_handle, 0);
    assert_eq!(view.record.target_window, 0);
}

#[test]
fn create_failure_reports_region_create_failure() {
    let mut store = RegionStore::new();
    let r = store.create(region_name(), SHARE_RECORD_SIZE, CreationOutcome::CreationFailed);
    assert_eq!(r.err(), Some(HookError::RegionCreateFailure));
    assert!(MapView::open(&store, &region_name()).is_err());
}

#[test]
fn install_without_region_fails_with_open_failure() {
    let mut store = RegionStore::new();
    let name = region_name();
    let r = install_hook_impl(&mut store, &name, 42, RegistrationOutcome::Registered(7));
    assert_eq!(r.err(), Some(HookError::MappingOpenFailure));
    assert!(!install_hook(&mut store, &name, 42, RegistrationOutcome::Registered(7)));
}

#[test]
fn install_grant_stores_handle_and_window() {
    let mut store = attached_store();
    let name = region_name();
    assert!(install_hook(&mut store, &name, 42, RegistrationOutcome::Registered(7)));
    let view = MapView::open(&store, &name).unwrap();
    assert_eq!(view.record.hook_handle, 7);
    assert_eq!(view.record.target_window, 42);
}

#[test]
fn install_refusal_fails_but_leaves_target_behind() {
    let mut store = attached_store();
    let name = region_name();
    let r = install_hook_impl(&mut store, &name, 42, RegistrationOutcome::RegistrationFailed);
    assert_eq!(r.err(), Some(HookError::HookRegistrationFailure));
    let view = MapView::open(&store, &name).unwrap();
    // the documented gap: the staged window is not rolled back
    assert_eq!(view.record.target_window, 42);
    assert_eq!(view.record.hook_handle, 0);
}

#[test]
fn uninstall_without_prior_install_succeeds() {
    let store = attached_store();
    let name = region_name();
    assert!(end_hook(&store, &name, DeregistrationOutcome::Deregistered));
    // with no handle stored the platform is never asked, so even a platform
    // that would refuse leaves the result true
    assert!(end_hook(&store, &name, DeregistrationOutcome::DeregistrationFailed));
}

#[test]
fn uninstall_without_region_fails() {
    let store = RegionStore::new();
    let name = region_name();
    assert!(!end_hook(&store, &name, DeregistrationOutcome::Deregistered));
    let r = end_hook_impl(&store, &name, DeregistrationOutcome::Deregistered);
    assert_eq!(r.err(), Some(HookError::MappingOpenFailure));
}

#[test]
fn uninstall_refusal_reports_deregistration_failure() {
    let mut store = attached_store();
    let name = region_name();
    assert!(install_hook(&mut store, &name, 42, RegistrationOutcome::Registered(7)));
    let r = end_hook_impl(&store, &name, DeregistrationOutcome::DeregistrationFailed);
    assert_eq!(r.err(), Some(HookError::HookDeregistrationFailure));
    assert!(end_hook(&store, &name, DeregistrationOutcome::Deregistered));
    // nothing is cleared by an uninstall
    let view = MapView::open(&store, &name).unwrap();
    assert_eq!(view.record.hook_handle, 7);
    assert_eq!(view.record.target_window, 42);
}

#[test]
fn forwarding_rule_checks_code_and_kind() {
    assert!(should_forward(HC_ACTION, WM_MOUSEMOVE));
    assert!(!should_forward(1, WM_MOUSEMOVE));
    assert!(!should_forward(-1, WM_MOUSEMOVE));
    assert!(!should_forward(HC_ACTION, 0x0201));
    assert!(!should_forward(3, 0x0201));
}

#[test]
fn non_actionable_code_never_forwards() {
    let mut store = attached_store();
    let name = region_name();
    assert!(install_hook(&mut store, &name, 42, RegistrationOutcome::Registered(7)));
    for kind in [WM_MOUSEMOVE, 0x0200, 0x0201, 0, u32::MAX] {
        let out = hook_callback(&store, &name, 1, kind, event_at(10, 20));
        assert!(out.forwarded.is_none());
        assert!(out.pass_to_next_hook);
    }
}

#[test]
fn wrong_kind_never_forwards() {
    let mut store = attached_store();
    let name = region_name();
    assert!(install_hook(&mut store, &name, 42, RegistrationOutcome::Registered(7)));
    let out = hook_callback(&store, &name, HC_ACTION, 0x0201, event_at(10, 20));
    assert!(out.forwarded.is_none());
    assert!(out.pass_to_next_hook);
}

#[test]
fn null_target_window_skips_forwarding() {
    let store = attached_store();
    let name = region_name();
    let out = hook_callback(&store, &name, HC_ACTION, WM_MOUSEMOVE, event_at(10, 20));
    assert!(out.forwarded.is_none());
    assert!(out.pass_to_next_hook);
}

#[test]
fn missing_region_skips_forwarding_but_continues_chain() {
    let store = RegionStore::new();
    let name = region_name();
    let out = hook_callback(&store, &name, HC_ACTION, WM_MOUSEMOVE, event_at(10, 20));
    assert!(out.forwarded.is_none());
    assert!(out.pass_to_next_hook);
}

#[test]
fn qualifying_event_forwards_payload() {
    let mut store = attached_store();
    let name = region_name();
    assert!(install_hook(&mut store, &name, 42, RegistrationOutcome::Registered(7)));
    let out = hook_callback(&store, &name, HC_ACTION, WM_MOUSEMOVE, event_at(-3, 9));
    let msg = out.forwarded.unwrap();
    assert_eq!(msg.window, 42);
    assert_eq!(msg.message, WM_HOOK_MOUSE_POS);
    assert_eq!(msg.event.x, -3);
    assert_eq!(msg.event.y, 9);
    assert!(out.pass_to_next_hook);
}

#[test]
fn detach_releases_the_region() {
    let mut store = attached_store();
    let mut module = ModuleState::new();
    assert!(dll_main(&mut module, &mut store, 5, DLL_PROCESS_DETACH, CreationOutcome::Created));
    assert!(MapView::open(&store, &region_name()).is_err());
}

#[test]
fn other_loader_reason_changes_nothing() {
    let mut store = attached_store();
    let mut module = ModuleState::new();
    assert!(dll_main(&mut module, &mut store, 5, 3, CreationOutcome::Created));
    assert!(MapView::open(&store, &region_name()).is_ok());
}

#[test]
fn extreme_handle_values_are_kept() {
    let mut store = attached_store();
    let name = region_name();
    assert!(install_hook(
        &mut store,
        &name,
        u64::MAX,
        RegistrationOutcome::Registered(u64::MAX),
    ));
    let view = MapView::open(&store, &name).unwrap();
    assert_eq!(view.record.hook_handle, u64::MAX);
    assert_eq!(view.record.target_window, u64::MAX);
}

#[test]
fn registry_issues_and_removes_handles() {
    let mut registry = HookRegistry::new();
    let h1 = registry.register();
    let h2 = registry.register();
    assert_ne!(h1, 0);
    assert_ne!(h2, 0);
    assert_ne!(h1, h2);
    assert!(registry.deregister(h1));
    assert!(!registry.deregister(h1));
    assert!(registry.deregister(h2));
    assert!(!registry.deregister(h2));
}
