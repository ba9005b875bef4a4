use vstd::prelude::*;

use crate::errors::HookError;
use crate::registry::HookRegistry;
use crate::share::{MapView, RegionStore, ShareRecord};

verus! {

/// The platform's answer when asked to register the low-level pointer hook.
/// A granted registration carries the hook handle the platform issued; the
/// platform never issues a null handle.
#[derive(Clone, Copy, Debug, PartialEq, Eq, Structural)]
pub enum RegistrationOutcome {
    Registered(u64),
    RegistrationFailed,
}

/// The platform's answer when asked to deregister a hook.
#[derive(Clone, Copy, Debug, PartialEq, Eq, Structural)]
pub enum DeregistrationOutcome {
    Deregistered,
    DeregistrationFailed,
}

/// What `uninstall_begin` found in the record.
#[derive(Clone, Copy, Debug, PartialEq, Eq, Structural)]
pub enum UninstallAction {
    /// The record holds no hook handle: there is nothing to deregister and
    /// the uninstall already counts as done.
    NothingRegistered,
    /// Ask the platform to deregister this handle, then hand its answer to
    /// `uninstall_finish`.
    Deregister(u64),
}

/// The store after an install staged the target window: the window is
/// written into the record, the hook handle still untouched.
pub open spec fn spec_install_staged(store: RegionStore, name: Seq<char>, window: u64) -> RegionStore {
    if store.has_region(name) {
        store.spec_with_record(
            ShareRecord { hook_handle: store.record_of(name).hook_handle, target_window: window },
        )
    } else {
        store
    }
}

/// The store after the whole install, given the platform's answer: a
/// granted registration stores handle and window; a refusal leaves the
/// staged window behind; a view that cannot be opened changes nothing.
pub open spec fn spec_install_state(
    store: RegionStore,
    name: Seq<char>,
    window: u64,
    reg: RegistrationOutcome,
) -> RegionStore {
    if store.has_region(name) {
        match reg {
            RegistrationOutcome::Registered(h) => store.spec_with_record(
                ShareRecord { hook_handle: h, target_window: window },
            ),
            RegistrationOutcome::RegistrationFailed => spec_install_staged(store, name, window),
        }
    } else {
        store
    }
}

/// Whether the whole install succeeds: the view must open and the platform
/// must grant the registration.
pub open spec fn spec_install_ok(
    store: RegionStore,
    name: Seq<char>,
    reg: RegistrationOutcome,
) -> bool {
    store.has_region(name) && reg is Registered
}

/// Whether the whole uninstall succeeds: the view must open, and then
/// either no hook handle is stored — the platform is never asked — or the
/// platform grants the deregistration.
pub open spec fn spec_end_hook_ok(
    store: RegionStore,
    name: Seq<char>,
    dereg: DeregistrationOutcome,
) -> bool {
    store.has_region(name) && (store.record_of(name).hook_handle == 0
        || dereg == DeregistrationOutcome::Deregistered)
}

/// Step one of `install`: open a view of the segment and write the target
/// window into the record. On success the host must ask the platform to
/// register the hook and hand the answer to `install_finish`. The window is
/// written before the registration is attempted, so a later refusal leaves
/// it behind.
pub fn install_begin(store: &mut RegionStore, name: &String, window: u64) -> (r: Result<
    (),
    HookError,
>)
    ensures
        *final(store) == spec_install_staged(*old(store), name@, window),
        old(store).has_region(name@) ==> r is Ok,
        !old(store).has_region(name@) ==> r == Err::<(), HookError>(HookError::MappingOpenFailure),
{
    match MapView::open(store, name) {
        Ok(mut view) => {
            view.record.target_window = window;
            view.close(store);
            Ok(())
        },
        Err(e) => Err(e),
    }
}

/// Step two of `install`: record the platform's answer. A granted
/// registration stores the issued handle next to the staged window; a
/// refusal fails with `HookRegistrationFailure` and leaves the record as
/// `install_begin` staged it — the target window is not rolled back.
pub fn install_finish(store: &mut RegionStore, name: &String, reg: RegistrationOutcome) -> (r:
    Result<(), HookError>)
    ensures
        reg == RegistrationOutcome::RegistrationFailed ==> (*final(store) == *old(store) && r
            == Err::<(), HookError>(HookError::HookRegistrationFailure)),
        reg matches RegistrationOutcome::Registered(h) ==> old(store).has_region(name@)
            ==> *final(store) == old(store).spec_with_record(
            ShareRecord { hook_handle: h, target_window: old(store).record_of(name@).target_window },
        ) && r is Ok,
        (reg is Registered && !old(store).has_region(name@)) ==> (*final(store) == *old(store) && r
            == Err::<(), HookError>(HookError::MappingOpenFailure)),
{
    match reg {
        RegistrationOutcome::RegistrationFailed => Err(HookError::HookRegistrationFailure),
        RegistrationOutcome::Registered(h) => {
            match MapView::open(store, name) {
                Ok(mut view) => {
                    view.record.hook_handle = h;
                    view.close(store);
                    Ok(())
                },
                Err(e) => Err(e),
            }
        },
    }
}

/// The whole install with its internal error kept: open a view, stage the
/// target window, record the platform's answer `reg` to the registration
/// request that a successfully opened view leads to. When the view cannot
/// be opened, no request is made and the answer goes unused.
pub fn install_hook_impl(
    store: &mut RegionStore,
    name: &String,
    window: u64,
    reg: RegistrationOutcome,
) -> (r: Result<(), HookError>)
    ensures
        *final(store) == spec_install_state(*old(store), name@, window, reg),
        r is Ok <==> spec_install_ok(*old(store), name@, reg),
        !old(store).has_region(name@) ==> r == Err::<(), HookError>(HookError::MappingOpenFailure),
        (old(store).has_region(name@) && reg == RegistrationOutcome::RegistrationFailed) ==> r
            == Err::<(), HookError>(HookError::HookRegistrationFailure),
{
    match install_begin(store, name, window) {
        Err(e) => Err(e),
        Ok(()) => install_finish(store, name, reg),
    }
}

/// `install_hook`: the whole install, collapsed to the boolean the host sees.
pub fn install_hook(
    store: &mut RegionStore,
    name: &String,
    window: u64,
    reg: RegistrationOutcome,
) -> (ok: bool)
    ensures
        *final(store) == spec_install_state(*old(store), name@, window, reg),
        ok == spec_install_ok(*old(store), name@, reg),
{
    install_hook_impl(store, name, window, reg).is_ok()
}

/// Step one of `uninstall`: open a view and read the stored hook handle.
/// Nothing is written: neither the handle nor the target window is cleared.
pub fn uninstall_begin(store: &RegionStore, name: &String) -> (r: Result<
    UninstallAction,
    HookError,
>)
    ensures
        !store.has_region(name@) ==> r == Err::<UninstallAction, HookError>(
            HookError::MappingOpenFailure,
        ),
        (store.has_region(name@) && store.record_of(name@).hook_handle == 0) ==> r == Ok::<
            UninstallAction,
            HookError,
        >(UninstallAction::NothingRegistered),
        (store.has_region(name@) && store.record_of(name@).hook_handle != 0) ==> r == Ok::<
            UninstallAction,
            HookError,
        >(UninstallAction::Deregister(store.record_of(name@).hook_handle)),
{
    match MapView::open(store, name) {
        Err(e) => Err(e),
        Ok(view) => {
            if view.record.hook_handle == 0 {
                Ok(UninstallAction::NothingRegistered)
            } else {
                Ok(UninstallAction::Deregister(view.record.hook_handle))
            }
        },
    }
}

/// Step two of `uninstall`: the uninstall's result is the platform's
/// answer to the deregistration request.
pub fn uninstall_finish(dereg: DeregistrationOutcome) -> (r: Result<(), HookError>)
    ensures
        dereg == DeregistrationOutcome::Deregistered ==> r is Ok,
        dereg == DeregistrationOutcome::DeregistrationFailed ==> r == Err::<(), HookError>(
            HookError::HookDeregistrationFailure,
        ),
{
    match dereg {
        DeregistrationOutcome::Deregistered => Ok(()),
        DeregistrationOutcome::DeregistrationFailed => Err(HookError::HookDeregistrationFailure),
    }
}

/// The whole uninstall with its internal error kept. `dereg` is the answer
/// the platform gives when a stored hook handle leads to a deregistration
/// request; with no handle stored, no request is made, the answer goes
/// unused and the uninstall counts as done.
pub fn end_hook_impl(store: &RegionStore, name: &String, dereg: DeregistrationOutcome) -> (r:
    Result<(), HookError>)
    ensures
        r is Ok <==> spec_end_hook_ok(*store, name@, dereg),
        !store.has_region(name@) ==> r == Err::<(), HookError>(HookError::MappingOpenFailure),
        (store.has_region(name@) && store.record_of(name@).hook_handle != 0 && dereg
            == DeregistrationOutcome::DeregistrationFailed) ==> r == Err::<(), HookError>(
            HookError::HookDeregistrationFailure,
        ),
{
    match uninstall_begin(store, name) {
        Err(e) => Err(e),
        Ok(UninstallAction::NothingRegistered) => Ok(()),
        Ok(UninstallAction::Deregister(_)) => uninstall_finish(dereg),
    }
}

/// `end_hook`: the whole uninstall, collapsed to the boolean the host
/// sees. The record is left as it was: handle and target window stay.
pub fn end_hook(store: &RegionStore, name: &String, dereg: DeregistrationOutcome) -> (ok: bool)
    ensures
        ok == spec_end_hook_ok(*store, name@, dereg),
{
    end_hook_impl(store, name, dereg).is_ok()
}

/// `install(window_handle)` against the model platform, which always
/// grants a registration and issues the next handle: the sequence the host
/// performs — stage the window, register the hook, store the handle.
pub fn install(
    store: &mut RegionStore,
    registry: &mut HookRegistry,
    name: &String,
    window: u64,
) -> (ok: bool)
    requires
        old(registry).wf(),
        old(registry).next_handle < u64::MAX,
    ensures
        final(registry).wf(),
        ok == old(store).has_region(name@),
        *final(store) == spec_install_state(
            *old(store),
            name@,
            window,
            RegistrationOutcome::Registered(old(registry).next_handle),
        ),
        ok ==> (final(registry).hooks@ == old(registry).hooks@.push(old(registry).next_handle)
            && final(registry).next_handle == old(registry).next_handle + 1),
        !ok ==> *final(registry) == *old(registry),
        ok ==> final(store).record_of(name@) == (ShareRecord {
            hook_handle: old(registry).next_handle,
            target_window: window,
        }),
{
    match install_begin(store, name, window) {
        Err(_) => false,
        Ok(()) => {
            let h = registry.register();
            install_finish(store, name, RegistrationOutcome::Registered(h)).is_ok()
        },
    }
}

/// `uninstall()` against the model platform: read the stored handle and,
/// when one is there, have the platform deregister it. The record is not
/// written.
pub fn uninstall(store: &RegionStore, registry: &mut HookRegistry, name: &String) -> (ok: bool)
    requires
        old(registry).wf(),
    ensures
        final(registry).wf(),
        !store.has_region(name@) ==> (!ok && *final(registry) == *old(registry)),
        (store.has_region(name@) && store.record_of(name@).hook_handle == 0) ==> (ok
            && *final(registry) == *old(registry)),
        (store.has_region(name@) && store.record_of(name@).hook_handle != 0) ==> (ok
            == old(registry).hooks@.contains(store.record_of(name@).hook_handle)
            && (!ok ==> *final(registry) == *old(registry))
            && (ok ==> !final(registry).hooks@.contains(store.record_of(name@).hook_handle)
                && final(registry).hooks@.len() == old(registry).hooks@.len() - 1)),
{
    match uninstall_begin(store, name) {
        Err(_) => false,
        Ok(UninstallAction::NothingRegistered) => true,
        Ok(UninstallAction::Deregister(h)) => {
            let granted = registry.deregister(h);
            let dereg = if granted {
                DeregistrationOutcome::Deregistered
            } else {
                DeregistrationOutcome::DeregistrationFailed
            };
            uninstall_finish(dereg).is_ok()
        },
    }
}

} // verus!
