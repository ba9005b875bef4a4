use vstd::prelude::*;

use crate::callback::{
    spec_callback_forward, spec_should_forward, ForwardedMessage, PointerEvent, HC_ACTION,
    WM_HOOK_MOUSE_POS,
};
use crate::installer::{
    spec_end_hook_ok, spec_install_ok, spec_install_state, DeregistrationOutcome,
    RegistrationOutcome,
};
use crate::share::RegionStore;

verus! {

/// Installing twice without an intervening uninstall retargets delivery:
/// after `install(w1)` and then `install(w2)`, a qualifying pointer event
/// is forwarded to `w2` — and, where the two windows differ, not to `w1` —
/// because every callback reads the target out of the one shared record,
/// which the second install overwrote.
pub proof fn reinstall_targets_latest(
    store: RegionStore,
    name: Seq<char>,
    w1: u64,
    h1: u64,
    w2: u64,
    h2: u64,
    code: i32,
    message_kind: u32,
    event: PointerEvent,
)
    requires
        store.has_region(name),
        w2 != 0,
        spec_should_forward(code, message_kind),
    ensures
        ({
            let s1 = spec_install_state(store, name, w1, RegistrationOutcome::Registered(h1));
            let s2 = spec_install_state(s1, name, w2, RegistrationOutcome::Registered(h2));
            &&& spec_callback_forward(s2, name, code, message_kind, event) matches Some(m)
            &&& m.window == w2
            &&& w1 != w2 ==> m.window != w1
        }),
{
}

/// An uninstall with no prior install has a defined result: with no hook
/// handle stored in the record, the platform is never asked and the
/// uninstall succeeds, whatever answer the platform would have given.
pub proof fn uninstall_without_install_succeeds(
    store: RegionStore,
    name: Seq<char>,
    dereg: DeregistrationOutcome,
)
    requires
        store.has_region(name),
        store.record_of(name).hook_handle == 0,
    ensures
        spec_end_hook_ok(store, name, dereg),
{
}

/// An event whose code does not mark an actionable notification is never
/// forwarded, whatever its message kind and whatever the shared state.
pub proof fn non_actionable_never_forwards(
    store: RegionStore,
    name: Seq<char>,
    code: i32,
    message_kind: u32,
    event: PointerEvent,
)
    requires
        code != HC_ACTION,
    ensures
        spec_callback_forward(store, name, code, message_kind, event) is None,
{
}

/// After a granted install of a non-null window, every qualifying pointer
/// event is forwarded to exactly that window, under the private position
/// message, with the event payload carried unchanged.
pub proof fn installed_window_receives_events(
    store: RegionStore,
    name: Seq<char>,
    window: u64,
    h: u64,
    code: i32,
    message_kind: u32,
    event: PointerEvent,
)
    requires
        store.has_region(name),
        window != 0,
        spec_should_forward(code, message_kind),
    ensures
        ({
            let s = spec_install_state(store, name, window, RegistrationOutcome::Registered(h));
            spec_callback_forward(s, name, code, message_kind, event) == Some(
                ForwardedMessage { window, message: WM_HOOK_MOUSE_POS, event },
            )
        }),
{
}

/// The documented install gap: when the platform refuses the registration,
/// the install reports failure, yet the staged target window stays in the
/// record while the hook handle keeps its old value — the record is left
/// neither cleanly uninstalled nor fully installed.
pub proof fn failed_install_leaves_target(store: RegionStore, name: Seq<char>, window: u64)
    requires
        store.has_region(name),
    ensures
        !spec_install_ok(store, name, RegistrationOutcome::RegistrationFailed),
        ({
            let s = spec_install_state(
                store,
                name,
                window,
                RegistrationOutcome::RegistrationFailed,
            );
            &&& s.record_of(name).target_window == window
            &&& s.record_of(name).hook_handle == store.record_of(name).hook_handle
        }),
{
}

} // verus!
