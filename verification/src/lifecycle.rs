use vstd::prelude::*;

use crate::share::{
    region_name, spec_region_name, CreationOutcome, RegionStore, ShareRecord, SHARE_RECORD_SIZE,
};

verus! {

/// The loader's reason code for a module being attached to a process.
pub const DLL_PROCESS_ATTACH: u32 = 1;

/// The loader's reason code for a module being detached from a process.
pub const DLL_PROCESS_DETACH: u32 = 0;

/// What the module keeps for itself across entry points: its own instance
/// handle, recorded at attach for the later hook registration call. Zero
/// means none has been recorded yet.
pub struct ModuleState {
    pub instance: u64,
}

impl ModuleState {
    pub fn new() -> (m: ModuleState)
        ensures
            m.instance == 0,
    {
        ModuleState { instance: 0 }
    }
}

/// The module's loader entry point. On attach it records the module's
/// instance handle and creates the shared segment under the well-known
/// name, `creation` being the platform's answer to that allocation; a
/// failed creation reports false and leaves no segment behind, so no later
/// install can succeed. On detach it releases the segment. Any other
/// reason does nothing and succeeds.
pub fn dll_main(
    module: &mut ModuleState,
    store: &mut RegionStore,
    instance: u64,
    reason: u32,
    creation: CreationOutcome,
) -> (ok: bool)
    ensures
        reason == DLL_PROCESS_ATTACH ==> final(module).instance == instance,
        reason != DLL_PROCESS_ATTACH ==> *final(module) == *old(module),
        reason == DLL_PROCESS_ATTACH && creation == CreationOutcome::CreationFailed ==> (!ok
            && *final(store) == *old(store)),
        reason == DLL_PROCESS_ATTACH && creation == CreationOutcome::Created
            && old(store).region is None ==> (ok && final(store).has_region(spec_region_name())
            && final(store).record_of(spec_region_name()) == ShareRecord::spec_empty()),
        reason == DLL_PROCESS_ATTACH && creation == CreationOutcome::Created
            && old(store).has_region(spec_region_name()) ==> (ok && *final(store) == *old(store)),
        reason == DLL_PROCESS_ATTACH && creation == CreationOutcome::Created
            && old(store).region is Some && !old(store).has_region(spec_region_name()) ==> (!ok
            && *final(store) == *old(store)),
        reason == DLL_PROCESS_DETACH ==> (ok && final(store).region is None),
        reason != DLL_PROCESS_ATTACH && reason != DLL_PROCESS_DETACH ==> (ok && *final(store)
            == *old(store)),
{
    if reason == DLL_PROCESS_ATTACH {
        module.instance = instance;
        let name = region_name();
        match store.create(name, SHARE_RECORD_SIZE, creation) {
            Ok(_) => true,
            Err(_) => false,
        }
    } else if reason == DLL_PROCESS_DETACH {
        store.destroy();
        true
    } else {
        true
    }
}

} // verus!
