use vstd::prelude::*;

verus! {

/// The failure kinds the bridge distinguishes internally.
///
/// Every public entry point collapses its result to a boolean, but the
/// internal operations keep the richer kind so each failure stays testable:
/// `RegionCreateFailure` when the named segment cannot be allocated at load,
/// `MappingOpenFailure` when no segment of the requested name exists,
/// `MappingViewFailure` when a mapped address cannot be obtained,
/// `HookRegistrationFailure` and `HookDeregistrationFailure` when the
/// platform refuses to register or deregister the pointer hook.
#[derive(Clone, Copy, Debug, PartialEq, Eq, Structural)]
pub enum HookError {
    RegionCreateFailure,
    MappingOpenFailure,
    MappingViewFailure,
    HookRegistrationFailure,
    HookDeregistrationFailure,
}

} // verus!
