use vstd::prelude::*;

use crate::errors::HookError;

verus! {

broadcast use vstd::string::to_string_from_display_ensures_for_str;

/// The number of bytes of a `ShareRecord`: two eight-byte, machine-word-sized
/// handle fields, with no header or version tag.
pub const SHARE_RECORD_SIZE: usize = 16;

/// The fixed well-known name under which the one shared segment is created.
pub open spec fn spec_region_name() -> Seq<char> {
    "XEyesMemoryMapObject"@
}

/// The fixed well-known name, as the executable side uses it.
pub fn region_name() -> (s: String)
    ensures
        s@ == spec_region_name(),
{
    "XEyesMemoryMapObject".to_string()
}

/// The one persistent record held in the shared segment: the handle of the
/// live hook registration and the window that forwarded events target.
/// A zero value stands for a null handle: no hook is registered, or no
/// target window has been stored.
#[derive(Clone, Copy, Debug, PartialEq, Eq, Structural)]
pub struct ShareRecord {
    pub hook_handle: u64,
    pub target_window: u64,
}

impl ShareRecord {
    /// Both fields null, as a freshly created segment starts out.
    pub open spec fn spec_empty() -> ShareRecord {
        ShareRecord { hook_handle: 0, target_window: 0 }
    }

    pub fn empty() -> (r: ShareRecord)
        ensures
            r == ShareRecord::spec_empty(),
    {
        ShareRecord { hook_handle: 0, target_window: 0 }
    }
}

/// A named, fixed-size shared segment holding one `ShareRecord`.
pub struct ShareRegion {
    pub name: String,
    pub size: usize,
    pub record: ShareRecord,
}

/// The answer the platform gives when asked to allocate a named segment.
#[derive(Clone, Copy, Debug, PartialEq, Eq, Structural)]
pub enum CreationOutcome {
    Created,
    CreationFailed,
}

/// The shared segment this module owns, if any. The module allocates exactly
/// one segment, under one well-known name, at load; the store therefore
/// holds at most one region.
pub struct RegionStore {
    pub region: Option<ShareRegion>,
}

impl RegionStore {
    /// No segment exists.
    pub open spec fn spec_empty() -> RegionStore {
        RegionStore { region: None }
    }

    /// A segment of the given name exists.
    pub open spec fn has_region(self, name: Seq<char>) -> bool {
        self.region matches Some(r) && r.name@ == name
    }

    /// The record of the named segment; the empty record when no segment of
    /// that name exists.
    pub open spec fn record_of(self, name: Seq<char>) -> ShareRecord {
        if self.has_region(name) {
            match self.region {
                Some(r) => r.record,
                None => ShareRecord::spec_empty(),
            }
        } else {
            ShareRecord::spec_empty()
        }
    }

    /// The store with its segment's record replaced and everything else kept.
    pub open spec fn spec_with_record(self, rec: ShareRecord) -> RegionStore {
        match self.region {
            Some(r) => RegionStore { region: Some(ShareRegion { record: rec, ..r }) },
            None => self,
        }
    }

    pub fn new() -> (s: RegionStore)
        ensures
            s == RegionStore::spec_empty(),
    {
        RegionStore { region: None }
    }

    /// `ShareRegion.create`: allocate the named segment, called once at
    /// module load. `outcome` is the platform's answer to the allocation
    /// request. Asking again for a name that already exists hands the
    /// existing segment back with its record kept; the store owns a single
    /// segment, so allocating a second one under a different name is
    /// refused.
    pub fn create(
        &mut self,
        name: String,
        size: usize,
        outcome: CreationOutcome,
    ) -> (r: Result<(), HookError>)
        ensures
            outcome == CreationOutcome::CreationFailed ==> (*final(self) == *old(self)
                && r == Err::<(), HookError>(HookError::RegionCreateFailure)),
            (outcome == CreationOutcome::Created && old(self).region is None) ==> (*final(self)
                == (RegionStore {
                    region: Some(
                        ShareRegion { name, size, record: ShareRecord::spec_empty() },
                    ),
                }) && r == Ok::<(), HookError>(())),
            (outcome == CreationOutcome::Created && old(self).has_region(name@)) ==> (*final(self)
                == *old(self) && r == Ok::<(), HookError>(())),
            (outcome == CreationOutcome::Created && old(self).region is Some
                && !old(self).has_region(name@)) ==> (*final(self) == *old(self)
                && r == Err::<(), HookError>(HookError::RegionCreateFailure)),
    {
        match outcome {
            CreationOutcome::CreationFailed => Err(HookError::RegionCreateFailure),
            CreationOutcome::Created => {
                match &self.region {
                    None => {
                        self.region = Some(
                            ShareRegion { name, size, record: ShareRecord::empty() },
                        );
                        Ok(())
                    },
                    Some(existing) => {
                        if existing.name == name {
                            Ok(())
                        } else {
                            Err(HookError::RegionCreateFailure)
                        }
                    },
                }
            },
        }
    }

    /// Release the segment handle at module unload.
    pub fn destroy(&mut self)
        ensures
            final(self).region is None,
    {
        self.region = None;
    }
}

/// A scoped view of a named segment, created fresh for every operation and
/// released when the operation ends. Opening copies the record out of the
/// segment; closing writes it back and releases the view. The platform's
/// view maps the segment directly, so there every write lands at once; with
/// one view per operation and no interleaving inside an operation modeled
/// here, committing the writes on close is observationally the same.
pub struct MapView {
    pub name: String,
    pub record: ShareRecord,
}

impl MapView {
    /// `MapView.open`: map the named segment into the calling context.
    /// Fails with `MappingOpenFailure` exactly when no segment of that name
    /// exists. (`MappingViewFailure`, a mapped address that cannot be
    /// obtained for an existing segment, has no cause left in this model: an
    /// existing segment always yields a view.)
    pub fn open(store: &RegionStore, name: &String) -> (r: Result<MapView, HookError>)
        ensures
            store.has_region(name@) ==> (r matches Ok(v) && v.record == store.record_of(name@)
                && v.name@ == name@),
            !store.has_region(name@) ==> r == Err::<MapView, HookError>(
                HookError::MappingOpenFailure,
            ),
    {
        match &store.region {
            Some(region) => {
                if region.name == *name {
                    Ok(MapView { name: name.clone(), record: region.record })
                } else {
                    Err(HookError::MappingOpenFailure)
                }
            },
            None => Err(HookError::MappingOpenFailure),
        }
    }

    /// Release the view: write the record back to the segment and unmap.
    /// This runs on every exit path of an operation, success or failure, so
    /// no view outlives its operation. When the segment is gone by the time
    /// the view closes, the write lands in memory nothing reads again and
    /// the store is unchanged.
    pub fn close(self, store: &mut RegionStore)
        ensures
            old(store).has_region(self.name@) ==> *final(store) == old(store).spec_with_record(
                self.record,
            ),
            !old(store).has_region(self.name@) ==> *final(store) == *old(store),
    {
        match &mut store.region {
            Some(region) => {
                if region.name == self.name {
                    region.record = self.record;
                }
            },
            None => {},
        }
    }
}

} // verus!
