//! The region of a process that shares one linear memory with its host.
//!
//! The region is created once, on the first request, and every later request
//! gets that same region back. A host that attaches before it exists gets a
//! recoverable error and may try again on a later tick.
use vstd::prelude::*;
use crate::layout::SharedMemory;

verus! {

/// Why attaching to the region failed.
#[derive(Clone, Copy, Debug, PartialEq, Eq)]
pub enum AttachError {
    /// The region has not been created yet.
    NotInitialized,
}

/// Storage for the one region of the process.
pub struct RegionCell {
    region: Option<SharedMemory>,
}

impl RegionCell {
    /// The region held, if it was created.
    pub closed spec fn region(&self) -> Option<SharedMemory> {
        self.region
    }

    /// Storage with no region yet.
    pub fn new() -> (r: Self)
        ensures
            r.region() is None,
    {
        RegionCell { region: None }
    }

    /// Creates the region if it does not exist yet, and returns it.
    ///
    /// A region that exists is returned as it is: its contents are not reset.
    pub fn create_shared_memory(&mut self) -> (r: &SharedMemory)
        ensures
            old(self).region() is None ==> r.is_initial(),
            old(self).region() is Some ==> *r == old(self).region()->Some_0,
            final(self).region() == Some(*r),
    {
        if self.region.is_none() {
            self.region = Some(SharedMemory::new());
        }
        match &self.region {
            Some(m) => m,
            None => {
                proof {
                    assert(false);
                }
                unreached()
            },
        }
    }

    /// Attaches to the region: the region if it was created, else
    /// `AttachError::NotInitialized`.
    pub fn open_shared_memory(&self) -> (r: Result<&SharedMemory, AttachError>)
        ensures
            match self.region() {
                Some(m) => r == Ok::<&SharedMemory, AttachError>(&m),
                None => r == Err::<&SharedMemory, AttachError>(AttachError::NotInitialized),
            },
    {
        match &self.region {
            Some(m) => Ok(m),
            None => Err(AttachError::NotInitialized),
        }
    }

    /// The region for writing, if it was created.
    pub fn get_mut(&mut self) -> (r: Option<&mut SharedMemory>)
        ensures
            old(self).region() is None ==> r is None && final(self).region() is None,
            old(self).region() is Some ==> r is Some && *r->Some_0 == old(self).region()->Some_0
                && final(self).region() == Some(*final(r->Some_0)),
    {
        match &mut self.region {
            Some(m) => Some(m),
            None => None,
        }
    }
}

} // verus!
