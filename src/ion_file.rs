//! The file object that stands for one ION buffer.

use vstd::prelude::*;

verus! {

/// A physical address range handed to the mapping layer.
#[derive(Debug, Clone, Copy, PartialEq, Eq, Structural)]
pub struct PhysRange {
    pub start: usize,
    pub size: usize,
}

/// What a buffer file knows of its buffer.
#[derive(Debug, Clone, Copy, PartialEq, Eq, Structural)]
pub struct IonBufferInfo {
    /// Bus (physical) address.
    pub phys_addr: usize,
    /// Length in bytes.
    pub size: usize,
    /// Handle of the buffer.
    pub handle: u32,
}

/// Path every buffer file reports.
pub const ION_BUFFER_PATH: &'static str = "/dev/ion_buffer";

/// File object of one buffer; closing it frees the buffer by handle.
pub struct IonBufferFile {
    info: IonBufferInfo,
}

impl IonBufferFile {
    pub closed spec fn spec_info(&self) -> IonBufferInfo {
        self.info
    }

    pub fn new(info: IonBufferInfo) -> (r: IonBufferFile)
        ensures
            r.spec_info() == info,
    {
        IonBufferFile { info }
    }

    /// The physical range the file maps: the whole buffer.
    pub fn phys_range(&self) -> (r: PhysRange)
        ensures
            r == (PhysRange { start: self.spec_info().phys_addr, size: self.spec_info().size }),
    {
        PhysRange { start: self.info.phys_addr, size: self.info.size }
    }

    pub fn info(&self) -> (r: &IonBufferInfo)
        ensures
            *r == self.spec_info(),
    {
        &self.info
    }

    /// Size reported by `stat`.
    pub fn stat_size(&self) -> (r: u64)
        ensures
            r == self.spec_info().size as u64,
    {
        self.info.size as u64
    }
}

} // verus!
