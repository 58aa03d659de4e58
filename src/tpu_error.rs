//! Errors of the TPU driver.

use vstd::prelude::*;

verus! {

#[derive(Debug, Clone, Copy, PartialEq, Eq, Structural)]
pub enum TpuError {
    /// The engine did not finish in time.
    Timeout,
    /// The command buffer is not a valid DMA buffer.
    InvalidDmabuf,
    /// The TDMA engine reported an error.
    TdmaError(u32),
    /// The TIU engine reported an error.
    TiuError(u32),
    /// The device is not initialized or not in the required state.
    NotInitialized,
    /// The device is busy.
    Busy,
    /// The operation was interrupted.
    Interrupted,
    /// The PMU buffer is not aligned.
    PmuBufferNotAligned,
    /// The command buffer's physical address is not page aligned.
    DmabufNotAligned,
}

pub open spec fn tpu_errno(e: TpuError) -> i32 {
    match e {
        TpuError::Timeout => -110i32,
        TpuError::InvalidDmabuf => -22i32,
        TpuError::TdmaError(_) => -5i32,
        TpuError::TiuError(_) => -5i32,
        TpuError::NotInitialized => -19i32,
        TpuError::Busy => -16i32,
        TpuError::Interrupted => -4i32,
        TpuError::PmuBufferNotAligned => -22i32,
        TpuError::DmabufNotAligned => -22i32,
    }
}

impl TpuError {
    /// Linux-style negative errno of the error.
    pub fn as_errno(&self) -> (r: i32)
        ensures
            r == tpu_errno(*self),
    {
        match self {
            TpuError::Timeout => -110,
            TpuError::InvalidDmabuf => -22,
            TpuError::TdmaError(_) => -5,
            TpuError::TiuError(_) => -5,
            TpuError::NotInitialized => -19,
            TpuError::Busy => -16,
            TpuError::Interrupted => -4,
            TpuError::PmuBufferNotAligned => -22,
            TpuError::DmabufNotAligned => -22,
        }
    }
}

} // verus!
