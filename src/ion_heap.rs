//! The heap manager: turns a request into a buffer backed by a coherent
//! allocation, and says what must be released when a buffer is freed.

use vstd::prelude::*;
use crate::ion_error::{IonError, IonResult};
use crate::ion_types::{DmaInfo, IonBuffer, IonFlags, IonHandle, IonHeapType};

verus! {

/// Size and alignment of a coherent allocation.
#[derive(Debug, Clone, Copy, PartialEq, Eq, Structural)]
pub struct BufferLayout {
    pub size: usize,
    pub align: usize,
}

/// What freeing a buffer hands back to the coherent allocator.
#[derive(Debug, Clone, Copy, PartialEq, Eq, Structural)]
pub struct BufferRelease {
    pub dma_info: DmaInfo,
    pub layout: BufferLayout,
}

/// A layout with this size and alignment exists: the alignment is a
/// nonzero power of two and the size, rounded up to it, fits in `isize`.
pub open spec fn layout_valid(size: usize, align: usize) -> bool {
    &&& align != 0
    &&& align & ((align - 1) as usize) == 0
    &&& size as int <= (usize::MAX / 2) as int - (align - 1)
}

/// Relies on `core::alloc::Layout::from_size_align`, which succeeds exactly
/// when `align` is a nonzero power of two and `size` rounded up to a
/// multiple of `align` does not exceed `isize::MAX`.
#[verifier::external_body]
fn layout_is_valid(size: usize, align: usize) -> (r: bool)
    ensures
        r == layout_valid(size, align),
{
    core::alloc::Layout::from_size_align(size, align).is_ok()
}

/// Heap types this manager serves, one bit per heap type.
pub const ION_SUPPORTED_HEAP_MASK: u32 = 0x7;

/// Hands out buffers and mints their handles.
pub struct IonHeapManager {
    next_handle: u32,
}

impl IonHeapManager {
    /// The handle the next buffer will get.
    pub closed spec fn next(&self) -> u32 {
        self.next_handle
    }

    /// A manager whose first buffer gets handle 1.
    pub fn new() -> (r: IonHeapManager)
        ensures
            r.next() == 1,
    {
        IonHeapManager { next_handle: 1 }
    }

    pub fn next_handle(&self) -> (r: u32)
        ensures
            r == self.next(),
    {
        self.next_handle
    }

    /// Heap types this manager serves.
    pub fn supported_heap_mask(&self) -> (r: u32)
        ensures
            r == ION_SUPPORTED_HEAP_MASK,
    {
        ION_SUPPORTED_HEAP_MASK
    }

    /// The layout of a buffer of `size` bytes aligned to `align`;
    /// `InvalidArg` for an empty buffer or an impossible layout.
    pub fn buffer_layout(size: usize, align: usize) -> (r: IonResult<BufferLayout>)
        ensures
            size == 0 || !layout_valid(size, align) ==> r == Err::<BufferLayout, IonError>(
                IonError::InvalidArg,
            ),
            size != 0 && layout_valid(size, align) ==> r == Ok::<BufferLayout, IonError>(
                BufferLayout { size, align },
            ),
    {
        if size == 0 {
            return Err(IonError::InvalidArg);
        }
        if !layout_is_valid(size, align) {
            return Err(IonError::InvalidArg);
        }
        Ok(BufferLayout { size, align })
    }

    /// Wraps the coherent allocation `dma`, made for `size` bytes aligned to
    /// `align`, into a new buffer. Every heap type is backed by coherent
    /// memory. `InvalidArg` for an empty buffer or an impossible layout,
    /// `NoMemory` when the allocation failed (`dma` is `None`).
    pub fn alloc_buffer(
        &mut self,
        size: usize,
        align: usize,
        heap_type: IonHeapType,
        flags: IonFlags,
        dma: Option<DmaInfo>,
    ) -> (r: IonResult<IonBuffer>)
        requires
            old(self).next() < u32::MAX,
        ensures
            size == 0 || !layout_valid(size, align) ==> r == Err::<IonBuffer, IonError>(
                IonError::InvalidArg,
            ) && final(self).next() == old(self).next(),
            size != 0 && layout_valid(size, align) && dma is None ==> r == Err::<
                IonBuffer,
                IonError,
            >(IonError::NoMemory) && final(self).next() == old(self).next(),
            size != 0 && layout_valid(size, align) && dma is Some ==> r == Ok::<IonBuffer, IonError>(
                IonBuffer {
                    handle: IonHandle(old(self).next()),
                    dma_info: dma->0,
                    size,
                    heap_type,
                    flags,
                    ref_count: 1,
                    mapped: false,
                },
            ) && final(self).next() == old(self).next() + 1,
    {
        match IonHeapManager::buffer_layout(size, align) {
            Ok(_) => {},
            Err(e) => {
                return Err(e);
            },
        }
        let dma_info = match dma {
            Some(d) => d,
            None => {
                return Err(IonError::NoMemory);
            },
        };
        Ok(IonBuffer::new(&mut self.next_handle, dma_info, size, heap_type, flags))
    }

    /// What must go back to the coherent allocator for `buffer`: its
    /// allocation with layout `(size, 1)`. `InvalidArg` when no such layout
    /// exists.
    pub fn free_buffer(&self, buffer: &IonBuffer) -> (r: IonResult<BufferRelease>)
        ensures
            layout_valid(buffer.size, 1) ==> r == Ok::<BufferRelease, IonError>(
                BufferRelease {
                    dma_info: buffer.dma_info,
                    layout: BufferLayout { size: buffer.size, align: 1 },
                },
            ),
            !layout_valid(buffer.size, 1) ==> r == Err::<BufferRelease, IonError>(
                IonError::InvalidArg,
            ),
    {
        if !layout_is_valid(buffer.size, 1) {
            return Err(IonError::InvalidArg);
        }
        Ok(BufferRelease { dma_info: buffer.dma_info, layout: BufferLayout { size: buffer.size, align: 1 } })
    }
}

} // verus!
