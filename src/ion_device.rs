//! The ION device: ioctl decisions for allocation, free, import and heap
//! queries, and the buffer lookup behind `mmap`.

use vstd::prelude::*;
use axerrno::AxErrorKind;
use crate::ion_buffer::{mapped_kept, registry_wf, IonBufferManager};
use crate::ion_error::IonResult;
use crate::ion_file::{IonBufferInfo, PhysRange};
use crate::ion_heap::{layout_valid, BufferRelease, IonHeapManager};
use crate::ion_types::{
    DmaInfo, IonAllocData, IonBuffer, IonFdData, IonFlags, IonHandle,
    IonHandleData, IonHeapData, IonHeapQuery, IonHeapType, ION_IOC_ALLOC, ION_IOC_FREE,
    ION_IOC_HEAP_QUERY, ION_IOC_IMPORT,
};

verus! {

/// Number of heaps the device reports.
pub const ION_HEAP_COUNT: u32 = 3;

/// The heap an allocation with `mask` comes from: DMA-coherent first, then
/// carveout, then system.
pub open spec fn heap_for_mask(mask: u32) -> Option<IonHeapType> {
    if mask & 2u32 != 0 {
        Some(IonHeapType::DmaCoherent)
    } else if mask & 4u32 != 0 {
        Some(IonHeapType::Carveout)
    } else if mask & 1u32 != 0 {
        Some(IonHeapType::System)
    } else {
        None
    }
}

pub fn select_heap_type(mask: u32) -> (r: Option<IonHeapType>)
    ensures
        r == heap_for_mask(mask),
{
    assert((1u32 << 1u32) == 2u32 && (1u32 << 2u32) == 4u32 && (1u32 << 0u32) == 1u32) by (bit_vector);
    if (mask & (1u32 << 1u32)) != 0 {
        Some(IonHeapType::DmaCoherent)
    } else if (mask & (1u32 << 2u32)) != 0 {
        Some(IonHeapType::Carveout)
    } else if (mask & (1u32 << 0u32)) != 0 {
        Some(IonHeapType::System)
    } else {
        None
    }
}

/// What an ION ioctl command asks for.
#[derive(Debug, Clone, Copy, PartialEq, Eq, Structural)]
pub enum IonIoctl {
    Alloc,
    Free,
    Import,
    HeapQuery,
    Unsupported,
}

pub open spec fn ion_ioctl_of(cmd: u32) -> IonIoctl {
    if cmd == ION_IOC_HEAP_QUERY {
        IonIoctl::HeapQuery
    } else if cmd == ION_IOC_ALLOC {
        IonIoctl::Alloc
    } else if cmd == ION_IOC_FREE {
        IonIoctl::Free
    } else if cmd == ION_IOC_IMPORT {
        IonIoctl::Import
    } else {
        IonIoctl::Unsupported
    }
}

/// Decodes an ION ioctl command number; unknown commands are
/// `Unsupported`.
pub fn classify_ion_ioctl(cmd: u32) -> (r: IonIoctl)
    ensures
        r == ion_ioctl_of(cmd),
{
    if cmd == ION_IOC_HEAP_QUERY {
        IonIoctl::HeapQuery
    } else if cmd == ION_IOC_ALLOC {
        IonIoctl::Alloc
    } else if cmd == ION_IOC_FREE {
        IonIoctl::Free
    } else if cmd == ION_IOC_IMPORT {
        IonIoctl::Import
    } else {
        IonIoctl::Unsupported
    }
}

/// A checked allocation request.
#[derive(Debug, Clone, Copy, PartialEq, Eq, Structural)]
pub struct AllocRequest {
    pub heap_type: IonHeapType,
    pub size: usize,
    pub align: usize,
    pub flags: u32,
}

/// The buffer an allocation creates.
pub open spec fn allocated_buffer(req: AllocRequest, dma: DmaInfo, handle: u32) -> IonBuffer {
    IonBuffer {
        handle: IonHandle(handle),
        dma_info: dma,
        size: req.size,
        heap_type: req.heap_type,
        flags: IonFlags(req.flags),
        ref_count: 1,
        mapped: false,
    }
}

/// What `mmap` with `offset` (read as a handle) and `length` maps: the
/// buffer's bus address, for `length` bytes capped at the buffer size, or
/// the whole buffer when `length` is zero.
pub open spec fn mmap_range(m: Map<u32, IonBuffer>, offset: usize, length: usize) -> Option<PhysRange> {
    let h = offset as u32;
    if m.contains_key(h) {
        let b = m[h];
        Some(
            PhysRange {
                start: b.dma_info.bus_addr as usize,
                size: if length > 0 && length < b.size {
                    length
                } else {
                    b.size
                },
            },
        )
    } else {
        None
    }
}

/// Name field of the heap with id `id`.
pub open spec fn heap_name_field(id: int) -> Seq<u8> {
    if id == 0 {
        seq![115, 121, 115, 116, 101, 109, 0, 0, 0, 0, 0, 0, 0, 0, 0, 0, 0, 0, 0, 0, 0, 0, 0, 0, 0, 0, 0, 0, 0, 0, 0, 0]
    } else if id == 1 {
        seq![100, 109, 97, 95, 99, 111, 104, 101, 114, 101, 110, 116, 0, 0, 0, 0, 0, 0, 0, 0, 0, 0, 0, 0, 0, 0, 0, 0, 0, 0, 0, 0]
    } else {
        seq![99, 97, 114, 118, 101, 111, 117, 116, 0, 0, 0, 0, 0, 0, 0, 0, 0, 0, 0, 0, 0, 0, 0, 0, 0, 0, 0, 0, 0, 0, 0, 0]
    }
}

/// `e` is the query entry of the heap with id `id`.
pub open spec fn heap_entry_matches(e: IonHeapData, id: int) -> bool {
    &&& e.type_ == id
    &&& e.heap_id == id
    &&& e.name@ == heap_name_field(id)
    &&& e.reserved0 == 0
    &&& e.reserved1 == 0
    &&& e.reserved2 == 0
}

fn heap_entry(id: u32) -> (r: IonHeapData)
    requires
        id < ION_HEAP_COUNT,
    ensures
        heap_entry_matches(r, id as int),
{
    let name: [u8; 32] = if id == 0 {
        [115, 121, 115, 116, 101, 109, 0, 0, 0, 0, 0, 0, 0, 0, 0, 0, 0, 0, 0, 0, 0, 0, 0, 0, 0, 0, 0, 0, 0, 0, 0, 0]
    } else if id == 1 {
        [100, 109, 97, 95, 99, 111, 104, 101, 114, 101, 110, 116, 0, 0, 0, 0, 0, 0, 0, 0, 0, 0, 0, 0, 0, 0, 0, 0, 0, 0, 0, 0]
    } else {
        [99, 97, 114, 118, 101, 111, 117, 116, 0, 0, 0, 0, 0, 0, 0, 0, 0, 0, 0, 0, 0, 0, 0, 0, 0, 0, 0, 0, 0, 0, 0, 0]
    };
    proof {
        assert(name@ =~= heap_name_field(id as int));
    }
    IonHeapData { name, type_: id, heap_id: id, reserved0: 0, reserved1: 0, reserved2: 0 }
}

/// The ION allocator device.
pub struct IonDevice {
    heap_manager: IonHeapManager,
    buffer_manager: IonBufferManager,
}

impl IonDevice {
    /// The registered buffers, by handle.
    pub closed spec fn registry(&self) -> Map<u32, IonBuffer> {
        self.buffer_manager.buffers()
    }

    /// The handle the next allocation will get.
    pub closed spec fn next_handle(&self) -> u32 {
        self.heap_manager.next()
    }

    pub open spec fn wf(&self) -> bool {
        &&& registry_wf(self.registry())
        &&& self.registry().dom().finite()
        &&& forall|k: u32| #[trigger] self.registry().contains_key(k) ==> k < self.next_handle()
    }

    /// A device with no buffer, whose first allocation gets handle 1.
    pub fn new() -> (r: IonDevice)
        ensures
            r.wf(),
            r.registry() == Map::<u32, IonBuffer>::empty(),
            r.next_handle() == 1,
    {
        IonDevice { heap_manager: IonHeapManager::new(), buffer_manager: IonBufferManager::new() }
    }

    /// Brings the device up; nothing can fail.
    pub fn init(&self) -> (r: IonResult<()>)
        ensures
            r is Ok,
    {
        Ok(())
    }

    /// The buffer registry, shared with the TPU.
    pub fn buffer_manager(&self) -> (r: &IonBufferManager)
        ensures
            r.buffers() == self.registry(),
    {
        &self.buffer_manager
    }

    /// Whether handles are used up; no allocation can be made then.
    pub fn handles_exhausted(&self) -> (r: bool)
        ensures
            r == (self.next_handle() == u32::MAX),
    {
        self.heap_manager.next_handle() == u32::MAX
    }

    /// Checks an ALLOC argument: picks the heap from the mask and checks the
    /// length. `InvalidInput` when no served heap is in the mask or the
    /// length is zero or too large.
    pub fn alloc_request(data: &IonAllocData) -> (r: Result<AllocRequest, AxErrorKind>)
        ensures
            heap_for_mask(data.heap_id_mask) is None ==> r == Err::<AllocRequest, AxErrorKind>(
                AxErrorKind::InvalidInput,
            ),
            heap_for_mask(data.heap_id_mask) is Some && (data.len as usize == 0 || !layout_valid(
                data.len as usize,
                1,
            )) ==> r == Err::<AllocRequest, AxErrorKind>(AxErrorKind::InvalidInput),
            heap_for_mask(data.heap_id_mask) is Some && data.len as usize != 0 && layout_valid(
                data.len as usize,
                1,
            ) ==> r == Ok::<AllocRequest, AxErrorKind>(
                AllocRequest {
                    heap_type: heap_for_mask(data.heap_id_mask)->0,
                    size: data.len as usize,
                    align: 1,
                    flags: data.flags,
                },
            ),
    {
        let heap_type = match select_heap_type(data.heap_id_mask) {
            Some(t) => t,
            None => {
                return Err(AxErrorKind::InvalidInput);
            },
        };
        let size = data.len as usize;
        match IonHeapManager::buffer_layout(size, 1) {
            Ok(_) => Ok(AllocRequest { heap_type, size, align: 1, flags: data.flags }),
            Err(e) => Err(AxErrorKind::from(e)),
        }
    }

    /// Completes an allocation with the coherent memory `dma` obtained for
    /// `req`: the buffer gets the next handle and is registered. Returns what
    /// its file needs. `NoMemory` when the allocation failed.
    pub fn finish_alloc(&mut self, req: &AllocRequest, dma: Option<DmaInfo>) -> (r: Result<
        IonBufferInfo,
        AxErrorKind,
    >)
        requires
            old(self).wf(),
            old(self).next_handle() < u32::MAX,
        ensures
            final(self).wf(),
            mapped_kept(old(self).registry(), final(self).registry()),
            req.size == 0 || !layout_valid(req.size, req.align) ==> r == Err::<
                IonBufferInfo,
                AxErrorKind,
            >(AxErrorKind::InvalidInput) && final(self).registry() == old(self).registry()
                && final(self).next_handle() == old(self).next_handle(),
            req.size != 0 && layout_valid(req.size, req.align) && dma is None ==> r == Err::<
                IonBufferInfo,
                AxErrorKind,
            >(AxErrorKind::NoMemory) && final(self).registry() == old(self).registry()
                && final(self).next_handle() == old(self).next_handle(),
            req.size != 0 && layout_valid(req.size, req.align) && dma is Some ==> {
                let h = old(self).next_handle();
                &&& r == Ok::<IonBufferInfo, AxErrorKind>(
                    IonBufferInfo {
                        phys_addr: dma->0.bus_addr as usize,
                        size: req.size,
                        handle: h,
                    },
                )
                &&& final(self).registry() == old(self).registry().insert(
                    h,
                    allocated_buffer(*req, dma->0, h),
                )
                &&& final(self).next_handle() == h + 1
            },
    {
        let buffer = match self.heap_manager.alloc_buffer(
            req.size,
            req.align,
            req.heap_type,
            IonFlags(req.flags),
            dma,
        ) {
            Ok(b) => b,
            Err(e) => {
                return Err(AxErrorKind::from(e));
            },
        };
        match self.buffer_manager.register_buffer(buffer) {
            Ok(()) => {},
            Err(e) => {
                return Err(AxErrorKind::from(e));
            },
        }
        Ok(
            IonBufferInfo {
                phys_addr: buffer.dma_info.bus_addr as usize,
                size: buffer.size,
                handle: buffer.handle.as_u32(),
            },
        )
    }

    /// FREE: unregisters the buffer and returns what must go back to the
    /// coherent allocator. `NotFound` for an unknown handle.
    pub fn handle_free(&mut self, data: &IonHandleData) -> (r: Result<BufferRelease, AxErrorKind>)
        requires
            old(self).wf(),
        ensures
            final(self).wf(),
            mapped_kept(old(self).registry(), final(self).registry()),
            final(self).next_handle() == old(self).next_handle(),
            final(self).registry() == old(self).registry().remove(data.handle),
            !old(self).registry().contains_key(data.handle) ==> r == Err::<
                BufferRelease,
                AxErrorKind,
            >(AxErrorKind::NotFound),
            old(self).registry().contains_key(data.handle) ==> {
                let b = old(self).registry()[data.handle];
                &&& layout_valid(b.size, 1) ==> r == Ok::<BufferRelease, AxErrorKind>(
                    BufferRelease {
                        dma_info: b.dma_info,
                        layout: crate::ion_heap::BufferLayout { size: b.size, align: 1 },
                    },
                )
                &&& !layout_valid(b.size, 1) ==> r == Err::<BufferRelease, AxErrorKind>(
                    AxErrorKind::InvalidInput,
                )
            },
    {
        let buffer = match self.buffer_manager.unregister_buffer(IonHandle(data.handle)) {
            Ok(b) => b,
            Err(e) => {
                return Err(AxErrorKind::from(e));
            },
        };
        match self.heap_manager.free_buffer(&buffer) {
            Ok(rel) => Ok(rel),
            Err(e) => Err(AxErrorKind::from(e)),
        }
    }

    /// IMPORT: the file descriptor itself serves as the handle.
    pub fn handle_import(data: &IonFdData) -> (r: IonFdData)
        ensures
            r == (IonFdData { fd: data.fd, handle: data.fd as u32 }),
    {
        IonFdData { fd: data.fd, handle: data.fd as u32 }
    }

    /// HEAP_QUERY: the count of heaps is set to 3, and when the caller gave
    /// an array, its first `min(cnt, 3)` entries describe the heaps.
    pub fn handle_heap_query(&self, query: &IonHeapQuery) -> (r: (IonHeapQuery, Vec<IonHeapData>))
        ensures
            r.0 == (IonHeapQuery { cnt: ION_HEAP_COUNT, ..*query }),
            r.1@.len() == if query.heaps != 0 {
                if query.cnt < ION_HEAP_COUNT {
                    query.cnt
                } else {
                    ION_HEAP_COUNT
                }
            } else {
                0
            },
            forall|i: int| 0 <= i < r.1@.len() ==> heap_entry_matches(#[trigger] r.1@[i], i),
    {
        let requested: u32 = if query.cnt < ION_HEAP_COUNT {
            query.cnt
        } else {
            ION_HEAP_COUNT
        };
        let mut entries: Vec<IonHeapData> = Vec::new();
        if query.heaps != 0 && requested > 0 {
            let mut i: u32 = 0;
            while i < requested
                invariant
                    i <= requested <= ION_HEAP_COUNT,
                    entries@.len() == i,
                    forall|k: int| 0 <= k < i ==> heap_entry_matches(#[trigger] entries@[k], k),
                decreases requested - i,
            {
                entries.push(heap_entry(i));
                i = i + 1;
            }
        }
        (IonHeapQuery { cnt: ION_HEAP_COUNT, ..*query }, entries)
    }

    /// Resolves `mmap(offset, length)`: `offset` is read as a handle. The
    /// buffer found is marked mapped. `None` when no buffer has that handle.
    pub fn mmap(&mut self, offset: usize, length: usize) -> (r: Option<PhysRange>)
        requires
            old(self).wf(),
        ensures
            final(self).wf(),
            mapped_kept(old(self).registry(), final(self).registry()),
            final(self).next_handle() == old(self).next_handle(),
            r == mmap_range(old(self).registry(), offset, length),
            old(self).registry().contains_key(offset as u32) ==> final(self).registry() == old(
                self,
            ).registry().insert(
                offset as u32,
                IonBuffer { mapped: true, ..old(self).registry()[offset as u32] },
            ),
            !old(self).registry().contains_key(offset as u32) ==> final(self).registry() == old(
                self,
            ).registry(),
    {
        let handle = IonHandle(#[verifier::truncate] (offset as u32));
        match self.buffer_manager.set_buffer_mapped(handle) {
            Ok(buffer) => {
                let size = if length > 0 {
                    if length < buffer.size {
                        length
                    } else {
                        buffer.size
                    }
                } else {
                    buffer.size
                };
                Some(PhysRange { start: buffer.dma_info.bus_addr as usize, size })
            },
            Err(_) => None,
        }
    }

    /// Forgets every buffer; used when the device is torn down.
    pub fn cleanup_all(&mut self)
        requires
            old(self).wf(),
        ensures
            final(self).wf(),
            final(self).registry() == Map::<u32, IonBuffer>::empty(),
            final(self).next_handle() == old(self).next_handle(),
    {
        self.buffer_manager.cleanup_all();
    }
}

/// After an allocation, mapping its handle with the requested length (or
/// with length zero) yields the buffer's bus address and the requested
/// length.
pub proof fn lemma_alloc_then_mmap(
    m: Map<u32, IonBuffer>,
    req: AllocRequest,
    dma: DmaInfo,
    h: u32,
    length: usize,
)
    requires
        length == req.size || length == 0,
    ensures
        mmap_range(m.insert(h, allocated_buffer(req, dma, h)), h as usize, length) == Some(
            PhysRange { start: dma.bus_addr as usize, size: req.size },
        ),
{
    assert((h as usize) as u32 == h);
}

} // verus!
