//! ION data model: heap types, handles, buffers and the ioctl argument
//! records with their command numbers.

use vstd::prelude::*;

verus! {

/// Heap a buffer is drawn from.
#[derive(Debug, Clone, Copy, PartialEq, Eq, Structural)]
pub enum IonHeapType {
    /// Ordinary system memory.
    System,
    /// DMA-coherent memory.
    DmaCoherent,
    /// Reserved physical region.
    Carveout,
}

pub open spec fn heap_type_code(t: IonHeapType) -> u32 {
    match t {
        IonHeapType::System => 0,
        IonHeapType::DmaCoherent => 1,
        IonHeapType::Carveout => 2,
    }
}

impl IonHeapType {
    /// ABI code of the heap type.
    pub fn code(&self) -> (r: u32)
        ensures
            r == heap_type_code(*self),
    {
        match self {
            IonHeapType::System => 0,
            IonHeapType::DmaCoherent => 1,
            IonHeapType::Carveout => 2,
        }
    }

    /// The heap type with ABI code `value`, if any.
    pub fn from_code(value: u32) -> (r: Option<IonHeapType>)
        ensures
            value <= 2 ==> r is Some && heap_type_code(r->0) == value,
            value > 2 ==> r is None,
    {
        match value {
            0 => Some(IonHeapType::System),
            1 => Some(IonHeapType::DmaCoherent),
            2 => Some(IonHeapType::Carveout),
            _ => None,
        }
    }
}

/// Buffer flags; stored, not acted on.
#[derive(Debug, Clone, Copy, PartialEq, Eq, Structural)]
pub struct IonFlags(pub u32);

/// The buffer may be mapped cached.
pub const ION_FLAG_CACHED: u32 = 1;

/// Cached mappings need explicit synchronization.
pub const ION_FLAG_CACHED_NEEDS_SYNC: u32 = 2;

/// Identity of a buffer within one process lifetime.
#[derive(Debug, Clone, Copy, PartialEq, Eq, Structural, PartialOrd, Ord, Hash)]
pub struct IonHandle(pub u32);

impl IonHandle {
    /// Mints the handle `*counter` and advances the counter.
    pub fn new(counter: &mut u32) -> (h: IonHandle)
        requires
            *old(counter) < u32::MAX,
        ensures
            h.0 == *old(counter),
            *final(counter) == *old(counter) + 1,
    {
        let h = IonHandle(*counter);
        *counter = *counter + 1;
        h
    }

    pub fn as_u32(self) -> (r: u32)
        ensures
            r == self.0,
    {
        self.0
    }
}

/// Handles minted one after another from one counter strictly increase, so
/// no two of them are equal.
pub proof fn lemma_handles_increase(start: u32, minted: Seq<IonHandle>)
    requires
        start as int + minted.len() <= u32::MAX,
        forall|i: int| 0 <= i < minted.len() ==> (#[trigger] minted[i]).0 == start + i,
    ensures
        forall|i: int, j: int| 0 <= i < j < minted.len() ==> minted[i].0 < minted[j].0,
        forall|i: int, j: int| 0 <= i < minted.len() && 0 <= j < minted.len() && i != j ==> minted[i]
            != minted[j],
{
    assert forall|i: int, j: int| 0 <= i < j < minted.len() implies minted[i].0 < minted[j].0 by {
        assert(minted[i].0 == start + i);
        assert(minted[j].0 == start + j);
    }
    assert forall|i: int, j: int|
        0 <= i < minted.len() && 0 <= j < minted.len() && i != j implies minted[i] != minted[j] by {
        assert(minted[i].0 == start + i);
        assert(minted[j].0 == start + j);
    }
}

/// A coherent allocation: CPU virtual address and bus address.
#[derive(Debug, Clone, Copy, PartialEq, Eq, Structural)]
pub struct DmaInfo {
    pub cpu_addr: usize,
    pub bus_addr: u64,
}

/// The kernel record of one allocation.
#[derive(Debug, Clone, Copy, PartialEq, Eq, Structural)]
pub struct IonBuffer {
    pub handle: IonHandle,
    pub dma_info: DmaInfo,
    /// Length as requested.
    pub size: usize,
    pub heap_type: IonHeapType,
    pub flags: IonFlags,
    pub ref_count: usize,
    /// Set once the buffer has been mapped; never reset.
    pub mapped: bool,
}

impl IonBuffer {
    /// A fresh buffer with a newly minted handle, one reference, unmapped.
    pub fn new(
        counter: &mut u32,
        dma_info: DmaInfo,
        size: usize,
        heap_type: IonHeapType,
        flags: IonFlags,
    ) -> (r: IonBuffer)
        requires
            *old(counter) < u32::MAX,
        ensures
            *final(counter) == *old(counter) + 1,
            r == (IonBuffer {
                handle: IonHandle(*old(counter)),
                dma_info,
                size,
                heap_type,
                flags,
                ref_count: 1,
                mapped: false,
            }),
    {
        IonBuffer {
            handle: IonHandle::new(counter),
            dma_info,
            size,
            heap_type,
            flags,
            ref_count: 1,
            mapped: false,
        }
    }

    /// Takes one more reference (saturating); returns the new count.
    pub fn inc_ref(&mut self) -> (r: usize)
        ensures
            final(self).ref_count == if old(self).ref_count < usize::MAX {
                (old(self).ref_count + 1) as usize
            } else {
                old(self).ref_count
            },
            r == final(self).ref_count,
            final(self).mapped == old(self).mapped,
            *final(self) == (IonBuffer { ref_count: final(self).ref_count, ..*old(self) }),
    {
        if self.ref_count < usize::MAX {
            self.ref_count = self.ref_count + 1;
        }
        self.ref_count
    }

    /// Drops one reference, never below zero; returns the new count.
    pub fn dec_ref(&mut self) -> (r: usize)
        ensures
            final(self).ref_count == if old(self).ref_count > 0 {
                (old(self).ref_count - 1) as usize
            } else {
                0
            },
            r == final(self).ref_count,
            final(self).mapped == old(self).mapped,
            *final(self) == (IonBuffer { ref_count: final(self).ref_count, ..*old(self) }),
    {
        if self.ref_count > 0 {
            self.ref_count = self.ref_count - 1;
        }
        self.ref_count
    }

    pub fn ref_count(&self) -> (r: usize)
        ensures
            r == self.ref_count,
    {
        self.ref_count
    }

    /// Marks the buffer as mapped.
    pub fn set_mapped(&mut self)
        ensures
            *final(self) == (IonBuffer { mapped: true, ..*old(self) }),
    {
        self.mapped = true;
    }

    pub fn is_mapped(&self) -> (r: bool)
        ensures
            r == self.mapped,
    {
        self.mapped
    }
}

/// ALLOC argument.
#[derive(Debug, Clone, Copy, PartialEq, Eq, Structural)]
pub struct IonAllocData {
    /// Requested length.
    pub len: u64,
    /// Requested alignment.
    pub align: u32,
    /// Heaps the buffer may come from, one bit per heap type.
    pub heap_id_mask: u32,
    /// Buffer flags.
    pub flags: u32,
    /// Out: file descriptor of the new buffer.
    pub fd: i32,
    pub unused: u32,
    /// Out: bus address of the new buffer.
    pub paddr: u64,
}

/// IMPORT argument.
#[derive(Debug, Clone, Copy, PartialEq, Eq, Structural)]
pub struct IonFdData {
    pub fd: i32,
    /// Out: handle of the imported buffer.
    pub handle: u32,
}

/// FREE argument.
#[derive(Debug, Clone, Copy, PartialEq, Eq, Structural)]
pub struct IonHandleData {
    pub handle: u32,
}

/// HEAP_QUERY argument.
#[derive(Debug, Clone, Copy, PartialEq, Eq, Structural)]
pub struct IonHeapQuery {
    /// In: entries the caller has room for; out: number of heaps.
    pub cnt: u32,
    pub reserved0: u32,
    pub reserved1: u32,
    pub reserved2: u32,
    /// User address of the entry array, or 0.
    pub heaps: u64,
}

/// Bytes of a heap name, terminator included.
pub const MAX_HEAP_NAME: usize = 32;

/// One entry of a heap query.
#[derive(Debug, Clone, Copy)]
pub struct IonHeapData {
    pub name: [u8; 32],
    pub type_: u32,
    pub heap_id: u32,
    pub reserved0: u32,
    pub reserved1: u32,
    pub reserved2: u32,
}

/// Direction bits of an ioctl number.
pub const IOC_WRITE: u32 = 1;
pub const IOC_READ: u32 = 2;
pub const IOC_READ_WRITE: u32 = 3;

/// Largest argument size an ioctl number can carry.
pub const IOC_SIZE_MAX: u32 = 0x3FFF;

pub open spec fn ioc(dir: u32, magic: u32, nr: u32, size: u32) -> u32 {
    (dir << 30u32) | (magic << 8u32) | nr | (size << 16u32)
}

/// Ioctl number of a command that reads and writes its argument.
pub fn ioctl_iowr(magic: u32, nr: u32, size: u32) -> (r: u32)
    ensures
        r == ioc(IOC_READ_WRITE, magic, nr, size),
{
    (IOC_READ_WRITE << 30u32) | (magic << 8u32) | nr | (size << 16u32)
}

/// Ioctl number of a command that only reads its argument.
pub fn ioctl_iow(magic: u32, nr: u32, size: u32) -> (r: u32)
    ensures
        r == ioc(IOC_WRITE, magic, nr, size),
{
    (IOC_WRITE << 30u32) | (magic << 8u32) | nr | (size << 16u32)
}

/// Ioctl number of a command that only writes its argument.
pub fn ioctl_ior(magic: u32, nr: u32, size: u32) -> (r: u32)
    ensures
        r == ioc(IOC_READ, magic, nr, size),
{
    (IOC_READ << 30u32) | (magic << 8u32) | nr | (size << 16u32)
}

/// ION ioctl magic, `'I'`.
pub const ION_IOC_MAGIC: u32 = 0x49;

/// Sizes of the argument records in their C layout.
pub const ION_ALLOC_DATA_SIZE: u32 = 40;
pub const ION_HANDLE_DATA_SIZE: u32 = 4;
pub const ION_FD_DATA_SIZE: u32 = 8;
pub const ION_HEAP_QUERY_SIZE: u32 = 24;
pub const ION_HEAP_DATA_SIZE: u32 = 52;

pub const ION_IOC_ALLOC: u32 = (IOC_READ_WRITE << 30) | (ION_IOC_MAGIC << 8) | 0 | (
ION_ALLOC_DATA_SIZE << 16);
pub const ION_IOC_FREE: u32 = (IOC_WRITE << 30) | (ION_IOC_MAGIC << 8) | 1 | (ION_HANDLE_DATA_SIZE
    << 16);
pub const ION_IOC_IMPORT: u32 = (IOC_READ_WRITE << 30) | (ION_IOC_MAGIC << 8) | 5 | (
ION_FD_DATA_SIZE << 16);
pub const ION_IOC_HEAP_QUERY: u32 = (IOC_READ_WRITE << 30) | (ION_IOC_MAGIC << 8) | 8 | (
ION_HEAP_QUERY_SIZE << 16);

} // verus!
