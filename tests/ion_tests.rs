use axerrno::AxErrorKind;
use ion_tpu::ion_buffer::IonBufferManager;
use ion_tpu::ion_device::{classify_ion_ioctl, select_heap_type, AllocRequest, IonDevice, IonIoctl};
use ion_tpu::ion_error::IonError;
use ion_tpu::ion_file::{IonBufferFile, IonBufferInfo, PhysRange, ION_BUFFER_PATH};
use ion_tpu::ion_heap::{BufferLayout, IonHeapManager};
use ion_tpu::ion_types::{
    ioctl_ior, ioctl_iow, ioctl_iowr, DmaInfo, IonAllocData, IonBuffer, IonFdData, IonFlags,
    IonHandle, IonHandleData, IonHeapQuery, IonHeapType, ION_ALLOC_DATA_SIZE, ION_IOC_ALLOC,
    ION_IOC_FREE, ION_IOC_HEAP_QUERY, ION_IOC_IMPORT, ION_IOC_MAGIC,
};

fn alloc_data(len: u64, mask: u32) -> IonAllocData {
    IonAllocData { len, align: 0, heap_id_mask: mask, flags: 0, fd: 0, unused: 0, paddr: 0 }
}

const DMA: DmaInfo = DmaInfo { cpu_addr: 0x1000_0000, bus_addr: 0x8020_0000 };

fn allocate(dev: &mut IonDevice, len: u64) -> IonBufferInfo {
    let req = IonDevice::alloc_request(&alloc_data(len, 1 << 1)).unwrap();
    dev.finish_alloc(&req, Some(DMA)).unwrap()
}

#[test]
fn allocate_then_free() {
    let mut dev = IonDevice::new();
    let req = IonDevice::alloc_request(&alloc_data(4096, 1 << 1)).unwrap();
    assert_eq!(
        req,
        AllocRequest { heap_type: IonHeapType::DmaCoherent, size: 4096, align: 1, flags: 0 }
    );
    let info = dev.finish_alloc(&req, Some(DMA)).unwrap();
    assert_eq!(info, IonBufferInfo { phys_addr: 0x8020_0000, size: 4096, handle: 1 });
    assert_eq!(info.phys_addr % 4096, 0);
    assert_eq!(dev.buffer_manager().buffer_count(), 1);
    assert!(dev.buffer_manager().get_buffer(IonHandle(1)).is_ok());

    let release = dev.handle_free(&IonHandleData { handle: 1 }).unwrap();
    assert_eq!(release.dma_info, DMA);
    assert_eq!(release.layout, BufferLayout { size: 4096, align: 1 });
    assert_eq!(dev.buffer_manager().buffer_count(), 0);
    assert_eq!(dev.handle_free(&IonHandleData { handle: 1 }), Err(AxErrorKind::NotFound));
}

#[test]
fn map_as_device() {
    let mut dev = IonDevice::new();
    let info = allocate(&mut dev, 4096);
    assert!(!dev.buffer_manager().get_buffer(IonHandle(1)).unwrap().mapped);
    let range = dev.mmap(1, 4096);
    assert_eq!(range, Some(PhysRange { start: info.phys_addr, size: 4096 }));
    assert!(dev.buffer_manager().get_buffer(IonHandle(1)).unwrap().mapped);
}

#[test]
fn mmap_length_rules() {
    let mut dev = IonDevice::new();
    allocate(&mut dev, 8192);
    assert_eq!(dev.mmap(1, 0), Some(PhysRange { start: 0x8020_0000, size: 8192 }));
    assert_eq!(dev.mmap(1, 100), Some(PhysRange { start: 0x8020_0000, size: 100 }));
    assert_eq!(dev.mmap(1, 1 << 20), Some(PhysRange { start: 0x8020_0000, size: 8192 }));
    assert_eq!(dev.mmap(2, 4096), None);
    // mapping twice keeps the flag set
    assert!(dev.buffer_manager().get_buffer(IonHandle(1)).unwrap().mapped);
}

#[test]
fn alloc_then_mmap_round_trip() {
    let mut dev = IonDevice::new();
    let info = allocate(&mut dev, 12288);
    let range = dev.mmap(info.handle as usize, 12288).unwrap();
    assert_eq!(range.start, info.phys_addr);
    assert_eq!(range.size, 12288);
}

#[test]
fn query_heaps() {
    let dev = IonDevice::new();
    let q = IonHeapQuery { cnt: 0, reserved0: 0, reserved1: 0, reserved2: 0, heaps: 0 };
    let (out, entries) = dev.handle_heap_query(&q);
    assert_eq!(out.cnt, 3);
    assert!(entries.is_empty());

    let q = IonHeapQuery { cnt: 3, reserved0: 0, reserved1: 0, reserved2: 0, heaps: 0x7000 };
    let (out, entries) = dev.handle_heap_query(&q);
    assert_eq!(out.cnt, 3);
    assert_eq!(out.heaps, 0x7000);
    assert_eq!(entries.len(), 3);
    let names = ["system", "dma_coherent", "carveout"];
    for (i, e) in entries.iter().enumerate() {
        let end = e.name.iter().position(|&c| c == 0).unwrap();
        assert_eq!(&e.name[..end], names[i].as_bytes());
        assert!(e.name[end..].iter().all(|&c| c == 0));
        assert_eq!(e.heap_id, i as u32);
        assert_eq!(e.type_, i as u32);
    }

    let q = IonHeapQuery { cnt: 2, reserved0: 0, reserved1: 0, reserved2: 0, heaps: 0x7000 };
    let (out, entries) = dev.handle_heap_query(&q);
    assert_eq!(out.cnt, 3);
    assert_eq!(entries.len(), 2);
}

#[test]
fn heap_selection_order() {
    assert_eq!(select_heap_type(0b111), Some(IonHeapType::DmaCoherent));
    assert_eq!(select_heap_type(0b101), Some(IonHeapType::Carveout));
    assert_eq!(select_heap_type(0b001), Some(IonHeapType::System));
    assert_eq!(select_heap_type(0b1000), None);
    assert_eq!(
        IonDevice::alloc_request(&alloc_data(4096, 1 << 3)),
        Err(AxErrorKind::InvalidInput)
    );
}

#[test]
fn alloc_request_rejects_bad_length() {
    assert_eq!(IonDevice::alloc_request(&alloc_data(0, 2)), Err(AxErrorKind::InvalidInput));
    assert_eq!(
        IonDevice::alloc_request(&alloc_data(u64::MAX, 2)),
        Err(AxErrorKind::InvalidInput)
    );
}

#[test]
fn failed_allocation_is_no_memory() {
    let mut dev = IonDevice::new();
    let req = IonDevice::alloc_request(&alloc_data(4096, 2)).unwrap();
    assert_eq!(dev.finish_alloc(&req, None), Err(AxErrorKind::NoMemory));
    assert_eq!(dev.buffer_manager().buffer_count(), 0);
    // the failed attempt consumed no handle
    assert_eq!(allocate(&mut dev, 4096).handle, 1);
}

#[test]
fn handles_strictly_increase() {
    let mut dev = IonDevice::new();
    let a = allocate(&mut dev, 4096).handle;
    let b = allocate(&mut dev, 4096).handle;
    let c = allocate(&mut dev, 4096).handle;
    assert_eq!((a, b, c), (1, 2, 3));
    let mut counter: u32 = 10;
    let h1 = IonHandle::new(&mut counter);
    let h2 = IonHandle::new(&mut counter);
    assert!(h1 < h2);
    assert_eq!(h1.as_u32(), 10);
    assert_eq!(counter, 12);
}

#[test]
fn layout_checks() {
    assert_eq!(IonHeapManager::buffer_layout(0, 1), Err(IonError::InvalidArg));
    assert_eq!(IonHeapManager::buffer_layout(16, 3), Err(IonError::InvalidArg));
    assert_eq!(IonHeapManager::buffer_layout(16, 0), Err(IonError::InvalidArg));
    assert_eq!(IonHeapManager::buffer_layout(usize::MAX, 1), Err(IonError::InvalidArg));
    assert_eq!(IonHeapManager::buffer_layout(16, 8), Ok(BufferLayout { size: 16, align: 8 }));
    let mut heap = IonHeapManager::new();
    let b = heap
        .alloc_buffer(64, 1, IonHeapType::Carveout, IonFlags(1), Some(DMA))
        .unwrap();
    assert_eq!(b.handle, IonHandle(1));
    assert_eq!(b.ref_count, 1);
    assert!(!b.mapped);
    assert_eq!(heap.alloc_buffer(64, 3, IonHeapType::System, IonFlags(0), Some(DMA)), Err(IonError::InvalidArg));
    assert_eq!(heap.alloc_buffer(64, 1, IonHeapType::System, IonFlags(0), None), Err(IonError::NoMemory));
    assert_eq!(heap.next_handle(), 2);
    assert_eq!(heap.supported_heap_mask(), 7);
}

#[test]
fn registry_register_unregister() {
    let mut heap = IonHeapManager::new();
    let mut reg = IonBufferManager::new();
    let b1 = heap.alloc_buffer(64, 1, IonHeapType::System, IonFlags(0), Some(DMA)).unwrap();
    let b2 = heap.alloc_buffer(64, 1, IonHeapType::System, IonFlags(0), Some(DMA)).unwrap();
    assert_eq!(reg.register_buffer(b1), Ok(()));
    assert_eq!(reg.register_buffer(b2), Ok(()));
    assert_eq!(reg.register_buffer(b1), Err(IonError::BufferExists));
    assert_eq!(reg.buffer_count(), 2);
    assert_eq!(reg.unregister_buffer(IonHandle(1)), Ok(b1));
    assert_eq!(reg.unregister_buffer(IonHandle(1)), Err(IonError::BufferNotFound));
    assert_eq!(reg.get_buffer(IonHandle(7)), Err(IonError::BufferNotFound));
    assert_eq!(reg.buffer_count(), 1);
    reg.cleanup_all();
    assert_eq!(reg.buffer_count(), 0);
}

#[test]
fn reference_counts_stay_non_negative() {
    let mut heap = IonHeapManager::new();
    let mut reg = IonBufferManager::new();
    let b = heap.alloc_buffer(64, 1, IonHeapType::System, IonFlags(0), Some(DMA)).unwrap();
    reg.register_buffer(b).unwrap();
    assert_eq!(reg.inc_buffer_ref(IonHandle(1)), Ok(2));
    assert_eq!(reg.dec_buffer_ref(IonHandle(1)), Ok(1));
    assert_eq!(reg.dec_buffer_ref(IonHandle(1)), Ok(0));
    assert_eq!(reg.dec_buffer_ref(IonHandle(1)), Ok(0));
    assert_eq!(reg.inc_buffer_ref(IonHandle(9)), Err(IonError::BufferNotFound));
    let mut single: IonBuffer = b;
    single.set_mapped();
    single.dec_ref();
    single.dec_ref();
    assert_eq!(single.ref_count(), 0);
    assert!(single.is_mapped());
    assert_eq!(single.inc_ref(), 1);
    assert!(single.is_mapped());
}

#[test]
fn import_uses_fd_as_handle() {
    let out = IonDevice::handle_import(&IonFdData { fd: 5, handle: 0 });
    assert_eq!(out, IonFdData { fd: 5, handle: 5 });
}

#[test]
fn ion_error_kinds() {
    assert_eq!(AxErrorKind::from(IonError::InvalidArg), AxErrorKind::InvalidInput);
    assert_eq!(AxErrorKind::from(IonError::NoMemory), AxErrorKind::NoMemory);
    assert_eq!(AxErrorKind::from(IonError::InvalidBuffer), AxErrorKind::NotFound);
    assert_eq!(AxErrorKind::from(IonError::BufferNotFound), AxErrorKind::NotFound);
    assert_eq!(AxErrorKind::from(IonError::BufferExists), AxErrorKind::AlreadyExists);
    assert_eq!(AxErrorKind::from(IonError::InvalidHeap), AxErrorKind::Unsupported);
    assert_eq!(AxErrorKind::from(IonError::NotSupported), AxErrorKind::Unsupported);
    assert_eq!(AxErrorKind::from(IonError::Internal), AxErrorKind::Interrupted);
}

#[test]
fn ioctl_numbers() {
    assert_eq!(ION_IOC_MAGIC, b'I' as u32);
    assert_eq!(ION_IOC_ALLOC, 0xC028_4900);
    assert_eq!(ION_IOC_FREE, 0x4004_4901);
    assert_eq!(ION_IOC_IMPORT, 0xC008_4905);
    assert_eq!(ION_IOC_HEAP_QUERY, 0xC018_4908);
    assert_eq!(ioctl_iowr(ION_IOC_MAGIC, 0, ION_ALLOC_DATA_SIZE), ION_IOC_ALLOC);
    assert_eq!(ioctl_iow(ION_IOC_MAGIC, 1, 4), ION_IOC_FREE);
    assert_eq!(ioctl_ior(0x49, 2, 8), 0x8008_4902);
}

#[test]
fn heap_type_codes() {
    assert_eq!(IonHeapType::from_code(1), Some(IonHeapType::DmaCoherent));
    assert_eq!(IonHeapType::from_code(3), None);
    assert_eq!(IonHeapType::Carveout.code(), 2);
}

#[test]
fn buffer_file_reports_its_buffer() {
    let info = IonBufferInfo { phys_addr: 0x8000_0000, size: 4096, handle: 3 };
    let f = IonBufferFile::new(info);
    assert_eq!(f.phys_range(), PhysRange { start: 0x8000_0000, size: 4096 });
    assert_eq!(*f.info(), info);
    assert_eq!(f.stat_size(), 4096);
    assert_eq!(ION_BUFFER_PATH, "/dev/ion_buffer");
}

#[test]
fn ion_ioctl_dispatch() {
    assert_eq!(classify_ion_ioctl(ION_IOC_ALLOC), IonIoctl::Alloc);
    assert_eq!(classify_ion_ioctl(ION_IOC_FREE), IonIoctl::Free);
    assert_eq!(classify_ion_ioctl(ION_IOC_IMPORT), IonIoctl::Import);
    assert_eq!(classify_ion_ioctl(ION_IOC_HEAP_QUERY), IonIoctl::HeapQuery);
    assert_eq!(classify_ion_ioctl(0xC028_4901), IonIoctl::Unsupported);
}

#[test]
fn list_registered_handles() {
    let mut dev = IonDevice::new();
    allocate(&mut dev, 4096);
    allocate(&mut dev, 4096);
    allocate(&mut dev, 4096);
    dev.handle_free(&IonHandleData { handle: 2 }).unwrap();
    let handles = dev.buffer_manager().debug_list_handles();
    assert_eq!(handles, vec![IonHandle(1), IonHandle(3)]);
}
