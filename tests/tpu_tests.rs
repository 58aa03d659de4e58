use ion_tpu::ion_buffer::IonBufferManager;
use ion_tpu::ion_heap::IonHeapManager;
use ion_tpu::ion_types::{DmaInfo, IonFlags, IonHeapType};
use ion_tpu::platform::{
    handle_tdma_irq, pmu_disable, pmu_enable, poll_cmdbuf_done, run_dmabuf, DmabufRun, RunAction,
    RunPhase, SpinTimeout, TpuRuntimeState,
};
use ion_tpu::regs::RegWrite;
use ion_tpu::tdma::{TdmaRegs, TDMA_CTRL, TDMA_INT_MASK, TDMA_SYNC_STATUS, TPUPMU_CTRL};
use ion_tpu::tiu::{TiuRegs, BD_CTRL0};
use ion_tpu::tpu_device::{
    classify_ioctl, fixed_ioctl_result, ioctl_result, CviSubmitDmaArg, CviWaitDmaArg, TpuDevice, TpuIoctl, TpuState,
    CVITPU_LOAD_TEE, CVITPU_SUBMIT_DMABUF, CVITPU_WAIT_DMABUF,
};
use ion_tpu::tpu_error::TpuError;
use ion_tpu::tpu_types::{CmdIdNode, CpuSyncDesc, DmaHeader, TdmaReg, TpuPmuEvent};
use axerrno::AxErrorKind;

fn w(offset: usize, value: u32) -> RegWrite {
    RegWrite { offset, value }
}

/// A command buffer with a header and one descriptor per `(num_bd, num_gdma)`.
fn dmabuf(magic: u16, descs: &[(u32, u32)], pmu: (u32, u32)) -> Vec<u8> {
    let mut b = vec![0u8; 128 + 224 * descs.len()];
    b[0..2].copy_from_slice(&magic.to_le_bytes());
    b[8..12].copy_from_slice(&(descs.len() as u32).to_le_bytes());
    b[24..28].copy_from_slice(&pmu.1.to_le_bytes());
    b[28..32].copy_from_slice(&pmu.0.to_le_bytes());
    for i in 0..8u32 {
        let off = 32 + 8 * i as usize;
        b[off..off + 4].copy_from_slice(&(0x1000 * (i + 1)).to_le_bytes());
    }
    for (k, (bd, gdma)) in descs.iter().enumerate() {
        let off = 128 + 224 * k;
        b[off + 4..off + 8].copy_from_slice(&bd.to_le_bytes());
        b[off + 8..off + 12].copy_from_slice(&gdma.to_le_bytes());
        b[off + 12..off + 16].copy_from_slice(&0x40u32.to_le_bytes());
        b[off + 16..off + 20].copy_from_slice(&0x80u32.to_le_bytes());
    }
    b
}

fn registry_with_buffer() -> IonBufferManager {
    let mut heap = IonHeapManager::new();
    let mut reg = IonBufferManager::new();
    let b = heap
        .alloc_buffer(
            4096,
            1,
            IonHeapType::DmaCoherent,
            IonFlags(0),
            Some(DmaInfo { cpu_addr: 0x1000_0000, bus_addr: 0x8000_0000 }),
        )
        .unwrap();
    reg.register_buffer(b).unwrap();
    reg
}

fn ready_device() -> TpuDevice {
    let mut dev = TpuDevice::from_vaddr(0x1_0000, 0x2_0000);
    dev.init().unwrap();
    dev
}

#[test]
fn header_magic_bytes() {
    let good = dmabuf(0xB5B5, &[], (0, 0));
    let h = DmaHeader::from_bytes(&good).unwrap();
    assert!(h.is_valid());
    assert_eq!(&good[0..2], &[0xB5, 0xB5]);
    assert_eq!(h.arraybase_3_l, 0x4000);
    let bad = dmabuf(0xB5B4, &[], (0, 0));
    assert!(!DmaHeader::from_bytes(&bad).unwrap().is_valid());
    assert!(DmaHeader::from_bytes(&good[..127]).is_none());
}

#[test]
fn pmu_validity() {
    let h = DmaHeader::from_bytes(&dmabuf(0xB5B5, &[], (0x100, 0x40))).unwrap();
    assert!(h.has_valid_pmu());
    let h = DmaHeader::from_bytes(&dmabuf(0xB5B5, &[], (0x104, 0x40))).unwrap();
    assert!(!h.has_valid_pmu());
    let h = DmaHeader::from_bytes(&dmabuf(0xB5B5, &[], (0, 0x40))).unwrap();
    assert!(!h.has_valid_pmu());
}

#[test]
fn descriptors_decode_in_bounds_only() {
    let b = dmabuf(0xB5B5, &[(3, 4)], (0, 0));
    let d = CpuSyncDesc::from_bytes(&b, 0).unwrap();
    assert_eq!((d.num_bd, d.num_gdma, d.offset_bd, d.offset_gdma), (3, 4, 0x40, 0x80));
    assert!(CpuSyncDesc::from_bytes(&b, 1).is_none());
}

#[test]
fn tdma_sequences() {
    let mut t = TdmaRegs::new(0x1_0000);
    assert_eq!(t.base(), 0x1_0000);
    t.reset_sync_id();
    assert_eq!(t.take_log(), vec![w(0, 4), w(0, 0), w(8, 0xFFFF_0000)]);
    t.fire_descriptor(0x1_2345_6789, 3);
    assert_eq!(
        t.take_log(),
        vec![w(4, 0x2345_6789), w(0xA0, 0), w(0xA4, 0), w(8, 0x20), w(0, 0x0003_2723)]
    );
    let h = DmaHeader::from_bytes(&dmabuf(0xB5B5, &[], (0, 0))).unwrap();
    t.set_array_bases(&h);
    let log = t.take_log();
    assert_eq!(log.len(), 10);
    assert_eq!(log[0], w(0x70, 0x1000));
    assert_eq!(log[7], w(0x8C, 0x8000));
    assert_eq!(log[8], w(0x90, 0));
    assert_eq!(log[9], w(0x94, 0));
    t.clear_interrupt();
    assert_eq!(t.take_log(), vec![w(8, 0xFFFF_0000)]);
    t.hw_set(TDMA_SYNC_STATUS, 0x0007_0000);
    assert_eq!(t.get_sync_tdma_id(), 7);
    t.hw_set(TDMA_INT_MASK, 0x8020_0000);
    assert_eq!(t.get_int_status(), 0x8000);
}

#[test]
fn tiu_sequences() {
    let mut t = TiuRegs::new(0x2_0000);
    t.fire_descriptor(0x1_2345_6789, 1);
    assert_eq!(
        t.take_log(),
        vec![
            w(0x104, 0x4567_8900),
            w(0x108, 0x23),
            w(0x10C, 0x800),
            w(0x100, 0x00C0_0000),
            w(0x100, 0xC0C0_0001),
        ]
    );
    t.reset_id();
    assert_eq!(
        t.take_log(),
        vec![w(0x10C, 0x801), w(0x10C, 0x800), w(0x100, 0x80C0_0000), w(0x100, 0x80C0_0002)]
    );
    // the acknowledge is write-one-to-clear: the flag ends up clear
    assert!(!t.is_bd_interrupt());
    t.hw_set(BD_CTRL0, (9 << 6) | 2);
    assert_eq!(t.get_current_bd_id(), 9);
    assert!(t.is_bd_interrupt());
    t.clear_bd_interrupt();
    assert_eq!(t.take_log(), vec![w(0x100, (9 << 6) | 2)]);
    assert_eq!(t.read_bd_ctrl(0), 9 << 6);
    // the id reset clears a stale command id
    t.reset_id();
    assert_eq!(t.get_current_bd_id(), 0);
}

#[test]
fn pmu_enable_and_disable() {
    let mut t = TdmaRegs::new(0);
    pmu_enable(&mut t, 0x8000_1000, 0x100, TpuPmuEvent::TdmaBandwidth);
    assert_eq!(
        t.take_log(),
        vec![w(0x20C, 0x0800_0100), w(0x210, 0x10), w(0x200, 0x759)]
    );
    pmu_disable(&mut t);
    assert_eq!(t.read(TPUPMU_CTRL), 0x758);
    pmu_disable(&mut t);
    assert_eq!(t.read(TPUPMU_CTRL) & 1, 0);
    assert_eq!(t.take_log(), vec![w(0x200, 0x758), w(0x200, 0x758)]);
}

#[test]
fn irq_handling() {
    let mut t = TdmaRegs::new(0);
    let tiu = TiuRegs::new(0x1000);
    let mut st = TpuRuntimeState::default();
    t.hw_set(TDMA_INT_MASK, 0x0021_0000);
    t.hw_set(TDMA_SYNC_STATUS, 0x0003_0000);
    assert!(!handle_tdma_irq(&mut t, &tiu, &mut st));
    assert!(st.irq_received);
    // the acknowledge cleared the status and the mask
    assert_eq!(st.reg_backup.tdma_int_mask, 0);
    assert_eq!(st.reg_backup.tdma_sync_status, 0x0003_0000);
    t.hw_set(TDMA_INT_MASK, 0x0004_0000);
    assert!(handle_tdma_irq(&mut t, &tiu, &mut st));
}

#[test]
fn spin_budget() {
    let mut s = SpinTimeout::new(20000);
    assert_eq!(s.wait_irq(), Ok(()));
    assert_eq!(s.count, 10001);
    assert_eq!(s.wait_irq(), Ok(()));
    assert_eq!(s.count, 10002);
    let mut s = SpinTimeout::new(100);
    assert_eq!(s.wait_irq(), Err(TpuError::Timeout));
    assert_eq!(s.count, 100);
    let mut s = SpinTimeout::new(2);
    assert!(!s.check());
    assert!(s.check());
}

#[test]
fn poll_until_done_or_timeout() {
    let st = TpuRuntimeState::default();
    let mut tiu = TiuRegs::new(0);
    tiu.hw_set(BD_CTRL0, (4 << 6) | 2);
    let mut timer = SpinTimeout::new(2);
    let node = CmdIdNode { bd_cmd_id: 4, tdma_cmd_id: 0 };
    assert_eq!(poll_cmdbuf_done(&mut tiu, &node, &st, &mut timer), Some(Ok(())));
    assert_eq!(tiu.take_log(), vec![w(0x100, (4 << 6) | 2)]);
    assert_eq!(tiu.read(BD_CTRL0), 4 << 6);
    assert_eq!(timer.count, 0);
    let node = CmdIdNode { bd_cmd_id: 5, tdma_cmd_id: 0 };
    tiu.hw_set(BD_CTRL0, (4 << 6) | 2);
    assert_eq!(poll_cmdbuf_done(&mut tiu, &node, &st, &mut timer), None);
    assert_eq!(timer.count, 1);
    assert_eq!(poll_cmdbuf_done(&mut tiu, &node, &st, &mut timer), Some(Err(TpuError::Timeout)));
    assert!(tiu.take_log().is_empty());
    let none = CmdIdNode { bd_cmd_id: 0, tdma_cmd_id: 3 };
    assert_eq!(poll_cmdbuf_done(&mut tiu, &none, &st, &mut timer), Some(Ok(())));
}

#[test]
fn stepped_run_reaches_hardware_in_order() {
    let mut tdma = TdmaRegs::new(0);
    let mut tiu = TiuRegs::new(0x1000);
    let mut st = TpuRuntimeState::default();
    let mut timer = SpinTimeout::new(100);
    let b = dmabuf(0xB5B5, &[(2, 3)], (0, 0));
    let mut run = DmabufRun::start(&mut tdma, &b, 0x8000_0000, &mut st).unwrap();
    assert_eq!(tdma.take_log().len(), 10);
    assert_eq!(run.phase, RunPhase::ResyncTiu(0));
    let mut order: Vec<(&str, usize)> = Vec::new();
    let mut waited = Ok(());
    let mut polls = 0;
    let result = loop {
        if run.phase == RunPhase::Poll(0) {
            polls += 1;
            if polls == 3 {
                // the engine reaches command 2 and raises its interrupt
                tiu.hw_set(BD_CTRL0, (2 << 6) | 2);
            }
        }
        let action = run.step(&mut tdma, &mut tiu, &b, &mut st, &mut timer, waited);
        let t = tiu.take_log();
        let d = tdma.take_log();
        assert!(t.is_empty() || d.is_empty());
        if !t.is_empty() {
            order.push(("tiu", t.len()));
        }
        if !d.is_empty() {
            order.push(("tdma", d.len()));
        }
        match action {
            RunAction::Continue => waited = Ok(()),
            RunAction::WaitIrq => waited = Ok(()),
            RunAction::Finished(r) => break r,
        }
    };
    assert_eq!(result, Ok(()));
    assert_eq!(polls, 3);
    assert_eq!(timer.count, 2);
    // resync TIU, resync TDMA, fire TIU, fire TDMA, acknowledge TIU
    assert_eq!(order, vec![("tiu", 4), ("tdma", 3), ("tiu", 5), ("tdma", 5), ("tiu", 1)]);
    // a finished run does nothing more
    assert!(matches!(
        run.step(&mut tdma, &mut tiu, &b, &mut st, &mut timer, Ok(())),
        RunAction::Finished(Ok(()))
    ));
    assert!(tdma.take_log().is_empty() && tiu.take_log().is_empty());
}

#[test]
fn failed_wait_stops_the_run() {
    let mut tdma = TdmaRegs::new(0);
    let mut tiu = TiuRegs::new(0x1000);
    let mut st = TpuRuntimeState::default();
    let mut timer = SpinTimeout::new(100);
    let b = dmabuf(0xB5B5, &[(0, 1), (0, 1)], (0, 0));
    let mut run = DmabufRun::start(&mut tdma, &b, 0x8000_0000, &mut st).unwrap();
    let mut waited = Ok(());
    let result = loop {
        match run.step(&mut tdma, &mut tiu, &b, &mut st, &mut timer, waited) {
            RunAction::Continue => waited = Ok(()),
            RunAction::WaitIrq => waited = Err(TpuError::Timeout),
            RunAction::Finished(r) => break r,
        }
    };
    assert_eq!(result, Err(TpuError::Timeout));
    // only the first descriptor was fired
    let log = tdma.take_log();
    assert_eq!(log.len(), 10 + 3 + 5);
}

#[test]
fn unaligned_buffer_touches_nothing() {
    let mut tdma = TdmaRegs::new(0);
    let mut tiu = TiuRegs::new(0x1000);
    let mut st = TpuRuntimeState::default();
    let mut timer = SpinTimeout::new(1000);
    let b = dmabuf(0xB5B5, &[(1, 1)], (0, 0));
    assert_eq!(
        run_dmabuf(&mut tdma, &mut tiu, &b, 0x8000_0010, &mut st, &mut timer),
        Err(TpuError::DmabufNotAligned)
    );
    assert!(tdma.take_log().is_empty());
    assert!(tiu.take_log().is_empty());
    assert_eq!(tdma.read(0x70), 0);
    let bad = dmabuf(0x1234, &[(1, 1)], (0, 0));
    assert_eq!(
        run_dmabuf(&mut tdma, &mut tiu, &bad, 0x8000_0000, &mut st, &mut timer),
        Err(TpuError::InvalidDmabuf)
    );
    assert!(tdma.take_log().is_empty());
}

#[test]
fn run_with_pmu_and_tdma() {
    let mut tdma = TdmaRegs::new(0);
    let mut tiu = TiuRegs::new(0x1000);
    let mut st = TpuRuntimeState::default();
    let mut timer = SpinTimeout::new(1_000_000);
    let b = dmabuf(0xB5B5, &[(0, 3)], (0x100, 0x40));
    assert_eq!(run_dmabuf(&mut tdma, &mut tiu, &b, 0x8000_0000, &mut st, &mut timer), Ok(()));
    let log = tdma.take_log();
    // array bases, PMU enable, sync reset, fire, PMU disable
    assert_eq!(log.len(), 10 + 3 + 3 + 5 + 1);
    assert_eq!(log[10], w(0x20C, 0x0800_0010));
    assert_eq!(log[12], w(0x200, 0x759));
    assert_eq!(log[20], w(0, 0x0003_2723));
    assert_eq!(log[21], w(0x200, 0x758));
    assert!(!st.irq_received);
    let truncated = &b[..200];
    let mut timer = SpinTimeout::new(1_000_000);
    assert_eq!(
        run_dmabuf(&mut tdma, &mut tiu, truncated, 0x8000_0000, &mut st, &mut timer),
        Err(TpuError::InvalidDmabuf)
    );
}

#[test]
fn bad_header_submission() {
    let reg = registry_with_buffer();
    let mut dev = ready_device();
    let mut buf = vec![0u8; 4096];
    buf[0..4].copy_from_slice(&0xDEAD_BEEFu32.to_le_bytes());
    let arg = CviSubmitDmaArg { fd: 3, seq_no: 7 };
    assert_eq!(dev.submit_dmabuf(&arg, Some(1), &reg, &buf), Ok(0));
    let mut wait = CviWaitDmaArg { seq_no: 7, ret: 0 };
    assert_eq!(dev.wait_dmabuf(&mut wait), Ok(0));
    assert_eq!(wait.ret, -1);
    assert_eq!(dev.state(), TpuState::Idle);
}

#[test]
fn timeout_submission() {
    let reg = registry_with_buffer();
    let mut dev = ready_device();
    dev.set_spin_limit(1000);
    // a command id left over from an earlier run does not count
    dev.tiu_hw_set(BD_CTRL0, (5 << 6) | 2);
    let buf = dmabuf(0xB5B5, &[(1, 0)], (0, 0));
    let arg = CviSubmitDmaArg { fd: 3, seq_no: 11 };
    assert_eq!(dev.submit_dmabuf(&arg, Some(1), &reg, &buf), Ok(0));
    assert_eq!(dev.state(), TpuState::Idle);
    let mut wait = CviWaitDmaArg { seq_no: 11, ret: 0 };
    assert_eq!(dev.wait_dmabuf(&mut wait), Ok(0));
    assert_eq!(wait.ret, -1);
}

#[test]
fn successful_submission_and_single_wait() {
    let reg = registry_with_buffer();
    let mut dev = ready_device();
    let buf = dmabuf(0xB5B5, &[(0, 0), (0, 2)], (0, 0));
    let arg = CviSubmitDmaArg { fd: 3, seq_no: 21 };
    assert_eq!(dev.submit_dmabuf(&arg, Some(1), &reg, &buf), Ok(0));
    let mut wait = CviWaitDmaArg { seq_no: 21, ret: 5 };
    assert_eq!(dev.wait_dmabuf(&mut wait), Ok(0));
    assert_eq!(wait.ret, 0);
    let mut again = CviWaitDmaArg { seq_no: 21, ret: 5 };
    assert_eq!(dev.wait_dmabuf(&mut again), Err(TpuError::NotInitialized));
    assert_eq!(again.ret, -1);
}

#[test]
fn stepped_device_run() {
    let reg = registry_with_buffer();
    let mut dev = ready_device();
    let buf = dmabuf(0xB5B5, &[(1, 0)], (0, 0));
    let arg = CviSubmitDmaArg { fd: 3, seq_no: 30 };
    let task = TpuDevice::prepare_task(&arg, Some(1), &reg).unwrap();
    let mut run = dev.begin_run(&task, &buf).unwrap();
    assert_eq!(dev.state(), TpuState::Running);
    let mut timer = SpinTimeout::new(100);
    let result = loop {
        if run.phase == RunPhase::Poll(0) {
            dev.tiu_hw_set(BD_CTRL0, (1 << 6) | 2);
        }
        match dev.step_run(&mut run, &buf, &mut timer, Ok(())) {
            RunAction::Finished(r) => break r,
            _ => {}
        }
    };
    assert_eq!(result, Ok(()));
    assert_eq!(dev.state(), TpuState::Idle);
    dev.finish_task(task, result);
    let mut wait = CviWaitDmaArg { seq_no: 30, ret: 9 };
    assert_eq!(dev.wait_dmabuf(&mut wait), Ok(0));
    assert_eq!(wait.ret, 0);
    let bad = dmabuf(0x0000, &[], (0, 0));
    assert!(dev.begin_run(&task, &bad).is_err());
    assert_eq!(dev.state(), TpuState::Idle);
}

#[test]
fn submission_needs_an_ion_buffer() {
    let reg = registry_with_buffer();
    let mut dev = ready_device();
    let arg = CviSubmitDmaArg { fd: 3, seq_no: 1 };
    assert_eq!(dev.submit_dmabuf(&arg, None, &reg, &[]), Err(TpuError::InvalidDmabuf));
    assert_eq!(dev.submit_dmabuf(&arg, Some(9), &reg, &[]), Err(TpuError::InvalidDmabuf));
    let mut wait = CviWaitDmaArg { seq_no: 1, ret: 0 };
    assert_eq!(dev.wait_dmabuf(&mut wait), Err(TpuError::NotInitialized));
    let task = TpuDevice::prepare_task(&arg, Some(1), &reg).unwrap();
    assert_eq!(task.dmabuf_vaddr, 0x1000_0000);
    assert_eq!(task.dmabuf_paddr, 0x8000_0000);
    assert_eq!(task.dmabuf_fd, 3);
}

#[test]
fn suspended_device_refuses_runs() {
    let reg = registry_with_buffer();
    let mut dev = ready_device();
    dev.suspend().unwrap();
    let buf = dmabuf(0xB5B5, &[], (0, 0));
    let arg = CviSubmitDmaArg { fd: 3, seq_no: 4 };
    assert_eq!(dev.submit_dmabuf(&arg, Some(1), &reg, &buf), Ok(0));
    assert_eq!(dev.state(), TpuState::Suspended);
    let mut wait = CviWaitDmaArg { seq_no: 4, ret: 0 };
    assert_eq!(dev.wait_dmabuf(&mut wait), Ok(0));
    assert_eq!(wait.ret, -1);
}

#[test]
fn suspend_resume() {
    let mut dev = TpuDevice::from_vaddr(0x1_0000, 0x2_0000);
    assert_eq!(dev.state(), TpuState::Uninitialized);
    assert_eq!(dev.suspend(), Err(TpuError::NotInitialized));
    assert_eq!(dev.init(), Ok(()));
    assert!(dev.is_ready());
    dev.tdma_hw_set(TDMA_CTRL, 0x55);
    assert_eq!(dev.suspend(), Ok(()));
    assert_eq!(dev.state(), TpuState::Suspended);
    assert_eq!(dev.suspend(), Ok(()));
    assert_eq!(dev.state(), TpuState::Suspended);
    assert_eq!(dev.resume(), Ok(()));
    assert_eq!(dev.state(), TpuState::Idle);
    assert_eq!(dev.tdma_regs().read(TDMA_CTRL), 0x55);
    assert_eq!(dev.resume(), Err(TpuError::NotInitialized));
    dev.reset();
    assert_eq!(dev.state(), TpuState::Idle);
}

#[test]
fn default_device_addresses() {
    let dev = TpuDevice::new();
    assert_eq!(dev.tdma_regs().base(), 0xffff_ffc0_0c10_0000u64 as usize);
    assert_eq!(dev.tiu_regs().base(), 0xffff_ffc0_0c10_1000u64 as usize);
    assert_eq!(dev.state(), TpuState::Uninitialized);
}

#[test]
fn ioctl_dispatch() {
    assert_eq!(CVITPU_SUBMIT_DMABUF, 0x4008_7001);
    assert_eq!(classify_ioctl(CVITPU_SUBMIT_DMABUF), TpuIoctl::SubmitDmabuf);
    assert_eq!(classify_ioctl(CVITPU_WAIT_DMABUF), TpuIoctl::WaitDmabuf);
    assert_eq!(classify_ioctl(CVITPU_LOAD_TEE), TpuIoctl::Tee);
    assert_eq!(classify_ioctl(0x1234), TpuIoctl::Unknown);
    assert_eq!(ioctl_result(Err(TpuError::Timeout)), Err(AxErrorKind::Unsupported));
    assert_eq!(ioctl_result(Ok(0)), Ok(0));
    assert_eq!(fixed_ioctl_result(TpuIoctl::PioMode), Some(Ok(0)));
    assert_eq!(fixed_ioctl_result(TpuIoctl::Tee), Some(Err(TpuError::NotInitialized)));
    assert_eq!(fixed_ioctl_result(TpuIoctl::Unknown), Some(Err(TpuError::NotInitialized)));
    assert_eq!(fixed_ioctl_result(TpuIoctl::SubmitDmabuf), None);
}

#[test]
fn flush_fd_lookup() {
    let reg = registry_with_buffer();
    let r = TpuDevice::dmabuf_fd_range(1, &reg).unwrap();
    assert_eq!((r.start, r.size), (0x8000_0000, 4096));
    assert!(TpuDevice::dmabuf_fd_range(4, &reg).is_none());
}

#[test]
fn errno_values() {
    assert_eq!(TpuError::Timeout.as_errno(), -110);
    assert_eq!(TpuError::InvalidDmabuf.as_errno(), -22);
    assert_eq!(TpuError::TdmaError(3).as_errno(), -5);
    assert_eq!(TpuError::TiuError(3).as_errno(), -5);
    assert_eq!(TpuError::NotInitialized.as_errno(), -19);
    assert_eq!(TpuError::Busy.as_errno(), -16);
    assert_eq!(TpuError::Interrupted.as_errno(), -4);
    assert_eq!(TpuError::PmuBufferNotAligned.as_errno(), -22);
    assert_eq!(TpuError::DmabufNotAligned.as_errno(), -22);
}

#[test]
fn tdma_descriptor_encoding() {
    let mut r = TdmaReg::new();
    assert_eq!(r.src_n, 1);
    assert_eq!(r.cmd_id, 0);
    r.vld = 1;
    r.cmd_id = 0x1_2345;
    r.layer_id = 0xABCD;
    r.src_base_addr_low = 0xDEAD_BEEF;
    let mut out = [0u32; 16];
    r.emit(&mut out);
    assert_eq!(out[0], 1 | (0x2345 << 16));
    assert_eq!(out[1], (1 << 3) | (1 << 5));
    assert_eq!(out[8], 1 | (1 << 16));
    assert_eq!(out[12], 0xDEAD_BEEF);
    assert_eq!(out[13], 1);
    assert_eq!(out[15], 0xABCD << 16);
    assert_eq!(TpuPmuEvent::TdmaWriteStrobe.code(), 3);
}

#[test]
fn interrupt_wait_looks() {
    let mut dev = ready_device();
    let mut timer = SpinTimeout::new(2);
    assert_eq!(dev.poll_irq(&mut timer), None);
    assert_eq!(timer.count, 1);
    dev.tdma_hw_set(TDMA_INT_MASK, 0x0001_0000);
    assert_eq!(dev.poll_irq(&mut timer), Some(Ok(())));
    assert!(dev.irq_received());
    assert_eq!(timer.count, 1);
    assert_eq!(dev.poll_irq(&mut timer), Some(Ok(())));
    let mut quiet = ready_device();
    let mut timer = SpinTimeout::new(1);
    assert_eq!(quiet.poll_irq(&mut timer), Some(Err(TpuError::Timeout)));
}

#[test]
fn runs_need_an_idle_device() {
    let reg = registry_with_buffer();
    let mut dev = TpuDevice::from_vaddr(0x1_0000, 0x2_0000);
    let buf = dmabuf(0xB5B5, &[], (0, 0));
    let arg = CviSubmitDmaArg { fd: 3, seq_no: 2 };
    let task = TpuDevice::prepare_task(&arg, Some(1), &reg).unwrap();
    assert!(matches!(dev.begin_run(&task, &buf), Err(TpuError::NotInitialized)));
    assert_eq!(dev.submit_dmabuf(&arg, Some(1), &reg, &buf), Ok(0));
    let mut wait = CviWaitDmaArg { seq_no: 2, ret: 0 };
    assert_eq!(dev.wait_dmabuf(&mut wait), Ok(0));
    assert_eq!(wait.ret, -1);
    dev.init().unwrap();
    assert_eq!(dev.submit_dmabuf(&arg, Some(1), &reg, &buf), Ok(0));
    let mut wait = CviWaitDmaArg { seq_no: 2, ret: 7 };
    assert_eq!(dev.wait_dmabuf(&mut wait), Ok(0));
    assert_eq!(wait.ret, 0);
}

#[test]
fn empty_run_loads_array_bases_only() {
    let mut tdma = TdmaRegs::new(0);
    let mut tiu = TiuRegs::new(0x1000);
    let mut st = TpuRuntimeState::default();
    let mut timer = SpinTimeout::new(10);
    let b = dmabuf(0xB5B5, &[], (0, 0));
    assert_eq!(run_dmabuf(&mut tdma, &mut tiu, &b, 0x8000_0000, &mut st, &mut timer), Ok(()));
    let log = tdma.take_log();
    assert_eq!(log.len(), 10);
    assert_eq!(log[9], w(0x94, 0));
    assert!(tiu.take_log().is_empty());
    assert_eq!(timer.count, 0);
}
