//! The TPU device: lifecycle state, the submit/wait queues and the ioctl
//! decisions. Callers serialize access (the device is used under one lock).

use vstd::prelude::*;
use std::collections::VecDeque;
use axerrno::AxErrorKind;
use crate::ion_buffer::IonBufferManager;
use crate::ion_file::PhysRange;
use crate::ion_types::IonHandle;
use crate::platform::{
    backup_matches, dmabuf_header_ok, handle_tdma_irq, resync_cmd_id, restore_registers,

    restore_tdma_writes, run_dmabuf, tdma_status_is_error, zero_backup, backup_registers,
    desc_bd_num, run_prologue_writes, run_succeeds_on, run_tdma_writes, start_phase, step_effect, DmabufRun, RunAction, SpinTimeout,
    TpuRegBackup, TpuRuntimeState, DEFAULT_SPIN_LIMIT,
};
use crate::regs::{wr, RegWrite};
use crate::tdma::{
    lemma_tdma_wrote_trans, tdma_clear_interrupt_writes, tdma_int_status,
    tdma_reset_sync_id_writes, TdmaRegs, TDMA_INT_MASK, TDMA_SYNC_STATUS,
};
use crate::tiu::{tiu_reset_id_writes, TiuRegs, BD_CTRL0};
use crate::tpu_error::TpuError;
use crate::tpu_types::{header_matches, le_u32, DmaHeader, TDMA_PHYS_BASE, TIU_PHYS_BASE};

verus! {

/// Lifecycle state of the device.
#[derive(Debug, Clone, Copy, PartialEq, Eq, Structural)]
pub enum TpuState {
    Uninitialized,
    Idle,
    Running,
    Suspended,
}

/// How a task is submitted.
#[derive(Debug, Clone, Copy, PartialEq, Eq, Structural)]
pub enum TpuSubmitPath {
    /// Ordinary descriptor mode.
    DesNormal,
}

/// One submitted command buffer.
#[derive(Debug, Clone, Copy, PartialEq, Eq, Structural)]
pub struct TpuTaskNode {
    /// Submitting process (not tracked; always 0).
    pub pid: u32,
    pub seq_no: u32,
    pub dmabuf_fd: i32,
    pub dmabuf_vaddr: usize,
    pub dmabuf_paddr: u64,
    pub tpu_path: TpuSubmitPath,
    /// 0 when the run succeeded, -1 otherwise.
    pub ret: i32,
}

/// Pending and completed tasks, both in FIFO order.
pub struct TpuKernelWork {
    pub task_list: VecDeque<TpuTaskNode>,
    pub done_list: VecDeque<TpuTaskNode>,
}

impl Default for TpuKernelWork {
    fn default() -> (r: Self)
        ensures
            r.task_list@ == Seq::<TpuTaskNode>::empty(),
            r.done_list@ == Seq::<TpuTaskNode>::empty(),
    {
        TpuKernelWork { task_list: VecDeque::new(), done_list: VecDeque::new() }
    }
}

/// SUBMIT_DMABUF argument.
#[derive(Debug, Clone, Copy, PartialEq, Eq, Structural)]
pub struct CviSubmitDmaArg {
    pub fd: i32,
    pub seq_no: u32,
}

/// WAIT_DMABUF argument.
#[derive(Debug, Clone, Copy, PartialEq, Eq, Structural)]
pub struct CviWaitDmaArg {
    pub seq_no: u32,
    /// Out: result of the task.
    pub ret: i32,
}

/// Cache maintenance argument.
#[derive(Debug, Clone, Copy, PartialEq, Eq, Structural)]
pub struct CviCacheOpArg {
    pub paddr: u64,
    pub size: u64,
    pub dma_fd: i32,
}

/// TPU ioctl magic, `'p'`; every argument is passed as a 64-bit word.
pub const CVITPU_IOC_MAGIC: u32 = 0x70;

pub const CVITPU_SUBMIT_DMABUF: u32 = (1 << 30) | (CVITPU_IOC_MAGIC << 8) | 0x01 | (8 << 16);
pub const CVITPU_DMABUF_FLUSH_FD: u32 = (1 << 30) | (CVITPU_IOC_MAGIC << 8) | 0x02 | (8 << 16);
pub const CVITPU_DMABUF_INVLD_FD: u32 = (1 << 30) | (CVITPU_IOC_MAGIC << 8) | 0x03 | (8 << 16);
pub const CVITPU_DMABUF_FLUSH: u32 = (1 << 30) | (CVITPU_IOC_MAGIC << 8) | 0x04 | (8 << 16);
pub const CVITPU_DMABUF_INVLD: u32 = (1 << 30) | (CVITPU_IOC_MAGIC << 8) | 0x05 | (8 << 16);
pub const CVITPU_WAIT_DMABUF: u32 = (3 << 30) | (CVITPU_IOC_MAGIC << 8) | 0x06 | (8 << 16);
pub const CVITPU_PIO_MODE: u32 = (1 << 30) | (CVITPU_IOC_MAGIC << 8) | 0x07 | (8 << 16);
pub const CVITPU_LOAD_TEE: u32 = (3 << 30) | (CVITPU_IOC_MAGIC << 8) | 0x08 | (8 << 16);
pub const CVITPU_SUBMIT_TEE: u32 = (1 << 30) | (CVITPU_IOC_MAGIC << 8) | 0x09 | (8 << 16);
pub const CVITPU_UNLOAD_TEE: u32 = (1 << 30) | (CVITPU_IOC_MAGIC << 8) | 0x0A | (8 << 16);

/// What a TPU ioctl command asks for.
#[derive(Debug, Clone, Copy, PartialEq, Eq, Structural)]
pub enum TpuIoctl {
    SubmitDmabuf,
    DmabufFlushFd,
    DmabufInvldFd,
    DmabufFlush,
    DmabufInvld,
    WaitDmabuf,
    PioMode,
    Tee,
    Unknown,
}

pub open spec fn tpu_ioctl_of(cmd: u32) -> TpuIoctl {
    if cmd == CVITPU_SUBMIT_DMABUF {
        TpuIoctl::SubmitDmabuf
    } else if cmd == CVITPU_DMABUF_FLUSH_FD {
        TpuIoctl::DmabufFlushFd
    } else if cmd == CVITPU_DMABUF_INVLD_FD {
        TpuIoctl::DmabufInvldFd
    } else if cmd == CVITPU_DMABUF_FLUSH {
        TpuIoctl::DmabufFlush
    } else if cmd == CVITPU_DMABUF_INVLD {
        TpuIoctl::DmabufInvld
    } else if cmd == CVITPU_WAIT_DMABUF {
        TpuIoctl::WaitDmabuf
    } else if cmd == CVITPU_PIO_MODE {
        TpuIoctl::PioMode
    } else if cmd == CVITPU_LOAD_TEE || cmd == CVITPU_SUBMIT_TEE || cmd == CVITPU_UNLOAD_TEE {
        TpuIoctl::Tee
    } else {
        TpuIoctl::Unknown
    }
}

/// Decodes a TPU ioctl command number.
pub fn classify_ioctl(cmd: u32) -> (r: TpuIoctl)
    ensures
        r == tpu_ioctl_of(cmd),
{
    if cmd == CVITPU_SUBMIT_DMABUF {
        TpuIoctl::SubmitDmabuf
    } else if cmd == CVITPU_DMABUF_FLUSH_FD {
        TpuIoctl::DmabufFlushFd
    } else if cmd == CVITPU_DMABUF_INVLD_FD {
        TpuIoctl::DmabufInvldFd
    } else if cmd == CVITPU_DMABUF_FLUSH {
        TpuIoctl::DmabufFlush
    } else if cmd == CVITPU_DMABUF_INVLD {
        TpuIoctl::DmabufInvld
    } else if cmd == CVITPU_WAIT_DMABUF {
        TpuIoctl::WaitDmabuf
    } else if cmd == CVITPU_PIO_MODE {
        TpuIoctl::PioMode
    } else if cmd == CVITPU_LOAD_TEE || cmd == CVITPU_SUBMIT_TEE || cmd == CVITPU_UNLOAD_TEE {
        TpuIoctl::Tee
    } else {
        TpuIoctl::Unknown
    }
}

/// The kernel error an ioctl reports: every TPU error is `Unsupported`.
pub fn ioctl_error_kind(e: TpuError) -> (r: AxErrorKind)
    ensures
        r == AxErrorKind::Unsupported,
{
    AxErrorKind::Unsupported
}

/// The result an ioctl reports, with errors translated.
pub fn ioctl_result(r: Result<usize, TpuError>) -> (out: Result<usize, AxErrorKind>)
    ensures
        r is Ok ==> out == Ok::<usize, AxErrorKind>(r->Ok_0),
        r is Err ==> out == Err::<usize, AxErrorKind>(AxErrorKind::Unsupported),
{
    match r {
        Ok(v) => Ok(v),
        Err(e) => Err(ioctl_error_kind(e)),
    }
}

/// The result of the commands decided without touching the device:
/// PIO_MODE succeeds with 0, the TEE commands and unknown commands fail
/// with `NotInitialized`. `None` for the commands the device carries out.
pub fn fixed_ioctl_result(kind: TpuIoctl) -> (r: Option<Result<usize, TpuError>>)
    ensures
        kind == TpuIoctl::PioMode ==> r == Some(Ok::<usize, TpuError>(0)),
        kind == TpuIoctl::Tee || kind == TpuIoctl::Unknown ==> r == Some(
            Err::<usize, TpuError>(TpuError::NotInitialized),
        ),
        kind != TpuIoctl::PioMode && kind != TpuIoctl::Tee && kind != TpuIoctl::Unknown ==> r
            is None,
{
    match kind {
        TpuIoctl::PioMode => Some(Ok(0)),
        TpuIoctl::Tee | TpuIoctl::Unknown => Some(Err(TpuError::NotInitialized)),
        _ => None,
    }
}

/// Offset of the kernel's linear mapping of physical memory.
pub const TPU_VIRT_OFFSET: u64 = 0xffff_ffc0_0000_0000;

/// A run may start from these states.
pub open spec fn state_accepts_run(s: TpuState) -> bool {
    s == TpuState::Idle
}

/// `i` is the first entry of `done` with sequence number `seq`.
pub open spec fn first_with_seq(done: Seq<TpuTaskNode>, seq: u32, i: int) -> bool {
    &&& 0 <= i < done.len()
    &&& done[i].seq_no == seq
    &&& forall|j: int| 0 <= j < i ==> (#[trigger] done[j]).seq_no != seq
}

pub open spec fn has_seq(done: Seq<TpuTaskNode>, seq: u32) -> bool {
    exists|i: int| 0 <= i < done.len() && (#[trigger] done[i]).seq_no == seq
}

/// When exactly one completed task has sequence number `seq`, the wait that
/// takes it leaves none behind: a second wait for `seq` fails.
pub proof fn lemma_wait_once(done: Seq<TpuTaskNode>, seq: u32, i: int)
    requires
        first_with_seq(done, seq, i),
        forall|j: int| 0 <= j < done.len() && j != i ==> (#[trigger] done[j]).seq_no != seq,
    ensures
        !has_seq(done.remove(i), seq),
{
    let rest = done.remove(i);
    assert forall|k: int| 0 <= k < rest.len() implies (#[trigger] rest[k]).seq_no != seq by {
        if k < i {
            assert(rest[k] == done[k]);
        } else {
            assert(rest[k] == done[k + 1]);
        }
    }
}

/// The TPU device.
pub struct TpuDevice {
    tdma: TdmaRegs,
    tiu: TiuRegs,
    state: TpuState,
    runtime: TpuRuntimeState,
    kernel_work: TpuKernelWork,
    spin_limit: u64,
}

/// What running `task` did to the device, `out` being the task as it went
/// to the done list.
pub open spec fn run_outcome(
    before: TpuDevice,
    after: TpuDevice,
    task: TpuTaskNode,
    out: TpuTaskNode,
    b: Seq<u8>,
) -> bool {
    &&& out == (TpuTaskNode { ret: out.ret, ..task })
    &&& out.ret == 0 || out.ret == -1
    &&& after.spin_limit() == before.spin_limit()
    &&& after.runtime().reg_backup == before.runtime().reg_backup
    &&& after.tdma().base_addr() == before.tdma().base_addr()
    &&& after.tiu().base_addr() == before.tiu().base_addr()
    &&& state_accepts_run(before.tpu_state()) ==> after.tpu_state() == TpuState::Idle
    &&& !state_accepts_run(before.tpu_state()) ==> after.tpu_state() == before.tpu_state()
        && out.ret == -1
    &&& !dmabuf_header_ok(b) ==> out.ret == -1
    &&& dmabuf_header_ok(b) && task.dmabuf_paddr & 0xFFF != 0 ==> out.ret == -1
    // run to its end here, a descriptor that asks for TIU commands times out
    &&& out.ret == 0 ==> forall|k: int|
        0 <= k < le_u32(b, 8) ==> #[trigger] desc_bd_num(b, k) == 0
    // a completed run issued the resync and then every TDMA write of the run
    &&& out.ret == 0 ==> forall|h: DmaHeader|
        #[trigger] header_matches(h, b) ==> after.tdma().wrote(
            before.tdma(),
            tdma_reset_sync_id_writes() + run_tdma_writes(b, h, task.dmabuf_paddr),
        )
    // and one is owed on an idle device when the run can complete
    &&& state_accepts_run(before.tpu_state()) ==> forall|h: DmaHeader|
        #[trigger] header_matches(h, b) && run_succeeds_on(
            b,
            h,
            task.dmabuf_paddr,
            0,
            before.spin_limit(),
        ) ==> out.ret == 0
    // a run refused before it starts issues only the command-id resync
    &&& !state_accepts_run(before.tpu_state()) || !dmabuf_header_ok(b) || task.dmabuf_paddr
        & 0xFFF != 0 ==> after.tdma().wrote(before.tdma(), tdma_reset_sync_id_writes())
        && after.tiu().wrote(before.tiu(), tiu_reset_id_writes(before.tiu().bank().words()))
}

impl TpuDevice {
    pub closed spec fn tdma(&self) -> TdmaRegs {
        self.tdma
    }

    pub closed spec fn tiu(&self) -> TiuRegs {
        self.tiu
    }

    pub closed spec fn tpu_state(&self) -> TpuState {
        self.state
    }

    pub closed spec fn runtime(&self) -> TpuRuntimeState {
        self.runtime
    }

    /// Completed tasks, oldest first.
    pub closed spec fn done(&self) -> Seq<TpuTaskNode> {
        self.kernel_work.done_list@
    }

    pub closed spec fn pending(&self) -> Seq<TpuTaskNode> {
        self.kernel_work.task_list@
    }

    pub closed spec fn spin_limit(&self) -> u64 {
        self.spin_limit
    }

    pub open spec fn wf(&self) -> bool {
        &&& self.tdma().wf()
        &&& self.tiu().wf()
        &&& self.pending().len() == 0
    }

    /// A device whose banks sit at `tdma_vaddr` and `tiu_vaddr`.
    pub fn from_vaddr(tdma_vaddr: usize, tiu_vaddr: usize) -> (r: TpuDevice)
        ensures
            r.wf(),
            r.tpu_state() == TpuState::Uninitialized,
            r.tdma().base_addr() == tdma_vaddr,
            r.tiu().base_addr() == tiu_vaddr,
            r.done() == Seq::<TpuTaskNode>::empty(),
            r.spin_limit() == DEFAULT_SPIN_LIMIT,
            r.runtime().irq_received == false,
            r.runtime().reg_backup == zero_backup(),
    {
        TpuDevice {
            tdma: TdmaRegs::new(tdma_vaddr),
            tiu: TiuRegs::new(tiu_vaddr),
            state: TpuState::Uninitialized,
            runtime: TpuRuntimeState::default(),
            kernel_work: TpuKernelWork::default(),
            spin_limit: DEFAULT_SPIN_LIMIT,
        }
    }

    /// A device at the SoC's fixed register addresses, seen through the
    /// kernel's linear mapping.
    pub fn new() -> (r: TpuDevice)
        ensures
            r.wf(),
            r.tpu_state() == TpuState::Uninitialized,
            r.tdma().base_addr() == (TPU_VIRT_OFFSET + TDMA_PHYS_BASE) as usize,
            r.tiu().base_addr() == (TPU_VIRT_OFFSET + TIU_PHYS_BASE) as usize,
            r.done() == Seq::<TpuTaskNode>::empty(),
            r.spin_limit() == DEFAULT_SPIN_LIMIT,
    {
        let tdma_vaddr = #[verifier::truncate] ((TPU_VIRT_OFFSET + TDMA_PHYS_BASE as u64) as usize);
        let tiu_vaddr = #[verifier::truncate] ((TPU_VIRT_OFFSET + TIU_PHYS_BASE as u64) as usize);
        TpuDevice::from_vaddr(tdma_vaddr, tiu_vaddr)
    }

    /// Sets the busy-wait budget of each run.
    pub fn set_spin_limit(&mut self, limit: u64)
        ensures
            final(self).spin_limit() == limit,
            final(self).tdma() == old(self).tdma(),
            final(self).tiu() == old(self).tiu(),
            final(self).tpu_state() == old(self).tpu_state(),
            final(self).runtime() == old(self).runtime(),
            final(self).done() == old(self).done(),
            final(self).pending() == old(self).pending(),
    {
        self.spin_limit = limit;
    }

    /// Probes the device: resynchronizes command ids, clears the runtime
    /// state and makes the device idle.
    pub fn init(&mut self) -> (r: Result<(), TpuError>)
        requires
            old(self).wf(),
        ensures
            final(self).wf(),
            r is Ok,
            final(self).tpu_state() == TpuState::Idle,
            final(self).runtime().irq_received == false,
            final(self).runtime().reg_backup == zero_backup(),
            final(self).tiu().wrote(old(self).tiu(), tiu_reset_id_writes(old(self).tiu().bank().words())),
            final(self).tdma().wrote(old(self).tdma(), tdma_reset_sync_id_writes()),
            final(self).done() == old(self).done(),
            final(self).spin_limit() == old(self).spin_limit(),
    {
        resync_cmd_id(&mut self.tdma, &mut self.tiu);
        self.state = TpuState::Idle;
        self.runtime = TpuRuntimeState::default();
        Ok(())
    }

    pub fn state(&self) -> (r: TpuState)
        ensures
            r == self.tpu_state(),
    {
        self.state
    }

    /// Whether the device is idle.
    pub fn is_ready(&self) -> (r: bool)
        ensures
            r == (self.tpu_state() == TpuState::Idle),
    {
        self.state == TpuState::Idle
    }

    /// The TDMA bank.
    pub fn tdma_regs(&self) -> (r: &TdmaRegs)
        ensures
            *r == self.tdma(),
    {
        &self.tdma
    }

    /// The TIU bank.
    pub fn tiu_regs(&self) -> (r: &TiuRegs)
        ensures
            *r == self.tiu(),
    {
        &self.tiu
    }

    /// Hands out the TDMA and TIU writes issued so far and forgets them.
    pub fn take_logs(&mut self) -> (r: (Vec<RegWrite>, Vec<RegWrite>))
        requires
            old(self).wf(),
        ensures
            final(self).wf(),
            r.0@ == old(self).tdma().bank().log(),
            r.1@ == old(self).tiu().bank().log(),
            final(self).tdma().bank().log() == Seq::<RegWrite>::empty(),
            final(self).tiu().bank().log() == Seq::<RegWrite>::empty(),
            final(self).tdma().bank().words() == old(self).tdma().bank().words(),
            final(self).tiu().bank().words() == old(self).tiu().bank().words(),
            final(self).tpu_state() == old(self).tpu_state(),
            final(self).done() == old(self).done(),
    {
        let tdma = self.tdma.take_log();
        let tiu = self.tiu.take_log();
        (tdma, tiu)
    }

    /// Records a change the engine made to a TDMA register.
    pub fn tdma_hw_set(&mut self, offset: usize, value: u32)
        requires
            old(self).wf(),
            crate::regs::reg_offset_ok(offset),
        ensures
            final(self).wf(),
            final(self).tdma().bank().words() == old(self).tdma().bank().words().update(
                offset as int / 4,
                value,
            ),
            final(self).tdma().bank().log() == old(self).tdma().bank().log(),
            final(self).tiu() == old(self).tiu(),
            final(self).tpu_state() == old(self).tpu_state(),
            final(self).done() == old(self).done(),
    {
        self.tdma.hw_set(offset, value);
    }

    /// Records a change the engine made to a TIU register.
    pub fn tiu_hw_set(&mut self, offset: usize, value: u32)
        requires
            old(self).wf(),
            crate::regs::reg_offset_ok(offset),
        ensures
            final(self).wf(),
            final(self).tiu().bank().words() == old(self).tiu().bank().words().update(
                offset as int / 4,
                value,
            ),
            final(self).tiu().bank().log() == old(self).tiu().bank().log(),
            final(self).tdma() == old(self).tdma(),
            final(self).tpu_state() == old(self).tpu_state(),
            final(self).done() == old(self).done(),
    {
        self.tiu.hw_set(offset, value);
    }

    /// Handles the TDMA interrupt; returns whether its status reports an
    /// error.
    pub fn handle_irq(&mut self) -> (r: bool)
        requires
            old(self).wf(),
        ensures
            final(self).wf(),
            r == tdma_status_is_error(tdma_int_status(old(self).tdma().word(TDMA_INT_MASK))),
            final(self).tdma().wrote(old(self).tdma(), tdma_clear_interrupt_writes()),
            final(self).runtime().irq_received,
            final(self).runtime().reg_backup == (TpuRegBackup {
                tdma_int_mask: 0,
                tdma_sync_status: old(self).tdma().word(TDMA_SYNC_STATUS),
                tiu_ctrl_base_address: old(self).tiu().word(BD_CTRL0),
                ..old(self).runtime().reg_backup
            }),
            final(self).tiu() == old(self).tiu(),
            final(self).tpu_state() == old(self).tpu_state(),
            final(self).done() == old(self).done(),
    {
        handle_tdma_irq(&mut self.tdma, &self.tiu, &mut self.runtime)
    }

    /// Resolves a submission: `ion_handle` is the handle of the ION buffer
    /// file behind the argument's descriptor (`None` when the descriptor is
    /// not such a file). `InvalidDmabuf` when there is no such buffer.
    pub fn prepare_task(
        arg: &CviSubmitDmaArg,
        ion_handle: Option<u32>,
        registry: &IonBufferManager,
    ) -> (r: Result<TpuTaskNode, TpuError>)
        ensures
            ion_handle is None ==> r == Err::<TpuTaskNode, TpuError>(TpuError::InvalidDmabuf),
            ion_handle is Some && !registry.buffers().contains_key(ion_handle->0) ==> r == Err::<
                TpuTaskNode,
                TpuError,
            >(TpuError::InvalidDmabuf),
            ion_handle is Some && registry.buffers().contains_key(ion_handle->0) ==> {
                let b = registry.buffers()[ion_handle->0];
                r == Ok::<TpuTaskNode, TpuError>(
                    TpuTaskNode {
                        pid: 0,
                        seq_no: arg.seq_no,
                        dmabuf_fd: arg.fd,
                        dmabuf_vaddr: b.dma_info.cpu_addr,
                        dmabuf_paddr: b.dma_info.bus_addr,
                        tpu_path: TpuSubmitPath::DesNormal,
                        ret: 0,
                    },
                )
            },
    {
        let handle = match ion_handle {
            Some(h) => h,
            None => {
                return Err(TpuError::InvalidDmabuf);
            },
        };
        let buffer = match registry.get_buffer(IonHandle(handle)) {
            Ok(b) => b,
            Err(_) => {
                return Err(TpuError::InvalidDmabuf);
            },
        };
        Ok(
            TpuTaskNode {
                pid: 0,
                seq_no: arg.seq_no,
                dmabuf_fd: arg.fd,
                dmabuf_vaddr: buffer.dma_info.cpu_addr,
                dmabuf_paddr: buffer.dma_info.bus_addr,
                tpu_path: TpuSubmitPath::DesNormal,
                ret: 0,
            },
        )
    }

    /// Runs the command buffer `dmabuf` at `dmabuf_paddr` with a fresh spin
    /// budget. Only an idle or not yet initialized device runs; it is
    /// `Running` meanwhile and idle afterwards.
    fn run_dmabuf_internal(&mut self, dmabuf: &[u8], dmabuf_paddr: u64) -> (r: Result<(), TpuError>)
        requires
            old(self).wf(),
        ensures
            final(self).wf(),
            final(self).spin_limit() == old(self).spin_limit(),
            final(self).done() == old(self).done(),
            final(self).runtime().reg_backup == old(self).runtime().reg_backup,
            final(self).tdma().base_addr() == old(self).tdma().base_addr(),
            final(self).tiu().base_addr() == old(self).tiu().base_addr(),
            !state_accepts_run(old(self).tpu_state()) ==> r == Err::<(), TpuError>(
                TpuError::NotInitialized,
            ) && final(self).tpu_state() == old(self).tpu_state(),
            state_accepts_run(old(self).tpu_state()) ==> final(self).tpu_state() == TpuState::Idle,
            !dmabuf_header_ok(dmabuf@) || dmabuf_paddr & 0xFFF != 0
                || !state_accepts_run(old(self).tpu_state()) ==> r is Err && final(self).tdma()
                == old(self).tdma() && final(self).tiu() == old(self).tiu(),
            r is Ok ==> forall|k: int|
                0 <= k < le_u32(dmabuf@, 8) ==> #[trigger] desc_bd_num(dmabuf@, k) == 0,
            r is Ok ==> forall|h: DmaHeader|
                #[trigger] header_matches(h, dmabuf@) ==> final(self).tdma().wrote(
                    old(self).tdma(),
                    run_tdma_writes(dmabuf@, h, dmabuf_paddr),
                ),
            state_accepts_run(old(self).tpu_state()) ==> forall|h: DmaHeader|
                #[trigger] header_matches(h, dmabuf@) && run_succeeds_on(
                    dmabuf@,
                    h,
                    dmabuf_paddr,
                    0,
                    old(self).spin_limit(),
                ) ==> r is Ok,
    {
        if self.state != TpuState::Idle {
            return Err(TpuError::NotInitialized);
        }
        self.state = TpuState::Running;
        let mut timer = SpinTimeout::new(self.spin_limit);
        let result = run_dmabuf(
            &mut self.tdma,
            &mut self.tiu,
            dmabuf,
            dmabuf_paddr,
            &mut self.runtime,
            &mut timer,
        );
        self.state = TpuState::Idle;
        result
    }

    /// Runs one task popped from the queue and returns it with its result.
    fn run_task(&mut self, task: TpuTaskNode, dmabuf: &[u8]) -> (out: TpuTaskNode)
        requires
            old(self).wf(),
        ensures
            final(self).wf(),
            final(self).done() == old(self).done(),
            run_outcome(*old(self), *final(self), task, out, dmabuf@),
    {
        let ghost d0 = *self;
        resync_cmd_id(&mut self.tdma, &mut self.tiu);
        self.runtime.irq_received = false;
        let ghost d1 = *self;
        let result = self.run_dmabuf_internal(dmabuf, task.dmabuf_paddr);
        let mut out = task;
        out.ret = match result {
            Ok(()) => 0,
            Err(_) => -1,
        };
        proof {
            if out.ret == 0 {
                assert forall|h: DmaHeader| #[trigger] header_matches(h, dmabuf@) implies self.tdma().wrote(
                    d0.tdma(),
                    tdma_reset_sync_id_writes() + run_tdma_writes(dmabuf@, h, task.dmabuf_paddr),
                ) by {
                    lemma_tdma_wrote_trans(d0.tdma(), d1.tdma(), self.tdma(), tdma_reset_sync_id_writes(), run_tdma_writes(dmabuf@, h, task.dmabuf_paddr));
                }
            }
        }
        out
    }

    /// Runs every queued task in order and moves each, with its result, to
    /// the done list.
    fn process_task_locked(&mut self, dmabuf: &[u8])
        requires
            old(self).tdma().wf(),
            old(self).tiu().wf(),
            old(self).pending().len() == 1,
        ensures
            final(self).wf(),
            exists|out: TpuTaskNode|
                #![auto]
                final(self).done() == old(self).done().push(out) && run_outcome(
                    *old(self),
                    *final(self),
                    old(self).pending()[0],
                    out,
                    dmabuf@,
                ),
    {
        let ghost first = self.kernel_work.task_list@[0];
        let ghost before = *self;
        let ghost mut out: TpuTaskNode = first;
        let ghost mut ran = false;
        loop
            invariant
                self.tdma().wf(),
                self.tiu().wf(),
                before.pending().len() == 1,
                before.pending()[0] == first,
                !ran ==> *self == before,
                ran ==> self.pending().len() == 0 && self.done() == before.done().push(out)
                    && run_outcome(before, *self, first, out, dmabuf@),
                before == *old(self),
            ensures
                self.tdma().wf(),
                self.tiu().wf(),
                before == *old(self),
                self.pending().len() == 0,
                self.done() == before.done().push(out),
                run_outcome(before, *self, first, out, dmabuf@),
            decreases self.kernel_work.task_list@.len(),
        {
            let ghost at_pop = *self;
            let task = match self.kernel_work.task_list.pop_front() {
                Some(t) => t,
                None => {
                    proof {
                        if !ran {
                            assert(at_pop.pending().len() == 1);
                        }
                    }
                    break;
                },
            };
            let ghost popped = *self;
            let finished = self.run_task(task, dmabuf);
            self.kernel_work.done_list.push_back(finished);
            proof {
                assert(!ran);
                assert(popped.tdma() == before.tdma() && popped.tiu() == before.tiu()
                    && popped.tpu_state() == before.tpu_state() && popped.runtime() == before.runtime()
                    && popped.spin_limit() == before.spin_limit());
                out = finished;
                ran = true;
            }
        }
    }

    /// Queues `task` and runs it at once on the command buffer `dmabuf`
    /// (the contents of its ION buffer). The task lands on the done list
    /// with `ret` 0 when the run succeeded and -1 otherwise.
    pub fn submit_task(&mut self, task: TpuTaskNode, dmabuf: &[u8]) -> (r: Result<usize, TpuError>)
        requires
            old(self).wf(),
        ensures
            final(self).wf(),
            r == Ok::<usize, TpuError>(0),
            exists|out: TpuTaskNode|
                #![auto]
                final(self).done() == old(self).done().push(out) && run_outcome(
                    *old(self),
                    *final(self),
                    task,
                    out,
                    dmabuf@,
                ),
    {
        let ghost start = *self;
        self.kernel_work.task_list.push_back(task);
        let ghost pushed = *self;
        self.process_task_locked(dmabuf);
        proof {
            assert(pushed.pending() =~= seq![task]);
            assert(pushed.tdma() == start.tdma() && pushed.tiu() == start.tiu() && pushed.tpu_state()
                == start.tpu_state() && pushed.runtime() == start.runtime() && pushed.spin_limit()
                == start.spin_limit() && pushed.done() == start.done());
        }
        Ok(0)
    }

    /// SUBMIT_DMABUF: resolves the buffer, then queues and runs the task.
    /// `InvalidDmabuf`, with nothing queued, when the descriptor does not
    /// name a registered ION buffer.
    pub fn submit_dmabuf(
        &mut self,
        arg: &CviSubmitDmaArg,
        ion_handle: Option<u32>,
        registry: &IonBufferManager,
        dmabuf: &[u8],
    ) -> (r: Result<usize, TpuError>)
        requires
            old(self).wf(),
        ensures
            final(self).wf(),
            ion_handle is None || !registry.buffers().contains_key(ion_handle->0) ==> r == Err::<
                usize,
                TpuError,
            >(TpuError::InvalidDmabuf) && *final(self) == *old(self),
            ion_handle is Some && registry.buffers().contains_key(ion_handle->0) ==> {
                let b = registry.buffers()[ion_handle->0];
                let task = TpuTaskNode {
                    pid: 0,
                    seq_no: arg.seq_no,
                    dmabuf_fd: arg.fd,
                    dmabuf_vaddr: b.dma_info.cpu_addr,
                    dmabuf_paddr: b.dma_info.bus_addr,
                    tpu_path: TpuSubmitPath::DesNormal,
                    ret: 0,
                };
                &&& r == Ok::<usize, TpuError>(0)
                &&& exists|out: TpuTaskNode|
                    #![auto]
                    final(self).done() == old(self).done().push(out) && run_outcome(
                        *old(self),
                        *final(self),
                        task,
                        out,
                        dmabuf@,
                    )
            },
    {
        let task = match TpuDevice::prepare_task(arg, ion_handle, registry) {
            Ok(t) => t,
            Err(e) => {
                return Err(e);
            },
        };
        self.submit_task(task, dmabuf)
    }

    /// Whether the interrupt handler has flagged an interrupt.
    pub fn irq_received(&self) -> (r: bool)
        ensures
            r == self.runtime().irq_received,
    {
        self.runtime.irq_received
    }

    /// Starts running `task` step by step, for a caller that issues the
    /// writes to the hardware between steps: command ids are resynchronized
    /// and the run is started. Only an idle or not yet initialized device
    /// runs (`NotInitialized`, nothing touched); the device is `Running`
    /// until the run finishes. A refused command buffer leaves the device
    /// idle with only the resync written.
    pub fn begin_run(&mut self, task: &TpuTaskNode, dmabuf: &[u8]) -> (r: Result<DmabufRun, TpuError>)
        requires
            old(self).wf(),
        ensures
            final(self).wf(),
            final(self).done() == old(self).done(),
            final(self).spin_limit() == old(self).spin_limit(),
            !state_accepts_run(old(self).tpu_state()) ==> r == Err::<DmabufRun, TpuError>(
                TpuError::NotInitialized,
            ) && final(self).tdma() == old(self).tdma() && final(self).tiu() == old(self).tiu()
                && final(self).tpu_state() == old(self).tpu_state(),
            state_accepts_run(old(self).tpu_state()) ==> final(self).tiu().wrote(
                old(self).tiu(),
                tiu_reset_id_writes(old(self).tiu().bank().words()),
            ),
            state_accepts_run(old(self).tpu_state()) && (!dmabuf_header_ok(dmabuf@)
                || task.dmabuf_paddr & 0xFFF != 0) ==> r is Err && final(self).tpu_state()
                == TpuState::Idle && final(self).tdma().wrote(
                old(self).tdma(),
                tdma_reset_sync_id_writes(),
            ),
            state_accepts_run(old(self).tpu_state()) && dmabuf_header_ok(dmabuf@)
                && task.dmabuf_paddr & 0xFFF == 0 ==> r is Ok && {
                let run = r->Ok_0;
                &&& run.wf(dmabuf@)
                &&& run.paddr == task.dmabuf_paddr
                &&& final(self).tpu_state() == TpuState::Running
                &&& final(self).tdma().wrote(
                    old(self).tdma(),
                    tdma_reset_sync_id_writes() + run_prologue_writes(run.header, task.dmabuf_paddr),
                )
                &&& final(self).runtime().irq_received == false
                &&& final(self).runtime().reg_backup == old(self).runtime().reg_backup
                &&& run.phase == start_phase(run.header)
                &&& run.phase is Done ==> run.result is Ok
            },
    {
        if self.state != TpuState::Idle {
            return Err(TpuError::NotInitialized);
        }
        resync_cmd_id(&mut self.tdma, &mut self.tiu);
        self.runtime.irq_received = false;
        let ghost t1 = self.tdma;
        match DmabufRun::start(&mut self.tdma, dmabuf, task.dmabuf_paddr, &mut self.runtime) {
            Ok(run) => {
                self.state = TpuState::Running;
                proof {
                    lemma_tdma_wrote_trans(
                        old(self).tdma(),
                        t1,
                        self.tdma(),
                        tdma_reset_sync_id_writes(),
                        run_prologue_writes(run.header, task.dmabuf_paddr),
                    );
                }
                Ok(run)
            },
            Err(e) => {
                self.state = TpuState::Idle;
                Err(e)
            },
        }
    }

    /// Advances `run` by one step on the device's registers; the device is
    /// idle again once the run finishes.
    pub fn step_run(
        &mut self,
        run: &mut DmabufRun,
        dmabuf: &[u8],
        timer: &mut SpinTimeout,
        waited: Result<(), TpuError>,
    ) -> (action: RunAction)
        requires
            old(self).wf(),
            old(run).wf(dmabuf@),
            old(timer).wf(),
        ensures
            final(self).wf(),
            final(run).wf(dmabuf@),
            final(timer).wf(),
            final(self).done() == old(self).done(),
            final(self).spin_limit() == old(self).spin_limit(),
            step_effect(
                *old(run),
                *final(run),
                old(self).tdma(),
                final(self).tdma(),
                old(self).tiu(),
                final(self).tiu(),
                old(self).runtime(),
                final(self).runtime(),
                *old(timer),
                *final(timer),
                dmabuf@,
                waited,
                action,
            ),
            action is Finished ==> final(self).tpu_state() == TpuState::Idle,
            !(action is Finished) ==> final(self).tpu_state() == old(self).tpu_state(),
    {
        let action = run.step(
            &mut self.tdma,
            &mut self.tiu,
            dmabuf,
            &mut self.runtime,
            timer,
            waited,
        );
        match action {
            RunAction::Finished(_) => {
                self.state = TpuState::Idle;
            },
            _ => {},
        }
        action
    }

    /// One look for the TDMA interrupt while a stepped run waits for it. An
    /// interrupt already handled ends the wait; so does a pending interrupt
    /// status, which is handled now. Otherwise one iteration of `timer` is
    /// spent, and an exhausted budget fails with `Timeout`. `None` asks the
    /// caller to look again.
    pub fn poll_irq(&mut self, timer: &mut SpinTimeout) -> (r: Option<Result<(), TpuError>>)
        requires
            old(self).wf(),
            old(timer).wf(),
        ensures
            final(self).wf(),
            final(timer).wf(),
            final(timer).limit == old(timer).limit,
            final(self).done() == old(self).done(),
            final(self).tpu_state() == old(self).tpu_state(),
            final(self).tiu() == old(self).tiu(),
            old(self).runtime().irq_received ==> r == Some(Ok::<(), TpuError>(())) && *final(self)
                == *old(self) && *final(timer) == *old(timer),
            !old(self).runtime().irq_received && tdma_int_status(old(self).tdma().word(TDMA_INT_MASK))
                != 0 ==> r == Some(Ok::<(), TpuError>(())) && final(self).runtime().irq_received
                && final(self).tdma().wrote(old(self).tdma(), tdma_clear_interrupt_writes())
                && *final(timer) == *old(timer),
            !old(self).runtime().irq_received && tdma_int_status(old(self).tdma().word(TDMA_INT_MASK))
                == 0 ==> *final(self) == *old(self) && (old(timer).expired() ==> final(timer).count
                == old(timer).count) && (!old(timer).expired() ==> final(timer).count == old(
                timer,
            ).count + 1) && (final(timer).expired() ==> r == Some(
                Err::<(), TpuError>(TpuError::Timeout),
            )) && (!final(timer).expired() ==> r is None),
    {
        if self.runtime.irq_received {
            return Some(Ok(()));
        }
        if self.tdma.get_int_status() != 0 {
            self.handle_irq();
            return Some(Ok(()));
        }
        if timer.check() {
            return Some(Err(TpuError::Timeout));
        }
        None
    }

    /// Files `task` on the done list with the result of its run.
    pub fn finish_task(&mut self, task: TpuTaskNode, result: Result<(), TpuError>)
        requires
            old(self).wf(),
        ensures
            final(self).wf(),
            final(self).done() == old(self).done().push(
                TpuTaskNode {
                    ret: if result is Ok {
                        0i32
                    } else {
                        -1i32
                    },
                    ..task
                },
            ),
            final(self).tdma() == old(self).tdma(),
            final(self).tiu() == old(self).tiu(),
            final(self).tpu_state() == old(self).tpu_state(),
    {
        let mut out = task;
        out.ret = match result {
            Ok(()) => 0,
            Err(_) => -1,
        };
        self.kernel_work.done_list.push_back(out);
    }

    /// WAIT_DMABUF: takes the first completed task with the argument's
    /// sequence number and reports its result. When there is none, `ret` is
    /// set to -1 and the call fails.
    pub fn wait_dmabuf(&mut self, arg: &mut CviWaitDmaArg) -> (r: Result<usize, TpuError>)
        requires
            old(self).wf(),
        ensures
            final(self).wf(),
            final(arg).seq_no == old(arg).seq_no,
            final(self).tdma() == old(self).tdma(),
            final(self).tiu() == old(self).tiu(),
            final(self).tpu_state() == old(self).tpu_state(),
            !has_seq(old(self).done(), old(arg).seq_no) ==> r == Err::<usize, TpuError>(
                TpuError::NotInitialized,
            ) && final(arg).ret == -1 && final(self).done() == old(self).done(),
            has_seq(old(self).done(), old(arg).seq_no) ==> exists|i: int|
                first_with_seq(old(self).done(), old(arg).seq_no, i) && r == Ok::<usize, TpuError>(
                    0,
                ) && final(arg).ret == old(self).done()[i].ret && final(self).done() == old(
                    self,
                ).done().remove(i),
    {
        let seq = arg.seq_no;
        let n = self.kernel_work.done_list.len();
        let mut idx: usize = 0;
        while idx < n
            invariant
                n == self.kernel_work.done_list@.len(),
                idx <= n,
                *self == *old(self),
                seq == old(arg).seq_no,
                forall|j: int| 0 <= j < idx ==> (#[trigger] self.done()[j]).seq_no != seq,
            ensures
                n == self.kernel_work.done_list@.len(),
                idx <= n,
                *self == *old(self),
                forall|j: int| 0 <= j < idx ==> (#[trigger] self.done()[j]).seq_no != seq,
                idx < n ==> self.done()[idx as int].seq_no == seq,
            decreases n - idx,
        {
            if self.kernel_work.done_list[idx].seq_no == seq {
                break;
            }
            idx = idx + 1;
        }
        if idx < n {
            let task = self.kernel_work.done_list.remove(idx);
            match task {
                Some(t) => {
                    arg.ret = t.ret;
                },
                None => {},
            }
            proof {
                assert(first_with_seq(old(self).done(), seq, idx as int));
            }
            Ok(0)
        } else {
            arg.ret = -1;
            Err(TpuError::NotInitialized)
        }
    }

    /// DMABUF_FLUSH_FD / DMABUF_INVLD_FD: the range to fence, looked up
    /// with the descriptor number taken as the buffer handle. `None` when no
    /// buffer has that handle; the ioctl succeeds either way.
    pub fn dmabuf_fd_range(fd: i32, registry: &IonBufferManager) -> (r: Option<PhysRange>)
        ensures
            registry.buffers().contains_key(fd as u32) ==> r == Some(
                PhysRange {
                    start: registry.buffers()[fd as u32].dma_info.bus_addr as usize,
                    size: registry.buffers()[fd as u32].size,
                },
            ),
            !registry.buffers().contains_key(fd as u32) ==> r is None,
    {
        match registry.get_buffer(IonHandle(fd as u32)) {
            Ok(b) => Some(PhysRange { start: b.dma_info.bus_addr as usize, size: b.size }),
            Err(_) => None,
        }
    }

    /// Suspends an idle device: its registers are saved and it becomes
    /// `Suspended`. Suspending a suspended device does nothing; any other
    /// state is refused with `NotInitialized`.
    pub fn suspend(&mut self) -> (r: Result<(), TpuError>)
        requires
            old(self).wf(),
        ensures
            final(self).wf(),
            final(self).done() == old(self).done(),
            final(self).tdma() == old(self).tdma(),
            final(self).tiu() == old(self).tiu(),
            old(self).tpu_state() == TpuState::Suspended ==> r is Ok && *final(self) == *old(self),
            old(self).tpu_state() == TpuState::Idle ==> r is Ok && final(self).tpu_state()
                == TpuState::Suspended && backup_matches(
                final(self).runtime().reg_backup,
                old(self).tdma(),
                old(self).tiu(),
            ),
            old(self).tpu_state() != TpuState::Idle && old(self).tpu_state() != TpuState::Suspended
                ==> r == Err::<(), TpuError>(TpuError::NotInitialized) && *final(self) == *old(self),
    {
        if self.state == TpuState::Suspended {
            return Ok(());
        }
        if self.state != TpuState::Idle {
            return Err(TpuError::NotInitialized);
        }
        backup_registers(&self.tdma, &self.tiu, &mut self.runtime.reg_backup);
        self.state = TpuState::Suspended;
        Ok(())
    }

    /// Resumes a suspended device: the saved registers are written back and
    /// it becomes idle. Any other state is refused with `NotInitialized`.
    pub fn resume(&mut self) -> (r: Result<(), TpuError>)
        requires
            old(self).wf(),
        ensures
            final(self).wf(),
            final(self).done() == old(self).done(),
            old(self).tpu_state() == TpuState::Suspended ==> r is Ok && final(self).tpu_state()
                == TpuState::Idle && final(self).tdma().wrote(
                old(self).tdma(),
                restore_tdma_writes(old(self).runtime().reg_backup),
            ) && final(self).tiu().wrote(
                old(self).tiu(),
                seq![wr(BD_CTRL0, old(self).runtime().reg_backup.tiu_ctrl_base_address)],
            ),
            old(self).tpu_state() != TpuState::Suspended ==> r == Err::<(), TpuError>(
                TpuError::NotInitialized,
            ) && *final(self) == *old(self),
    {
        if self.state != TpuState::Suspended {
            return Err(TpuError::NotInitialized);
        }
        restore_registers(&mut self.tdma, &mut self.tiu, &self.runtime.reg_backup);
        self.state = TpuState::Idle;
        Ok(())
    }

    /// Resets the device from any state: command ids are resynchronized,
    /// the runtime state cleared and the device made idle.
    pub fn reset(&mut self)
        requires
            old(self).wf(),
        ensures
            final(self).wf(),
            final(self).tpu_state() == TpuState::Idle,
            final(self).runtime().irq_received == false,
            final(self).runtime().reg_backup == zero_backup(),
            final(self).tiu().wrote(old(self).tiu(), tiu_reset_id_writes(old(self).tiu().bank().words())),
            final(self).tdma().wrote(old(self).tdma(), tdma_reset_sync_id_writes()),
            final(self).done() == old(self).done(),
    {
        resync_cmd_id(&mut self.tdma, &mut self.tiu);
        self.runtime = TpuRuntimeState::default();
        self.state = TpuState::Idle;
    }
}

} // verus!
