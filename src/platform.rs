//! TPU platform logic: command-id resync, interrupt handling, the command
//! buffer run loop, PMU control and register save/restore.

use vstd::prelude::*;
use crate::regs::{apply_writes, lemma_apply_writes_frame, wr, RegWrite};
use crate::tdma::tdma_w1c;
use crate::tdma::{
    lemma_tdma_wrote_trans, tdma_array_base_writes, tdma_clear_interrupt_writes, tdma_fire_writes,
    tdma_int_status, tdma_reset_sync_id_writes, TdmaRegs, TDMA_ARRAYBASE0_H, TDMA_ARRAYBASE0_L,
    TDMA_ARRAYBASE1_H, TDMA_ARRAYBASE1_L, TDMA_ARRAYBASE2_L, TDMA_ARRAYBASE3_L, TDMA_ARRAYBASE4_L,
    TDMA_ARRAYBASE5_L, TDMA_ARRAYBASE6_L, TDMA_ARRAYBASE7_L, TDMA_CTRL, TDMA_DCM_DISABLE,
    TDMA_DEBUG_MODE, TDMA_DES_BASE, TDMA_INT_CLEAR, TDMA_INT_EOD, TDMA_INT_EOPMU, TDMA_INT_MASK,
    TDMA_MASK_INIT, TDMA_SYNC_STATUS, TPUPMU_BUFBASE, TPUPMU_BUFSIZE, TPUPMU_CTRL,
};
use crate::tiu::{
    bd_current_id, bd_intr_raised, lemma_clear_keeps_id, tiu_clear_interrupt_writes, tiu_fire_writes,
    tiu_reset_id_writes, TiuRegs, BD_CTRL0, BD_INTR_FLAG,
};
use crate::tpu_error::TpuError;
use crate::tpu_types::{
    desc_in_bounds, desc_offset, header_matches, le_u16, le_u32, pmu_event_code, CmdIdNode,
    CpuSyncDesc, DmaHeader, TpuPmuEvent, DMA_HEADER_BYTES, TPU_DMABUF_HEADER_M,
};

verus! {

/// Register values saved on suspend and written back on resume.
#[derive(Debug, Clone, Copy)]
pub struct TpuRegBackup {
    pub tdma_int_mask: u32,
    pub tdma_sync_status: u32,
    pub tiu_ctrl_base_address: u32,
    pub tdma_arraybase0_l: u32,
    pub tdma_arraybase1_l: u32,
    pub tdma_arraybase2_l: u32,
    pub tdma_arraybase3_l: u32,
    pub tdma_arraybase4_l: u32,
    pub tdma_arraybase5_l: u32,
    pub tdma_arraybase6_l: u32,
    pub tdma_arraybase7_l: u32,
    pub tdma_arraybase0_h: u32,
    pub tdma_arraybase1_h: u32,
    pub tdma_des_base: u32,
    pub tdma_dbg_mode: u32,
    pub tdma_dcm_disable: u32,
    pub tdma_ctrl: u32,
}

pub open spec fn zero_backup() -> TpuRegBackup {
    TpuRegBackup {
        tdma_int_mask: 0,
        tdma_sync_status: 0,
        tiu_ctrl_base_address: 0,
        tdma_arraybase0_l: 0,
        tdma_arraybase1_l: 0,
        tdma_arraybase2_l: 0,
        tdma_arraybase3_l: 0,
        tdma_arraybase4_l: 0,
        tdma_arraybase5_l: 0,
        tdma_arraybase6_l: 0,
        tdma_arraybase7_l: 0,
        tdma_arraybase0_h: 0,
        tdma_arraybase1_h: 0,
        tdma_des_base: 0,
        tdma_dbg_mode: 0,
        tdma_dcm_disable: 0,
        tdma_ctrl: 0,
    }
}

impl Default for TpuRegBackup {
    fn default() -> (r: Self)
        ensures
            r == zero_backup(),
    {
        TpuRegBackup {
            tdma_int_mask: 0,
            tdma_sync_status: 0,
            tiu_ctrl_base_address: 0,
            tdma_arraybase0_l: 0,
            tdma_arraybase1_l: 0,
            tdma_arraybase2_l: 0,
            tdma_arraybase3_l: 0,
            tdma_arraybase4_l: 0,
            tdma_arraybase5_l: 0,
            tdma_arraybase6_l: 0,
            tdma_arraybase7_l: 0,
            tdma_arraybase0_h: 0,
            tdma_arraybase1_h: 0,
            tdma_des_base: 0,
            tdma_dbg_mode: 0,
            tdma_dcm_disable: 0,
            tdma_ctrl: 0,
        }
    }
}

/// Runtime state shared by the submit path and the interrupt handler.
#[derive(Debug, Clone, Copy)]
pub struct TpuRuntimeState {
    /// Set by the interrupt handler.
    pub irq_received: bool,
    /// Registers captured by the interrupt handler or on suspend.
    pub reg_backup: TpuRegBackup,
}

impl Default for TpuRuntimeState {
    fn default() -> (r: Self)
        ensures
            r.irq_received == false,
            r.reg_backup == zero_backup(),
    {
        TpuRuntimeState { irq_received: false, reg_backup: TpuRegBackup::default() }
    }
}

/// Spin iterations after which a wait for the TDMA interrupt is considered
/// satisfied.
pub const IRQ_SPIN_ITERATIONS: u64 = 10000;

/// Default spin budget of one run (about a second of busy iterations).
pub const DEFAULT_SPIN_LIMIT: u64 = 1_000_000_000;

/// A busy-wait budget shared by the interrupt wait and the completion poll.
#[derive(Debug, Clone, Copy)]
pub struct SpinTimeout {
    /// Iterations spent so far.
    pub count: u64,
    /// Iterations allowed.
    pub limit: u64,
}

/// Value of the counter after one wait for the TDMA interrupt.
pub open spec fn count_after_wait(count: u64, limit: u64) -> u64 {
    if count >= limit {
        count
    } else if count + 1 > IRQ_SPIN_ITERATIONS {
        (count + 1) as u64
    } else if limit <= IRQ_SPIN_ITERATIONS + 1 {
        limit
    } else {
        (IRQ_SPIN_ITERATIONS + 1) as u64
    }
}

impl SpinTimeout {
    pub open spec fn wf(&self) -> bool {
        self.count <= self.limit
    }

    pub open spec fn expired(&self) -> bool {
        self.count >= self.limit
    }

    /// A fresh budget of `limit` iterations.
    pub fn new(limit: u64) -> (r: SpinTimeout)
        ensures
            r.wf(),
            r.count == 0,
            r.limit == limit,
    {
        SpinTimeout { count: 0, limit }
    }

    /// Spends one iteration; true once the budget is used up.
    pub fn check(&mut self) -> (r: bool)
        requires
            old(self).wf(),
        ensures
            final(self).wf(),
            final(self).limit == old(self).limit,
            old(self).expired() ==> final(self).count == old(self).count,
            !old(self).expired() ==> final(self).count == old(self).count + 1,
            r == final(self).expired(),
    {
        if self.count < self.limit {
            self.count = self.count + 1;
        }
        self.count >= self.limit
    }

    /// Busy-waits for the TDMA interrupt: spins until the counter passes
    /// `IRQ_SPIN_ITERATIONS`, failing with `Timeout` when the budget runs out.
    pub fn wait_irq(&mut self) -> (r: Result<(), TpuError>)
        requires
            old(self).wf(),
        ensures
            final(self).wf(),
            final(self).limit == old(self).limit,
            final(self).count == count_after_wait(old(self).count, old(self).limit),
            r is Err <==> final(self).expired(),
            r is Err ==> r == Err::<(), TpuError>(TpuError::Timeout),
    {
        let mut counter = self.count;
        while counter < self.limit
            invariant_except_break
                old(self).count <= counter <= self.limit,
                counter == old(self).count || counter <= IRQ_SPIN_ITERATIONS,
                self.limit == old(self).limit,
                self.count == old(self).count,
            ensures
                self.limit == old(self).limit,
                self.count == old(self).count,
                counter == count_after_wait(old(self).count, old(self).limit),
            decreases self.limit - counter,
        {
            counter = counter + 1;
            if counter > IRQ_SPIN_ITERATIONS {
                break;
            }
        }
        self.count = counter;
        if counter >= self.limit {
            return Err(TpuError::Timeout);
        }
        Ok(())
    }
}

/// Value written to the PMU control register for `event`.
pub open spec fn pmu_ctrl_value(event: u32) -> u32 {
    (0x1u32 | 0x8u32 | 0x10u32 | (event << 5u32) | (0x3u32 << 8u32) | (0x1u32 << 10u32))
        & !0xFFFF0000u32
}

pub open spec fn pmu_enable_writes(addr: u64, size: u32, event: u32) -> Seq<RegWrite> {
    seq![
        wr(TPUPMU_BUFBASE, #[verifier::truncate] ((addr >> 4u64) as u32)),
        wr(TPUPMU_BUFSIZE, #[verifier::truncate] (((size as u64) >> 4u64) as u32)),
        wr(TPUPMU_CTRL, pmu_ctrl_value(event)),
    ]
}

pub open spec fn pmu_disable_writes(words: Seq<u32>) -> Seq<RegWrite> {
    seq![wr(TPUPMU_CTRL, words[TPUPMU_CTRL as int / 4] & !1u32)]
}

/// Starts the PMU sampling `event` into the ring buffer at `pmubuf_addr_p`.
pub fn pmu_enable(tdma: &mut TdmaRegs, pmubuf_addr_p: u64, pmubuf_size: u32, event: TpuPmuEvent)
    requires
        old(tdma).wf(),
    ensures
        final(tdma).wf(),
        final(tdma).wrote(
            *old(tdma),
            pmu_enable_writes(pmubuf_addr_p, pmubuf_size, pmu_event_code(event)),
        ),
        final(tdma).word(TPUPMU_CTRL) == pmu_ctrl_value(pmu_event_code(event)),
{
    let buf_addr: u64 = pmubuf_addr_p >> 4u64;
    let buf_size: u64 = (pmubuf_size as u64) >> 4u64;
    let ghost t0 = *tdma;
    tdma.write(TPUPMU_BUFBASE, #[verifier::truncate] (buf_addr as u32));
    let ghost t1 = *tdma;
    tdma.write(TPUPMU_BUFSIZE, #[verifier::truncate] (buf_size as u32));
    let ghost t2 = *tdma;
    let code = event.code();
    let reg_value: u32 = (0x1u32 | 0x8u32 | 0x10u32 | (code << 5u32) | (0x3u32 << 8u32) | (0x1u32
        << 10u32)) & !0xFFFF0000u32;
    tdma.write(TPUPMU_CTRL, reg_value);
    proof {
        let w1 = seq![wr(TPUPMU_BUFBASE, #[verifier::truncate] (buf_addr as u32))];
        let w2 = seq![wr(TPUPMU_BUFSIZE, #[verifier::truncate] (buf_size as u32))];
        let w3 = seq![wr(TPUPMU_CTRL, reg_value)];
        lemma_tdma_wrote_trans(t0, t1, t2, w1, w2);
        lemma_tdma_wrote_trans(t0, t2, *tdma, w1 + w2, w3);
        assert(w1 + w2 + w3 =~= pmu_enable_writes(pmubuf_addr_p, pmubuf_size, pmu_event_code(event)));
    }
}

/// Stops the PMU by clearing bit 0 of its control register.
pub fn pmu_disable(tdma: &mut TdmaRegs)
    requires
        old(tdma).wf(),
    ensures
        final(tdma).wf(),
        final(tdma).wrote(*old(tdma), pmu_disable_writes(old(tdma).bank().words())),
        final(tdma).word(TPUPMU_CTRL) == old(tdma).word(TPUPMU_CTRL) & !1u32,
{
    let reg_value = tdma.read(TPUPMU_CTRL);
    tdma.write(TPUPMU_CTRL, reg_value & !1u32);
}

/// Disabling the PMU leaves bit 0 of its control register clear, and a second
/// disable leaves every register as the first one left it.
pub proof fn lemma_pmu_disable_idempotent(words: Seq<u32>)
    requires
        words.len() == crate::regs::REG_BANK_WORDS,
    ensures
        ({
            let once = apply_writes(tdma_w1c(), words, pmu_disable_writes(words));
            &&& once[TPUPMU_CTRL as int / 4] & 1u32 == 0
            &&& apply_writes(tdma_w1c(), once, pmu_disable_writes(once)) == once
        }),
{
    let idx = TPUPMU_CTRL as int / 4;
    let v = words[idx];
    let ws1 = pmu_disable_writes(words);
    assert(ws1.drop_last() =~= Seq::<RegWrite>::empty());
    assert(apply_writes(tdma_w1c(), words, Seq::<RegWrite>::empty()) == words);
    let once = apply_writes(tdma_w1c(), words, ws1);
    assert(once == words.update(idx, v & !1u32));
    assert((v & !1u32) & 1u32 == 0) by (bit_vector);
    let ws2 = pmu_disable_writes(once);
    assert(ws2.drop_last() =~= Seq::<RegWrite>::empty());
    assert(apply_writes(tdma_w1c(), once, Seq::<RegWrite>::empty()) == once);
    assert((v & !1u32) & !1u32 == v & !1u32) by (bit_vector);
    assert(apply_writes(tdma_w1c(), once, ws2) =~= once);
}

/// Resets the command ids of both engines: TIU first, then TDMA (the two
/// banks' writes reach the hardware in that order when the TIU log is
/// flushed before the TDMA log).
pub fn resync_cmd_id(tdma: &mut TdmaRegs, tiu: &mut TiuRegs)
    requires
        old(tdma).wf(),
        old(tiu).wf(),
    ensures
        final(tdma).wf(),
        final(tiu).wf(),
        final(tiu).wrote(*old(tiu), tiu_reset_id_writes(old(tiu).bank().words())),
        final(tdma).wrote(*old(tdma), tdma_reset_sync_id_writes()),
        bd_current_id(final(tiu).word(BD_CTRL0)) == 0,
        !bd_intr_raised(final(tiu).word(BD_CTRL0)),
{
    tiu.reset_id();
    tdma.reset_sync_id();
}

/// Whether an interrupt status word reports an error.
pub open spec fn tdma_status_is_error(status: u32) -> bool {
    status != TDMA_INT_EOD && status != TDMA_INT_EOPMU
}

/// Handles a TDMA interrupt: acknowledges it, snapshots the status words
/// and flags the interrupt as received. Returns whether the status reports
/// an error.
pub fn handle_tdma_irq(tdma: &mut TdmaRegs, tiu: &TiuRegs, state: &mut TpuRuntimeState) -> (r: bool)
    requires
        old(tdma).wf(),
        tiu.wf(),
    ensures
        final(tdma).wf(),
        r == tdma_status_is_error(tdma_int_status(old(tdma).word(TDMA_INT_MASK))),
        final(tdma).wrote(*old(tdma), tdma_clear_interrupt_writes()),
        final(state).irq_received,
        final(state).reg_backup.tdma_int_mask == 0,
        final(state).reg_backup.tdma_sync_status == old(tdma).word(TDMA_SYNC_STATUS),
        final(state).reg_backup.tiu_ctrl_base_address == tiu.word(BD_CTRL0),
        final(state).reg_backup == (TpuRegBackup {
            tdma_int_mask: 0,
            tdma_sync_status: old(tdma).word(TDMA_SYNC_STATUS),
            tiu_ctrl_base_address: tiu.word(BD_CTRL0),
            ..old(state).reg_backup
        }),
{
    let reg_value = tdma.read(TDMA_INT_MASK);
    let int_status = (reg_value >> 16u32) & !TDMA_MASK_INIT;
    let has_error = int_status != TDMA_INT_EOD && int_status != TDMA_INT_EOPMU;
    tdma.clear_interrupt();
    proof {
        let ws = tdma_clear_interrupt_writes();
        assert(ws.drop_last() =~= Seq::<RegWrite>::empty());
        assert(apply_writes(tdma_w1c(), old(tdma).bank().words(), Seq::<RegWrite>::empty()) == old(tdma).bank().words());
        let x = old(tdma).word(TDMA_INT_MASK);
        assert(((0xFFFF0000u32 & !0xFFFF0000u32) | (x & 0xFFFF0000u32 & !0xFFFF0000u32)) == 0u32)
            by (bit_vector);
    }
    state.reg_backup.tdma_int_mask = tdma.read(TDMA_INT_MASK);
    state.reg_backup.tdma_sync_status = tdma.read(TDMA_SYNC_STATUS);
    state.reg_backup.tiu_ctrl_base_address = tiu.read_bd_ctrl(0);
    state.irq_received = true;
    has_error
}

/// The TIU has reached command `bd_cmd_id` and raised its interrupt.
pub open spec fn tiu_done(v: u32, bd_cmd_id: u32) -> bool {
    bd_current_id(v) >= bd_cmd_id && bd_intr_raised(v)
}

/// One poll for the completion of the commands of `id_node`.
///
/// The TDMA id captured by the last interrupt (in the runtime state) is not
/// enforced: a lagging TDMA id is not an error. With no TIU commands the
/// poll is complete at once. Otherwise BD_CTRL+0 is read once: when the TIU
/// reports `bd_cmd_id` with its interrupt raised, the interrupt is
/// acknowledged and the poll is complete; else one iteration of `timer` is
/// spent, and an exhausted budget fails with `Timeout`. `None` asks the
/// caller to poll again, after the engine has had time to progress.
pub fn poll_cmdbuf_done(
    tiu: &mut TiuRegs,
    id_node: &CmdIdNode,
    _state: &TpuRuntimeState,
    timer: &mut SpinTimeout,
) -> (r: Option<Result<(), TpuError>>)
    requires
        old(tiu).wf(),
        old(timer).wf(),
    ensures
        final(tiu).wf(),
        final(timer).wf(),
        final(timer).limit == old(timer).limit,
        id_node.bd_cmd_id == 0 ==> r == Some(Ok::<(), TpuError>(())) && *final(tiu) == *old(tiu)
            && *final(timer) == *old(timer),
        id_node.bd_cmd_id > 0 && tiu_done(old(tiu).word(BD_CTRL0), id_node.bd_cmd_id) ==> r
            == Some(Ok::<(), TpuError>(())) && final(tiu).wrote(
            *old(tiu),
            tiu_clear_interrupt_writes(old(tiu).bank().words()),
        ) && final(tiu).word(BD_CTRL0) == old(tiu).word(BD_CTRL0) & !BD_INTR_FLAG && *final(timer)
            == *old(timer),
        id_node.bd_cmd_id > 0 && !tiu_done(old(tiu).word(BD_CTRL0), id_node.bd_cmd_id) ==> {
            &&& *final(tiu) == *old(tiu)
            &&& old(timer).expired() ==> final(timer).count == old(timer).count
            &&& !old(timer).expired() ==> final(timer).count == old(timer).count + 1
            &&& final(timer).expired() ==> r == Some(Err::<(), TpuError>(TpuError::Timeout))
            &&& !final(timer).expired() ==> r is None
        },
{
    if id_node.bd_cmd_id == 0 {
        return Some(Ok(()));
    }
    let reg_val = tiu.read_bd_ctrl(0);
    let current_id = (reg_val >> 6u32) & 0xFFFFu32;
    let int_flag = (reg_val & BD_INTR_FLAG) != 0;
    if current_id >= id_node.bd_cmd_id && int_flag {
        tiu.clear_bd_interrupt();
        return Some(Ok(()));
    }
    if timer.check() {
        return Some(Err(TpuError::Timeout));
    }
    None
}

/// TIU command count of descriptor `i` of `b`.
pub open spec fn desc_bd_num(b: Seq<u8>, i: int) -> u32 {
    le_u32(b, desc_offset(i) + 4) & 0xFFFFu32
}

/// TDMA command count of descriptor `i` of `b`.
pub open spec fn desc_tdma_num(b: Seq<u8>, i: int) -> u32 {
    le_u32(b, desc_offset(i) + 8) & 0xFFFFu32
}

/// `b` opens with a valid header.
pub open spec fn dmabuf_header_ok(b: Seq<u8>) -> bool {
    b.len() >= DMA_HEADER_BYTES && le_u16(b, 0) == TPU_DMABUF_HEADER_M
}

/// Physical address of the PMU buffer of a run.
pub open spec fn pmubuf_addr(h: DmaHeader, paddr: u64) -> u64 {
    vstd::wrapping::u64_specs::wrapping_add(paddr, h.pmubuf_offset as u64)
}

/// TDMA writes of a run before its first descriptor.
pub open spec fn run_prologue_writes(h: DmaHeader, paddr: u64) -> Seq<RegWrite> {
    tdma_array_base_writes(h) + if h.spec_has_valid_pmu() {
        pmu_enable_writes(pmubuf_addr(h, paddr), h.pmubuf_size, pmu_event_code(TpuPmuEvent::TdmaBandwidth))
    } else {
        Seq::<RegWrite>::empty()
    }
}

/// The next thing a run does.
#[derive(Debug, Clone, Copy, PartialEq, Eq, Structural)]
pub enum RunPhase {
    /// Reset the TIU command id for descriptor `i`.
    ResyncTiu(u32),
    /// Reset the TDMA sync id for descriptor `i`.
    ResyncTdma(u32),
    /// Fire the TIU descriptors of descriptor `i`, if it has any.
    FireTiu(u32),
    /// Fire the TDMA descriptors of descriptor `i`, if it has any.
    FireTdma(u32),
    /// Take the outcome of the TDMA interrupt wait of descriptor `i`.
    WaitIrq(u32),
    /// Poll the TIU for completion of descriptor `i`.
    Poll(u32),
    /// Stop the PMU.
    PmuStop,
    /// Take the outcome of the final interrupt wait.
    PmuWait,
    /// The run is over.
    Done,
}

/// What the caller of a run step does next.
#[derive(Debug, Clone, Copy)]
pub enum RunAction {
    /// Issue the logged writes, refresh the status words, and step again.
    Continue,
    /// Issue the logged writes, wait for the TDMA interrupt, and step again
    /// with the wait's outcome.
    WaitIrq,
    /// The run ended with this result.
    Finished(Result<(), TpuError>),
}

/// A command-buffer run in progress, advanced one step at a time. Each step
/// touches at most one register bank, so the hardware sees the writes in
/// order when the caller issues them after every step.
pub struct DmabufRun {
    pub header: DmaHeader,
    pub paddr: u64,
    pub pmu: bool,
    /// Command counts of the current descriptor.
    pub ids: CmdIdNode,
    pub offset_bd: u32,
    pub offset_gdma: u32,
    pub phase: RunPhase,
    /// Result of a finished run.
    pub result: Result<(), TpuError>,
}

pub open spec fn phase_index(p: RunPhase) -> u32 {
    match p {
        RunPhase::ResyncTiu(i) => i,
        RunPhase::ResyncTdma(i) => i,
        RunPhase::FireTiu(i) => i,
        RunPhase::FireTdma(i) => i,
        RunPhase::WaitIrq(i) => i,
        RunPhase::Poll(i) => i,
        _ => 0,
    }
}

pub open spec fn in_descriptor(p: RunPhase) -> bool {
    p is ResyncTiu || p is ResyncTdma || p is FireTiu || p is FireTdma || p is WaitIrq || p is Poll
}

/// The first phase of a run with header `h`.
pub open spec fn start_phase(h: DmaHeader) -> RunPhase {
    if h.cpu_desc_count > 0 {
        RunPhase::ResyncTiu(0)
    } else if h.spec_has_valid_pmu() {
        RunPhase::PmuStop
    } else {
        RunPhase::Done
    }
}

/// The phase after descriptor `i` completes.
pub open spec fn phase_after(run: DmabufRun, i: u32) -> RunPhase {
    if i + 1 < run.header.cpu_desc_count {
        RunPhase::ResyncTiu((i + 1) as u32)
    } else if run.pmu {
        RunPhase::PmuStop
    } else {
        RunPhase::Done
    }
}

/// Descriptors a run has completed.
pub open spec fn descs_completed(run: DmabufRun) -> nat {
    if in_descriptor(run.phase) {
        phase_index(run.phase) as nat
    } else if run.phase is PmuStop || run.phase is PmuWait {
        run.header.cpu_desc_count as nat
    } else {
        0
    }
}

/// TDMA writes issued for descriptor `i` of `b`: the sync-id reset, then
/// the fire sequence when it carries TDMA commands.
pub open spec fn desc_tdma_writes(b: Seq<u8>, i: int) -> Seq<RegWrite> {
    tdma_reset_sync_id_writes() + if desc_tdma_num(b, i) > 0 {
        tdma_fire_writes(le_u32(b, desc_offset(i) + 16) as u64, desc_tdma_num(b, i))
    } else {
        Seq::<RegWrite>::empty()
    }
}

/// TDMA writes issued for the first `n` descriptors of `b`.
pub open spec fn descs_tdma_writes(b: Seq<u8>, n: nat) -> Seq<RegWrite>
    decreases n,
{
    if n == 0 {
        Seq::<RegWrite>::empty()
    } else {
        descs_tdma_writes(b, (n - 1) as nat) + desc_tdma_writes(b, n - 1)
    }
}

/// The write that stops the PMU started by a run.
pub open spec fn pmu_stop_writes() -> Seq<RegWrite> {
    seq![wr(TPUPMU_CTRL, pmu_ctrl_value(pmu_event_code(TpuPmuEvent::TdmaBandwidth)) & !1u32)]
}

/// Every TDMA write of a run that completes: array bases, PMU start, each
/// descriptor's writes, PMU stop.
pub open spec fn run_tdma_writes(b: Seq<u8>, h: DmaHeader, paddr: u64) -> Seq<RegWrite> {
    run_prologue_writes(h, paddr) + descs_tdma_writes(b, h.cpu_desc_count as nat) + if h.spec_has_valid_pmu() {
        pmu_stop_writes()
    } else {
        Seq::<RegWrite>::empty()
    }
}

/// TDMA writes a run has issued when it stands at `p`.
pub open spec fn run_trace(b: Seq<u8>, h: DmaHeader, paddr: u64, p: RunPhase) -> Seq<RegWrite> {
    run_prologue_writes(h, paddr) + match p {
        RunPhase::ResyncTiu(i) => descs_tdma_writes(b, i as nat),
        RunPhase::ResyncTdma(i) => descs_tdma_writes(b, i as nat),
        RunPhase::FireTiu(i) => descs_tdma_writes(b, i as nat) + tdma_reset_sync_id_writes(),
        RunPhase::FireTdma(i) => descs_tdma_writes(b, i as nat) + tdma_reset_sync_id_writes(),
        RunPhase::WaitIrq(i) => descs_tdma_writes(b, (i + 1) as nat),
        RunPhase::Poll(i) => descs_tdma_writes(b, (i + 1) as nat),
        RunPhase::PmuStop => descs_tdma_writes(b, h.cpu_desc_count as nat),
        RunPhase::PmuWait => descs_tdma_writes(b, h.cpu_desc_count as nat) + pmu_stop_writes(),
        RunPhase::Done => Seq::<RegWrite>::empty(),
    }
}

/// Spin count a budget has reached once the first interrupt wait is over.
pub open spec fn spin_floor(count: u64) -> nat {
    if count > IRQ_SPIN_ITERATIONS {
        count as nat
    } else {
        IRQ_SPIN_ITERATIONS as nat
    }
}

/// Number of interrupt waits the first `n` descriptors of `b` need.
pub open spec fn tdma_waits(b: Seq<u8>, n: nat) -> nat
    decreases n,
{
    if n == 0 {
        0
    } else {
        tdma_waits(b, (n - 1) as nat) + if desc_tdma_num(b, n - 1) > 0 {
            1nat
        } else {
            0nat
        }
    }
}

proof fn lemma_tdma_waits_mono(b: Seq<u8>, i: nat, n: nat)
    requires
        i <= n,
    ensures
        tdma_waits(b, i) <= tdma_waits(b, n),
    decreases n - i,
{
    if i < n {
        lemma_tdma_waits_mono(b, i, (n - 1) as nat);
    }
}

/// Interrupt waits a run has done when it stands at `p`.
pub open spec fn waits_done(b: Seq<u8>, h: DmaHeader, p: RunPhase) -> nat {
    match p {
        RunPhase::WaitIrq(i) => tdma_waits(b, (i + 1) as nat),
        RunPhase::Poll(i) => tdma_waits(b, (i + 1) as nat),
        RunPhase::PmuStop => tdma_waits(b, h.cpu_desc_count as nat),
        RunPhase::PmuWait => tdma_waits(b, h.cpu_desc_count as nat) + 1,
        RunPhase::Done => 0,
        _ => tdma_waits(b, phase_index(p) as nat),
    }
}

/// The first `n` descriptors lie inside `b` and ask for no TIU commands.
pub open spec fn descs_without_tiu(b: Seq<u8>, n: nat) -> bool {
    forall|i: int| 0 <= i < n ==> desc_in_bounds(b, i) && #[trigger] desc_bd_num(b, i) == 0
}

/// Inputs on which a run by `run_dmabuf` completes: a valid, aligned
/// buffer whose descriptors all lie inside it and ask for no TIU commands,
/// and a budget that outlasts every interrupt wait.
pub open spec fn run_succeeds_on(b: Seq<u8>, h: DmaHeader, paddr: u64, count: u64, limit: u64) -> bool {
    &&& dmabuf_header_ok(b)
    &&& paddr & 0xFFF == 0
    &&& descs_without_tiu(b, h.cpu_desc_count as nat)
    &&& spin_floor(count) + tdma_waits(b, h.cpu_desc_count as nat) + (if h.spec_has_valid_pmu() {
        1nat
    } else {
        0nat
    }) < limit
}

/// What one step of a run does: `r0`, `t0`, `u0`, `s0`, `m0` are the run,
/// TDMA bank, TIU bank, runtime state and budget before the step, `r1` ...
/// `m1` after it; `waited` is the outcome of the previous wait and `action`
/// what the step asks for next.
pub open spec fn step_effect(
    r0: DmabufRun,
    r1: DmabufRun,
    t0: TdmaRegs,
    t1: TdmaRegs,
    u0: TiuRegs,
    u1: TiuRegs,
    s0: TpuRuntimeState,
    s1: TpuRuntimeState,
    m0: SpinTimeout,
    m1: SpinTimeout,
    b: Seq<u8>,
    waited: Result<(), TpuError>,
    action: RunAction,
) -> bool {
    &&& r1.wf(b)
    &&& t1.wf()
    &&& u1.wf()
    &&& m1.wf()
    &&& m1.limit == m0.limit
    &&& r1.header == r0.header
    &&& r1.paddr == r0.paddr
    &&& s1.reg_backup == s0.reg_backup
    &&& t1.base_addr() == t0.base_addr()
    &&& u1.base_addr() == u0.base_addr()
    &&& r1.phase is Done <==> action is Finished
    &&& action is Finished ==> action == RunAction::Finished(r1.result)
    &&& action is WaitIrq ==> r1.phase is WaitIrq || r1.phase is PmuWait
    // a finished run does nothing more
    &&& r0.phase is Done ==> action == RunAction::Finished(r0.result)
        && t1 == t0 && u1 == u0 && m1 == m0 && s1 == s0
    &&& r0.phase is ResyncTiu ==> {
        let i = r0.phase->ResyncTiu_0;
        &&& t1 == t0
        &&& m1 == m0
        &&& s1 == s0
        &&& !desc_in_bounds(b, i as int) ==> action == RunAction::Finished(
            Err(TpuError::InvalidDmabuf),
        ) && u1 == u0
        &&& desc_in_bounds(b, i as int) ==> action == RunAction::Continue
            && r1.phase == RunPhase::ResyncTdma(i) && u1.wrote(
            u0,
            tiu_reset_id_writes(u0.bank().words()),
        ) && bd_current_id(u1.word(BD_CTRL0)) == 0
    }
    &&& r0.phase is ResyncTdma ==> {
        let i = r0.phase->ResyncTdma_0;
        &&& action == RunAction::Continue
        &&& r1.phase == RunPhase::FireTiu(i)
        &&& t1.wrote(t0, tdma_reset_sync_id_writes())
        &&& u1 == u0
        &&& m1 == m0
        &&& s1.irq_received == false
    }
    &&& r0.phase is FireTiu ==> {
        let i = r0.phase->FireTiu_0;
        &&& action == RunAction::Continue
        &&& r1.phase == RunPhase::FireTdma(i)
        &&& t1 == t0
        &&& m1 == m0
        &&& s1 == s0
        &&& r0.ids.bd_cmd_id > 0 ==> u1.wrote(
            u0,
            tiu_fire_writes(u0.bank().words(), r0.offset_bd as u64),
        )
        &&& bd_current_id(u0.word(BD_CTRL0)) == 0 ==> bd_current_id(
            u1.word(BD_CTRL0),
        ) == 0
        &&& r0.ids.bd_cmd_id == 0 ==> u1 == u0
    }
    &&& r0.phase is FireTdma ==> {
        let i = r0.phase->FireTdma_0;
        &&& u1 == u0
        &&& m1 == m0
        &&& s1 == s0
        &&& r0.ids.tdma_cmd_id > 0 ==> action == RunAction::WaitIrq
            && r1.phase == RunPhase::WaitIrq(i) && t1.wrote(
            t0,
            tdma_fire_writes(r0.offset_gdma as u64, r0.ids.tdma_cmd_id),
        )
        &&& r0.ids.tdma_cmd_id == 0 ==> action == RunAction::Continue
            && r1.phase == RunPhase::Poll(i) && t1 == t0
    }
    &&& r0.phase is WaitIrq ==> {
        let i = r0.phase->WaitIrq_0;
        &&& t1 == t0
        &&& u1 == u0
        &&& m1 == m0
        &&& s1 == s0
        &&& waited is Err ==> action == RunAction::Finished(waited)
        &&& waited is Ok ==> action == RunAction::Continue && r1.phase
            == RunPhase::Poll(i)
    }
    &&& r0.phase is Poll ==> {
        let i = r0.phase->Poll_0;
        let done = r0.ids.bd_cmd_id == 0 || tiu_done(
            u0.word(BD_CTRL0),
            r0.ids.bd_cmd_id,
        );
        &&& t1 == t0
        &&& s1 == s0
        &&& done ==> m1 == m0 && r1.phase == phase_after(
            r0,
            i,
        ) && (r1.phase is Done ==> action == RunAction::Finished(Ok(())))
            && (!(r1.phase is Done) ==> action == RunAction::Continue)
        &&& done && r0.ids.bd_cmd_id > 0 ==> u1.wrote(
            u0,
            tiu_clear_interrupt_writes(u0.bank().words()),
        ) && u1.word(BD_CTRL0) == u0.word(BD_CTRL0) & !BD_INTR_FLAG
        &&& done && r0.ids.bd_cmd_id == 0 ==> u1 == u0
        &&& !done ==> u1 == u0 && (m1.expired() ==> action
            == RunAction::Finished(Err(TpuError::Timeout))) && (!m1.expired()
            ==> action == RunAction::Continue && r1.phase == r0.phase
            && m1.count == m0.count + 1)
    }
    &&& r0.phase is PmuStop ==> {
        &&& action == RunAction::WaitIrq
        &&& r1.phase == RunPhase::PmuWait
        &&& t1.wrote(t0, pmu_disable_writes(t0.bank().words()))
        &&& u1 == u0
        &&& m1 == m0
        &&& s1.irq_received == false
    }
    &&& r0.phase is PmuWait ==> {
        &&& action == RunAction::Finished(waited)
        &&& t1 == t0
        &&& u1 == u0
        &&& m1 == m0
        &&& s1 == s0
    }
    // every step lowers the rank, or spends budget while polling
    &&& !(r0.phase is Done) && !(action is Finished) ==> r1.rank() < r0.rank() || r1.rank()
        == r0.rank() && m1.count > m0.count
}

impl DmabufRun {
    /// The run belongs to the command buffer `b`.
    pub open spec fn wf(&self, b: Seq<u8>) -> bool {
        &&& b.len() >= DMA_HEADER_BYTES
        &&& header_matches(self.header, b)
        &&& self.header.spec_is_valid()
        &&& self.pmu == self.header.spec_has_valid_pmu()
        &&& self.phase is PmuStop || self.phase is PmuWait ==> self.pmu
        &&& in_descriptor(self.phase) ==> phase_index(self.phase) < self.header.cpu_desc_count
        &&& in_descriptor(self.phase) && !(self.phase is ResyncTiu) ==> {
            let i = phase_index(self.phase) as int;
            &&& desc_in_bounds(b, i)
            &&& self.ids.bd_cmd_id == desc_bd_num(b, i)
            &&& self.ids.tdma_cmd_id == desc_tdma_num(b, i)
            &&& self.offset_bd == le_u32(b, desc_offset(i) + 12)
            &&& self.offset_gdma == le_u32(b, desc_offset(i) + 16)
        }
    }

    /// Progress still ahead; every step lowers it or spends budget.
    pub open spec fn rank(&self) -> nat {
        let left = (self.header.cpu_desc_count - phase_index(self.phase)) as nat;
        match self.phase {
            RunPhase::ResyncTiu(_) => left * 8 + 7,
            RunPhase::ResyncTdma(_) => left * 8 + 6,
            RunPhase::FireTiu(_) => left * 8 + 5,
            RunPhase::FireTdma(_) => left * 8 + 4,
            RunPhase::WaitIrq(_) => left * 8 + 3,
            RunPhase::Poll(_) => left * 8 + 2,
            RunPhase::PmuStop => 2,
            RunPhase::PmuWait => 1,
            RunPhase::Done => 0,
        }
    }

    /// Starts a run of the command buffer `dmabuf` at `dmabuf_paddr`.
    ///
    /// The header must carry the magic number (`InvalidDmabuf`) and the
    /// buffer must be page aligned (`DmabufNotAligned`); on failure nothing
    /// is touched. Otherwise the interrupt flag is cleared, the array bases
    /// are loaded and, when the header configures it, the PMU is started.
    pub fn start(
        tdma: &mut TdmaRegs,
        dmabuf: &[u8],
        dmabuf_paddr: u64,
        state: &mut TpuRuntimeState,
    ) -> (r: Result<DmabufRun, TpuError>)
        requires
            old(tdma).wf(),
        ensures
            final(tdma).wf(),
            !dmabuf_header_ok(dmabuf@) ==> r == Err::<DmabufRun, TpuError>(TpuError::InvalidDmabuf)
                && *final(tdma) == *old(tdma) && *final(state) == *old(state),
            dmabuf_header_ok(dmabuf@) && dmabuf_paddr & 0xFFF != 0 ==> r == Err::<
                DmabufRun,
                TpuError,
            >(TpuError::DmabufNotAligned) && *final(tdma) == *old(tdma) && *final(state) == *old(
                state,
            ),
            dmabuf_header_ok(dmabuf@) && dmabuf_paddr & 0xFFF == 0 ==> r is Ok && {
                let run = r->Ok_0;
                &&& run.wf(dmabuf@)
                &&& run.paddr == dmabuf_paddr
                &&& final(tdma).wrote(*old(tdma), run_prologue_writes(run.header, dmabuf_paddr))
                &&& final(state).irq_received == false
                &&& final(state).reg_backup == old(state).reg_backup
                &&& run.phase == start_phase(run.header)
                &&& run.phase is Done ==> run.result is Ok
                &&& run.pmu ==> final(tdma).word(TPUPMU_CTRL) == pmu_ctrl_value(
                    pmu_event_code(TpuPmuEvent::TdmaBandwidth),
                )
            },
    {
        let header = match DmaHeader::from_bytes(dmabuf) {
            Some(h) => h,
            None => {
                return Err(TpuError::InvalidDmabuf);
            },
        };
        if !header.is_valid() {
            return Err(TpuError::InvalidDmabuf);
        }
        if (dmabuf_paddr & 0xFFF) != 0 {
            return Err(TpuError::DmabufNotAligned);
        }
        state.irq_received = false;
        let ghost t0 = *tdma;
        tdma.set_array_bases(&header);
        let pmu = header.has_valid_pmu();
        let ghost t1 = *tdma;
        if pmu {
            let pmubuf_addr: u64 = dmabuf_paddr.wrapping_add(header.pmubuf_offset as u64);
            pmu_enable(tdma, pmubuf_addr, header.pmubuf_size, TpuPmuEvent::TdmaBandwidth);
            proof {
                lemma_tdma_wrote_trans(t0, t1, *tdma, tdma_array_base_writes(header), pmu_enable_writes(pmubuf_addr, header.pmubuf_size, 2));
            }
        } else {
            assert(tdma_array_base_writes(header) + Seq::<RegWrite>::empty() =~= tdma_array_base_writes(header));
        }
        let phase = if header.cpu_desc_count > 0 {
            RunPhase::ResyncTiu(0)
        } else if pmu {
            RunPhase::PmuStop
        } else {
            RunPhase::Done
        };
        Ok(
            DmabufRun {
                header,
                paddr: dmabuf_paddr,
                pmu,
                ids: CmdIdNode { bd_cmd_id: 0, tdma_cmd_id: 0 },
                offset_bd: 0,
                offset_gdma: 0,
                phase,
                result: Ok(()),
            },
        )
    }

    /// Advances the run by one step; `waited` is the outcome of the
    /// interrupt wait the previous step asked for (ignored otherwise).
    pub fn step(
        &mut self,
        tdma: &mut TdmaRegs,
        tiu: &mut TiuRegs,
        dmabuf: &[u8],
        state: &mut TpuRuntimeState,
        timer: &mut SpinTimeout,
        waited: Result<(), TpuError>,
    ) -> (action: RunAction)
        requires
            old(self).wf(dmabuf@),
            old(tdma).wf(),
            old(tiu).wf(),
            old(timer).wf(),
        ensures
            step_effect(
                *old(self),
                *final(self),
                *old(tdma),
                *final(tdma),
                *old(tiu),
                *final(tiu),
                *old(state),
                *final(state),
                *old(timer),
                *final(timer),
                dmabuf@,
                waited,
                action,
            ),
    {
        match self.phase {
            RunPhase::ResyncTiu(i) => {
                let desc = match CpuSyncDesc::from_bytes(dmabuf, i) {
                    Some(d) => d,
                    None => {
                        return self.finish(Err(TpuError::InvalidDmabuf));
                    },
                };
                self.ids = CmdIdNode {
                    bd_cmd_id: desc.num_bd & 0xFFFF,
                    tdma_cmd_id: desc.num_gdma & 0xFFFF,
                };
                self.offset_bd = desc.offset_bd;
                self.offset_gdma = desc.offset_gdma;
                tiu.reset_id();
                self.phase = RunPhase::ResyncTdma(i);
                RunAction::Continue
            },
            RunPhase::ResyncTdma(i) => {
                tdma.reset_sync_id();
                state.irq_received = false;
                self.phase = RunPhase::FireTiu(i);
                RunAction::Continue
            },
            RunPhase::FireTiu(i) => {
                if self.ids.bd_cmd_id > 0 {
                    tiu.fire_descriptor(self.offset_bd as u64, self.ids.bd_cmd_id);
                }
                self.phase = RunPhase::FireTdma(i);
                RunAction::Continue
            },
            RunPhase::FireTdma(i) => {
                if self.ids.tdma_cmd_id > 0 {
                    tdma.fire_descriptor(self.offset_gdma as u64, self.ids.tdma_cmd_id);
                    self.phase = RunPhase::WaitIrq(i);
                    RunAction::WaitIrq
                } else {
                    self.phase = RunPhase::Poll(i);
                    RunAction::Continue
                }
            },
            RunPhase::WaitIrq(i) => {
                match waited {
                    Ok(()) => {
                        self.phase = RunPhase::Poll(i);
                        RunAction::Continue
                    },
                    Err(e) => self.finish(Err(e)),
                }
            },
            RunPhase::Poll(i) => {
                let ids = self.ids;
                match poll_cmdbuf_done(tiu, &ids, state, timer) {
                    Some(Ok(())) => self.advance(i),
                    Some(Err(e)) => self.finish(Err(e)),
                    None => RunAction::Continue,
                }
            },
            RunPhase::PmuStop => {
                state.irq_received = false;
                pmu_disable(tdma);
                self.phase = RunPhase::PmuWait;
                RunAction::WaitIrq
            },
            RunPhase::PmuWait => self.finish(waited),
            RunPhase::Done => RunAction::Finished(self.result),
        }
    }

    fn finish(&mut self, result: Result<(), TpuError>) -> (action: RunAction)
        ensures
            *final(self) == (DmabufRun { phase: RunPhase::Done, result, ..*old(self) }),
            action == RunAction::Finished(result),
    {
        self.phase = RunPhase::Done;
        self.result = result;
        RunAction::Finished(result)
    }

    fn advance(&mut self, i: u32) -> (action: RunAction)
        requires
            i < old(self).header.cpu_desc_count,
        ensures
            *final(self) == (DmabufRun {
                phase: phase_after(*old(self), i),
                result: if phase_after(*old(self), i) is Done {
                    Ok(())
                } else {
                    old(self).result
                },
                ..*old(self)
            }),
            phase_after(*old(self), i) is Done ==> action == RunAction::Finished(Ok(())),
            !(phase_after(*old(self), i) is Done) ==> action == RunAction::Continue,
    {
        if i + 1 < self.header.cpu_desc_count {
            self.phase = RunPhase::ResyncTiu(i + 1);
            RunAction::Continue
        } else if self.pmu {
            self.phase = RunPhase::PmuStop;
            RunAction::Continue
        } else {
            self.finish(Ok(()))
        }
    }
}

/// Runs the command buffer `dmabuf`, whose physical address is
/// `dmabuf_paddr`, to its end: the run is stepped until it finishes, each
/// interrupt wait being the busy wait of `timer`, with no engine progress
/// seen in between.
///
/// The header must carry the magic number and the buffer must be page
/// aligned; otherwise nothing is touched. A completed run has issued every
/// TDMA write of `run_tdma_writes`; a failed one has stopped after some
/// descriptor, firing none after it. Nothing here raises the TIU's command
/// id after its reset, so a run completes only when no descriptor asks for
/// TIU commands; given that, descriptors inside the buffer and a budget that
/// outlasts the waits, it completes.
#[verifier::rlimit(100)]
#[verifier::spinoff_prover]
pub fn run_dmabuf(
    tdma: &mut TdmaRegs,
    tiu: &mut TiuRegs,
    dmabuf: &[u8],
    dmabuf_paddr: u64,
    state: &mut TpuRuntimeState,
    timer: &mut SpinTimeout,
) -> (r: Result<(), TpuError>)
    requires
        old(tdma).wf(),
        old(tiu).wf(),
        old(timer).wf(),
    ensures
        final(tdma).wf(),
        final(tiu).wf(),
        final(timer).wf(),
        final(timer).limit == old(timer).limit,
        final(tiu).base_addr() == old(tiu).base_addr(),
        final(tdma).base_addr() == old(tdma).base_addr(),
        final(state).reg_backup == old(state).reg_backup,
        !dmabuf_header_ok(dmabuf@) ==> r == Err::<(), TpuError>(TpuError::InvalidDmabuf)
            && *final(tdma) == *old(tdma) && *final(tiu) == *old(tiu) && *final(state) == *old(
            state,
        ) && *final(timer) == *old(timer),
        dmabuf_header_ok(dmabuf@) && dmabuf_paddr & 0xFFF != 0 ==> r == Err::<(), TpuError>(
            TpuError::DmabufNotAligned,
        ) && *final(tdma) == *old(tdma) && *final(tiu) == *old(tiu) && *final(state) == *old(
            state,
        ) && *final(timer) == *old(timer),
        r is Ok || r == Err::<(), TpuError>(TpuError::InvalidDmabuf) || r == Err::<(), TpuError>(
            TpuError::DmabufNotAligned,
        ) || r == Err::<(), TpuError>(TpuError::Timeout),
        r is Ok ==> forall|k: int|
            0 <= k < le_u32(dmabuf@, 8) ==> #[trigger] desc_bd_num(dmabuf@, k) == 0,
        forall|h: DmaHeader|
            #[trigger] header_matches(h, dmabuf@) && dmabuf_header_ok(dmabuf@) && dmabuf_paddr
                & 0xFFF == 0 ==> {
                &&& r is Ok ==> final(tdma).wrote(*old(tdma), run_tdma_writes(dmabuf@, h, dmabuf_paddr))
                &&& r is Err ==> final(tdma).wrote(
                    *old(tdma),
                    run_tdma_writes(dmabuf@, h, dmabuf_paddr),
                ) || exists|j: nat|
                    j <= h.cpu_desc_count && #[trigger] final(tdma).wrote(
                        *old(tdma),
                        run_prologue_writes(h, dmabuf_paddr) + descs_tdma_writes(dmabuf@, j),
                    )
                &&& run_succeeds_on(dmabuf@, h, dmabuf_paddr, old(timer).count, old(timer).limit)
                    ==> r is Ok
            },
{
    let mut run = match DmabufRun::start(tdma, dmabuf, dmabuf_paddr, state) {
        Ok(run) => run,
        Err(e) => {
            return Err(e);
        },
    };
    let ghost hdr = run.header;
    let ghost full = run_tdma_writes(dmabuf@, hdr, dmabuf_paddr);
    let ghost pro = run_prologue_writes(hdr, dmabuf_paddr);
    let ghost good = run_succeeds_on(dmabuf@, hdr, dmabuf_paddr, old(timer).count, old(timer).limit);
    let ghost pmuw: nat = if hdr.spec_has_valid_pmu() { 1nat } else { 0nat };
    assert forall|h: DmaHeader| #[trigger] header_matches(h, dmabuf@) implies {
        &&& run_tdma_writes(dmabuf@, h, dmabuf_paddr) == full
        &&& run_prologue_writes(h, dmabuf_paddr) == pro
        &&& h.cpu_desc_count == hdr.cpu_desc_count
        &&& run_succeeds_on(dmabuf@, h, dmabuf_paddr, old(timer).count, old(timer).limit) == good
    } by {
        assert(h.cpu_desc_count == hdr.cpu_desc_count);
        assert(h.spec_has_valid_pmu() == hdr.spec_has_valid_pmu());
    }
    proof {
        assert(pro + Seq::<RegWrite>::empty() =~= pro);
        assert(run_trace(dmabuf@, hdr, dmabuf_paddr, run.phase) =~= pro + descs_tdma_writes(dmabuf@, 0));
    }
    if run.phase == RunPhase::Done {
        proof {
            assert(full =~= pro);
        }
        return run.result;
    }
    let mut waited: Result<(), TpuError> = Ok(());
    loop
        invariant
            run.wf(dmabuf@),
            !(run.phase is Done),
            run.header == hdr,
            run.paddr == dmabuf_paddr,
            dmabuf_header_ok(dmabuf@),
            dmabuf_paddr & 0xFFF == 0,
            tdma.wf(),
            tiu.wf(),
            timer.wf(),
            timer.limit == old(timer).limit,
            tiu.base_addr() == old(tiu).base_addr(),
            tdma.base_addr() == old(tdma).base_addr(),
            state.reg_backup == old(state).reg_backup,
            waited is Ok || waited == Err::<(), TpuError>(TpuError::Timeout),
            in_descriptor(run.phase) && !(run.phase is ResyncTiu) ==> bd_current_id(
                tiu.word(BD_CTRL0),
            ) == 0,
            forall|k: int|
                0 <= k < descs_completed(run) ==> #[trigger] desc_bd_num(dmabuf@, k) == 0,
            tdma.wrote(*old(tdma), run_trace(dmabuf@, hdr, dmabuf_paddr, run.phase)),
            run.pmu && !(run.phase is PmuWait) ==> tdma.word(TPUPMU_CTRL) == pmu_ctrl_value(2),
            full == run_tdma_writes(dmabuf@, hdr, dmabuf_paddr),
            pro == run_prologue_writes(hdr, dmabuf_paddr),
            good == run_succeeds_on(dmabuf@, hdr, dmabuf_paddr, old(timer).count, old(timer).limit),
            pmuw == if hdr.spec_has_valid_pmu() { 1nat } else { 0nat },
            good ==> waited is Ok,
            good ==> timer.count <= spin_floor(old(timer).count) + waits_done(dmabuf@, hdr, run.phase),
            good ==> spin_floor(old(timer).count) + tdma_waits(dmabuf@, hdr.cpu_desc_count as nat)
                + pmuw < timer.limit,
            forall|h: DmaHeader| #[trigger] header_matches(h, dmabuf@) ==> {
                &&& run_tdma_writes(dmabuf@, h, dmabuf_paddr) == full
                &&& run_prologue_writes(h, dmabuf_paddr) == pro
                &&& h.cpu_desc_count == hdr.cpu_desc_count
                &&& run_succeeds_on(dmabuf@, h, dmabuf_paddr, old(timer).count, old(timer).limit) == good
            },
        decreases run.rank(), timer.limit - timer.count,
    {
        let ghost before = run;
        let ghost t0 = *tdma;
        let ghost w0 = tiu.word(BD_CTRL0);
        let ghost c0 = timer.count;
        let action = run.step(tdma, tiu, dmabuf, state, timer, waited);
        proof {
            let cnt = hdr.cpu_desc_count as nat;
            if before.phase is Poll {
                let i = before.phase->Poll_0;
                lemma_clear_keeps_id(w0);
                if before.ids.bd_cmd_id == 0 || tiu_done(w0, before.ids.bd_cmd_id) {
                    assert(desc_bd_num(dmabuf@, i as int) == 0);
                    assert forall|k: int| 0 <= k < descs_completed(run) implies #[trigger] desc_bd_num(
                        dmabuf@,
                        k,
                    ) == 0 by {
                        if k < i {
                            assert(k < descs_completed(before));
                        }
                    }
                }
                if good {
                    assert(desc_bd_num(dmabuf@, i as int) == 0);
                }
            }
            if before.phase is ResyncTdma {
                let i = before.phase->ResyncTdma_0;
                let d = descs_tdma_writes(dmabuf@, i as nat);
                lemma_tdma_wrote_trans(*old(tdma), t0, *tdma, pro + d, tdma_reset_sync_id_writes());
                assert(pro + d + tdma_reset_sync_id_writes() =~= pro + (d + tdma_reset_sync_id_writes()));
                lemma_apply_writes_frame(tdma_w1c(), t0.bank().words(), tdma_reset_sync_id_writes(), TPUPMU_CTRL as int / 4);
            }
            if before.phase is FireTdma {
                let i = before.phase->FireTdma_0;
                let d = descs_tdma_writes(dmabuf@, i as nat);
                let rs = tdma_reset_sync_id_writes();
                assert(descs_tdma_writes(dmabuf@, (i + 1) as nat) == d + desc_tdma_writes(dmabuf@, i as int));
                if before.ids.tdma_cmd_id > 0 {
                    let f = tdma_fire_writes(before.offset_gdma as u64, before.ids.tdma_cmd_id);
                    lemma_tdma_wrote_trans(*old(tdma), t0, *tdma, pro + (d + rs), f);
                    assert(pro + (d + rs) + f =~= pro + (d + (rs + f)));
                    lemma_apply_writes_frame(tdma_w1c(), t0.bank().words(), f, TPUPMU_CTRL as int / 4);
                    lemma_tdma_waits_mono(dmabuf@, (i + 1) as nat, cnt);
                    assert(tdma_waits(dmabuf@, (i + 1) as nat) == tdma_waits(dmabuf@, i as nat) + 1);
                } else {
                    assert(rs + Seq::<RegWrite>::empty() =~= rs);
                    assert(pro + (d + rs) =~= pro + (d + (rs + Seq::<RegWrite>::empty())));
                    assert(tdma_waits(dmabuf@, (i + 1) as nat) == tdma_waits(dmabuf@, i as nat));
                }
            }
            if before.phase is PmuStop {
                assert(pmu_event_code(TpuPmuEvent::TdmaBandwidth) == 2);
                assert(pmu_disable_writes(t0.bank().words()) =~= pmu_stop_writes());
                lemma_tdma_wrote_trans(*old(tdma), t0, *tdma, pro + descs_tdma_writes(dmabuf@, cnt), pmu_stop_writes());
                assert(pro + descs_tdma_writes(dmabuf@, cnt) + pmu_stop_writes() =~= pro + (descs_tdma_writes(dmabuf@, cnt) + pmu_stop_writes()));
            }
        }
        match action {
            RunAction::Continue => {
                waited = Ok(());
            },
            RunAction::WaitIrq => {
                waited = timer.wait_irq();
            },
            RunAction::Finished(r) => {
                proof {
                    let cnt = hdr.cpu_desc_count as nat;
                    if r is Ok {
                        assert(le_u32(dmabuf@, 8) == run.header.cpu_desc_count);
                        assert forall|k: int| 0 <= k < le_u32(dmabuf@, 8) implies #[trigger] desc_bd_num(
                            dmabuf@,
                            k,
                        ) == 0 by {
                            if before.phase is Poll {
                                let i = before.phase->Poll_0;
                                if k < i {
                                    assert(k < descs_completed(before));
                                }
                            } else {
                                assert(k < descs_completed(before));
                            }
                        }
                    }
                    let jj: nat = if before.phase is Poll {
                        (before.phase->Poll_0 + 1) as nat
                    } else if before.phase is WaitIrq {
                        (before.phase->WaitIrq_0 + 1) as nat
                    } else if before.phase is ResyncTiu {
                        before.phase->ResyncTiu_0 as nat
                    } else {
                        cnt
                    };
                    if before.phase is ResyncTiu && good {
                        assert(desc_bd_num(dmabuf@, before.phase->ResyncTiu_0 as int) == 0);
                    }
                    if before.phase is Poll && r is Ok {
                        assert(full =~= pro + descs_tdma_writes(dmabuf@, cnt));
                        assert(tdma.wrote(*old(tdma), full));
                    }
                    if before.phase is PmuWait {
                        assert(full =~= pro + (descs_tdma_writes(dmabuf@, cnt) + pmu_stop_writes()));
                        assert(tdma.wrote(*old(tdma), full));
                    }
                    if !(before.phase is PmuWait) && r is Err {
                        assert(jj <= cnt);
                        assert(tdma.wrote(*old(tdma), pro + descs_tdma_writes(dmabuf@, jj)));
                    }
                    assert forall|h: DmaHeader|
                        #[trigger] header_matches(h, dmabuf@) && dmabuf_header_ok(dmabuf@)
                            && dmabuf_paddr & 0xFFF == 0 implies {
                        &&& r is Ok ==> tdma.wrote(*old(tdma), run_tdma_writes(dmabuf@, h, dmabuf_paddr))
                        &&& r is Err ==> tdma.wrote(
                            *old(tdma),
                            run_tdma_writes(dmabuf@, h, dmabuf_paddr),
                        ) || exists|j: nat|
                            j <= h.cpu_desc_count && #[trigger] tdma.wrote(
                                *old(tdma),
                                run_prologue_writes(h, dmabuf_paddr) + descs_tdma_writes(dmabuf@, j),
                            )
                        &&& run_succeeds_on(dmabuf@, h, dmabuf_paddr, old(timer).count, old(timer).limit)
                            ==> r is Ok
                    } by {
                        if r is Err && !(before.phase is PmuWait) {
                            assert(tdma.wrote(*old(tdma), run_prologue_writes(h, dmabuf_paddr) + descs_tdma_writes(dmabuf@, jj)));
                        }
                    }
                }
                return r;
            },
        }
    }
}

/// `b` holds the current values of the saved registers.
pub open spec fn backup_matches(b: TpuRegBackup, tdma: TdmaRegs, tiu: TiuRegs) -> bool {
    &&& b.tiu_ctrl_base_address == tiu.word(BD_CTRL0)
    &&& b.tdma_int_mask == tdma.word(TDMA_INT_MASK)
    &&& b.tdma_sync_status == tdma.word(TDMA_SYNC_STATUS)
    &&& b.tdma_arraybase0_l == tdma.word(TDMA_ARRAYBASE0_L)
    &&& b.tdma_arraybase1_l == tdma.word(TDMA_ARRAYBASE1_L)
    &&& b.tdma_arraybase2_l == tdma.word(TDMA_ARRAYBASE2_L)
    &&& b.tdma_arraybase3_l == tdma.word(TDMA_ARRAYBASE3_L)
    &&& b.tdma_arraybase4_l == tdma.word(TDMA_ARRAYBASE4_L)
    &&& b.tdma_arraybase5_l == tdma.word(TDMA_ARRAYBASE5_L)
    &&& b.tdma_arraybase6_l == tdma.word(TDMA_ARRAYBASE6_L)
    &&& b.tdma_arraybase7_l == tdma.word(TDMA_ARRAYBASE7_L)
    &&& b.tdma_arraybase0_h == tdma.word(TDMA_ARRAYBASE0_H)
    &&& b.tdma_arraybase1_h == tdma.word(TDMA_ARRAYBASE1_H)
    &&& b.tdma_des_base == tdma.word(TDMA_DES_BASE)
    &&& b.tdma_dbg_mode == tdma.word(TDMA_DEBUG_MODE)
    &&& b.tdma_dcm_disable == tdma.word(TDMA_DCM_DISABLE)
    &&& b.tdma_ctrl == tdma.word(TDMA_CTRL)
}

/// TDMA writes that put the saved registers back, control last.
pub open spec fn restore_tdma_writes(b: TpuRegBackup) -> Seq<RegWrite> {
    seq![
        wr(TDMA_INT_MASK, b.tdma_int_mask),
        wr(TDMA_SYNC_STATUS, b.tdma_sync_status),
        wr(TDMA_ARRAYBASE0_L, b.tdma_arraybase0_l),
        wr(TDMA_ARRAYBASE1_L, b.tdma_arraybase1_l),
        wr(TDMA_ARRAYBASE2_L, b.tdma_arraybase2_l),
        wr(TDMA_ARRAYBASE3_L, b.tdma_arraybase3_l),
        wr(TDMA_ARRAYBASE4_L, b.tdma_arraybase4_l),
        wr(TDMA_ARRAYBASE5_L, b.tdma_arraybase5_l),
        wr(TDMA_ARRAYBASE6_L, b.tdma_arraybase6_l),
        wr(TDMA_ARRAYBASE7_L, b.tdma_arraybase7_l),
        wr(TDMA_ARRAYBASE0_H, b.tdma_arraybase0_h),
        wr(TDMA_ARRAYBASE1_H, b.tdma_arraybase1_h),
        wr(TDMA_DES_BASE, b.tdma_des_base),
        wr(TDMA_DEBUG_MODE, b.tdma_dbg_mode),
        wr(TDMA_DCM_DISABLE, b.tdma_dcm_disable),
        wr(TDMA_CTRL, b.tdma_ctrl),
    ]
}

/// Captures the saved registers into `backup`.
pub fn backup_registers(tdma: &TdmaRegs, tiu: &TiuRegs, backup: &mut TpuRegBackup)
    requires
        tdma.wf(),
        tiu.wf(),
    ensures
        backup_matches(*final(backup), *tdma, *tiu),
{
    backup.tiu_ctrl_base_address = tiu.read_bd_ctrl(0);
    backup.tdma_int_mask = tdma.read(TDMA_INT_MASK);
    backup.tdma_sync_status = tdma.read(TDMA_SYNC_STATUS);
    backup.tdma_arraybase0_l = tdma.read(TDMA_ARRAYBASE0_L);
    backup.tdma_arraybase1_l = tdma.read(TDMA_ARRAYBASE1_L);
    backup.tdma_arraybase2_l = tdma.read(TDMA_ARRAYBASE2_L);
    backup.tdma_arraybase3_l = tdma.read(TDMA_ARRAYBASE3_L);
    backup.tdma_arraybase4_l = tdma.read(TDMA_ARRAYBASE4_L);
    backup.tdma_arraybase5_l = tdma.read(TDMA_ARRAYBASE5_L);
    backup.tdma_arraybase6_l = tdma.read(TDMA_ARRAYBASE6_L);
    backup.tdma_arraybase7_l = tdma.read(TDMA_ARRAYBASE7_L);
    backup.tdma_arraybase0_h = tdma.read(TDMA_ARRAYBASE0_H);
    backup.tdma_arraybase1_h = tdma.read(TDMA_ARRAYBASE1_H);
    backup.tdma_des_base = tdma.read(TDMA_DES_BASE);
    backup.tdma_dbg_mode = tdma.read(TDMA_DEBUG_MODE);
    backup.tdma_dcm_disable = tdma.read(TDMA_DCM_DISABLE);
    backup.tdma_ctrl = tdma.read(TDMA_CTRL);
}

/// Writes the saved registers back: the TIU control word, then the TDMA
/// registers with the control register last.
pub fn restore_registers(tdma: &mut TdmaRegs, tiu: &mut TiuRegs, backup: &TpuRegBackup)
    requires
        old(tdma).wf(),
        old(tiu).wf(),
    ensures
        final(tdma).wf(),
        final(tiu).wf(),
        final(tiu).wrote(*old(tiu), seq![wr(BD_CTRL0, backup.tiu_ctrl_base_address)]),
        final(tdma).wrote(*old(tdma), restore_tdma_writes(*backup)),
{
    tiu.write_bd_ctrl(0, backup.tiu_ctrl_base_address);
    let ws: Vec<RegWrite> = vec![
        RegWrite { offset: TDMA_INT_MASK, value: backup.tdma_int_mask },
        RegWrite { offset: TDMA_SYNC_STATUS, value: backup.tdma_sync_status },
        RegWrite { offset: TDMA_ARRAYBASE0_L, value: backup.tdma_arraybase0_l },
        RegWrite { offset: TDMA_ARRAYBASE1_L, value: backup.tdma_arraybase1_l },
        RegWrite { offset: TDMA_ARRAYBASE2_L, value: backup.tdma_arraybase2_l },
        RegWrite { offset: TDMA_ARRAYBASE3_L, value: backup.tdma_arraybase3_l },
        RegWrite { offset: TDMA_ARRAYBASE4_L, value: backup.tdma_arraybase4_l },
        RegWrite { offset: TDMA_ARRAYBASE5_L, value: backup.tdma_arraybase5_l },
        RegWrite { offset: TDMA_ARRAYBASE6_L, value: backup.tdma_arraybase6_l },
        RegWrite { offset: TDMA_ARRAYBASE7_L, value: backup.tdma_arraybase7_l },
        RegWrite { offset: TDMA_ARRAYBASE0_H, value: backup.tdma_arraybase0_h },
        RegWrite { offset: TDMA_ARRAYBASE1_H, value: backup.tdma_arraybase1_h },
        RegWrite { offset: TDMA_DES_BASE, value: backup.tdma_des_base },
        RegWrite { offset: TDMA_DEBUG_MODE, value: backup.tdma_dbg_mode },
        RegWrite { offset: TDMA_DCM_DISABLE, value: backup.tdma_dcm_disable },
        RegWrite { offset: TDMA_CTRL, value: backup.tdma_ctrl },
    ];
    assert(ws@ =~= restore_tdma_writes(*backup));
    tdma.write_all(&ws);
}

} // verus!
