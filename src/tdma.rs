//! TDMA engine registers and the write sequences that drive them.

use vstd::prelude::*;
use crate::regs::{
    lemma_wrote_trans, reg_offset_ok, stored_value, wr, RegBank, RegWrite, W1c, REG_BANK_WORDS,
};
use crate::tpu_types::DmaHeader;

verus! {

/// Bytes of one TDMA descriptor.
pub const TDMA_DESC_REG_BYTES: usize = 0x40;

/// Words of one TDMA descriptor.
pub const TDMA_ENGINE_DESCRIPTOR_NUM: usize = 0x10;

/// Number of array-base registers.
pub const TDMA_NUM_BASE_REGS: usize = 0x8;

/// Control register.
pub const TDMA_CTRL: usize = 0x0;
/// Descriptor base address.
pub const TDMA_DES_BASE: usize = 0x4;
/// Interrupt mask; the upper half reads back the interrupt status.
pub const TDMA_INT_MASK: usize = 0x8;
/// Sync status; the upper half holds the last completed command id.
pub const TDMA_SYNC_STATUS: usize = 0xC;

/// Array base registers, low 32 bits.
pub const TDMA_ARRAYBASE0_L: usize = 0x70;
pub const TDMA_ARRAYBASE1_L: usize = 0x74;
pub const TDMA_ARRAYBASE2_L: usize = 0x78;
pub const TDMA_ARRAYBASE3_L: usize = 0x7C;
pub const TDMA_ARRAYBASE4_L: usize = 0x80;
pub const TDMA_ARRAYBASE5_L: usize = 0x84;
pub const TDMA_ARRAYBASE6_L: usize = 0x88;
pub const TDMA_ARRAYBASE7_L: usize = 0x8C;

/// Array base registers, high 32 bits.
pub const TDMA_ARRAYBASE0_H: usize = 0x90;
pub const TDMA_ARRAYBASE1_H: usize = 0x94;

/// Debug mode.
pub const TDMA_DEBUG_MODE: usize = 0xA0;
/// DCM disable.
pub const TDMA_DCM_DISABLE: usize = 0xA4;
/// Engine status.
pub const TDMA_STATUS: usize = 0xEC;

/// PMU control register.
pub const TPUPMU_CTRL: usize = 0x200;
/// PMU buffer base address.
pub const TPUPMU_BUFBASE: usize = 0x20C;
/// PMU buffer size.
pub const TPUPMU_BUFSIZE: usize = 0x210;

pub const TDMA_CTRL_ENABLE_BIT: u32 = 0;
pub const TDMA_CTRL_MODESEL_BIT: u32 = 1;
pub const TDMA_CTRL_RESET_SYNCID_BIT: u32 = 2;
pub const TDMA_CTRL_FORCE_1ARRAY: u32 = 5;
pub const TDMA_CTRL_FORCE_2ARRAY: u32 = 6;
pub const TDMA_CTRL_BURSTLEN_BIT: u32 = 8;
pub const TDMA_CTRL_64BYTE_ALIGN_EN: u32 = 10;
pub const TDMA_CTRL_INTRA_CMD_OFF: u32 = 13;
pub const TDMA_CTRL_DESNUM_BIT: u32 = 16;

/// Initial interrupt mask (ignores the nchw/stride=0 error).
pub const TDMA_MASK_INIT: u32 = 0x20;
/// End-of-descriptor interrupt.
pub const TDMA_INT_EOD: u32 = 0x1;
/// End-of-PMU interrupt.
pub const TDMA_INT_EOPMU: u32 = 0x8000;
/// All engines idle.
pub const TDMA_ALL_IDLE: u32 = 0x1F;

/// Value written to INT_MASK to acknowledge every interrupt.
pub const TDMA_INT_CLEAR: u32 = 0xFFFF0000;

pub open spec fn tdma_clear_interrupt_writes() -> Seq<RegWrite> {
    seq![wr(TDMA_INT_MASK, TDMA_INT_CLEAR)]
}

pub open spec fn tdma_array_base_writes(h: DmaHeader) -> Seq<RegWrite> {
    seq![
        wr(TDMA_ARRAYBASE0_L, h.arraybase_0_l),
        wr(TDMA_ARRAYBASE1_L, h.arraybase_1_l),
        wr(TDMA_ARRAYBASE2_L, h.arraybase_2_l),
        wr(TDMA_ARRAYBASE3_L, h.arraybase_3_l),
        wr(TDMA_ARRAYBASE4_L, h.arraybase_4_l),
        wr(TDMA_ARRAYBASE5_L, h.arraybase_5_l),
        wr(TDMA_ARRAYBASE6_L, h.arraybase_6_l),
        wr(TDMA_ARRAYBASE7_L, h.arraybase_7_l),
        wr(TDMA_ARRAYBASE0_H, 0),
        wr(TDMA_ARRAYBASE1_H, 0),
    ]
}

pub open spec fn tdma_reset_sync_id_writes() -> Seq<RegWrite> {
    seq![wr(TDMA_CTRL, 4), wr(TDMA_CTRL, 0), wr(TDMA_INT_MASK, TDMA_INT_CLEAR)]
}

/// Control word that starts the engine on `n` descriptors.
pub open spec fn tdma_fire_ctrl(n: u32) -> u32 {
    (1u32 << TDMA_CTRL_ENABLE_BIT) | (1u32 << TDMA_CTRL_MODESEL_BIT) | (n << TDMA_CTRL_DESNUM_BIT)
        | (3u32 << TDMA_CTRL_BURSTLEN_BIT) | (1u32 << TDMA_CTRL_FORCE_1ARRAY) | (1u32
        << TDMA_CTRL_INTRA_CMD_OFF) | (1u32 << TDMA_CTRL_64BYTE_ALIGN_EN)
}

pub open spec fn tdma_fire_writes(desc_offset: u64, n: u32) -> Seq<RegWrite> {
    seq![
        wr(TDMA_DES_BASE, #[verifier::truncate] (desc_offset as u32)),
        wr(TDMA_DEBUG_MODE, 0),
        wr(TDMA_DCM_DISABLE, 0),
        wr(TDMA_INT_MASK, TDMA_MASK_INIT),
        wr(TDMA_CTRL, tdma_fire_ctrl(n)),
    ]
}

/// The interrupt status (upper half of INT_MASK) is write-one-to-clear.
pub open spec fn tdma_w1c() -> W1c {
    W1c { offset: TDMA_INT_MASK, mask: TDMA_INT_CLEAR }
}

/// Interrupt status as read from the INT_MASK word.
pub open spec fn tdma_int_status(int_mask: u32) -> u32 {
    (int_mask >> 16u32) & !TDMA_MASK_INIT
}

pub proof fn lemma_tdma_wrote_trans(
    a: TdmaRegs,
    b: TdmaRegs,
    c: TdmaRegs,
    ws1: Seq<RegWrite>,
    ws2: Seq<RegWrite>,
)
    requires
        b.wrote(a, ws1),
        c.wrote(b, ws2),
    ensures
        c.wrote(a, ws1 + ws2),
{
    lemma_wrote_trans(a.bank(), b.bank(), c.bank(), ws1, ws2);
}

/// The TDMA register bank.
pub struct TdmaRegs {
    base: usize,
    bank: RegBank,
}

impl TdmaRegs {
    pub closed spec fn base_addr(&self) -> usize {
        self.base
    }

    pub closed spec fn bank(&self) -> RegBank {
        self.bank
    }

    pub open spec fn wf(&self) -> bool {
        &&& self.bank().wf()
        &&& self.bank().w1c() == tdma_w1c()
    }

    /// `self` is `before` followed by exactly the writes `ws`.
    pub open spec fn wrote(&self, before: TdmaRegs, ws: Seq<RegWrite>) -> bool {
        &&& self.base_addr() == before.base_addr()
        &&& self.bank().wrote(before.bank(), ws)
    }

    pub open spec fn word(&self, offset: usize) -> u32 {
        self.bank().word(offset)
    }

    /// A bank mapped at virtual address `base`, all words zero.
    pub fn new(base: usize) -> (r: TdmaRegs)
        ensures
            r.wf(),
            r.base_addr() == base,
            r.bank().words() == Seq::new(REG_BANK_WORDS as nat, |i: int| 0u32),
            r.bank().log() == Seq::<RegWrite>::empty(),
    {
        TdmaRegs { base, bank: RegBank::new(W1c { offset: TDMA_INT_MASK, mask: TDMA_INT_CLEAR }) }
    }

    pub fn read(&self, offset: usize) -> (r: u32)
        requires
            self.wf(),
            reg_offset_ok(offset),
        ensures
            r == self.word(offset),
    {
        self.bank.read(offset)
    }

    pub fn write(&mut self, offset: usize, value: u32)
        requires
            old(self).wf(),
            reg_offset_ok(offset),
        ensures
            final(self).wf(),
            final(self).wrote(*old(self), seq![wr(offset, value)]),
            final(self).bank().words() == old(self).bank().words().update(
                offset as int / 4,
                stored_value(tdma_w1c(), offset, old(self).word(offset), value),
            ),
    {
        self.bank.write(offset, value)
    }

    /// Issues the writes of `ws` in order.
    pub fn write_all(&mut self, ws: &Vec<RegWrite>)
        requires
            old(self).wf(),
            forall|i: int| 0 <= i < ws@.len() ==> reg_offset_ok(#[trigger] ws@[i].offset),
        ensures
            final(self).wf(),
            final(self).wrote(*old(self), ws@),
    {
        self.bank.write_all(ws)
    }

    /// A change made by the engine itself (not a driver write).
    pub fn hw_set(&mut self, offset: usize, value: u32)
        requires
            old(self).wf(),
            reg_offset_ok(offset),
        ensures
            final(self).wf(),
            final(self).base_addr() == old(self).base_addr(),
            final(self).bank().words() == old(self).bank().words().update(offset as int / 4, value),
            final(self).bank().log() == old(self).bank().log(),
    {
        self.bank.hw_set(offset, value)
    }

    /// Hands out the driver writes issued so far and forgets them.
    pub fn take_log(&mut self) -> (r: Vec<RegWrite>)
        requires
            old(self).wf(),
        ensures
            final(self).wf(),
            final(self).base_addr() == old(self).base_addr(),
            r@ == old(self).bank().log(),
            final(self).bank().log() == Seq::<RegWrite>::empty(),
            final(self).bank().words() == old(self).bank().words(),
    {
        self.bank.take_log()
    }

    /// Virtual base address of the bank.
    pub fn base(&self) -> (r: usize)
        ensures
            r == self.base_addr(),
    {
        self.base
    }

    /// Interrupt status: `(INT_MASK >> 16) & !0x20`.
    pub fn get_int_status(&self) -> (r: u32)
        requires
            self.wf(),
        ensures
            r == tdma_int_status(self.word(TDMA_INT_MASK)),
    {
        let reg_value = self.read(TDMA_INT_MASK);
        (reg_value >> 16u32) & !TDMA_MASK_INIT
    }

    /// Acknowledges every pending interrupt.
    pub fn clear_interrupt(&mut self)
        requires
            old(self).wf(),
        ensures
            final(self).wf(),
            final(self).wrote(*old(self), tdma_clear_interrupt_writes()),
    {
        self.write(TDMA_INT_MASK, TDMA_INT_CLEAR);
    }

    /// Last completed TDMA command id, from the sync status word.
    pub fn get_sync_tdma_id(&self) -> (r: u32)
        requires
            self.wf(),
        ensures
            r == self.word(TDMA_SYNC_STATUS) >> 16u32,
    {
        self.read(TDMA_SYNC_STATUS) >> 16u32
    }

    /// Loads the eight array bases of `header`; the high halves are zeroed.
    pub fn set_array_bases(&mut self, header: &DmaHeader)
        requires
            old(self).wf(),
        ensures
            final(self).wf(),
            final(self).wrote(*old(self), tdma_array_base_writes(*header)),
    {
        let ws: Vec<RegWrite> = vec![
            RegWrite { offset: TDMA_ARRAYBASE0_L, value: header.arraybase_0_l },
            RegWrite { offset: TDMA_ARRAYBASE1_L, value: header.arraybase_1_l },
            RegWrite { offset: TDMA_ARRAYBASE2_L, value: header.arraybase_2_l },
            RegWrite { offset: TDMA_ARRAYBASE3_L, value: header.arraybase_3_l },
            RegWrite { offset: TDMA_ARRAYBASE4_L, value: header.arraybase_4_l },
            RegWrite { offset: TDMA_ARRAYBASE5_L, value: header.arraybase_5_l },
            RegWrite { offset: TDMA_ARRAYBASE6_L, value: header.arraybase_6_l },
            RegWrite { offset: TDMA_ARRAYBASE7_L, value: header.arraybase_7_l },
            RegWrite { offset: TDMA_ARRAYBASE0_H, value: 0 },
            RegWrite { offset: TDMA_ARRAYBASE1_H, value: 0 },
        ];
        assert(ws@ =~= tdma_array_base_writes(*header));
        self.bank.write_all(&ws);
    }

    /// Resets the sync id and acknowledges interrupts.
    pub fn reset_sync_id(&mut self)
        requires
            old(self).wf(),
        ensures
            final(self).wf(),
            final(self).wrote(*old(self), tdma_reset_sync_id_writes()),
    {
        let ws: Vec<RegWrite> = vec![
            RegWrite { offset: TDMA_CTRL, value: 1u32 << TDMA_CTRL_RESET_SYNCID_BIT },
            RegWrite { offset: TDMA_CTRL, value: 0 },
            RegWrite { offset: TDMA_INT_MASK, value: TDMA_INT_CLEAR },
        ];
        assert(1u32 << 2u32 == 4u32) by (bit_vector);
        assert(ws@ =~= tdma_reset_sync_id_writes());
        self.bank.write_all(&ws);
    }

    /// Points the engine at `num_tdma` descriptors at `desc_offset` and
    /// starts it.
    pub fn fire_descriptor(&mut self, desc_offset: u64, num_tdma: u32)
        requires
            old(self).wf(),
        ensures
            final(self).wf(),
            final(self).wrote(*old(self), tdma_fire_writes(desc_offset, num_tdma)),
    {
        let ctrl: u32 = (1u32 << TDMA_CTRL_ENABLE_BIT) | (1u32 << TDMA_CTRL_MODESEL_BIT) | (
        num_tdma << TDMA_CTRL_DESNUM_BIT) | (3u32 << TDMA_CTRL_BURSTLEN_BIT) | (1u32
            << TDMA_CTRL_FORCE_1ARRAY) | (1u32 << TDMA_CTRL_INTRA_CMD_OFF) | (1u32
            << TDMA_CTRL_64BYTE_ALIGN_EN);
        let ws: Vec<RegWrite> = vec![
            RegWrite { offset: TDMA_DES_BASE, value: #[verifier::truncate] (desc_offset as u32) },
            RegWrite { offset: TDMA_DEBUG_MODE, value: 0 },
            RegWrite { offset: TDMA_DCM_DISABLE, value: 0 },
            RegWrite { offset: TDMA_INT_MASK, value: TDMA_MASK_INIT },
            RegWrite { offset: TDMA_CTRL, value: ctrl },
        ];
        assert(ws@ =~= tdma_fire_writes(desc_offset, num_tdma));
        self.bank.write_all(&ws);
    }
}

} // verus!
