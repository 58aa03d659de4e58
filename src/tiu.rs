//! TIU (tensor instruction unit) registers and the sequences that drive
//! them. Every operation works on the BD control block at 0x100.

use vstd::prelude::*;
use crate::regs::{reg_offset_ok, wr, RegBank, RegWrite, W1c, REG_BANK_BYTES, REG_BANK_WORDS};

verus! {

/// Alignment shift of TIU descriptor addresses.
pub const BDC_ENGINE_CMD_ALIGNED_BIT: u64 = 8;

/// Offset of the BD control block.
pub const BD_CTRL_BASE_ADDR: usize = 0x100;

/// TPU enable bit.
pub const BD_TPU_EN: u32 = 0;
/// Descriptor-address-valid bit.
pub const BD_DES_ADDR_VLD: u32 = 30;
/// Global TIU interrupt enable bit.
pub const BD_INTR_ENABLE: u32 = 31;

/// Interrupt flag of BD_CTRL+0; writing it back as one clears it.
pub const BD_INTR_FLAG: u32 = 0x2;

/// Offsets of the BD control words.
pub const BD_CTRL0: usize = 0x100;
pub const BD_CTRL4: usize = 0x104;
pub const BD_CTRL8: usize = 0x108;
pub const BD_CTRLC: usize = 0x10C;

/// Bits of BD_CTRL+0 that hold the completed command id.
pub const BD_ID_MASK: u32 = 0x003F_FFC0;

/// Command id the TIU reports as completed, from BD_CTRL+0.
pub open spec fn bd_current_id(v: u32) -> u32 {
    (v >> 6u32) & 0xFFFFu32
}

/// Whether BD_CTRL+0 has the interrupt flag raised.
pub open spec fn bd_intr_raised(v: u32) -> bool {
    v & BD_INTR_FLAG != 0
}

/// BD_CTRL+0 with the engine and descriptor mode disabled.
pub open spec fn bd_disabled(v: u32) -> u32 {
    v & !((1u32 << BD_TPU_EN) | (1u32 << BD_DES_ADDR_VLD))
}

/// What BD_CTRL+0 holds after `value` is written over `prior`: the
/// interrupt flag is write-one-to-clear, every other bit takes the value.
pub open spec fn bd_ctrl0_store(prior: u32, value: u32) -> u32 {
    (value & !BD_INTR_FLAG) | (prior & BD_INTR_FLAG & !value)
}

/// The TIU words after the write `w`. Besides the written word: BD_CTRL+0
/// clears its interrupt flag where a one is written, and setting bit 0 of
/// BD_CTRL+0xC resets the command id held in BD_CTRL+0.
pub open spec fn tiu_store(words: Seq<u32>, w: RegWrite) -> Seq<u32> {
    let i = w.offset as int / 4;
    let c0 = BD_CTRL0 as int / 4;
    if w.offset == BD_CTRL0 {
        words.update(i, bd_ctrl0_store(words[i], w.value))
    } else if w.offset == BD_CTRLC && w.value & 1u32 != 0 {
        words.update(i, w.value).update(c0, words[c0] & !BD_ID_MASK)
    } else {
        words.update(i, w.value)
    }
}

pub open spec fn tiu_reset_id_writes(words: Seq<u32>) -> Seq<RegWrite> {
    let vc = words[BD_CTRLC as int / 4];
    let v0 = words[BD_CTRL0 as int / 4] & !BD_ID_MASK;
    seq![
        wr(BD_CTRLC, vc | 1u32),
        wr(BD_CTRLC, vc & !1u32),
        wr(BD_CTRL0, bd_disabled(v0)),
        wr(BD_CTRL0, (bd_disabled(v0) & !BD_INTR_FLAG) | BD_INTR_FLAG),
    ]
}

/// BD_CTRL+0 set for one array with eight lanes.
pub open spec fn bd_one_array(v: u32) -> u32 {
    (v & !0x3FC00000u32) | (3u32 << 22u32)
}

/// Bits that start the TIU.
pub open spec fn bd_start_bits() -> u32 {
    (1u32 << BD_DES_ADDR_VLD) | (1u32 << BD_INTR_ENABLE) | (1u32 << BD_TPU_EN)
}

pub open spec fn tiu_desc_addr(desc_offset: u64) -> u64 {
    desc_offset << BDC_ENGINE_CMD_ALIGNED_BIT
}

pub open spec fn tiu_fire_writes(words: Seq<u32>, desc_offset: u64) -> Seq<RegWrite> {
    let addr = tiu_desc_addr(desc_offset);
    let v8 = words[BD_CTRL8 as int / 4];
    let vc = words[BD_CTRLC as int / 4];
    let w0 = words[BD_CTRL0 as int / 4];
    let v0 = if (vc | (1u32 << 11u32)) & 1u32 != 0 {
        w0 & !BD_ID_MASK
    } else {
        w0
    };
    seq![
        wr(BD_CTRL4, #[verifier::truncate] ((addr & 0xFFFF_FFFFu64) as u32)),
        wr(BD_CTRL8, (v8 & 0xFFFF_FF00u32) | (#[verifier::truncate] ((addr >> 32u64) as u32) & 0xFFu32)),
        wr(BD_CTRLC, vc | (1u32 << 11u32)),
        wr(BD_CTRL0, bd_one_array(v0)),
        wr(BD_CTRL0, (bd_one_array(v0) & !BD_INTR_FLAG) | bd_start_bits()),
    ]
}

pub open spec fn tiu_clear_interrupt_writes(words: Seq<u32>) -> Seq<RegWrite> {
    seq![wr(BD_CTRL0, words[BD_CTRL0 as int / 4] | BD_INTR_FLAG)]
}

proof fn lemma_store_facts(v: u32, m: u32)
    ensures
        m & 2u32 == 2u32 ==> bd_ctrl0_store(v, v & m) == (v & m) & !BD_INTR_FLAG,
        bd_ctrl0_store(v & !BD_INTR_FLAG, (v & !BD_INTR_FLAG) | BD_INTR_FLAG) == v & !BD_INTR_FLAG,
        bd_ctrl0_store(v, v | BD_INTR_FLAG) == v & !BD_INTR_FLAG,
        bd_ctrl0_store(v, bd_one_array(v)) == bd_one_array(v) & !BD_INTR_FLAG,
        bd_ctrl0_store(bd_one_array(v) & !BD_INTR_FLAG, (bd_one_array(v) & !BD_INTR_FLAG) | bd_start_bits())
            == (bd_one_array(v) & !BD_INTR_FLAG) | bd_start_bits(),
{
    assert((m & 2u32) == 2u32 ==> (((v & m) & !2u32) | (v & 2u32 & !(v & m))) == ((v & m) & !2u32))
        by (bit_vector);
    assert(((((v & !2u32) | 2u32) & !2u32) | ((v & !2u32) & 2u32 & !((v & !2u32) | 2u32))) == (v
        & !2u32)) by (bit_vector);
    assert((((v | 2u32) & !2u32) | (v & 2u32 & !(v | 2u32))) == (v & !2u32)) by (bit_vector);
    let a = (v & !0x3FC00000u32) | (3u32 << 22u32);
    assert(((a & !2u32) | (v & 2u32 & !a)) == (a & !2u32)) by (bit_vector)
        requires
            a == (v & !0x3FC00000u32) | (3u32 << 22u32),
    ;
    let st = (1u32 << 30u32) | (1u32 << 31u32) | (1u32 << 0u32);
    assert((((((a & !2u32) | st) & !2u32) | ((a & !2u32) & 2u32 & !((a & !2u32) | st)))) == ((a
        & !2u32) | st)) by (bit_vector)
        requires
            st == (1u32 << 30u32) | (1u32 << 31u32) | (1u32 << 0u32),
    ;
}

proof fn lemma_fire_keeps_zero_id(w0: u32, p: u32)
    requires
        p == w0 || p == w0 & !BD_ID_MASK,
        bd_current_id(w0) == 0,
    ensures
        bd_current_id(bd_ctrl0_store(bd_one_array(p) & !BD_INTR_FLAG, (bd_one_array(p) & !BD_INTR_FLAG) | bd_start_bits())) == 0,
{
    lemma_store_facts(p, 0);
    let st = (1u32 << 30u32) | (1u32 << 31u32) | (1u32 << 0u32);
    assert(((w0 >> 6u32) & 0xFFFFu32) == 0 && (p == w0 || p == w0 & !0x003F_FFC0u32) ==> ((((((p
        & !0x3FC00000u32) | (3u32 << 22u32)) & !2u32) | st) >> 6u32) & 0xFFFFu32) == 0)
        by (bit_vector)
        requires
            st == (1u32 << 30u32) | (1u32 << 31u32) | (1u32 << 0u32),
    ;
}

/// Clearing the interrupt flag keeps the command id.
pub proof fn lemma_clear_keeps_id(v: u32)
    ensures
        bd_current_id(v & !BD_INTR_FLAG) == bd_current_id(v),
{
    assert((((v & !2u32) >> 6u32) & 0xFFFFu32) == ((v >> 6u32) & 0xFFFFu32)) by (bit_vector);
}

/// After an id reset the TIU reports command 0 with its interrupt clear.
pub proof fn lemma_reset_word(w0: u32)
    ensures
        bd_current_id(bd_disabled(w0 & !BD_ID_MASK) & !BD_INTR_FLAG) == 0,
        !bd_intr_raised(bd_disabled(w0 & !BD_ID_MASK) & !BD_INTR_FLAG),
{
    assert(((((w0 & !0x003F_FFC0u32) & !((1u32 << 0u32) | (1u32 << 30u32))) & !2u32) >> 6u32)
        & 0xFFFFu32 == 0) by (bit_vector);
    assert((((w0 & !0x003F_FFC0u32) & !((1u32 << 0u32) | (1u32 << 30u32))) & !2u32) & 2u32 == 0)
        by (bit_vector);
}

/// The TIU register bank. Its driver writes are logged; its words follow
/// `tiu_store`.
pub struct TiuRegs {
    base: usize,
    bank: RegBank,
}

impl TiuRegs {
    pub closed spec fn base_addr(&self) -> usize {
        self.base
    }

    pub closed spec fn bank(&self) -> RegBank {
        self.bank
    }

    pub open spec fn wf(&self) -> bool {
        &&& self.bank().wf()
        &&& self.bank().w1c().offset == REG_BANK_BYTES
    }

    /// `self` is `before` followed by exactly the writes `ws`.
    pub open spec fn wrote(&self, before: TiuRegs, ws: Seq<RegWrite>) -> bool {
        &&& self.base_addr() == before.base_addr()
        &&& self.bank().log() == before.bank().log() + ws
    }

    pub open spec fn word(&self, offset: usize) -> u32 {
        self.bank().word(offset)
    }

    /// A bank mapped at virtual address `base`, all words zero.
    pub fn new(base: usize) -> (r: TiuRegs)
        ensures
            r.wf(),
            r.base_addr() == base,
            r.bank().words() == Seq::new(REG_BANK_WORDS as nat, |i: int| 0u32),
            r.bank().log() == Seq::<RegWrite>::empty(),
    {
        TiuRegs { base, bank: RegBank::new(W1c { offset: REG_BANK_BYTES, mask: 0 }) }
    }

    pub fn read(&self, offset: usize) -> (r: u32)
        requires
            self.wf(),
            reg_offset_ok(offset),
        ensures
            r == self.word(offset),
    {
        self.bank.read(offset)
    }

    pub fn write(&mut self, offset: usize, value: u32)
        requires
            old(self).wf(),
            reg_offset_ok(offset),
        ensures
            final(self).wf(),
            final(self).wrote(*old(self), seq![wr(offset, value)]),
            final(self).bank().words() == tiu_store(old(self).bank().words(), wr(offset, value)),
    {
        let prior = self.bank.read(BD_CTRL0);
        self.bank.write(offset, value);
        if offset == BD_CTRL0 {
            self.bank.hw_set(BD_CTRL0, (value & !BD_INTR_FLAG) | (prior & BD_INTR_FLAG & !value));
        } else if offset == BD_CTRLC && value & 1u32 != 0 {
            self.bank.hw_set(BD_CTRL0, prior & !BD_ID_MASK);
        }
        proof {
            assert(self.bank().words() =~= tiu_store(old(self).bank().words(), wr(offset, value)));
        }
    }

    /// A change made by the engine itself (not a driver write).
    pub fn hw_set(&mut self, offset: usize, value: u32)
        requires
            old(self).wf(),
            reg_offset_ok(offset),
        ensures
            final(self).wf(),
            final(self).base_addr() == old(self).base_addr(),
            final(self).bank().words() == old(self).bank().words().update(offset as int / 4, value),
            final(self).bank().log() == old(self).bank().log(),
    {
        self.bank.hw_set(offset, value)
    }

    /// Hands out the driver writes issued so far and forgets them.
    pub fn take_log(&mut self) -> (r: Vec<RegWrite>)
        requires
            old(self).wf(),
        ensures
            final(self).wf(),
            final(self).base_addr() == old(self).base_addr(),
            r@ == old(self).bank().log(),
            final(self).bank().log() == Seq::<RegWrite>::empty(),
            final(self).bank().words() == old(self).bank().words(),
    {
        self.bank.take_log()
    }

    /// Virtual base address of the bank.
    pub fn base(&self) -> (r: usize)
        ensures
            r == self.base_addr(),
    {
        self.base
    }

    /// Reads the BD control word at `offset` from the control block.
    pub fn read_bd_ctrl(&self, offset: usize) -> (r: u32)
        requires
            self.wf(),
            reg_offset_ok((BD_CTRL_BASE_ADDR + offset) as usize),
            offset < 0x100,
        ensures
            r == self.word((BD_CTRL_BASE_ADDR + offset) as usize),
    {
        self.read(BD_CTRL_BASE_ADDR + offset)
    }

    /// Writes the BD control word at `offset` from the control block.
    pub fn write_bd_ctrl(&mut self, offset: usize, value: u32)
        requires
            old(self).wf(),
            reg_offset_ok((BD_CTRL_BASE_ADDR + offset) as usize),
            offset < 0x100,
        ensures
            final(self).wf(),
            final(self).wrote(*old(self), seq![wr((BD_CTRL_BASE_ADDR + offset) as usize, value)]),
            final(self).bank().words() == tiu_store(
                old(self).bank().words(),
                wr((BD_CTRL_BASE_ADDR + offset) as usize, value),
            ),
    {
        self.write(BD_CTRL_BASE_ADDR + offset, value)
    }

    /// Command id the TIU reports as completed.
    pub fn get_current_bd_id(&self) -> (r: u32)
        requires
            self.wf(),
        ensures
            r == bd_current_id(self.word(BD_CTRL0)),
    {
        (self.read_bd_ctrl(0) >> 6u32) & 0xFFFF
    }

    /// Whether the TIU interrupt flag is raised.
    pub fn is_bd_interrupt(&self) -> (r: bool)
        requires
            self.wf(),
        ensures
            r == bd_intr_raised(self.word(BD_CTRL0)),
    {
        (self.read_bd_ctrl(0) & BD_INTR_FLAG) != 0
    }

    /// Acknowledges the TIU interrupt.
    pub fn clear_bd_interrupt(&mut self)
        requires
            old(self).wf(),
        ensures
            final(self).wf(),
            final(self).wrote(*old(self), tiu_clear_interrupt_writes(old(self).bank().words())),
            final(self).word(BD_CTRL0) == old(self).word(BD_CTRL0) & !BD_INTR_FLAG,
    {
        let reg_val = self.read_bd_ctrl(0);
        self.write_bd_ctrl(0, reg_val | BD_INTR_FLAG);
        proof {
            lemma_store_facts(reg_val, 0);
        }
    }

    /// Resets the TIU command id, disables the engine and clears its
    /// interrupt. Afterwards the TIU reports command 0.
    pub fn reset_id(&mut self)
        requires
            old(self).wf(),
        ensures
            final(self).wf(),
            final(self).wrote(*old(self), tiu_reset_id_writes(old(self).bank().words())),
            final(self).word(BD_CTRL0) == bd_disabled(old(self).word(BD_CTRL0) & !BD_ID_MASK)
                & !BD_INTR_FLAG,
            bd_current_id(final(self).word(BD_CTRL0)) == 0,
            !bd_intr_raised(final(self).word(BD_CTRL0)),
    {
        let ghost w0 = self.word(BD_CTRL0);
        let reg_val = self.read_bd_ctrl(0xC);
        assert((reg_val | 1u32) & 1u32 != 0 && (reg_val & !1u32) & 1u32 == 0) by (bit_vector);
        self.write_bd_ctrl(0xC, reg_val | 1);
        self.write_bd_ctrl(0xC, reg_val & !1u32);
        let reg_val0 = self.read_bd_ctrl(0);
        assert(reg_val0 == w0 & !BD_ID_MASK);
        assert((!((1u32 << 0u32) | (1u32 << 30u32))) & 2u32 == 2u32) by (bit_vector);
        self.write_bd_ctrl(0, reg_val0 & !((1u32 << BD_TPU_EN) | (1u32 << BD_DES_ADDR_VLD)));
        proof {
            lemma_store_facts(reg_val0, !((1u32 << BD_TPU_EN) | (1u32 << BD_DES_ADDR_VLD)));
        }
        let reg_val1 = self.read_bd_ctrl(0);
        self.write_bd_ctrl(0, reg_val1 | BD_INTR_FLAG);
        proof {
            lemma_store_facts(reg_val1, 0);
            lemma_reset_word(w0);
            let x = bd_disabled(reg_val0);
            assert(reg_val1 == x & !BD_INTR_FLAG);
            assert((x & !2u32) & !2u32 == x & !2u32) by (bit_vector);
            assert(self.word(BD_CTRL0) == bd_ctrl0_store(reg_val1, reg_val1 | BD_INTR_FLAG));
            assert(self.bank().log() =~= old(self).bank().log() + tiu_reset_id_writes(
                old(self).bank().words(),
            ));
        }
    }

    /// Points the TIU at the descriptors at `desc_offset` and starts it.
    pub fn fire_descriptor(&mut self, desc_offset: u64, _num_bd: u32)
        requires
            old(self).wf(),
        ensures
            final(self).wf(),
            final(self).wrote(*old(self), tiu_fire_writes(old(self).bank().words(), desc_offset)),
            bd_current_id(old(self).word(BD_CTRL0)) == 0 ==> bd_current_id(final(self).word(BD_CTRL0))
                == 0,
    {
        let desc_addr: u64 = desc_offset << BDC_ENGINE_CMD_ALIGNED_BIT;
        let lo: u32 = #[verifier::truncate] ((desc_addr & 0xFFFF_FFFFu64) as u32);
        self.write_bd_ctrl(0x4, lo);
        let reg_val8 = self.read_bd_ctrl(0x8);
        let hi: u32 = #[verifier::truncate] ((desc_addr >> 32u64) as u32) & 0xFFu32;
        self.write_bd_ctrl(0x8, (reg_val8 & 0xFFFF_FF00u32) | hi);
        let reg_valc = self.read_bd_ctrl(0xC);
        self.write_bd_ctrl(0xC, reg_valc | (1u32 << 11u32));
        let prior0 = self.read_bd_ctrl(0);
        let reg_val0 = (prior0 & !0x3FC00000u32) | (3u32 << 22u32);
        self.write_bd_ctrl(0, reg_val0);
        proof {
            lemma_store_facts(prior0, 0);
        }
        let reg_val0b = self.read_bd_ctrl(0);
        self.write_bd_ctrl(
            0,
            reg_val0b | ((1u32 << BD_DES_ADDR_VLD) | (1u32 << BD_INTR_ENABLE) | (1u32 << BD_TPU_EN)),
        );
        proof {
            assert(self.bank().log() =~= old(self).bank().log() + tiu_fire_writes(
                old(self).bank().words(),
                desc_offset,
            ));
            let s1 = reg_val0b;
            lemma_store_facts(prior0, 0);
            assert(self.word(BD_CTRL0) == bd_ctrl0_store(s1, s1 | bd_start_bits()));
            if bd_current_id(old(self).word(BD_CTRL0)) == 0 {
                assert(prior0 == old(self).word(BD_CTRL0) || prior0 == old(self).word(BD_CTRL0)
                    & !BD_ID_MASK);
                lemma_fire_keeps_zero_id(old(self).word(BD_CTRL0), prior0);
            }
        }
    }
}

} // verus!
