//! Binary layout of the user-prepared DMA command buffer and related
//! descriptor types.

use vstd::prelude::*;

verus! {

/// TDMA physical base address.
pub const TDMA_PHYS_BASE: usize = 0x0C10_0000;

/// TIU physical base address.
pub const TIU_PHYS_BASE: usize = 0x0C10_1000;

/// Default timeout in milliseconds.
pub const DEFAULT_TIMEOUT_MS: u64 = 60000;

/// Magic number that opens a valid command buffer.
pub const TPU_DMABUF_HEADER_M: u16 = 0xB5B5;

/// Size in bytes of the command-buffer header.
pub const DMA_HEADER_BYTES: usize = 128;

/// Number of 32-bit words of a CPU sync descriptor.
pub const CPU_ENGINE_DESCRIPTOR_NUM: usize = 56;

/// Size in bytes of one CPU sync descriptor.
pub const CPU_SYNC_DESC_BYTES: usize = 224;

/// Size in bytes of the debug string carried by a CPU sync descriptor.
pub const CPU_SYNC_DESC_STR_BYTES: usize = 196;

/// Little-endian 16-bit value at `off`.
pub open spec fn le_u16(b: Seq<u8>, off: int) -> u16 {
    (b[off] as u16) | ((b[off + 1] as u16) << 8u16)
}

/// Little-endian 32-bit value at `off`.
pub open spec fn le_u32(b: Seq<u8>, off: int) -> u32 {
    (b[off] as u32) | ((b[off + 1] as u32) << 8u32) | ((b[off + 2] as u32) << 16u32) | ((b[off
        + 3] as u32) << 24u32)
}

pub fn read_u16_le(b: &[u8], off: usize) -> (r: u16)
    requires
        off + 2 <= b@.len(),
    ensures
        r == le_u16(b@, off as int),
{
    (b[off] as u16) | ((b[off + 1] as u16) << 8u16)
}

pub fn read_u32_le(b: &[u8], off: usize) -> (r: u32)
    requires
        off + 4 <= b@.len(),
    ensures
        r == le_u32(b@, off as int),
{
    (b[off] as u32) | ((b[off + 1] as u32) << 8u32) | ((b[off + 2] as u32) << 16u32) | ((b[off
        + 3] as u32) << 24u32)
}

/// Header of a DMA command buffer (128 bytes, little-endian).
#[derive(Clone, Copy, Debug)]
pub struct DmaHeader {
    /// Magic number, high half.
    pub dmabuf_magic_m: u16,
    /// Magic number, low half.
    pub dmabuf_magic_s: u16,
    /// Total size of the command buffer.
    pub dmabuf_size: u32,
    /// Number of CPU sync descriptors after the header.
    pub cpu_desc_count: u32,
    /// Number of TIU (BD) descriptors.
    pub bd_desc_count: u32,
    /// Number of TDMA descriptors.
    pub tdma_desc_count: u32,
    /// TPU clock rate.
    pub tpu_clk_rate: u32,
    /// Size of the PMU sample buffer.
    pub pmubuf_size: u32,
    /// Offset of the PMU sample buffer from the start of the command buffer.
    pub pmubuf_offset: u32,
    /// Array base 0, low 32 bits.
    pub arraybase_0_l: u32,
    /// Array base 0, high 32 bits.
    pub arraybase_0_h: u32,
    /// Array base 1, low 32 bits.
    pub arraybase_1_l: u32,
    /// Array base 1, high 32 bits.
    pub arraybase_1_h: u32,
    /// Array base 2, low 32 bits.
    pub arraybase_2_l: u32,
    /// Array base 2, high 32 bits.
    pub arraybase_2_h: u32,
    /// Array base 3, low 32 bits.
    pub arraybase_3_l: u32,
    /// Array base 3, high 32 bits.
    pub arraybase_3_h: u32,
    /// Array base 4, low 32 bits.
    pub arraybase_4_l: u32,
    /// Array base 4, high 32 bits.
    pub arraybase_4_h: u32,
    /// Array base 5, low 32 bits.
    pub arraybase_5_l: u32,
    /// Array base 5, high 32 bits.
    pub arraybase_5_h: u32,
    /// Array base 6, low 32 bits.
    pub arraybase_6_l: u32,
    /// Array base 6, high 32 bits.
    pub arraybase_6_h: u32,
    /// Array base 7, low 32 bits.
    pub arraybase_7_l: u32,
    /// Array base 7, high 32 bits.
    pub arraybase_7_h: u32,
    /// Reserved words.
    pub reserved: [u32; 8],
}

/// `h` is the header that the first 128 bytes of `b` encode.
pub open spec fn header_matches(h: DmaHeader, b: Seq<u8>) -> bool {
    &&& h.dmabuf_magic_m == le_u16(b, 0)
    &&& h.dmabuf_magic_s == le_u16(b, 2)
    &&& h.dmabuf_size == le_u32(b, 4)
    &&& h.cpu_desc_count == le_u32(b, 8)
    &&& h.bd_desc_count == le_u32(b, 12)
    &&& h.tdma_desc_count == le_u32(b, 16)
    &&& h.tpu_clk_rate == le_u32(b, 20)
    &&& h.pmubuf_size == le_u32(b, 24)
    &&& h.pmubuf_offset == le_u32(b, 28)
    &&& h.arraybase_0_l == le_u32(b, 32)
    &&& h.arraybase_0_h == le_u32(b, 36)
    &&& h.arraybase_1_l == le_u32(b, 40)
    &&& h.arraybase_1_h == le_u32(b, 44)
    &&& h.arraybase_2_l == le_u32(b, 48)
    &&& h.arraybase_2_h == le_u32(b, 52)
    &&& h.arraybase_3_l == le_u32(b, 56)
    &&& h.arraybase_3_h == le_u32(b, 60)
    &&& h.arraybase_4_l == le_u32(b, 64)
    &&& h.arraybase_4_h == le_u32(b, 68)
    &&& h.arraybase_5_l == le_u32(b, 72)
    &&& h.arraybase_5_h == le_u32(b, 76)
    &&& h.arraybase_6_l == le_u32(b, 80)
    &&& h.arraybase_6_h == le_u32(b, 84)
    &&& h.arraybase_7_l == le_u32(b, 88)
    &&& h.arraybase_7_h == le_u32(b, 92)
    &&& h.reserved@ == Seq::new(8, |i: int| le_u32(b, 96 + 4 * i))
}

impl DmaHeader {
    pub open spec fn spec_is_valid(&self) -> bool {
        self.dmabuf_magic_m == TPU_DMABUF_HEADER_M
    }

    pub open spec fn spec_has_valid_pmu(&self) -> bool {
        &&& self.pmubuf_offset != 0
        &&& self.pmubuf_size != 0
        &&& self.pmubuf_offset & 0xF == 0
        &&& self.pmubuf_size & 0xF == 0
    }

    /// Decodes the header at the start of `b`; `None` when `b` is shorter
    /// than a header.
    pub fn from_bytes(b: &[u8]) -> (r: Option<DmaHeader>)
        ensures
            b@.len() < DMA_HEADER_BYTES ==> r is None,
            b@.len() >= DMA_HEADER_BYTES ==> r is Some && header_matches(r->0, b@),
    {
        if b.len() < DMA_HEADER_BYTES {
            return None;
        }
        let mut reserved: [u32; 8] = [0u32; 8];
        let mut i: usize = 0;
        while i < 8
            invariant
                i <= 8,
                b@.len() >= DMA_HEADER_BYTES,
                forall|k: int| 0 <= k < i ==> reserved@[k] == le_u32(b@, 96 + 4 * k),
            decreases 8 - i,
        {
            reserved[i] = read_u32_le(b, 96 + 4 * i);
            i = i + 1;
        }
        let h = DmaHeader {
            dmabuf_magic_m: read_u16_le(b, 0),
            dmabuf_magic_s: read_u16_le(b, 2),
            dmabuf_size: read_u32_le(b, 4),
            cpu_desc_count: read_u32_le(b, 8),
            bd_desc_count: read_u32_le(b, 12),
            tdma_desc_count: read_u32_le(b, 16),
            tpu_clk_rate: read_u32_le(b, 20),
            pmubuf_size: read_u32_le(b, 24),
            pmubuf_offset: read_u32_le(b, 28),
            arraybase_0_l: read_u32_le(b, 32),
            arraybase_0_h: read_u32_le(b, 36),
            arraybase_1_l: read_u32_le(b, 40),
            arraybase_1_h: read_u32_le(b, 44),
            arraybase_2_l: read_u32_le(b, 48),
            arraybase_2_h: read_u32_le(b, 52),
            arraybase_3_l: read_u32_le(b, 56),
            arraybase_3_h: read_u32_le(b, 60),
            arraybase_4_l: read_u32_le(b, 64),
            arraybase_4_h: read_u32_le(b, 68),
            arraybase_5_l: read_u32_le(b, 72),
            arraybase_5_h: read_u32_le(b, 76),
            arraybase_6_l: read_u32_le(b, 80),
            arraybase_6_h: read_u32_le(b, 84),
            arraybase_7_l: read_u32_le(b, 88),
            arraybase_7_h: read_u32_le(b, 92),
            reserved,
        };
        assert(h.reserved@ =~= Seq::new(8, |i: int| le_u32(b@, 96 + 4 * i)));
        Some(h)
    }

    /// Whether the magic number is present.
    pub fn is_valid(&self) -> (r: bool)
        ensures
            r == self.spec_is_valid(),
    {
        self.dmabuf_magic_m == TPU_DMABUF_HEADER_M
    }

    /// Whether a PMU buffer is configured, non-empty and 16-byte aligned.
    pub fn has_valid_pmu(&self) -> (r: bool)
        ensures
            r == self.spec_has_valid_pmu(),
    {
        self.pmubuf_offset != 0 && self.pmubuf_size != 0 && (self.pmubuf_offset & 0xF) == 0 && (
        self.pmubuf_size & 0xF) == 0
    }
}

/// A header decoded from `b` is valid exactly when `b` opens with the bytes
/// 0xB5 0xB5.
pub proof fn lemma_header_valid_iff_magic_bytes(h: DmaHeader, b: Seq<u8>)
    requires
        b.len() >= DMA_HEADER_BYTES,
        header_matches(h, b),
    ensures
        h.spec_is_valid() <==> (b[0] == 0xB5u8 && b[1] == 0xB5u8),
{
    let b0 = b[0];
    let b1 = b[1];
    assert(((b0 as u16) | ((b1 as u16) << 8u16)) == 0xB5B5u16 <==> (b0 == 0xB5u8 && b1 == 0xB5u8))
        by (bit_vector);
}

/// CPU sync descriptor that follows the header, one per engine run.
#[derive(Clone, Copy, Debug)]
pub struct CpuSyncDesc {
    /// Operation type.
    pub op_type: u32,
    /// Number of TIU (BD) commands.
    pub num_bd: u32,
    /// Number of TDMA (GDMA) commands.
    pub num_gdma: u32,
    /// Offset of the TIU descriptors.
    pub offset_bd: u32,
    /// Offset of the TDMA descriptors.
    pub offset_gdma: u32,
    /// Reserved words.
    pub reserved: [u32; 2],
    /// Debug string.
    pub str_data: [u8; 196],
}

/// `d` is the descriptor that the 224 bytes of `b` at `off` encode.
pub open spec fn desc_matches(d: CpuSyncDesc, b: Seq<u8>, off: int) -> bool {
    &&& d.op_type == le_u32(b, off)
    &&& d.num_bd == le_u32(b, off + 4)
    &&& d.num_gdma == le_u32(b, off + 8)
    &&& d.offset_bd == le_u32(b, off + 12)
    &&& d.offset_gdma == le_u32(b, off + 16)
    &&& d.reserved@ == seq![le_u32(b, off + 20), le_u32(b, off + 24)]
    &&& d.str_data@ == b.subrange(off + 28, off + 224)
}

/// Byte offset of the descriptor with index `i`.
pub open spec fn desc_offset(i: int) -> int {
    DMA_HEADER_BYTES + CPU_SYNC_DESC_BYTES * i
}

/// The descriptor with index `i` lies inside `b`.
pub open spec fn desc_in_bounds(b: Seq<u8>, i: int) -> bool {
    desc_offset(i) + CPU_SYNC_DESC_BYTES <= b.len()
}

impl CpuSyncDesc {
    /// Decodes the descriptor with index `i`; `None` when it does not lie
    /// inside `b`.
    pub fn from_bytes(b: &[u8], i: u32) -> (r: Option<CpuSyncDesc>)
        ensures
            desc_in_bounds(b@, i as int) ==> r is Some && desc_matches(r->0, b@, desc_offset(
                i as int,
            )),
            !desc_in_bounds(b@, i as int) ==> r is None,
    {
        if b.len() < DMA_HEADER_BYTES {
            return None;
        }
        if (i as usize) >= (b.len() - DMA_HEADER_BYTES) / CPU_SYNC_DESC_BYTES {
            proof {
                assert(desc_offset(i as int) + CPU_SYNC_DESC_BYTES > b@.len()) by (nonlinear_arith)
                    requires
                        i as int >= (b@.len() - 128) / 224,
                        b@.len() >= 128,
                ;
            }
            return None;
        }
        let off: usize = DMA_HEADER_BYTES + CPU_SYNC_DESC_BYTES * (i as usize);
        proof {
            assert(desc_offset(i as int) + CPU_SYNC_DESC_BYTES <= b@.len()) by (nonlinear_arith)
                requires
                    (i as int) < (b@.len() - 128) / 224,
                    b@.len() >= 128,
            ;
        }
        let mut str_data: [u8; 196] = [0u8; 196];
        let mut k: usize = 0;
        while k < CPU_SYNC_DESC_STR_BYTES
            invariant
                k <= CPU_SYNC_DESC_STR_BYTES,
                off + CPU_SYNC_DESC_BYTES <= b.len(),
                forall|j: int| 0 <= j < k ==> str_data@[j] == b@[off + 28 + j],
            decreases CPU_SYNC_DESC_STR_BYTES - k,
        {
            str_data[k] = b[off + 28 + k];
            k = k + 1;
        }
        let d = CpuSyncDesc {
            op_type: read_u32_le(b, off),
            num_bd: read_u32_le(b, off + 4),
            num_gdma: read_u32_le(b, off + 8),
            offset_bd: read_u32_le(b, off + 12),
            offset_gdma: read_u32_le(b, off + 16),
            reserved: [read_u32_le(b, off + 20), read_u32_le(b, off + 24)],
            str_data,
        };
        assert(d.reserved@ =~= seq![le_u32(b@, off + 20), le_u32(b@, off + 24)]);
        assert(d.str_data@ =~= b@.subrange(off + 28, off + 224));
        Some(d)
    }
}

} // verus!

verus! {

/// Command ids a run waits for on each engine.
#[derive(Debug, Clone, Copy, Default)]
pub struct CmdIdNode {
    /// TIU (BD) command id.
    pub bd_cmd_id: u32,
    /// TDMA command id.
    pub tdma_cmd_id: u32,
}

/// Platform configuration of the TPU.
#[derive(Debug, Clone, Copy)]
pub struct TpuPlatformCfg {
    /// TDMA base (virtual address).
    pub tdma_base: usize,
    /// TIU base (virtual address).
    pub tiu_base: usize,
    /// PMU buffer physical address.
    pub pmubuf_addr_p: u64,
    /// PMU buffer size.
    pub pmubuf_size: u32,
}

/// Event the PMU samples.
#[derive(Debug, Clone, Copy, PartialEq, Eq, Structural)]
pub enum TpuPmuEvent {
    BankConflict,
    StallCount,
    TdmaBandwidth,
    TdmaWriteStrobe,
}

pub open spec fn pmu_event_code(e: TpuPmuEvent) -> u32 {
    match e {
        TpuPmuEvent::BankConflict => 0,
        TpuPmuEvent::StallCount => 1,
        TpuPmuEvent::TdmaBandwidth => 2,
        TpuPmuEvent::TdmaWriteStrobe => 3,
    }
}

impl TpuPmuEvent {
    /// Hardware code of the event.
    pub fn code(&self) -> (r: u32)
        ensures
            r == pmu_event_code(*self),
    {
        match self {
            TpuPmuEvent::BankConflict => 0,
            TpuPmuEvent::StallCount => 1,
            TpuPmuEvent::TdmaBandwidth => 2,
            TpuPmuEvent::TdmaWriteStrobe => 3,
        }
    }
}

} // verus!

verus! {

/// Words of an encoded TDMA descriptor.
pub const TDMA_REG_WORDS: usize = 16;

/// Field values of one TDMA descriptor.
#[derive(Debug, Clone, Copy)]
pub struct TdmaReg {
    pub vld: u32,
    pub compress_en: u32,
    pub eod: u32,
    pub intp_en: u32,
    pub bar_en: u32,
    pub check_bf16_value: u32,
    pub trans_dir: u32,
    pub rsv00: u32,
    pub trans_fmt: u32,
    pub transpose_md: u32,
    pub rsv01: u32,
    pub intra_cmd_paral: u32,
    pub outstanding_en: u32,
    pub cmd_id: u32,
    pub spec_func: u32,
    pub dst_fmt: u32,
    pub src_fmt: u32,
    pub cmprs_fmt: u32,
    pub sys_dtype: u32,
    pub rsv2_1: u32,
    pub int8_sign: u32,
    pub compress_zero_guard: u32,
    pub int8_rnd_mode: u32,
    pub wait_id_tpu: u32,
    pub wait_id_other_tdma: u32,
    pub wait_id_sdma: u32,
    pub const_val: u32,
    pub src_base_reg_sel: u32,
    pub mv_lut_idx: u32,
    pub dst_base_reg_sel: u32,
    pub mv_lut_base: u32,
    pub rsv4_5: u32,
    pub dst_h_stride: u32,
    pub dst_c_stride_low: u32,
    pub dst_n_stride: u32,
    pub src_h_stride: u32,
    pub src_c_stride_low: u32,
    pub src_n_stride: u32,
    pub dst_c: u32,
    pub src_c: u32,
    pub dst_w: u32,
    pub dst_h: u32,
    pub src_w: u32,
    pub src_h: u32,
    pub dst_base_addr_low: u32,
    pub src_base_addr_low: u32,
    pub src_n: u32,
    pub dst_base_addr_high: u32,
    pub src_base_addr_high: u32,
    pub src_c_stride_high: u32,
    pub dst_c_stride_high: u32,
    pub compress_bias0: u32,
    pub compress_bias1: u32,
    pub layer_id: u32,
}

/// Word `i` of the encoding of `r`.
pub open spec fn tdma_reg_word(r: TdmaReg, i: int) -> u32 {
    if i == 0 {
        (r.vld & 0x1u32) | ((r.compress_en & 0x1u32) << 1u32) | ((r.eod & 0x1u32) << 2u32) | ((r.intp_en & 0x1u32) << 3u32) | ((r.bar_en & 0x1u32) << 4u32) | ((r.check_bf16_value & 0x1u32) << 5u32) | ((r.trans_dir & 0x3u32) << 6u32) | ((r.rsv00 & 0x3u32) << 8u32) | ((r.trans_fmt & 0x1u32) << 10u32) | ((r.transpose_md & 0x3u32) << 11u32) | ((r.rsv01 & 0x1u32) << 13u32) | ((r.intra_cmd_paral & 0x1u32) << 14u32) | ((r.outstanding_en & 0x1u32) << 15u32) | ((r.cmd_id & 0xFFFFu32) << 16u32)
    } else if i == 1 {
        (r.spec_func & 0x7u32) | ((r.dst_fmt & 0x3u32) << 3u32) | ((r.src_fmt & 0x3u32) << 5u32) | ((r.cmprs_fmt & 0x1u32) << 7u32) | ((r.sys_dtype & 0x1u32) << 8u32) | ((r.rsv2_1 & 0xFu32) << 9u32) | ((r.int8_sign & 0x1u32) << 13u32) | ((r.compress_zero_guard & 0x1u32) << 14u32) | ((r.int8_rnd_mode & 0x1u32) << 15u32) | ((r.wait_id_tpu & 0xFFFFu32) << 16u32)
    } else if i == 2 {
        (r.wait_id_other_tdma & 0xFFFFu32) | ((r.wait_id_sdma & 0xFFFFu32) << 16u32)
    } else if i == 3 {
        (r.const_val & 0xFFFFu32) | ((r.src_base_reg_sel & 0x7u32) << 16u32) | ((r.mv_lut_idx & 0x1u32) << 19u32) | ((r.dst_base_reg_sel & 0x7u32) << 20u32) | ((r.mv_lut_base & 0x1u32) << 23u32) | ((r.rsv4_5 & 0xFFu32) << 24u32)
    } else if i == 4 {
        (r.dst_h_stride & 0xFFFFu32) | ((r.dst_c_stride_low & 0xFFFFu32) << 16u32)
    } else if i == 5 {
        r.dst_n_stride
    } else if i == 6 {
        (r.src_h_stride & 0xFFFFu32) | ((r.src_c_stride_low & 0xFFFFu32) << 16u32)
    } else if i == 7 {
        r.src_n_stride
    } else if i == 8 {
        (r.dst_c & 0xFFFFu32) | ((r.src_c & 0xFFFFu32) << 16u32)
    } else if i == 9 {
        (r.dst_w & 0xFFFFu32) | ((r.dst_h & 0xFFFFu32) << 16u32)
    } else if i == 10 {
        (r.src_w & 0xFFFFu32) | ((r.src_h & 0xFFFFu32) << 16u32)
    } else if i == 11 {
        r.dst_base_addr_low
    } else if i == 12 {
        r.src_base_addr_low
    } else if i == 13 {
        (r.src_n & 0xFFFFu32) | ((r.dst_base_addr_high & 0xFFu32) << 16u32) | ((r.src_base_addr_high & 0xFFu32) << 24u32)
    } else if i == 14 {
        (r.src_c_stride_high & 0xFFFFu32) | ((r.dst_c_stride_high & 0xFFFFu32) << 16u32)
    } else {
        (r.compress_bias0 & 0xFFu32) | ((r.compress_bias1 & 0xFFu32) << 8u32) | ((r.layer_id & 0xFFFFu32) << 16u32)
    }
}

impl TdmaReg {
    /// A descriptor with unit shapes and strides and every other field zero.
    pub fn new() -> (r: TdmaReg)
        ensures
            r.vld == 0,
            r.compress_en == 0,
            r.eod == 0,
            r.intp_en == 0,
            r.bar_en == 0,
            r.check_bf16_value == 0,
            r.trans_dir == 0,
            r.rsv00 == 0,
            r.trans_fmt == 0,
            r.transpose_md == 0,
            r.rsv01 == 0,
            r.intra_cmd_paral == 0,
            r.outstanding_en == 0,
            r.cmd_id == 0,
            r.spec_func == 0,
            r.dst_fmt == 1,
            r.src_fmt == 1,
            r.cmprs_fmt == 0,
            r.sys_dtype == 0,
            r.rsv2_1 == 0,
            r.int8_sign == 0,
            r.compress_zero_guard == 0,
            r.int8_rnd_mode == 0,
            r.wait_id_tpu == 0,
            r.wait_id_other_tdma == 0,
            r.wait_id_sdma == 0,
            r.const_val == 0,
            r.src_base_reg_sel == 0,
            r.mv_lut_idx == 0,
            r.dst_base_reg_sel == 0,
            r.mv_lut_base == 0,
            r.rsv4_5 == 0,
            r.dst_h_stride == 1,
            r.dst_c_stride_low == 1,
            r.dst_n_stride == 1,
            r.src_h_stride == 1,
            r.src_c_stride_low == 1,
            r.src_n_stride == 1,
            r.dst_c == 1,
            r.src_c == 1,
            r.dst_w == 1,
            r.dst_h == 1,
            r.src_w == 1,
            r.src_h == 1,
            r.dst_base_addr_low == 0,
            r.src_base_addr_low == 0,
            r.src_n == 1,
            r.dst_base_addr_high == 0,
            r.src_base_addr_high == 0,
            r.src_c_stride_high == 0,
            r.dst_c_stride_high == 0,
            r.compress_bias0 == 0,
            r.compress_bias1 == 0,
            r.layer_id == 0,
    {
        TdmaReg {
            vld: 0,
            compress_en: 0,
            eod: 0,
            intp_en: 0,
            bar_en: 0,
            check_bf16_value: 0,
            trans_dir: 0,
            rsv00: 0,
            trans_fmt: 0,
            transpose_md: 0,
            rsv01: 0,
            intra_cmd_paral: 0,
            outstanding_en: 0,
            cmd_id: 0,
            spec_func: 0,
            dst_fmt: 1,
            src_fmt: 1,
            cmprs_fmt: 0,
            sys_dtype: 0,
            rsv2_1: 0,
            int8_sign: 0,
            compress_zero_guard: 0,
            int8_rnd_mode: 0,
            wait_id_tpu: 0,
            wait_id_other_tdma: 0,
            wait_id_sdma: 0,
            const_val: 0,
            src_base_reg_sel: 0,
            mv_lut_idx: 0,
            dst_base_reg_sel: 0,
            mv_lut_base: 0,
            rsv4_5: 0,
            dst_h_stride: 1,
            dst_c_stride_low: 1,
            dst_n_stride: 1,
            src_h_stride: 1,
            src_c_stride_low: 1,
            src_n_stride: 1,
            dst_c: 1,
            src_c: 1,
            dst_w: 1,
            dst_h: 1,
            src_w: 1,
            src_h: 1,
            dst_base_addr_low: 0,
            src_base_addr_low: 0,
            src_n: 1,
            dst_base_addr_high: 0,
            src_base_addr_high: 0,
            src_c_stride_high: 0,
            dst_c_stride_high: 0,
            compress_bias0: 0,
            compress_bias1: 0,
            layer_id: 0,
        }
    }

    /// Encodes the descriptor into its sixteen hardware words.
    pub fn emit(&self, out: &mut [u32; 16])
        ensures
            forall|i: int| 0 <= i < 16 ==> #[trigger] final(out)@[i] == tdma_reg_word(*self, i),
    {
        out[15] = (self.compress_bias0 & 0xFFu32) | ((self.compress_bias1 & 0xFFu32) << 8u32) | ((self.layer_id & 0xFFFFu32) << 16u32);
        out[14] = (self.src_c_stride_high & 0xFFFFu32) | ((self.dst_c_stride_high & 0xFFFFu32) << 16u32);
        out[13] = (self.src_n & 0xFFFFu32) | ((self.dst_base_addr_high & 0xFFu32) << 16u32) | ((self.src_base_addr_high & 0xFFu32) << 24u32);
        out[12] = self.src_base_addr_low;
        out[11] = self.dst_base_addr_low;
        out[10] = (self.src_w & 0xFFFFu32) | ((self.src_h & 0xFFFFu32) << 16u32);
        out[9] = (self.dst_w & 0xFFFFu32) | ((self.dst_h & 0xFFFFu32) << 16u32);
        out[8] = (self.dst_c & 0xFFFFu32) | ((self.src_c & 0xFFFFu32) << 16u32);
        out[7] = self.src_n_stride;
        out[6] = (self.src_h_stride & 0xFFFFu32) | ((self.src_c_stride_low & 0xFFFFu32) << 16u32);
        out[5] = self.dst_n_stride;
        out[4] = (self.dst_h_stride & 0xFFFFu32) | ((self.dst_c_stride_low & 0xFFFFu32) << 16u32);
        out[3] = (self.const_val & 0xFFFFu32) | ((self.src_base_reg_sel & 0x7u32) << 16u32) | ((self.mv_lut_idx & 0x1u32) << 19u32) | ((self.dst_base_reg_sel & 0x7u32) << 20u32) | ((self.mv_lut_base & 0x1u32) << 23u32) | ((self.rsv4_5 & 0xFFu32) << 24u32);
        out[2] = (self.wait_id_other_tdma & 0xFFFFu32) | ((self.wait_id_sdma & 0xFFFFu32) << 16u32);
        out[1] = (self.spec_func & 0x7u32) | ((self.dst_fmt & 0x3u32) << 3u32) | ((self.src_fmt & 0x3u32) << 5u32) | ((self.cmprs_fmt & 0x1u32) << 7u32) | ((self.sys_dtype & 0x1u32) << 8u32) | ((self.rsv2_1 & 0xFu32) << 9u32) | ((self.int8_sign & 0x1u32) << 13u32) | ((self.compress_zero_guard & 0x1u32) << 14u32) | ((self.int8_rnd_mode & 0x1u32) << 15u32) | ((self.wait_id_tpu & 0xFFFFu32) << 16u32);
        out[0] = (self.vld & 0x1u32) | ((self.compress_en & 0x1u32) << 1u32) | ((self.eod & 0x1u32) << 2u32) | ((self.intp_en & 0x1u32) << 3u32) | ((self.bar_en & 0x1u32) << 4u32) | ((self.check_bf16_value & 0x1u32) << 5u32) | ((self.trans_dir & 0x3u32) << 6u32) | ((self.rsv00 & 0x3u32) << 8u32) | ((self.trans_fmt & 0x1u32) << 10u32) | ((self.transpose_md & 0x3u32) << 11u32) | ((self.rsv01 & 0x1u32) << 13u32) | ((self.intra_cmd_paral & 0x1u32) << 14u32) | ((self.outstanding_en & 0x1u32) << 15u32) | ((self.cmd_id & 0xFFFFu32) << 16u32);
    }
}

} // verus!
