//! MPU region encoding: the register values for the fixed regions and for the
//! region that follows the running thread's stack.

use vstd::prelude::*;
use crate::scheduler::MAX_THREADS;
use crate::stack::{StackPool, STACK_SIZE};

verus! {

pub const FLASH_BASE: usize = 0x1000_0000;

pub const FLASH_SIZE: usize = 2 * 1024 * 1024;

pub const SRAM_BASE: usize = 0x2000_0000;

pub const SRAM_SIZE: usize = 512 * 1024;

/// Single-cycle IO block.
pub const SIO_BASE: usize = 0xD000_0000;

pub const SIO_SIZE: usize = 0x4000;

/// RBAR access permissions, bits 2:1: read-only at both privilege levels.
pub const RBAR_AP_PRIV_RO_USER_RO: u32 = 0x6;

/// RBAR access permissions: read/write for privileged code only.
pub const RBAR_AP_PRIV_RW_USER_NO: u32 = 0x0;

/// RBAR access permissions: read/write at both privilege levels.
pub const RBAR_AP_PRIV_RW_USER_RW: u32 = 0x2;

/// RBAR bit 0: execute never.
pub const RBAR_XN: u32 = 0x1;

/// RLAR attribute index 0, bits 3:1.
pub const RLAR_ATTRIDX0: u32 = 0x0;

/// RLAR bit 0: region enable.
pub const RLAR_ENABLE: u32 = 0x1;

/// MAIR attribute 0: normal memory, write-back, read and write allocate.
pub const MAIR_NORMAL_WB_WA: u32 = 0xFF;

/// MAIR attribute 1: device memory.
pub const MAIR_DEVICE: u32 = 0x04;

/// SHCSR bit 16: MemManage fault enable.
pub const SHCSR_MEMFAULTENA: u32 = 0x1_0000;

/// MPU_CTRL: enable the MPU, with the default map for privileged code.
pub const MPU_CTRL_ENABLE_PRIVDEF: u32 = 0x5;

/// Region number of flash.
pub const REGION_FLASH: u8 = 0;

/// Region number of SRAM.
pub const REGION_SRAM: u8 = 1;

/// Region number of the running thread's stack.
pub const REGION_STACK: u8 = 2;

/// Region number of the IO block.
pub const REGION_SIO: u8 = 3;

/// The three register values that program one MPU region, in the order in
/// which they are written.
#[derive(Copy, Clone, PartialEq, Eq, Structural, Debug)]
pub struct RegionSetting {
    /// Region number, for RNR.
    pub rnr: u32,
    /// Base address, access permissions and execute-never, for RBAR.
    pub rbar: u32,
    /// Limit address, attribute index and enable, for RLAR.
    pub rlar: u32,
}

/// `addr` rounded down to a multiple of 32, the granule of the MPU.
pub open spec fn align_down32(addr: int) -> int {
    addr - addr % 32
}

impl RegionSetting {
    /// First address of the region.
    pub open spec fn start(self) -> int {
        align_down32(self.rbar as int)
    }

    /// Last address of the region: the hardware reads the five low bits of the
    /// limit as ones.
    pub open spec fn end(self) -> int {
        align_down32(self.rlar as int) + 31
    }

    /// Access-permission field.
    pub open spec fn access(self) -> int {
        (self.rbar as int / 2) % 4
    }

    pub open spec fn execute_never(self) -> bool {
        self.rbar % 2 == 1
    }

    pub open spec fn enabled(self) -> bool {
        self.rlar % 2 == 1
    }

    /// Index of the memory attribute in MAIR.
    pub open spec fn attr_index(self) -> int {
        (self.rlar as int / 2) % 8
    }

    /// Whether the region, once programmed, holds `addr`.
    pub open spec fn covers(self, addr: int) -> bool {
        self.enabled() && self.start() <= addr <= self.end()
    }
}

/// Whether `rbar_ap` is one of the four access-permission encodings.
pub open spec fn is_access_permission(rbar_ap: u32) -> bool {
    rbar_ap == 0 || rbar_ap == 2 || rbar_ap == 4 || rbar_ap == 6
}

/// The inputs for which a region can be encoded: a non-empty range of 32-bit
/// addresses that ends inside the address space.
pub open spec fn region_fits(base: usize, size: usize) -> bool {
    &&& 1 <= size <= u32::MAX
    &&& base <= u32::MAX
    &&& base + size - 1 <= u32::MAX
}

/// Register values for `region`, which is to hold the `size` bytes from `base`
/// on: the base is rounded down to the granule, the limit is the granule of
/// the last byte, the attribute index is zero and the region is enabled.
pub open spec fn region_setting(
    region: u8,
    base: usize,
    size: usize,
    rbar_ap: u32,
    xn: bool,
) -> RegionSetting {
    RegionSetting {
        rnr: region as u32,
        rbar: (align_down32(base as int) as u32) | rbar_ap | (if xn { RBAR_XN } else { 0u32 }),
        rlar: (align_down32(base + size - 1) as u32) | RLAR_ATTRIDX0 | RLAR_ENABLE,
    }
}

/// What the register values of a region say once decoded: the region is
/// enabled with attribute index zero and ends with the granule of its last
/// byte; where `rbar_ap` is an access permission, the region starts at the
/// aligned base with that permission and the execute-never bit asked for, and
/// so holds every byte of the range it was made for.
pub proof fn lemma_region_setting_decodes(
    region: u8,
    base: usize,
    size: usize,
    rbar_ap: u32,
    xn: bool,
)
    requires
        region_fits(base, size),
    ensures
        region_setting(region, base, size, rbar_ap, xn).enabled(),
        region_setting(region, base, size, rbar_ap, xn).attr_index() == 0,
        region_setting(region, base, size, rbar_ap, xn).end() == align_down32(base + size - 1)
            + 31,
        is_access_permission(rbar_ap) ==> {
            &&& region_setting(region, base, size, rbar_ap, xn).start() == align_down32(base as int)
            &&& region_setting(region, base, size, rbar_ap, xn).access() == rbar_ap / 2
            &&& region_setting(region, base, size, rbar_ap, xn).execute_never() == xn
            &&& forall|addr: int|
                base <= addr < base + size ==> #[trigger] region_setting(
                    region,
                    base,
                    size,
                    rbar_ap,
                    xn,
                ).covers(addr)
        },
{
    let setting = region_setting(region, base, size, rbar_ap, xn);
    let start: u32 = align_down32(base as int) as u32;
    let limit: u32 = align_down32(base + size - 1) as u32;
    let xn_bit: u32 = if xn { 1 } else { 0 };
    let rbar: u32 = setting.rbar;
    let rlar: u32 = setting.rlar;
    assert(rlar % 2 == 1 && (rlar / 2) % 8 == 0 && rlar - rlar % 32 == limit) by (bit_vector)
        requires
            rlar == limit | 0u32 | 1u32,
            limit % 32 == 0,
    ;
    assert(is_access_permission(rbar_ap) ==> rbar - rbar % 32 == start && (rbar / 2) % 4 == rbar_ap
        / 2 && rbar % 2 == xn_bit) by (bit_vector)
        requires
            rbar == start | rbar_ap | xn_bit,
            start % 32 == 0,
            xn_bit == 0 || xn_bit == 1,
    ;
}

/// Encodes one region.
pub fn program_region(region: u8, base: usize, size: usize, rbar_ap: u32, xn: bool) -> (setting:
    RegionSetting)
    requires
        region_fits(base, size),
    ensures
        setting == region_setting(region, base, size, rbar_ap, xn),
        setting.enabled(),
        setting.attr_index() == 0,
        setting.end() == align_down32(base + size - 1) + 31,
        is_access_permission(rbar_ap) ==> {
            &&& setting.start() == align_down32(base as int)
            &&& setting.access() == rbar_ap / 2
            &&& setting.execute_never() == xn
            &&& forall|addr: int| base <= addr < base + size ==> #[trigger] setting.covers(addr)
        },
{
    let base32: u32 = (base as u32) & !0x1Fu32;
    assert(base32 == (base as u32) - (base as u32) % 32) by (bit_vector)
        requires
            base32 == (base as u32) & !0x1Fu32,
    ;
    let last: u32 = (base as u32) + ((size as u32) - 1);
    let limit: u32 = last & !0x1Fu32;
    assert(limit == last - last % 32) by (bit_vector)
        requires
            limit == last & !0x1Fu32,
    ;
    let mut rbar: u32 = base32 | rbar_ap;
    if xn {
        rbar |= RBAR_XN;
    }
    let rlar: u32 = limit | RLAR_ATTRIDX0 | RLAR_ENABLE;
    let ghost xn_bit: u32 = if xn { 1 } else { 0 };
    assert(rbar == base32 | rbar_ap | xn_bit) by (bit_vector)
        requires
            rbar == if xn_bit == 1 { base32 | rbar_ap | 1u32 } else { base32 | rbar_ap },
            xn_bit == 0 || xn_bit == 1,
    ;
    proof {
        lemma_region_setting_decodes(region, base, size, rbar_ap, xn);
    }
    RegionSetting { rnr: region as u32, rbar, rlar }
}

/// The stack region of the thread in `slot`.
pub open spec fn stack_region(stacks: StackPool, slot: int) -> RegionSetting {
    region_setting(
        REGION_STACK,
        stacks.base_of(slot) as usize,
        STACK_SIZE as usize,
        RBAR_AP_PRIV_RW_USER_RW,
        true,
    )
}

/// The stack region of a thread holds every byte of its stack, read/write at
/// both privilege levels and never executable, and reaches less than one MPU
/// granule past either end of it. Where the stack pool starts on a granule,
/// the region is the stack and nothing else.
pub proof fn lemma_stack_region_is_the_stack(stacks: StackPool, slot: int, addr: int)
    requires
        stacks.wf(),
        0 <= slot < MAX_THREADS,
    ensures
        stacks.base_of(slot) <= addr < stacks.top_of(slot) ==> stack_region(stacks, slot).covers(
            addr,
        ),
        stack_region(stacks, slot).covers(addr) ==> stacks.base_of(slot) - 32 < addr
            < stacks.top_of(slot) + 32,
        stacks.base % 32 == 0 ==> (stack_region(stacks, slot).covers(addr) <==> stacks.base_of(slot)
            <= addr < stacks.top_of(slot)),
        stack_region(stacks, slot).access() == 1,
        stack_region(stacks, slot).execute_never(),
{
    lemma_region_setting_decodes(
        REGION_STACK,
        stacks.base_of(slot) as usize,
        STACK_SIZE as usize,
        RBAR_AP_PRIV_RW_USER_RW,
        true,
    );
    assert(slot == 0 || slot == 1 || slot == 2 || slot == 3);
}

/// Where the stack pool starts on an MPU granule, the stack region of one
/// thread holds no address of another thread's stack.
pub proof fn lemma_stack_region_isolates(stacks: StackPool, slot: int, other: int, addr: int)
    requires
        stacks.wf(),
        stacks.base % 32 == 0,
        0 <= slot < MAX_THREADS,
        0 <= other < MAX_THREADS,
        other != slot,
        stacks.base_of(other) <= addr < stacks.top_of(other),
    ensures
        !stack_region(stacks, slot).covers(addr),
{
    lemma_stack_region_is_the_stack(stacks, slot, addr);
    assert(slot == 0 || slot == 1 || slot == 2 || slot == 3);
    assert(other == 0 || other == 1 || other == 2 || other == 3);
}

/// One step of MPU programming.
#[derive(Copy, Clone, PartialEq, Eq, Structural, Debug)]
pub enum MpuOp {
    /// Write MPU_CTRL.
    WriteCtrl(u32),
    /// Write attribute `index` of MAIR.
    WriteMair { index: u8, value: u32 },
    /// Select a region and write its base and limit.
    WriteRegion(RegionSetting),
    /// Set the given bits of SHCSR, leaving the others as they are.
    SetShcsr(u32),
}

/// The fixed part of the memory map, in programming order: MPU off, the two
/// memory attributes, flash (read-only, executable), SRAM (privileged only,
/// no execute), the IO block (read/write, no execute), MemManage faults on,
/// MPU on with the privileged default map.
pub open spec fn static_plan() -> Seq<MpuOp> {
    seq![
        MpuOp::WriteCtrl(0),
        MpuOp::WriteMair { index: 0, value: MAIR_NORMAL_WB_WA },
        MpuOp::WriteMair { index: 1, value: MAIR_DEVICE },
        MpuOp::WriteRegion(
            region_setting(REGION_FLASH, FLASH_BASE, FLASH_SIZE, RBAR_AP_PRIV_RO_USER_RO, false),
        ),
        MpuOp::WriteRegion(
            region_setting(REGION_SRAM, SRAM_BASE, SRAM_SIZE, RBAR_AP_PRIV_RW_USER_NO, true),
        ),
        MpuOp::WriteRegion(
            region_setting(REGION_SIO, SIO_BASE, SIO_SIZE, RBAR_AP_PRIV_RW_USER_RW, true),
        ),
        MpuOp::SetShcsr(SHCSR_MEMFAULTENA),
        MpuOp::WriteCtrl(MPU_CTRL_ENABLE_PRIVDEF),
    ]
}

/// What the fixed regions mean once programmed: flash is read-only at both
/// privilege levels and executable, SRAM is for privileged code only, the IO
/// block is open to both levels, and neither of the two can be executed from.
/// Each region spans exactly its part of the memory map.
pub open spec fn fixed_regions_hold(flash: RegionSetting, sram: RegionSetting, sio: RegionSetting)
    -> bool {
    &&& flash.rnr == REGION_FLASH && sram.rnr == REGION_SRAM && sio.rnr == REGION_SIO
    &&& flash.enabled() && sram.enabled() && sio.enabled()
    &&& flash.start() == FLASH_BASE && flash.end() == FLASH_BASE + FLASH_SIZE - 1
    &&& sram.start() == SRAM_BASE && sram.end() == SRAM_BASE + SRAM_SIZE - 1
    &&& sio.start() == SIO_BASE && sio.end() == SIO_BASE + SIO_SIZE - 1
    &&& flash.access() == 3 && !flash.execute_never()
    &&& sram.access() == 0 && sram.execute_never()
    &&& sio.access() == 1 && sio.execute_never()
    &&& flash.attr_index() == 0 && sram.attr_index() == 0 && sio.attr_index() == 0
}

/// Plans the one-time programming of the fixed regions.
pub fn mpu_init_static() -> (plan: [MpuOp; 8])
    ensures
        plan@ == static_plan(),
        plan@[3] matches MpuOp::WriteRegion(flash) && plan@[4] matches MpuOp::WriteRegion(sram)
            && plan@[5] matches MpuOp::WriteRegion(sio) && fixed_regions_hold(flash, sram, sio),
{
    let flash: RegionSetting = program_region(
        REGION_FLASH,
        FLASH_BASE,
        FLASH_SIZE,
        RBAR_AP_PRIV_RO_USER_RO,
        false,
    );
    let sram: RegionSetting = program_region(
        REGION_SRAM,
        SRAM_BASE,
        SRAM_SIZE,
        RBAR_AP_PRIV_RW_USER_NO,
        true,
    );
    let sio: RegionSetting = program_region(
        REGION_SIO,
        SIO_BASE,
        SIO_SIZE,
        RBAR_AP_PRIV_RW_USER_RW,
        true,
    );
    let plan: [MpuOp; 8] = [
        MpuOp::WriteCtrl(0),
        MpuOp::WriteMair { index: 0, value: MAIR_NORMAL_WB_WA },
        MpuOp::WriteMair { index: 1, value: MAIR_DEVICE },
        MpuOp::WriteRegion(flash),
        MpuOp::WriteRegion(sram),
        MpuOp::WriteRegion(sio),
        MpuOp::SetShcsr(SHCSR_MEMFAULTENA),
        MpuOp::WriteCtrl(MPU_CTRL_ENABLE_PRIVDEF),
    ];
    assert(plan@ =~= static_plan());
    plan
}

/// Encodes the stack region of the thread about to run: read/write at both
/// privilege levels, no execute.
pub fn mpu_program_thread(stack_addr: usize, stack_size: usize) -> (setting: RegionSetting)
    requires
        region_fits(stack_addr, stack_size),
    ensures
        setting == region_setting(
            REGION_STACK,
            stack_addr,
            stack_size,
            RBAR_AP_PRIV_RW_USER_RW,
            true,
        ),
        setting.enabled(),
        setting.execute_never(),
        setting.access() == 1,
        setting.start() == align_down32(stack_addr as int),
        setting.end() == align_down32(stack_addr + stack_size - 1) + 31,
        forall|addr: int|
            stack_addr <= addr < stack_addr + stack_size ==> #[trigger] setting.covers(addr),
{
    program_region(REGION_STACK, stack_addr, stack_size, RBAR_AP_PRIV_RW_USER_RW, true)
}

} // verus!
