use muos::memory::{
    mpu_init_static, mpu_program_thread, program_region, MpuOp, RegionSetting, FLASH_BASE,
    FLASH_SIZE, RBAR_AP_PRIV_RO_USER_RO, RBAR_AP_PRIV_RW_USER_NO, RBAR_AP_PRIV_RW_USER_RW,
    SIO_BASE, SIO_SIZE, SRAM_BASE, SRAM_SIZE,
};
use muos::scheduler::{init_scheduler, spawn_thread, Scheduler};
use muos::stack::StackPool;

fn first_address(setting: &RegionSetting) -> u32 {
    setting.rbar & !0x1F
}

fn last_address(setting: &RegionSetting) -> u32 {
    setting.rlar | 0x1F
}

#[test]
fn memory_map() {
    assert_eq!(FLASH_BASE, 0x1000_0000);
    assert_eq!(FLASH_SIZE, 0x20_0000);
    assert_eq!(SRAM_BASE, 0x2000_0000);
    assert_eq!(SRAM_SIZE, 0x8_0000);
    assert_eq!(SIO_BASE, 0xD000_0000);
    assert_eq!(SIO_SIZE, 16 * 1024);
}

#[test]
fn region_of_an_aligned_range() {
    let r = program_region(2, 0x2000_1400, 1024, RBAR_AP_PRIV_RW_USER_RW, true);
    assert_eq!(r, RegionSetting { rnr: 2, rbar: 0x2000_1403, rlar: 0x2000_17E1 });
    assert_eq!(first_address(&r), 0x2000_1400);
    assert_eq!(last_address(&r), 0x2000_17FF);
}

#[test]
fn region_base_is_rounded_down_and_limit_up_to_the_granule() {
    // the range 0x2000_1408 ..= 0x2000_1447
    let r = program_region(5, 0x2000_1408, 64, RBAR_AP_PRIV_RW_USER_NO, false);
    assert_eq!(r, RegionSetting { rnr: 5, rbar: 0x2000_1400, rlar: 0x2000_1441 });
    assert_eq!(first_address(&r), 0x2000_1400);
    assert_eq!(last_address(&r), 0x2000_145F);
}

#[test]
fn region_of_an_unaligned_range_holds_its_last_byte() {
    // ends one byte into the next granule
    let r = program_region(5, 0x2000_1401, 32, RBAR_AP_PRIV_RW_USER_NO, false);
    assert_eq!(r, RegionSetting { rnr: 5, rbar: 0x2000_1400, rlar: 0x2000_1421 });
    // ends on the last byte of its granule
    let r = program_region(5, 0x2000_141F, 1, RBAR_AP_PRIV_RW_USER_NO, false);
    assert_eq!(r, RegionSetting { rnr: 5, rbar: 0x2000_1400, rlar: 0x2000_1401 });
    // the last byte of the address space
    let r = program_region(5, 0xFFFF_FFF8, 8, RBAR_AP_PRIV_RW_USER_NO, false);
    assert_eq!(r, RegionSetting { rnr: 5, rbar: 0xFFFF_FFE0, rlar: 0xFFFF_FFE1 });
}

#[test]
fn thread_region_of_a_stack_off_the_granule_holds_the_whole_stack() {
    // the stack 0x2000_0408 ..= 0x2000_0807
    let r = mpu_program_thread(0x2000_0408, 1024);
    assert_eq!(r, RegionSetting { rnr: 2, rbar: 0x2000_0403, rlar: 0x2000_0801 });
    assert!(first_address(&r) <= 0x2000_0408);
    assert!(last_address(&r) >= 0x2000_0807);
    assert_eq!((first_address(&r), last_address(&r)), (0x2000_0400, 0x2000_081F));
}

#[test]
fn stack_regions_of_a_pool_off_the_granule_hold_their_stacks() {
    let stacks = StackPool::new(0x2000_0008).unwrap();
    let (mut sched, _) = init_scheduler(stacks, 0x1000_0200, 0x1000_0300);
    let a = spawn_thread(&mut sched, 0x1000_0400);
    assert_eq!(a.slot, 1);
    let (base, size) = sched.get_current_thread_stack();
    assert_eq!((base, size), (0x2000_0408, 1024));
    let region = mpu_program_thread(base, size);
    assert_eq!(region, RegionSetting { rnr: 2, rbar: 0x2000_0403, rlar: 0x2000_0801 });
    // every byte of the stack, the initial exception frame at its top included
    assert!(first_address(&region) <= stacks.stack_base(1));
    assert!(last_address(&region) >= stacks.stack_top(1) - 1);
    assert!(last_address(&region) >= a.stack.addr + 63);
    // and less than a granule beyond either end
    assert!(stacks.stack_base(1) - first_address(&region) < 32);
    assert!(last_address(&region) - (stacks.stack_top(1) - 1) < 32);
}

#[test]
fn region_of_one_byte() {
    let r = program_region(1, 0x2000_0000, 1, RBAR_AP_PRIV_RW_USER_NO, true);
    assert_eq!(r, RegionSetting { rnr: 1, rbar: 0x2000_0001, rlar: 0x2000_0001 });
    assert_eq!(last_address(&r), 0x2000_001F);
}

#[test]
fn region_limit_is_the_granule_of_the_last_byte() {
    let r = program_region(1, 0x2000_0000, 32, RBAR_AP_PRIV_RW_USER_NO, false);
    assert_eq!(r.rlar, 0x2000_0001);
    let r = program_region(1, 0x2000_0000, 33, RBAR_AP_PRIV_RW_USER_NO, false);
    assert_eq!(r.rlar, 0x2000_0021);
}

#[test]
fn region_at_the_end_of_the_address_space() {
    let r = program_region(7, 0xFFFF_FFE0, 32, RBAR_AP_PRIV_RO_USER_RO, false);
    assert_eq!(r, RegionSetting { rnr: 7, rbar: 0xFFFF_FFE6, rlar: 0xFFFF_FFE1 });
}

#[test]
fn region_permissions_and_execute_never() {
    let base = 0x1000_0000;
    assert_eq!(program_region(0, base, 64, RBAR_AP_PRIV_RO_USER_RO, false).rbar, 0x1000_0006);
    assert_eq!(program_region(0, base, 64, RBAR_AP_PRIV_RO_USER_RO, true).rbar, 0x1000_0007);
    assert_eq!(program_region(0, base, 64, RBAR_AP_PRIV_RW_USER_NO, false).rbar, 0x1000_0000);
    assert_eq!(program_region(0, base, 64, RBAR_AP_PRIV_RW_USER_NO, true).rbar, 0x1000_0001);
    assert_eq!(program_region(0, base, 64, RBAR_AP_PRIV_RW_USER_RW, false).rbar, 0x1000_0002);
    assert_eq!(program_region(0, base, 64, RBAR_AP_PRIV_RW_USER_RW, true).rbar, 0x1000_0003);
}

#[test]
fn static_plan_programs_the_fixed_regions_in_order() {
    let plan = mpu_init_static();
    assert_eq!(
        plan,
        [
            MpuOp::WriteCtrl(0),
            MpuOp::WriteMair { index: 0, value: 0xFF },
            MpuOp::WriteMair { index: 1, value: 0x04 },
            MpuOp::WriteRegion(RegionSetting { rnr: 0, rbar: 0x1000_0006, rlar: 0x101F_FFE1 }),
            MpuOp::WriteRegion(RegionSetting { rnr: 1, rbar: 0x2000_0001, rlar: 0x2007_FFE1 }),
            MpuOp::WriteRegion(RegionSetting { rnr: 3, rbar: 0xD000_0003, rlar: 0xD000_3FE1 }),
            MpuOp::SetShcsr(1 << 16),
            MpuOp::WriteCtrl((1 << 2) | (1 << 0)),
        ]
    );
}

#[test]
fn static_plan_starts_with_the_mpu_off_and_ends_with_it_on() {
    let plan = mpu_init_static();
    assert_eq!(plan[0], MpuOp::WriteCtrl(0));
    assert_eq!(plan[7], MpuOp::WriteCtrl(5));
}

#[test]
fn thread_region_is_region_two_read_write_no_execute() {
    let r = mpu_program_thread(0x2000_1800, 1024);
    assert_eq!(r, RegionSetting { rnr: 2, rbar: 0x2000_1803, rlar: 0x2000_1BE1 });
    assert_eq!(r, program_region(2, 0x2000_1800, 1024, RBAR_AP_PRIV_RW_USER_RW, true));
}

#[test]
fn stack_region_of_one_thread_leaves_out_the_stacks_of_the_others() {
    let stacks = StackPool::new(0x2000_1000).unwrap();
    let (mut sched, _) = init_scheduler(stacks, 0x1000_0200, 0x1000_0300);
    let a = spawn_thread(&mut sched, 0x1000_0400);
    let b = spawn_thread(&mut sched, 0x1000_0500);
    assert_eq!(sched.current_thread_id, Some(a.slot));
    let (base, size) = sched.get_current_thread_stack();
    let region = mpu_program_thread(base, size);
    let first = first_address(&region);
    let last = last_address(&region);
    // the running thread's own stack is inside the region
    assert!(first <= a.stack.addr && a.stack.addr + 63 <= last);
    assert_eq!((first, last), (0x2000_1400, 0x2000_17FF));
    // every byte of the other thread's stack is outside it
    let other_base = stacks.stack_base(b.slot);
    let other_top = stacks.stack_top(b.slot);
    assert!(last < other_base || other_top <= first);
    assert!(b.stack.addr > last);
    // and so is the idle thread's
    assert!(stacks.stack_top(0) <= first);
}
