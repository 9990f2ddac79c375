use aclint::layout::{
    msip_address, msip_offset, mtime_address, mtimecmp_address, mtimecmp_offset, CLINT_SIZE,
    HART_COUNT, MSIP_SHIFT, MSIP_SIZE, MSWI_OFFSET, MSWI_SIZE, MTIMECMP_ARRAY_SIZE,
    MTIMECMP_SHIFT, MTIMECMP_SIZE, MTIMER_OFFSET, MTIME_OFFSET, MTIME_SIZE, RESERVED_OFFSET,
    RESERVED_SIZE, SETSSIP_SIZE, SSWI_SIZE,
};
use aclint::{SifiveClint, MSIP, MSWI, MTIME, MTIMECMP, SETSSIP, SSWI};

#[test]
fn test() {
    assert_eq!(core::mem::size_of::<MSWI>(), 0x4000);
    assert_eq!(core::mem::size_of::<SSWI>(), 0x4000);
    assert_eq!(core::mem::size_of::<[MTIMECMP; 4095]>(), 0x7ff8);
    assert_eq!(core::mem::size_of::<SifiveClint>(), 0xc000);
}

#[test]
fn register_sizes_match_their_types() {
    assert_eq!(core::mem::size_of::<MSIP>(), MSIP_SIZE);
    assert_eq!(core::mem::size_of::<SETSSIP>(), SETSSIP_SIZE);
    assert_eq!(core::mem::size_of::<MTIMECMP>(), MTIMECMP_SIZE);
    assert_eq!(core::mem::size_of::<MTIME>(), MTIME_SIZE);
    assert_eq!(core::mem::size_of::<MSWI>(), MSWI_SIZE);
    assert_eq!(core::mem::size_of::<SSWI>(), SSWI_SIZE);
    assert_eq!(core::mem::size_of::<[MTIMECMP; HART_COUNT]>(), MTIMECMP_ARRAY_SIZE);
    assert_eq!(core::mem::size_of::<SifiveClint>(), CLINT_SIZE);
}

#[test]
fn layout_constants_match_address_map() {
    assert_eq!(HART_COUNT, 4095);
    assert_eq!(MSIP_SIZE, 4);
    assert_eq!(SETSSIP_SIZE, 4);
    assert_eq!(MTIMECMP_SIZE, 8);
    assert_eq!(MTIME_SIZE, 8);
    assert_eq!(RESERVED_SIZE, 4);
    assert_eq!(MSWI_SIZE, 4 * (HART_COUNT + 1));
    assert_eq!(MSWI_SIZE, 0x4000);
    assert_eq!(SSWI_SIZE, 0x4000);
    assert_eq!(MTIMECMP_ARRAY_SIZE, 8 * HART_COUNT);
    assert_eq!(MTIMECMP_ARRAY_SIZE, 0x7ff8);
    assert_eq!(MSWI_OFFSET, 0);
    assert_eq!(RESERVED_OFFSET, 0x3ffc);
    assert_eq!(MTIMER_OFFSET, 0x4000);
    assert_eq!(MTIME_OFFSET, 0xbff8);
    assert_eq!(CLINT_SIZE, 0xc000);
    assert_eq!(CLINT_SIZE, MSWI_SIZE + MTIMECMP_ARRAY_SIZE + MTIME_SIZE);
}

#[test]
fn shifts_scale_by_register_size() {
    assert_eq!(1usize << MSIP_SHIFT, MSIP_SIZE);
    assert_eq!(1usize << MTIMECMP_SHIFT, MTIMECMP_SIZE);
}

#[test]
fn msip_offset_exact_values() {
    assert_eq!(msip_offset(0), 0);
    assert_eq!(msip_offset(1), 4);
    assert_eq!(msip_offset(2), 8);
    assert_eq!(msip_offset(1000), 4000);
    assert_eq!(msip_offset(4094), 0x3ff8);
}

#[test]
fn mtimecmp_offset_exact_values() {
    assert_eq!(mtimecmp_offset(0), 0x4000);
    assert_eq!(mtimecmp_offset(1), 0x4008);
    assert_eq!(mtimecmp_offset(2), 0x4010);
    assert_eq!(mtimecmp_offset(1000), 0x4000 + 8000);
    assert_eq!(mtimecmp_offset(4094), 0xbff0);
}

#[test]
fn offsets_follow_the_formula_for_every_hart() {
    for hart in 0..HART_COUNT {
        assert_eq!(msip_offset(hart), 4 * hart);
        assert_eq!(mtimecmp_offset(hart), 0x4000 + 8 * hart);
    }
}

#[test]
fn addresses_add_the_base() {
    let base: usize = 0x0200_0000;
    assert_eq!(msip_address(base, 0), 0x0200_0000);
    assert_eq!(msip_address(base, 1), 0x0200_0004);
    assert_eq!(msip_address(base, 4094), 0x0200_3ff8);
    assert_eq!(mtimecmp_address(base, 0), 0x0200_4000);
    assert_eq!(mtimecmp_address(base, 1), 0x0200_4008);
    assert_eq!(mtimecmp_address(base, 4094), 0x0200_bff0);
    assert_eq!(mtime_address(base), 0x0200_bff8);
}

#[test]
fn addresses_follow_the_formula_for_every_hart() {
    for base in [0usize, 0x1000, 0x0200_0000, 0x7fff_0000] {
        for hart in 0..HART_COUNT {
            assert_eq!(msip_address(base, hart), base + 4 * hart);
            assert_eq!(mtimecmp_address(base, hart), base + 0x4000 + 8 * hart);
        }
        assert_eq!(mtime_address(base), base + 0xbff8);
    }
}

#[test]
fn addresses_reach_the_top_of_the_address_space() {
    let base = usize::MAX - (CLINT_SIZE - 1);
    assert_eq!(msip_address(base, 0), base);
    assert_eq!(mtimecmp_address(base, 4094), usize::MAX - 0xf);
    assert_eq!(mtime_address(base), usize::MAX - 7);
}

#[test]
fn last_hart_lies_inside_the_block() {
    let last = HART_COUNT - 1;
    assert!(msip_offset(last) + MSIP_SIZE <= RESERVED_OFFSET);
    assert!(mtimecmp_offset(last) + MTIMECMP_SIZE <= MTIME_OFFSET);
    assert!(MTIME_OFFSET + MTIME_SIZE <= CLINT_SIZE);
}

#[test]
fn index_hart_count_falls_on_no_hart_register() {
    assert_eq!(MSWI_OFFSET + MSIP_SIZE * HART_COUNT, RESERVED_OFFSET);
    assert_eq!(msip_offset(HART_COUNT - 1) + MSIP_SIZE, RESERVED_OFFSET);
    assert_eq!(MTIMER_OFFSET + MTIMECMP_SIZE * HART_COUNT, MTIME_OFFSET);
    assert_eq!(mtimecmp_offset(HART_COUNT - 1) + MTIMECMP_SIZE, MTIME_OFFSET);
}
