//! Address map of the CLINT register block.
//!
//! The block is one contiguous region. From its first byte it holds the
//! machine-level software-interrupt words (one 32-bit word per hart and one
//! reserved word), then the time-compare registers (one 64-bit register per
//! hart), then the 64-bit time counter. Every offset below is derived from the
//! register sizes and the hart count, so that the two ways of reaching a
//! register, by its place in the typed block and by address arithmetic, rest
//! on the same numbers.

use vstd::prelude::*;

verus! {

/// Number of harts the block has registers for.
pub const HART_COUNT: usize = 4095;

/// Bytes of one machine-level software-interrupt word.
pub const MSIP_SIZE: usize = 4;

/// Bytes of one supervisor-level software-interrupt word.
pub const SETSSIP_SIZE: usize = 4;

/// Bytes of one time-compare register.
pub const MTIMECMP_SIZE: usize = 8;

/// Bytes of the time counter.
pub const MTIME_SIZE: usize = 8;

/// Bytes of the reserved word that closes a software-interrupt array.
pub const RESERVED_SIZE: usize = 4;

/// Left shift that scales a hart index to the bytes of software-interrupt words.
pub const MSIP_SHIFT: usize = 2;

/// Left shift that scales a hart index to the bytes of time-compare registers.
pub const MTIMECMP_SHIFT: usize = 3;

/// Bytes of the machine-level software-interrupt device, reserved word included.
pub const MSWI_SIZE: usize = MSIP_SIZE * HART_COUNT + RESERVED_SIZE;

/// Bytes of the supervisor-level software-interrupt device, reserved word included.
pub const SSWI_SIZE: usize = SETSSIP_SIZE * HART_COUNT + RESERVED_SIZE;

/// Bytes of the time-compare array.
pub const MTIMECMP_ARRAY_SIZE: usize = MTIMECMP_SIZE * HART_COUNT;

/// Offset of the first software-interrupt word.
pub const MSWI_OFFSET: usize = 0;

/// Offset of the reserved word behind the last software-interrupt word.
pub const RESERVED_OFFSET: usize = MSWI_OFFSET + MSIP_SIZE * HART_COUNT;

/// Offset of the first time-compare register.
pub const MTIMER_OFFSET: usize = MSWI_OFFSET + MSWI_SIZE;

/// Offset of the time counter.
pub const MTIME_OFFSET: usize = MTIMER_OFFSET + MTIMECMP_ARRAY_SIZE;

/// Bytes of the whole block.
pub const CLINT_SIZE: usize = MTIME_OFFSET + MTIME_SIZE;

/// A machine word as a mathematical integer.
pub open spec fn as_int(n: usize) -> int {
    n as int
}

/// Offset of hart `hart`'s software-interrupt word.
pub open spec fn spec_msip_offset(hart: int) -> int {
    MSWI_OFFSET + MSIP_SIZE * hart
}

/// Offset of hart `hart`'s time-compare register.
pub open spec fn spec_mtimecmp_offset(hart: int) -> int {
    MTIMER_OFFSET + MTIMECMP_SIZE * hart
}

/// A register of the block.
pub enum Register {
    /// The software-interrupt word of a hart.
    Msip(int),
    /// The time-compare register of a hart.
    MtimeCmp(int),
    /// The time counter.
    Mtime,
}

impl Register {
    /// Bytes that one access to the register moves.
    pub open spec fn width(self) -> int {
        match self {
            Register::Msip(_) => MSIP_SIZE as int,
            Register::MtimeCmp(_) => MTIMECMP_SIZE as int,
            Register::Mtime => MTIME_SIZE as int,
        }
    }
}

/// The register that starts at byte `offset` of the block, if one does.
///
/// The reserved word, the bytes inside a register and everything outside the
/// block hold no register.
pub open spec fn register_at(offset: int) -> Option<Register> {
    let word = MSIP_SIZE as int;
    let dword = MTIMECMP_SIZE as int;
    if MSWI_OFFSET <= offset < RESERVED_OFFSET && (offset - MSWI_OFFSET) % word == 0 {
        Some(Register::Msip((offset - MSWI_OFFSET) / word))
    } else if MTIMER_OFFSET <= offset < MTIME_OFFSET && (offset - MTIMER_OFFSET) % dword == 0 {
        Some(Register::MtimeCmp((offset - MTIMER_OFFSET) / dword))
    } else if offset == MTIME_OFFSET {
        Some(Register::Mtime)
    } else {
        None
    }
}

/// Offset of hart `hart_idx`'s software-interrupt word, by shifting the index.
pub fn msip_offset(hart_idx: usize) -> (offset: usize)
    requires
        hart_idx < HART_COUNT,
    ensures
        offset == spec_msip_offset(as_int(hart_idx)),
        offset == 4 * hart_idx,
{
    assert(hart_idx << MSIP_SHIFT == MSIP_SIZE * hart_idx) by (bit_vector)
        requires
            hart_idx < HART_COUNT,
    ;
    MSWI_OFFSET + (hart_idx << MSIP_SHIFT)
}

/// Offset of hart `hart_idx`'s time-compare register, by shifting the index
/// and adding the offset of the array.
pub fn mtimecmp_offset(hart_idx: usize) -> (offset: usize)
    requires
        hart_idx < HART_COUNT,
    ensures
        offset == spec_mtimecmp_offset(as_int(hart_idx)),
        offset == 0x4000 + 8 * hart_idx,
{
    assert(hart_idx << MTIMECMP_SHIFT == MTIMECMP_SIZE * hart_idx) by (bit_vector)
        requires
            hart_idx < HART_COUNT,
    ;
    (hart_idx << MTIMECMP_SHIFT) + MTIMER_OFFSET
}

/// Address of hart `hart_idx`'s software-interrupt word in a block mapped at `base`.
pub fn msip_address(base: usize, hart_idx: usize) -> (addr: usize)
    requires
        base + CLINT_SIZE - 1 <= usize::MAX,
        hart_idx < HART_COUNT,
    ensures
        addr == base + spec_msip_offset(as_int(hart_idx)),
        addr == base + 4 * hart_idx,
{
    base + msip_offset(hart_idx)
}

/// Address of hart `hart_idx`'s time-compare register in a block mapped at `base`.
pub fn mtimecmp_address(base: usize, hart_idx: usize) -> (addr: usize)
    requires
        base + CLINT_SIZE - 1 <= usize::MAX,
        hart_idx < HART_COUNT,
    ensures
        addr == base + spec_mtimecmp_offset(as_int(hart_idx)),
        addr == base + 0x4000 + 8 * hart_idx,
{
    base + mtimecmp_offset(hart_idx)
}

/// Address of the time counter in a block mapped at `base`.
pub fn mtime_address(base: usize) -> (addr: usize)
    requires
        base + CLINT_SIZE - 1 <= usize::MAX,
    ensures
        addr == base + MTIME_OFFSET,
        addr == base + 0xbff8,
{
    base + MTIME_OFFSET
}

/// The sizes and offsets that follow from the register sizes and the hart
/// count are those of the device's fixed address map: each software-interrupt
/// device takes `4 * (HART_COUNT + 1) = 0x4000` bytes, the time-compare array
/// `8 * HART_COUNT = 0x7ff8` bytes behind it, the time counter the 8 bytes at
/// `0xbff8`, and the block `0xc000` bytes in all.
pub proof fn lemma_layout_matches_address_map()
    ensures
        MSWI_SIZE == 4 * (HART_COUNT + 1),
        MSWI_SIZE == 0x4000,
        SSWI_SIZE == 4 * (HART_COUNT + 1),
        SSWI_SIZE == 0x4000,
        MTIMECMP_ARRAY_SIZE == 8 * HART_COUNT,
        MTIMECMP_ARRAY_SIZE == 0x7ff8,
        MSWI_OFFSET == 0,
        RESERVED_OFFSET == 0x3ffc,
        MTIMER_OFFSET == 0x4000,
        MTIME_OFFSET == 0xbff8,
        CLINT_SIZE == MSWI_SIZE + MTIMECMP_ARRAY_SIZE + MTIME_SIZE,
        CLINT_SIZE == 0xc000,
{
}

/// Every hart below `HART_COUNT` has its software-interrupt word and its
/// time-compare register at the offsets that the index arithmetic gives, and
/// both lie inside the block: the word ends at or before the reserved word,
/// the time-compare register at or before the time counter.
pub proof fn lemma_hart_registers_inside_block(hart: int)
    requires
        0 <= hart < HART_COUNT,
    ensures
        register_at(spec_msip_offset(hart)) == Some(Register::Msip(hart)),
        0 <= spec_msip_offset(hart),
        spec_msip_offset(hart) + MSIP_SIZE <= RESERVED_OFFSET,
        register_at(spec_mtimecmp_offset(hart)) == Some(Register::MtimeCmp(hart)),
        MTIMER_OFFSET <= spec_mtimecmp_offset(hart),
        spec_mtimecmp_offset(hart) + MTIMECMP_SIZE <= MTIME_OFFSET,
        MTIME_OFFSET + MTIME_SIZE <= CLINT_SIZE,
{
}

/// The index `HART_COUNT` names no hart: its software-interrupt offset is the
/// reserved word, which holds no register, and its time-compare offset is the
/// time counter, which is no time-compare register.
pub proof fn lemma_hart_count_is_out_of_range()
    ensures
        spec_msip_offset(as_int(HART_COUNT)) == RESERVED_OFFSET,
        register_at(spec_msip_offset(as_int(HART_COUNT))) is None,
        spec_mtimecmp_offset(as_int(HART_COUNT)) == MTIME_OFFSET,
        register_at(spec_mtimecmp_offset(as_int(HART_COUNT))) == Some(Register::Mtime),
{
}

/// The boundary of the hart index, for every index: the index arithmetic
/// lands on a software-interrupt word exactly when the index is below
/// `HART_COUNT`, and on a time-compare register exactly when the index is below
/// `HART_COUNT`; the register is then that hart's own. From `HART_COUNT` on the
/// software-interrupt offset lies at or behind the reserved word and the
/// time-compare offset at or behind the time counter, so that no accessor of
/// the block is defined there.
pub proof fn lemma_hart_index_boundary(hart: int)
    ensures
        0 <= hart < HART_COUNT <==> register_at(spec_msip_offset(hart)) == Some(
            Register::Msip(hart),
        ),
        0 <= hart < HART_COUNT <==> register_at(spec_msip_offset(hart)) matches Some(
            Register::Msip(_),
        ),
        0 <= hart < HART_COUNT <==> register_at(spec_mtimecmp_offset(hart)) == Some(
            Register::MtimeCmp(hart),
        ),
        0 <= hart < HART_COUNT <==> register_at(spec_mtimecmp_offset(hart)) matches Some(
            Register::MtimeCmp(_),
        ),
        hart >= HART_COUNT ==> spec_msip_offset(hart) >= RESERVED_OFFSET,
        hart >= HART_COUNT ==> spec_mtimecmp_offset(hart) >= MTIME_OFFSET,
        hart > HART_COUNT ==> register_at(spec_mtimecmp_offset(hart)) is None,
        hart < 0 ==> register_at(spec_msip_offset(hart)) is None,
{
}

/// The address map, register by register: an offset holds the
/// software-interrupt word or the time-compare register of `hart` exactly when
/// `hart` is below `HART_COUNT` and the offset is the one that the index
/// arithmetic gives for it, and it holds the time counter exactly when it is
/// `MTIME_OFFSET`.
pub proof fn lemma_register_at_is_the_address_map(offset: int, hart: int)
    ensures
        register_at(offset) == Some(Register::Msip(hart)) <==> 0 <= hart < HART_COUNT && offset
            == spec_msip_offset(hart),
        register_at(offset) == Some(Register::MtimeCmp(hart)) <==> 0 <= hart < HART_COUNT
            && offset == spec_mtimecmp_offset(hart),
        register_at(offset) == Some(Register::Mtime) <==> offset == MTIME_OFFSET,
{
}

/// Every register lies inside the block.
pub proof fn lemma_registers_lie_inside_block(offset: int)
    requires
        register_at(offset) is Some,
    ensures
        0 <= offset,
        offset + register_at(offset)->Some_0.width() <= CLINT_SIZE,
{
}

/// Two registers at different offsets share no byte.
pub proof fn lemma_registers_do_not_overlap(first: int, second: int)
    requires
        register_at(first) is Some,
        register_at(second) is Some,
        first < second,
    ensures
        first + register_at(first)->Some_0.width() <= second,
{
}

} // verus!
