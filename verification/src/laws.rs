//! What holds of every block, whichever access path is taken.
//!
//! The accessors of `SifiveClint` state their effect on the block's view with
//! the functions of `ClintView`; the typed accessors and the raw ones state the
//! same effect. The lemmas here are about those functions, so they hold of
//! every sequence of accessor calls.

use crate::clint::ClintView;
use crate::layout::{
    as_int, register_at, spec_msip_offset, spec_mtimecmp_offset, HART_COUNT, MSIP_SIZE,
    MTIME_OFFSET, MTIME_SIZE, RESERVED_OFFSET, RESERVED_SIZE,
};
use vstd::prelude::*;

verus! {

/// The two access paths agree: a load or store at the byte offset that the
/// index arithmetic gives for a register reads or changes that register and
/// nothing else.
pub proof fn lemma_offset_access_is_register_access(
    state: ClintView,
    hart: int,
    val: u64,
    word: u32,
)
    requires
        state.wf(),
        0 <= hart < HART_COUNT,
    ensures
        state.load32(spec_msip_offset(hart)) == state.msip[hart],
        state.store32(spec_msip_offset(hart), word) == state.write_msip(hart, word),
        state.load64(spec_mtimecmp_offset(hart)) == state.mtimecmp[hart],
        state.store64(spec_mtimecmp_offset(hart), val) == state.write_mtimecmp(hart, val),
        state.load64(as_int(MTIME_OFFSET)) == state.mtime,
        state.store64(as_int(MTIME_OFFSET), val) == state.write_mtime(val),
{
}

/// A value stored to a hart's time-compare register is the value loaded from
/// it, whether the store and the load pick the register by its place in the
/// block or by its byte offset.
pub proof fn lemma_mtimecmp_round_trip(state: ClintView, hart: int, val: u64)
    requires
        state.wf(),
        0 <= hart < HART_COUNT,
    ensures
        state.write_mtimecmp(hart, val).mtimecmp[hart] == val,
        state.write_mtimecmp(hart, val).load64(spec_mtimecmp_offset(hart)) == val,
        state.store64(spec_mtimecmp_offset(hart), val).mtimecmp[hart] == val,
        state.store64(spec_mtimecmp_offset(hart), val).load64(spec_mtimecmp_offset(hart)) == val,
{
}

/// A value stored to the time counter is the value loaded from it, on either
/// path.
pub proof fn lemma_mtime_round_trip(state: ClintView, val: u64)
    ensures
        state.write_mtime(val).mtime == val,
        state.write_mtime(val).load64(as_int(MTIME_OFFSET)) == val,
        state.store64(as_int(MTIME_OFFSET), val).mtime == val,
{
}

/// Setting a flag twice is setting it once, and the flag is then pending;
/// clearing it twice is clearing it once, and the flag is then not pending; a
/// flag that is set and then cleared is not pending.
pub proof fn lemma_msip_set_and_clear_are_idempotent(state: ClintView, hart: int)
    requires
        state.wf(),
        0 <= hart < HART_COUNT,
    ensures
        state.set_msip(hart).set_msip(hart) == state.set_msip(hart),
        state.set_msip(hart).pending(hart),
        state.clear_msip(hart).clear_msip(hart) == state.clear_msip(hart),
        !state.clear_msip(hart).pending(hart),
        !state.set_msip(hart).clear_msip(hart).pending(hart),
        state.clear_msip(hart).set_msip(hart).pending(hart),
{
}

/// Setting or clearing the flag of one hart changes the flag of no other
/// hart, no time-compare register (that of the same hart included), not the
/// reserved word, and not the time counter.
pub proof fn lemma_msip_write_is_isolated(state: ClintView, hart: int, other: int)
    requires
        state.wf(),
        0 <= hart < HART_COUNT,
        0 <= other < HART_COUNT,
    ensures
        other != hart ==> state.set_msip(hart).pending(other) == state.pending(other),
        other != hart ==> state.clear_msip(hart).pending(other) == state.pending(other),
        other != hart ==> state.set_msip(hart).msip[other] == state.msip[other],
        other != hart ==> state.clear_msip(hart).msip[other] == state.msip[other],
        state.set_msip(hart).mtimecmp[other] == state.mtimecmp[other],
        state.clear_msip(hart).mtimecmp[other] == state.mtimecmp[other],
        state.set_msip(hart).reserved == state.reserved,
        state.clear_msip(hart).reserved == state.reserved,
        state.set_msip(hart).mtime == state.mtime,
        state.clear_msip(hart).mtime == state.mtime,
{
}

/// Storing to the time-compare register of one hart changes the time-compare
/// register of no other hart, no software-interrupt flag, not the reserved
/// word, and not the time counter.
pub proof fn lemma_mtimecmp_write_is_isolated(state: ClintView, hart: int, other: int, val: u64)
    requires
        state.wf(),
        0 <= hart < HART_COUNT,
        0 <= other < HART_COUNT,
    ensures
        other != hart ==> state.write_mtimecmp(hart, val).mtimecmp[other]
            == state.mtimecmp[other],
        state.write_mtimecmp(hart, val).msip[other] == state.msip[other],
        state.write_mtimecmp(hart, val).pending(other) == state.pending(other),
        state.write_mtimecmp(hart, val).reserved == state.reserved,
        state.write_mtimecmp(hart, val).mtime == state.mtime,
{
}

/// Storing to the time counter changes no software-interrupt flag, no
/// time-compare register, and not the reserved word.
pub proof fn lemma_mtime_write_is_isolated(state: ClintView, val: u64)
    ensures
        state.write_mtime(val).msip == state.msip,
        state.write_mtime(val).mtimecmp == state.mtimecmp,
        state.write_mtime(val).reserved == state.reserved,
{
}

/// No store at the offset of a register reaches the reserved word: not the
/// store to the last hart's software-interrupt word, which ends where the
/// reserved word begins, and not the store to the first time-compare register,
/// which begins where the reserved word ends.
pub proof fn lemma_stores_leave_reserved_word(state: ClintView, offset: int, val: u64, word: u32)
    requires
        state.wf(),
        register_at(offset) is Some,
    ensures
        register_at(offset)->Some_0.width() == MSIP_SIZE ==> state.store32(offset, word).reserved
            == state.reserved,
        register_at(offset)->Some_0.width() == MTIME_SIZE ==> state.store64(offset, val).reserved
            == state.reserved,
        offset + register_at(offset)->Some_0.width() <= RESERVED_OFFSET || RESERVED_OFFSET
            + RESERVED_SIZE <= offset,
{
}

/// Every store keeps one register of each kind for each hart.
pub proof fn lemma_writes_keep_wf(state: ClintView, hart: int, val: u64, word: u32)
    requires
        state.wf(),
        0 <= hart < HART_COUNT,
    ensures
        state.write_mtime(val).wf(),
        state.write_mtimecmp(hart, val).wf(),
        state.write_msip(hart, word).wf(),
        state.set_msip(hart).wf(),
        state.clear_msip(hart).wf(),
{
}

} // verus!
