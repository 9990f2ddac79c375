//! The register block and its two access paths.
//!
//! `SifiveClint` holds the registers of one block in the order of the address
//! map. Its view, `ClintView`, is everything the block holds: the registers
//! and the reserved word. A storing accessor states the whole view after the
//! call, so it changes the register it names and nothing else. The block is
//! reached in two ways that must agree:
//!
//! - the typed path (`read_mtimecmp`, `set_msip`, ...) picks a register by its
//!   place in the block;
//! - the raw path (`read_mtimecmp_naked`, `set_msip_naked`, ...) computes the
//!   register's byte offset by shifting the hart index and adding the offset of
//!   the array, and then makes one access of the register's width at that
//!   offset (`load_u32`, `store_u32`, `load_u64`, `store_u64`).
//!
//! Every raw accessor has the contract of its typed counterpart.

use crate::layout::{
    as_int, lemma_hart_registers_inside_block, msip_offset, mtimecmp_offset, register_at,
    spec_msip_offset, spec_mtimecmp_offset, Register, HART_COUNT, MSIP_SIZE, MSWI_OFFSET,
    MTIMECMP_SIZE, MTIMER_OFFSET, MTIME_OFFSET,
};
use crate::register::{MSIP, MSIP_CLEAR, MSIP_SET, MTIME, MTIMECMP, SETSSIP};
use vstd::prelude::*;

verus! {

/// Machine-level Software Interrupt Device (MSWI).
pub struct MSWI {
    /// HART index 0..4095 machine-level IPI registers.
    pub msip: [MSIP; HART_COUNT],
    _reserved: u32,
}

/// What a machine-level software-interrupt device holds.
#[verifier::ext_equal]
pub struct MswiView {
    /// The software-interrupt word of each hart.
    pub msip: Seq<u32>,
    /// The reserved word behind the last hart's word.
    pub reserved: u32,
}

impl View for MSWI {
    type V = MswiView;

    closed spec fn view(&self) -> MswiView {
        MswiView { msip: self.msip@.map_values(|reg: MSIP| reg@), reserved: self._reserved }
    }
}

impl MSWI {
    /// A device with every flag cleared and a zero reserved word.
    pub fn new() -> (mswi: Self)
        ensures
            mswi@.msip.len() == HART_COUNT,
            forall|hart: int| 0 <= hart < HART_COUNT ==> mswi@.msip[hart] == MSIP_CLEAR,
            mswi@.reserved == 0,
    {
        MSWI { msip: [MSIP::new(MSIP_CLEAR); HART_COUNT], _reserved: 0 }
    }

    /// The reserved word behind the last hart's word.
    pub fn reserved(&self) -> (word: u32)
        ensures
            word == self@.reserved,
    {
        self._reserved
    }

    /// The device has one word for each hart.
    pub proof fn lemma_len(&self)
        ensures
            self@.msip.len() == HART_COUNT,
    {
    }
}

/// Supervisor-level Software Interrupt Device (SSWI).
pub struct SSWI {
    /// HART index 0..4095 supervisor-level IPI registers.
    pub setssip: [SETSSIP; HART_COUNT],
    _reserved: u32,
}

/// What a supervisor-level software-interrupt device holds.
#[verifier::ext_equal]
pub struct SswiView {
    /// The software-interrupt word of each hart.
    pub setssip: Seq<u32>,
    /// The reserved word behind the last hart's word.
    pub reserved: u32,
}

impl View for SSWI {
    type V = SswiView;

    closed spec fn view(&self) -> SswiView {
        SswiView {
            setssip: self.setssip@.map_values(|reg: SETSSIP| reg@),
            reserved: self._reserved,
        }
    }
}

impl SSWI {
    /// A device with every flag cleared and a zero reserved word.
    pub fn new() -> (sswi: Self)
        ensures
            sswi@.setssip.len() == HART_COUNT,
            forall|hart: int| 0 <= hart < HART_COUNT ==> sswi@.setssip[hart] == 0,
            sswi@.reserved == 0,
    {
        SSWI { setssip: [SETSSIP::new(0); HART_COUNT], _reserved: 0 }
    }

    /// The reserved word behind the last hart's word.
    pub fn reserved(&self) -> (word: u32)
        ensures
            word == self@.reserved,
    {
        self._reserved
    }

    /// The device has one word for each hart.
    pub proof fn lemma_len(&self)
        ensures
            self@.setssip.len() == HART_COUNT,
    {
    }
}

/// What a block holds: every register, and the reserved word that no
/// register access reaches.
#[verifier::ext_equal]
pub struct ClintView {
    /// The software-interrupt word of each hart.
    pub msip: Seq<u32>,
    /// The reserved word between the last software-interrupt word and the
    /// first time-compare register.
    pub reserved: u32,
    /// The time-compare register of each hart.
    pub mtimecmp: Seq<u64>,
    /// The time counter.
    pub mtime: u64,
}

impl ClintView {
    /// There is one software-interrupt word and one time-compare register for
    /// each hart.
    pub open spec fn wf(self) -> bool {
        &&& self.msip.len() == HART_COUNT
        &&& self.mtimecmp.len() == HART_COUNT
    }

    /// Every register and the reserved word hold zero.
    pub open spec fn is_reset(self) -> bool {
        &&& self.wf()
        &&& forall|hart: int| 0 <= hart < HART_COUNT ==> self.msip[hart] == MSIP_CLEAR
        &&& self.reserved == 0
        &&& forall|hart: int| 0 <= hart < HART_COUNT ==> self.mtimecmp[hart] == 0
        &&& self.mtime == 0
    }

    /// Whether a software interrupt is pending for `hart`.
    pub open spec fn pending(self, hart: int) -> bool {
        self.msip[hart] != MSIP_CLEAR
    }

    /// The block after `val` is stored to the time counter.
    pub open spec fn write_mtime(self, val: u64) -> ClintView {
        ClintView { mtime: val, ..self }
    }

    /// The block after `val` is stored to the time-compare register of `hart`.
    pub open spec fn write_mtimecmp(self, hart: int, val: u64) -> ClintView {
        ClintView { mtimecmp: self.mtimecmp.update(hart, val), ..self }
    }

    /// The block after `word` is stored to the software-interrupt word of `hart`.
    pub open spec fn write_msip(self, hart: int, word: u32) -> ClintView {
        ClintView { msip: self.msip.update(hart, word), ..self }
    }

    /// The block after the software-interrupt flag of `hart` is set.
    pub open spec fn set_msip(self, hart: int) -> ClintView {
        self.write_msip(hart, MSIP_SET)
    }

    /// The block after the software-interrupt flag of `hart` is cleared.
    pub open spec fn clear_msip(self, hart: int) -> ClintView {
        self.write_msip(hart, MSIP_CLEAR)
    }

    /// What a 32-bit load at byte `offset` of the block returns.
    pub open spec fn load32(self, offset: int) -> u32
        recommends
            register_at(offset) matches Some(Register::Msip(_)),
    {
        match register_at(offset) {
            Some(Register::Msip(hart)) => self.msip[hart],
            _ => arbitrary(),
        }
    }

    /// The block after a 32-bit store of `word` at byte `offset`.
    pub open spec fn store32(self, offset: int, word: u32) -> ClintView
        recommends
            register_at(offset) matches Some(Register::Msip(_)),
    {
        match register_at(offset) {
            Some(Register::Msip(hart)) => self.write_msip(hart, word),
            _ => arbitrary(),
        }
    }

    /// What a 64-bit load at byte `offset` of the block returns.
    pub open spec fn load64(self, offset: int) -> u64
        recommends
            register_at(offset) matches Some(reg) && reg.width() == 8,
    {
        match register_at(offset) {
            Some(Register::MtimeCmp(hart)) => self.mtimecmp[hart],
            Some(Register::Mtime) => self.mtime,
            _ => arbitrary(),
        }
    }

    /// The block after a 64-bit store of `val` at byte `offset`.
    pub open spec fn store64(self, offset: int, val: u64) -> ClintView
        recommends
            register_at(offset) matches Some(reg) && reg.width() == 8,
    {
        match register_at(offset) {
            Some(Register::MtimeCmp(hart)) => self.write_mtimecmp(hart, val),
            Some(Register::Mtime) => self.write_mtime(val),
            _ => arbitrary(),
        }
    }
}

/// SiFive Core-Local Interruptor (CLINT) device.
pub struct SifiveClint {
    /// The machine-level software-interrupt device at the start of the block.
    pub mswi: MSWI,
    /// The time-compare register of each hart.
    pub mtimecmp: [MTIMECMP; HART_COUNT],
    /// The time counter.
    pub mtime: MTIME,
}

impl View for SifiveClint {
    type V = ClintView;

    open spec fn view(&self) -> ClintView {
        ClintView {
            msip: self.mswi@.msip,
            reserved: self.mswi@.reserved,
            mtimecmp: self.mtimecmp@.map_values(|reg: MTIMECMP| reg@),
            mtime: self.mtime@,
        }
    }
}

impl SifiveClint {
    /// A block in which every register and the reserved word hold zero.
    pub fn new() -> (clint: Self)
        ensures
            clint@.is_reset(),
    {
        SifiveClint {
            mswi: MSWI::new(),
            mtimecmp: [MTIMECMP::new(0); HART_COUNT],
            mtime: MTIME::new(0),
        }
    }

    /// The view of a block has a register of each kind for each hart.
    pub proof fn lemma_view_wf(&self)
        ensures
            self@.wf(),
    {
        self.mswi.lemma_len();
    }

    /// Loads the time counter.
    #[inline]
    pub fn read_mtime(&self) -> (val: u64)
        ensures
            val == self@.mtime,
    {
        self.mtime.read()
    }

    /// Stores `val` to the time counter.
    #[inline]
    pub fn write_mtime(&mut self, val: u64)
        ensures
            final(self)@ == old(self)@.write_mtime(val),
    {
        self.mtime.write(val);
    }

    /// Loads the time-compare register of hart `hart_idx`.
    #[inline]
    pub fn read_mtimecmp(&self, hart_idx: usize) -> (val: u64)
        requires
            hart_idx < HART_COUNT,
        ensures
            val == self@.mtimecmp[as_int(hart_idx)],
    {
        self.mtimecmp[hart_idx].read()
    }

    /// Stores `val` to the time-compare register of hart `hart_idx`.
    #[inline]
    pub fn write_mtimecmp(&mut self, hart_idx: usize, val: u64)
        requires
            hart_idx < HART_COUNT,
        ensures
            final(self)@ == old(self)@.write_mtimecmp(as_int(hart_idx), val),
    {
        self.mtimecmp[hart_idx].write(val);
    }

    /// Whether a software interrupt is pending for hart `hart_idx`.
    #[inline]
    pub fn read_msip(&self, hart_idx: usize) -> (pending: bool)
        requires
            hart_idx < HART_COUNT,
        ensures
            pending == self@.pending(as_int(hart_idx)),
    {
        self.mswi.msip[hart_idx].is_pending()
    }

    /// Sets the software-interrupt flag of hart `hart_idx`.
    #[inline]
    pub fn set_msip(&mut self, hart_idx: usize)
        requires
            hart_idx < HART_COUNT,
        ensures
            final(self)@ == old(self)@.set_msip(as_int(hart_idx)),
    {
        self.mswi.msip[hart_idx].write(MSIP_SET);
    }

    /// Clears the software-interrupt flag of hart `hart_idx`.
    #[inline]
    pub fn clear_msip(&mut self, hart_idx: usize)
        requires
            hart_idx < HART_COUNT,
        ensures
            final(self)@ == old(self)@.clear_msip(as_int(hart_idx)),
    {
        self.mswi.msip[hart_idx].write(MSIP_CLEAR);
    }

    /// One 32-bit load at byte `offset` of the block.
    pub fn load_u32(&self, offset: usize) -> (word: u32)
        requires
            register_at(as_int(offset)) matches Some(Register::Msip(_)),
        ensures
            word == self@.load32(as_int(offset)),
    {
        self.mswi.msip[(offset - MSWI_OFFSET) / MSIP_SIZE].read()
    }

    /// One 32-bit store of `word` at byte `offset` of the block.
    pub fn store_u32(&mut self, offset: usize, word: u32)
        requires
            register_at(as_int(offset)) matches Some(Register::Msip(_)),
        ensures
            final(self)@ == old(self)@.store32(as_int(offset), word),
    {
        self.mswi.msip[(offset - MSWI_OFFSET) / MSIP_SIZE].write(word);
    }

    /// One 64-bit load at byte `offset` of the block.
    pub fn load_u64(&self, offset: usize) -> (val: u64)
        requires
            register_at(as_int(offset)) matches Some(reg) && reg.width() == 8,
        ensures
            val == self@.load64(as_int(offset)),
    {
        if offset == MTIME_OFFSET {
            self.mtime.read()
        } else {
            self.mtimecmp[(offset - MTIMER_OFFSET) / MTIMECMP_SIZE].read()
        }
    }

    /// One 64-bit store of `val` at byte `offset` of the block.
    pub fn store_u64(&mut self, offset: usize, val: u64)
        requires
            register_at(as_int(offset)) matches Some(reg) && reg.width() == 8,
        ensures
            final(self)@ == old(self)@.store64(as_int(offset), val),
    {
        if offset == MTIME_OFFSET {
            self.mtime.write(val);
        } else {
            self.mtimecmp[(offset - MTIMER_OFFSET) / MTIMECMP_SIZE].write(val);
        }
    }

    /// Loads the time counter by its byte offset.
    pub fn read_mtime_naked(&self) -> (val: u64)
        ensures
            val == self@.mtime,
            val == self@.load64(as_int(MTIME_OFFSET)),
    {
        self.load_u64(MTIME_OFFSET)
    }

    /// Stores `val` to the time counter by its byte offset.
    pub fn write_mtime_naked(&mut self, val: u64)
        ensures
            final(self)@ == old(self)@.write_mtime(val),
            final(self)@ == old(self)@.store64(as_int(MTIME_OFFSET), val),
    {
        self.store_u64(MTIME_OFFSET, val);
    }

    /// Loads the time-compare register of hart `hart_idx` by its byte offset.
    pub fn read_mtimecmp_naked(&self, hart_idx: usize) -> (val: u64)
        requires
            hart_idx < HART_COUNT,
        ensures
            val == self@.mtimecmp[as_int(hart_idx)],
            val == self@.load64(spec_mtimecmp_offset(as_int(hart_idx))),
    {
        let offset: usize = mtimecmp_offset(hart_idx);
        proof {
            lemma_hart_registers_inside_block(as_int(hart_idx));
        }
        self.load_u64(offset)
    }

    /// Stores `val` to the time-compare register of hart `hart_idx` by its
    /// byte offset.
    pub fn write_mtimecmp_naked(&mut self, hart_idx: usize, val: u64)
        requires
            hart_idx < HART_COUNT,
        ensures
            final(self)@ == old(self)@.write_mtimecmp(as_int(hart_idx), val),
            final(self)@ == old(self)@.store64(spec_mtimecmp_offset(as_int(hart_idx)), val),
    {
        let offset: usize = mtimecmp_offset(hart_idx);
        proof {
            lemma_hart_registers_inside_block(as_int(hart_idx));
        }
        self.store_u64(offset, val);
    }

    /// Whether a software interrupt is pending for hart `hart_idx`, by the
    /// byte offset of its flag.
    pub fn read_msip_naked(&self, hart_idx: usize) -> (pending: bool)
        requires
            hart_idx < HART_COUNT,
        ensures
            pending == self@.pending(as_int(hart_idx)),
            pending == (self@.load32(spec_msip_offset(as_int(hart_idx))) != MSIP_CLEAR),
    {
        let offset: usize = msip_offset(hart_idx);
        proof {
            lemma_hart_registers_inside_block(as_int(hart_idx));
        }
        MSIP::new(self.load_u32(offset)).is_pending()
    }

    /// Sets the software-interrupt flag of hart `hart_idx` by its byte offset.
    pub fn set_msip_naked(&mut self, hart_idx: usize)
        requires
            hart_idx < HART_COUNT,
        ensures
            final(self)@ == old(self)@.set_msip(as_int(hart_idx)),
            final(self)@ == old(self)@.store32(spec_msip_offset(as_int(hart_idx)), MSIP_SET),
    {
        let offset: usize = msip_offset(hart_idx);
        proof {
            lemma_hart_registers_inside_block(as_int(hart_idx));
        }
        self.store_u32(offset, MSIP_SET);
    }

    /// Clears the software-interrupt flag of hart `hart_idx` by its byte
    /// offset.
    pub fn clear_msip_naked(&mut self, hart_idx: usize)
        requires
            hart_idx < HART_COUNT,
        ensures
            final(self)@ == old(self)@.clear_msip(as_int(hart_idx)),
            final(self)@ == old(self)@.store32(spec_msip_offset(as_int(hart_idx)), MSIP_CLEAR),
    {
        let offset: usize = msip_offset(hart_idx);
        proof {
            lemma_hart_registers_inside_block(as_int(hart_idx));
        }
        self.store_u32(offset, MSIP_CLEAR);
    }
}

} // verus!
