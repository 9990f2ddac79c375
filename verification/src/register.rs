//! The single registers of the block.
//!
//! Each type holds the storage of one hardware register and is reached only
//! by `read` and `write`, which move the register's full width at once. The
//! view of a register is the value it holds.

use vstd::prelude::*;

verus! {

/// The word that a set software-interrupt flag holds.
pub const MSIP_SET: u32 = 1;

/// The word that a cleared software-interrupt flag holds.
pub const MSIP_CLEAR: u32 = 0;

/// Machine-level time counter register.
#[derive(Clone, Copy)]
pub struct MTIME(u64);

impl View for MTIME {
    type V = u64;

    closed spec fn view(&self) -> u64 {
        self.0
    }
}

impl MTIME {
    /// A time counter that holds `val`.
    pub fn new(val: u64) -> (reg: Self)
        ensures
            reg@ == val,
    {
        MTIME(val)
    }

    /// Loads the counter.
    pub fn read(&self) -> (val: u64)
        ensures
            val == self@,
    {
        self.0
    }

    /// Stores `val` to the counter.
    pub fn write(&mut self, val: u64)
        ensures
            final(self)@ == val,
    {
        self.0 = val;
    }
}

/// Machine-level time compare register.
#[derive(Clone, Copy)]
pub struct MTIMECMP(u64);

impl View for MTIMECMP {
    type V = u64;

    closed spec fn view(&self) -> u64 {
        self.0
    }
}

impl MTIMECMP {
    /// A time-compare register that holds `val`.
    pub fn new(val: u64) -> (reg: Self)
        ensures
            reg@ == val,
    {
        MTIMECMP(val)
    }

    /// Loads the register.
    pub fn read(&self) -> (val: u64)
        ensures
            val == self@,
    {
        self.0
    }

    /// Stores `val` to the register.
    pub fn write(&mut self, val: u64)
        ensures
            final(self)@ == val,
    {
        self.0 = val;
    }
}

/// Machine-level IPI register.
#[derive(Clone, Copy)]
pub struct MSIP(u32);

impl View for MSIP {
    type V = u32;

    closed spec fn view(&self) -> u32 {
        self.0
    }
}

impl MSIP {
    /// A software-interrupt word that holds `word`.
    pub fn new(word: u32) -> (reg: Self)
        ensures
            reg@ == word,
    {
        MSIP(word)
    }

    /// Loads the word.
    pub fn read(&self) -> (word: u32)
        ensures
            word == self@,
    {
        self.0
    }

    /// Stores `word`.
    pub fn write(&mut self, word: u32)
        ensures
            final(self)@ == word,
    {
        self.0 = word;
    }

    /// Whether the word requests an interrupt: any word but the cleared one
    /// does.
    pub fn is_pending(&self) -> (pending: bool)
        ensures
            pending == (self@ != MSIP_CLEAR),
    {
        self.0 != MSIP_CLEAR
    }
}

/// Set supervisor-level IPI register.
#[derive(Clone, Copy)]
pub struct SETSSIP(u32);

impl View for SETSSIP {
    type V = u32;

    closed spec fn view(&self) -> u32 {
        self.0
    }
}

impl SETSSIP {
    /// A software-interrupt word that holds `word`.
    pub fn new(word: u32) -> (reg: Self)
        ensures
            reg@ == word,
    {
        SETSSIP(word)
    }

    /// Loads the word.
    pub fn read(&self) -> (word: u32)
        ensures
            word == self@,
    {
        self.0
    }

    /// Stores `word`.
    pub fn write(&mut self, word: u32)
        ensures
            final(self)@ == word,
    {
        self.0 = word;
    }
}

} // verus!
