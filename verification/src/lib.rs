//! Register layout and access paths of a Core-Local Interruptor (CLINT): a
//! time counter shared by all harts, a time-compare register for each hart,
//! and a software-interrupt flag for each hart, in one block of `0xc000`
//! bytes.
//!
//! - `layout` is the address map: the sizes and offsets of the registers, the
//!   index arithmetic that reaches a hart's register from the base of the
//!   block, and the proof that this arithmetic lands on the register it is
//!   meant for and on nothing else.
//! - `register` has the single registers.
//! - `clint` has the block, `SifiveClint`, with its typed accessors and with
//!   the raw accessors that go by byte offset, each proved to do what its
//!   typed counterpart does.
//! - `laws` states what follows for every block: a stored value is the value
//!   loaded on either path, setting and clearing a flag are idempotent, and a
//!   store changes one register only and never the reserved word.
//!
//! `SifiveClint` holds its registers as values. Code that drives a mapped
//! device performs the volatile load or store itself, at the address that
//! `layout` computes.

pub mod clint;
pub mod laws;
pub mod layout;
pub mod register;

pub use clint::{ClintView, MswiView, SifiveClint, SswiView, MSWI, SSWI};
pub use register::{MSIP, MTIME, MTIMECMP, SETSSIP};
