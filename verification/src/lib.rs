//! A critical-section-protected, lazily initialised cell for single-threaded
//! microcontrollers, where the only concurrency is an interrupt handler
//! cutting in on the main loop.
//!
//! A [`StaticRefCell`] starts out empty, is filled by `init`, and is read with
//! `borrow` and updated with `borrow_mut`. Each of them asks for a
//! `critical_section::CriticalSection` token, and each takes two functions:
//! one for the held value and a fallback for the empty cell.

pub mod cell;
pub mod laws;
pub mod token;

pub use cell::StaticRefCell;
