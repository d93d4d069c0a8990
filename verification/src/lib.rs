//! Shareable containers whose borrow rules are checked while the program
//! runs: any number of shared views of a value, or one exclusive view, never
//! both. A request that cannot be granted is answered at once; nothing here
//! ever waits.
//!
//! - [`borrow_state`] holds the register that keeps count of the views, and
//!   states each of its transitions as a function of the value it held.
//! - [`ledger`] sets the register against the views that are live and proves
//!   what holds of every run of requests and releases.
//! - [`atomic_ref_cell`] guards a value with the register and hands out the
//!   views; [`atomic_init_cell`] does so for a value that arrives later.
//! - [`init_cell`] is the plain cell that is filled once.
//! - [`shared_state`] keeps the register in an atomic integer, for cells that
//!   threads share.

#![allow(unused_imports)]

pub use atomic_ref_cell::AtomicRefCell;
pub use init_cell::InitCell;

pub mod atomic_init_cell;
pub mod atomic_ref_cell;
pub mod borrow_state;
pub mod init_cell;
pub mod ledger;
pub mod shared_state;
