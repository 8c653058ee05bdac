//! A driver for a quadrature decoder peripheral, proved against a model of its registers.
pub mod bitfield;
pub mod laws;
pub mod qdc;
pub mod regs;

pub use qdc::{Qdc, Qdc1, Qdc2, Qdc3, Qdc4};
pub use regs::{Field, Instance, Reg, RegWrite};
