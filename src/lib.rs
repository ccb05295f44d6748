//! Exact quantity estimators for building work: roof slabs, PVC ceilings,
//! flooring with mortar and grout, concrete mixes, and a small four-function
//! calculator.

pub mod decimal;
pub mod quantity;
pub mod room;
pub mod ceiling;
pub mod flooring;
pub mod selection;
pub mod settings;
pub mod slab;
pub mod concrete;
pub mod calculator;
