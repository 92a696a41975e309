//! A tick identifier for deterministic simulations: a 32-bit counter with
//! range-checked arithmetic, a signed difference, a total order and a
//! fixed-width hexadecimal rendering.

pub mod operators;
pub mod order;
pub mod render;
pub mod tick;

pub use tick::TickId;
