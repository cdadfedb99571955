//! General-purpose I/O port configuration registers.
//!
//! Each register of a GPIO port is a 32-bit word holding one small field per
//! pin; the types here expose typed accessors over those fields.

pub mod defs;
pub mod moder;
pub mod otyper;
pub mod ospeedr;
pub mod pupdr;
pub mod afr;
pub mod bsrr;

pub use self::moder::{Mode, MODER};
pub use self::otyper::{Type, OTYPER};
pub use self::ospeedr::{Speed, OSPEEDR};
pub use self::pupdr::{Pull, PUPDR};
pub use self::afr::{AlternateFunction, AFRL, AFRH};
pub use self::bsrr::BSRR;
