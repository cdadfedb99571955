//! The system tick timer: a 24-bit down counter that raises the tick
//! interrupt each time it reloads.

pub mod defs;
pub mod control_status;
pub mod current_value;
pub mod reload_value;

pub use self::control_status::{ClockSource, CSR};
pub use self::current_value::CVR;
pub use self::reload_value::RVR;
