//! Session core of a serial terminal: a controller/worker pair that owns a
//! live connection, exchanges text with the caller through two ordered
//! queues, and contains faults of the underlying driver.

pub mod channel;
pub mod codec;
pub mod controller;
pub mod driver;
pub mod errors;
pub mod fake;
pub mod myserial;
pub mod sidebar;
pub mod terminal;
pub mod worker;
