//! The two sides of a pseudo-terminal.

pub mod master;
pub mod slave;

pub use self::master::{Master, MasterError};
pub use self::slave::{Slave, SlaveError};
