//! The records of earlier format versions. Each is frozen: it is read from
//! its payload and turned into the current settings, never written.

pub mod v0_3;
pub mod v0_4;
pub mod v0_5;
pub mod v2_0;
