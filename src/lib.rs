use vstd::prelude::*;

pub mod error;
pub mod serial;
pub mod config_shared;
pub mod sockets;
