//! Typed, checked access to the native hardware-abstraction library of a
//! robot control board: native status codes become a structured error, every
//! native call goes through one checked calling convention, and each kind of
//! peripheral gets its own handle type.

pub mod error;
pub mod call;
pub mod handle;
pub mod counter;
pub mod serial;
pub mod serial_io;
pub mod interrupt;
pub mod decimal;
