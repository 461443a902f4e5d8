//! Plain data types shared by the protocol components.

pub mod addr;
pub mod keys;
