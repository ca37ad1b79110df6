//! Device-authorization login and the credential it leaves behind.

pub mod flow;
pub mod token;
