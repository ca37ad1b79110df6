//! What the commands of the program decide.

pub mod login;
pub mod servers;
