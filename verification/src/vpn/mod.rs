//! What is known of the OpenVPN3 command line client: how it is called and
//! how its output reads.

pub mod health;
pub mod manager;
pub mod parser;
