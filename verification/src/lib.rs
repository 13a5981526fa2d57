//! Color objects stored in program-owned accounts, and the helpers a client
//! uses to talk to that program.
//!
//! The `program` module holds the instruction processor: it decodes an
//! instruction, checks the accounts it was handed and moves a color object
//! into or between accounts. The `layout` module holds the byte layouts that
//! the program and the client share. The `client` module holds what a client
//! computes before it sends anything: the data size of an object account,
//! object account addresses and the settings of the Solana CLI configuration.
//! The `yaml` module holds what the client needs of the YAML loader, and the
//! `laws` module the properties that tie the program's operations together.

pub mod layout;
pub mod program;
pub mod client;
pub mod yaml;
pub mod laws;
