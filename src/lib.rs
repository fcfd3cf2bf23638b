//! Retrieving and displaying the metadata that a blockchain node keeps about a
//! deployed smart contract: the record's model, its two renderings and the
//! decisions of one lookup.

pub mod command;
pub mod hexcode;
pub mod info;
pub mod session;
pub mod text;
