//! Conversion of algorithm-register records into system cards.
//!
//! The modules follow the data through the conversion: a register record is
//! kept or dropped by its standard version, mapped to a system card, and
//! given the name of the file that the card is written to.

pub mod algoritmeregister;
pub mod date;
pub mod filename;
pub mod pattern;
pub mod system_card;
pub mod text;
