//! Sampling of CPU cluster frequencies from the text report of a power
//! metrics utility: finding the two labelled fields, reading their numerals,
//! laying out the table that shows them, and deciding what the polling loop
//! does next.

pub mod numeral;
pub mod search;
pub mod sample;
pub mod table;
pub mod monitor;
