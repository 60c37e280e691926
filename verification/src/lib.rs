//! Core of a Bitcoin explorer for the command line: satoshi arithmetic,
//! decoding of transaction listings, command dispatch and the text of every
//! table cell, with each function's behaviour stated as a contract.

pub mod address;
pub mod cli;
pub mod clock;
pub mod digits;
pub mod help;
pub mod json;
pub mod money;
pub mod paint;
pub mod report;
pub mod table;
pub mod transaction;
pub mod unconfirmed;
pub mod units;
