//! A small "system fetch" library: it turns raw host facts (total memory,
//! uptime seconds, CPU frequency, battery charge, configuration text) into
//! the lines of a short human-readable report, with every formatting and
//! decoding rule stated as a contract and proved.

pub mod battery_report;
pub mod config;
pub mod memory;
pub mod numfmt;
pub mod osinfo;
pub mod report;
pub mod toml_text;
pub mod uptime;
