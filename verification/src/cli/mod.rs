//! The command line tool: its arguments and how it parses them.

pub mod args;
pub mod parse;
pub mod test;
pub mod transfer;
