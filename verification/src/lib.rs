//! PasteFile: the verified core of a file-sharing service and its command line tool.

pub mod text;
pub mod util;
pub mod error;
pub mod dto;
pub mod database;
pub mod service;
pub mod laws;
pub mod cli;
pub mod configure;
pub mod config;
pub mod index;
