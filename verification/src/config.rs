//! The settings of a plain-HTTP server: its address, storage and upload defaults.

use crate::text::{decimal, push_str, u64_to_decimal};
use vstd::prelude::*;

verus! {

/// The settings of the service.
#[derive(Debug)]
pub struct AppConfig {
    pub server: ServerConfig,
    pub fs: FileSystemConfig,
    pub db: DatabaseConfig,
    pub domain: String,
    pub max_upload_size: usize,
    pub default_code_length: usize,
    pub default_expire_time: u64,
}

/// Where the server listens.
#[derive(Debug)]
pub struct ServerConfig {
    pub addr: String,
    pub port: u16,
}

/// Where the database keeps its files.
#[derive(Debug)]
pub struct DatabaseConfig {
    pub path: String,
}

/// Where the uploaded files are kept.
#[derive(Debug)]
pub struct FileSystemConfig {
    pub base_dir: String,
}

impl ServerConfig {
    /// The address the server listens on, as a URL: `http://{addr}:{port}`.
    pub fn get_http_addr(&self) -> (r: String)
        ensures
            r@ == "http://"@ + self.addr@ + seq![':'] + decimal(self.port as nat),
    {
        let mut r = "http://".to_owned();
        push_str(&mut r, self.addr.as_str());
        push_str(&mut r, ":");
        let port = u64_to_decimal(self.port as u64);
        push_str(&mut r, port.as_str());
        proof {
            reveal_strlit(":");
        }
        r
    }
}

} // verus!
