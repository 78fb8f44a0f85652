//! Small utilities of the service: secrets, file names, headers, paths and QR codes.

pub mod file_name;
pub mod http;
pub mod secret;
pub mod test;
pub mod path;
pub mod qrcode;
pub mod task;
