//! The arguments of the command line tool's upload commands.

use crate::cli::parse::KeyNonce;
use crate::dto::UploadQueryParam;
use vstd::prelude::*;

verus! {

/// What the tool prints after a successful upload.
#[derive(Clone, Copy, Debug, PartialEq, Eq, Structural)]
pub enum UploadOutput {
    QrCode,
    Url,
    UrlPath,
    Json,
}

/// The name by which an output is chosen on the command line.
pub open spec fn output_name(o: UploadOutput) -> Seq<char> {
    match o {
        UploadOutput::QrCode => "qr-code"@,
        UploadOutput::Url => "url"@,
        UploadOutput::UrlPath => "url-path"@,
        UploadOutput::Json => "json"@,
    }
}

impl UploadOutput {
    /// The name by which the output is chosen on the command line.
    pub fn to_string(&self) -> (r: String)
        ensures
            r@ == output_name(*self),
    {
        match self {
            UploadOutput::QrCode => "qr-code".to_owned(),
            UploadOutput::Url => "url".to_owned(),
            UploadOutput::UrlPath => "url-path".to_owned(),
            UploadOutput::Json => "json".to_owned(),
        }
    }
}

/// The arguments of `upload`.
#[derive(Debug)]
pub struct UploadArguments {
    pub server_addr: String,
    pub auth: Option<(String, String)>,
    pub code_length: Option<usize>,
    pub progress_bar: bool,
    pub expire: Option<u64>,
    pub allow_manual_deletion: Option<bool>,
    pub max_download: Option<u32>,
    pub output: UploadOutput,
    pub source_file: String,
    pub key_nonce: Option<KeyNonce>,
}

/// The arguments of `copy`.
#[derive(Debug)]
pub struct CopyArguments {
    pub server_addr: String,
    pub auth: Option<(String, String)>,
    pub code_length: Option<usize>,
    pub expire: Option<u64>,
    pub allow_manual_deletion: Option<bool>,
    pub max_download: Option<u32>,
    pub output: UploadOutput,
    pub key_nonce: Option<KeyNonce>,
}

impl UploadArguments {
    /// The query that the upload sends: the options as given, and no QR code
    /// asked of the server.
    pub fn query_param(&self) -> (r: UploadQueryParam)
        ensures
            r.max_download == self.max_download,
            r.code_length == self.code_length,
            r.expire_secs == self.expire,
            r.allow_manual_deletion == self.allow_manual_deletion,
            r.qr_code_format is None,
    {
        UploadQueryParam {
            max_download: self.max_download,
            code_length: self.code_length,
            expire_secs: self.expire,
            allow_manual_deletion: self.allow_manual_deletion,
            qr_code_format: None,
        }
    }
}

impl CopyArguments {
    /// The query that the copy sends: the options as given, and no QR code
    /// asked of the server.
    pub fn query_param(&self) -> (r: UploadQueryParam)
        ensures
            r.max_download == self.max_download,
            r.code_length == self.code_length,
            r.expire_secs == self.expire,
            r.allow_manual_deletion == self.allow_manual_deletion,
            r.qr_code_format is None,
    {
        UploadQueryParam {
            max_download: self.max_download,
            code_length: self.code_length,
            expire_secs: self.expire,
            allow_manual_deletion: self.allow_manual_deletion,
            qr_code_format: None,
        }
    }
}

} // verus!
