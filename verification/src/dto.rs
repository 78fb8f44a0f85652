//! The parameters that an upload request carries.

use crate::error::{invalid_input_error, invalid_input_message, ApiError, ApiResult};
use vstd::prelude::*;

verus! {

/// How a QR code of the download URL is returned.
#[derive(Clone, Copy, Debug, PartialEq, Eq)]
pub enum QrCodeFormat {
    Text,
    Image,
}

/// The query parameters of an upload.
#[derive(Debug)]
pub struct UploadQueryParam {
    pub max_download: Option<u32>,
    pub code_length: Option<usize>,
    pub expire_secs: Option<u64>,
    pub allow_manual_deletion: Option<bool>,
    pub qr_code_format: Option<QrCodeFormat>,
}

/// The shortest code that an upload may ask for.
pub const MIN_CODE_LENGTH: usize = 3;

impl UploadQueryParam {
    /// Parameters that ask for nothing in particular.
    pub fn empty() -> (r: UploadQueryParam)
        ensures
            r.max_download is None,
            r.code_length is None,
            r.expire_secs is None,
            r.allow_manual_deletion is None,
            r.qr_code_format is None,
    {
        UploadQueryParam {
            max_download: None,
            code_length: None,
            expire_secs: None,
            allow_manual_deletion: None,
            qr_code_format: None,
        }
    }

    /// Checks the parameters: a requested code length must be at least
    /// `MIN_CODE_LENGTH`.
    pub fn validate(&self) -> (r: ApiResult<()>)
        ensures
            r is Ok <==> (self.code_length matches Some(n) ==> n >= MIN_CODE_LENGTH),
            r matches Err(e) ==> e matches ApiError::InvalidInputError(m) && m@ == invalid_input_message(
                "code_length"@,
                "lower than 3"@,
            ),
    {
        match self.code_length {
            Some(n) => {
                if n < MIN_CODE_LENGTH {
                    return Err(invalid_input_error("code_length", "lower than 3"));
                }
                Ok(())
            },
            None => Ok(()),
        }
    }
}

} // verus!
