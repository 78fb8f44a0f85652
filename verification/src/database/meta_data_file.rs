//! What the service records of each stored file.

use crate::util::secret::SecretHash;
use vstd::prelude::*;

verus! {

/// The record of a stored file.  Times are nanoseconds since the Unix epoch
/// (UTC).
#[derive(Debug)]
pub struct MetaDataFile {
    pub created_at: i128,
    pub expire_date_time: i128,
    pub secret: Option<SecretHash>,
    pub manual_deletion: bool,
    pub max_download: Option<u32>,
    pub count_downloads: u32,
}

/// The mathematical value of a `MetaDataFile`.
pub struct MetaDataFileView {
    pub created_at: i128,
    pub expire_date_time: i128,
    pub secret: Option<Seq<char>>,
    pub manual_deletion: bool,
    pub max_download: Option<u32>,
    pub count_downloads: u32,
}

/// The view of an optional hash.
pub open spec fn secret_view(s: Option<SecretHash>) -> Option<Seq<char>> {
    match s {
        Some(h) => Some(h@),
        None => None,
    }
}

impl View for MetaDataFile {
    type V = MetaDataFileView;

    open spec fn view(&self) -> MetaDataFileView {
        MetaDataFileView {
            created_at: self.created_at,
            expire_date_time: self.expire_date_time,
            secret: secret_view(self.secret),
            manual_deletion: self.manual_deletion,
            max_download: self.max_download,
            count_downloads: self.count_downloads,
        }
    }
}

/// A copy of an optional hash.
pub fn duplicate_secret(s: &Option<SecretHash>) -> (r: Option<SecretHash>)
    ensures
        secret_view(r) == secret_view(*s),
{
    match s {
        Some(h) => Some(h.duplicate()),
        None => None,
    }
}

impl MetaDataFile {
    /// A copy of the record.
    pub fn duplicate(&self) -> (r: MetaDataFile)
        ensures
            r@ == self@,
    {
        MetaDataFile {
            created_at: self.created_at,
            expire_date_time: self.expire_date_time,
            secret: duplicate_secret(&self.secret),
            manual_deletion: self.manual_deletion,
            max_download: self.max_download,
            count_downloads: self.count_downloads,
        }
    }

    /// Whether two records are equal in every field.
    pub fn same(&self, other: &MetaDataFile) -> (r: bool)
        ensures
            r == (self@ == other@),
    {
        let secrets_equal = match (&self.secret, &other.secret) {
            (Some(a), Some(b)) => a.same(b),
            (None, None) => true,
            _ => false,
        };
        let max_equal = match (self.max_download, other.max_download) {
            (Some(a), Some(b)) => a == b,
            (None, None) => true,
            _ => false,
        };
        secrets_equal && max_equal && self.created_at == other.created_at && self.expire_date_time
            == other.expire_date_time && self.manual_deletion == other.manual_deletion
            && self.count_downloads
            == other.count_downloads
    }
}

/// What the service answers about a stored file.
#[derive(Debug)]
pub struct MetaDataFileResponse {
    pub created_at: i128,
    pub expire_date_time: i128,
    pub allow_manual_deletion: bool,
    pub max_download: Option<u32>,
    pub count_downloads: u32,
}

impl MetaDataFileResponse {
    /// The public part of a record.
    pub fn from(value: &MetaDataFile) -> (r: MetaDataFileResponse)
        ensures
            r.created_at == value.created_at,
            r.expire_date_time == value.expire_date_time,
            r.allow_manual_deletion == value.manual_deletion,
            r.max_download == value.max_download,
            r.count_downloads == value.count_downloads,
    {
        MetaDataFileResponse {
            created_at: value.created_at,
            expire_date_time: value.expire_date_time,
            allow_manual_deletion: value.manual_deletion,
            max_download: value.max_download,
            count_downloads: value.count_downloads,
        }
    }
}

} // verus!
