//! Where stored files live on disk.

use crate::database::file_path::{path_join, url_path_of, FilePath};
use vstd::prelude::*;

verus! {

/// The path of a stored file under the directory `base_dir`:
/// `{base_dir}/{code}/{file_name}`.
pub fn get_fs_path(base_dir: &str, file_path: &FilePath) -> (r: String)
    ensures
        r@ == path_join(base_dir@, url_path_of(file_path@)),
{
    file_path.fs_path(base_dir)
}

} // verus!
