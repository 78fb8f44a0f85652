//! The scratch directory that file tests of the command line tool work in.

use crate::text::push_str;
use vstd::prelude::*;

verus! {

/// A scratch directory, `test_dir_{suffix}`, made before a test and removed
/// after it.
#[derive(Debug)]
pub struct FileTestContext {
    pub temp_path: String,
}

impl FileTestContext {
    /// The context whose directory is `test_dir_{suffix}`.
    pub fn with_suffix(suffix: &str) -> (r: FileTestContext)
        ensures
            r.temp_path@ == "test_dir_"@ + suffix@,
    {
        let mut p = "test_dir_".to_owned();
        push_str(&mut p, suffix);
        FileTestContext { temp_path: p }
    }
}

} // verus!
