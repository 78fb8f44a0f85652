//! Bookkeeping of the command line tool's uploads and downloads.

use crate::database::file_path::{join_path, path_join};
use crate::text::{chars_of, substring};
use vstd::prelude::*;

verus! {

/// Where a transfer stands after a chunk: the bytes done, the position the
/// progress bar shows (never past the total), and whether it is complete.
#[derive(Debug)]
pub struct Progress {
    pub done: u64,
    pub position: u64,
    pub finished: bool,
}

/// Counts a chunk of `chunk` bytes into a transfer of `total` bytes of which
/// `done` were already sent.
pub fn advance(done: u64, chunk: u64, total: u64) -> (r: Progress)
    requires
        done + chunk <= u64::MAX,
    ensures
        r.done == done + chunk,
        r.position == (if done + chunk <= total { done + chunk } else { total as int }),
        r.finished == (done + chunk >= total),
{
    let now = done + chunk;
    let position = if now <= total { now } else { total };
    Progress { done: now, position, finished: now >= total }
}

/// The text after the last `/` of a URL path (all of it when there is none).
pub open spec fn last_segment(s: Seq<char>) -> Seq<char>
    decreases s.len(),
{
    if s.len() == 0 {
        s
    } else if s.last() == '/' {
        Seq::empty()
    } else {
        last_segment(s.drop_last()).push(s.last())
    }
}

/// The last segment of a URL path.
pub fn url_last_segment(url_path: &str) -> (r: String)
    ensures
        r@ == last_segment(url_path@),
{
    let cs = chars_of(url_path);
    let mut start: usize = 0;
    let mut i: usize = 0;
    while i < cs.len()
        invariant
            cs@ == url_path@,
            start <= i <= cs@.len(),
            last_segment(cs@.take(i as int)) == cs@.subrange(start as int, i as int),
        decreases cs@.len() - i,
    {
        assert(cs@.take(i + 1).drop_last() =~= cs@.take(i as int));
        if cs[i] == '/' {
            start = i + 1;
        }
        i = i + 1;
        assert(cs@.subrange(start as int, i as int) =~= last_segment(cs@.take(i as int)));
    }
    assert(cs@.take(cs@.len() as int) =~= cs@);
    substring(&cs, start, cs.len())
}

/// Where a download is written: into the directory, under the URL path's last
/// segment, when the destination is a directory; the destination itself
/// otherwise.
pub fn download_target(url_path: &str, destination: &str, destination_is_dir: bool) -> (r: String)
    ensures
        destination_is_dir ==> r@ == path_join(destination@, last_segment(url_path@)),
        !destination_is_dir ==> r@ == destination@,
{
    if destination_is_dir {
        let name = url_last_segment(url_path);
        join_path(destination, name.as_str())
    } else {
        destination.to_owned()
    }
}

} // verus!
