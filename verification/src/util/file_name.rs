//! Which names an uploaded file may have.

use crate::error::{invalid_input_error, invalid_input_message, ApiError, ApiResult};
use crate::text::{chars_of, find_char, has_char};
use vstd::prelude::*;

verus! {

/// Whether everything in `rest` is separators and lone `.` segments, which
/// `Path::components` skips after the first component.
pub open spec fn only_separators(rest: Seq<char>) -> bool {
    forall|i: int|
        0 <= i < rest.len() ==> #[trigger] rest[i] == '/' || {
            &&& rest[i] == '.'
            &&& 0 < i && rest[i - 1] == '/'
            &&& (i + 1 == rest.len() || rest[i + 1] == '/')
        }
}

/// Whether `name` is a path of exactly one normal component, the first: it
/// does not start with `/`, its first segment is neither `.` nor `..`, and
/// what follows that segment is only separators and `.` segments.
pub open spec fn valid_file_name(name: Seq<char>) -> bool {
    exists|k: int|
        #![trigger name.take(k)]
        0 < k <= name.len() && !has_char(name.take(k), '/') && (k == name.len() || name[k] == '/')
            && name.take(k) != "."@ && name.take(k) != ".."@ && only_separators(name.skip(k))
}

/// Once the end `k` of the first segment is known, validity is a matter of
/// that segment and of what follows it.
proof fn lemma_first_segment(name: Seq<char>, k: int)
    requires
        0 < k <= name.len(),
        !has_char(name.take(k), '/'),
        k == name.len() || name[k] == '/',
    ensures
        valid_file_name(name) <==> (name.take(k) != "."@ && name.take(k) != ".."@ && only_separators(name.skip(k))),
{
    if valid_file_name(name) {
        let j = choose|j: int|
            #![trigger name.take(j)]
            0 < j <= name.len() && !has_char(name.take(j), '/') && (j == name.len() || name[j] == '/')
                && name.take(j) != "."@ && name.take(j) != ".."@ && only_separators(name.skip(j));
        if j < k {
            assert(name.take(k)[j] == '/');
        } else if j > k {
            assert(name.take(j)[k] == '/');
        }
    }
}

/// Accepts a file name only if, as a path, it consists of a single normal
/// component (`Path::components` yields exactly one `Normal` item).
pub fn validate(path: &str) -> (r: ApiResult<()>)
    ensures
        r is Ok <==> valid_file_name(path@),
        r matches Err(e) ==> e matches ApiError::InvalidInputError(m) && m@ == invalid_input_message("file_name"@, "invalid"@),
{
    let cs = chars_of(path);
    let k: usize = match find_char(&cs, '/') {
        Some(i) => i,
        None => {
            assert(cs@.take(cs@.len() as int) =~= cs@);
            cs.len()
        },
    };
    proof {
        assert forall|j: int| 0 < j <= cs@.len() && !has_char(cs@.take(j), '/') && (j == cs@.len() || cs@[j] == '/') implies j == k by {
            if j < k {
                assert(cs@.take(k as int)[j] == '/');
            } else if j > k {
                assert(cs@.take(j)[k as int] == '/');
            }
        }
    }
    if k == 0 {
        proof {
            if valid_file_name(path@) {
                let j = choose|j: int|
                    #![trigger path@.take(j)]
                    0 < j <= path@.len() && !has_char(path@.take(j), '/') && (j == path@.len() || path@[j] == '/')
                        && path@.take(j) != "."@ && path@.take(j) != ".."@ && only_separators(path@.skip(j));
                assert(cs@.take(j)[0] == '/');
            }
        }
        return Err(invalid_input_error("file_name", "invalid"));
    }
    let first_is_dot = k == 1 && cs[0] == '.';
    let first_is_dots = k == 2 && cs[0] == '.' && cs[1] == '.';
    proof {
        reveal_strlit(".");
        reveal_strlit("..");
        assert(first_is_dot <==> cs@.take(k as int) == "."@) by {
            if cs@.take(k as int) == "."@ {
                assert(cs@.take(k as int).len() == 1);
                assert(cs@.take(k as int)[0] == '.');
            }
            if first_is_dot {
                assert(cs@.take(k as int) =~= "."@);
            }
        }
        assert(first_is_dots <==> cs@.take(k as int) == ".."@) by {
            if cs@.take(k as int) == ".."@ {
                assert(cs@.take(k as int).len() == 2);
                assert(cs@.take(k as int)[0] == '.');
                assert(cs@.take(k as int)[1] == '.');
            }
            if first_is_dots {
                assert(cs@.take(k as int) =~= ".."@);
            }
        }
    }
    proof {
        lemma_first_segment(path@, k as int);
    }
    if first_is_dot || first_is_dots {
        return Err(invalid_input_error("file_name", "invalid"));
    }
    let ghost rest = cs@.skip(k as int);
    let mut i = k;
    while i < cs.len()
        invariant
            k <= i <= cs@.len(),
            rest == cs@.skip(k as int),
            cs@ == path@,
            valid_file_name(path@) <==> only_separators(rest),
            k == cs@.len() || cs@[k as int] == '/',
            forall|j: int| 0 <= j < i - k ==> #[trigger] rest[j] == '/' || {
                &&& rest[j] == '.'
                &&& 0 < j && rest[j - 1] == '/'
                &&& (j + 1 == rest.len() || rest[j + 1] == '/')
            },
        decreases cs@.len() - i,
    {
        let c = cs[i];
        assert(rest[i - k] == c);
        if c != '/' {
            let lone_dot = c == '.' && i > k && cs[i - 1] == '/' && (i + 1 == cs.len() || cs[i + 1] == '/');
            if !lone_dot {
                proof {
                    if i > k {
                        assert(rest[i - k - 1] == cs@[i - 1]);
                    }
                    if i + 1 < cs@.len() {
                        assert(rest[i - k + 1] == cs@[i + 1]);
                    }
                    assert(!only_separators(rest));
                }
                return Err(invalid_input_error("file_name", "invalid"));
            }
            proof {
                assert(rest[i - k - 1] == cs@[i - 1]);
                if i + 1 < cs@.len() {
                    assert(rest[i - k + 1] == cs@[i + 1]);
                }
            }
        }
        i = i + 1;
    }
    assert(only_separators(rest));
    Ok(())
}

} // verus!
