//! Properties of the service that span several operations.

use crate::database::file_path::FilePathView;
use crate::database::meta_data_file::MetaDataFileView;
use crate::database::{expired_paths, unexpired, DatabaseView};
use crate::service::file::{authorized, counted, exhausted};
use crate::cli::parse::unit_seconds;
use crate::cli::transfer::last_segment;
use crate::database::file_path::{path_join, url_path_of};
use crate::error::{error_type_of, status_of, ApiError};
use crate::text::{all_digits, decimal, digit_char, digit_value, digits_value, has_char, is_digit, parse_u64_spec};
use crate::util::secret::argon2_verdict;
use vstd::prelude::*;

verus! {

/// A stored file is found, with the record it was stored with.
pub proof fn law_stored_file_is_found(v: DatabaseView, p: FilePathView, m: MetaDataFileView)
    ensures
        v.with_file(p, m).files.contains_key(p),
        v.with_file(p, m).files[p] == m,
{
}

/// Deleting a file that was just stored gives back the state from before the
/// upload (when the index held no entry of that file at that time).
pub proof fn law_delete_undoes_store(v: DatabaseView, p: FilePathView, m: MetaDataFileView)
    requires
        !v.files.contains_key(p),
        !v.expires.contains((m.expire_date_time, p)),
    ensures
        v.with_file(p, m).without_file(p) == v,
{
    assert(v.with_file(p, m).without_file(p).files =~= v.files);
    assert(v.with_file(p, m).without_file(p).expires =~= v.expires);
}

/// An upload whose bytes could not be written leaves no record behind: the
/// records are those from before the upload.
pub proof fn law_abandoned_upload_leaves_no_record(v: DatabaseView, p: FilePathView, m: MetaDataFileView)
    requires
        !v.files.contains_key(p),
    ensures
        v.with_file(p, m).without_file(p).files == v.files,
        !v.with_file(p, m).without_file(p).files.contains_key(p),
{
    assert(v.with_file(p, m).without_file(p).files =~= v.files);
}

/// After a deletion the file is gone, and every other file keeps its record.
pub proof fn law_deleted_file_is_gone(v: DatabaseView, p: FilePathView)
    ensures
        !v.without_file(p).files.contains_key(p),
        forall|q: FilePathView|
            q != p ==> (#[trigger] v.without_file(p).files.contains_key(q) <==> v.files.contains_key(q)),
        forall|q: FilePathView|
            q != p && v.files.contains_key(q) ==> #[trigger] v.without_file(p).files[q] == v.files[q],
{
}

/// A record that was replaced is read back as the new record, and the expiry
/// index does not change.
pub proof fn law_update_is_read_back(v: DatabaseView, p: FilePathView, m: MetaDataFileView)
    ensures
        v.with_record(p, m).files[p] == m,
        v.with_record(p, m).expires == v.expires,
{
}

/// An upload whose expiry time is before `now` is gone after a purge at
/// `now`, however often its record was replaced in between.
pub proof fn law_expired_upload_is_purged(
    v: DatabaseView,
    p: FilePathView,
    m: MetaDataFileView,
    m2: MetaDataFileView,
    now: i128,
)
    requires
        m.expire_date_time < now,
    ensures
        !v.with_file(p, m).purged(now).files.contains_key(p),
        !v.with_file(p, m).with_record(p, m2).purged(now).files.contains_key(p),
{
    let w = v.with_file(p, m);
    assert(w.expires.contains((m.expire_date_time, p)));
    assert(expired_paths(w.expires, now).contains(p));
    assert(w.with_record(p, m2).expires == w.expires);
}

/// After a purge at `now` nothing in the index is due before `now`, and a
/// second purge at the same time changes nothing.
pub proof fn law_purge_leaves_nothing_due(v: DatabaseView, now: i128)
    ensures
        forall|e: (i128, FilePathView)| #[trigger] v.purged(now).expires.contains(e) ==> e.0 >= now,
        v.purged(now).purged(now) == v.purged(now),
{
    let w = v.purged(now);
    assert(expired_paths(w.expires, now) =~= Set::<FilePathView>::empty());
    assert(w.purged(now).files =~= w.files);
    assert(unexpired(w.expires, now) =~= w.expires);
}

/// A purge at `now` keeps every file none of whose expiry entries falls
/// before `now`, with its record unchanged.
pub proof fn law_purge_keeps_files_not_due(v: DatabaseView, p: FilePathView, now: i128)
    requires
        v.files.contains_key(p),
        forall|t: i128| #[trigger] v.expires.contains((t, p)) ==> t >= now,
    ensures
        v.purged(now).files.contains_key(p),
        v.purged(now).files[p] == v.files[p],
{
    assert(!expired_paths(v.expires, now).contains(p));
}

/// A record after `n` more counted downloads.
pub open spec fn counted_times(m: MetaDataFileView, n: nat) -> MetaDataFileView
    decreases n,
{
    if n == 0 {
        m
    } else {
        counted(counted_times(m, (n - 1) as nat))
    }
}

/// A file uploaded with a download limit of `k` can be downloaded `k` times:
/// before the `k`-th download its record is not exhausted, afterwards it is
/// (and the next download or description finds nothing).
pub proof fn law_download_limit(m: MetaDataFileView, k: u32, n: nat)
    requires
        m.max_download == Some(k),
        m.count_downloads == 0,
        n <= k,
    ensures
        counted_times(m, n).count_downloads == n,
        counted_times(m, n).max_download == Some(k),
        exhausted(counted_times(m, n)) <==> n == k,
    decreases n,
{
    if n > 0 {
        law_download_limit(m, k, (n - 1) as nat);
    }
}

/// A file protected by a hash of the uploader's secret lets that secret in,
/// refuses requests without a secret, and files without a hash are open.
pub proof fn law_secret_protection(s: Seq<char>, h: Seq<char>, any: Option<Seq<char>>)
    requires
        argon2_verdict(s, h) == Some(true),
    ensures
        authorized(Some(s), Some(h)),
        !authorized(None, Some(h)),
        authorized(any, None),
{
}

/// `username:password` splits back into the username and the password it was
/// made of, whenever the username holds no colon: a split at a first colon is
/// unique.
pub proof fn law_auth_round_trip(user: Seq<char>, pass: Seq<char>, user2: Seq<char>, pass2: Seq<char>)
    requires
        !has_char(user, ':'),
        !has_char(user2, ':'),
        user + seq![':'] + pass == user2 + seq![':'] + pass2,
    ensures
        user == user2,
        pass == pass2,
{
    let whole = user + seq![':'] + pass;
    assert(whole[user.len() as int] == ':');
    assert(whole[user2.len() as int] == ':');
    if user.len() < user2.len() {
        assert(user2[user.len() as int] == whole[user.len() as int]);
    } else if user2.len() < user.len() {
        assert(user[user2.len() as int] == whole[user2.len() as int]);
    }
    assert(user =~= whole.take(user.len() as int));
    assert(user2 =~= whole.take(user2.len() as int));
    assert(pass =~= whole.skip(user.len() as int + 1));
    assert(pass2 =~= whole.skip(user2.len() as int + 1));
}

/// The units of an expiry time: a second is one second, a minute sixty
/// seconds, an hour sixty minutes, a day twenty-four hours, a week seven days,
/// a month thirty days and a year twelve months; each short form counts as its
/// long form, and no other word is a unit.
pub proof fn law_time_units()
    ensures
        unit_seconds("second"@) == Some(1u64),
        unit_seconds("minute"@) == Some((60 * 1) as u64),
        unit_seconds("hour"@) == Some((60 * 60) as u64),
        unit_seconds("day"@) == Some((24 * 60 * 60) as u64),
        unit_seconds("week"@) == Some((7 * 24 * 60 * 60) as u64),
        unit_seconds("month"@) == Some((30 * 24 * 60 * 60) as u64),
        unit_seconds("year"@) == Some((12 * 30 * 24 * 60 * 60) as u64),
        unit_seconds("sec"@) == unit_seconds("second"@),
        unit_seconds("s"@) == unit_seconds("second"@),
        unit_seconds("min"@) == unit_seconds("minute"@),
        unit_seconds("h"@) == unit_seconds("hour"@),
        unit_seconds("d"@) == unit_seconds("day"@),
        unit_seconds("w"@) == unit_seconds("week"@),
        unit_seconds("y"@) == unit_seconds("year"@),
        unit_seconds("fortnight"@) is None,
{
    reveal_strlit("second");
    reveal_strlit("sec");
    reveal_strlit("s");
    reveal_strlit("minute");
    reveal_strlit("min");
    reveal_strlit("hour");
    reveal_strlit("h");
    reveal_strlit("day");
    reveal_strlit("d");
    reveal_strlit("week");
    reveal_strlit("w");
    reveal_strlit("month");
    reveal_strlit("year");
    reveal_strlit("y");
    reveal_strlit("fortnight");
    assert("minute"@[0] != "second"@[0] && "minute"@[0] != "sec"@[0] && "minute"@[0] != "s"@[0]);
    assert("hour"@[0] != "second"@[0] && "hour"@[0] != "sec"@[0] && "hour"@[0] != "s"@[0]);
    assert("hour"@[0] != "minute"@[0] && "hour"@[0] != "min"@[0]);
    assert("day"@[0] != "second"@[0] && "day"@[0] != "sec"@[0] && "day"@[0] != "s"@[0]);
    assert("day"@[0] != "minute"@[0] && "day"@[0] != "min"@[0] && "day"@[0] != "hour"@[0] && "day"@[0] != "h"@[0]);
    assert("week"@[0] != "second"@[0] && "week"@[0] != "sec"@[0] && "week"@[0] != "s"@[0]);
    assert("week"@[0] != "minute"@[0] && "week"@[0] != "min"@[0] && "week"@[0] != "hour"@[0] && "week"@[0] != "h"@[0]);
    assert("week"@[0] != "day"@[0] && "week"@[0] != "d"@[0]);
    assert("month"@[0] != "second"@[0] && "month"@[0] != "sec"@[0] && "month"@[0] != "s"@[0]);
    assert("month"@[1] != "minute"@[1] && "month"@[1] != "min"@[1] && "month"@[0] != "hour"@[0] && "month"@[0] != "h"@[0]);
    assert("month"@[0] != "day"@[0] && "month"@[0] != "d"@[0] && "month"@[0] != "week"@[0] && "month"@[0] != "w"@[0]);
    assert("year"@[0] != "second"@[0] && "year"@[0] != "sec"@[0] && "year"@[0] != "s"@[0]);
    assert("year"@[0] != "minute"@[0] && "year"@[0] != "min"@[0] && "year"@[0] != "hour"@[0] && "year"@[0] != "h"@[0]);
    assert("year"@[0] != "day"@[0] && "year"@[0] != "d"@[0] && "year"@[0] != "week"@[0] && "year"@[0] != "w"@[0]);
    assert("year"@[0] != "month"@[0]);
    assert("fortnight"@[0] != "second"@[0] && "fortnight"@[0] != "sec"@[0] && "fortnight"@[0] != "s"@[0]);
    assert("fortnight"@[0] != "minute"@[0] && "fortnight"@[0] != "min"@[0] && "fortnight"@[0] != "hour"@[0] && "fortnight"@[0] != "h"@[0]);
    assert("fortnight"@[0] != "day"@[0] && "fortnight"@[0] != "d"@[0] && "fortnight"@[0] != "week"@[0] && "fortnight"@[0] != "w"@[0]);
    assert("fortnight"@[0] != "month"@[0] && "fortnight"@[0] != "year"@[0] && "fortnight"@[0] != "y"@[0]);
    assert("min"@[0] != "second"@[0] && "h"@[0] != "second"@[0] && "h"@[0] != "minute"@[0]);
    assert("d"@[0] != "second"@[0] && "d"@[0] != "minute"@[0] && "d"@[0] != "hour"@[0]);
    assert("w"@[0] != "second"@[0] && "w"@[0] != "minute"@[0] && "w"@[0] != "hour"@[0] && "w"@[0] != "day"@[0]);
    assert("y"@[0] != "second"@[0] && "y"@[0] != "minute"@[0] && "y"@[0] != "hour"@[0] && "y"@[0] != "day"@[0]);
    assert("y"@[0] != "week"@[0] && "y"@[0] != "month"@[0]);
}

/// The decimal text of a number reads back as that number: it is made of
/// digits only, denotes `n`, and has no leading zero (but for `0` itself).
pub proof fn law_decimal_reads_back(n: nat)
    ensures
        decimal(n).len() > 0,
        all_digits(decimal(n)),
        digits_value(decimal(n)) == n,
        decimal(n)[0] == '0' ==> n == 0,
    decreases n,
{
    if n < 10 {
        assert(digit_value(digit_char(n)) == n && is_digit(digit_char(n)));
        assert(decimal(n) =~= seq![digit_char(n)]);
        assert(decimal(n)[0] == digit_char(n));
        assert(digit_value('0') == 0);
        if decimal(n)[0] == '0' {
            assert(digit_char(n) == '0');
            assert(digit_value(digit_char(n)) == digit_value('0'));
            assert(n == 0);
        }
        assert(seq![digit_char(n)].drop_last() =~= Seq::<char>::empty());
        assert(digits_value(Seq::<char>::empty()) == 0);
        assert(digits_value(seq![digit_char(n)]) == n);
    } else {
        law_decimal_reads_back(n / 10);
        let d = decimal(n / 10);
        let c = digit_char(n % 10);
        assert(decimal(n) == d.push(c));
        assert(d.push(c).drop_last() =~= d);
        assert(is_digit(c) && digit_value(c) == n % 10);
        assert(digits_value(d.push(c)) == digits_value(d) * 10 + digit_value(c));
        assert(all_digits(d.push(c))) by {
            assert forall|i: int| 0 <= i < d.push(c).len() implies #[trigger] is_digit(d.push(c)[i]) by {
                if i < d.len() {
                    assert(d.push(c)[i] == d[i]);
                }
            }
        }
        assert(d.push(c)[0] == d[0]);
        assert(decimal(n)[0] == d[0]);
        assert(n / 10 >= 1);
        if decimal(n)[0] == '0' {
            assert(d[0] == '0');
            assert(n / 10 == 0);
        }
    }
}

/// The decimal text of a 64-bit number is what `u64::from_str` reads back as
/// that number.
pub proof fn law_decimal_parses_back(n: u64)
    ensures
        parse_u64_spec(decimal(n as nat)) == Some(n),
{
    law_decimal_reads_back(n as nat);
    let s = decimal(n as nat);
    assert(is_digit(s[0]));
}

/// Errors caused by the request are answered with a 4xx status (a bad request
/// with 400, invalid input with 422, a missing file with 404, a refused one
/// with 403, an existing one with 409, an oversized upload with 413); every
/// failure of the service itself is answered with 500.
pub proof fn law_error_statuses(e: ApiError)
    ensures
        e is BadRequestError ==> status_of(e) == 400,
        e is InvalidInputError ==> status_of(e) == 422,
        e is NotFoundError || e is NotAvailableError ==> status_of(e) == 404,
        e is PermissionDeniedError ==> status_of(e) == 403,
        e is ResourceExistsError ==> status_of(e) == 409,
        e is PayloadTooLarge ==> status_of(e) == 413,
        !(e is BadRequestError || e is InvalidInputError || e is NotFoundError || e is NotAvailableError
            || e is PermissionDeniedError || e is ResourceExistsError || e is PayloadTooLarge) ==> status_of(e)
            == 500,
        400 <= status_of(e) < 600,
        e is BadRequestError ==> error_type_of(e) == "BAD_REQUEST"@,
        e is NotFoundError ==> error_type_of(e) == "NOT_FOUND"@,
        e is PermissionDeniedError ==> error_type_of(e) == "PERMISSION_DENIED"@,
{
}

/// Joining a relative path onto a non-empty base that does not end in `/`
/// puts exactly one `/` between them; onto a base that ends in `/` (or is
/// empty) it appends the path; an absolute path replaces the base.
pub proof fn law_path_join(base: Seq<char>, rel: Seq<char>)
    ensures
        !(rel.len() > 0 && rel[0] == '/') && base.len() > 0 && base.last() != '/' ==> path_join(base, rel)
            == base + seq!['/'] + rel,
        !(rel.len() > 0 && rel[0] == '/') && (base.len() == 0 || base.last() == '/') ==> path_join(base, rel)
            == base + rel,
        rel.len() > 0 && rel[0] == '/' ==> path_join(base, rel) == rel,
{
}

/// A stored file lies under the base directory at `{base}/{code}/{file_name}`
/// whenever its code is a non-empty relative name and the base does not end
/// in `/`.
pub proof fn law_fs_path(base: Seq<char>, p: FilePathView)
    requires
        base.len() > 0,
        base.last() != '/',
        p.code.len() > 0,
        p.code[0] != '/',
    ensures
        path_join(base, url_path_of(p)) == base + seq!['/'] + p.code + seq!['/'] + p.file_name,
{
    let rel = url_path_of(p);
    assert(rel[0] == p.code[0]);
    assert(base + seq!['/'] + rel =~= base + seq!['/'] + p.code + seq!['/'] + p.file_name);
}

/// The last segment of a text is exactly what follows its last `/`: it holds
/// no `/`, the text ends with it, and it is either the whole text or preceded
/// by a `/`.
pub proof fn law_last_segment(s: Seq<char>)
    ensures
        !has_char(last_segment(s), '/'),
        last_segment(s).len() <= s.len(),
        last_segment(s) == s.skip(s.len() - last_segment(s).len()),
        last_segment(s).len() < s.len() ==> s[s.len() - last_segment(s).len() - 1] == '/',
    decreases s.len(),
{
    if s.len() == 0 {
        assert(s.skip(0) =~= s);
    } else if s.last() == '/' {
        assert(s.skip(s.len() as int) =~= Seq::<char>::empty());
    } else {
        let t = s.drop_last();
        law_last_segment(t);
        let r = last_segment(t);
        assert(last_segment(s) == r.push(s.last()));
        assert(r.push(s.last()) =~= s.skip(s.len() - r.len() - 1)) by {
            assert(t.skip(t.len() - r.len()) == r);
            assert forall|i: int| 0 <= i < r.len() + 1 implies #[trigger] r.push(s.last())[i] == s.skip(s.len() - r.len() - 1)[i] by {
                if i < r.len() {
                    assert(r[i] == t.skip(t.len() - r.len())[i]);
                }
            }
        }
        assert(!has_char(r.push(s.last()), '/')) by {
            if has_char(r.push(s.last()), '/') {
                let i = choose|i: int| 0 <= i < r.push(s.last()).len() && r.push(s.last())[i] == '/';
                if i < r.len() {
                    assert(r[i] == '/');
                }
            }
        }
        if r.len() + 1 < s.len() {
            assert(s[s.len() - r.len() - 2] == t[t.len() - r.len() - 1]);
        }
    }
}

/// A text without `/` is its own last segment, and the last segment of
/// `{code}/{name}` is `name` when the name holds no `/`.
pub proof fn law_last_segment_of_url_path(code: Seq<char>, name: Seq<char>)
    requires
        !has_char(name, '/'),
    ensures
        last_segment(name) == name,
        last_segment(code + seq!['/'] + name) == name,
{
    law_last_segment(name);
    let r0 = last_segment(name);
    if r0.len() < name.len() {
        assert(name[name.len() - r0.len() - 1] == '/');
    }
    assert(name.skip(0) =~= name);
    let s = code + seq!['/'] + name;
    law_last_segment(s);
    let r = last_segment(s);
    if r.len() > name.len() {
        let k = s.len() - r.len();
        assert(r[code.len() - k] == s[code.len() as int]);
        assert(s[code.len() as int] == '/');
    } else if r.len() < name.len() {
        assert(s[s.len() - r.len() - 1] == name[name.len() - r.len() - 1]);
    }
    assert(s.skip(s.len() - name.len()) =~= name);
}

} // verus!
