//! The decisions behind uploading, downloading, describing and deleting a file.
//!
//! The functions here work on the `Database`; reading request bodies and
//! serving or removing the stored bytes is left to the caller.

use crate::database::file_path::{url_path_of, FilePath, FilePathView};
use crate::database::meta_data_file::{duplicate_secret, secret_view, MetaDataFile, MetaDataFileView};
use crate::database::{wakes_collector, Database};
use crate::dto::UploadQueryParam;
use crate::error::{invalid_input_message, ApiError, ApiResult};
use crate::text::{push_str, u64_to_decimal, decimal};
use crate::util::file_name::{validate, valid_file_name};
use crate::util::secret::{argon2_verdict, hashable, Secret, SecretHash, VerifyError};
use rand::Rng;
use vstd::prelude::*;

verus! {

/// The view of the secret a request carries, if any.
pub open spec fn request_secret(s: Option<Secret>) -> Option<Seq<char>> {
    match s {
        Some(x) => Some(x@),
        None => None,
    }
}

/// Whether a request with `secret` may use a file protected by `hash`: files
/// without a hash are open to all, the others need a secret that argon2
/// accepts against the hash.
pub open spec fn authorized(secret: Option<Seq<char>>, hash: Option<Seq<char>>) -> bool {
    match hash {
        None => true,
        Some(h) => secret matches Some(s) && argon2_verdict(s, h) == Some(true),
    }
}

/// The error that refuses a request with `secret` to a file protected by
/// `hash`.
pub open spec fn is_refusal(secret: Option<Seq<char>>, hash: Option<Seq<char>>, e: ApiError) -> bool {
    match hash {
        None => false,
        Some(h) => match secret {
            None => e matches ApiError::PermissionDeniedError(m) && m@
                == "Authorization header required."@,
            Some(s) => match argon2_verdict(s, h) {
                Some(true) => false,
                Some(false) => e matches ApiError::PermissionDeniedError(m) && m@
                    == "Secret token is invalid"@,
                None => e matches ApiError::UnknownError(m) && "An Unexpected error occurred: "@.is_prefix_of(m@),
            },
        },
    }
}

/// Whether a file has been downloaded as often as its record allows.
pub open spec fn exhausted(m: MetaDataFileView) -> bool {
    m.max_download matches Some(max) && m.count_downloads >= max
}

/// A record with one more download counted.
pub open spec fn counted(m: MetaDataFileView) -> MetaDataFileView {
    MetaDataFileView { count_downloads: (m.count_downloads + 1) as u32, ..m }
}

/// The path named by a code and a file name.
pub open spec fn path_of(code: Seq<char>, file_name: Seq<char>) -> FilePathView {
    FilePathView { code, file_name }
}

/// The message that says that a file is not (or no longer) there.
pub open spec fn not_found_message(p: FilePathView) -> Seq<char> {
    url_path_of(p) + " not found"@
}

/// Checks the secret of a request against the hash that protects a file.
pub fn authorize_user(secret: Option<Secret>, secret_hash: &Option<SecretHash>) -> (r: ApiResult<()>)
    ensures
        r is Ok <==> authorized(request_secret(secret), secret_view(*secret_hash)),
        r matches Err(e) ==> is_refusal(request_secret(secret), secret_view(*secret_hash), e),
{
    match secret_hash {
        None => Ok(()),
        Some(hash) => match secret {
            None => Err(ApiError::PermissionDeniedError("Authorization header required.".to_owned())),
            Some(s) => answer_verification(s.verify(hash)),
        },
    }
}

/// The answer to a request whose secret argon2 has checked: accepted, refused
/// as a wrong secret, or an unexpected failure carrying argon2's description.
pub fn answer_verification(outcome: Result<(), VerifyError>) -> (r: ApiResult<()>)
    ensures
        match outcome {
            Ok(()) => r is Ok,
            Err(VerifyError::Password) => r matches Err(ApiError::PermissionDeniedError(m))
                && m@ == "Secret token is invalid"@,
            Err(VerifyError::Other(d)) => r matches Err(ApiError::UnknownError(m))
                && m@ == "An Unexpected error occurred: "@ + d@,
        },
{
    match outcome {
        Ok(()) => Ok(()),
        Err(VerifyError::Password) => Err(ApiError::PermissionDeniedError("Secret token is invalid".to_owned())),
        Err(VerifyError::Other(e)) => {
            let mut m = "An Unexpected error occurred: ".to_owned();
            push_str(&mut m, e.as_str());
            Err(ApiError::UnknownError(m))
        },
    }
}

fn not_found(path: &FilePath) -> (e: ApiError)
    ensures
        e matches ApiError::NotFoundError(m) && m@ == not_found_message(path@),
{
    let mut m = path.url_path();
    push_str(&mut m, " not found");
    ApiError::NotFoundError(m)
}

/// Describes a file.  A file that is not stored is not found.  A file that has
/// been downloaded as often as allowed is deleted and then not found.  A
/// request without the right secret is refused.  Otherwise the record is
/// returned and nothing changes.
pub fn info(db: &mut Database, code: &str, file_name: &str, secret: Option<Secret>) -> (r: ApiResult<MetaDataFile>)
    ensures
        ({
            let p = path_of(code@, file_name@);
            let files = old(db)@.files;
            if !files.contains_key(p) {
                &&& r matches Err(ApiError::NotFoundError(m)) && m@ == "MetaDataFile not found"@
                &&& final(db)@ == old(db)@
            } else if exhausted(files[p]) {
                &&& r matches Err(ApiError::NotFoundError(m)) && m@ == not_found_message(p)
                &&& final(db)@ == old(db)@.without_file(p)
            } else if !authorized(request_secret(secret), files[p].secret) {
                &&& r matches Err(e) && is_refusal(request_secret(secret), files[p].secret, e)
                &&& final(db)@ == old(db)@
            } else {
                &&& r matches Ok(m) && m@ == files[p]
                &&& final(db)@ == old(db)@
            }
        }),
{
    let path = FilePath::new(code.to_owned(), file_name.to_owned());
    let meta = match db.fetch(&path) {
        Some(m) => m,
        None => return Err(ApiError::NotFoundError("MetaDataFile not found".to_owned())),
    };
    if let Some(max) = meta.max_download {
        if meta.count_downloads >= max {
            let _ = db.delete(&path);
            return Err(not_found(&path));
        }
    }
    authorize_user(secret, &meta.secret)?;
    Ok(meta)
}

/// Serves a download.  A file that is not stored is not found.  A request
/// without the right secret is refused.  A file that has been downloaded as
/// often as allowed is deleted and then not found.  Otherwise the download is
/// counted and the path of the file to serve is returned.
pub fn fetch(db: &mut Database, code: &str, file_name: &str, secret: Option<Secret>) -> (r: ApiResult<FilePath>)
    requires
        ({
            let p = path_of(code@, file_name@);
            old(db)@.files.contains_key(p) && old(db)@.files[p].max_download is None
                ==> old(db)@.files[p].count_downloads < u32::MAX
        }),
    ensures
        ({
            let p = path_of(code@, file_name@);
            let files = old(db)@.files;
            if !files.contains_key(p) {
                &&& r matches Err(ApiError::NotFoundError(m)) && m@ == "MetaDataFile not found"@
                &&& final(db)@ == old(db)@
            } else if !authorized(request_secret(secret), files[p].secret) {
                &&& r matches Err(e) && is_refusal(request_secret(secret), files[p].secret, e)
                &&& final(db)@ == old(db)@
            } else if exhausted(files[p]) {
                &&& r matches Err(ApiError::NotFoundError(m)) && m@ == not_found_message(p)
                &&& final(db)@ == old(db)@.without_file(p)
            } else {
                &&& r matches Ok(q) && q@ == p
                &&& final(db)@ == old(db)@.with_record(p, counted(files[p]))
            }
        }),
{
    let path = FilePath::new(code.to_owned(), file_name.to_owned());
    let meta = match db.fetch(&path) {
        Some(m) => m,
        None => return Err(ApiError::NotFoundError("MetaDataFile not found".to_owned())),
    };
    authorize_user(secret, &meta.secret)?;
    if let Some(max) = meta.max_download {
        if meta.count_downloads >= max {
            let _ = db.delete(&path);
            return Err(not_found(&path));
        }
    }
    let mut updated = meta.duplicate();
    updated.count_downloads = meta.count_downloads + 1;
    db.update(&path, &meta, updated)?;
    Ok(path)
}

/// Decides a deletion request.  A file that is not stored needs nothing
/// (`Ok(None)`).  A file that may not be deleted by hand is refused.  A
/// request without the right secret is refused.  Otherwise the answer is the
/// file to delete: the caller removes its stored bytes and then its record.
pub fn delete(db: &Database, code: &str, file_name: &str, secret: Option<Secret>) -> (r: ApiResult<Option<FilePath>>)
    ensures
        ({
            let p = path_of(code@, file_name@);
            let files = db@.files;
            if !files.contains_key(p) {
                r matches Ok(None)
            } else if !files[p].manual_deletion {
                r matches Err(ApiError::PermissionDeniedError(m)) && m@ == url_path_of(p) + " is not deletable"@
            } else if !authorized(request_secret(secret), files[p].secret) {
                r matches Err(e) && is_refusal(request_secret(secret), files[p].secret, e)
            } else {
                r matches Ok(Some(q)) && q@ == p
            }
        }),
{
    let path = FilePath::new(code.to_owned(), file_name.to_owned());
    match db.fetch(&path) {
        Some(meta) => {
            if meta.manual_deletion {
                authorize_user(secret, &meta.secret)?;
                Ok(Some(path))
            } else {
                let mut m = path.url_path();
                push_str(&mut m, " is not deletable");
                Err(ApiError::PermissionDeniedError(m))
            }
        },
        None => Ok(None),
    }
}

/// The expiry time `secs` seconds after `now` (times in nanoseconds).
pub fn calc_expiration_date(now: i128, secs: i64) -> (r: i128)
    requires
        -(i64::MAX / 1000) <= secs <= i64::MAX / 1000,
        i128::MIN <= now + secs * 1_000_000_000 <= i128::MAX,
    ensures
        r == now + secs * 1_000_000_000,
{
    now + (secs as i128) * 1_000_000_000
}

/// The value that `as i64` gives for a `u64`: the same number when it fits,
/// otherwise the number less 2^64.
pub open spec fn wrap_i64(v: u64) -> int {
    if v <= i64::MAX as u64 {
        v as int
    } else {
        v - 0x1_0000_0000_0000_0000
    }
}

fn to_i64_wrapping(v: u64) -> (r: i64)
    ensures
        r == wrap_i64(v),
{
    if v <= i64::MAX as u64 {
        v as i64
    } else {
        let d: u64 = v - (i64::MAX as u64) - 1;
        (d as i64) + i64::MIN
    }
}

/// How many seconds an upload asks to be kept (the configured default when it
/// does not say), as the service reads it.
pub open spec fn requested_secs(query: &UploadQueryParam, default_expire_secs: u64) -> int {
    wrap_i64(
        match query.expire_secs {
            Some(s) => s,
            None => default_expire_secs,
        },
    )
}

/// Makes a random code of `len` ASCII letters and digits with `rand`'s
/// `Alphanumeric` distribution.  Trusted: by that distribution's
/// documentation the code has exactly `len` characters, each a letter or a
/// digit; which ones is left to chance.
#[verifier::external_body]
fn generate_random_string(len: usize) -> (r: String)
    ensures
        r@.len() == len,
        forall|i: int| 0 <= i < len ==> is_alphanumeric(#[trigger] r@[i]),
{
    rand::thread_rng().sample_iter(&rand::distributions::Alphanumeric).take(len).map(char::from).collect()
}

/// An ASCII letter or digit.
pub open spec fn is_alphanumeric(c: char) -> bool {
    ('a' <= c && c <= 'z') || ('A' <= c && c <= 'Z') || ('0' <= c && c <= '9')
}

/// What `store` hands back: where the file went, when it expires, and whether
/// the garbage collector has to be woken up because the file is now the first
/// one due.
#[derive(Debug)]
pub struct StoredFile {
    pub path: FilePath,
    pub expire_date_time: i128,
    pub wake_collector: bool,
}

/// Whether the secret of an upload, if any, can be hashed.
pub open spec fn secret_hashable(secret: Option<Secret>) -> bool {
    match secret {
        None => true,
        Some(s) => hashable(s@),
    }
}

/// The code length an upload asks for (the configured default when it does
/// not say).
pub open spec fn requested_code_length(query: &UploadQueryParam, default_code_length: usize) -> usize {
    match query.code_length {
        Some(n) => n,
        None => default_code_length,
    }
}

/// Whether a file named `name` is stored under some code of length `n`.
pub open spec fn taken_at(files: Map<FilePathView, MetaDataFileView>, name: Seq<char>, n: int) -> bool {
    exists|q: FilePathView| #[trigger] files.contains_key(q) && q.file_name == name && q.code.len() == n
}

/// Whether files named `name` are stored under codes of every length from
/// `from` up to `usize::MAX`.
pub open spec fn name_taken_at_lengths(files: Map<FilePathView, MetaDataFileView>, name: Seq<char>, from: int) -> bool {
    forall|n: int| from <= n <= usize::MAX ==> #[trigger] taken_at(files, name, n)
}

/// Records a new upload named `file_name`, received at `now`.  The name must
/// be a single path component.  A secret is kept as its argon2 hash.  The file
/// gets a fresh random code of at least the requested length (the configured
/// default when none is asked for); each time a drawn code is taken already,
/// the next draw is one character longer.
pub fn store(
    db: &mut Database,
    query: &UploadQueryParam,
    default_expire_secs: u64,
    default_code_length: usize,
    secret: Option<Secret>,
    file_name: &str,
    now: i128,
) -> (r: ApiResult<StoredFile>)
    requires
        -(i64::MAX / 1000) <= requested_secs(query, default_expire_secs) <= i64::MAX / 1000,
        i128::MIN <= now + requested_secs(query, default_expire_secs) * 1_000_000_000 <= i128::MAX,
    ensures
        (r matches Err(ApiError::HashError(_))) <==> !secret_hashable(secret),
        r matches Err(ApiError::HashError(m)) ==> m@ == "invalid password"@,
        (r matches Err(ApiError::InvalidInputError(_))) <==> (secret_hashable(secret) && !valid_file_name(file_name@)),
        r matches Err(ApiError::InvalidInputError(m)) ==> m@ == invalid_input_message("file_name"@, "invalid"@),
        r matches Err(ApiError::UnknownError(m)) ==> {
            &&& m@ == "No free code of any length is left."@
            &&& secret_hashable(secret)
            &&& valid_file_name(file_name@)
            &&& name_taken_at_lengths(old(db)@.files, file_name@, requested_code_length(query, default_code_length) as int)
        },
        r matches Err(e) ==> (e is HashError || e is InvalidInputError || e is UnknownError),
        r is Err ==> final(db)@ == old(db)@,
        secret_hashable(secret) && valid_file_name(file_name@) && (forall|q: FilePathView|
            #[trigger] old(db)@.files.contains_key(q) ==> q.file_name != file_name@) ==> r is Ok,
        r matches Ok(stored) ==> {
            let p = stored.path@;
            let code_length = match query.code_length {
                Some(n) => n,
                None => default_code_length,
            };
            let m = final(db)@.files[p];
            &&& valid_file_name(file_name@)
            &&& p.file_name == file_name@
            &&& p.code.len() >= code_length
            &&& forall|n: int| code_length <= n < p.code.len() ==> #[trigger] taken_at(old(db)@.files, file_name@, n)
            &&& forall|i: int| 0 <= i < p.code.len() ==> is_alphanumeric(#[trigger] p.code[i])
            &&& !old(db)@.files.contains_key(p)
            &&& stored.expire_date_time == now + requested_secs(query, default_expire_secs) * 1_000_000_000
            &&& final(db)@ == old(db)@.with_file(p, m)
            &&& stored.wake_collector == wakes_collector(old(db)@.expires, stored.expire_date_time)
            &&& m.created_at == now
            &&& m.expire_date_time == stored.expire_date_time
            &&& m.manual_deletion == match query.allow_manual_deletion {
                Some(b) => b,
                None => true,
            }
            &&& m.max_download == query.max_download
            &&& m.count_downloads == 0
            &&& match secret {
                None => m.secret is None,
                Some(s) => m.secret matches Some(h) && argon2_verdict(s@, h) == Some(true),
            }
        },
{
    let secret_hash = match secret {
        Some(s) => match s.hash() {
            Ok(h) => Some(h),
            Err(e) => return Err(e),
        },
        None => None,
    };
    assert(secret_hashable(secret));
    let expire_secs = to_i64_wrapping(
        match query.expire_secs {
            Some(s) => s,
            None => default_expire_secs,
        },
    );
    let expire_date_time = calc_expiration_date(now, expire_secs);
    let mut code_length = match query.code_length {
        Some(n) => n,
        None => default_code_length,
    };
    let manual_deletion = match query.allow_manual_deletion {
        Some(b) => b,
        None => true,
    };
    validate(file_name)?;
    let ghost initial_length = code_length;
    loop
        invariant
            secret_hashable(secret),
            forall|n: int| initial_length <= n < code_length ==> #[trigger] taken_at(old(db)@.files, file_name@, n),
                db@ == old(db)@,
            code_length >= initial_length,
            initial_length == match query.code_length {
                Some(n) => n,
                None => default_code_length,
            },
            valid_file_name(file_name@),
            expire_date_time == now + requested_secs(query, default_expire_secs) * 1_000_000_000,
            manual_deletion == match query.allow_manual_deletion {
                Some(b) => b,
                None => true,
            },
            match secret {
                None => secret_hash is None,
                Some(s) => secret_hash matches Some(h) && argon2_verdict(s@, h@) == Some(true),
            },
        decreases usize::MAX - code_length,
    {
        let code = generate_random_string(code_length);
        let meta = MetaDataFile {
            created_at: now,
            expire_date_time,
            secret: duplicate_secret(&secret_hash),
            manual_deletion,
            max_download: query.max_download,
            count_downloads: 0,
        };
        let ghost cv = code@;
        if let Some(stored) = place_upload(db, code, file_name, meta) {
            assert(stored.path@.code == cv);
            assert(cv.len() == code_length);
            return Ok(stored);
        }
        assert(taken_at(old(db)@.files, file_name@, code_length as int)) by {
            assert(old(db)@.files.contains_key(path_of(cv, file_name@)));
        }
        if code_length == usize::MAX {
            assert(name_taken_at_lengths(old(db)@.files, file_name@, initial_length as int)) by {
                assert forall|n: int| initial_length <= n <= usize::MAX implies #[trigger] taken_at(old(db)@.files, file_name@, n) by {
                    if n < code_length {
                    }
                }
            }
            return Err(ApiError::UnknownError("No free code of any length is left.".to_owned()));
        }
        code_length = code_length + 1;
    }
}

/// Ends an upload once its bytes have been written (or not): when writing
/// succeeded the upload stands as stored; when it failed (too large, or the
/// disk refused), the record is deleted again and the failure is the answer.
pub fn finish_upload(db: &mut Database, stored: StoredFile, written: ApiResult<usize>) -> (r: ApiResult<StoredFile>)
    ensures
        match written {
            Ok(_) => r == Ok::<StoredFile, ApiError>(stored) && final(db)@ == old(db)@,
            Err(e) => r == Err::<StoredFile, ApiError>(e) && final(db)@ == old(db)@.without_file(stored.path@),
        },
{
    match written {
        Ok(_) => Ok(stored),
        Err(e) => {
            let _ = db.delete(&stored.path);
            Err(e)
        },
    }
}

/// Ends a deletion that `delete` allowed, once the removal of the stored
/// bytes has been tried: when it succeeded the record and its expiry entry
/// are removed; when it failed, the record stays and the failure is the
/// answer.
pub fn complete_delete(db: &mut Database, path: &FilePath, removed: ApiResult<()>) -> (r: ApiResult<()>)
    ensures
        match removed {
            Ok(()) => r is Ok && final(db)@ == old(db)@.without_file(path@),
            Err(e) => r == Err::<(), ApiError>(e) && final(db)@ == old(db)@,
        },
{
    match removed {
        Ok(()) => {
            let _ = db.delete(path);
            Ok(())
        },
        Err(e) => Err(e),
    }
}

/// What an upload does with the next part of its multipart body.
#[derive(Debug)]
pub enum PartDecision {
    /// The part carries a file: it is the upload, under this name.
    Upload(String),
    /// The part carries no file name: it is skipped.
    Skip,
    /// No part is left and none carried a file: the body is refused.
    Refuse(ApiError),
}

/// Decides on the next part of an upload's body, given the part's file name
/// if it has one (`None` when no part is left).
pub fn decide_part(part: Option<Option<&str>>) -> (r: PartDecision)
    ensures
        match part {
            Some(Some(name)) => r matches PartDecision::Upload(n) && n@ == name@,
            Some(None) => r is Skip,
            None => r matches PartDecision::Refuse(ApiError::BadRequestError(m))
                && m@ == "multipart/form-data empty body"@,
        },
{
    match part {
        Some(Some(name)) => PartDecision::Upload(name.to_owned()),
        Some(None) => PartDecision::Skip,
        None => PartDecision::Refuse(ApiError::BadRequestError("multipart/form-data empty body".to_owned())),
    }
}

/// Records an upload under a drawn `code`: when no file of that code and name
/// is stored, the record is stored and the result says where the file went
/// and whether the garbage collector has to be woken up; when one is, nothing
/// changes and the result is `None` (the caller draws another code).
pub fn place_upload(db: &mut Database, code: String, file_name: &str, meta: MetaDataFile) -> (r: Option<StoredFile>)
    ensures
        ({
            let p = path_of(code@, file_name@);
            if old(db)@.files.contains_key(p) {
                &&& r is None
                &&& final(db)@ == old(db)@
            } else {
                &&& r matches Some(stored) && stored.path@ == p
                    && stored.expire_date_time == meta.expire_date_time
                    && stored.wake_collector == wakes_collector(old(db)@.expires, meta.expire_date_time)
                &&& final(db)@ == old(db)@.with_file(p, meta@)
            }
        }),
{
    let path = FilePath::new(code, file_name.to_owned());
    if db.exist(&path) {
        return None;
    }
    let expire_date_time = meta.expire_date_time;
    let stored_path = path.duplicate();
    match db.store(path, meta) {
        Ok(wake_collector) => Some(StoredFile { path: stored_path, expire_date_time, wake_collector }),
        Err(_) => None,
    }
}

/// The download URL of a stored file under the service's domain URL:
/// `{domain}/{code}/{file_name}`.
pub fn file_url(domain: &str, path: &FilePath) -> (r: String)
    ensures
        r@ == domain@ + seq!['/'] + url_path_of(path@),
{
    let mut r = domain.to_owned();
    push_str(&mut r, "/");
    let rest = path.url_path();
    push_str(&mut r, rest.as_str());
    proof {
        reveal_strlit("/");
    }
    r
}

/// The message that refuses an upload larger than `max_size` bytes; the limit
/// is given in whole mebibytes.
pub open spec fn payload_too_large_message(max_size: usize) -> Seq<char> {
    "The maximum allowed size for uploaded files is "@ + decimal((max_size / 1_048_576) as nat)
        + "MB."@
}

/// Counts another chunk of an upload that has received `received` bytes so
/// far: the new total, or the refusal when it exceeds `max_size`.
pub fn count_upload_chunk(received: usize, chunk: usize, max_size: usize) -> (r: ApiResult<usize>)
    requires
        received + chunk <= usize::MAX,
    ensures
        received + chunk <= max_size ==> r == Ok::<usize, ApiError>((received + chunk) as usize),
        received + chunk > max_size ==> (r matches Err(ApiError::PayloadTooLarge(m)) && m@
            == payload_too_large_message(max_size)),
{
    let total = received + chunk;
    if total > max_size {
        let mut m = "The maximum allowed size for uploaded files is ".to_owned();
        let mb = u64_to_decimal((max_size / 1_048_576) as u64);
        push_str(&mut m, mb.as_str());
        push_str(&mut m, "MB.");
        return Err(ApiError::PayloadTooLarge(m));
    }
    Ok(total)
}

} // verus!
