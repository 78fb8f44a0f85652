use pastefile::service::file::{complete_delete, finish_upload};
use pastefile::service::file::{decide_part, PartDecision};
use pastefile::service::file::place_upload;
use pastefile::service::file::answer_verification;
use pastefile::util::secret::VerifyError;
use pastefile::database::file_path::FilePath;
use pastefile::database::meta_data_file::MetaDataFile;
use pastefile::database::Database;
use pastefile::dto::{QrCodeFormat, UploadQueryParam};
use pastefile::error::ApiError;
use pastefile::service::file::{
    authorize_user, calc_expiration_date, count_upload_chunk, delete, fetch, file_url, info, store,
};
use pastefile::util::secret::{Secret, SecretHash};

const SEC: i128 = 1_000_000_000;
const NOW: i128 = 1_700_000_000 * SEC;

fn query() -> UploadQueryParam {
    UploadQueryParam::empty()
}

#[test]
fn store_then_fetch_counts_downloads_until_the_limit() {
    let mut db = Database::new();
    let mut q = query();
    q.max_download = Some(2);
    q.code_length = Some(6);
    let stored = store(&mut db, &q, 3600, 4, None, "report.pdf", NOW).unwrap();
    assert_eq!(stored.path.file_name, "report.pdf");
    assert!(stored.path.code.len() >= 6);
    assert!(stored.path.code.chars().all(|c| c.is_ascii_alphanumeric()));
    assert_eq!(stored.expire_date_time, NOW + 3600 * SEC);
    assert!(stored.wake_collector);
    let code = stored.path.code.clone();
    let p = fetch(&mut db, &code, "report.pdf", None).unwrap();
    assert!(p.same(&stored.path));
    fetch(&mut db, &code, "report.pdf", None).unwrap();
    match fetch(&mut db, &code, "report.pdf", None) {
        Err(ApiError::NotFoundError(m)) => assert_eq!(m, format!("{code}/report.pdf not found")),
        other => panic!("unexpected {other:?}"),
    }
    assert!(!db.exist(&stored.path));
}

#[test]
fn store_uses_the_defaults() {
    let mut db = Database::new();
    let stored = store(&mut db, &query(), 60, 4, None, "a.txt", NOW).unwrap();
    assert_eq!(stored.path.code.len(), 4);
    assert_eq!(stored.expire_date_time, NOW + 60 * SEC);
    let m = db.fetch(&stored.path).unwrap();
    assert_eq!(m.created_at, NOW);
    assert!(m.manual_deletion);
    assert_eq!(m.max_download, None);
    assert_eq!(m.count_downloads, 0);
    assert!(m.secret.is_none());
}

#[test]
fn store_refuses_bad_file_names() {
    let mut db = Database::new();
    for name in ["", "..", "a/b.txt", "/abs.txt", "."] {
        match store(&mut db, &query(), 60, 4, None, name, NOW) {
            Err(ApiError::InvalidInputError(m)) => assert_eq!(m, "file_name: invalid"),
            other => panic!("unexpected {other:?} for {name:?}"),
        }
    }
}

#[test]
fn info_describes_and_hides_exhausted_files() {
    let mut db = Database::new();
    let mut q = query();
    q.max_download = Some(1);
    q.allow_manual_deletion = Some(false);
    let stored = store(&mut db, &q, 60, 5, None, "x.bin", NOW).unwrap();
    let code = stored.path.code.clone();
    let m = info(&mut db, &code, "x.bin", None).unwrap();
    assert!(!m.manual_deletion);
    assert_eq!(m.max_download, Some(1));
    fetch(&mut db, &code, "x.bin", None).unwrap();
    match info(&mut db, &code, "x.bin", None) {
        Err(ApiError::NotFoundError(m)) => assert_eq!(m, format!("{code}/x.bin not found")),
        other => panic!("unexpected {other:?}"),
    }
    match info(&mut db, "nothing", "x.bin", None) {
        Err(ApiError::NotFoundError(_)) => {}
        other => panic!("unexpected {other:?}"),
    }
}

#[test]
fn delete_respects_the_manual_deletion_flag() {
    let mut db = Database::new();
    let mut q = query();
    q.allow_manual_deletion = Some(false);
    let kept = store(&mut db, &q, 60, 5, None, "k.txt", NOW).unwrap();
    match delete(&db, &kept.path.code, "k.txt", None) {
        Err(ApiError::PermissionDeniedError(m)) => {
            assert_eq!(m, format!("{}/k.txt is not deletable", kept.path.code))
        }
        other => panic!("unexpected {other:?}"),
    }
    let gone = store(&mut db, &query(), 60, 5, None, "g.txt", NOW).unwrap();
    let p = delete(&db, &gone.path.code, "g.txt", None).unwrap().unwrap();
    assert!(p.same(&gone.path));
    assert!(delete(&db, "none", "g.txt", None).unwrap().is_none());
}

#[test]
fn secrets_protect_files() {
    let mut db = Database::new();
    let secret = Secret::new("hunter2".to_string());
    let stored = store(&mut db, &query(), 60, 5, Some(secret.duplicate()), "s.txt", NOW).unwrap();
    let code = stored.path.code.clone();
    match fetch(&mut db, &code, "s.txt", None) {
        Err(ApiError::PermissionDeniedError(m)) => assert_eq!(m, "Authorization header required."),
        other => panic!("unexpected {other:?}"),
    }
    match fetch(&mut db, &code, "s.txt", Some(Secret::new("wrong".to_string()))) {
        Err(ApiError::PermissionDeniedError(m)) => assert_eq!(m, "Secret token is invalid"),
        other => panic!("unexpected {other:?}"),
    }
    fetch(&mut db, &code, "s.txt", Some(secret)).unwrap();
    assert_eq!(db.fetch(&stored.path).unwrap().count_downloads, 1);
}

#[test]
fn authorize_user_without_hash_is_open() {
    authorize_user(None, &None).unwrap();
    authorize_user(Some(Secret::new("x".to_string())), &None).unwrap();
    match authorize_user(Some(Secret::new("x".to_string())), &Some(SecretHash::new("not a phc string".to_string()))) {
        Err(ApiError::UnknownError(m)) => assert!(m.starts_with("An Unexpected error occurred: ")),
        other => panic!("unexpected {other:?}"),
    }
}

#[test]
fn hash_then_verify() {
    let s = Secret::new("correct horse".to_string());
    let h = s.hash().unwrap();
    assert!(h.as_str().starts_with("$argon2"));
    s.verify(&h).unwrap();
    assert!(Secret::new("battery staple".to_string()).verify(&h).is_err());
}

#[test]
fn expiration_dates() {
    assert_eq!(calc_expiration_date(NOW, 10), NOW + 10 * SEC);
    assert_eq!(calc_expiration_date(0, -2), -2 * SEC);
}

#[test]
fn upload_size_limit() {
    assert_eq!(count_upload_chunk(10, 20, 1 << 20).unwrap(), 30);
    assert_eq!(count_upload_chunk(0, 1 << 20, 1 << 20).unwrap(), 1 << 20);
    match count_upload_chunk(3 << 20, 1, 3 << 20) {
        Err(ApiError::PayloadTooLarge(m)) => {
            assert_eq!(m, "The maximum allowed size for uploaded files is 3MB.")
        }
        other => panic!("unexpected {other:?}"),
    }
}

#[test]
fn urls_of_files() {
    let p = FilePath::new("AbC12".to_string(), "x.png".to_string());
    assert_eq!(file_url("https://paste.example", &p), "https://paste.example/AbC12/x.png");
}

#[test]
fn validate_query() {
    let mut q = query();
    q.code_length = Some(2);
    q.qr_code_format = Some(QrCodeFormat::Text);
    match q.validate() {
        Err(ApiError::InvalidInputError(m)) => assert_eq!(m, "code_length: lower than 3"),
        other => panic!("unexpected {other:?}"),
    }
    q.code_length = Some(3);
    q.validate().unwrap();
    query().validate().unwrap();
}

#[test]
fn store_keeps_the_record_fields() {
    let mut db = Database::new();
    let mut q = query();
    q.expire_secs = Some(5);
    let s = store(&mut db, &q, 60, 3, None, "f.txt", NOW).unwrap();
    let m: MetaDataFile = db.fetch(&s.path).unwrap();
    assert_eq!(m.expire_date_time, NOW + 5 * SEC);
}

#[test]
fn place_upload_takes_free_codes_only() {
    let mut db = Database::new();
    let m = MetaDataFile {
        created_at: NOW,
        expire_date_time: NOW + SEC,
        secret: None,
        manual_deletion: true,
        max_download: None,
        count_downloads: 0,
    };
    let stored = place_upload(&mut db, "Xy7".to_string(), "a.txt", m.duplicate()).unwrap();
    assert_eq!(stored.path.code, "Xy7");
    assert_eq!(stored.path.file_name, "a.txt");
    assert_eq!(stored.expire_date_time, NOW + SEC);
    assert!(stored.wake_collector);
    assert!(place_upload(&mut db, "Xy7".to_string(), "a.txt", m.duplicate()).is_none());
    let other = place_upload(&mut db, "Xy7".to_string(), "b.txt", m.duplicate()).unwrap();
    assert!(!other.wake_collector);
}

#[test]
fn verification_outcomes_are_answered() {
    answer_verification(Ok(())).unwrap();
    match answer_verification(Err(VerifyError::Password)) {
        Err(ApiError::PermissionDeniedError(m)) => assert_eq!(m, "Secret token is invalid"),
        other => panic!("unexpected {other:?}"),
    }
    match answer_verification(Err(VerifyError::Other("salt invalid".to_string()))) {
        Err(ApiError::UnknownError(m)) => assert_eq!(m, "An Unexpected error occurred: salt invalid"),
        other => panic!("unexpected {other:?}"),
    }
}

#[test]
fn multipart_parts_are_chosen() {
    match decide_part(Some(Some("a.txt"))) {
        PartDecision::Upload(n) => assert_eq!(n, "a.txt"),
        other => panic!("unexpected {other:?}"),
    }
    assert!(matches!(decide_part(Some(None)), PartDecision::Skip));
    match decide_part(None) {
        PartDecision::Refuse(ApiError::BadRequestError(m)) => assert_eq!(m, "multipart/form-data empty body"),
        other => panic!("unexpected {other:?}"),
    }
}

#[test]
fn failed_writes_are_rolled_back() {
    let mut db = Database::new();
    let stored = store(&mut db, &query(), 60, 4, None, "w.txt", NOW).unwrap();
    let path = stored.path.duplicate();
    let r = finish_upload(&mut db, stored, Err(ApiError::PayloadTooLarge("big".to_string())));
    match r {
        Err(ApiError::PayloadTooLarge(m)) => assert_eq!(m, "big"),
        other => panic!("unexpected {other:?}"),
    }
    assert!(!db.exist(&path));
    assert_eq!(db.purge(NOW), None);
    let stored = store(&mut db, &query(), 60, 4, None, "ok.txt", NOW).unwrap();
    let path = stored.path.duplicate();
    let kept = finish_upload(&mut db, stored, Ok(5)).unwrap();
    assert!(kept.path.same(&path));
    assert!(db.exist(&path));
}

#[test]
fn permitted_deletions_remove_the_record() {
    let mut db = Database::new();
    let stored = store(&mut db, &query(), 60, 4, None, "d.txt", NOW).unwrap();
    let code = stored.path.code.clone();
    let p = delete(&db, &code, "d.txt", None).unwrap().unwrap();
    match complete_delete(&mut db, &p, Err(ApiError::IoError("busy".to_string()))) {
        Err(ApiError::IoError(m)) => assert_eq!(m, "busy"),
        other => panic!("unexpected {other:?}"),
    }
    assert!(db.exist(&p));
    complete_delete(&mut db, &p, Ok(())).unwrap();
    assert!(!db.exist(&p));
    match info(&mut db, &code, "d.txt", None) {
        Err(ApiError::NotFoundError(m)) => assert_eq!(m, "MetaDataFile not found"),
        other => panic!("unexpected {other:?}"),
    }
}

#[test]
fn hash_errors_and_name_errors() {
    let mut db = Database::new();
    match store(&mut db, &query(), 60, 4, Some(Secret::new("pw".to_string())), "a/b", NOW) {
        Err(ApiError::InvalidInputError(m)) => assert_eq!(m, "file_name: invalid"),
        other => panic!("unexpected {other:?}"),
    }
}
