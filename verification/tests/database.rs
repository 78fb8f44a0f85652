use pastefile::database::file_path::FilePath;
use pastefile::database::meta_data_file::{MetaDataFile, MetaDataFileResponse};
use pastefile::database::Database;
use pastefile::error::ApiError;

const SEC: i128 = 1_000_000_000;

fn path(code: &str, name: &str) -> FilePath {
    FilePath::new(code.to_string(), name.to_string())
}

fn meta(expire: i128) -> MetaDataFile {
    MetaDataFile {
        created_at: 1_700_000_000 * SEC,
        expire_date_time: expire,
        secret: None,
        manual_deletion: true,
        max_download: Some(3),
        count_downloads: 0,
    }
}

#[test]
fn test_store_file_and_fetch() {
    let mut db = Database::new();
    let p = path("aB3dE", "photo.png");
    let m = meta(1_700_000_100 * SEC);
    db.store(p.duplicate(), m.duplicate()).unwrap();
    let result = db.fetch(&p).unwrap();
    assert_eq!(result.created_at, m.created_at);
    assert_eq!(result.expire_date_time, m.expire_date_time);
    assert!(result.secret.is_none());
    assert_eq!(result.max_download, m.max_download);
    assert_eq!(result.count_downloads, m.count_downloads);
}

#[test]
fn test_store_and_update_file() {
    let mut db = Database::new();
    let p = path("qwe", "a.txt");
    let m = meta(5 * SEC);
    db.store(p.duplicate(), m.duplicate()).unwrap();
    let mut updated = m.duplicate();
    updated.count_downloads += 1;
    db.update(&p, &m, updated).unwrap();
    let result = db.fetch(&p).unwrap();
    assert_eq!(result.created_at, m.created_at);
    assert_eq!(result.expire_date_time, m.expire_date_time);
    assert!(result.secret.is_none());
    assert_eq!(result.max_download, m.max_download);
    assert_eq!(result.count_downloads, m.count_downloads + 1);
}

#[test]
fn test_store_file_and_check_it_existence() {
    let mut db = Database::new();
    let p = path("xyz", "b.txt");
    db.store(p.duplicate(), meta(SEC)).unwrap();
    assert!(db.exist(&p));
}

#[test]
fn test_store_file_and_expire_it() {
    let mut db = Database::new();
    let p = path("xyz", "b.txt");
    let now = 1_700_000_000 * SEC;
    db.store(p.duplicate(), meta(now)).unwrap();
    // one second later the collector runs
    let next = db.purge(now + SEC);
    assert!(next.is_none());
    assert!(!db.exist(&p));
}

#[test]
fn test_store_file_and_successfully_delete_it() {
    let mut db = Database::new();
    let p = path("del", "c.txt");
    db.store(p.duplicate(), meta(SEC)).unwrap();
    db.delete(&p).unwrap();
    assert!(!db.exist(&p));
}

#[test]
fn test_delete_file_that_does_not_exist() {
    let mut db = Database::new();
    let p = path("del", "c.txt");
    db.store(p.duplicate(), meta(SEC)).unwrap();
    let other = path("del", "other.txt");
    assert!(db.delete(&other).is_none());
    assert!(db.exist(&p));
}

#[test]
fn test_fetch_file_that_does_not_exist() {
    let mut db = Database::new();
    db.store(path("fet", "c.txt"), meta(SEC)).unwrap();
    assert!(db.fetch(&path("fet", "d.txt")).is_none());
}

#[test]
fn storing_twice_is_refused_and_changes_nothing() {
    let mut db = Database::new();
    let p = path("dup", "a.txt");
    assert_eq!(db.store(p.duplicate(), meta(10 * SEC)).unwrap(), true);
    match db.store(p.duplicate(), meta(20 * SEC)) {
        Err(ApiError::ResourceExistsError(m)) => assert_eq!(m, "File path exists"),
        other => panic!("unexpected {other:?}"),
    }
    assert_eq!(db.fetch(&p).unwrap().expire_date_time, 10 * SEC);
}

#[test]
fn store_tells_when_the_collector_must_wake() {
    let mut db = Database::new();
    assert!(db.store(path("a", "1.txt"), meta(10 * SEC)).unwrap());
    assert!(!db.store(path("b", "2.txt"), meta(20 * SEC)).unwrap());
    assert!(!db.store(path("c", "3.txt"), meta(10 * SEC)).unwrap());
    assert!(db.store(path("d", "4.txt"), meta(5 * SEC)).unwrap());
}

#[test]
fn update_is_compare_and_swap() {
    let mut db = Database::new();
    let p = path("cas", "a.txt");
    let m = meta(SEC);
    db.store(p.duplicate(), m.duplicate()).unwrap();
    let mut stale = m.duplicate();
    stale.count_downloads = 7;
    match db.update(&p, &stale, m.duplicate()) {
        Err(ApiError::BadRequestError(msg)) => {
            assert_eq!(msg, "Updating the meta data file in the database failed.")
        }
        other => panic!("unexpected {other:?}"),
    }
    match db.update(&path("cas", "missing.txt"), &m, m.duplicate()) {
        Err(ApiError::DatabaseError(msg)) => assert_eq!(
            msg,
            "Unexpected bug has happened: Updating the meta data file in the database failed, Error: Compare and swap conflict. PLEASE REPORT THIS BUG!"
        ),
        other => panic!("unexpected {other:?}"),
    }
}

#[test]
fn purge_removes_due_files_and_says_when_to_wake() {
    let mut db = Database::new();
    db.store(path("a", "1.txt"), meta(10 * SEC)).unwrap();
    db.store(path("b", "2.txt"), meta(30 * SEC)).unwrap();
    db.store(path("c", "3.txt"), meta(20 * SEC)).unwrap();
    assert_eq!(db.purge(15 * SEC), Some((5 * SEC) as u128));
    assert!(!db.exist(&path("a", "1.txt")));
    assert!(db.exist(&path("b", "2.txt")));
    assert!(db.exist(&path("c", "3.txt")));
    assert_eq!(db.purge(15 * SEC), Some((5 * SEC) as u128));
    assert_eq!(db.purge(25 * SEC), Some((5 * SEC) as u128));
    assert_eq!(db.purge(31 * SEC), None);
    assert!(!db.exist(&path("b", "2.txt")));
}

#[test]
fn purge_before_the_epoch() {
    let mut db = Database::new();
    db.store(path("a", "1.txt"), meta(-5)).unwrap();
    db.store(path("b", "2.txt"), meta(7)).unwrap();
    assert_eq!(db.purge(-3), Some(10));
    assert!(!db.exist(&path("a", "1.txt")));
}

#[test]
fn delete_undoes_store() {
    let mut db = Database::new();
    db.store(path("k", "keep.txt"), meta(3 * SEC)).unwrap();
    let p = path("t", "temp.txt");
    db.store(p.duplicate(), meta(SEC)).unwrap();
    let removed = db.delete(&p).unwrap();
    assert_eq!(removed.expire_date_time, SEC);
    // the expiry entry went too: the next wake-up is the kept file's
    assert_eq!(db.purge(0), Some((3 * SEC) as u128));
    assert!(db.exist(&path("k", "keep.txt")));
}

#[test]
fn load_rebuilds_the_index() {
    let records = vec![(path("a", "1.txt"), meta(10 * SEC)), (path("b", "2.txt"), meta(4 * SEC))];
    let mut db = Database::load(&records).unwrap();
    assert!(db.exist(&path("a", "1.txt")));
    assert_eq!(db.purge(0), Some((4 * SEC) as u128));
    let twice = vec![(path("a", "1.txt"), meta(10 * SEC)), (path("a", "1.txt"), meta(4 * SEC))];
    assert!(Database::load(&twice).is_err());
}

#[test]
fn response_shows_the_public_fields() {
    let m = meta(9);
    let r = MetaDataFileResponse::from(&m);
    assert_eq!(r.created_at, m.created_at);
    assert_eq!(r.expire_date_time, 9);
    assert!(r.allow_manual_deletion);
    assert_eq!(r.max_download, Some(3));
    assert_eq!(r.count_downloads, 0);
}

#[test]
fn file_path_texts() {
    let p = path("code1", "a b.txt");
    assert_eq!(p.url_path(), "code1/a b.txt");
    assert_eq!(p.to_string(), "code1/a b.txt");
    assert_eq!(p.fs_path("/data"), "/data/code1/a b.txt");
    assert_eq!(p.fs_path("/data/"), "/data/code1/a b.txt");
    assert_eq!(p.fs_path(""), "code1/a b.txt");
    assert!(p.same(&p.duplicate()));
    assert!(!p.same(&path("code1", "b.txt")));
}
