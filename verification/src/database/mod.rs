//! The store of file records and the index of their expiry times.

pub mod file_path;
pub mod meta_data_file;

use crate::error::{ApiError, ApiResult};
use file_path::{FilePath, FilePathView};
use meta_data_file::{MetaDataFile, MetaDataFileView};
use vstd::prelude::*;

verus! {

/// The mathematical value of a `Database`: the record of each stored file, and
/// the expiry index, a set of (expiry time, file) entries that the garbage
/// collector works through in order of time.
#[verifier::ext_equal]
pub struct DatabaseView {
    pub files: Map<FilePathView, MetaDataFileView>,
    pub expires: Set<(i128, FilePathView)>,
}

/// The files whose entries in `expires` fall before `now`.
pub open spec fn expired_paths(expires: Set<(i128, FilePathView)>, now: i128) -> Set<FilePathView> {
    Set::new(|p: FilePathView| exists|t: i128| t < now && #[trigger] expires.contains((t, p)))
}

/// The entries of `expires` that are not before `now`.
pub open spec fn unexpired(expires: Set<(i128, FilePathView)>, now: i128) -> Set<(i128, FilePathView)> {
    expires.filter(|e: (i128, FilePathView)| e.0 >= now)
}

/// Whether storing a file that expires at `t` makes it the first one due, so
/// that the garbage collector has to be woken up.
pub open spec fn wakes_collector(expires: Set<(i128, FilePathView)>, t: i128) -> bool {
    forall|e: (i128, FilePathView)| #[trigger] expires.contains(e) ==> e.0 > t
}

/// How long after `now` the first entry of `expires` falls due, in nanoseconds
/// (`None` when the index is empty).
pub open spec fn is_next_wakeup(expires: Set<(i128, FilePathView)>, now: i128, w: Option<u128>) -> bool {
    match w {
        None => expires.is_empty(),
        Some(d) => {
            &&& exists|e: (i128, FilePathView)| #[trigger] expires.contains(e) && e.0 - now == d
            &&& forall|e: (i128, FilePathView)| #[trigger] expires.contains(e) ==> e.0 - now >= d
        },
    }
}

spec fn key_of(rs: Seq<(FilePath, MetaDataFile)>, i: int) -> FilePathView {
    rs[i].0@
}

/// One record per file, and the ghost map holds exactly the records.
spec fn records_wf_of(
    rs: Seq<(FilePath, MetaDataFile)>,
    files: Map<FilePathView, MetaDataFileView>,
) -> bool {
    &&& forall|i: int, j: int|
        0 <= i < j < rs.len() ==> #[trigger] key_of(rs, i) != #[trigger] key_of(rs, j)
    &&& forall|i: int|
        0 <= i < rs.len() ==> {
            &&& files.contains_key(#[trigger] key_of(rs, i))
            &&& files[key_of(rs, i)] == rs[i].1@
        }
    &&& forall|k: FilePathView|
        #[trigger] files.contains_key(k) ==> exists|i: int|
            0 <= i < rs.len() && #[trigger] key_of(rs, i) == k
}

impl DatabaseView {
    /// The state after storing the new file `p` with record `m`.
    pub open spec fn with_file(self, p: FilePathView, m: MetaDataFileView) -> DatabaseView {
        DatabaseView {
            files: self.files.insert(p, m),
            expires: self.expires.insert((m.expire_date_time, p)),
        }
    }

    /// The state after deleting the file `p`: its record goes, and so does the
    /// index entry for the expiry time in that record.
    pub open spec fn without_file(self, p: FilePathView) -> DatabaseView {
        if self.files.contains_key(p) {
            DatabaseView {
                files: self.files.remove(p),
                expires: self.expires.remove((self.files[p].expire_date_time, p)),
            }
        } else {
            self
        }
    }

    /// The state after replacing the record of `p` by `m` (the index stays).
    pub open spec fn with_record(self, p: FilePathView, m: MetaDataFileView) -> DatabaseView {
        DatabaseView { files: self.files.insert(p, m), expires: self.expires }
    }

    /// The state after purging at `now`: the index keeps its entries from
    /// `now` on, and the files of the earlier entries are gone.
    pub open spec fn purged(self, now: i128) -> DatabaseView {
        DatabaseView {
            files: self.files.remove_keys(expired_paths(self.expires, now)),
            expires: unexpired(self.expires, now),
        }
    }
}

/// The tables behind a `Database`: the records, the expiry index, and the
/// map that the records stand for.
struct Tables {
    records: Vec<(FilePath, MetaDataFile)>,
    expires: Vec<(i128, FilePath)>,
    files: Ghost<Map<FilePathView, MetaDataFileView>>,
}

impl View for Tables {
    type V = DatabaseView;

    closed spec fn view(&self) -> DatabaseView {
        DatabaseView { files: self.files@, expires: self.entries().to_set() }
    }
}

impl Tables {
    spec fn entries(&self) -> Seq<(i128, FilePathView)> {
        self.expires@.map_values(|e: (i128, FilePath)| (e.0, e.1@))
    }

    spec fn records_wf(&self) -> bool {
        records_wf_of(self.records@, self.files@)
    }

    spec fn expires_wf(&self) -> bool {
        &&& forall|i: int, j: int|
            0 <= i <= j < self.expires@.len() ==> #[trigger] self.expires@[i].0
                <= #[trigger] self.expires@[j].0
        &&& self.entries().no_duplicates()
    }

    /// One record per file, and an expiry index kept in order of time without
    /// repeated entries.
    spec fn well_formed(&self) -> bool {
        self.records_wf() && self.expires_wf()
    }

    /// Empty tables.
    fn new() -> (db: Tables)
        ensures
            db.well_formed(),
            db@.files == Map::<FilePathView, MetaDataFileView>::empty(),
            db@.expires == Set::<(i128, FilePathView)>::empty(),
    {
        let db = Tables { records: Vec::new(), expires: Vec::new(), files: Ghost(Map::empty()) };
        assert(db.entries() =~= Seq::<(i128, FilePathView)>::empty());
        assert(db@.expires =~= Set::<(i128, FilePathView)>::empty());
        db
    }

    fn find(&self, path: &FilePath) -> (r: Option<usize>)
        requires
            self.records_wf(),
        ensures
            match r {
                Some(i) => i < self.records@.len() && key_of(self.records@, i as int) == path@,
                None => !self@.files.contains_key(path@),
            },
    {
        for i in 0..self.records.len()
            invariant
                self.records_wf(),
                forall|k: int| 0 <= k < i ==> #[trigger] key_of(self.records@, k) != path@,
        {
            if self.records[i].0.same(path) {
                return Some(i);
            }
        }
        None
    }

    fn find_entry(&self, t: i128, path: &FilePath) -> (r: Option<usize>)
        ensures
            match r {
                Some(i) => i < self.expires@.len() && self.entries()[i as int] == (t, path@),
                None => !self.entries().contains((t, path@)),
            },
    {
        for i in 0..self.expires.len()
            invariant
                forall|k: int| 0 <= k < i ==> #[trigger] self.entries()[k] != (t, path@),
        {
            if self.expires[i].0 == t && self.expires[i].1.same(path) {
                return Some(i);
            }
        }
        None
    }

    /// Adds an entry to the expiry index unless it is there already.
    fn insert_expiry(&mut self, t: i128, path: FilePath)
        requires
            old(self).expires_wf(),
        ensures
            final(self).expires_wf(),
            final(self).entries().to_set() == old(self).entries().to_set().insert((t, path@)),
            final(self).records == old(self).records,
            final(self).files == old(self).files,
            final(self).records_wf() == old(self).records_wf(),
    {
        if self.find_entry(t, &path).is_some() {
            assert(self.entries().to_set() =~= self.entries().to_set().insert((t, path@)));
            return;
        }
        let mut pos: usize = 0;
        while pos < self.expires.len() && self.expires[pos].0 <= t
            invariant
                pos <= self.expires@.len(),
                forall|k: int| 0 <= k < pos ==> #[trigger] self.expires@[k].0 <= t,
            decreases self.expires@.len() - pos,
        {
            pos = pos + 1;
        }
        let ghost old_entries = self.entries();
        let ghost pv = path@;
        self.expires.insert(pos, (t, path));
        assert(self.entries() =~= old_entries.insert(pos as int, (t, pv)));
        assert forall|i: int, j: int|
            0 <= i <= j < self.expires@.len() implies #[trigger] self.expires@[i].0
            <= #[trigger] self.expires@[j].0 by {
            if i < pos && j > pos {
                assert(self.expires@[i] == old(self).expires@[i]);
                assert(self.expires@[j] == old(self).expires@[j - 1]);
                assert(old(self).expires@[i].0 <= old(self).expires@[j - 1].0);
            } else if i < pos && j == pos {
                assert(self.expires@[i] == old(self).expires@[i]);
            } else if i == pos && j > pos {
                assert(self.expires@[j] == old(self).expires@[j - 1]);
                assert(!(old(self).expires@[pos as int].0 <= t));
                assert(old(self).expires@[pos as int].0 <= old(self).expires@[j - 1].0);
            } else if i > pos {
                assert(self.expires@[i] == old(self).expires@[i - 1]);
                assert(self.expires@[j] == old(self).expires@[j - 1]);
                assert(old(self).expires@[i - 1].0 <= old(self).expires@[j - 1].0);
            } else if i == j {
            } else {
                assert(self.expires@[i] == old(self).expires@[i]);
                assert(self.expires@[j] == old(self).expires@[j]);
                assert(old(self).expires@[i].0 <= old(self).expires@[j].0);
            }
        }
        assert(self.entries().no_duplicates()) by {
            assert forall|i: int, j: int|
                0 <= i < self.entries().len() && 0 <= j < self.entries().len() && i != j
                implies self.entries()[i] != self.entries()[j] by {
                if i == pos {
                    assert(old_entries.contains(self.entries()[j]));
                } else if j == pos {
                    assert(old_entries.contains(self.entries()[i]));
                } else {
                    let oi = if i < pos { i } else { i - 1 };
                    let oj = if j < pos { j } else { j - 1 };
                    assert(self.entries()[i] == old_entries[oi]);
                    assert(self.entries()[j] == old_entries[oj]);
                }
            }
        }
        assert(self.entries().to_set() =~= old_entries.to_set().insert((t, pv))) by {
            assert forall|e: (i128, FilePathView)| #[trigger] self.entries().contains(e) <==> (old_entries.contains(e) || e == (t, pv)) by {
                if self.entries().contains(e) {
                    let i = choose|i: int| 0 <= i < self.entries().len() && self.entries()[i] == e;
                    if i < pos {
                        assert(old_entries[i] == e);
                    } else if i > pos {
                        assert(old_entries[i - 1] == e);
                    }
                }
                if old_entries.contains(e) {
                    let i = choose|i: int| 0 <= i < old_entries.len() && old_entries[i] == e;
                    if i < pos {
                        assert(self.entries()[i] == e);
                    } else {
                        assert(self.entries()[i + 1] == e);
                    }
                }
                if e == (t, pv) {
                    assert(self.entries()[pos as int] == e);
                }
            }
        }
    }

    /// Removes an entry from the expiry index if it is there.
    fn remove_expiry(&mut self, t: i128, path: &FilePath)
        requires
            old(self).expires_wf(),
        ensures
            final(self).expires_wf(),
            final(self).entries().to_set() == old(self).entries().to_set().remove((t, path@)),
            final(self).records == old(self).records,
            final(self).files == old(self).files,
            final(self).records_wf() == old(self).records_wf(),
    {
        match self.find_entry(t, path) {
            None => {
                assert(self.entries().to_set() =~= self.entries().to_set().remove((t, path@)));
            },
            Some(pos) => {
                let ghost old_entries = self.entries();
                let _ = self.expires.remove(pos);
                assert(self.entries() =~= old_entries.remove(pos as int));
                assert forall|i: int, j: int|
                    0 <= i <= j < self.expires@.len() implies #[trigger] self.expires@[i].0
                    <= #[trigger] self.expires@[j].0 by {
                    let oi = if i < pos { i } else { i + 1 };
                    let oj = if j < pos { j } else { j + 1 };
                    assert(self.expires@[i] == old(self).expires@[oi]);
                    assert(self.expires@[j] == old(self).expires@[oj]);
                    assert(old(self).expires@[oi].0 <= old(self).expires@[oj].0);
                }
                assert(self.entries().no_duplicates()) by {
                    assert forall|i: int, j: int|
                        0 <= i < self.entries().len() && 0 <= j < self.entries().len() && i != j
                        implies self.entries()[i] != self.entries()[j] by {
                        let oi = if i < pos { i } else { i + 1 };
                        let oj = if j < pos { j } else { j + 1 };
                        assert(self.entries()[i] == old_entries[oi]);
                        assert(self.entries()[j] == old_entries[oj]);
                    }
                }
                assert(self.entries().to_set() =~= old_entries.to_set().remove((t, path@))) by {
                    assert forall|e: (i128, FilePathView)| #[trigger] self.entries().contains(e) <==> (old_entries.contains(e) && e != (t, path@)) by {
                        if self.entries().contains(e) {
                            let i = choose|i: int| 0 <= i < self.entries().len() && self.entries()[i] == e;
                            let oi = if i < pos { i } else { i + 1 };
                            assert(old_entries[oi] == e);
                            assert(oi != pos);
                        }
                        if old_entries.contains(e) && e != (t, path@) {
                            let i = choose|i: int| 0 <= i < old_entries.len() && old_entries[i] == e;
                            if i < pos {
                                assert(self.entries()[i] == e);
                            } else {
                                assert(i != pos);
                                assert(self.entries()[i - 1] == e);
                            }
                        }
                    }
                }
            },
        }
    }

    /// Stores the record of a new file.  A file that is stored already is
    /// refused and nothing changes.  Otherwise the record is kept, its expiry
    /// time enters the index, and the result tells whether the new file falls
    /// due before every entry that was in the index (the garbage collector
    /// then has to be woken up).
    fn store(&mut self, path: FilePath, meta: MetaDataFile) -> (r: ApiResult<bool>)
        requires
            old(self).well_formed(),
        ensures
            final(self).well_formed(),
            old(self)@.files.contains_key(path@) ==> {
                &&& r matches Err(ApiError::ResourceExistsError(m)) && m@ == "File path exists"@
                &&& final(self)@ == old(self)@
            },
            !old(self)@.files.contains_key(path@) ==> {
                &&& r == Ok::<bool, ApiError>(wakes_collector(old(self)@.expires, meta.expire_date_time))
                &&& final(self)@ == old(self)@.with_file(path@, meta@)
            },
    {
        if self.find(&path).is_some() {
            return Err(ApiError::ResourceExistsError("File path exists".to_owned()));
        }
        let t = meta.expire_date_time;
        let notify = self.expires.len() == 0 || self.expires[0].0 > t;
        assert(notify == wakes_collector(self@.expires, t)) by {
            if self.expires.len() == 0 {
                assert(self.entries().len() == 0);
                assert forall|e: (i128, FilePathView)| #[trigger] self@.expires.contains(e) implies e.0 > t by {
                    assert(self.entries().contains(e));
                }
            } else {
                if !(self.expires@[0].0 > t) {
                    assert(self@.expires.contains(self.entries()[0]));
                }
                assert(self.entries()[0].0 == self.expires@[0].0);
                assert(self.entries().contains(self.entries()[0]));
                if self.expires@[0].0 > t {
                    assert forall|e: (i128, FilePathView)| #[trigger] self@.expires.contains(e) implies e.0 > t by {
                        let i = choose|i: int| 0 <= i < self.entries().len() && self.entries()[i] == e;
                        assert(self.expires@[0].0 <= self.expires@[i].0);
                    }
                }
            }
        }
        let ghost old_self = *self;
        self.insert_expiry(t, path.duplicate());
        let ghost pv = path@;
        let ghost mv = meta@;
        self.records.push((path, meta));
        self.files = Ghost(self.files@.insert(pv, mv));
        assert(self.records_wf()) by {
            let n = old_self.records@.len() as int;
            assert forall|i: int| 0 <= i < n implies #[trigger] key_of(self.records@, i) == key_of(old_self.records@, i) by {
            }
            assert(key_of(self.records@, n) == pv);
            assert forall|i: int, j: int|
                0 <= i < j < self.records@.len() implies #[trigger] key_of(self.records@, i) != #[trigger] key_of(self.records@, j) by {
                if j == n {
                    assert(old_self.files@.contains_key(key_of(old_self.records@, i)));
                } else {
                    assert(key_of(old_self.records@, i) != key_of(old_self.records@, j));
                }
            }
            assert forall|k: FilePathView| #[trigger] self.files@.contains_key(k) implies exists|i: int|
                0 <= i < self.records@.len() && #[trigger] key_of(self.records@, i) == k by {
                if k != pv {
                    let i = choose|i: int| 0 <= i < old_self.records@.len() && #[trigger] key_of(old_self.records@, i) == k;
                    assert(key_of(self.records@, i) == k);
                }
            }
        }
        Ok(notify)
    }

    /// Takes the record of `path` out of the record list.
    fn remove_record(&mut self, path: &FilePath) -> (r: Option<MetaDataFile>)
        requires
            old(self).records_wf(),
        ensures
            final(self).records_wf(),
            final(self).expires == old(self).expires,
            final(self)@.files == old(self)@.files.remove(path@),
            match r {
                Some(m) => old(self)@.files.contains_key(path@) && m@ == old(self)@.files[path@],
                None => !old(self)@.files.contains_key(path@),
            },
    {
        match self.find(path) {
            None => {
                assert(self.files@ =~= self.files@.remove(path@));
                None
            },
            Some(pos) => {
                let ghost old_self = *self;
                let (_, m) = self.records.remove(pos);
                self.files = Ghost(self.files@.remove(path@));
                assert forall|i: int| 0 <= i < self.records@.len() implies #[trigger] key_of(self.records@, i)
                    == key_of(old_self.records@, if i < pos { i } else { i + 1 }) by {
                }
                assert(self.records_wf()) by {
                    assert forall|i: int, j: int|
                        0 <= i < j < self.records@.len() implies #[trigger] key_of(self.records@, i) != #[trigger] key_of(self.records@, j) by {
                        let oi = if i < pos { i } else { i + 1 };
                        let oj = if j < pos { j } else { j + 1 };
                        assert(key_of(old_self.records@, oi) != key_of(old_self.records@, oj));
                    }
                    assert forall|i: int| 0 <= i < self.records@.len() implies {
                        &&& self.files@.contains_key(#[trigger] key_of(self.records@, i))
                        &&& self.files@[key_of(self.records@, i)] == self.records@[i].1@
                    } by {
                        let oi = if i < pos { i } else { i + 1 };
                        assert(key_of(old_self.records@, oi) != key_of(old_self.records@, pos as int));
                        assert(self.records@[i] == old_self.records@[oi]);
                    }
                    assert forall|k: FilePathView| #[trigger] self.files@.contains_key(k) implies exists|i: int|
                        0 <= i < self.records@.len() && #[trigger] key_of(self.records@, i) == k by {
                        let oi = choose|oi: int| 0 <= oi < old_self.records@.len() && #[trigger] key_of(old_self.records@, oi) == k;
                        assert(oi != pos);
                        let i = if oi < pos { oi } else { oi - 1 };
                        assert(key_of(self.records@, i) == k);
                    }
                }
                Some(m)
            },
        }
    }

    /// Deletes the record of a file and its entry in the expiry index,
    /// returning the record (nothing changes when the file is not stored).
    fn delete(&mut self, path: &FilePath) -> (r: Option<MetaDataFile>)
        requires
            old(self).well_formed(),
        ensures
            final(self).well_formed(),
            final(self)@ == old(self)@.without_file(path@),
            match r {
                Some(m) => old(self)@.files.contains_key(path@) && m@ == old(self)@.files[path@],
                None => !old(self)@.files.contains_key(path@),
            },
    {
        let r = self.remove_record(path);
        match r {
            Some(m) => {
                self.remove_expiry(m.expire_date_time, path);
                Some(m)
            },
            None => {
                assert(self.files@ =~= old(self).files@);
                None
            },
        }
    }

    /// Replaces the record of a file, but only if it is still `old`.  When the
    /// file is not stored, or its record differs from `old`, nothing changes
    /// and the update is refused.  The expiry index is left as it is.
    fn update(&mut self, path: &FilePath, old_meta: &MetaDataFile, new_meta: MetaDataFile) -> (r: ApiResult<()>)
        requires
            old(self).well_formed(),
        ensures
            final(self).well_formed(),
            !old(self)@.files.contains_key(path@) ==> {
                &&& r matches Err(ApiError::DatabaseError(m)) && m@ == update_bug_message()
                &&& final(self)@ == old(self)@
            },
            old(self)@.files.contains_key(path@) && old(self)@.files[path@] != old_meta@ ==> {
                &&& r matches Err(ApiError::BadRequestError(m)) && m@ == "Updating the meta data file in the database failed."@
                &&& final(self)@ == old(self)@
            },
            old(self)@.files.contains_key(path@) && old(self)@.files[path@] == old_meta@ ==> {
                &&& r is Ok
                &&& final(self)@ == old(self)@.with_record(path@, new_meta@)
            },
    {
        match self.find(path) {
            None => Err(ApiError::DatabaseError(
                "Unexpected bug has happened: Updating the meta data file in the database failed, Error: Compare and swap conflict. PLEASE REPORT THIS BUG!".to_owned(),
            )),
            Some(i) => {
                if !self.records[i].1.same(old_meta) {
                    return Err(ApiError::BadRequestError("Updating the meta data file in the database failed.".to_owned()));
                }
                let ghost old_self = *self;
                let ghost mv = new_meta@;
                self.records.set(i, (path.duplicate(), new_meta));
                self.files = Ghost(self.files@.insert(path@, mv));
                assert(self.records_wf()) by {
                    assert forall|j: int| 0 <= j < self.records@.len() implies #[trigger] key_of(self.records@, j) == key_of(old_self.records@, j) by {
                    }
                    assert forall|j: int| 0 <= j < self.records@.len() implies {
                        &&& self.files@.contains_key(#[trigger] key_of(self.records@, j))
                        &&& self.files@[key_of(self.records@, j)] == self.records@[j].1@
                    } by {
                        if j != i {
                            assert(key_of(old_self.records@, j) != key_of(old_self.records@, i as int));
                        }
                    }
                    assert forall|k: FilePathView| #[trigger] self.files@.contains_key(k) implies exists|j: int|
                        0 <= j < self.records@.len() && #[trigger] key_of(self.records@, j) == k by {
                        let j = choose|j: int| 0 <= j < old_self.records@.len() && #[trigger] key_of(old_self.records@, j) == k;
                        assert(key_of(self.records@, j) == k);
                    }
                }
                Ok(())
            },
        }
    }

    /// Removes every file whose entry in the expiry index falls before `now`:
    /// all such entries leave the index and the records of their files are
    /// deleted.  Returns how long after `now` the first remaining entry falls
    /// due, in nanoseconds (`None` when no entry remains).
    fn purge(&mut self, now: i128) -> (r: Option<u128>)
        requires
            old(self).well_formed(),
        ensures
            final(self).well_formed(),
            final(self)@ == old(self)@.purged(now),
            is_next_wakeup(final(self)@.expires, now, r),
    {
        let mut k: usize = 0;
        while k < self.expires.len() && self.expires[k].0 < now
            invariant
                k <= self.expires@.len(),
                forall|i: int| 0 <= i < k ==> #[trigger] self.expires@[i].0 < now,
            decreases self.expires@.len() - k,
        {
            k = k + 1;
        }
        let ghost old_self = *self;
        let ghost old_entries = self.entries();
        assert forall|i: int| k <= i < old_entries.len() implies #[trigger] old_entries[i].0 >= now by {
            assert(old_self.expires@[k as int].0 >= now);
            assert(old_self.expires@[k as int].0 <= old_self.expires@[i].0);
        }
        let mut due = self.expires.split_off(k);
        std::mem::swap(&mut self.expires, &mut due);
        assert(self.entries() =~= old_entries.subrange(k as int, old_entries.len() as int));
        assert(self.expires_wf()) by {
            assert forall|i: int, j: int|
                0 <= i <= j < self.expires@.len() implies #[trigger] self.expires@[i].0
                <= #[trigger] self.expires@[j].0 by {
                assert(self.expires@[i] == old_self.expires@[i + k]);
                assert(self.expires@[j] == old_self.expires@[j + k]);
                assert(old_self.expires@[i + k].0 <= old_self.expires@[j + k].0);
            }
            assert forall|i: int, j: int|
                0 <= i < self.entries().len() && 0 <= j < self.entries().len() && i != j
                implies self.entries()[i] != self.entries()[j] by {
                assert(self.entries()[i] == old_entries[i + k]);
                assert(self.entries()[j] == old_entries[j + k]);
            }
        }
        assert(self@.expires =~= unexpired(old_self@.expires, now)) by {
            assert forall|e: (i128, FilePathView)| #[trigger] self@.expires.contains(e)
                <==> unexpired(old_self@.expires, now).contains(e) by {
                if self.entries().contains(e) {
                    let i = choose|i: int| 0 <= i < self.entries().len() && self.entries()[i] == e;
                    assert(old_entries[i + k] == e);
                }
                if old_entries.contains(e) && e.0 >= now {
                    let i = choose|i: int| 0 <= i < old_entries.len() && old_entries[i] == e;
                    if i < k {
                        assert(old_self.expires@[i].0 < now);
                    }
                    assert(self.entries()[i - k] == e);
                }
            }
        }
        let ghost files0 = self.files@;
        let ghost due_view = due@.map_values(|e: (i128, FilePath)| (e.0, e.1@));
        assert(due_view =~= old_entries.subrange(0, k as int));
        let ghost suffix = self.expires@;
        assert forall|i: int| 0 <= i < suffix.len() implies #[trigger] suffix[i].0 >= now by {
            assert(suffix[i] == old_self.expires@[i + k]);
            assert(old_entries[i + k].0 >= now);
        }
        assert(files0.remove_keys(
            Set::new(|p: FilePathView| exists|i: int| 0 <= i < 0 && #[trigger] due_view[i].1 == p),
        ) =~= files0);
        for j in 0..due.len()
            invariant
                self.expires@ == suffix,
                forall|i: int| 0 <= i < suffix.len() ==> #[trigger] suffix[i].0 >= now,
                self.records_wf(),
                self.expires_wf(),
                self@.expires == unexpired(old_self@.expires, now),
                due_view == due@.map_values(|e: (i128, FilePath)| (e.0, e.1@)),
                self.files@ == files0.remove_keys(
                    Set::new(|p: FilePathView| exists|i: int| 0 <= i < j && #[trigger] due_view[i].1 == p),
                ),
        {
            let ghost before = self.files@;
            let _ = self.remove_record(&due[j].1);
            assert(due_view[j as int].1 == due@[j as int].1@);
            assert(self.files@ =~= files0.remove_keys(
                Set::new(|p: FilePathView| exists|i: int| 0 <= i < j + 1 && #[trigger] due_view[i].1 == p),
            )) by {
                assert forall|p: FilePathView| #[trigger] self.files@.contains_key(p) <==> files0.remove_keys(
                    Set::new(|p: FilePathView| exists|i: int| 0 <= i < j + 1 && #[trigger] due_view[i].1 == p),
                ).contains_key(p) by {
                    if exists|i: int| 0 <= i < j + 1 && #[trigger] due_view[i].1 == p {
                        let i = choose|i: int| 0 <= i < j + 1 && #[trigger] due_view[i].1 == p;
                        if i < j {
                            assert(exists|i: int| 0 <= i < j && #[trigger] due_view[i].1 == p);
                        }
                    } else {
                        assert(!(exists|i: int| 0 <= i < j && #[trigger] due_view[i].1 == p));
                    }
                }
            }
        }
        assert(Set::new(|p: FilePathView| exists|i: int| 0 <= i < due@.len() && #[trigger] due_view[i].1 == p)
            =~= expired_paths(old_self@.expires, now)) by {
            assert forall|p: FilePathView| #[trigger] expired_paths(old_self@.expires, now).contains(p)
                <==> exists|i: int| 0 <= i < due@.len() && #[trigger] due_view[i].1 == p by {
                if expired_paths(old_self@.expires, now).contains(p) {
                    let t = choose|t: i128| t < now && #[trigger] old_self@.expires.contains((t, p));
                    let i = choose|i: int| 0 <= i < old_entries.len() && old_entries[i] == (t, p);
                    if i >= k {
                        assert(old_entries[i].0 >= now);
                    }
                    assert(due_view[i].1 == p);
                }
                if exists|i: int| 0 <= i < due@.len() && #[trigger] due_view[i].1 == p {
                    let i = choose|i: int| 0 <= i < due@.len() && #[trigger] due_view[i].1 == p;
                    let t = old_entries[i].0;
                    assert(old_self.expires@[i].0 < now);
                    assert(old_entries.contains(old_entries[i]));
                    assert(old_self@.expires.contains((t, p)));
                }
            }
        }
        if self.expires.len() > 0 {
            let t = self.expires[0].0;
            assert(t >= now);
            let w: u128 = if now >= 0 {
                t as u128 - now as u128
            } else if t >= 0 {
                t as u128 + ((-(now + 1)) as u128 + 1)
            } else {
                (t - now) as u128
            };
            assert(w == t - now);
            assert(is_next_wakeup(self@.expires, now, Some(w))) by {
                assert(self@.expires.contains(self.entries()[0]));
                assert forall|e: (i128, FilePathView)| #[trigger] self@.expires.contains(e) implies e.0 - now >= w by {
                    let i = choose|i: int| 0 <= i < self.entries().len() && self.entries()[i] == e;
                    assert(self.expires@[0].0 <= self.expires@[i].0);
                }
            }
            Some(w)
        } else {
            assert(self@.expires =~= Set::<(i128, FilePathView)>::empty()) by {
                assert forall|e: (i128, FilePathView)| !#[trigger] self@.expires.contains(e) by {
                    assert(!self.entries().contains(e));
                }
            }
            None
        }
    }

    /// Rebuilds the database from the records found in storage, entering each
    /// file's expiry time in the index.  Two records of one file are refused.
    fn load(records: &Vec<(FilePath, MetaDataFile)>) -> (r: ApiResult<Tables>)
        ensures
            r matches Err(e) ==> e matches ApiError::ResourceExistsError(m) && m@ == "File path exists"@,
            r is Ok <==> forall|i: int, j: int|
                0 <= i < j < records@.len() ==> #[trigger] records@[i].0@ != #[trigger] records@[j].0@,
            r matches Ok(db) ==> {
                &&& db.well_formed()
                &&& forall|i: int| 0 <= i < records@.len() ==> {
                    &&& db@.files.contains_key(#[trigger] records@[i].0@)
                    &&& db@.files[records@[i].0@] == records@[i].1@
                }
                &&& forall|k: FilePathView| #[trigger] db@.files.contains_key(k) ==> exists|i: int|
                    0 <= i < records@.len() && #[trigger] records@[i].0@ == k
                &&& forall|e: (i128, FilePathView)| #[trigger] db@.expires.contains(e) <==> exists|i: int|
                    0 <= i < records@.len() && e == (#[trigger] records@[i].1.expire_date_time, records@[i].0@)
            },
    {
        let mut db = Tables::new();
        let ghost all = records@;
        for n in 0..records.len()
            invariant
                db.well_formed(),
                all == records@,
                forall|i: int, j: int| 0 <= i < j < n ==> #[trigger] all[i].0@ != #[trigger] all[j].0@,
                forall|i: int| 0 <= i < n ==> {
                    &&& db@.files.contains_key(#[trigger] all[i].0@)
                    &&& db@.files[all[i].0@] == all[i].1@
                },
                forall|k: FilePathView| #[trigger] db@.files.contains_key(k) ==> exists|i: int|
                    0 <= i < n && #[trigger] all[i].0@ == k,
                forall|e: (i128, FilePathView)| #[trigger] db@.expires.contains(e) <==> exists|i: int|
                    0 <= i < n && e == (#[trigger] all[i].1.expire_date_time, all[i].0@),
        {
            let path = records[n].0.duplicate();
            let meta = records[n].1.duplicate();
            let ghost pv = path@;
            let ghost mv = meta@;
            let ghost t = meta.expire_date_time;
            let ghost old_db = db@;
            if db.exist(&path) {
                proof {
                    let k = choose|k: int| 0 <= k < n && #[trigger] all[k].0@ == pv;
                    assert(records@[k].0@ == records@[n as int].0@);
                }
                return Err(ApiError::ResourceExistsError("File path exists".to_owned()));
            }
            let _ = db.store(path, meta);
            assert forall|i: int, j: int| 0 <= i < j < n + 1 implies #[trigger] all[i].0@ != #[trigger] all[j].0@ by {
                if j == n {
                    assert(old_db.files.contains_key(all[i].0@));
                }
            }
            assert forall|k: FilePathView| #[trigger] db@.files.contains_key(k) implies exists|i: int|
                0 <= i < n + 1 && #[trigger] all[i].0@ == k by {
                if k != pv {
                    let i = choose|i: int| 0 <= i < n && #[trigger] all[i].0@ == k;
                }
            }
            assert forall|e: (i128, FilePathView)| #[trigger] db@.expires.contains(e) <==> exists|i: int|
                0 <= i < n + 1 && e == (#[trigger] all[i].1.expire_date_time, all[i].0@) by {
                if e == (t, pv) {
                    assert(all[n as int].1.expire_date_time == t);
                }
                if exists|i: int| 0 <= i < n + 1 && e == (#[trigger] all[i].1.expire_date_time, all[i].0@) {
                    let i = choose|i: int| 0 <= i < n + 1 && e == (#[trigger] all[i].1.expire_date_time, all[i].0@);
                    if i < n {
                        assert(old_db.expires.contains(e));
                    }
                }
            }
        }
        Ok(db)
    }

    /// Whether a file is stored.
    fn exist(&self, path: &FilePath) -> (r: bool)
        requires
            self.well_formed(),
        ensures
            r == self@.files.contains_key(path@),
    {
        self.find(path).is_some()
    }

    /// The record of a file, if it is stored.
    fn fetch(&self, path: &FilePath) -> (r: Option<MetaDataFile>)
        requires
            self.well_formed(),
        ensures
            match r {
                Some(m) => self@.files.contains_key(path@) && m@ == self@.files[path@],
                None => !self@.files.contains_key(path@),
            },
    {
        match self.find(path) {
            Some(i) => Some(self.records[i].1.duplicate()),
            None => None,
        }
    }
}

/// The message of the database error that refuses an update of a file that
/// is not stored (the storage engine reports the failed compare-and-swap as a
/// bug).
pub open spec fn update_bug_message() -> Seq<char> {
    "Unexpected bug has happened: Updating the meta data file in the database failed, Error: Compare and swap conflict. PLEASE REPORT THIS BUG!"@
}

/// The records of the service: each stored file's record, and the expiry
/// index that tells the garbage collector which files to remove when.  Its
/// tables always keep one record per file and an expiry index in order of time
/// without repeated entries.
pub struct Database {
    tables: Tables,
}

impl View for Database {
    type V = DatabaseView;

    closed spec fn view(&self) -> DatabaseView {
        self.tables@
    }
}

impl Database {
    #[verifier::type_invariant]
    spec fn tables_well_formed(self) -> bool {
        self.tables.well_formed()
    }

    /// An empty database.
    pub fn new() -> (db: Database)
        ensures
            db@.files == Map::<FilePathView, MetaDataFileView>::empty(),
            db@.expires == Set::<(i128, FilePathView)>::empty(),
    {
        Database { tables: Tables::new() }
    }

    /// Stores the record of a new file.  A file that is stored already is
    /// refused and nothing changes.  Otherwise the record is kept, its expiry
    /// time enters the index, and the result tells whether the new file falls
    /// due before every entry that was in the index (the garbage collector
    /// then has to be woken up).
    pub fn store(&mut self, path: FilePath, meta: MetaDataFile) -> (r: ApiResult<bool>)
        ensures
            old(self)@.files.contains_key(path@) ==> {
                &&& r matches Err(ApiError::ResourceExistsError(m)) && m@ == "File path exists"@
                &&& final(self)@ == old(self)@
            },
            !old(self)@.files.contains_key(path@) ==> {
                &&& r == Ok::<bool, ApiError>(wakes_collector(old(self)@.expires, meta.expire_date_time))
                &&& final(self)@ == old(self)@.with_file(path@, meta@)
            },
    {
        proof { use_type_invariant(&*self); }
        let mut t = Tables::new();
        std::mem::swap(&mut t, &mut self.tables);
        let r = t.store(path, meta);
        self.tables = t;
        r
    }

    /// Deletes the record of a file and its entry in the expiry index,
    /// returning the record (nothing changes when the file is not stored).
    pub fn delete(&mut self, path: &FilePath) -> (r: Option<MetaDataFile>)
        ensures
            final(self)@ == old(self)@.without_file(path@),
            match r {
                Some(m) => old(self)@.files.contains_key(path@) && m@ == old(self)@.files[path@],
                None => !old(self)@.files.contains_key(path@),
            },
    {
        proof { use_type_invariant(&*self); }
        let mut t = Tables::new();
        std::mem::swap(&mut t, &mut self.tables);
        let r = t.delete(path);
        self.tables = t;
        r
    }

    /// Replaces the record of a file, but only if it is still `old`.  When the
    /// file is not stored, or its record differs from `old`, nothing changes
    /// and the update is refused.  The expiry index is left as it is.
    pub fn update(&mut self, path: &FilePath, old_meta: &MetaDataFile, new_meta: MetaDataFile) -> (r: ApiResult<()>)
        ensures
            !old(self)@.files.contains_key(path@) ==> {
                &&& r matches Err(ApiError::DatabaseError(m)) && m@ == update_bug_message()
                &&& final(self)@ == old(self)@
            },
            old(self)@.files.contains_key(path@) && old(self)@.files[path@] != old_meta@ ==> {
                &&& r matches Err(ApiError::BadRequestError(m)) && m@ == "Updating the meta data file in the database failed."@
                &&& final(self)@ == old(self)@
            },
            old(self)@.files.contains_key(path@) && old(self)@.files[path@] == old_meta@ ==> {
                &&& r is Ok
                &&& final(self)@ == old(self)@.with_record(path@, new_meta@)
            },
    {
        proof { use_type_invariant(&*self); }
        let mut t = Tables::new();
        std::mem::swap(&mut t, &mut self.tables);
        let r = t.update(path, old_meta, new_meta);
        self.tables = t;
        r
    }

    /// Removes every file whose entry in the expiry index falls before `now`:
    /// all such entries leave the index and the records of their files are
    /// deleted.  Returns how long after `now` the first remaining entry falls
    /// due, in nanoseconds (`None` when no entry remains).
    pub fn purge(&mut self, now: i128) -> (r: Option<u128>)
        ensures
            final(self)@ == old(self)@.purged(now),
            is_next_wakeup(final(self)@.expires, now, r),
    {
        proof { use_type_invariant(&*self); }
        let mut t = Tables::new();
        std::mem::swap(&mut t, &mut self.tables);
        let r = t.purge(now);
        self.tables = t;
        r
    }

    /// Rebuilds the database from the records found in storage, entering each
    /// file's expiry time in the index.  Two records of one file are refused.
    pub fn load(records: &Vec<(FilePath, MetaDataFile)>) -> (r: ApiResult<Database>)
        ensures
            r is Ok <==> forall|i: int, j: int|
                0 <= i < j < records@.len() ==> #[trigger] records@[i].0@ != #[trigger] records@[j].0@,
            r matches Err(e) ==> e matches ApiError::ResourceExistsError(m) && m@ == "File path exists"@,
            r matches Ok(db) ==> {
                &&& forall|i: int| 0 <= i < records@.len() ==> {
                    &&& db@.files.contains_key(#[trigger] records@[i].0@)
                    &&& db@.files[records@[i].0@] == records@[i].1@
                }
                &&& forall|k: FilePathView| #[trigger] db@.files.contains_key(k) ==> exists|i: int|
                    0 <= i < records@.len() && #[trigger] records@[i].0@ == k
                &&& forall|e: (i128, FilePathView)| #[trigger] db@.expires.contains(e) <==> exists|i: int|
                    0 <= i < records@.len() && e == (#[trigger] records@[i].1.expire_date_time, records@[i].0@)
            },
    {
        match Tables::load(records) {
            Ok(t) => Ok(Database { tables: t }),
            Err(e) => Err(e),
        }
    }

    /// Whether a file is stored.
    pub fn exist(&self, path: &FilePath) -> (r: bool)
        ensures
            r == self@.files.contains_key(path@),
    {
        proof { use_type_invariant(self); }
        self.tables.exist(path)
    }

    /// The record of a file, if it is stored.
    pub fn fetch(&self, path: &FilePath) -> (r: Option<MetaDataFile>)
        ensures
            match r {
                Some(m) => self@.files.contains_key(path@) && m@ == self@.files[path@],
                None => !self@.files.contains_key(path@),
            },
    {
        proof { use_type_invariant(self); }
        self.tables.fetch(path)
    }
}

} // verus!
