//! The job store: the authoritative registry of job records, keyed by
//! id with overwrite-on-insert semantics.  The store itself is the
//! in-memory truth; the caller persists a full snapshot (`list`) after
//! every mutation and rebuilds the store from it (`restore`) at startup.

use vstd::prelude::*;
use vstd::string::StringExecFns;
use crate::errors::PdfEngineError;
use crate::model::{JobView, PdfJob};

verus! {

/// The first index of a record with the given id, or `-1` if none.
pub open spec fn idx_of(rs: Seq<JobView>, id: Seq<char>) -> int
    decreases rs.len(),
{
    if rs.len() == 0 {
        -1
    } else if rs[0].id == id {
        0
    } else {
        let t = idx_of(rs.drop_first(), id);
        if t == -1 {
            -1
        } else {
            t + 1
        }
    }
}

/// Whether some record carries the given id.
pub open spec fn has_id(rs: Seq<JobView>, id: Seq<char>) -> bool {
    idx_of(rs, id) >= 0
}

/// No two records carry the same id.
pub open spec fn distinct_ids(rs: Seq<JobView>) -> bool {
    forall|k1: int, k2: int| 0 <= k1 < k2 < rs.len() ==> rs[k1].id != rs[k2].id
}

/// What the first matching index means.
pub proof fn lemma_idx_of_props(rs: Seq<JobView>, id: Seq<char>)
    ensures
        -1 <= idx_of(rs, id) < rs.len(),
        idx_of(rs, id) == -1 ==> forall|k: int| 0 <= k < rs.len() ==> rs[k].id != id,
        idx_of(rs, id) >= 0 ==> {
            let i = idx_of(rs, id);
            &&& rs[i].id == id
            &&& forall|m: int| 0 <= m < i ==> rs[m].id != id
        },
    decreases rs.len(),
{
    if rs.len() > 0 && rs[0].id != id {
        let tail = rs.drop_first();
        lemma_idx_of_props(tail, id);
        let t = idx_of(tail, id);
        if t == -1 {
            assert forall|k: int| 0 <= k < rs.len() implies rs[k].id != id by {
                if k > 0 {
                    assert(tail[k - 1] == rs[k]);
                    assert(tail[k - 1].id != id);
                }
            }
        } else {
            assert(tail[t] == rs[t + 1]);
            assert forall|m: int| 0 <= m < t + 1 implies rs[m].id != id by {
                if m > 0 {
                    assert(tail[m - 1] == rs[m]);
                    assert(tail[m - 1].id != id);
                }
            }
        }
    }
}

/// A found index together with the absence of earlier matches pins the
/// first matching index.
pub proof fn lemma_idx_of_witness(rs: Seq<JobView>, id: Seq<char>, i: int)
    requires
        0 <= i < rs.len(),
        rs[i].id == id,
        forall|m: int| 0 <= m < i ==> rs[m].id != id,
    ensures
        idx_of(rs, id) == i,
    decreases rs.len(),
{
    if rs[0].id == id {
        assert(i == 0);
    } else {
        assert(rs.drop_first()[i - 1] == rs[i]);
        assert forall|m: int| 0 <= m < i - 1 implies rs.drop_first()[m].id != id by {
            assert(rs.drop_first()[m] == rs[m + 1]);
        }
        lemma_idx_of_witness(rs.drop_first(), id, i - 1);
    }
}

/// The absence of any match pins the index at `-1`.
pub proof fn lemma_idx_of_none(rs: Seq<JobView>, id: Seq<char>)
    requires
        forall|m: int| 0 <= m < rs.len() ==> rs[m].id != id,
    ensures
        idx_of(rs, id) == -1,
    decreases rs.len(),
{
    if rs.len() > 0 {
        assert forall|m: int| 0 <= m < rs.len() - 1 implies rs.drop_first()[m].id != id by {
            assert(rs.drop_first()[m] == rs[m + 1]);
        }
        lemma_idx_of_none(rs.drop_first(), id);
    }
}

/// How an insert or update changes the registry: an unknown id is
/// appended, a known id is overwritten in place.
pub open spec fn spec_upsert(rs: Seq<JobView>, j: JobView) -> Seq<JobView> {
    if has_id(rs, j.id) {
        rs.update(idx_of(rs, j.id), j)
    } else {
        rs.push(j)
    }
}

/// A snapshot is accepted by `restore` exactly when its ids are distinct.
pub open spec fn restore_accepts(rs: Seq<JobView>) -> bool {
    distinct_ids(rs)
}

/// The durable registry of all job records.
#[derive(Debug)]
pub struct JobStore {
    jobs: Vec<PdfJob>,
    storage_path: String,
}

impl JobStore {
    /// The records of the store, in insertion order.
    pub closed spec fn records(&self) -> Seq<JobView> {
        self.jobs.deep_view()
    }

    /// The snapshot file this store is persisted to.
    pub closed spec fn path(&self) -> Seq<char> {
        self.storage_path@
    }

    /// The store's invariant: ids are unique.
    pub open spec fn wf(&self) -> bool {
        distinct_ids(self.records())
    }

    /// Builds an empty store bound to a snapshot file.
    pub fn new(storage_path: String) -> (r: Self)
        ensures
            r.records() == Seq::<JobView>::empty(),
            r.path() == storage_path@,
            r.wf(),
    {
        let r = JobStore { jobs: Vec::new(), storage_path };
        proof {
            assert(r.records() =~= Seq::<JobView>::empty());
        }
        r
    }

    /// The snapshot file, for the caller that persists snapshots.
    pub fn storage_path(&self) -> (r: &str)
        ensures
            r@ == self.path(),
    {
        self.storage_path.as_str()
    }

    fn find(&self, id: &str) -> (r: Option<usize>)
        ensures
            match r {
                Some(i) => i == idx_of(self.records(), id@) && i < self.jobs@.len(),
                None => idx_of(self.records(), id@) == -1,
            },
    {
        let mut i: usize = 0;
        while i < self.jobs.len()
            invariant
                i <= self.jobs@.len(),
                forall|m: int| 0 <= m < i ==> self.records()[m].id != id@,
            decreases self.jobs@.len() - i,
        {
            if self.jobs[i].id == id.to_owned() {
                proof {
                    lemma_idx_of_witness(self.records(), id@, i as int);
                }
                return Some(i);
            }
            i = i + 1;
        }
        proof {
            lemma_idx_of_none(self.records(), id@);
        }
        None
    }

    /// Whether a record exists under the given id.
    pub fn contains_id(&self, id: &str) -> (r: bool)
        ensures
            r == has_id(self.records(), id@),
    {
        self.find(id).is_some()
    }

    /// Registers a record, overwriting any record with the same id.
    pub fn insert(&mut self, job: PdfJob) -> (r: Result<(), PdfEngineError>)
        requires
            old(self).wf(),
        ensures
            r is Ok,
            final(self).records() == spec_upsert(old(self).records(), job@),
            final(self).path() == old(self).path(),
            final(self).wf(),
    {
        let ghost rs = self.records();
        proof {
            lemma_idx_of_props(rs, job@.id);
        }
        match self.find(job.id.as_str()) {
            Option::Some(i) => {
                self.jobs.set(i, job);
                proof {
                    assert(final(self).records() =~= rs.update(idx_of(rs, job@.id), job@));
                    assert forall|k1: int, k2: int|
                        0 <= k1 < k2 < final(self).records().len()
                        implies final(self).records()[k1].id != final(self).records()[k2].id by {
                        assert(rs[k1].id != rs[k2].id);
                    }
                }
            },
            Option::None => {
                self.jobs.push(job);
                proof {
                    assert(final(self).records() =~= rs.push(job@));
                    assert forall|k1: int, k2: int|
                        0 <= k1 < k2 < final(self).records().len()
                        implies final(self).records()[k1].id != final(self).records()[k2].id by {
                        if k2 < rs.len() {
                            assert(rs[k1].id != rs[k2].id);
                        } else {
                            assert(rs[k1].id != job@.id);
                        }
                    }
                }
            },
        }
        Ok(())
    }

    /// Updates a record; identical to `insert`, records are keyed by id.
    pub fn update(&mut self, job: PdfJob) -> (r: Result<(), PdfEngineError>)
        requires
            old(self).wf(),
        ensures
            r is Ok,
            final(self).records() == spec_upsert(old(self).records(), job@),
            final(self).path() == old(self).path(),
            final(self).wf(),
    {
        self.insert(job)
    }

    /// Looks a record up by id.
    pub fn get(&self, id: &str) -> (r: Result<PdfJob, PdfEngineError>)
        ensures
            has_id(self.records(), id@) ==> (r matches Ok(j)
                && j@ == self.records()[idx_of(self.records(), id@)]),
            !has_id(self.records(), id@) ==> (r matches Err(e) && e is JobNotFound),
    {
        match self.find(id) {
            Option::Some(i) => Ok(self.jobs[i].clone()),
            Option::None => Err(PdfEngineError::JobNotFound),
        }
    }

    /// The full snapshot: every record, in insertion order.
    pub fn list(&self) -> (r: Vec<PdfJob>)
        ensures
            r.deep_view() == self.records(),
    {
        let mut r: Vec<PdfJob> = Vec::new();
        let mut i: usize = 0;
        while i < self.jobs.len()
            invariant
                i <= self.jobs@.len(),
                r@.len() == i,
                r.deep_view() == self.records().subrange(0, i as int),
            decreases self.jobs@.len() - i,
        {
            let ghost rd = r.deep_view();
            let j = self.jobs[i].clone();
            r.push(j);
            proof {
                assert forall|k: int| 0 <= k < i + 1
                    implies r.deep_view()[k] == self.records().subrange(0, i + 1 as int)[k] by {
                    if k < i {
                        assert(r.deep_view()[k] == rd[k]);
                        assert(rd[k] == self.records().subrange(0, i as int)[k]);
                    } else {
                        assert(r.deep_view()[k] == r@[k].deep_view());
                    }
                }
                assert(r.deep_view() =~= self.records().subrange(0, i + 1 as int));
            }
            i = i + 1;
        }
        proof {
            assert(self.records().subrange(0, self.records().len() as int) =~= self.records());
        }
        r
    }

    /// Rebuilds a store from a persisted snapshot.  A snapshot carrying
    /// two records under one id is corrupt and is refused, so that no
    /// job is silently dropped.
    pub fn restore(storage_path: String, records: Vec<PdfJob>) -> (r: Result<Self, PdfEngineError>)
        ensures
            r is Ok <==> restore_accepts(records.deep_view()),
            r matches Ok(s) ==> {
                &&& s.records() == records.deep_view()
                &&& s.path() == storage_path@
                &&& s.wf()
            },
            r matches Err(e) ==> e matches PdfEngineError::Serialization(m)
                && m@ == "duplicate job id in snapshot"@,
    {
        let n = records.len();
        let mut i: usize = 0;
        while i < n
            invariant
                i <= n == records@.len(),
                forall|k1: int, k2: int| 0 <= k1 < k2 < i ==> records.deep_view()[k1].id != records.deep_view()[k2].id,
            decreases n - i,
        {
            let mut m: usize = 0;
            while m < i
                invariant
                    m <= i < n == records@.len(),
                    forall|k: int| 0 <= k < m ==> records.deep_view()[k].id != records.deep_view()[i as int].id,
                decreases i - m,
            {
                if records[m].id == records[i].id {
                    proof {
                        assert(records.deep_view()[m as int].id == records.deep_view()[i as int].id);
                    }
                    return Err(PdfEngineError::Serialization(
                        String::from_str("duplicate job id in snapshot"),
                    ));
                }
                m = m + 1;
            }
            proof {
                assert forall|k1: int, k2: int| 0 <= k1 < k2 < i + 1
                    implies records.deep_view()[k1].id != records.deep_view()[k2].id by {
                    if k2 < i {
                        assert(records.deep_view()[k1].id != records.deep_view()[k2].id);
                    }
                }
            }
            i = i + 1;
        }
        Ok(JobStore { jobs: records, storage_path })
    }
}

/// A store snapshot round-trips: the records listed out of a
/// well-formed store are accepted by `restore`, which (by `restore`'s
/// contract) rebuilds exactly those records.  Together with `list`'s
/// contract this says `list` before a restart equals `list` after a
/// reload of the snapshot.
pub proof fn lemma_snapshot_round_trip(s: JobStore)
    requires
        s.wf(),
    ensures
        restore_accepts(s.records()),
{
}

} // verus!
