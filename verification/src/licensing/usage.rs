//! Usage metering: per-month buckets of per-feature counters.  The
//! registry is an association list keyed by month and feature, with
//! unique keys as its invariant; counters saturate rather than wrap.

use vstd::prelude::*;
use vstd::string::StringExecFns;
use crate::errors::LicensingError;
use crate::text::{dec_of, dec_int_of, i32_to_string, u32_to_string, push_char};

verus! {

/// The first index carrying the key, or `-1` if none.
pub open spec fn assoc_idx<V>(s: Seq<(Seq<char>, V)>, key: Seq<char>) -> int
    decreases s.len(),
{
    if s.len() == 0 {
        -1
    } else if s[0].0 == key {
        0
    } else {
        let t = assoc_idx(s.drop_first(), key);
        if t == -1 {
            -1
        } else {
            t + 1
        }
    }
}

/// No two entries carry the same key.
pub open spec fn assoc_distinct<V>(s: Seq<(Seq<char>, V)>) -> bool {
    forall|k1: int, k2: int| 0 <= k1 < k2 < s.len() ==> s[k1].0 != s[k2].0
}

/// What the first matching index means.
pub proof fn lemma_assoc_props<V>(s: Seq<(Seq<char>, V)>, key: Seq<char>)
    ensures
        -1 <= assoc_idx(s, key) < s.len(),
        assoc_idx(s, key) == -1 ==> forall|k: int| 0 <= k < s.len() ==> s[k].0 != key,
        assoc_idx(s, key) >= 0 ==> {
            let i = assoc_idx(s, key);
            &&& s[i].0 == key
            &&& forall|m: int| 0 <= m < i ==> s[m].0 != key
        },
    decreases s.len(),
{
    if s.len() > 0 && s[0].0 != key {
        let tail = s.drop_first();
        lemma_assoc_props(tail, key);
        let t = assoc_idx(tail, key);
        if t == -1 {
            assert forall|k: int| 0 <= k < s.len() implies s[k].0 != key by {
                if k > 0 {
                    assert(tail[k - 1] == s[k]);
                    assert(tail[k - 1].0 != key);
                }
            }
        } else {
            assert(tail[t] == s[t + 1]);
            assert forall|m: int| 0 <= m < t + 1 implies s[m].0 != key by {
                if m > 0 {
                    assert(tail[m - 1] == s[m]);
                    assert(tail[m - 1].0 != key);
                }
            }
        }
    }
}

/// A found index with no earlier match pins the first matching index.
pub proof fn lemma_assoc_witness<V>(s: Seq<(Seq<char>, V)>, key: Seq<char>, i: int)
    requires
        0 <= i < s.len(),
        s[i].0 == key,
        forall|m: int| 0 <= m < i ==> s[m].0 != key,
    ensures
        assoc_idx(s, key) == i,
    decreases s.len(),
{
    if s[0].0 == key {
        assert(i == 0);
    } else {
        let tail = s.drop_first();
        assert(tail[i - 1] == s[i]);
        assert forall|m: int| 0 <= m < i - 1 implies tail[m].0 != key by {
            assert(tail[m] == s[m + 1]);
        }
        lemma_assoc_witness(tail, key, i - 1);
    }
}

/// The absence of any match pins the index at `-1`.
pub proof fn lemma_assoc_none<V>(s: Seq<(Seq<char>, V)>, key: Seq<char>)
    requires
        forall|m: int| 0 <= m < s.len() ==> s[m].0 != key,
    ensures
        assoc_idx(s, key) == -1,
    decreases s.len(),
{
    if s.len() > 0 {
        let tail = s.drop_first();
        assert forall|m: int| 0 <= m < tail.len() implies tail[m].0 != key by {
            assert(tail[m] == s[m + 1]);
        }
        lemma_assoc_none(tail, key);
    }
}

/// Replacing an entry under its own key leaves every lookup of another
/// key unchanged, and the replaced key's lookup in place.
pub proof fn lemma_assoc_update<V>(s: Seq<(Seq<char>, V)>, i: int, p: (Seq<char>, V), key: Seq<char>)
    requires
        0 <= i < s.len(),
        s[i].0 == p.0,
        assoc_idx(s, p.0) == i,
    ensures
        assoc_idx(s.update(i, p), p.0) == i,
        key != p.0 ==> assoc_idx(s.update(i, p), key) == assoc_idx(s, key),
        key != p.0 && assoc_idx(s, key) >= 0 ==> s.update(i, p)[assoc_idx(s, key)] == s[assoc_idx(s, key)],
{
    let u = s.update(i, p);
    lemma_assoc_props(s, p.0);
    assert forall|m: int| 0 <= m < i implies u[m].0 != p.0 by {
        assert(u[m] == s[m]);
    }
    lemma_assoc_witness(u, p.0, i);
    if key != p.0 {
        lemma_assoc_props(s, key);
        let j = assoc_idx(s, key);
        if j == -1 {
            assert forall|m: int| 0 <= m < u.len() implies u[m].0 != key by {
                if m != i {
                    assert(u[m] == s[m]);
                }
            }
            lemma_assoc_none(u, key);
        } else {
            assert(j != i);
            assert(u[j] == s[j]);
            assert forall|m: int| 0 <= m < j implies u[m].0 != key by {
                if m != i {
                    assert(u[m] == s[m]);
                }
            }
            lemma_assoc_witness(u, key, j);
        }
    }
}

/// Appending an entry under a fresh key leaves every other lookup
/// unchanged and makes the new key's lookup land on the new entry.
pub proof fn lemma_assoc_push<V>(s: Seq<(Seq<char>, V)>, p: (Seq<char>, V), key: Seq<char>)
    requires
        assoc_idx(s, p.0) == -1,
    ensures
        assoc_idx(s.push(p), p.0) == s.len(),
        key != p.0 ==> assoc_idx(s.push(p), key) == assoc_idx(s, key),
        key != p.0 && assoc_idx(s, key) >= 0 ==> s.push(p)[assoc_idx(s, key)] == s[assoc_idx(s, key)],
{
    let u = s.push(p);
    lemma_assoc_props(s, p.0);
    assert forall|m: int| 0 <= m < s.len() implies u[m].0 != p.0 by {
        assert(u[m] == s[m]);
    }
    lemma_assoc_witness(u, p.0, s.len() as int);
    if key != p.0 {
        lemma_assoc_props(s, key);
        let j = assoc_idx(s, key);
        if j == -1 {
            assert forall|m: int| 0 <= m < u.len() implies u[m].0 != key by {
                if m < s.len() {
                    assert(u[m] == s[m]);
                }
            }
            lemma_assoc_none(u, key);
        } else {
            assert(u[j] == s[j]);
            assert forall|m: int| 0 <= m < j implies u[m].0 != key by {
                assert(u[m] == s[m]);
            }
            lemma_assoc_witness(u, key, j);
        }
    }
}

/// One month's counters, one per feature key.
#[derive(Debug)]
pub struct UsageBucket {
    pub counts: Vec<(String, u32)>,
}

impl View for UsageBucket {
    type V = Seq<(Seq<char>, u32)>;

    open spec fn view(&self) -> Seq<(Seq<char>, u32)> {
        self.counts.deep_view()
    }
}

impl DeepView for UsageBucket {
    type V = Seq<(Seq<char>, u32)>;

    open spec fn deep_view(&self) -> Seq<(Seq<char>, u32)> {
        self.view()
    }
}

/// The usage registry: per-month buckets of per-feature counters.
#[derive(Debug)]
pub struct UsageStore {
    pub buckets: Vec<(String, UsageBucket)>,
    pub last_sync_ms: Option<u64>,
}

/// Addition that sticks at the counter's ceiling.
pub open spec fn sat_add(a: u32, b: u32) -> u32 {
    if a + b > u32::MAX {
        u32::MAX
    } else {
        (a + b) as u32
    }
}

/// The counters of one month, an empty bucket where none exists.
pub open spec fn bucket_counts(sv: Seq<(Seq<char>, Seq<(Seq<char>, u32)>)>, month: Seq<char>) -> Seq<(Seq<char>, u32)> {
    let i = assoc_idx(sv, month);
    if i == -1 {
        Seq::empty()
    } else {
        sv[i].1
    }
}

/// One counter's value, zero where it was never incremented.
pub open spec fn count_in(cs: Seq<(Seq<char>, u32)>, key: Seq<char>) -> u32 {
    let i = assoc_idx(cs, key);
    if i == -1 {
        0
    } else {
        cs[i].1
    }
}

/// The counter of one feature in one month.
pub open spec fn count_of(sv: Seq<(Seq<char>, Seq<(Seq<char>, u32)>)>, month: Seq<char>, key: Seq<char>) -> u32 {
    count_in(bucket_counts(sv, month), key)
}

fn find_pair_u32(cs: &Vec<(String, u32)>, key: &str) -> (r: Option<usize>)
    ensures
        match r {
            Some(i) => i < cs@.len() && i == assoc_idx(cs.deep_view(), key@),
            None => assoc_idx(cs.deep_view(), key@) == -1,
        },
{
    let mut i: usize = 0;
    while i < cs.len()
        invariant
            i <= cs@.len(),
            forall|m: int| 0 <= m < i ==> cs.deep_view()[m].0 != key@,
        decreases cs@.len() - i,
    {
        if cs[i].0 == key.to_owned() {
            proof {
                assert(cs.deep_view()[i as int] == cs@[i as int].deep_view());
                lemma_assoc_witness(cs.deep_view(), key@, i as int);
            }
            return Some(i);
        }
        proof {
            assert(cs.deep_view()[i as int] == cs@[i as int].deep_view());
        }
        i = i + 1;
    }
    proof {
        lemma_assoc_none(cs.deep_view(), key@);
    }
    None
}

impl UsageStore {
    /// The registry's mathematical value.
    pub open spec fn view_of(&self) -> Seq<(Seq<char>, Seq<(Seq<char>, u32)>)> {
        self.buckets.deep_view()
    }

    /// The registry's invariant: months unique, and each month's
    /// feature keys unique.
    pub open spec fn wf(&self) -> bool {
        &&& assoc_distinct(self.view_of())
        &&& forall|i: int| 0 <= i < self.view_of().len() ==> assoc_distinct(#[trigger] self.view_of()[i].1)
    }

    /// An empty registry that has never been reconciled.
    pub fn new() -> (r: Self)
        ensures
            r.view_of() == Seq::<(Seq<char>, Seq<(Seq<char>, u32)>)>::empty(),
            r.last_sync_ms is None,
            r.wf(),
    {
        let r = UsageStore { buckets: Vec::new(), last_sync_ms: Option::None };
        proof {
            assert(r.view_of() =~= Seq::<(Seq<char>, Seq<(Seq<char>, u32)>)>::empty());
        }
        r
    }

    fn find_bucket(&self, month_key: &str) -> (r: Option<usize>)
        ensures
            match r {
                Some(i) => i < self.buckets@.len() && i == assoc_idx(self.view_of(), month_key@),
                None => assoc_idx(self.view_of(), month_key@) == -1,
            },
    {
        let mut i: usize = 0;
        while i < self.buckets.len()
            invariant
                i <= self.buckets@.len(),
                forall|m: int| 0 <= m < i ==> self.view_of()[m].0 != month_key@,
            decreases self.buckets@.len() - i,
        {
            if self.buckets[i].0 == month_key.to_owned() {
                proof {
                    assert(self.view_of()[i as int] == self.buckets@[i as int].deep_view());
                    lemma_assoc_witness(self.view_of(), month_key@, i as int);
                }
                return Some(i);
            }
            proof {
                assert(self.view_of()[i as int] == self.buckets@[i as int].deep_view());
            }
            i = i + 1;
        }
        proof {
            lemma_assoc_none(self.view_of(), month_key@);
        }
        None
    }

    /// Reads one counter.
    pub fn get_count(&self, month_key: &str, key: &str) -> (r: u32)
        ensures
            r == count_of(self.view_of(), month_key@, key@),
    {
        match self.find_bucket(month_key) {
            Option::None => 0,
            Option::Some(bi) => {
                proof {
                    assert(self.view_of()[bi as int] == self.buckets@[bi as int].deep_view());
                }
                match find_pair_u32(&self.buckets[bi].1.counts, key) {
                    Option::None => 0,
                    Option::Some(ki) => {
                        proof {
                            let cs = self.buckets@[bi as int].1.view();
                            assert(cs[ki as int] == self.buckets@[bi as int].1.counts@[ki as int].deep_view());
                        }
                        self.buckets[bi].1.counts[ki].1
                    },
                }
            },
        }
    }

    /// Refuses an increment that would take a metered feature over its
    /// monthly limit; counters saturate, and so does the probe.
    pub fn enforce_limit(&self, month_key: &str, key: &str, limit: u32, amount: u32) -> (r: Result<(), LicensingError>)
        ensures
            r is Ok <==> sat_add(count_of(self.view_of(), month_key@, key@), amount) <= limit,
            r matches Err(e) ==> e is UsageLimitExceeded,
    {
        let current = self.get_count(month_key, key);
        let probe = if current > u32::MAX - amount {
            u32::MAX
        } else {
            current + amount
        };
        if probe > limit {
            return Err(LicensingError::UsageLimitExceeded);
        }
        Ok(())
    }

    /// Adds to one counter, saturating at the counter's ceiling; every
    /// other counter, and the reconciliation time, keep their values.
    #[verifier::rlimit(60)]
    #[verifier::spinoff_prover]
    pub fn increment(&mut self, month_key: &str, key: &str, amount: u32)
        requires
            old(self).wf(),
        ensures
            final(self).wf(),
            count_of(final(self).view_of(), month_key@, key@)
                == sat_add(count_of(old(self).view_of(), month_key@, key@), amount),
            forall|m2: Seq<char>, k2: Seq<char>| !(m2 == month_key@ && k2 == key@)
                ==> #[trigger] count_of(final(self).view_of(), m2, k2)
                    == count_of(old(self).view_of(), m2, k2),
            final(self).last_sync_ms == old(self).last_sync_ms,
    {
        let ghost pre = self.view_of();
        match self.find_bucket(month_key) {
            Option::None => {
                let mut counts: Vec<(String, u32)> = Vec::new();
                counts.push((key.to_owned(), amount));
                let ghost centry = counts.deep_view();
                proof {
                    assert(centry =~= Seq::<(Seq<char>, u32)>::empty().push((key@, amount)));
                }
                let pair = (month_key.to_owned(), UsageBucket { counts });
                let ghost pview = (month_key@, centry);
                self.buckets.push(pair);
                proof {
                    assert forall|k: int| 0 <= k < pre.len() + 1
                        implies self.view_of()[k] == pre.push(pview)[k] by {
                        if k < pre.len() {
                            assert(self.view_of()[k] == self.buckets@[k].deep_view());
                            assert(self.buckets@[k] == old(self).buckets@[k]);
                        } else {
                            assert(self.view_of()[k] == self.buckets@[k].deep_view());
                        }
                    }
                    assert(self.view_of() =~= pre.push(pview));
                    lemma_assoc_push(pre, pview, month_key@);
                    assert forall|m2: Seq<char>, k2: Seq<char>| !(m2 == month_key@ && k2 == key@)
                        implies #[trigger] count_of(self.view_of(), m2, k2) == count_of(pre, m2, k2) by {
                        lemma_assoc_push(pre, pview, m2);
                        if m2 == month_key@ {
                            assert(k2 != key@);
                            assert(assoc_idx(self.view_of(), m2) == pre.len());
                            assert(self.view_of()[pre.len() as int] == pview);
                            assert(bucket_counts(self.view_of(), m2) == centry);
                            assert(centry[0] == (key@, amount));
                            lemma_assoc_none(centry, k2);
                            assert(count_in(centry, k2) == 0);
                            assert(assoc_idx(pre, m2) == -1);
                            assert(count_of(pre, m2, k2) == 0);
                        } else {
                            lemma_assoc_props(pre, m2);
                            assert(assoc_idx(self.view_of(), m2) == assoc_idx(pre, m2));
                            let j = assoc_idx(pre, m2);
                            if j >= 0 {
                                assert(self.view_of()[j] == pre[j]);
                            }
                            assert(bucket_counts(self.view_of(), m2) == bucket_counts(pre, m2));
                        }
                    }
                    assert forall|k1: int, k2: int| 0 <= k1 < k2 < self.view_of().len()
                        implies self.view_of()[k1].0 != self.view_of()[k2].0 by {
                        lemma_assoc_props(pre, month_key@);
                        if k2 < pre.len() {
                            assert(pre[k1].0 != pre[k2].0);
                        } else {
                            assert(pre[k1].0 != month_key@);
                        }
                    }
                    assert forall|i: int| 0 <= i < self.view_of().len()
                        implies assoc_distinct(#[trigger] self.view_of()[i].1) by {
                        if i < pre.len() {
                            assert(assoc_distinct(pre[i].1));
                        } else {
                            assert(self.view_of()[i].1 =~= centry);
                        }
                    }
                }
            },
            Option::Some(bi) => {
                proof {
                    assert(pre[bi as int] == self.buckets@[bi as int].deep_view());
                }
                let month_owned = self.buckets[bi].0.clone();
                let ghost oldcounts = self.buckets@[bi as int].1.view();
                let mut counts: Vec<(String, u32)> = Vec::new();
                let src = &self.buckets[bi].1.counts;
                let mut t: usize = 0;
                while t < src.len()
                    invariant
                        t <= src@.len(),
                        counts@.len() == t,
                        counts.deep_view() == src.deep_view().subrange(0, t as int),
                    decreases src@.len() - t,
                {
                    let ghost cpre_vec = counts@;
                    let ghost cpre_dv = counts.deep_view();
                    counts.push((src[t].0.clone(), src[t].1));
                    proof {
                        assert forall|k: int| 0 <= k < t + 1
                            implies counts.deep_view()[k] == src.deep_view().subrange(0, t + 1 as int)[k] by {
                            assert(counts.deep_view()[k] == counts@[k].deep_view());
                            if k < t {
                                assert(counts@[k] == cpre_vec[k]);
                                assert(cpre_dv[k] == cpre_vec[k].deep_view());
                            } else {
                                assert(src.deep_view()[k] == src@[k].deep_view());
                            }
                        }
                        assert(counts.deep_view() =~= src.deep_view().subrange(0, t + 1 as int));
                    }
                    t = t + 1;
                }
                proof {
                    assert(src.deep_view().subrange(0, src.deep_view().len() as int) =~= src.deep_view());
                    assert(counts.deep_view() == oldcounts);
                }
                match find_pair_u32(&counts, key) {
                    Option::Some(ki) => {
                        let cur = counts[ki].1;
                        let bumped = if cur > u32::MAX - amount {
                            u32::MAX
                        } else {
                            cur + amount
                        };
                        let ghost centry = (key@, bumped);
                        let fresh_key = counts[ki].0.clone();
                        proof {
                            lemma_assoc_props(oldcounts, key@);
                            assert(oldcounts[ki as int] == counts@[ki as int].deep_view());
                        }
                        counts.set(ki, (fresh_key, bumped));
                        proof {
                            assert forall|k: int| 0 <= k < oldcounts.len()
                                implies counts.deep_view()[k] == oldcounts.update(ki as int, centry)[k] by {
                                assert(counts.deep_view()[k] == counts@[k].deep_view());
                            }
                            assert(counts.deep_view() =~= oldcounts.update(ki as int, centry));
                            lemma_assoc_update(oldcounts, ki as int, centry, key@);
                        }
                    },
                    Option::None => {
                        let ghost centry = (key@, amount);
                        let ghost cpre = counts.deep_view();
                        counts.push((key.to_owned(), amount));
                        proof {
                            assert forall|k: int| 0 <= k < cpre.len() + 1
                                implies counts.deep_view()[k] == cpre.push(centry)[k] by {
                                assert(counts.deep_view()[k] == counts@[k].deep_view());
                            }
                            assert(counts.deep_view() =~= cpre.push(centry));
                            lemma_assoc_push(oldcounts, centry, key@);
                        }
                    },
                }
                let ghost newcounts = counts.deep_view();
                let ghost bentry = (month_key@, newcounts);
                proof {
                    lemma_assoc_props(pre, month_key@);
                    assert(pre[bi as int].0 == month_key@);
                }
                self.buckets.set(bi, (month_owned, UsageBucket { counts }));
                proof {
                    assert forall|k: int| 0 <= k < pre.len()
                        implies self.view_of()[k] == pre.update(bi as int, bentry)[k] by {
                        assert(self.view_of()[k] == self.buckets@[k].deep_view());
                    }
                    assert(self.view_of() =~= pre.update(bi as int, bentry));
                    lemma_assoc_update(pre, bi as int, bentry, month_key@);
                    assert(count_of(self.view_of(), month_key@, key@)
                        == sat_add(count_of(pre, month_key@, key@), amount)) by {
                        lemma_assoc_props(oldcounts, key@);
                        lemma_assoc_props(newcounts, key@);
                    }
                    assert forall|m2: Seq<char>, k2: Seq<char>| !(m2 == month_key@ && k2 == key@)
                        implies #[trigger] count_of(self.view_of(), m2, k2) == count_of(pre, m2, k2) by {
                        lemma_assoc_update(pre, bi as int, bentry, m2);
                        if m2 == month_key@ {
                            assert(k2 != key@);
                            assert(assoc_idx(self.view_of(), m2) == bi as int);
                            assert(self.view_of()[bi as int] == bentry);
                            assert(bucket_counts(self.view_of(), m2) == newcounts);
                            assert(bucket_counts(pre, m2) == oldcounts);
                            let t = assoc_idx(oldcounts, key@);
                            lemma_assoc_props(oldcounts, key@);
                            lemma_assoc_props(oldcounts, k2);
                            lemma_assoc_props(newcounts, k2);
                            if t >= 0 {
                                assert(newcounts == oldcounts.update(t, (key@, newcounts[t].1)));
                                lemma_assoc_update(oldcounts, t, (key@, newcounts[t].1), k2);
                                assert(count_in(newcounts, k2) == count_in(oldcounts, k2));
                            } else {
                                assert(newcounts == oldcounts.push((key@, amount)));
                                lemma_assoc_push(oldcounts, (key@, amount), k2);
                                assert(count_in(newcounts, k2) == count_in(oldcounts, k2));
                            }
                        } else {
                            lemma_assoc_props(pre, m2);
                            assert(assoc_idx(self.view_of(), m2) == assoc_idx(pre, m2));
                            if assoc_idx(pre, m2) >= 0 {
                                assert(self.view_of()[assoc_idx(pre, m2)] == pre[assoc_idx(pre, m2)]);
                            }
                            assert(bucket_counts(self.view_of(), m2) == bucket_counts(pre, m2));
                        }
                    }
                    assert forall|k1: int, k2: int| 0 <= k1 < k2 < self.view_of().len()
                        implies self.view_of()[k1].0 != self.view_of()[k2].0 by {
                        assert(pre[k1].0 != pre[k2].0);
                    }
                    assert forall|i: int| 0 <= i < self.view_of().len()
                        implies assoc_distinct(#[trigger] self.view_of()[i].1) by {
                        if i != bi as int {
                            assert(assoc_distinct(pre[i].1));
                        } else {
                            assert(assoc_distinct(oldcounts));
                            assert forall|a: int, b: int| 0 <= a < b < newcounts.len()
                                implies newcounts[a].0 != newcounts[b].0 by {
                                lemma_assoc_props(oldcounts, key@);
                                if assoc_idx(oldcounts, key@) >= 0 {
                                    assert(oldcounts[a].0 != oldcounts[b].0);
                                } else {
                                    if b < oldcounts.len() {
                                        assert(oldcounts[a].0 != oldcounts[b].0);
                                    } else {
                                        assert(oldcounts[a].0 != key@);
                                    }
                                }
                            }
                        }
                    }
                }
            },
        }
    }

    /// Records a completed reconciliation.
    pub fn apply_sync(&mut self, now_ms: u64)
        ensures
            final(self).view_of() == old(self).view_of(),
            final(self).last_sync_ms == Option::Some(now_ms),
    {
        self.last_sync_ms = Option::Some(now_ms);
    }
}

/// The bucket key of a month: the year, a dash, and the two-digit
/// month.
pub open spec fn month_key_of(year: int, month: u32) -> Seq<char> {
    dec_int_of(year) + seq!['-'] + (if month < 10 {
        seq!['0'] + dec_of(month as nat)
    } else {
        dec_of(month as nat)
    })
}

/// Renders the bucket key of a month.
pub fn month_key(year: i32, month: u32) -> (r: String)
    ensures
        r@ == month_key_of(year as int, month),
{
    let mut r = i32_to_string(year);
    push_char(&mut r, '-');
    if month < 10 {
        push_char(&mut r, '0');
    }
    let digits = u32_to_string(month);
    r.append(digits.as_str());
    proof {
        assert(r@ =~= month_key_of(year as int, month));
    }
    r
}

} // verus!
