//! The article cache: a slug-keyed store of article records with a
//! per-slug access counter, modelled as two mathematical maps that are
//! kept in step by construction (one backing table holds both).
//!
//! Counters saturate at `u64::MAX` instead of wrapping; below that bound
//! every hit and every insertion raises the slug's counter by exactly one.

use vstd::prelude::*;
use crate::record::{ArticleRecord, ArticleView};

verus! {

/// The slug-keyed record store. One backing vector holds each slug's
/// record and counter side by side, so a single operation can never leave
/// the two out of step: a record is present exactly when its counter is.
pub struct Cache {
    slots: Vec<(ArticleRecord, u64)>,
}

/// No two slots share a slug, every stored record is well formed and is
/// keyed by its own slug, and every counter is at least one.
spec fn slots_wf(s: Seq<(ArticleRecord, u64)>) -> bool {
    &&& forall|i: int, j: int|
        0 <= i < j < s.len() ==> (#[trigger] s[i]).0.slug@ != (#[trigger] s[j]).0.slug@
    &&& forall|i: int| 0 <= i < s.len() ==> (#[trigger] s[i]).0.wf() && s[i].1 >= 1
}

/// The record map the slots denote.
spec fn records_of(s: Seq<(ArticleRecord, u64)>) -> Map<Seq<char>, ArticleView>
    decreases s.len(),
{
    if s.len() == 0 {
        Map::empty()
    } else {
        records_of(s.drop_last()).insert(s.last().0.slug@, s.last().0@)
    }
}

/// The counter map the slots denote.
spec fn counts_of(s: Seq<(ArticleRecord, u64)>) -> Map<Seq<char>, u64>
    decreases s.len(),
{
    if s.len() == 0 {
        Map::empty()
    } else {
        counts_of(s.drop_last()).insert(s.last().0.slug@, s.last().1)
    }
}

/// A slug is in either map exactly when some slot carries it, and under
/// `slots_wf` each slot's record and counter are the map entries for its
/// slug.
proof fn lemma_maps_of(s: Seq<(ArticleRecord, u64)>)
    ensures
        forall|k: Seq<char>|
            #[trigger] records_of(s).contains_key(k) <==> exists|i: int|
                0 <= i < s.len() && (#[trigger] s[i]).0.slug@ == k,
        forall|k: Seq<char>|
            #[trigger] counts_of(s).contains_key(k) <==> exists|i: int|
                0 <= i < s.len() && (#[trigger] s[i]).0.slug@ == k,
        slots_wf(s) ==> forall|i: int|
            0 <= i < s.len() ==> records_of(s)[(#[trigger] s[i]).0.slug@] == s[i].0@ && counts_of(
                s,
            )[s[i].0.slug@] == s[i].1,
    decreases s.len(),
{
    if s.len() > 0 {
        lemma_maps_of(s.drop_last());
        assert(forall|i: int| 0 <= i < s.len() - 1 ==> s.drop_last()[i] == s[i]);
        let last = s.last();
        assert forall|k: Seq<char>| #[trigger] records_of(s).contains_key(k) implies exists|i: int|
            0 <= i < s.len() && (#[trigger] s[i]).0.slug@ == k by {
            if k == last.0.slug@ {
                assert(s[s.len() - 1].0.slug@ == k);
            } else {
                assert(records_of(s.drop_last()).contains_key(k));
                let i = choose|i: int|
                    0 <= i < s.drop_last().len() && (#[trigger] s.drop_last()[i]).0.slug@ == k;
                assert(s[i].0.slug@ == k);
            }
        }
        assert forall|k: Seq<char>| (exists|i: int|
            0 <= i < s.len() && (#[trigger] s[i]).0.slug@ == k) implies #[trigger] records_of(
            s,
        ).contains_key(k) by {
            let i = choose|i: int| 0 <= i < s.len() && (#[trigger] s[i]).0.slug@ == k;
            if i < s.len() - 1 {
                assert(s.drop_last()[i].0.slug@ == k);
                assert(records_of(s.drop_last()).contains_key(k));
            }
        }
        assert forall|k: Seq<char>| #[trigger] counts_of(s).contains_key(k) implies exists|i: int|
            0 <= i < s.len() && (#[trigger] s[i]).0.slug@ == k by {
            if k == last.0.slug@ {
                assert(s[s.len() - 1].0.slug@ == k);
            } else {
                assert(counts_of(s.drop_last()).contains_key(k));
                let i = choose|i: int|
                    0 <= i < s.drop_last().len() && (#[trigger] s.drop_last()[i]).0.slug@ == k;
                assert(s[i].0.slug@ == k);
            }
        }
        assert forall|k: Seq<char>| (exists|i: int|
            0 <= i < s.len() && (#[trigger] s[i]).0.slug@ == k) implies #[trigger] counts_of(
            s,
        ).contains_key(k) by {
            let i = choose|i: int| 0 <= i < s.len() && (#[trigger] s[i]).0.slug@ == k;
            if i < s.len() - 1 {
                assert(s.drop_last()[i].0.slug@ == k);
                assert(counts_of(s.drop_last()).contains_key(k));
            }
        }
        if slots_wf(s) {
            assert(slots_wf(s.drop_last()));
            assert forall|i: int| 0 <= i < s.len() implies records_of(s)[(#[trigger] s[i]).0.slug@]
                == s[i].0@ && counts_of(s)[s[i].0.slug@] == s[i].1 by {
                if i < s.len() - 1 {
                    assert(s.drop_last()[i] == s[i]);
                    assert(s[i].0.slug@ != s.last().0.slug@);
                }
            }
        }
    }
}

/// Replacing slot `i` by a pair for the same slug rewrites exactly that
/// slug's entries in both maps.
proof fn lemma_maps_of_update(s: Seq<(ArticleRecord, u64)>, i: int, rec: ArticleRecord, c: u64)
    requires
        0 <= i < s.len(),
        rec.slug@ == s[i].0.slug@,
        forall|j: int| 0 <= j < s.len() && j != i ==> (#[trigger] s[j]).0.slug@ != s[i].0.slug@,
    ensures
        records_of(s.update(i, (rec, c))) == records_of(s).insert(rec.slug@, rec@),
        counts_of(s.update(i, (rec, c))) == counts_of(s).insert(rec.slug@, c),
    decreases s.len(),
{
    let t = s.update(i, (rec, c));
    if i == s.len() - 1 {
        assert(t.drop_last() =~= s.drop_last());
        assert(records_of(t) =~= records_of(s).insert(rec.slug@, rec@));
        assert(counts_of(t) =~= counts_of(s).insert(rec.slug@, c));
    } else {
        assert(t.drop_last() =~= s.drop_last().update(i, (rec, c)));
        assert(forall|j: int| 0 <= j < s.len() - 1 ==> s.drop_last()[j] == s[j]);
        lemma_maps_of_update(s.drop_last(), i, rec, c);
        assert(t.last() == s.last());
        assert(rec.slug@ != s.last().0.slug@);
        assert(records_of(t) =~= records_of(s).insert(rec.slug@, rec@));
        assert(counts_of(t) =~= counts_of(s).insert(rec.slug@, c));
    }
}

/// Appending a slot adds exactly its slug's entries to both maps.
proof fn lemma_maps_of_push(s: Seq<(ArticleRecord, u64)>, rec: ArticleRecord, c: u64)
    ensures
        records_of(s.push((rec, c))) == records_of(s).insert(rec.slug@, rec@),
        counts_of(s.push((rec, c))) == counts_of(s).insert(rec.slug@, c),
{
    assert(s.push((rec, c)).drop_last() =~= s);
    assert(s.push((rec, c)).last() == (rec, c));
}

/// Saturating increment: one more, capped at `u64::MAX`.
pub open spec fn sat_inc(c: u64) -> u64 {
    if c < u64::MAX {
        (c + 1) as u64
    } else {
        c
    }
}

/// The counter an insertion for `slug` leaves behind: one more than
/// before, or one where the slug was absent.
pub open spec fn next_count(pre: Cache, slug: Seq<char>) -> u64 {
    if pre.counts().contains_key(slug) {
        sat_inc(pre.counts()[slug])
    } else {
        1u64
    }
}

/// How `add` changes the cache: the record for the slug is stored or
/// replaced, and the slug's counter is raised or initialized; nothing
/// else moves.
pub open spec fn add_updates(pre: Cache, post: Cache, rec: ArticleRecord) -> bool {
    &&& post.records() == pre.records().insert(rec.slug@, rec@)
    &&& post.counts() == pre.counts().insert(rec.slug@, next_count(pre, rec.slug@))
}

/// How a cache hit changes the cache: records untouched, exactly the hit
/// slug's counter raised.
pub open spec fn lookup_hit_updates(pre: Cache, post: Cache, slug: Seq<char>) -> bool {
    &&& pre.records().contains_key(slug)
    &&& post.records() == pre.records()
    &&& post.counts() == pre.counts().insert(slug, sat_inc(pre.counts()[slug]))
}

impl Cache {
    /// The map from slug to cached record.
    pub closed spec fn records(self) -> Map<Seq<char>, ArticleView> {
        records_of(self.slots@)
    }

    /// The map from slug to access counter.
    pub closed spec fn counts(self) -> Map<Seq<char>, u64> {
        counts_of(self.slots@)
    }

    /// The cache's internal invariant.
    pub closed spec fn wf(self) -> bool {
        slots_wf(self.slots@)
    }

    /// An empty cache.
    pub fn new() -> (r: Cache)
        ensures
            r.wf(),
            r.records() == Map::<Seq<char>, ArticleView>::empty(),
            r.counts() == Map::<Seq<char>, u64>::empty(),
    {
        Cache { slots: Vec::new() }
    }

    /// Index of the slot carrying `slug`, if any.
    fn find_slot(&self, slug: &String) -> (r: Option<usize>)
        ensures
            match r {
                Option::Some(i) => i < self.slots@.len() && self.slots@[i as int].0.slug@ == slug@,
                Option::None => forall|j: int|
                    0 <= j < self.slots@.len() ==> (#[trigger] self.slots@[j]).0.slug@ != slug@,
            },
    {
        let mut i: usize = 0;
        while i < self.slots.len()
            invariant
                i <= self.slots@.len(),
                forall|j: int| 0 <= j < i ==> (#[trigger] self.slots@[j]).0.slug@ != slug@,
            decreases self.slots@.len() - i,
        {
            if self.slots[i].0.slug == *slug {
                return Option::Some(i);
            }
            i = i + 1;
        }
        Option::None
    }

    /// Whether a record for `slug` is cached. Read-only: no counter moves.
    pub fn contains(&self, slug: &String) -> (r: bool)
        ensures
            r == self.records().contains_key(slug@),
    {
        proof {
            lemma_maps_of(self.slots@);
        }
        self.find_slot(slug).is_some()
    }

    /// The access counter for `slug`: present exactly when a record is.
    /// Read-only diagnostics; the counter itself does not move.
    pub fn access_count(&self, slug: &String) -> (r: Option<u64>)
        requires
            self.wf(),
        ensures
            match r {
                Option::Some(c) => self.counts().contains_key(slug@) && c == self.counts()[slug@],
                Option::None => !self.counts().contains_key(slug@),
            },
    {
        proof {
            lemma_maps_of(self.slots@);
        }
        match self.find_slot(slug) {
            Option::Some(i) => Option::Some(self.slots[i].1),
            Option::None => Option::None,
        }
    }

    /// Fetches the record cached for `slug`. On a hit the slug's access
    /// counter is raised as a side effect and a deep copy of the record
    /// comes back; on a miss nothing changes.
    pub fn lookup(&mut self, slug: &String) -> (r: Option<ArticleRecord>)
        requires
            old(self).wf(),
        ensures
            final(self).wf(),
            match r {
                Option::Some(rec) => {
                    &&& rec.wf()
                    &&& rec@ == old(self).records()[slug@]
                    &&& lookup_hit_updates(*old(self), *final(self), slug@)
                },
                Option::None => {
                    &&& !old(self).records().contains_key(slug@)
                    &&& *final(self) == *old(self)
                },
            },
    {
        proof {
            lemma_maps_of(self.slots@);
        }
        match self.find_slot(slug) {
            Option::Some(i) => {
                let rec = self.slots[i].0.duplicate();
                let stored = self.slots[i].0.duplicate();
                let c = self.slots[i].1;
                let nc: u64 = if c < u64::MAX {
                    c + 1
                } else {
                    c
                };
                proof {
                    lemma_maps_of_update(self.slots@, i as int, stored, nc);
                }
                self.slots[i] = (stored, nc);
                proof {
                    assert(self.records() =~= old(self).records());
                }
                Option::Some(rec)
            },
            Option::None => Option::None,
        }
    }

    /// Stores `rec` under its own slug, replacing any previous record for
    /// that slug, and raises (or initializes to one) the slug's counter.
    /// Total: it succeeds on every well-formed input.
    pub fn add(&mut self, rec: ArticleRecord)
        requires
            old(self).wf(),
            rec.wf(),
        ensures
            final(self).wf(),
            add_updates(*old(self), *final(self), rec),
    {
        proof {
            lemma_maps_of(self.slots@);
        }
        match self.find_slot(&rec.slug) {
            Option::Some(i) => {
                let c = self.slots[i].1;
                let nc: u64 = if c < u64::MAX {
                    c + 1
                } else {
                    c
                };
                proof {
                    lemma_maps_of_update(self.slots@, i as int, rec, nc);
                }
                self.slots[i] = (rec, nc);
            },
            Option::None => {
                proof {
                    lemma_maps_of_push(self.slots@, rec, 1u64);
                }
                self.slots.push((rec, 1));
            },
        }
    }
}

/// Adding a record for one slug alters no other slug's record or counter.
pub proof fn lemma_add_preserves_unrelated(
    pre: Cache,
    post: Cache,
    rec: ArticleRecord,
    other: Seq<char>,
)
    requires
        add_updates(pre, post, rec),
        other != rec.slug@,
    ensures
        post.records().contains_key(other) == pre.records().contains_key(other),
        pre.records().contains_key(other) ==> post.records()[other] == pre.records()[other],
        post.counts().contains_key(other) == pre.counts().contains_key(other),
        pre.counts().contains_key(other) ==> post.counts()[other] == pre.counts()[other],
{
}

/// After an add, the cached record for the added slug is the record added.
pub proof fn lemma_add_then_read(pre: Cache, post: Cache, rec: ArticleRecord)
    requires
        add_updates(pre, post, rec),
    ensures
        post.records().contains_key(rec.slug@),
        post.records()[rec.slug@] == rec@,
{
}

/// Some cache operation ran from `pre` to `post` without touching `slug`:
/// a hit on some other slug, a miss (no change), or an add for another slug.
pub open spec fn unrelated_step(pre: Cache, post: Cache, slug: Seq<char>) -> bool {
    ||| post == pre
    ||| exists|s: Seq<char>| s != slug && #[trigger] lookup_hit_updates(pre, post, s)
    ||| exists|r: ArticleRecord| r.slug@ != slug && #[trigger] add_updates(pre, post, r)
}

/// Read-after-write consistency: once `slug` maps to a record, any run of
/// cache operations that never writes `slug` leaves that association
/// untouched, so a later lookup still returns a record deep-equal to it.
pub proof fn lemma_read_back_after_unrelated(pre: Cache, post: Cache, slug: Seq<char>)
    requires
        pre.records().contains_key(slug),
        unrelated_step(pre, post, slug),
    ensures
        post.records().contains_key(slug),
        post.records()[slug] == pre.records()[slug],
{
}

/// Each hit raises the hit slug's counter by exactly one while the
/// counter is below the saturation bound, and touches no other counter.
pub proof fn lemma_lookup_increments(pre: Cache, post: Cache, slug: Seq<char>)
    requires
        lookup_hit_updates(pre, post, slug),
        pre.counts().contains_key(slug),
        pre.counts()[slug] < u64::MAX,
    ensures
        post.counts()[slug] == pre.counts()[slug] + 1,
        forall|s2: Seq<char>|
            s2 != slug ==> #[trigger] post.counts().contains_key(s2) == pre.counts().contains_key(
                s2,
            ),
        forall|s2: Seq<char>|
            s2 != slug && pre.counts().contains_key(s2) ==> #[trigger] post.counts()[s2]
                == pre.counts()[s2],
{
}

/// A slug has a counter exactly when it has a record: the counter of an
/// absent slug is never observable as present.
pub proof fn lemma_counter_iff_record(c: Cache, slug: Seq<char>)
    requires
        c.wf(),
    ensures
        c.counts().contains_key(slug) == c.records().contains_key(slug),
        c.counts().contains_key(slug) ==> c.counts()[slug] >= 1,
{
    lemma_maps_of(c.slots@);
}

} // verus!
