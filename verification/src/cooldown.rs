//! The rate-limit tracker: which model was last marked limited, and when.
//!
//! The tracker is modelled as a map from model identifier to the second the
//! model was last marked. Absence of a key means "not limited"; presence
//! means "was limited at that second", and a check combines the mark with a
//! caller-supplied cooldown duration, so expiry is computed on read and never
//! depends on compaction having run.
//!
//! All operations here take the clock reading as a plain argument and are
//! verified for every reading; the facade supplies the current one.

use vstd::map::*;
use vstd::prelude::*;

use crate::text::str_eq;

verus! {

/// One mark: a model identifier and the second it was last rate limited.
pub struct CooldownEntry {
    pub model: String,
    pub limited_at: u64,
}

/// The map a sequence of entries stands for; a later entry for the same
/// model wins.
pub open spec fn entries_map(s: Seq<CooldownEntry>) -> Map<Seq<char>, u64>
    decreases s.len(),
{
    if s.len() == 0 {
        Map::empty()
    } else {
        entries_map(s.drop_last()).insert(s.last().model@, s.last().limited_at)
    }
}

/// No two entries name the same model.
pub open spec fn entries_unique(s: Seq<CooldownEntry>) -> bool {
    forall|i: int, j: int| 0 <= i < j < s.len() ==> s[i].model@ != s[j].model@
}

/// Whole seconds elapsed between a mark and a later clock reading; a reading
/// before the mark counts as no time elapsed.
pub open spec fn spec_elapsed(now: u64, limited_at: u64) -> int {
    if now >= limited_at {
        now - limited_at
    } else {
        0
    }
}

/// Whether `model` counts as rate limited in `m` for the given cooldown at
/// the given clock reading: a mark exists and strictly less than the
/// cooldown has elapsed since it.
pub open spec fn spec_is_limited(
    m: Map<Seq<char>, u64>,
    model: Seq<char>,
    cooldown_secs: u64,
    now: u64,
) -> bool {
    m.contains_key(model) && spec_elapsed(now, m[model]) < cooldown_secs
}

/// The part of `m` a compaction with the given cooldown keeps: exactly the
/// marks with strictly less than the cooldown elapsed, each unchanged.
pub open spec fn retained(m: Map<Seq<char>, u64>, cooldown_secs: u64, now: u64) -> Map<
    Seq<char>,
    u64,
> {
    Map::new(
        |k: Seq<char>| m.contains_key(k) && spec_elapsed(now, m[k]) < cooldown_secs,
        |k: Seq<char>| m[k],
    )
}

/// A key lies in the map of a sequence exactly when some entry names it.
proof fn lemma_entries_map_domain(s: Seq<CooldownEntry>, k: Seq<char>)
    ensures
        entries_map(s).contains_key(k) <==> (exists|b: int|
            0 <= b < s.len() && s[b].model@ == k),
    decreases s.len(),
{
    if s.len() > 0 {
        lemma_entries_map_domain(s.drop_last(), k);
        if entries_map(s).contains_key(k) {
            if k == s.last().model@ {
                assert(s[s.len() - 1].model@ == k);
            } else {
                let b = choose|b: int|
                    0 <= b < s.drop_last().len() && s.drop_last()[b].model@ == k;
                assert(s[b].model@ == k);
            }
        }
        if exists|b: int| 0 <= b < s.len() && s[b].model@ == k {
            let b = choose|b: int| 0 <= b < s.len() && s[b].model@ == k;
            if b < s.len() - 1 {
                assert(s.drop_last()[b].model@ == k);
            }
        }
    }
}

/// In a sequence without repeated models, the map holds each entry's mark.
proof fn lemma_entries_map_at(s: Seq<CooldownEntry>, b: int)
    requires
        entries_unique(s),
        0 <= b < s.len(),
    ensures
        entries_map(s).contains_key(s[b].model@),
        entries_map(s)[s[b].model@] == s[b].limited_at,
    decreases s.len(),
{
    if b < s.len() - 1 {
        assert(entries_unique(s.drop_last()));
        lemma_entries_map_at(s.drop_last(), b);
        assert(s.drop_last()[b] == s[b]);
        assert(s[b].model@ != s.last().model@);
    }
}

/// Appending an entry inserts its mark into the map of the sequence.
proof fn lemma_entries_map_push(s: Seq<CooldownEntry>, e: CooldownEntry)
    ensures
        entries_map(s.push(e)) == entries_map(s).insert(e.model@, e.limited_at),
{
    assert(s.push(e).drop_last() =~= s);
    assert(s.push(e).last() == e);
}

/// Overwriting the entry that names a model re-inserts that model's mark.
proof fn lemma_entries_map_update(s: Seq<CooldownEntry>, b: int, e: CooldownEntry)
    requires
        entries_unique(s),
        0 <= b < s.len(),
        e.model@ == s[b].model@,
    ensures
        entries_map(s.update(b, e)) == entries_map(s).insert(e.model@, e.limited_at),
    decreases s.len(),
{
    let t = s.update(b, e);
    if b == s.len() - 1 {
        assert(t.drop_last() =~= s.drop_last());
        assert(t.last() == e);
        assert(entries_map(s.drop_last()).insert(s.last().model@, s.last().limited_at).insert(
            e.model@,
            e.limited_at,
        ) =~= entries_map(s.drop_last()).insert(e.model@, e.limited_at));
    } else {
        assert(entries_unique(s.drop_last()));
        assert(s.drop_last()[b] == s[b]);
        lemma_entries_map_update(s.drop_last(), b, e);
        assert(t.drop_last() =~= s.drop_last().update(b, e));
        assert(t.last() == s.last());
        assert(s[b].model@ != s.last().model@);
        assert(entries_map(s.drop_last()).insert(e.model@, e.limited_at).insert(
            s.last().model@,
            s.last().limited_at,
        ) =~= entries_map(s.drop_last()).insert(s.last().model@, s.last().limited_at).insert(
            e.model@,
            e.limited_at,
        ));
    }
}

/// Tracks, per model identifier, the second it was last rate limited.
pub struct CooldownTracker {
    entries: Vec<CooldownEntry>,
}

impl View for CooldownTracker {
    type V = Map<Seq<char>, u64>;

    closed spec fn view(&self) -> Map<Seq<char>, u64> {
        entries_map(self.entries@)
    }
}

impl CooldownTracker {
    /// Each model is named by at most one entry.
    pub closed spec fn wf(&self) -> bool {
        entries_unique(self.entries@)
    }

    /// A tracker with no model marked.
    pub fn new() -> (t: CooldownTracker)
        ensures
            t.wf(),
            t@ == Map::<Seq<char>, u64>::empty(),
    {
        let t = CooldownTracker { entries: Vec::new() };
        proof {
            assert(t@ =~= Map::<Seq<char>, u64>::empty());
        }
        t
    }

    /// The position of the entry naming `model`, if one exists.
    fn find_index(&self, model: &str) -> (r: Option<usize>)
        ensures
            (r matches Some(b) ==> b < self.entries@.len() && self.entries@[b as int].model@
                == model@),
            (r is None ==> forall|b: int|
                0 <= b < self.entries@.len() ==> self.entries@[b].model@ != model@),
    {
        let n: usize = self.entries.len();
        let mut i: usize = 0;
        while i < n
            invariant
                n == self.entries@.len(),
                i <= n,
                forall|b: int| 0 <= b < i ==> self.entries@[b].model@ != model@,
            decreases n - i,
        {
            if str_eq(self.entries[i].model.as_str(), model) {
                return Some(i);
            }
            i = i + 1;
        }
        None
    }

    /// Marks `model` as limited at `now`, overwriting any earlier mark for
    /// it and touching no other model's mark.
    pub fn record(&mut self, model: &str, now: u64)
        requires
            old(self).wf(),
        ensures
            final(self).wf(),
            final(self)@ == old(self)@.insert(model@, now),
    {
        let entry = CooldownEntry { model: model.to_owned(), limited_at: now };
        match self.find_index(model) {
            Some(i) => {
                proof {
                    lemma_entries_map_update(self.entries@, i as int, entry);
                    assert(entries_unique(self.entries@.update(i as int, entry)));
                }
                self.entries[i] = entry;
            },
            None => {
                proof {
                    lemma_entries_map_push(self.entries@, entry);
                    assert(entries_unique(self.entries@.push(entry)));
                }
                self.entries.push(entry);
            },
        }
    }

    /// Whether `model` is inside its cooldown window at clock reading `now`:
    /// a mark exists and strictly less than `cooldown_secs` has elapsed. A
    /// model without a mark is not limited, and a zero cooldown makes every
    /// mark count as already expired.
    pub fn is_rate_limited(&self, model: &str, cooldown_secs: u64, now: u64) -> (r: bool)
        requires
            self.wf(),
        ensures
            r == spec_is_limited(self@, model@, cooldown_secs, now),
    {
        match self.find_index(model) {
            Some(i) => {
                proof {
                    lemma_entries_map_at(self.entries@, i as int);
                }
                elapsed_secs(now, self.entries[i].limited_at) < cooldown_secs
            },
            None => {
                proof {
                    lemma_entries_map_domain(self.entries@, model@);
                }
                false
            },
        }
    }

    /// Removes exactly the marks whose elapsed time has reached
    /// `cooldown_secs`, leaving every other mark untouched.
    #[verifier::rlimit(100)]
    pub fn cleanup(&mut self, cooldown_secs: u64, now: u64)
        requires
            old(self).wf(),
        ensures
            final(self).wf(),
            final(self)@ == retained(old(self)@, cooldown_secs, now),
    {
        let n: usize = self.entries.len();
        let mut kept: Vec<CooldownEntry> = Vec::new();
        let mut i: usize = 0;
        while i < n
            invariant
                self.entries@ == old(self).entries@,
                entries_unique(self.entries@),
                n == self.entries@.len(),
                i <= n,
                entries_unique(kept@),
                forall|a: int|
                    0 <= a < kept@.len() ==> spec_elapsed(now, kept@[a].limited_at)
                        < cooldown_secs,
                forall|a: int|
                    0 <= a < kept@.len() ==> exists|b: int|
                        0 <= b < i && #[trigger] self.entries@[b] == #[trigger] kept@[a],
                forall|b: int|
                    0 <= b < i && spec_elapsed(now, #[trigger] self.entries@[b].limited_at)
                        < cooldown_secs ==> exists|a: int|
                        0 <= a < kept@.len() && #[trigger] kept@[a] == self.entries@[b],
            decreases n - i,
        {
            let ghost prev = kept@;
            let still_limited = elapsed_secs(now, self.entries[i].limited_at) < cooldown_secs;
            if still_limited {
                let e = CooldownEntry {
                    model: self.entries[i].model.clone(),
                    limited_at: self.entries[i].limited_at,
                };
                assert(e == self.entries@[i as int]);
                assert forall|a: int| 0 <= a < kept@.len() implies kept@[a].model@ != e.model@ by {
                    let b = choose|b: int| 0 <= b < i && #[trigger] self.entries@[b] == kept@[a];
                    assert(self.entries@[b].model@ != self.entries@[i as int].model@);
                }
                kept.push(e);
                proof {
                    assert(kept@ == prev.push(e));
                    assert forall|b: int|
                        0 <= b < i + 1 && spec_elapsed(
                            now,
                            #[trigger] self.entries@[b].limited_at,
                        ) < cooldown_secs implies exists|a: int|
                        0 <= a < kept@.len() && #[trigger] kept@[a] == self.entries@[b] by {
                        if b == i {
                            assert(kept@[prev.len() as int] == self.entries@[b]);
                        } else {
                            let a = choose|a: int|
                                0 <= a < prev.len() && #[trigger] prev[a] == self.entries@[b];
                            assert(kept@[a] == self.entries@[b]);
                        }
                    }
                    assert forall|a: int| 0 <= a < kept@.len() implies exists|b: int|
                        0 <= b < i + 1 && #[trigger] self.entries@[b] == #[trigger] kept@[a] by {
                        if a < prev.len() {
                            let b = choose|b: int|
                                0 <= b < i && #[trigger] self.entries@[b] == prev[a];
                            assert(self.entries@[b] == kept@[a]);
                        } else {
                            assert(self.entries@[i as int] == kept@[a]);
                        }
                    }
                }
            } else {
                proof {
                    assert forall|b: int|
                        0 <= b < i + 1 && spec_elapsed(
                            now,
                            #[trigger] self.entries@[b].limited_at,
                        ) < cooldown_secs implies exists|a: int|
                        0 <= a < kept@.len() && #[trigger] kept@[a] == self.entries@[b] by {
                        assert(b < i);
                        let a = choose|a: int|
                            0 <= a < kept@.len() && #[trigger] kept@[a] == self.entries@[b];
                        assert(kept@[a] == self.entries@[b]);
                    }
                }
            }
            i = i + 1;
        }
        proof {
            let s_old = self.entries@;
            let s_new = kept@;
            let m_old = entries_map(s_old);
            let m_new = entries_map(s_new);
            let r = retained(m_old, cooldown_secs, now);
            assert_maps_equal!(m_new, r, k => {
                lemma_entries_map_domain(s_new, k);
                lemma_entries_map_domain(s_old, k);
                if m_new.contains_key(k) {
                    let a = choose|a: int| 0 <= a < s_new.len() && s_new[a].model@ == k;
                    lemma_entries_map_at(s_new, a);
                    let b = choose|b: int| 0 <= b < i && #[trigger] s_old[b] == s_new[a];
                    lemma_entries_map_at(s_old, b);
                    assert(r.contains_key(k) && m_new[k] == r[k]);
                }
                if r.contains_key(k) {
                    let b = choose|b: int| 0 <= b < s_old.len() && s_old[b].model@ == k;
                    lemma_entries_map_at(s_old, b);
                    assert(spec_elapsed(now, s_old[b].limited_at) < cooldown_secs);
                    let a = choose|a: int| 0 <= a < s_new.len() && #[trigger] s_new[a] == s_old[b];
                    assert(s_new[a].model@ == k);
                    assert(m_new.contains_key(k));
                }
            });
        }
        self.entries = kept;
    }
}

/// Whole seconds elapsed between a mark and a clock reading.
pub fn elapsed_secs(now: u64, limited_at: u64) -> (r: u64)
    ensures
        r == spec_elapsed(now, limited_at),
{
    if now >= limited_at {
        now - limited_at
    } else {
        0
    }
}

/// A model for which no mark is present is never reported limited, whatever
/// the cooldown and the clock reading.
pub proof fn lemma_unrecorded_never_limited(
    m: Map<Seq<char>, u64>,
    model: Seq<char>,
    cooldown_secs: u64,
    now: u64,
)
    requires
        !m.contains_key(model),
    ensures
        !spec_is_limited(m, model, cooldown_secs, now),
{
}

/// After a mark at `limited_at`, a check at or after that second reports the
/// model limited exactly while the check falls strictly inside the cooldown
/// window that starts at the mark.
pub proof fn lemma_cooldown_window(
    m: Map<Seq<char>, u64>,
    model: Seq<char>,
    limited_at: u64,
    cooldown_secs: u64,
    now: u64,
)
    requires
        limited_at <= now,
    ensures
        spec_is_limited(m.insert(model, limited_at), model, cooldown_secs, now) <==> (
        now as int) < limited_at + cooldown_secs,
{
}

/// Marking one model leaves it present and keeps every other model's mark
/// exactly as it was: marks for distinct models cannot be lost to each
/// other.
pub proof fn lemma_record_independent(
    m: Map<Seq<char>, u64>,
    marked: Seq<char>,
    other: Seq<char>,
    limited_at: u64,
)
    requires
        marked != other,
    ensures
        m.insert(marked, limited_at).contains_key(marked),
        m.insert(marked, limited_at).contains_key(other) <==> m.contains_key(other),
        m.contains_key(other) ==> m.insert(marked, limited_at)[other] == m[other],
{
}

/// Compaction is transparent to checks: with the same cooldown and clock
/// reading, a check answers the same on the compacted map as on the
/// original.
pub proof fn lemma_cleanup_transparent(
    m: Map<Seq<char>, u64>,
    model: Seq<char>,
    cooldown_secs: u64,
    now: u64,
)
    ensures
        spec_is_limited(retained(m, cooldown_secs, now), model, cooldown_secs, now)
            == spec_is_limited(m, model, cooldown_secs, now),
{
}

} // verus!
