//! Pictures of windows, kept for a while: taking one is slow, and a picture a
//! few seconds old still looks alive.

use std::collections::HashMap;
use vstd::prelude::*;

verus! {

broadcast use vstd::std_specs::hash::group_hash_axioms;

/// How long a picture, or the failure to take one, is kept.
pub const DEFAULT_TTL_MS: u64 = 3000;

/// How many windows are kept.
pub const DEFAULT_MAX_ENTRIES: usize = 32;

/// A picture of a window, four bytes to a pixel.
#[derive(Debug, Clone, PartialEq, Eq)]
pub struct WindowThumb {
    pub width: u32,
    pub height: u32,
    pub rgba: Vec<u8>,
}

/// What is kept of a window.
#[derive(Debug, Clone, PartialEq, Eq)]
pub struct CacheEntry {
    /// The picture, or that none could be taken.
    pub thumb: Option<WindowThumb>,
    pub expires_at_ms: u64,
    pub last_access_ms: u64,
}

/// Whether an entry may still be shown.
pub open spec fn fresh(entry: CacheEntry, now_ms: u64) -> bool {
    now_ms < entry.expires_at_ms
}

/// The entries after one has been shown: it counts as used now.
pub open spec fn touched(entries: Map<usize, CacheEntry>, hwnd: usize, now_ms: u64) -> Map<
    usize,
    CacheEntry,
> {
    entries.insert(hwnd, CacheEntry { last_access_ms: now_ms, ..entries[hwnd] })
}

/// A window that has not been asked for longer than any other.
pub open spec fn least_recent(entries: Map<usize, CacheEntry>, hwnd: usize) -> bool {
    entries.contains_key(hwnd) && forall|other: usize| #[trigger]
        entries.contains_key(other) ==> entries[hwnd].last_access_ms
            <= entries[other].last_access_ms
}

/// `after` is `before` without one of the windows that have waited longest.
pub open spec fn evicted(
    before: Map<usize, CacheEntry>,
    after: Map<usize, CacheEntry>,
) -> bool {
    if before.dom().len() == 0 {
        after == before
    } else {
        exists|victim: usize| #[trigger] least_recent(before, victim) && after == before.remove(victim)
    }
}

/// The entry for a picture taken now.
pub open spec fn taken(thumb: Option<WindowThumb>, ttl_ms: u64, now_ms: u64) -> CacheEntry {
    CacheEntry {
        thumb,
        expires_at_ms: if now_ms + ttl_ms > u64::MAX {
            u64::MAX
        } else {
            (now_ms + ttl_ms) as u64
        },
        last_access_ms: now_ms,
    }
}

/// `after` is `before` with an entry put in, and where the room was used up by
/// other windows, without one that has waited longest.
pub open spec fn stored(
    before: Map<usize, CacheEntry>,
    max_entries: usize,
    hwnd: usize,
    entry: CacheEntry,
    after: Map<usize, CacheEntry>,
) -> bool {
    if before.dom().len() >= max_entries && !before.contains_key(hwnd) {
        exists|room: Map<usize, CacheEntry>| #[trigger]
            evicted(before, room) && after == room.insert(hwnd, entry)
    } else {
        after == before.insert(hwnd, entry)
    }
}

/// The entries that may still be shown.
pub open spec fn unexpired(entries: Map<usize, CacheEntry>, now_ms: u64) -> Map<usize, CacheEntry> {
    entries.restrict(
        Set::new(|hwnd: usize| entries.contains_key(hwnd) && fresh(entries[hwnd], now_ms)),
    )
}

/// What the cache says of a window before anything is taken.
#[derive(Debug, Clone, Copy, PartialEq, Eq, Structural)]
pub enum Lookup {
    /// The entry may be shown.
    Fresh,
    /// Nothing is ever kept.
    Disabled,
    /// A picture has to be taken.
    Missing,
}

/// Pictures of windows, by window.
pub struct ThumbCache<C> {
    pub entries: HashMap<usize, CacheEntry>,
    pub max_entries: usize,
    pub ttl_ms: u64,
    pub capturer: Option<C>,
}

impl<C> ThumbCache<C> {
    /// No more entries than there is room for.
    pub open spec fn within_limit(self) -> bool {
        self.entries@.dom().len() <= self.max_entries
    }

    /// A cache without a capturer of its own: pictures are handed to
    /// [`ThumbCache::store`].
    pub fn new(max_entries: usize, ttl_ms: u64) -> (r: Self)
        ensures
            r.entries@ == Map::<usize, CacheEntry>::empty(),
            r.max_entries == max_entries,
            r.ttl_ms == ttl_ms,
            r.capturer is None,
            r.within_limit(),
    {
        Self { entries: HashMap::new(), max_entries, ttl_ms, capturer: None }
    }

    /// What the cache says of a window.
    pub open spec fn spec_lookup(self, hwnd: usize, now_ms: u64) -> Lookup {
        if self.entries@.contains_key(hwnd) && fresh(self.entries@[hwnd], now_ms) {
            Lookup::Fresh
        } else if self.max_entries == 0 {
            Lookup::Disabled
        } else {
            Lookup::Missing
        }
    }

    /// Look a window up. An entry that may be shown counts as used now.
    pub fn lookup(&mut self, hwnd: usize, now_ms: u64) -> (r: Lookup)
        ensures
            r == old(self).spec_lookup(hwnd, now_ms),
            final(self).max_entries == old(self).max_entries,
            final(self).ttl_ms == old(self).ttl_ms,
            final(self).capturer == old(self).capturer,
            final(self).entries@ == (if r is Fresh {
                touched(old(self).entries@, hwnd, now_ms)
            } else {
                old(self).entries@
            }),
            old(self).within_limit() ==> final(self).within_limit(),
    {
        let is_fresh = match self.entries.get(&hwnd) {
            Some(entry) => now_ms < entry.expires_at_ms,
            None => false,
        };
        if is_fresh {
            let ghost before = self.entries@;
            if let Some(mut entry) = self.entries.remove(&hwnd) {
                entry.last_access_ms = now_ms;
                self.entries.insert(hwnd, entry);
                assert(self.entries@ =~= touched(before, hwnd, now_ms));
                assert(self.entries@.dom() =~= before.dom());
            }
            return Lookup::Fresh;
        }
        if self.max_entries == 0 {
            return Lookup::Disabled;
        }
        Lookup::Missing
    }

    /// Drop a window that has not been asked for longer than any other.
    pub fn evict_lru(&mut self)
        ensures
            evicted(old(self).entries@, final(self).entries@),
            final(self).max_entries == old(self).max_entries,
            final(self).ttl_ms == old(self).ttl_ms,
            final(self).capturer == old(self).capturer,
    {
        let ghost before = self.entries@;
        let ghost all = vstd::std_specs::iter::IteratorSpec::remaining(&self.entries.iter());
        let mut oldest: Option<(usize, u64)> = None;
        for (hwnd, entry) in it: self.entries.iter()
            invariant
                before == self.entries@,
                it.seq() == all,
                forall|i: int|
                    0 <= i < all.len() ==> before.contains_key(*(#[trigger] all[i]).0)
                        && before[*all[i].0] == *all[i].1,
                oldest is None <==> it.index() == 0,
                oldest matches Some((k, t)) ==> before.contains_key(k) && t
                    == before[k].last_access_ms && forall|i: int|
                    0 <= i < it.index() ==> t <= (#[trigger] all[i]).1.last_access_ms,
        {
            let older = match oldest {
                Some((_, t)) => entry.last_access_ms < t,
                None => true,
            };
            if older {
                oldest = Some((*hwnd, entry.last_access_ms));
            }
        }
        if let Some((hwnd, t)) = oldest {
            proof {
                assert forall|other: usize| #[trigger] before.contains_key(other) implies t
                    <= before[other].last_access_ms by {
                    assert(all.contains((&other, &before[other])));
                }
                assert(least_recent(before, hwnd));
            }
            self.entries.remove(&hwnd);
        }
    }

    /// Keep what came of taking a picture, a failure too.
    pub fn store(&mut self, hwnd: usize, thumb: Option<WindowThumb>, now_ms: u64)
        requires
            old(self).max_entries > 0,
        ensures
            stored(
                old(self).entries@,
                old(self).max_entries,
                hwnd,
                taken(thumb, old(self).ttl_ms, now_ms),
                final(self).entries@,
            ),
            final(self).max_entries == old(self).max_entries,
            final(self).ttl_ms == old(self).ttl_ms,
            final(self).capturer == old(self).capturer,
            old(self).within_limit() ==> final(self).within_limit(),
    {
        let ghost before = self.entries@;
        if self.entries.len() >= self.max_entries && !self.entries.contains_key(&hwnd) {
            self.evict_lru();
        }
        let ghost room = self.entries@;
        let entry = CacheEntry {
            thumb,
            expires_at_ms: now_ms.saturating_add(self.ttl_ms),
            last_access_ms: now_ms,
        };
        self.entries.insert(hwnd, entry);
        assert(self.entries@ == room.insert(hwnd, taken(thumb, self.ttl_ms, now_ms)));
    }

    /// Forget a window.
    pub fn forget(&mut self, hwnd: usize)
        ensures
            final(self).entries@ == old(self).entries@.remove(hwnd),
            final(self).max_entries == old(self).max_entries,
            final(self).ttl_ms == old(self).ttl_ms,
            final(self).capturer == old(self).capturer,
            old(self).within_limit() ==> final(self).within_limit(),
    {
        self.entries.remove(&hwnd);
        assert(self.entries@ =~= old(self).entries@.remove(hwnd));
    }

    /// Drop every entry that may no longer be shown.
    pub fn prune(&mut self, now_ms: u64)
        ensures
            final(self).entries@ == unexpired(old(self).entries@, now_ms),
            final(self).max_entries == old(self).max_entries,
            final(self).ttl_ms == old(self).ttl_ms,
            final(self).capturer == old(self).capturer,
            old(self).within_limit() ==> final(self).within_limit(),
    {
        let ghost before = self.entries@;
        let ghost all = vstd::std_specs::iter::IteratorSpec::remaining(&self.entries.iter());
        let mut stale: Vec<usize> = Vec::new();
        for (hwnd, entry) in it: self.entries.iter()
            invariant
                before == self.entries@,
                it.seq() == all,
                forall|i: int|
                    0 <= i < all.len() ==> before.contains_key(*(#[trigger] all[i]).0)
                        && before[*all[i].0] == *all[i].1,
                forall|j: int|
                    0 <= j < stale@.len() ==> before.contains_key(#[trigger] stale@[j]) && !fresh(
                        before[stale@[j]],
                        now_ms,
                    ),
                forall|i: int|
                    0 <= i < it.index() && !fresh(*(#[trigger] all[i]).1, now_ms)
                        ==> stale@.contains(*all[i].0),
        {
            if now_ms >= entry.expires_at_ms {
                let ghost had = stale@;
                stale.push(*hwnd);
                proof {
                    assert(stale@[had.len() as int] == *hwnd);
                    assert forall|i: int|
                        0 <= i < it.index() && !fresh(
                            *(#[trigger] all[i]).1,
                            now_ms,
                        ) implies stale@.contains(*all[i].0) by {
                        let j = had.index_of(*all[i].0);
                        assert(stale@[j] == *all[i].0);
                    }
                }
            }
        }
        proof {
            assert forall|k: usize| #[trigger] before.contains_key(k) && !fresh(
                before[k],
                now_ms,
            ) implies stale@.contains(k) by {
                assert(all.contains((&k, &before[k])));
            }
        }
        let mut i: usize = 0;
        while i < stale.len()
            invariant
                i <= stale.len(),
                self.entries@ =~= before.remove_keys(stale@.take(i as int).to_set()),
                self.max_entries == old(self).max_entries,
                self.ttl_ms == old(self).ttl_ms,
                self.capturer == old(self).capturer,
            decreases stale.len() - i,
        {
            self.entries.remove(&stale[i]);
            i = i + 1;
            proof {
                let head = stale@.take(i as int);
                assert(head =~= stale@.take(i - 1).push(stale@[i - 1]));
                assert(head.to_set() =~= stale@.take(i - 1).to_set().insert(stale@[i - 1])) by {
                    broadcast use vstd::seq_lib::group_seq_properties;

                }
            }
        }
        proof {
            assert(stale@.take(stale@.len() as int) =~= stale@);
            assert(self.entries@ =~= unexpired(before, now_ms));
            vstd::set_lib::lemma_len_subset(self.entries@.dom(), before.dom());
        }
    }

    /// How many windows are kept, failures too.
    pub fn len(&self) -> (r: usize)
        ensures
            r == self.entries@.dom().len(),
    {
        self.entries.len()
    }

    /// Whether nothing is kept.
    pub fn is_empty(&self) -> (r: bool)
        ensures
            r == (self.entries@.dom().len() == 0),
    {
        self.entries.is_empty()
    }
}

/// The reference points at what is kept.
pub open spec fn shows(result: Option<&WindowThumb>, kept: Option<WindowThumb>) -> bool {
    match kept {
        Some(t) => result == Some(&t),
        None => result is None,
    }
}

impl<C: FnMut(usize, u32) -> Option<WindowThumb>> ThumbCache<C> {
    /// A cache with a capturer.
    pub fn with_capturer(max_entries: usize, ttl_ms: u64, capturer: C) -> (r: Self)
        ensures
            r.entries@ == Map::<usize, CacheEntry>::empty(),
            r.max_entries == max_entries,
            r.ttl_ms == ttl_ms,
            r.capturer == Some(capturer),
            r.within_limit(),
    {
        Self { entries: HashMap::new(), max_entries, ttl_ms, capturer: Some(capturer) }
    }

    /// What [`ThumbCache::get`] may leave and give back. An entry that may be
    /// shown is given without a picture being taken. Else one is asked of the
    /// capturer, whatever comes of it is kept, and it is given back.
    pub open spec fn got(
        self,
        hwnd: usize,
        max_side: u32,
        now_ms: u64,
        after: Map<usize, CacheEntry>,
        result: Option<&WindowThumb>,
    ) -> bool {
        match self.spec_lookup(hwnd, now_ms) {
            Lookup::Fresh => after == touched(self.entries@, hwnd, now_ms) && shows(
                result,
                self.entries@[hwnd].thumb,
            ),
            Lookup::Disabled => after == self.entries@ && result is None,
            Lookup::Missing => exists|thumb: Option<WindowThumb>|
                call_ensures(self.capturer->0, (hwnd, max_side), thumb) && stored(
                    self.entries@,
                    self.max_entries,
                    hwnd,
                    #[trigger] taken(thumb, self.ttl_ms, now_ms),
                    after,
                ) && shows(result, thumb),
        }
    }

    /// The picture of a window: the one that is kept, where it may still be
    /// shown, or else one taken now. The capturer stays: what could be asked of
    /// it before can be asked of it again.
    pub fn get(&mut self, hwnd: usize, max_side: u32, now_ms: u64) -> (r: Option<&WindowThumb>)
        requires
            old(self).capturer is Some,
            old(self).spec_lookup(hwnd, now_ms) is Missing ==> call_requires(
                old(self).capturer->0,
                (hwnd, max_side),
            ),
        ensures
            old(self).got(hwnd, max_side, now_ms, final(self).entries@, r),
            final(self).capturer == old(self).capturer,
            final(self).max_entries == old(self).max_entries,
            final(self).ttl_ms == old(self).ttl_ms,
            old(self).within_limit() ==> final(self).within_limit(),
    {
        match self.lookup(hwnd, now_ms) {
            Lookup::Disabled => {
                return None;
            },
            Lookup::Missing => {
                let thumb = match &mut self.capturer {
                    Some(capturer) => capturer(hwnd, max_side),
                    None => None,
                };
                self.store(hwnd, thumb, now_ms);
                assert(self.entries@.contains_key(hwnd));
            },
            Lookup::Fresh => {},
        }
        match self.entries.get(&hwnd) {
            Some(entry) => entry.thumb.as_ref(),
            None => None,
        }
    }
}

/// A picture that is kept is shown again without being taken anew, failures
/// included, until its time is up and no longer: what was stored at `then` is
/// fresh before `then + ttl`, and stale from there on. The last moment of all
/// is never before the end of anything.
pub proof fn stored_picture_lives_its_time(
    before: Map<usize, CacheEntry>,
    max_entries: usize,
    ttl_ms: u64,
    hwnd: usize,
    thumb: Option<WindowThumb>,
    then: u64,
    after: Map<usize, CacheEntry>,
    now_ms: u64,
)
    requires
        stored(before, max_entries, hwnd, taken(thumb, ttl_ms, then), after),
    ensures
        after.contains_key(hwnd),
        after[hwnd].thumb == thumb,
        fresh(after[hwnd], now_ms) <==> now_ms < then + ttl_ms && now_ms < u64::MAX,
{
}

/// Showing a picture does not lengthen its life: it is the same picture, and
/// stale when it would have been.
pub proof fn shown_picture_lives_no_longer(
    entries: Map<usize, CacheEntry>,
    hwnd: usize,
    shown_ms: u64,
    now_ms: u64,
)
    ensures
        touched(entries, hwnd, shown_ms)[hwnd].thumb == entries[hwnd].thumb,
        fresh(touched(entries, hwnd, shown_ms)[hwnd], now_ms) <==> fresh(entries[hwnd], now_ms),
{
}

/// A window that is shown does not go before one that was last asked for
/// earlier, however long ago its picture was taken.
pub proof fn shown_window_is_not_next_to_go(
    entries: Map<usize, CacheEntry>,
    hwnd: usize,
    shown_ms: u64,
    other: usize,
)
    requires
        entries.contains_key(other),
        other != hwnd,
        entries[other].last_access_ms < shown_ms,
    ensures
        !least_recent(touched(entries, hwnd, shown_ms), hwnd),
{
    assert(touched(entries, hwnd, shown_ms).contains_key(other));
}

/// Storing never drops a window that was asked for more recently than the one
/// that goes, and drops at most one.
pub proof fn storing_spares_the_recent(
    before: Map<usize, CacheEntry>,
    max_entries: usize,
    hwnd: usize,
    entry: CacheEntry,
    after: Map<usize, CacheEntry>,
    kept: usize,
    gone: usize,
)
    requires
        before.dom().finite(),
        stored(before, max_entries, hwnd, entry, after),
        before.contains_key(gone),
        !after.contains_key(gone),
        before.contains_key(kept),
        kept != gone,
    ensures
        after.contains_key(kept),
        before[gone].last_access_ms <= before[kept].last_access_ms,
{
}

/// Storing a picture puts in one entry at most and never leaves fewer, and keeps
/// within the limit.
pub proof fn storing_grows_by_one_at_most(
    before: Map<usize, CacheEntry>,
    max_entries: usize,
    hwnd: usize,
    entry: CacheEntry,
    after: Map<usize, CacheEntry>,
)
    requires
        before.dom().finite(),
        max_entries > 0,
        stored(before, max_entries, hwnd, entry, after),
    ensures
        after.dom().finite(),
        before.dom().len() <= after.dom().len() <= before.dom().len() + 1,
        before.dom().len() <= max_entries ==> after.dom().len() <= max_entries,
{
    if before.contains_key(hwnd) {
        assert(after.dom() =~= before.dom());
    } else if before.dom().len() >= max_entries {
        let room = choose|room: Map<usize, CacheEntry>| #[trigger]
            evicted(before, room) && after == room.insert(hwnd, entry);
        let victim = choose|victim: usize| #[trigger]
            least_recent(before, victim) && room == before.remove(victim);
        assert(after.dom() =~= before.dom().remove(victim).insert(hwnd));
    } else {
        assert(after.dom() =~= before.dom().insert(hwnd));
    }
}

/// Showing an entry keeps the windows that are kept.
pub proof fn touching_keeps_the_windows(
    entries: Map<usize, CacheEntry>,
    hwnd: usize,
    now_ms: u64,
)
    requires
        entries.contains_key(hwnd),
    ensures
        touched(entries, hwnd, now_ms).dom() == entries.dom(),
{
    assert(touched(entries, hwnd, now_ms).dom() =~= entries.dom());
}

/// Asking for a picture adds one entry at most and never leaves fewer, and
/// keeps within the limit. It leaves the entries as one of the other calls does.
pub proof fn getting_grows_by_one_at_most<C: FnMut(usize, u32) -> Option<WindowThumb>>(
    cache: ThumbCache<C>,
    hwnd: usize,
    max_side: u32,
    now_ms: u64,
    after: Map<usize, CacheEntry>,
    result: Option<&WindowThumb>,
)
    requires
        cache.entries@.dom().finite(),
        cache.got(hwnd, max_side, now_ms, after, result),
    ensures
        after.dom().finite(),
        cache.entries@.dom().len() <= after.dom().len() <= cache.entries@.dom().len() + 1,
        cache.within_limit() ==> after.dom().len() <= cache.max_entries,
        exists|call: CacheCall| #[trigger]
            called(cache.entries@, cache.max_entries, cache.ttl_ms, call, after),
{
    let (before, max_entries, ttl_ms) = (cache.entries@, cache.max_entries, cache.ttl_ms);
    match cache.spec_lookup(hwnd, now_ms) {
        Lookup::Fresh => {
            touching_keeps_the_windows(before, hwnd, now_ms);
            assert(called(before, max_entries, ttl_ms, CacheCall::Touch(hwnd, now_ms), after));
        },
        Lookup::Disabled => {
            assert(called(before, max_entries, ttl_ms, CacheCall::Miss, after));
        },
        Lookup::Missing => {
            let thumb = choose|thumb: Option<WindowThumb>|
                call_ensures(cache.capturer->0, (hwnd, max_side), thumb) && stored(
                    before,
                    max_entries,
                    hwnd,
                    #[trigger] taken(thumb, ttl_ms, now_ms),
                    after,
                ) && shows(result, thumb);
            let entry = taken(thumb, ttl_ms, now_ms);
            storing_grows_by_one_at_most(before, max_entries, hwnd, entry, after);
            let call = CacheCall::Store(hwnd, thumb, now_ms);
            assert(called(before, max_entries, ttl_ms, call, after));
        },
    }
}

/// A call on a cache.
pub enum CacheCall {
    /// [`ThumbCache::lookup`] that finds none.
    Miss,
    /// [`ThumbCache::lookup`] that finds a fresh entry.
    Touch(usize, u64),
    /// [`ThumbCache::store`].
    Store(usize, Option<WindowThumb>, u64),
    /// [`ThumbCache::forget`].
    Forget(usize),
    /// [`ThumbCache::prune`].
    Prune(u64),
}

/// What a call may leave of the entries.
pub open spec fn called(
    before: Map<usize, CacheEntry>,
    max_entries: usize,
    ttl_ms: u64,
    call: CacheCall,
    after: Map<usize, CacheEntry>,
) -> bool {
    match call {
        CacheCall::Miss => after == before,
        CacheCall::Touch(hwnd, now_ms) => before.contains_key(hwnd) && after == touched(
            before,
            hwnd,
            now_ms,
        ),
        CacheCall::Store(hwnd, thumb, now_ms) => max_entries > 0 && stored(
            before,
            max_entries,
            hwnd,
            taken(thumb, ttl_ms, now_ms),
            after,
        ),
        CacheCall::Forget(hwnd) => after == before.remove(hwnd),
        CacheCall::Prune(now_ms) => after == unexpired(before, now_ms),
    }
}

/// Whatever is asked of a new cache, and in whatever order, it never holds more
/// entries than there is room for.
pub proof fn cache_never_outgrows_its_limit(
    calls: Seq<CacheCall>,
    states: Seq<Map<usize, CacheEntry>>,
    max_entries: usize,
    ttl_ms: u64,
    at: int,
)
    requires
        states.len() == calls.len() + 1,
        states[0] == Map::<usize, CacheEntry>::empty(),
        forall|i: int|
            0 <= i < calls.len() ==> called(
                states[i],
                max_entries,
                ttl_ms,
                #[trigger] calls[i],
                states[i + 1],
            ),
        0 <= at < states.len(),
    ensures
        states[at].dom().finite(),
        states[at].dom().len() <= max_entries,
    decreases at,
{
    if at > 0 {
        cache_never_outgrows_its_limit(calls, states, max_entries, ttl_ms, at - 1);
        let before = states[at - 1];
        let after = states[at];
        assert(called(before, max_entries, ttl_ms, calls[at - 1], after));
        match calls[at - 1] {
            CacheCall::Miss => {},
            CacheCall::Touch(hwnd, now_ms) => {
                touching_keeps_the_windows(before, hwnd, now_ms);
            },
            CacheCall::Store(hwnd, thumb, now_ms) => {
                storing_grows_by_one_at_most(
                    before,
                    max_entries,
                    hwnd,
                    taken(thumb, ttl_ms, now_ms),
                    after,
                );
            },
            CacheCall::Forget(_) | CacheCall::Prune(_) => {
                assert(after.dom().subset_of(before.dom()));
                vstd::set_lib::lemma_len_subset(after.dom(), before.dom());
            },
        }
    }
}

/// Dropping the stale is dropping nothing else, and doing it twice is doing it
/// once.
pub proof fn prune_is_idempotent(entries: Map<usize, CacheEntry>, now_ms: u64)
    ensures
        unexpired(unexpired(entries, now_ms), now_ms) == unexpired(entries, now_ms),
        forall|hwnd: usize| #[trigger]
            unexpired(entries, now_ms).contains_key(hwnd) <==> entries.contains_key(hwnd) && fresh(
                entries[hwnd],
                now_ms,
            ),
{
    assert(unexpired(unexpired(entries, now_ms), now_ms) =~= unexpired(entries, now_ms));
}

/// A window is shown from the cache exactly until the moment that its entry
/// expires; a cache without room keeps nothing, and any other asks for a picture.
pub proof fn lookup_goes_by_the_clock<C>(cache: ThumbCache<C>, hwnd: usize, now_ms: u64)
    ensures
        ({
            let kept = cache.entries@.contains_key(hwnd) && cache.entries@[hwnd].expires_at_ms
                > now_ms;
            &&& cache.spec_lookup(hwnd, now_ms) is Fresh <==> kept
            &&& cache.spec_lookup(hwnd, now_ms) is Disabled <==> !kept && cache.max_entries == 0
            &&& cache.spec_lookup(hwnd, now_ms) is Missing <==> !kept && cache.max_entries > 0
        }),
{
}

/// A window that is shown counts as used now; its picture and its time stay, and
/// so does every other window.
pub proof fn showing_only_notes_the_time(
    entries: Map<usize, CacheEntry>,
    hwnd: usize,
    now_ms: u64,
    other: usize,
)
    requires
        entries.contains_key(hwnd),
    ensures
        ({
            let after = touched(entries, hwnd, now_ms);
            &&& after.contains_key(hwnd)
            &&& after[hwnd].last_access_ms == now_ms
            &&& after[hwnd].expires_at_ms == entries[hwnd].expires_at_ms
            &&& after[hwnd].thumb == entries[hwnd].thumb
            &&& other != hwnd ==> after.contains_key(other) == entries.contains_key(other)
                && after[other] == entries[other]
        }),
{
}

/// What is stored expires a lifetime from now, or at the end of time, and counts
/// as used now. Of the other windows each is as it was or gone, and none goes
/// while there is room or where the window was kept before.
pub proof fn storing_sets_the_time(
    before: Map<usize, CacheEntry>,
    max_entries: usize,
    ttl_ms: u64,
    hwnd: usize,
    thumb: Option<WindowThumb>,
    now_ms: u64,
    after: Map<usize, CacheEntry>,
    other: usize,
)
    requires
        stored(before, max_entries, hwnd, taken(thumb, ttl_ms, now_ms), after),
    ensures
        after.contains_key(hwnd),
        after[hwnd].thumb == thumb,
        after[hwnd].last_access_ms == now_ms,
        now_ms + ttl_ms <= u64::MAX ==> after[hwnd].expires_at_ms == now_ms + ttl_ms,
        now_ms + ttl_ms > u64::MAX ==> after[hwnd].expires_at_ms == u64::MAX,
        other != hwnd && after.contains_key(other) ==> before.contains_key(other) && after[other]
            == before[other],
        other != hwnd && before.contains_key(other) && (before.dom().len() < max_entries
            || before.contains_key(hwnd)) ==> after.contains_key(other),
{
    if before.dom().len() >= max_entries && !before.contains_key(hwnd) {
        let entry = taken(thumb, ttl_ms, now_ms);
        let room = choose|room: Map<usize, CacheEntry>| #[trigger]
            evicted(before, room) && after == room.insert(hwnd, entry);
        if before.dom().len() > 0 {
            let victim = choose|victim: usize| #[trigger]
                least_recent(before, victim) && room == before.remove(victim);
            assert(room == before.remove(victim));
        }
    }
}

/// What is dropped when the cache is full is one window, and no other window was
/// used earlier.
pub proof fn oldest_window_goes(
    before: Map<usize, CacheEntry>,
    after: Map<usize, CacheEntry>,
) -> (gone: usize)
    requires
        before.dom().finite(),
        before.dom().len() > 0,
        evicted(before, after),
    ensures
        before.contains_key(gone),
        !after.contains_key(gone),
        forall|other: usize|
            other != gone ==> #[trigger] after.contains_key(other) == before.contains_key(other)
                && after[other] == before[other],
        forall|other: usize| #[trigger]
            before.contains_key(other) ==> before[other].last_access_ms
                >= before[gone].last_access_ms,
{
    let victim = choose|victim: usize| #[trigger]
        least_recent(before, victim) && after == before.remove(victim);
    victim
}

/// What is left after pruning is what has not expired yet, unchanged.
pub proof fn pruning_drops_what_has_expired(
    entries: Map<usize, CacheEntry>,
    now_ms: u64,
    hwnd: usize,
)
    ensures
        unexpired(entries, now_ms).contains_key(hwnd) <==> entries.contains_key(hwnd)
            && entries[hwnd].expires_at_ms > now_ms,
        unexpired(entries, now_ms).contains_key(hwnd) ==> unexpired(entries, now_ms)[hwnd]
            == entries[hwnd],
{
}

/// What is given back for a window is the picture that is then kept for it: the
/// one that was, where it has not expired, or else what the capturer gives for
/// that window and that side, kept for a lifetime from now. A cache without room
/// gives nothing and keeps nothing.
pub proof fn given_picture_is_the_kept_one<C: FnMut(usize, u32) -> Option<WindowThumb>>(
    cache: ThumbCache<C>,
    hwnd: usize,
    max_side: u32,
    now_ms: u64,
    after: Map<usize, CacheEntry>,
    result: Option<&WindowThumb>,
)
    requires
        cache.got(hwnd, max_side, now_ms, after, result),
    ensures
        ({
            let kept = cache.entries@.contains_key(hwnd) && cache.entries@[hwnd].expires_at_ms
                > now_ms;
            &&& kept ==> after.contains_key(hwnd) && after[hwnd].thumb
                == cache.entries@[hwnd].thumb && after[hwnd].last_access_ms == now_ms
            &&& kept || cache.max_entries > 0 ==> after.contains_key(hwnd) && match result {
                Some(t) => after[hwnd].thumb == Some(*t),
                None => after[hwnd].thumb is None,
            }
            &&& !kept && cache.max_entries > 0 ==> call_ensures(
                cache.capturer->0,
                (hwnd, max_side),
                after[hwnd].thumb,
            ) && (after[hwnd].expires_at_ms == now_ms + cache.ttl_ms || (after[hwnd].expires_at_ms
                == u64::MAX && now_ms + cache.ttl_ms > u64::MAX))
            &&& !kept && cache.max_entries == 0 ==> after == cache.entries@ && result is None
        }),
{
    match cache.spec_lookup(hwnd, now_ms) {
        Lookup::Missing => {
            let thumb = choose|thumb: Option<WindowThumb>|
                call_ensures(cache.capturer->0, (hwnd, max_side), thumb) && stored(
                    cache.entries@,
                    cache.max_entries,
                    hwnd,
                    #[trigger] taken(thumb, cache.ttl_ms, now_ms),
                    after,
                ) && shows(result, thumb);
            storing_sets_the_time(
                cache.entries@,
                cache.max_entries,
                cache.ttl_ms,
                hwnd,
                thumb,
                now_ms,
                after,
                hwnd,
            );
        },
        _ => {},
    }
}

} // verus!
