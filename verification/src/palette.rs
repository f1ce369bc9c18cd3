use vstd::prelude::*;
use crate::theme::ColorPair;

verus! {

/// An order the terminal driver must be given: register `pair` under
/// slot `slot` (each color first reduced to the driver's palette by the
/// closest-color step).
#[derive(Clone, Copy, PartialEq, Eq, Structural, Debug)]
pub struct Define {
    pub slot: i16,
    pub pair: ColorPair,
}

/// The keys cached so far, oldest first. The slot of the pair at
/// position `i` is `i + 1`: slot `0` stays the terminal's default pair.
pub open spec fn pal_keys(entries: Seq<(ColorPair, i16)>) -> Seq<ColorPair> {
    entries.map_values(|e: (ColorPair, i16)| e.0)
}

/// Position of a pair among the cached keys (meaningful when the keys
/// are distinct and the pair is present).
pub open spec fn pal_index(keys: Seq<ColorPair>, pair: ColorPair) -> int {
    choose|i: int| 0 <= i < keys.len() && keys[i] == pair
}

/// The slot a request for `pair` is answered with, against capacity
/// `cap`: the memoized slot when cached; the next free slot while room
/// remains; otherwise the highest slot, `cap - 1`, reclaimed.
pub open spec fn pal_slot(keys: Seq<ColorPair>, cap: int, pair: ColorPair) -> int {
    if keys.contains(pair) {
        pal_index(keys, pair) + 1
    } else if keys.len() < cap - 1 {
        keys.len() as int + 1
    } else {
        cap - 1
    }
}

/// The cached keys after a request for `pair`: unchanged when cached;
/// extended while room remains; otherwise the holder of the highest
/// slot is evicted and `pair` takes its place.
pub open spec fn pal_insert(keys: Seq<ColorPair>, cap: int, pair: ColorPair) -> Seq<ColorPair> {
    if keys.contains(pair) {
        keys
    } else if keys.len() < cap - 1 {
        keys.push(pair)
    } else {
        keys.drop_last().push(pair)
    }
}

/// Whether a request for `pair` must be passed on to the driver.
pub open spec fn pal_defines(keys: Seq<ColorPair>, pair: ColorPair) -> bool {
    !keys.contains(pair)
}

/// The color-pair cache of one terminal session, together with the
/// style currently applied.
///
/// It maps each requested foreground/background pair to a driver slot
/// in `1 ..= capacity - 1` and never holds more than `capacity - 1`
/// entries. When full it always reclaims the highest slot — a
/// deliberate, non-LRU policy kept for driver compatibility, at the
/// price of possible flicker when cycling through more distinct pairs
/// than the terminal has slots.
pub struct Palette {
    entries: Vec<(ColorPair, i16)>,
    capacity: i32,
    current: ColorPair,
}

impl Palette {
    /// The cached keys, oldest first; the pair at position `i` owns
    /// slot `i + 1`.
    pub closed spec fn keys(&self) -> Seq<ColorPair> {
        pal_keys(self.entries@)
    }

    /// The terminal-reported ceiling on color pairs.
    pub closed spec fn spec_capacity(&self) -> int {
        self.capacity as int
    }

    /// The style most recently recorded as current.
    pub closed spec fn spec_current(&self) -> ColorPair {
        self.current
    }

    /// Cache shape: slots follow positions, keys never repeat, and the
    /// entry count stays under the capacity (slot 0 is reserved).
    pub closed spec fn wf(&self) -> bool {
        &&& 2 <= self.capacity <= 0x7FFF
        &&& self.entries@.len() <= self.capacity - 1
        &&& forall|i: int| 0 <= i < self.entries@.len() ==> #[trigger] self.entries@[i].1 == i + 1
        &&& forall|i: int, j: int|
            0 <= i < self.entries@.len() && 0 <= j < self.entries@.len() && i != j
                ==> self.entries@[i].0 != self.entries@[j].0
    }

    /// An empty cache for a terminal that reports room for `capacity`
    /// pairs. Slots are 16-bit on the driver side, whence the ceiling.
    pub fn new(capacity: i32, initial_style: ColorPair) -> (r: Palette)
        requires
            2 <= capacity <= 0x7FFF,
        ensures
            r.wf(),
            r.keys() == Seq::<ColorPair>::empty(),
            r.spec_capacity() == capacity,
            r.spec_current() == initial_style,
    {
        let r = Palette { entries: Vec::new(), capacity, current: initial_style };
        proof {
            assert(r.keys() =~= Seq::<ColorPair>::empty());
        }
        r
    }

    pub fn capacity(&self) -> (r: i32)
        ensures
            r as int == self.spec_capacity(),
    {
        self.capacity
    }

    pub fn len(&self) -> (r: usize)
        ensures
            r as int == self.keys().len(),
    {
        self.entries.len()
    }

    pub fn current_style(&self) -> (r: ColorPair)
        ensures
            r == self.spec_current(),
    {
        self.current
    }

    /// The slot for `pair`, memoized: a cached pair is answered from
    /// the cache alone, with no driver order; a new pair is assigned
    /// the next free slot, or — once the cache holds `capacity - 1`
    /// entries — always reclaims the highest slot, `capacity - 1`,
    /// evicting whichever pair held it.
    pub fn get_or_create(&mut self, pair: ColorPair) -> (r: (i16, Option<Define>))
        requires
            old(self).wf(),
        ensures
            final(self).wf(),
            final(self).spec_capacity() == old(self).spec_capacity(),
            final(self).spec_current() == old(self).spec_current(),
            final(self).keys() == pal_insert(old(self).keys(), old(self).spec_capacity(), pair),
            r.0 as int == pal_slot(old(self).keys(), old(self).spec_capacity(), pair),
            1 <= r.0 as int <= old(self).spec_capacity() - 1,
            final(self).keys().contains(pair),
            (r.1 is Some) == pal_defines(old(self).keys(), pair),
            r.1 matches Some(d) ==> d == (Define { slot: r.0, pair }),
    {
        let ghost old_keys = self.keys();
        let ghost cap = self.capacity as int;
        let n = self.entries.len();
        let mut i: usize = 0;
        while i < n
            invariant
                *self == *old(self),
                self.wf(),
                old_keys == self.keys(),
                cap == self.capacity as int,
                n == self.entries@.len(),
                0 <= i <= n,
                forall|j: int| 0 <= j < i ==> #[trigger] self.entries@[j].0 != pair,
            decreases n - i,
        {
            if self.entries[i].0 == pair {
                proof {
                    assert(old_keys[i as int] == pair);
                    assert(old_keys.contains(pair));
                    let w = pal_index(old_keys, pair);
                    assert(0 <= w < old_keys.len() && old_keys[w] == pair);
                    assert(self.entries@[w].0 == old_keys[w]);
                    assert(w == i as int);
                }
                return (self.entries[i].1, None);
            }
            i = i + 1;
        }
        proof {
            assert forall|j: int| 0 <= j < old_keys.len() implies old_keys[j] != pair by {
                assert(self.entries@[j].0 != pair);
            }
            assert(!old_keys.contains(pair));
        }
        let count = self.entries.len() as i32;
        if self.capacity > count + 1 {
            // Room remains: hand out the next slot.
            let slot = (count + 1) as i16;
            self.entries.push((pair, slot));
            proof {
                assert(self.keys() =~= old_keys.push(pair));
                assert(self.keys()[old_keys.len() as int] == pair);
            }
            (slot, Some(Define { slot, pair }))
        } else {
            // Capacity reached: reclaim the highest slot for this pair.
            let slot = count as i16;
            let _ = self.entries.pop();
            self.entries.push((pair, slot));
            proof {
                assert(self.keys() =~= old_keys.drop_last().push(pair));
                assert(self.keys()[self.keys().len() - 1] == pair);
            }
            (slot, Some(Define { slot, pair }))
        }
    }

    /// Records `pair` as the current style and returns what to apply:
    /// its slot, and the driver order when the pair was not yet cached.
    pub fn set_colors(&mut self, pair: ColorPair) -> (r: (i16, Option<Define>))
        requires
            old(self).wf(),
        ensures
            final(self).wf(),
            final(self).spec_capacity() == old(self).spec_capacity(),
            final(self).spec_current() == pair,
            final(self).keys() == pal_insert(old(self).keys(), old(self).spec_capacity(), pair),
            r.0 as int == pal_slot(old(self).keys(), old(self).spec_capacity(), pair),
            (r.1 is Some) == pal_defines(old(self).keys(), pair),
            r.1 matches Some(d) ==> d == (Define { slot: r.0, pair }),
    {
        let r = self.get_or_create(pair);
        self.current = pair;
        r
    }

    /// The decision behind a scoped style change: apply `pair` (and
    /// record it as current) only when it is not current already.
    /// Restoring is the same call with the saved previous style.
    pub fn switch_to(&mut self, pair: ColorPair) -> (r: Option<(i16, Option<Define>)>)
        requires
            old(self).wf(),
        ensures
            final(self).wf(),
            final(self).spec_capacity() == old(self).spec_capacity(),
            (r is None) <==> pair == old(self).spec_current(),
            r is None ==> *final(self) == *old(self),
            r matches Some(a) ==> {
                &&& final(self).spec_current() == pair
                &&& final(self).keys() == pal_insert(old(self).keys(), old(self).spec_capacity(), pair)
                &&& a.0 as int == pal_slot(old(self).keys(), old(self).spec_capacity(), pair)
                &&& (a.1 is Some) == pal_defines(old(self).keys(), pair)
                &&& (a.1 matches Some(d) ==> d == (Define { slot: a.0, pair }))
            },
    {
        if pair == self.current {
            None
        } else {
            Some(self.set_colors(pair))
        }
    }
}

/// The cached keys after a whole sequence of requests, first first.
pub open spec fn pal_insert_all(keys: Seq<ColorPair>, cap: int, reqs: Seq<ColorPair>) -> Seq<
    ColorPair,
>
    decreases reqs.len(),
{
    if reqs.len() == 0 {
        keys
    } else {
        pal_insert_all(pal_insert(keys, cap, reqs.first()), cap, reqs.drop_first())
    }
}

/// Capacity bound: after any number of requests the cache holds at most
/// `cap - 1` entries, and the pair requested last is always present.
pub proof fn lemma_capacity_bound(keys: Seq<ColorPair>, cap: int, reqs: Seq<ColorPair>)
    requires
        2 <= cap,
        keys.len() <= cap - 1,
    ensures
        pal_insert_all(keys, cap, reqs).len() <= cap - 1,
        reqs.len() > 0 ==> pal_insert_all(keys, cap, reqs).contains(reqs.last()),
    decreases reqs.len(),
{
    if reqs.len() > 0 {
        let r0 = reqs.first();
        let after = pal_insert(keys, cap, r0);
        assert(after.contains(r0) && after.len() <= cap - 1) by {
            if keys.contains(r0) {
            } else if keys.len() < cap - 1 {
                assert(after[keys.len() as int] == r0);
            } else {
                assert(after[after.len() - 1] == r0);
            }
        }
        lemma_capacity_bound(after, cap, reqs.drop_first());
        if reqs.len() == 1 {
            assert(pal_insert_all(after, cap, reqs.drop_first()) == after);
            assert(reqs.last() == r0);
        } else {
            assert(reqs.drop_first().last() == reqs.last());
        }
    }
}

/// Memoization: once a pair has been requested, requesting it again
/// returns the very slot it holds, orders nothing from the driver, and
/// leaves the cache as it was.
pub proof fn lemma_memoization(keys: Seq<ColorPair>, cap: int, pair: ColorPair)
    requires
        2 <= cap,
        keys.len() <= cap - 1,
    ensures
        ({
            let after = pal_insert(keys, cap, pair);
            &&& !pal_defines(after, pair)
            &&& pal_insert(after, cap, pair) == after
            &&& pal_slot(after, cap, pair) == pal_slot(keys, cap, pair)
        }),
{
    let after = pal_insert(keys, cap, pair);
    if keys.contains(pair) {
        assert(after == keys);
    } else if keys.len() < cap - 1 {
        assert(after[keys.len() as int] == pair);
        assert(after.contains(pair));
        lemma_index_of_unique_tail(keys, pair);
    } else {
        assert(!keys.drop_last().contains(pair)) by {
            if keys.drop_last().contains(pair) {
                let w = choose|i: int|
                    0 <= i < keys.drop_last().len() && keys.drop_last()[i] == pair;
                assert(keys.drop_last()[w] == keys[w]);
                assert(keys.contains(pair));
            }
        }
        assert(after[after.len() - 1] == pair);
        assert(after.contains(pair));
        lemma_index_of_unique_tail(keys.drop_last(), pair);
    }
}

/// When `pair` stands last in `keys.push(pair)` and nowhere else, a
/// request for it is answered with the last position's slot.
proof fn lemma_index_of_unique_tail(keys: Seq<ColorPair>, pair: ColorPair)
    requires
        !keys.contains(pair),
    ensures
        pal_index(keys.push(pair), pair) == keys.len(),
{
    let s = keys.push(pair);
    assert(s[keys.len() as int] == pair);
    assert(s.contains(pair));
    let w = pal_index(s, pair);
    assert(0 <= w < s.len() && s[w] == pair);
    if w < keys.len() {
        assert(keys[w] == s[w]);
        assert(keys.contains(pair));
    }
}

/// Eviction determinism: once the cache is full, a request for a pair
/// it does not hold always reclaims the highest slot, `cap - 1`, and
/// it is the pair that held that slot which leaves.
pub proof fn lemma_eviction(keys: Seq<ColorPair>, cap: int, pair: ColorPair)
    requires
        keys.len() == cap - 1,
        !keys.contains(pair),
        2 <= cap,
        forall|i: int, j: int|
            0 <= i < keys.len() && 0 <= j < keys.len() && i != j ==> keys[i] != keys[j],
    ensures
        pal_slot(keys, cap, pair) == cap - 1,
        pal_insert(keys, cap, pair) == keys.drop_last().push(pair),
        !pal_insert(keys, cap, pair).contains(keys.last()),
{
    let after = pal_insert(keys, cap, pair);
    assert(after == keys.drop_last().push(pair));
    assert(keys[keys.len() - 1] == keys.last());
    if after.contains(keys.last()) {
        let w = choose|i: int| 0 <= i < after.len() && after[i] == keys.last();
        if w < keys.len() - 1 {
            assert(after[w] == keys.drop_last()[w]);
            assert(keys.drop_last()[w] == keys[w]);
            assert(keys[w] == keys.last());
            assert(keys[w] != keys[keys.len() - 1]);
        } else {
            assert(after[w] == pair);
        }
    }
}

} // verus!
