//! Collections of named entries: their model, and the list that holds
//! them. Names are text that the user edits, so such a collection is kept
//! as a list: no two entries share a name, and the entries stand in the
//! order in which they were made, which is the order in which they are
//! shown. Each entry carries the stamp that a counter gave it when it was
//! made; the list is ascending in the stamps.
use vstd::prelude::*;
use crate::utils::{
    answers, decides, lemma_first_drawn_at, lemma_picked, lemma_picks, name_from_draws, name_of,
    picked, rand_name, spelled, TimeSortedContainer,
};

verus! {

/// One entry of a keyed collection as contracts see it: the name it goes
/// by, the stamp it got when it was made, and what it holds.
pub struct Slot<V> {
    pub name: Seq<char>,
    pub time: u64,
    pub val: V,
}

/// A keyed collection as contracts see it. The entries stand in the order in
/// which they are shown; `clock` is the stamp that the next new entry gets.
pub struct Keyed<V> {
    pub slots: Seq<Slot<V>>,
    pub clock: u64,
}

impl<V> Keyed<V> {
    /// The collection without entries, whose clock stands at zero.
    pub open spec fn empty() -> Self {
        Keyed { slots: Seq::empty(), clock: 0 }
    }

    /// No two entries go by the same name.
    pub open spec fn distinct_names(self) -> bool {
        forall|i: int, j: int|
            0 <= i < j < self.slots.len() ==> (#[trigger] self.slots[i]).name != (
            #[trigger] self.slots[j]).name
    }

    /// The entries stand in ascending order of their stamps, and none is
    /// stamped later than the clock.
    pub open spec fn ascending(self) -> bool {
        &&& forall|i: int, j: int|
            0 <= i < j < self.slots.len() ==> (#[trigger] self.slots[i]).time <= (
            #[trigger] self.slots[j]).time
        &&& forall|i: int|
            0 <= i < self.slots.len() ==> (#[trigger] self.slots[i]).time <= self.clock
    }

    /// What holds of every collection that the library makes.
    pub open spec fn wf(self) -> bool {
        self.distinct_names() && self.ascending()
    }

    /// Some entry goes by `name`.
    pub open spec fn has(self, name: Seq<char>) -> bool {
        exists|i: int| 0 <= i < self.slots.len() && (#[trigger] self.slots[i]).name == name
    }

    /// Where the entry named `name` stands, if there is one.
    pub open spec fn position(self, name: Seq<char>) -> int {
        choose|i: int| 0 <= i < self.slots.len() && (#[trigger] self.slots[i]).name == name
    }

    /// The entry named `name`.
    pub open spec fn get(self, name: Seq<char>) -> Option<Slot<V>> {
        if self.has(name) {
            Some(self.slots[self.position(name)])
        } else {
            None
        }
    }

    /// The names in the order in which the entries are shown.
    pub open spec fn names(self) -> Seq<Seq<char>> {
        self.slots.map_values(|s: Slot<V>| s.name)
    }

    /// The clock after one more entry was stamped. It stops at the largest
    /// stamp there is.
    pub open spec fn tick(self) -> u64 {
        if self.clock < u64::MAX {
            (self.clock + 1) as u64
        } else {
            self.clock
        }
    }

    /// The collection without the entry named `name`.
    pub open spec fn remove(self, name: Seq<char>) -> Self {
        if self.has(name) {
            Keyed { slots: self.slots.remove(self.position(name)), clock: self.clock }
        } else {
            self
        }
    }

    /// The collection after `val` was put under `name`: whatever went by
    /// that name before is gone, and the new entry is the latest.
    pub open spec fn insert(self, name: Seq<char>, val: V) -> Self {
        Keyed {
            slots: self.remove(name).slots.push(Slot { name, time: self.clock, val }),
            clock: self.tick(),
        }
    }

    /// The collection with `val` in the entry named `name`, which keeps its
    /// place and its stamp.
    pub open spec fn set(self, name: Seq<char>, val: V) -> Self {
        if self.has(name) {
            let i = self.position(name);
            Keyed {
                slots: self.slots.update(i, Slot { name, time: self.slots[i].time, val }),
                clock: self.clock,
            }
        } else {
            self
        }
    }

    /// The collection after the entry named `from` took the name `to`. The
    /// entry keeps its place, its stamp and what it holds; an entry that
    /// went by `to` before is gone. Without an entry named `from` nothing
    /// changes.
    pub open spec fn rename(self, from: Seq<char>, to: Seq<char>) -> Self {
        if !self.has(from) || from == to {
            self
        } else {
            let rest = self.remove(to);
            let i = rest.position(from);
            Keyed {
                slots: rest.slots.update(
                    i,
                    Slot { name: to, time: rest.slots[i].time, val: rest.slots[i].val },
                ),
                clock: self.clock,
            }
        }
    }

    /// The collection with `f` applied to what each entry holds. Names,
    /// stamps and places stay.
    pub open spec fn map<W>(self, f: spec_fn(V) -> W) -> Keyed<W> {
        Keyed {
            slots: self.slots.map_values(
                |s: Slot<V>| Slot { name: s.name, time: s.time, val: f(s.val) },
            ),
            clock: self.clock,
        }
    }

    /// The names with what goes by them, in the order in which the entries
    /// are shown. This is what is kept of a collection when it is stored:
    /// the stamps are not.
    pub open spec fn entries(self) -> Seq<(Seq<char>, V)> {
        self.slots.map_values(|s: Slot<V>| (s.name, s.val))
    }

    /// The collection that comes of putting in `items` one after the other,
    /// each under its name.
    pub open spec fn load(items: Seq<(Seq<char>, V)>) -> Keyed<V>
        decreases items.len(),
    {
        if items.len() == 0 {
            Keyed::empty()
        } else {
            Keyed::load(items.drop_last()).insert(items.last().0, items.last().1)
        }
    }

    /// Tells of each name whether an entry goes by it.
    pub open spec fn taken(self) -> spec_fn(Seq<char>) -> bool {
        |name: Seq<char>| self.has(name)
    }

    /// The default name that a new entry gets when `draws` are the bytes
    /// drawn, in order, or `None` where every default name is taken.
    pub open spec fn fresh_name(self, draws: Seq<u8>) -> Option<Seq<char>> {
        picked(self.taken(), draws)
    }

    /// The collection after a new entry that holds `val` was added under a
    /// default name. With every default name taken nothing changes.
    pub open spec fn add(self, draws: Seq<u8>, val: V) -> Self {
        match self.fresh_name(draws) {
            Some(name) => self.insert(name, val),
            None => self,
        }
    }

    /// The collection with `val` in the entry at `i`, which keeps its name
    /// and its stamp.
    pub open spec fn put(self, i: int, val: V) -> Self {
        Keyed {
            slots: self.slots.update(
                i,
                Slot { name: self.slots[i].name, time: self.slots[i].time, val },
            ),
            clock: self.clock,
        }
    }

    /// Every one of the 256 default names is taken.
    pub open spec fn full(self) -> bool {
        forall|b: u8| self.has(#[trigger] name_of(b))
    }
}

/// In a collection with distinct names, the entry at `i` is the one that
/// its name finds.
pub proof fn lemma_position<V>(k: Keyed<V>, i: int)
    requires
        k.distinct_names(),
        0 <= i < k.slots.len(),
    ensures
        k.has(k.slots[i].name),
        k.position(k.slots[i].name) == i,
        k.get(k.slots[i].name) == Some(k.slots[i]),
{
    let p = k.position(k.slots[i].name);
    assert(0 <= p < k.slots.len() && k.slots[p].name == k.slots[i].name);
}

/// Taking an entry away keeps the collection well formed, and leaves every
/// other name with what it had.
pub proof fn lemma_remove<V>(k: Keyed<V>, name: Seq<char>)
    requires
        k.wf(),
    ensures
        k.remove(name).wf(),
        !k.remove(name).has(name),
        forall|other: Seq<char>| other != name ==> k.remove(name).get(other) == k.get(other),
{
    let r = k.remove(name);
    if k.has(name) {
        let p = k.position(name);
        if r.has(name) {
            let q = r.position(name);
            let oq = if q < p { q } else { q + 1 };
            lemma_position(k, oq);
        }
        assert forall|other: Seq<char>| other != name implies r.get(other) == k.get(other) by {
            if k.has(other) {
                let o = k.position(other);
                let ro = if o < p { o } else { o - 1 };
                assert(r.slots[ro] == k.slots[o]);
                lemma_position(r, ro);
            } else if r.has(other) {
                let q = r.position(other);
                let oq = if q < p { q } else { q + 1 };
                assert(r.slots[q] == k.slots[oq]);
                assert(k.has(other));
            }
        }
    }
}

/// Putting a value under a name keeps the collection well formed. The name
/// then finds the new entry, and every other name what it found before.
pub proof fn lemma_insert<V>(k: Keyed<V>, name: Seq<char>, val: V)
    requires
        k.wf(),
    ensures
        k.insert(name, val).wf(),
        k.insert(name, val).get(name) == Some(Slot { name, time: k.clock, val }),
        forall|other: Seq<char>|
            other != name ==> k.insert(name, val).get(other) == k.get(other),
{
    let rest = k.remove(name);
    let r = k.insert(name, val);
    let last = rest.slots.len() as int;
    lemma_remove(k, name);
    lemma_position(r, last);
    assert forall|other: Seq<char>| other != name implies r.get(other) == k.get(other) by {
        if rest.has(other) {
            let o = rest.position(other);
            assert(r.slots[o] == rest.slots[o]);
            lemma_position(r, o);
        } else if r.has(other) {
            let q = r.position(other);
            assert(r.slots[q] == rest.slots[q]);
            assert(rest.has(other));
        }
    }
}

/// Renaming keeps the collection well formed. Where an entry went by
/// `from`, the name `to` then finds that entry, with its stamp and what it
/// held, whatever `to` found before; `from` finds nothing; every other name
/// finds what it found before.
pub proof fn lemma_rename<V>(k: Keyed<V>, from: Seq<char>, to: Seq<char>)
    requires
        k.wf(),
    ensures
        k.rename(from, to).wf(),
        k.has(from) ==> k.rename(from, to).get(to) == Some(
            Slot { name: to, time: k.get(from).unwrap().time, val: k.get(from).unwrap().val },
        ),
        k.has(from) && from != to ==> !k.rename(from, to).has(from),
        forall|other: Seq<char>|
            other != from && other != to ==> k.rename(from, to).get(other) == k.get(other),
{
    let r = k.rename(from, to);
    if k.has(from) && from == to {
        lemma_position(k, k.position(from));
    } else if k.has(from) {
        let rest = k.remove(to);
        lemma_remove(k, to);
        let i = rest.position(from);
        lemma_position(r, i);
        if r.has(from) {
            let q = r.position(from);
            lemma_position(rest, q);
        }
        assert forall|other: Seq<char>| other != from && other != to implies r.get(other) == k.get(
            other,
        ) by {
            if rest.has(other) {
                let o = rest.position(other);
                assert(r.slots[o] == rest.slots[o]);
                lemma_position(r, o);
            } else if r.has(other) {
                let q = r.position(other);
                assert(r.slots[q] == rest.slots[q]);
                assert(rest.has(other));
            }
        }
    }
}

/// Changing what the entries hold keeps the collection well formed, and
/// each name finds the changed value of what it found before.
pub proof fn lemma_map<V, W>(k: Keyed<V>, f: spec_fn(V) -> W)
    requires
        k.wf(),
    ensures
        k.map(f).wf(),
        k.map(f).names() == k.names(),
        forall|name: Seq<char>| k.map(f).has(name) == k.has(name),
        forall|name: Seq<char>|
            k.has(name) ==> k.map(f).position(name) == k.position(name) && k.map(f).get(name)
                == Some(
                Slot { name, time: k.get(name).unwrap().time, val: f(k.get(name).unwrap().val) },
            ),
{
    let r = k.map(f);
    assert forall|name: Seq<char>| r.has(name) == k.has(name) by {
        if k.has(name) {
            let p = k.position(name);
            assert(r.slots[p].name == name);
        }
        if r.has(name) {
            let p = r.position(name);
            assert(k.slots[p].name == name);
        }
    }
}

/// Putting a value under a name and then changing what the entries hold
/// gives what changing first and putting the changed value gives.
pub proof fn lemma_map_insert<V, W>(k: Keyed<V>, f: spec_fn(V) -> W, name: Seq<char>, val: V)
    requires
        k.wf(),
    ensures
        k.insert(name, val).map(f) == k.map(f).insert(name, f(val)),
{
    lemma_map(k, f);
    assert(k.insert(name, val).map(f).slots =~= k.map(f).insert(name, f(val)).slots);
}

/// A collection that is stored and loaded again holds the same names with
/// the same values in the same order.
pub proof fn lemma_reload<V>(k: Keyed<V>)
    requires
        k.distinct_names(),
    ensures
        Keyed::load(k.entries()).entries() == k.entries(),
{
    lemma_reload_prefix(k, k.slots.len() as int);
    assert(k.entries().take(k.slots.len() as int) =~= k.entries());
}

proof fn lemma_reload_prefix<V>(k: Keyed<V>, n: int)
    requires
        k.distinct_names(),
        0 <= n <= k.slots.len(),
    ensures
        Keyed::load(k.entries().take(n)).entries() == k.entries().take(n),
    decreases n,
{
    let items = k.entries().take(n);
    if n > 0 {
        lemma_reload_prefix(k, n - 1);
        let before = Keyed::load(k.entries().take(n - 1));
        assert(items.drop_last() =~= k.entries().take(n - 1));
        let name = items.last().0;
        if before.has(name) {
            let p = before.position(name);
            assert(before.entries()[p].0 == name);
        }
    }
}

/// Adding under a default name keeps the names distinct, and fails only in
/// a collection that holds all 256 default names: the new entry never takes
/// a name that is in use, whatever bytes are drawn.
pub proof fn lemma_add<V>(k: Keyed<V>, draws: Seq<u8>, val: V)
    requires
        k.wf(),
    ensures
        k.add(draws, val).wf(),
        k.fresh_name(draws).is_none() <==> k.full(),
        k.fresh_name(draws).is_some() ==> {
            let name = k.fresh_name(draws).unwrap();
            &&& !k.has(name)
            &&& exists|b: u8| name == name_of(b)
            &&& k.add(draws, val).slots == k.slots.push(Slot { name, time: k.clock, val })
        },
        k.fresh_name(draws).is_none() ==> k.add(draws, val) == k,
{
    lemma_picked(k.taken(), draws);
    if k.fresh_name(draws).is_some() {
        lemma_insert(k, k.fresh_name(draws).unwrap(), val);
    }
}

/// Changing what the entry at a place holds keeps the collection well
/// formed; it is the change of what the entry's name finds.
pub proof fn lemma_put<V>(k: Keyed<V>, i: int, val: V)
    requires
        k.wf(),
        0 <= i < k.slots.len(),
    ensures
        k.put(i, val).wf(),
        k.put(i, val) == k.set(k.slots[i].name, val),
{
    lemma_position(k, i);
}

/// A value of which a copy can be made that contracts see as they see the
/// value.
pub trait Replicate: View + Sized {
    fn replicate(&self) -> (copy: Self)
        ensures
            copy@ == self@,
    ;
}

/// A list of named values in the order in which they were made. No two of
/// them share a name; each carries the stamp that the list's counter gave
/// it when it was put in.
#[derive(Debug)]
pub struct KeyedList<T> {
    entries: Vec<(String, TimeSortedContainer<T>)>,
    clock: u64,
}

/// A named value as contracts see it.
pub closed spec fn slot_of<T: View>(entry: (String, TimeSortedContainer<T>)) -> Slot<T::V> {
    Slot { name: entry.0@, time: entry.1.time, val: entry.1.val@ }
}

impl<T: View> View for KeyedList<T> {
    type V = Keyed<T::V>;

    closed spec fn view(&self) -> Keyed<T::V> {
        Keyed {
            slots: self.entries@.map_values(|e: (String, TimeSortedContainer<T>)| slot_of(e)),
            clock: self.clock,
        }
    }
}

impl<T: View> KeyedList<T> {
    /// The empty list.
    pub fn new() -> (list: Self)
        ensures
            list@ == Keyed::<T::V>::empty(),
            list@.wf(),
    {
        let list = KeyedList { entries: Vec::new(), clock: 0 };
        assert(list@.slots =~= Seq::empty());
        list
    }

    pub fn len(&self) -> (len: usize)
        ensures
            len == self@.slots.len(),
    {
        self.entries.len()
    }

    /// Tells whether the list is well formed. Every list that the library
    /// makes is; the test is for those who cannot know where a list comes
    /// from.
    pub fn is_wf(&self) -> (ok: bool)
        ensures
            ok == self@.wf(),
    {
        let mut i: usize = 0;
        while i < self.entries.len()
            invariant
                i <= self.entries.len(),
                forall|a: int, b: int|
                    0 <= a < i && a < b < self@.slots.len() ==> (#[trigger] self@.slots[a]).name != (
                    #[trigger] self@.slots[b]).name && self@.slots[a].time <= self@.slots[b].time,
                forall|a: int| 0 <= a < i ==> (#[trigger] self@.slots[a]).time <= self@.clock,
            decreases self.entries.len() - i,
        {
            if self.entries[i].1.time > self.clock {
                assert(self@.slots[i as int].time > self@.clock);
                return false;
            }
            let mut j: usize = i + 1;
            while j < self.entries.len()
                invariant
                    i < j <= self.entries.len(),
                    forall|b: int|
                        i < b < j ==> self@.slots[i as int].name != (#[trigger] self@.slots[b]).name
                            && self@.slots[i as int].time <= self@.slots[b].time,
                decreases self.entries.len() - j,
            {
                if self.entries[i].0 == self.entries[j].0 || self.entries[i].1.time
                    > self.entries[j].1.time {
                    assert(self@.slots[i as int].name == self@.slots[j as int].name
                        || self@.slots[i as int].time > self@.slots[j as int].time);
                    return false;
                }
                j = j + 1;
            }
            i = i + 1;
        }
        true
    }

    /// Where the value named `key` stands, if there is one.
    pub fn index_of(&self, key: &String) -> (found: Option<usize>)
        requires
            self@.wf(),
        ensures
            match found {
                Some(i) => self@.has(key@) && i == self@.position(key@) && i < self@.slots.len(),
                None => !self@.has(key@),
            },
    {
        let mut i: usize = 0;
        while i < self.entries.len()
            invariant
                i <= self.entries.len(),
                self@.wf(),
                forall|j: int| 0 <= j < i ==> (#[trigger] self@.slots[j]).name != key@,
            decreases self.entries.len() - i,
        {
            if self.entries[i].0 == *key {
                proof {
                    lemma_position(self@, i as int);
                }
                return Some(i);
            }
            i = i + 1;
        }
        None
    }

    /// Tells whether a value goes by `key`.
    pub fn contains_key(&self, key: &String) -> (found: bool)
        requires
            self@.wf(),
        ensures
            found == self@.has(key@),
    {
        self.index_of(key).is_some()
    }

    /// The name of the value at `i`.
    pub fn name(&self, i: usize) -> (name: &String)
        requires
            i < self@.slots.len(),
        ensures
            name@ == self@.slots[i as int].name,
    {
        &self.entries[i].0
    }

    /// The value at `i`.
    pub fn value(&self, i: usize) -> (val: &T)
        requires
            i < self@.slots.len(),
        ensures
            val@ == self@.slots[i as int].val,
    {
        &self.entries[i].1.val
    }

    /// Puts `val` in the place of the value at `i` and hands back the value
    /// that was there. The entry keeps its name and its stamp.
    pub fn replace(&mut self, i: usize, val: T) -> (prior: T)
        requires
            i < old(self)@.slots.len(),
        ensures
            prior@ == old(self)@.slots[i as int].val,
            final(self)@ == old(self)@.put(i as int, val@),
    {
        let mut val = val;
        std::mem::swap(&mut self.entries[i].1.val, &mut val);
        assert(self@.slots =~= old(self)@.put(i as int, self.entries@[i as int].1.val@).slots);
        val
    }

    /// Removes the value named `key`, if there is one.
    pub fn remove(&mut self, key: &String)
        requires
            old(self)@.wf(),
        ensures
            final(self)@ == old(self)@.remove(key@),
            final(self)@.wf(),
    {
        proof {
            lemma_remove(self@, key@);
        }
        if let Some(i) = self.index_of(key) {
            self.entries.remove(i);
            assert(self@.slots =~= old(self)@.remove(key@).slots);
        }
    }

    /// Puts `val` under `name` as the latest entry. A value that went by
    /// that name before is gone.
    pub fn insert(&mut self, name: String, val: T)
        requires
            old(self)@.wf(),
        ensures
            final(self)@ == old(self)@.insert(name@, val@),
            final(self)@.wf(),
    {
        proof {
            lemma_insert(self@, name@, val@);
        }
        self.remove(&name);
        let time = self.clock;
        self.entries.push((name, TimeSortedContainer::new(val, time)));
        if self.clock < u64::MAX {
            self.clock = self.clock + 1;
        }
        assert(self@.slots =~= old(self)@.insert(name@, val@).slots);
    }

    /// Gives the value named `key` the name `new_key`. The value keeps its
    /// place and its stamp; a value that went by `new_key` before is gone.
    /// Without a value named `key` nothing changes.
    pub fn rename(&mut self, key: &String, new_key: String)
        requires
            old(self)@.wf(),
        ensures
            final(self)@ == old(self)@.rename(key@, new_key@),
            final(self)@.wf(),
    {
        proof {
            lemma_rename(self@, key@, new_key@);
        }
        if self.contains_key(key) && *key != new_key {
            self.remove(&new_key);
            proof {
                lemma_remove(old(self)@, new_key@);
            }
            let found = self.index_of(key);
            let i = found.unwrap();
            self.entries[i].0 = new_key;
            assert(self@.slots =~= old(self)@.rename(key@, new_key@).slots);
        }
    }

    /// Adds `val` under the default name that is picked when `draws` are
    /// the bytes drawn, in order, and tells whether there was one. With all
    /// 256 default names taken nothing changes.
    pub fn add_from(&mut self, draws: &Vec<u8>, val: T) -> (added: bool)
        requires
            old(self)@.wf(),
        ensures
            final(self)@ == old(self)@.add(draws@, val@),
            added == old(self)@.fresh_name(draws@).is_some(),
            added == !old(self)@.full(),
            final(self)@.wf(),
    {
        proof {
            lemma_add(self@, draws@, val@);
        }
        let test = |name: &String| -> (taken: bool)
            requires
                self@.wf(),
            ensures
                taken == self@.has(name@),
            { self.contains_key(name) };
        let found = name_from_draws(&test, draws);
        proof {
            lemma_picks(test, self@.taken(), draws@, spelled(found));
        }
        match found {
            Some(name) => {
                self.insert(name, val);
                true
            },
            None => false,
        }
    }

    /// Adds `val` under a default name that is free, picked with bytes
    /// drawn at random, and tells whether there was one. With all 256
    /// default names taken nothing changes.
    pub fn add(&mut self, val: T) -> (added: bool)
        requires
            old(self)@.wf(),
        ensures
            exists|draws: Seq<u8>| final(self)@ == #[trigger] old(self)@.add(draws, val@),
            added == !old(self)@.full(),
            final(self)@.wf(),
    {
        let test = |name: &String| -> (taken: bool)
            requires
                self@.wf(),
            ensures
                taken == self@.has(name@),
            { self.contains_key(name) };
        match rand_name(test) {
            Some(name) => {
                proof {
                    let b = choose|b: u8| name@ == name_of(b);
                    let draws = seq![b];
                    assert(self@.add(draws, val@) == self@.insert(name@, val@));
                }
                self.insert(name, val);
                true
            },
            None => {
                proof {
                    lemma_add(self@, Seq::empty(), val@);
                }
                false
            },
        }
    }

    /// The values with their names in the order in which they are shown:
    /// ascending by the stamps that they got when they were put in.
    pub fn sorted(&self) -> (list: Vec<(&String, &TimeSortedContainer<T>)>)
        requires
            self@.wf(),
        ensures
            list@.len() == self@.slots.len(),
            forall|i: int|
                0 <= i < list@.len() ==> {
                    &&& (#[trigger] list@[i]).0@ == self@.slots[i].name
                    &&& list@[i].1.val@ == self@.slots[i].val
                    &&& list@[i].1.time == self@.slots[i].time
                },
            forall|i: int, j: int|
                0 <= i < j < list@.len() ==> (#[trigger] list@[i]).1.time <= (
                #[trigger] list@[j]).1.time,
    {
        let mut list: Vec<(&String, &TimeSortedContainer<T>)> = Vec::new();
        let mut i: usize = 0;
        while i < self.entries.len()
            invariant
                i <= self.entries.len(),
                list@.len() == i,
                forall|n: int|
                    0 <= n < i ==> (#[trigger] list@[n]).0 == self.entries@[n].0 && list@[n].1
                        == self.entries@[n].1,
            decreases self.entries.len() - i,
        {
            list.push((&self.entries[i].0, &self.entries[i].1));
            i = i + 1;
        }
        assert forall|a: int, b: int| 0 <= a < b < list@.len() implies (#[trigger] list@[a]).1.time
            <= (#[trigger] list@[b]).1.time by {
            assert(self@.slots[a].time <= self@.slots[b].time);
        }
        list
    }
}

impl<T: Replicate> Clone for KeyedList<T> {
    fn clone(&self) -> (copy: Self)
        ensures
            copy@ == self@,
    {
        let mut entries: Vec<(String, TimeSortedContainer<T>)> = Vec::new();
        let mut i: usize = 0;
        while i < self.entries.len()
            invariant
                i <= self.entries.len(),
                entries@.len() == i,
                forall|n: int|
                    0 <= n < i ==> slot_of(#[trigger] entries@[n]) == slot_of(self.entries@[n]),
            decreases self.entries.len() - i,
        {
            let entry = TimeSortedContainer::new(
                self.entries[i].1.val.replicate(),
                self.entries[i].1.time,
            );
            entries.push((self.entries[i].0.clone(), entry));
            i = i + 1;
        }
        let copy = KeyedList { entries, clock: self.clock };
        assert(copy@.slots =~= self@.slots);
        copy
    }
}

} // verus!
