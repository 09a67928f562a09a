//! Collection modes and the messages that change them.
use vstd::prelude::*;
use crate::keyed::{lemma_put, Keyed, KeyedList, Replicate};
use crate::number::{kept_or, Number};
use crate::utils::TimeSortedContainer;

verus! {

/// A change to the collection modes: to the mode named, one mode more, or
/// the mode named deleted.
#[derive(Debug)]
pub enum CollectionModesMsg {
    Change((String, CollectionMsg)),
    Add,
    Delete(String),
}

/// The collection modes by name.
#[derive(Debug)]
pub struct CollectionModes {
    map: KeyedList<CollectionMode>,
}

/// What one collection mode captures with.
#[derive(Debug, Clone, Copy, PartialEq, Eq, Structural)]
pub struct CollectionMode {
    pub sample_rate: Number,
    pub duration: Number,
    pub gain: Number,
}

/// A change to one mode: a new name, or a new value for one of its fields.
/// A value arrives as the number that the text typed denotes, or `None`
/// where it denotes none.
#[derive(Debug)]
pub enum CollectionMsg {
    ChangeName(String),
    ChangeSampleRate(Option<Number>),
    ChangeDuration(Option<Number>),
    ChangeGain(Option<Number>),
}

impl Clone for CollectionMsg {
    fn clone(&self) -> (copy: Self)
        ensures
            copy == *self,
    {
        match self {
            CollectionMsg::ChangeName(c) => CollectionMsg::ChangeName(c.clone()),
            CollectionMsg::ChangeSampleRate(c) => CollectionMsg::ChangeSampleRate(*c),
            CollectionMsg::ChangeDuration(c) => CollectionMsg::ChangeDuration(*c),
            CollectionMsg::ChangeGain(c) => CollectionMsg::ChangeGain(*c),
        }
    }
}

impl Clone for CollectionModesMsg {
    fn clone(&self) -> (copy: Self)
        ensures
            copy == *self,
    {
        match self {
            CollectionModesMsg::Change((key, v)) => CollectionModesMsg::Change(
                (key.clone(), v.clone()),
            ),
            CollectionModesMsg::Add => CollectionModesMsg::Add,
            CollectionModesMsg::Delete(key) => CollectionModesMsg::Delete(key.clone()),
        }
    }
}

impl CollectionMode {
    /// The mode that is added: all three values zero.
    pub open spec fn zero() -> CollectionMode {
        CollectionMode {
            sample_rate: Number::zero(),
            duration: Number::zero(),
            gain: Number::zero(),
        }
    }

    /// The mode after `msg`. A value that could not be read leaves the field
    /// as it was; a new name is nothing to a mode.
    pub open spec fn updated(self, msg: CollectionMsg) -> CollectionMode {
        match msg {
            CollectionMsg::ChangeSampleRate(c) => CollectionMode {
                sample_rate: kept_or(c, self.sample_rate),
                ..self
            },
            CollectionMsg::ChangeDuration(c) => CollectionMode {
                duration: kept_or(c, self.duration),
                ..self
            },
            CollectionMsg::ChangeGain(c) => CollectionMode { gain: kept_or(c, self.gain), ..self },
            CollectionMsg::ChangeName(_) => self,
        }
    }

    /// Gives the field that `msg` names the number that was read, if one
    /// was.
    pub fn update(&mut self, msg: CollectionMsg)
        ensures
            *final(self) == old(self).updated(msg),
    {
        match msg {
            CollectionMsg::ChangeSampleRate(c) => {
                if let Some(rate) = c {
                    self.sample_rate = rate;
                }
            },
            CollectionMsg::ChangeDuration(c) => {
                if let Some(duration) = c {
                    self.duration = duration;
                }
            },
            CollectionMsg::ChangeGain(c) => {
                if let Some(gain) = c {
                    self.gain = gain;
                }
            },
            _ => (),
        }
    }
}

impl View for CollectionMode {
    type V = CollectionMode;

    open spec fn view(&self) -> CollectionMode {
        *self
    }
}

impl Replicate for CollectionMode {
    fn replicate(&self) -> (copy: Self) {
        *self
    }
}

impl Default for CollectionMode {
    fn default() -> (mode: Self)
        ensures
            mode == CollectionMode::zero(),
    {
        CollectionMode {
            sample_rate: Number::zero(),
            duration: Number::zero(),
            gain: Number::zero(),
        }
    }
}

/// Stored modes as contracts see them: each name with its mode.
pub open spec fn mode_views(modes: Seq<(String, CollectionMode)>) -> Seq<
    (Seq<char>, CollectionMode),
> {
    modes.map_values(|m: (String, CollectionMode)| (m.0@, m.1))
}

/// A message that changes a value of a mode must name a mode that is
/// there.
pub open spec fn admits(modes: Keyed<CollectionMode>, msg: CollectionModesMsg) -> bool {
    match msg {
        CollectionModesMsg::Change((key, CollectionMsg::ChangeName(_))) => true,
        CollectionModesMsg::Change((key, _)) => modes.has(key@),
        _ => true,
    }
}

/// The modes after `msg`, where `draws` are the bytes drawn, in order, for
/// the default name of a new mode.
pub open spec fn updated(
    modes: Keyed<CollectionMode>,
    msg: CollectionModesMsg,
    draws: Seq<u8>,
) -> Keyed<CollectionMode> {
    match msg {
        CollectionModesMsg::Change((key, CollectionMsg::ChangeName(val))) => modes.rename(
            key@,
            val@,
        ),
        CollectionModesMsg::Change((key, v)) => modes.set(
            key@,
            modes.get(key@).unwrap().val.updated(v),
        ),
        CollectionModesMsg::Add => modes.add(draws, CollectionMode::zero()),
        CollectionModesMsg::Delete(key) => modes.remove(key@),
    }
}

impl View for CollectionModes {
    type V = Keyed<CollectionMode>;

    closed spec fn view(&self) -> Keyed<CollectionMode> {
        self.map@
    }
}

impl CollectionModes {
    /// No modes.
    pub fn new() -> (modes: Self)
        ensures
            modes@ == Keyed::<CollectionMode>::empty(),
            modes@.wf(),
    {
        CollectionModes { map: KeyedList::new() }
    }

    /// Tells whether the modes are well formed, as all are that the library
    /// makes.
    pub fn is_wf(&self) -> (ok: bool)
        ensures
            ok == self@.wf(),
    {
        self.map.is_wf()
    }

    /// Tells whether a mode goes by `key`.
    pub fn contains_key(&self, key: &String) -> (found: bool)
        requires
            self@.wf(),
        ensures
            found == self@.has(key@),
    {
        self.map.contains_key(key)
    }

    /// Removes the mode named `key`, if there is one.
    pub fn delete(&mut self, key: &String)
        requires
            old(self)@.wf(),
        ensures
            final(self)@ == old(self)@.remove(key@),
            final(self)@.wf(),
    {
        self.map.remove(key);
    }

    /// Puts `mode` under `name` as the latest mode. A mode that went by
    /// that name before is gone.
    pub fn insert(&mut self, name: String, mode: CollectionMode)
        requires
            old(self)@.wf(),
        ensures
            final(self)@ == old(self)@.insert(name@, mode),
            final(self)@.wf(),
    {
        self.map.insert(name, mode);
    }

    /// Gives the mode named `key` the name `new_key`. The mode keeps its
    /// place and its values; a mode that went by `new_key` before is gone.
    /// Without a mode named `key` nothing changes.
    pub fn rename(&mut self, key: &String, new_key: String)
        requires
            old(self)@.wf(),
        ensures
            final(self)@ == old(self)@.rename(key@, new_key@),
            final(self)@.wf(),
    {
        self.map.rename(key, new_key);
    }

    /// Applies a change of a value to the mode named `key`.
    pub fn change(&mut self, key: &String, msg: CollectionMsg)
        requires
            old(self)@.wf(),
            old(self)@.has(key@),
        ensures
            final(self)@ == old(self)@.set(key@, old(self)@.get(key@).unwrap().val.updated(msg)),
            final(self)@.wf(),
    {
        let found = self.map.index_of(key);
        let i = found.unwrap();
        let mut mode = *self.map.value(i);
        mode.update(msg);
        proof {
            lemma_put(self@, i as int, mode);
        }
        self.map.replace(i, mode);
    }

    /// Adds a zero-valued mode under the default name that is picked when
    /// `draws` are the bytes drawn, in order, and tells whether there was
    /// one. With all 256 default names taken nothing changes.
    pub fn add_from(&mut self, draws: &Vec<u8>) -> (added: bool)
        requires
            old(self)@.wf(),
        ensures
            final(self)@ == old(self)@.add(draws@, CollectionMode::zero()),
            added == old(self)@.fresh_name(draws@).is_some(),
            added == !old(self)@.full(),
            final(self)@.wf(),
    {
        self.map.add_from(draws, CollectionMode::default())
    }

    /// Adds a zero-valued mode under a default name that is free, picked
    /// with bytes drawn at random, and tells whether there was one. With
    /// all 256 default names taken nothing changes.
    pub fn add(&mut self) -> (added: bool)
        requires
            old(self)@.wf(),
        ensures
            exists|draws: Seq<u8>|
                final(self)@ == #[trigger] old(self)@.add(draws, CollectionMode::zero()),
            added == !old(self)@.full(),
            final(self)@.wf(),
    {
        self.map.add(CollectionMode::default())
    }

    /// Tells whether `msg` can be applied: whether the mode whose value it
    /// changes, if it changes one, is there.
    pub fn admits(&self, msg: &CollectionModesMsg) -> (ok: bool)
        requires
            self@.wf(),
        ensures
            ok == admits(self@, *msg),
    {
        match msg {
            CollectionModesMsg::Change((key, v)) => match v {
                CollectionMsg::ChangeName(_) => true,
                _ => self.contains_key(key),
            },
            _ => true,
        }
    }

    /// Applies `msg`, with `draws` as the bytes drawn, in order, for the
    /// default name of a new mode.
    pub fn apply(&mut self, msg: CollectionModesMsg, draws: &Vec<u8>)
        requires
            old(self)@.wf(),
            admits(old(self)@, msg),
        ensures
            final(self)@ == updated(old(self)@, msg, draws@),
            final(self)@.wf(),
    {
        match msg {
            CollectionModesMsg::Change((key, v)) => {
                if let CollectionMsg::ChangeName(val) = v {
                    self.rename(&key, val);
                } else {
                    self.change(&key, v);
                }
            },
            CollectionModesMsg::Add => {
                self.add_from(draws);
            },
            CollectionModesMsg::Delete(key) => {
                self.delete(&key);
            },
        }
    }

    /// Applies `msg`. A new mode gets a default name that is picked with
    /// bytes drawn at random.
    pub fn update(&mut self, msg: CollectionModesMsg)
        requires
            old(self)@.wf(),
            admits(old(self)@, msg),
        ensures
            exists|draws: Seq<u8>| final(self)@ == #[trigger] updated(old(self)@, msg, draws),
            final(self)@.wf(),
    {
        match msg {
            CollectionModesMsg::Add => {
                self.add();
                proof {
                    let draws = choose|draws: Seq<u8>|
                        self@ == #[trigger] old(self)@.add(draws, CollectionMode::zero());
                    assert(self@ == updated(old(self)@, msg, draws));
                }
            },
            other => {
                self.apply(other, &Vec::new());
            },
        }
    }

    /// The modes with their names in the order in which they are shown:
    /// ascending by the stamps that they got when they were made.
    pub fn sorted(&self) -> (modes: Vec<(&String, &TimeSortedContainer<CollectionMode>)>)
        requires
            self@.wf(),
        ensures
            modes@.len() == self@.slots.len(),
            forall|i: int|
                0 <= i < modes@.len() ==> {
                    &&& (#[trigger] modes@[i]).0@ == self@.slots[i].name
                    &&& modes@[i].1.val == self@.slots[i].val
                    &&& modes@[i].1.time == self@.slots[i].time
                },
            forall|i: int, j: int|
                0 <= i < j < modes@.len() ==> (#[trigger] modes@[i]).1.time <= (
                #[trigger] modes@[j]).1.time,
    {
        self.map.sorted()
    }

    /// What is stored of the modes: each name with its mode, in the order
    /// in which the modes are shown.
    pub fn export(&self) -> (modes: Vec<(String, CollectionMode)>)
        ensures
            mode_views(modes@) == self@.entries(),
    {
        let mut modes: Vec<(String, CollectionMode)> = Vec::new();
        let mut i: usize = 0;
        while i < self.map.len()
            invariant
                i <= self@.slots.len(),
                modes@.len() == i,
                forall|n: int|
                    0 <= n < i ==> (#[trigger] modes@[n]).0@ == self@.slots[n].name && modes@[n].1
                        == self@.slots[n].val,
            decreases self@.slots.len() - i,
        {
            modes.push((self.map.name(i).clone(), *self.map.value(i)));
            i = i + 1;
        }
        modes
    }

    /// The modes that come of putting in `modes` one after the other, each
    /// under its name.
    pub fn import(modes: &Vec<(String, CollectionMode)>) -> (loaded: Self)
        ensures
            loaded@ == Keyed::load(mode_views(modes@)),
            loaded@.wf(),
    {
        let mut loaded = CollectionModes::new();
        let mut i: usize = 0;
        while i < modes.len()
            invariant
                i <= modes.len(),
                loaded@.wf(),
                loaded@ == Keyed::load(mode_views(modes@).take(i as int)),
            decreases modes.len() - i,
        {
            proof {
                let items = mode_views(modes@);
                assert(items.take(i + 1).drop_last() =~= items.take(i as int));
            }
            loaded.insert(modes[i].0.clone(), modes[i].1);
            i = i + 1;
        }
        assert(mode_views(modes@).take(modes.len() as int) =~= mode_views(modes@));
        loaded
    }
}

impl Clone for CollectionModes {
    fn clone(&self) -> (copy: Self)
        ensures
            copy@ == self@,
    {
        CollectionModes { map: self.map.clone() }
    }
}

impl Default for CollectionModes {
    fn default() -> (modes: Self)
        ensures
            modes@ == Keyed::<CollectionMode>::empty(),
            modes@.wf(),
    {
        CollectionModes::new()
    }
}

} // verus!
