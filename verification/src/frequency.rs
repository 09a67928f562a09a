//! Frequencies, their groups, and the messages that change them.
use vstd::prelude::*;
use crate::keyed::{lemma_map, lemma_map_insert, lemma_put, Keyed, KeyedList, Replicate};
use crate::number::{kept_or, Number};
use crate::utils::TimeSortedContainer;
use crate::Message;

verus! {

/// One frequency of a group. The id tells it from every other frequency
/// while the plan is edited; it is no part of the plan.
#[derive(Debug)]
pub struct Frequency {
    pub name: String,
    pub freq: Number,
    id: u64,
    pub description: String,
}

/// A frequency as contracts see it.
pub struct FrequencyView {
    pub name: Seq<char>,
    pub freq: Number,
    pub id: u64,
    pub description: Seq<char>,
}

impl FrequencyView {
    /// The frequency that a group gets when one is added: no name, no
    /// description, the value zero.
    pub open spec fn blank(id: u64) -> FrequencyView {
        FrequencyView { name: Seq::empty(), freq: Number::zero(), id, description: Seq::empty() }
    }

    /// The frequency after `msg`. A message for another id changes nothing;
    /// a value that could not be read leaves the value as it was.
    pub open spec fn update(self, msg: FreqAction) -> FrequencyView {
        if self.id != msg.spec_get_id() {
            self
        } else {
            match msg {
                FreqAction::NameUpdated((_, name)) => FrequencyView { name: name@, ..self },
                FreqAction::FreqUpdated((_, parsed)) => FrequencyView {
                    freq: kept_or(parsed, self.freq),
                    ..self
                },
                FreqAction::DescUpdated((_, description)) => FrequencyView {
                    description: description@,
                    ..self
                },
            }
        }
    }
}

impl View for Frequency {
    type V = FrequencyView;

    closed spec fn view(&self) -> FrequencyView {
        FrequencyView {
            name: self.name@,
            freq: self.freq,
            id: self.id,
            description: self.description@,
        }
    }
}

impl Clone for Frequency {
    fn clone(&self) -> (copy: Self)
        ensures
            copy@ == self@,
    {
        Frequency {
            name: self.name.clone(),
            freq: self.freq,
            id: self.id,
            description: self.description.clone(),
        }
    }
}

/// A change to one field of the frequency with the given id. The value of a
/// frequency arrives as the number that the text typed denotes, or `None`
/// where it denotes none.
#[derive(Debug)]
pub enum FreqAction {
    NameUpdated((u64, String)),
    FreqUpdated((u64, Option<Number>)),
    DescUpdated((u64, String)),
}

impl FreqAction {
    pub open spec fn spec_get_id(&self) -> u64 {
        match self {
            FreqAction::NameUpdated((x, _)) => *x,
            FreqAction::FreqUpdated((x, _)) => *x,
            FreqAction::DescUpdated((x, _)) => *x,
        }
    }

    /// The id of the frequency that the change is meant for.
    #[verifier::when_used_as_spec(spec_get_id)]
    pub fn get_id(&self) -> (id: u64)
        ensures
            id == self.spec_get_id(),
    {
        match self {
            FreqAction::NameUpdated((x, _)) => *x,
            FreqAction::FreqUpdated((x, _)) => *x,
            FreqAction::DescUpdated((x, _)) => *x,
        }
    }
}

impl Clone for FreqAction {
    fn clone(&self) -> (copy: Self)
        ensures
            copy == *self,
    {
        match self {
            FreqAction::NameUpdated((x, name)) => FreqAction::NameUpdated((*x, name.clone())),
            FreqAction::FreqUpdated((x, parsed)) => FreqAction::FreqUpdated((*x, *parsed)),
            FreqAction::DescUpdated((x, description)) => FreqAction::DescUpdated(
                (*x, description.clone()),
            ),
        }
    }
}

/// Everything that can be asked of the frequency groups.
#[derive(Debug)]
pub enum FrequencyMessage {
    AddGroup,
    GroupNameUpdated((String, String)),
    AddFreq(String),
    DelGroup(String),
    DelFreq(u64),
    FreqAction(FreqAction),
}

impl Clone for FrequencyMessage {
    fn clone(&self) -> (copy: Self)
        ensures
            copy == *self,
    {
        match self {
            FrequencyMessage::AddGroup => FrequencyMessage::AddGroup,
            FrequencyMessage::GroupNameUpdated((key, new_key)) => {
                FrequencyMessage::GroupNameUpdated((key.clone(), new_key.clone()))
            },
            FrequencyMessage::AddFreq(key) => FrequencyMessage::AddFreq(key.clone()),
            FrequencyMessage::DelGroup(key) => FrequencyMessage::DelGroup(key.clone()),
            FrequencyMessage::DelFreq(id) => FrequencyMessage::DelFreq(*id),
            FrequencyMessage::FreqAction(action) => FrequencyMessage::FreqAction(action.clone()),
        }
    }
}

impl From<FreqAction> for FrequencyMessage {
    fn from(value: FreqAction) -> (message: Self) {
        FrequencyMessage::FreqAction(value)
    }
}

impl vstd::std_specs::convert::FromSpecImpl<FreqAction> for FrequencyMessage {
    open spec fn obeys_from_spec() -> bool {
        true
    }

    open spec fn from_spec(value: FreqAction) -> Self {
        FrequencyMessage::FreqAction(value)
    }
}

impl From<FrequencyMessage> for Message {
    fn from(value: FrequencyMessage) -> (message: Self) {
        Message::Frequency(value)
    }
}

impl vstd::std_specs::convert::FromSpecImpl<FrequencyMessage> for Message {
    open spec fn obeys_from_spec() -> bool {
        true
    }

    open spec fn from_spec(value: FrequencyMessage) -> Self {
        Message::Frequency(value)
    }
}

impl From<FreqAction> for Message {
    fn from(value: FreqAction) -> (message: Self) {
        Message::Frequency(FrequencyMessage::FreqAction(value))
    }
}

impl vstd::std_specs::convert::FromSpecImpl<FreqAction> for Message {
    open spec fn obeys_from_spec() -> bool {
        true
    }

    open spec fn from_spec(value: FreqAction) -> Self {
        Message::Frequency(FrequencyMessage::FreqAction(value))
    }
}

/// What is stored of a frequency: all but its id.
#[derive(Debug)]
pub struct FrequencyRecord {
    pub name: String,
    pub freq: Number,
    pub description: String,
}

/// A stored frequency as contracts see it.
pub struct RecordView {
    pub name: Seq<char>,
    pub freq: Number,
    pub description: Seq<char>,
}

impl View for FrequencyRecord {
    type V = RecordView;

    open spec fn view(&self) -> RecordView {
        RecordView { name: self.name@, freq: self.freq, description: self.description@ }
    }
}

impl FrequencyView {
    /// What is stored of the frequency.
    pub open spec fn record(self) -> RecordView {
        RecordView { name: self.name, freq: self.freq, description: self.description }
    }
}

/// What is stored of the frequencies of a group.
pub open spec fn records() -> spec_fn(Seq<FrequencyView>) -> Seq<RecordView> {
    |entries: Seq<FrequencyView>| entries.map_values(|f: FrequencyView| f.record())
}

/// The stored frequencies of a list as contracts see them.
pub open spec fn record_views(entries: Seq<FrequencyRecord>) -> Seq<RecordView> {
    entries.map_values(|r: FrequencyRecord| r@)
}

/// Stored groups as contracts see them: each name with its frequencies.
pub open spec fn group_views(groups: Seq<(String, Vec<FrequencyRecord>)>) -> Seq<
    (Seq<char>, Seq<RecordView>),
> {
    groups.map_values(|g: (String, Vec<FrequencyRecord>)| (g.0@, record_views(g.1@)))
}

impl Frequency {
    /// A blank frequency with the id `id`.
    pub fn new(id: u64) -> (frequency: Self)
        ensures
            frequency@ == FrequencyView::blank(id),
    {
        Frequency { name: String::new(), freq: Number::zero(), id, description: String::new() }
    }

    pub fn id(&self) -> (id: u64)
        ensures
            id == self@.id,
    {
        self.id
    }

    /// What is stored of the frequency.
    pub fn record(&self) -> (record: FrequencyRecord)
        ensures
            record@ == self@.record(),
    {
        FrequencyRecord {
            name: self.name.clone(),
            freq: self.freq,
            description: self.description.clone(),
        }
    }

    /// The frequency that holds what `record` holds and goes by `id`.
    pub fn from_record(record: &FrequencyRecord, id: u64) -> (frequency: Self)
        ensures
            frequency@.record() == record@,
            frequency@.id == id,
    {
        Frequency {
            name: record.name.clone(),
            freq: record.freq,
            id,
            description: record.description.clone(),
        }
    }

    /// Applies `msg` if it is meant for this frequency.
    pub fn update(&mut self, msg: FreqAction)
        ensures
            final(self)@ == old(self)@.update(msg),
    {
        if self.id != msg.get_id() {
            return ;
        }
        match msg {
            FreqAction::NameUpdated((_, name)) => self.name = name,
            FreqAction::DescUpdated((_, desc)) => self.description = desc,
            FreqAction::FreqUpdated((_, freq)) => {
                let Some(parsed) = freq else {
                    return ;
                };
                self.freq = parsed;
            },
        }
    }
}

/// The frequencies of a group as contracts see them.
pub open spec fn views(entries: Seq<Frequency>) -> Seq<FrequencyView> {
    entries.map_values(|f: Frequency| f@)
}

/// Tells of a frequency whether its id is another than `id`.
pub open spec fn other_than(id: u64) -> spec_fn(FrequencyView) -> bool {
    |f: FrequencyView| f.id != id
}

/// Takes the frequencies with the id `id` out of a group.
pub open spec fn without(id: u64) -> spec_fn(Seq<FrequencyView>) -> Seq<FrequencyView> {
    |entries: Seq<FrequencyView>| entries.filter(other_than(id))
}

/// Applies `action` to every frequency of a group.
pub open spec fn acted(action: FreqAction) -> spec_fn(Seq<FrequencyView>) -> Seq<FrequencyView> {
    |entries: Seq<FrequencyView>| entries.map_values(|f: FrequencyView| f.update(action))
}

/// Taking an id out of a group takes out exactly the frequencies that go
/// by it: none of them is left, every other frequency is, and nothing is
/// there that was not there before. The frequencies that are left keep
/// their order, as `Seq::filter` says; where none goes by the id the group
/// stays as it is.
pub proof fn lemma_without(entries: Seq<FrequencyView>, id: u64)
    ensures
        forall|f: FrequencyView| #[trigger]
            without(id)(entries).contains(f) <==> entries.contains(f) && f.id != id,
        (forall|i: int| 0 <= i < entries.len() ==> (#[trigger] entries[i]).id != id) ==> without(
            id,
        )(entries) == entries,
    decreases entries.len(),
{
    let keep = other_than(id);
    assert forall|f: FrequencyView| #[trigger]
        without(id)(entries).contains(f) <==> entries.contains(f) && f.id != id by {
        if entries.filter(keep).contains(f) {
            entries.lemma_filter_contains_rev(keep, f);
        }
        if entries.contains(f) && f.id != id {
            let i = choose|i: int| 0 <= i < entries.len() && entries[i] == f;
            entries.lemma_filter_contains(keep, i);
        }
    }
    if forall|i: int| 0 <= i < entries.len() ==> (#[trigger] entries[i]).id != id {
        if entries.len() > 0 {
            let front = entries.drop_last();
            lemma_without(front, id);
            front.lemma_filter_push(entries.last(), keep);
            assert(front.push(entries.last()) =~= entries);
        }
    }
}

/// Deleting a frequency by an id that no frequency of any group goes by
/// changes nothing.
pub proof fn lemma_del_freq_absent(groups: Keyed<Seq<FrequencyView>>, id: u64)
    requires
        forall|g: int, i: int|
            0 <= g < groups.slots.len() && 0 <= i < groups.slots[g].val.len() ==> (
            #[trigger] groups.slots[g].val[i]).id != id,
    ensures
        groups.map(without(id)) == groups,
{
    assert forall|g: int| 0 <= g < groups.slots.len() implies #[trigger] groups.map(
        without(id),
    ).slots[g] == groups.slots[g] by {
        lemma_without(groups.slots[g].val, id);
    }
    assert(groups.map(without(id)).slots =~= groups.slots);
}

fn retain_others(entries: &mut Vec<Frequency>, id: u64)
    ensures
        views(final(entries)@) == without(id)(views(old(entries)@)),
{
    let ghost all = views(entries@);
    let ghost keep = other_than(id);
    let mut j: usize = 0;
    assert(views(entries@).skip(0) =~= all);
    while j < entries.len()
        invariant
            j <= entries.len(),
            keep == other_than(id),
            all.filter(keep) == views(entries@).take(j as int) + views(entries@).skip(
                j as int,
            ).filter(keep),
        decreases entries.len() - j,
    {
        let ghost now = views(entries@);
        let ghost head = now[j as int];
        let ghost tail = now.skip(j + 1);
        proof {
            assert(now.skip(j as int) =~= seq![head] + tail);
            tail.lemma_filter_prepend(head, keep);
        }
        if entries[j].id == id {
            entries.remove(j);
            proof {
                assert(views(entries@).skip(j as int) =~= tail);
            }
        } else {
            j = j + 1;
        }
    }
}

fn update_all(entries: &mut Vec<Frequency>, action: &FreqAction)
    ensures
        views(final(entries)@) == acted(*action)(views(old(entries)@)),
{
    let mut j: usize = 0;
    while j < entries.len()
        invariant
            j <= entries.len(),
            entries.len() == old(entries).len(),
            forall|n: int| 0 <= n < j ==> (#[trigger] entries@[n])@ == old(entries)@[n]@.update(*action),
            forall|n: int| j <= n < entries.len() ==> (#[trigger] entries@[n]) == old(entries)@[n],
        decreases entries.len() - j,
    {
        entries[j].update(action.clone());
        j = j + 1;
    }
}

fn copy_entries(entries: &Vec<Frequency>) -> (copy: Vec<Frequency>)
    ensures
        views(copy@) == views(entries@),
{
    let mut copy: Vec<Frequency> = Vec::new();
    let mut j: usize = 0;
    while j < entries.len()
        invariant
            j <= entries.len(),
            copy.len() == j,
            forall|n: int| 0 <= n < j ==> (#[trigger] copy@[n])@ == entries@[n]@,
        decreases entries.len() - j,
    {
        copy.push(entries[j].clone());
        j = j + 1;
    }
    copy
}

/// A group of frequencies.
#[derive(Debug)]
pub struct FreqGroup {
    pub vec: Vec<Frequency>,
}

impl View for FreqGroup {
    type V = Seq<FrequencyView>;

    open spec fn view(&self) -> Seq<FrequencyView> {
        views(self.vec@)
    }
}

impl Replicate for FreqGroup {
    fn replicate(&self) -> (copy: Self) {
        FreqGroup { vec: copy_entries(&self.vec) }
    }
}

impl Default for FreqGroup {
    fn default() -> (group: Self)
        ensures
            group@ == Seq::<FrequencyView>::empty(),
    {
        FreqGroup { vec: Vec::new() }
    }
}

/// A message that adds a frequency must name a group that is there.
pub open spec fn admits(groups: Keyed<Seq<FrequencyView>>, msg: FrequencyMessage) -> bool {
    match msg {
        FrequencyMessage::AddFreq(key) => groups.has(key@),
        _ => true,
    }
}

/// The groups after `msg`, where `draws` are the bytes drawn, in order, for
/// the default name of a new group, and a new frequency gets the id `id`.
pub open spec fn updated(
    groups: Keyed<Seq<FrequencyView>>,
    msg: FrequencyMessage,
    draws: Seq<u8>,
    id: u64,
) -> Keyed<Seq<FrequencyView>> {
    match msg {
        FrequencyMessage::AddGroup => groups.add(draws, Seq::empty()),
        FrequencyMessage::GroupNameUpdated((key, new_key)) => groups.rename(key@, new_key@),
        FrequencyMessage::AddFreq(key) => groups.set(
            key@,
            groups.get(key@).unwrap().val.push(FrequencyView::blank(id)),
        ),
        FrequencyMessage::DelFreq(gone) => groups.map(without(gone)),
        FrequencyMessage::DelGroup(key) => groups.remove(key@),
        FrequencyMessage::FreqAction(action) => groups.map(acted(action)),
    }
}

/// What `msg` asks of the groups, if it is meant for them.
pub open spec fn admits_message(groups: Keyed<Seq<FrequencyView>>, msg: Message) -> bool {
    match msg {
        Message::Frequency(f) => admits(groups, f),
        _ => true,
    }
}

/// The groups after `msg`; a message for another part changes nothing.
pub open spec fn updated_message(
    groups: Keyed<Seq<FrequencyView>>,
    msg: Message,
    draws: Seq<u8>,
    id: u64,
) -> Keyed<Seq<FrequencyView>> {
    match msg {
        Message::Frequency(f) => updated(groups, f, draws, id),
        _ => groups,
    }
}

/// The frequency groups by name.
#[derive(Debug)]
pub struct FrequencyConfig {
    frequencies: KeyedList<FreqGroup>,
}

impl View for FrequencyConfig {
    type V = Keyed<Seq<FrequencyView>>;

    closed spec fn view(&self) -> Keyed<Seq<FrequencyView>> {
        self.frequencies@
    }
}

impl FrequencyConfig {
    /// No groups.
    pub fn new() -> (config: Self)
        ensures
            config@ == Keyed::<Seq<FrequencyView>>::empty(),
            config@.wf(),
    {
        FrequencyConfig { frequencies: KeyedList::new() }
    }

    /// Tells whether the groups are well formed, as all are that the
    /// library makes.
    pub fn is_wf(&self) -> (ok: bool)
        ensures
            ok == self@.wf(),
    {
        self.frequencies.is_wf()
    }

    /// Tells whether a group goes by `key`.
    pub fn contains_key(&self, key: &String) -> (found: bool)
        requires
            self@.wf(),
        ensures
            found == self@.has(key@),
    {
        self.frequencies.contains_key(key)
    }

    /// Removes the group named `key`, if there is one.
    pub fn del_group(&mut self, key: &String)
        requires
            old(self)@.wf(),
        ensures
            final(self)@ == old(self)@.remove(key@),
            final(self)@.wf(),
    {
        self.frequencies.remove(key);
    }

    /// Puts `entries` under `name` as the latest group. A group that went by
    /// that name before is gone.
    pub fn insert_group(&mut self, name: String, entries: Vec<Frequency>)
        requires
            old(self)@.wf(),
        ensures
            final(self)@ == old(self)@.insert(name@, views(entries@)),
            final(self)@.wf(),
    {
        self.frequencies.insert(name, FreqGroup { vec: entries });
    }

    /// Gives the group named `key` the name `new_key`. The group keeps its
    /// place and its frequencies; a group that went by `new_key` before is
    /// gone. Without a group named `key` nothing changes.
    pub fn rename_group(&mut self, key: &String, new_key: String)
        requires
            old(self)@.wf(),
        ensures
            final(self)@ == old(self)@.rename(key@, new_key@),
            final(self)@.wf(),
    {
        self.frequencies.rename(key, new_key);
    }

    /// Adds an empty group under the default name that is picked when
    /// `draws` are the bytes drawn, in order, and tells whether there was
    /// one. A byte whose name is taken is followed by the next; a group
    /// that has the name is never replaced. With all 256 default names
    /// taken nothing changes.
    pub fn add_group_from(&mut self, draws: &Vec<u8>) -> (added: bool)
        requires
            old(self)@.wf(),
        ensures
            final(self)@ == old(self)@.add(draws@, Seq::empty()),
            added == old(self)@.fresh_name(draws@).is_some(),
            added == !old(self)@.full(),
            final(self)@.wf(),
    {
        self.frequencies.add_from(draws, FreqGroup::default())
    }

    /// Adds an empty group under a default name that is free, picked with
    /// bytes drawn at random, and tells whether there was one. With all 256
    /// default names taken nothing changes.
    pub fn add_group(&mut self) -> (added: bool)
        requires
            old(self)@.wf(),
        ensures
            exists|draws: Seq<u8>| final(self)@ == #[trigger] old(self)@.add(draws, Seq::empty()),
            added == !old(self)@.full(),
            final(self)@.wf(),
    {
        self.frequencies.add(FreqGroup::default())
    }

    /// Appends a blank frequency with the id `id` to the group named `key`.
    pub fn add_freq_with_id(&mut self, key: &String, id: u64)
        requires
            old(self)@.wf(),
            old(self)@.has(key@),
        ensures
            final(self)@ == old(self)@.set(
                key@,
                old(self)@.get(key@).unwrap().val.push(FrequencyView::blank(id)),
            ),
            final(self)@.wf(),
    {
        let found = self.frequencies.index_of(key);
        let i = found.unwrap();
        let mut group = self.frequencies.replace(i, FreqGroup::default());
        let blank = Frequency::new(id);
        group.vec.push(blank);
        proof {
            assert(group@ =~= old(self)@.slots[i as int].val.push(FrequencyView::blank(id)));
            lemma_put(old(self)@, i as int, group@);
        }
        self.frequencies.replace(i, group);
        assert(self@.slots =~= old(self)@.put(i as int, group@).slots);
    }

    /// Removes every frequency with the id `id`, in whichever group it is.
    pub fn del_freq(&mut self, id: u64)
        requires
            old(self)@.wf(),
        ensures
            final(self)@ == old(self)@.map(without(id)),
            final(self)@.wf(),
    {
        proof {
            lemma_map(self@, without(id));
        }
        let mut i: usize = 0;
        while i < self.frequencies.len()
            invariant
                i <= self@.slots.len(),
                self@.clock == old(self)@.clock,
                self@.slots.len() == old(self)@.slots.len(),
                forall|n: int|
                    0 <= n < i ==> (#[trigger] self@.slots[n]) == old(self)@.map(without(id)).slots[n],
                forall|n: int|
                    i <= n < self@.slots.len() ==> (#[trigger] self@.slots[n]) == old(self)@.slots[n],
            decreases self@.slots.len() - i,
        {
            let mut group = self.frequencies.replace(i, FreqGroup::default());
            retain_others(&mut group.vec, id);
            self.frequencies.replace(i, group);
            i = i + 1;
        }
        assert(self@.slots =~= old(self)@.map(without(id)).slots);
    }

    /// Hands `action` to every frequency of every group; the frequencies
    /// with the id that it is meant for apply it.
    pub fn act(&mut self, action: FreqAction)
        requires
            old(self)@.wf(),
        ensures
            final(self)@ == old(self)@.map(acted(action)),
            final(self)@.wf(),
    {
        proof {
            lemma_map(self@, acted(action));
        }
        let mut i: usize = 0;
        while i < self.frequencies.len()
            invariant
                i <= self@.slots.len(),
                self@.clock == old(self)@.clock,
                self@.slots.len() == old(self)@.slots.len(),
                forall|n: int|
                    0 <= n < i ==> (#[trigger] self@.slots[n]) == old(self)@.map(
                        acted(action),
                    ).slots[n],
                forall|n: int|
                    i <= n < self@.slots.len() ==> (#[trigger] self@.slots[n]) == old(self)@.slots[n],
            decreases self@.slots.len() - i,
        {
            let mut group = self.frequencies.replace(i, FreqGroup::default());
            update_all(&mut group.vec, &action);
            self.frequencies.replace(i, group);
            i = i + 1;
        }
        assert(self@.slots =~= old(self)@.map(acted(action)).slots);
    }

    /// Tells whether `msg` can be applied: whether the group that it adds a
    /// frequency to, if it adds one, is there.
    pub fn admits(&self, msg: &Message) -> (ok: bool)
        requires
            self@.wf(),
        ensures
            ok == admits_message(self@, *msg),
    {
        match msg {
            Message::Frequency(f) => match f {
                FrequencyMessage::AddFreq(key) => self.contains_key(key),
                _ => true,
            },
            _ => true,
        }
    }

    /// Applies `msg`, with `draws` as the bytes drawn, in order, for the
    /// default name of a new group, and `id` as the id of a new frequency.
    pub fn apply(&mut self, msg: FrequencyMessage, draws: &Vec<u8>, id: u64)
        requires
            old(self)@.wf(),
            admits(old(self)@, msg),
        ensures
            final(self)@ == updated(old(self)@, msg, draws@, id),
            final(self)@.wf(),
    {
        match msg {
            FrequencyMessage::AddGroup => {
                self.add_group_from(draws);
            },
            FrequencyMessage::GroupNameUpdated((key, new_key)) => {
                self.rename_group(&key, new_key);
            },
            FrequencyMessage::AddFreq(key) => {
                self.add_freq_with_id(&key, id);
            },
            FrequencyMessage::DelFreq(gone) => {
                self.del_freq(gone);
            },
            FrequencyMessage::DelGroup(key) => {
                self.del_group(&key);
            },
            FrequencyMessage::FreqAction(action) => {
                self.act(action);
            },
        }
    }

    /// Applies `msg` if it is meant for the frequency groups. A new group
    /// gets a default name that is picked with bytes drawn at random; a new
    /// frequency gets an id drawn at random.
    pub fn update(&mut self, msg: Message) -> (reply: Message)
        requires
            old(self)@.wf(),
            admits_message(old(self)@, msg),
        ensures
            reply is Nothing,
            exists|draws: Seq<u8>, id: u64|
                final(self)@ == #[trigger] updated_message(old(self)@, msg, draws, id),
            final(self)@.wf(),
    {
        match msg {
            Message::Frequency(FrequencyMessage::AddGroup) => {
                self.add_group();
                proof {
                    let draws = choose|draws: Seq<u8>|
                        self@ == #[trigger] old(self)@.add(draws, Seq::empty());
                    assert(self@ == updated_message(old(self)@, msg, draws, 0));
                }
            },
            Message::Frequency(FrequencyMessage::AddFreq(key)) => {
                let id: u64 = rand::random::<u64>();
                self.add_freq_with_id(&key, id);
                assert(self@ == updated_message(old(self)@, msg, Seq::empty(), id));
            },
            Message::Frequency(f) => {
                self.apply(f, &Vec::new(), 0);
                assert(self@ == updated_message(old(self)@, msg, Seq::empty(), 0));
            },
            _ => {
                assert(self@ == updated_message(old(self)@, msg, Seq::empty(), 0));
            },
        }
        Message::Nothing
    }

    /// The groups with their names in the order in which they are shown:
    /// ascending by the stamps that they got when they were made.
    pub fn sorted(&self) -> (groups: Vec<(&String, &TimeSortedContainer<FreqGroup>)>)
        requires
            self@.wf(),
        ensures
            groups@.len() == self@.slots.len(),
            forall|i: int|
                0 <= i < groups@.len() ==> {
                    &&& (#[trigger] groups@[i]).0@ == self@.slots[i].name
                    &&& groups@[i].1.val@ == self@.slots[i].val
                    &&& groups@[i].1.time == self@.slots[i].time
                },
            forall|i: int, j: int|
                0 <= i < j < groups@.len() ==> (#[trigger] groups@[i]).1.time <= (
                #[trigger] groups@[j]).1.time,
    {
        self.frequencies.sorted()
    }

    /// What is stored of the groups: each name with the stored form of its
    /// frequencies, in the order in which the groups are shown.
    pub fn export(&self) -> (groups: Vec<(String, Vec<FrequencyRecord>)>)
        ensures
            group_views(groups@) == self@.map(records()).entries(),
    {
        let mut groups: Vec<(String, Vec<FrequencyRecord>)> = Vec::new();
        let mut i: usize = 0;
        while i < self.frequencies.len()
            invariant
                i <= self@.slots.len(),
                groups@.len() == i,
                forall|n: int|
                    0 <= n < i ==> (#[trigger] groups@[n]).0@ == self@.slots[n].name
                        && record_views(groups@[n].1@) == records()(self@.slots[n].val),
            decreases self@.slots.len() - i,
        {
            let entries = &self.frequencies.value(i).vec;
            let mut stored: Vec<FrequencyRecord> = Vec::new();
            let mut j: usize = 0;
            while j < entries.len()
                invariant
                    j <= entries.len(),
                    stored@.len() == j,
                    forall|n: int| 0 <= n < j ==> (#[trigger] stored@[n])@ == entries@[n]@.record(),
                decreases entries.len() - j,
            {
                stored.push(entries[j].record());
                j = j + 1;
            }
            groups.push((self.frequencies.name(i).clone(), stored));
            i = i + 1;
        }
        groups
    }

    /// The groups that come of putting in `groups` one after the other, each
    /// under its name. Every frequency gets an id drawn at random.
    pub fn import(groups: &Vec<(String, Vec<FrequencyRecord>)>) -> (config: Self)
        ensures
            config@.map(records()) == Keyed::load(group_views(groups@)),
            config@.wf(),
    {
        let mut config = FrequencyConfig::new();
        let mut i: usize = 0;
        assert(config@.map(records()).slots =~= Seq::empty());
        while i < groups.len()
            invariant
                i <= groups.len(),
                config@.wf(),
                config@.map(records()) == Keyed::load(group_views(groups@).take(i as int)),
            decreases groups.len() - i,
        {
            let stored = &groups[i].1;
            let mut entries: Vec<Frequency> = Vec::new();
            let mut j: usize = 0;
            while j < stored.len()
                invariant
                    j <= stored.len(),
                    entries@.len() == j,
                    forall|n: int| 0 <= n < j ==> (#[trigger] entries@[n])@.record() == stored@[n]@,
                decreases stored.len() - j,
            {
                entries.push(Frequency::from_record(&stored[j], rand::random::<u64>()));
                j = j + 1;
            }
            assert(records()(views(entries@)) =~= record_views(stored@));
            proof {
                lemma_map_insert(config@, records(), groups@[i as int].0@, views(entries@));
                let items = group_views(groups@);
                assert(items.take(i + 1).drop_last() =~= items.take(i as int));
            }
            config.insert_group(groups[i].0.clone(), entries);
            i = i + 1;
        }
        assert(group_views(groups@).take(groups.len() as int) =~= group_views(groups@));
        config
    }
}

impl Clone for FrequencyConfig {
    fn clone(&self) -> (copy: Self)
        ensures
            copy@ == self@,
    {
        FrequencyConfig { frequencies: self.frequencies.clone() }
    }
}

impl Default for FrequencyConfig {
    fn default() -> (config: Self)
        ensures
            config@ == Keyed::<Seq<FrequencyView>>::empty(),
            config@.wf(),
    {
        FrequencyConfig::new()
    }
}

} // verus!
