//! Time slots and the messages that change them.
use vstd::prelude::*;

verus! {

/// A change to the slots: to one field of the slot at an index, one slot
/// more, or the slot at an index deleted.
#[derive(Debug)]
pub enum SchedulingMsg {
    Change(usize, ChangeMsg),
    Add,
    Delete(usize),
}

/// The new text of one field of a slot.
#[derive(Debug)]
pub enum ChangeMsg {
    Name(String),
    Start(String),
    End(String),
}

impl Clone for ChangeMsg {
    fn clone(&self) -> (copy: Self)
        ensures
            copy == *self,
    {
        match self {
            ChangeMsg::Name(c) => ChangeMsg::Name(c.clone()),
            ChangeMsg::Start(c) => ChangeMsg::Start(c.clone()),
            ChangeMsg::End(c) => ChangeMsg::End(c.clone()),
        }
    }
}

impl Clone for SchedulingMsg {
    fn clone(&self) -> (copy: Self)
        ensures
            copy == *self,
    {
        match self {
            SchedulingMsg::Change(id, c) => SchedulingMsg::Change(*id, c.clone()),
            SchedulingMsg::Add => SchedulingMsg::Add,
            SchedulingMsg::Delete(id) => SchedulingMsg::Delete(*id),
        }
    }
}

/// The time slots in the order in which they are shown and stored.
#[derive(Debug)]
pub struct Scheduling {
    time_slots: Vec<TimeSlot>,
}

/// A named window of time. Its bounds are kept as the text that was typed.
#[derive(Debug)]
pub struct TimeSlot {
    pub name: String,
    pub start: String,
    pub end: String,
}

/// A time slot as contracts see it.
pub struct TimeSlotView {
    pub name: Seq<char>,
    pub start: Seq<char>,
    pub end: Seq<char>,
}

impl TimeSlotView {
    /// The slot that is added: all three fields empty.
    pub open spec fn empty() -> TimeSlotView {
        TimeSlotView { name: Seq::empty(), start: Seq::empty(), end: Seq::empty() }
    }

    /// The slot after `msg`: the field that it names holds the new text.
    pub open spec fn update(self, msg: ChangeMsg) -> TimeSlotView {
        match msg {
            ChangeMsg::Name(c) => TimeSlotView { name: c@, ..self },
            ChangeMsg::Start(c) => TimeSlotView { start: c@, ..self },
            ChangeMsg::End(c) => TimeSlotView { end: c@, ..self },
        }
    }
}

impl View for TimeSlot {
    type V = TimeSlotView;

    open spec fn view(&self) -> TimeSlotView {
        TimeSlotView { name: self.name@, start: self.start@, end: self.end@ }
    }
}

impl Clone for TimeSlot {
    fn clone(&self) -> (copy: Self)
        ensures
            copy@ == self@,
    {
        TimeSlot { name: self.name.clone(), start: self.start.clone(), end: self.end.clone() }
    }
}

impl Default for TimeSlot {
    fn default() -> (slot: Self)
        ensures
            slot@ == TimeSlotView::empty(),
    {
        TimeSlot { name: String::new(), start: String::new(), end: String::new() }
    }
}

impl TimeSlot {
    /// Gives the field that `msg` names its new text.
    pub fn update(&mut self, msg: ChangeMsg)
        ensures
            final(self)@ == old(self)@.update(msg),
    {
        match msg {
            ChangeMsg::Name(c) => self.name = c,
            ChangeMsg::Start(c) => self.start = c,
            ChangeMsg::End(c) => self.end = c,
        }
    }
}

/// The slots of a list as contracts see them.
pub open spec fn slot_views(slots: Seq<TimeSlot>) -> Seq<TimeSlotView> {
    slots.map_values(|s: TimeSlot| s@)
}

/// A message that changes or deletes a slot must give the index of a slot
/// that is there.
pub open spec fn admits(slots: Seq<TimeSlotView>, msg: SchedulingMsg) -> bool {
    match msg {
        SchedulingMsg::Change(id, _) => id < slots.len(),
        SchedulingMsg::Add => true,
        SchedulingMsg::Delete(id) => id < slots.len(),
    }
}

/// The slots after `msg`. A new slot goes to the end; a deleted slot makes
/// the later ones move down by one.
pub open spec fn updated(slots: Seq<TimeSlotView>, msg: SchedulingMsg) -> Seq<TimeSlotView> {
    match msg {
        SchedulingMsg::Add => slots.push(TimeSlotView::empty()),
        SchedulingMsg::Change(id, c) => slots.update(id as int, slots[id as int].update(c)),
        SchedulingMsg::Delete(id) => slots.remove(id as int),
    }
}

impl View for Scheduling {
    type V = Seq<TimeSlotView>;

    closed spec fn view(&self) -> Seq<TimeSlotView> {
        slot_views(self.time_slots@)
    }
}

impl Clone for Scheduling {
    fn clone(&self) -> (copy: Self)
        ensures
            copy@ == self@,
    {
        let mut time_slots: Vec<TimeSlot> = Vec::new();
        let mut i: usize = 0;
        while i < self.time_slots.len()
            invariant
                i <= self.time_slots.len(),
                time_slots.len() == i,
                forall|n: int| 0 <= n < i ==> (#[trigger] time_slots@[n])@ == self.time_slots@[n]@,
            decreases self.time_slots.len() - i,
        {
            time_slots.push(self.time_slots[i].clone());
            i = i + 1;
        }
        Scheduling { time_slots }
    }
}

impl Default for Scheduling {
    fn default() -> (scheduling: Self)
        ensures
            scheduling@ == Seq::<TimeSlotView>::empty(),
    {
        let scheduling = Scheduling { time_slots: Vec::new() };
        scheduling
    }
}

impl Scheduling {
    /// The scheduling that holds `time_slots` in their order.
    pub fn from_slots(time_slots: Vec<TimeSlot>) -> (scheduling: Self)
        ensures
            scheduling@ == slot_views(time_slots@),
    {
        Scheduling { time_slots }
    }

    pub fn time_slots(&self) -> (slots: &Vec<TimeSlot>)
        ensures
            slot_views(slots@) == self@,
    {
        &self.time_slots
    }

    /// Tells whether `msg` can be applied: whether the slot that it names,
    /// if it names one, is there.
    pub fn admits(&self, msg: &SchedulingMsg) -> (ok: bool)
        ensures
            ok == admits(self@, *msg),
    {
        match msg {
            SchedulingMsg::Change(id, _) => *id < self.time_slots.len(),
            SchedulingMsg::Add => true,
            SchedulingMsg::Delete(id) => *id < self.time_slots.len(),
        }
    }

    /// Applies `msg` to the slots.
    pub fn update(&mut self, msg: SchedulingMsg)
        requires
            admits(old(self)@, msg),
        ensures
            final(self)@ == updated(old(self)@, msg),
    {
        match msg {
            SchedulingMsg::Add => {
                self.time_slots.push(TimeSlot::default());
            },
            SchedulingMsg::Change(id, c) => {
                self.time_slots[id].update(c);
            },
            SchedulingMsg::Delete(id) => {
                self.time_slots.remove(id);
            },
        }
    }
}

} // verus!
