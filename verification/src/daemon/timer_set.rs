//! Which timers are armed, and which expiries still count.
//!
//! An expiry may already be on its way when its timer is cancelled or armed
//! anew. So each arming has a number of its own, the generation, and an expiry
//! counts only while its generation is the one that is armed.

use vstd::prelude::*;
use std::collections::HashMap;
use crate::fsm::timers::TimerId;

verus! {

broadcast use vstd::std_specs::hash::group_hash_axioms;

/// A timer that is armed.
#[derive(Clone, Copy, Debug, PartialEq, Eq, Structural)]
pub struct TimerEntry {
    /// Whether it goes on after an expiry.
    pub periodic: bool,
    pub generation: u64,
}

/// The timers of one session or one discovery task.
#[derive(Debug)]
pub struct TimerSet {
    entries: HashMap<u32, TimerEntry>,
    last_generations: HashMap<u32, u64>,
}

/// What is armed, and the last generation that was given out for each timer.
#[verifier::ext_equal]
pub struct TimerSetView {
    pub armed: Map<u32, TimerEntry>,
    pub last: Map<u32, u64>,
}

impl View for TimerSet {
    type V = TimerSetView;

    closed spec fn view(&self) -> TimerSetView {
        TimerSetView { armed: self.entries@, last: self.last_generations@ }
    }
}

impl TimerSetView {
    pub open spec fn none() -> Self {
        TimerSetView { armed: Map::empty(), last: Map::empty() }
    }

    /// The generation that comes next: one up, and around at the end.
    pub open spec fn upcoming(self, id: TimerId) -> u64 {
        if self.last.contains_key(id.0) {
            if self.last[id.0] == u64::MAX {
                0
            } else {
                (self.last[id.0] + 1) as u64
            }
        } else {
            1
        }
    }

    /// After the next generation was given out.
    pub open spec fn numbered(self, id: TimerId) -> Self {
        TimerSetView { last: self.last.insert(id.0, self.upcoming(id)), ..self }
    }

    pub open spec fn arm(self, id: TimerId, periodic: bool, generation: u64) -> Self {
        TimerSetView {
            armed: self.armed.insert(id.0, TimerEntry { periodic, generation }),
            ..self
        }
    }

    /// Armed with the next generation.
    pub open spec fn started(self, id: TimerId, periodic: bool) -> Self {
        self.numbered(id).arm(id, periodic, self.upcoming(id))
    }

    pub open spec fn cancel(self, id: TimerId) -> Self {
        TimerSetView { armed: self.armed.remove(id.0), ..self }
    }

    /// The expiry of this generation counts.
    pub open spec fn is_current(self, id: TimerId, generation: u64) -> bool {
        self.armed.contains_key(id.0) && self.armed[id.0].generation == generation
    }

    /// After an expiry: a single shot is over, a periodic timer goes on.
    pub open spec fn forget(self, id: TimerId) -> Self {
        if self.armed.contains_key(id.0) && !self.armed[id.0].periodic {
            self.cancel(id)
        } else {
            self
        }
    }

    /// Every armed timer has the last generation given out for it.
    pub open spec fn in_step(self) -> bool {
        forall|id: u32| #[trigger]
            self.armed.contains_key(id) ==> self.last.contains_key(id) && self.last[id]
                == self.armed[id].generation
    }
}

impl Default for TimerSet {
    fn default() -> (r: Self)
        ensures
            r@ == TimerSetView::none(),
    {
        let r = TimerSet { entries: HashMap::new(), last_generations: HashMap::new() };
        assert(r@ =~= TimerSetView::none());
        r
    }
}

impl TimerSet {
    /// The generation for the next arming of `id`.
    pub fn next_generation_for(&mut self, id: TimerId) -> (r: u64)
        ensures
            r == old(self)@.upcoming(id),
            final(self)@ == old(self)@.numbered(id),
    {
        let ghost before = self@;
        let last: u64 = match self.last_generations.get(&id.0) {
            Some(generation) => *generation,
            None => 0,
        };
        let generation: u64 = last.wrapping_add(1);
        self.last_generations.insert(id.0, generation);
        assert(self@ =~= before.numbered(id));
        generation
    }

    /// Arm a timer. One that was armed under the same handle is replaced.
    pub fn arm(&mut self, id: TimerId, periodic: bool, generation: u64)
        ensures
            final(self)@ == old(self)@.arm(id, periodic, generation),
    {
        let ghost before = self@;
        self.entries.insert(id.0, TimerEntry { periodic, generation });
        assert(self@ =~= before.arm(id, periodic, generation));
    }

    pub fn cancel(&mut self, id: TimerId)
        ensures
            final(self)@ == old(self)@.cancel(id),
    {
        let ghost before = self@;
        self.entries.remove(&id.0);
        assert(self@ =~= before.cancel(id));
    }

    pub fn is_armed(&self, id: TimerId) -> (r: bool)
        ensures
            r == self@.armed.contains_key(id.0),
    {
        self.entries.contains_key(&id.0)
    }

    /// Whether an expiry of this generation counts.
    pub fn is_current_generation(&self, id: TimerId, generation: u64) -> (r: bool)
        ensures
            r == self@.is_current(id, generation),
    {
        match self.entries.get(&id.0) {
            Some(entry) => entry.generation == generation,
            None => false,
        }
    }

    /// Note an expiry: a single shot is over. A periodic timer is still armed,
    /// so that it can be cancelled.
    pub fn forget(&mut self, id: TimerId)
        ensures
            final(self)@ == old(self)@.forget(id),
    {
        let ghost before = self@;
        let single_shot = match self.entries.get(&id.0) {
            Some(entry) => !entry.periodic,
            None => false,
        };
        if single_shot {
            self.entries.remove(&id.0);
        }
        assert(self@ =~= before.forget(id));
    }

    /// Arm a timer with its next generation, which is given back.
    pub fn start(&mut self, id: TimerId, periodic: bool) -> (r: u64)
        ensures
            r == old(self)@.upcoming(id),
            final(self)@ == old(self)@.started(id, periodic),
    {
        let generation: u64 = self.next_generation_for(id);
        self.arm(id, periodic, generation);
        generation
    }
}

/// Starting, cancelling and expiring keep armed timers in step with the
/// generations given out.
pub proof fn law_timers_stay_in_step(timers: TimerSetView, id: TimerId, periodic: bool)
    requires
        timers.in_step(),
    ensures
        TimerSetView::none().in_step(),
        timers.started(id, periodic).in_step(),
        timers.cancel(id).in_step(),
        timers.forget(id).in_step(),
{
}

/// Arming a timer anew makes its earlier expiry stale: only the new one counts.
pub proof fn law_restart_makes_stale(
    timers: TimerSetView,
    id: TimerId,
    generation: u64,
    periodic: bool,
)
    requires
        timers.in_step(),
        timers.is_current(id, generation),
    ensures
        timers.started(id, periodic).is_current(id, timers.upcoming(id)),
        !timers.started(id, periodic).is_current(id, generation),
{
}

/// No expiry of a cancelled timer counts, and the one that was current does not
/// count again when the timer is next armed.
pub proof fn law_cancel_makes_stale(
    timers: TimerSetView,
    id: TimerId,
    generation: u64,
    any: u64,
    periodic: bool,
)
    requires
        timers.in_step(),
        timers.is_current(id, generation),
    ensures
        !timers.cancel(id).is_current(id, any),
        timers.cancel(id).is_stale(id, generation),
        !timers.cancel(id).started(id, periodic).is_current(id, generation),
{
}

/// What can happen to a timer.
pub enum TimerStep {
    Started { id: TimerId, periodic: bool },
    Cancelled { id: TimerId },
    Expired { id: TimerId },
}

impl TimerSetView {
    /// After one step.
    pub open spec fn stepped(self, step: TimerStep) -> Self {
        match step {
            TimerStep::Started { id, periodic } => self.started(id, periodic),
            TimerStep::Cancelled { id } => self.cancel(id),
            TimerStep::Expired { id } => self.forget(id),
        }
    }

    /// After these steps, in order.
    pub open spec fn after(self, steps: Seq<TimerStep>) -> Self
        decreases steps.len(),
    {
        if steps.len() == 0 {
            self
        } else {
            self.after(steps.drop_last()).stepped(steps.last())
        }
    }

    /// A generation that was given out and does not count any more.
    pub open spec fn is_stale(self, id: TimerId, generation: u64) -> bool {
        &&& self.last.contains_key(id.0)
        &&& generation <= self.last[id.0]
        &&& !self.is_current(id, generation)
    }
}

/// No generation that was given out before counts once the timer is armed anew,
/// however long ago that was.
pub proof fn law_given_out_is_stale_after_restart(
    timers: TimerSetView,
    id: TimerId,
    generation: u64,
    periodic: bool,
)
    requires
        timers.last.contains_key(id.0),
        generation <= timers.last[id.0] < u64::MAX,
    ensures
        timers.started(id, periodic).is_stale(id, generation),
{
}

/// What is stale stays stale, whatever is started, cancelled or expires, for as
/// long as the generations do not come around.
pub proof fn law_stale_stays_stale(
    timers: TimerSetView,
    id: TimerId,
    generation: u64,
    steps: Seq<TimerStep>,
)
    requires
        timers.is_stale(id, generation),
        timers.last[id.0] + steps.len() <= u64::MAX,
    ensures
        timers.after(steps).is_stale(id, generation),
        timers.after(steps).last[id.0] <= timers.last[id.0] + steps.len(),
    decreases steps.len(),
{
    if steps.len() > 0 {
        law_stale_stays_stale(timers, id, generation, steps.drop_last());
    }
}

/// A single shot expires once. A periodic timer expires again and again, and
/// can still be cancelled.
pub proof fn law_single_shot_expires_once(timers: TimerSetView, id: TimerId, generation: u64)
    requires
        timers.is_current(id, generation),
    ensures
        timers.forget(id).is_current(id, generation) == timers.armed[id.0].periodic,
{
}

/// Timers do not disturb one another.
pub proof fn law_timers_are_independent(
    timers: TimerSetView,
    id: TimerId,
    other: TimerId,
    generation: u64,
    periodic: bool,
)
    requires
        id != other,
    ensures
        timers.started(id, periodic).is_current(other, generation) == timers.is_current(
            other,
            generation,
        ),
        timers.cancel(id).is_current(other, generation) == timers.is_current(other, generation),
        timers.forget(id).is_current(other, generation) == timers.is_current(other, generation),
        timers.started(id, periodic).upcoming(other) == timers.upcoming(other),
{
}

} // verus!
