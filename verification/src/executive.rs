//! The Waitlist: a small time-ordered queue of deferred tasks.
//!
//! Each entry carries the delay (centiseconds) after which its task is due.
//! Entries are kept in non-decreasing order of delay; a new entry goes after
//! every entry whose delay is not larger than its own, so tasks due at the
//! same time run in the order they were scheduled.
use vstd::prelude::*;

verus! {

/// Number of task slots in the Waitlist.
pub const WAITLIST_CAPACITY: usize = 9;

/// The deferred tasks that programs can put on the Waitlist.
#[derive(Clone, Copy, Debug, PartialEq, Eq, Structural)]
pub enum Task {
    /// One iteration of the P02 gyrocompass loop.
    P02GyrocompassStep,
    /// The P20 rendezvous navigation cycle.
    P20NavCycle,
    /// The P22 landmark navigation cycle.
    P22CycleTask,
    /// The P23 cislunar navigation cycle.
    P23CycleTask,
}

/// One Waitlist slot.
#[derive(Clone, Copy, Debug, PartialEq, Eq, Structural)]
pub struct WaitlistEntry {
    /// Delay until the task is due, centiseconds.
    pub delay_cs: u16,
    /// The task to run.
    pub task: Task,
}

/// Outcome of [`Waitlist::schedule`].
#[derive(Clone, Copy, Debug, PartialEq, Eq, Structural)]
pub enum ScheduleResult {
    /// The task was queued.
    Scheduled,
    /// Every slot was taken; nothing was queued.
    Full,
}

/// The Waitlist itself.
#[derive(Debug)]
pub struct Waitlist {
    entries: Vec<WaitlistEntry>,
}

/// The delays of a sequence of entries never decrease.
pub open spec fn sorted_by_delay(s: Seq<WaitlistEntry>) -> bool {
    forall|i: int, j: int| 0 <= i <= j < s.len() ==> s[i].delay_cs <= s[j].delay_cs
}

/// `t` is `s` with `e` inserted after every entry whose delay is at most
/// `e`'s delay and before every entry whose delay is larger.
pub open spec fn ordered_insert(s: Seq<WaitlistEntry>, e: WaitlistEntry, t: Seq<WaitlistEntry>) -> bool {
    exists|k: int|
        0 <= k <= s.len() && t == s.insert(k, e) && (forall|i: int|
            0 <= i < k ==> s[i].delay_cs <= e.delay_cs) && (forall|i: int|
            k <= i < s.len() ==> s[i].delay_cs > e.delay_cs)
}

/// `t` is what scheduling `task` after `delay_cs` does to the entries `s`:
/// unchanged when every slot is taken, else the ordered insertion.
pub open spec fn schedule_effect(s: Seq<WaitlistEntry>, delay_cs: u16, task: Task, t: Seq<WaitlistEntry>) -> bool {
    if s.len() >= WAITLIST_CAPACITY {
        t == s
    } else {
        ordered_insert(s, WaitlistEntry { delay_cs, task }, t)
    }
}

impl View for Waitlist {
    type V = Seq<WaitlistEntry>;

    closed spec fn view(&self) -> Seq<WaitlistEntry> {
        self.entries@
    }
}

impl Waitlist {
    /// The Waitlist invariant: ordered by delay and within capacity.
    #[verifier::type_invariant]
    closed spec fn inv(&self) -> bool {
        sorted_by_delay(self.entries@) && self.entries@.len() <= WAITLIST_CAPACITY
    }

    /// An empty Waitlist.
    pub fn new() -> (w: Waitlist)
        ensures
            w@ == Seq::<WaitlistEntry>::empty(),
    {
        Waitlist { entries: Vec::new() }
    }

    /// Number of queued tasks.
    pub fn len(&self) -> (n: usize)
        ensures
            n == self@.len(),
    {
        self.entries.len()
    }

    /// Whether no task is queued.
    pub fn is_empty(&self) -> (b: bool)
        ensures
            b == (self@.len() == 0),
    {
        self.entries.len() == 0
    }

    /// The entry at position `i` (0 is the next task due), if any.
    pub fn peek(&self, i: usize) -> (r: Option<WaitlistEntry>)
        ensures
            i < self@.len() ==> r == Some(self@[i as int]),
            i >= self@.len() ==> r.is_none(),
    {
        if i < self.entries.len() {
            Some(self.entries[i])
        } else {
            None
        }
    }

    /// Delay of the next task due, if any.
    pub fn front_delta(&self) -> (r: Option<u16>)
        ensures
            self@.len() > 0 ==> r == Some(self@[0].delay_cs),
            self@.len() == 0 ==> r.is_none(),
    {
        if self.entries.len() > 0 {
            Some(self.entries[0].delay_cs)
        } else {
            None
        }
    }

    /// Whether `task` is queued anywhere in the Waitlist.
    pub fn contains_task(&self, task: Task) -> (b: bool)
        ensures
            b == (exists|i: int| 0 <= i < self@.len() && self@[i].task == task),
    {
        let mut i: usize = 0;
        while i < self.entries.len()
            invariant
                0 <= i <= self.entries@.len(),
                forall|j: int| 0 <= j < i ==> self@[j].task != task,
            decreases self.entries@.len() - i,
        {
            if self.entries[i].task == task {
                return true;
            }
            i = i + 1;
        }
        false
    }

    /// Queue `task` to run after `delay_cs` centiseconds.
    ///
    /// Returns `Full` and changes nothing when all slots are taken.
    pub fn schedule(&mut self, delay_cs: u16, task: Task) -> (r: ScheduleResult)
        ensures
            sorted_by_delay(final(self)@),
            final(self)@.len() <= WAITLIST_CAPACITY,
            r == ScheduleResult::Full <==> old(self)@.len() == WAITLIST_CAPACITY,
            schedule_effect(old(self)@, delay_cs, task, final(self)@),
            r == ScheduleResult::Full ==> final(self)@ == old(self)@,
            r == ScheduleResult::Scheduled ==> ordered_insert(
                old(self)@,
                WaitlistEntry { delay_cs, task },
                final(self)@,
            ),
            r == ScheduleResult::Scheduled ==> final(self)@.len() == old(self)@.len() + 1,
    {
        proof {
            use_type_invariant(&*self);
        }
        if self.entries.len() >= WAITLIST_CAPACITY {
            return ScheduleResult::Full;
        }
        let e = WaitlistEntry { delay_cs, task };
        let mut k: usize = 0;
        while k < self.entries.len() && self.entries[k].delay_cs <= delay_cs
            invariant
                0 <= k <= self.entries@.len(),
                forall|i: int| 0 <= i < k ==> self.entries@[i].delay_cs <= delay_cs,
            decreases self.entries@.len() - k,
        {
            k = k + 1;
        }
        let mut v = Vec::new();
        std::mem::swap(&mut v, &mut self.entries);
        let ghost s = v@;
        proof {
            // Everything from k on is larger, because the sequence is sorted.
            assert forall|i: int| k <= i < s.len() implies s[i].delay_cs > delay_cs by {
                if k < s.len() {
                    assert(s[k as int].delay_cs > delay_cs);
                    assert(s[k as int].delay_cs <= s[i].delay_cs);
                }
            }
        }
        v.insert(k, e);
        proof {
            let t = v@;
            assert(t == s.insert(k as int, e));
            assert forall|i: int, j: int| 0 <= i <= j < t.len() implies t[i].delay_cs
                <= t[j].delay_cs by {
                if i < k && j < k {
                } else if i < k && j == k {
                } else if i < k && j > k {
                    assert(t[j] == s[j - 1]);
                } else if i == k && j == k {
                } else if i == k && j > k {
                    assert(t[j] == s[j - 1]);
                } else {
                    assert(t[i] == s[i - 1]);
                    assert(t[j] == s[j - 1]);
                }
            }
        }
        self.entries = v;
        ScheduleResult::Scheduled
    }

    /// Remove and return the next task due together with its delay.
    pub fn pop_task(&mut self) -> (r: Option<(Task, u16)>)
        ensures
            sorted_by_delay(final(self)@),
            old(self)@.len() == 0 ==> r.is_none() && final(self)@ == old(self)@,
            old(self)@.len() > 0 ==> r == Some((old(self)@[0].task, old(self)@[0].delay_cs))
                && final(self)@ == old(self)@.drop_first(),
    {
        proof {
            use_type_invariant(&*self);
        }
        if self.entries.len() == 0 {
            return None;
        }
        let mut v = Vec::new();
        std::mem::swap(&mut v, &mut self.entries);
        let e = v.remove(0);
        proof {
            assert(v@ == old(self)@.drop_first());
        }
        self.entries = v;
        Some((e.task, e.delay_cs))
    }
}

/// Scheduling on a Waitlist that has a free slot adds exactly one entry,
/// and the next task due afterwards is the new one if it is due strictly
/// before the previous front (or the Waitlist was empty), else the
/// previous front; no queued task is ever due before the front.
pub proof fn lemma_schedule_next_due(s: Seq<WaitlistEntry>, delay_cs: u16, task: Task, t: Seq<WaitlistEntry>)
    requires
        sorted_by_delay(s),
        s.len() < WAITLIST_CAPACITY,
        schedule_effect(s, delay_cs, task, t),
    ensures
        t.len() == s.len() + 1,
        t[0] == (if s.len() == 0 || delay_cs < s[0].delay_cs {
            WaitlistEntry { delay_cs, task }
        } else {
            s[0]
        }),
        forall|i: int| 0 <= i < t.len() ==> t[0].delay_cs <= #[trigger] t[i].delay_cs,
{
    let e = WaitlistEntry { delay_cs, task };
    let k = choose|k: int|
        0 <= k <= s.len() && t == s.insert(k, e) && (forall|i: int| 0 <= i < k ==> s[i].delay_cs <= e.delay_cs)
            && (forall|i: int| k <= i < s.len() ==> s[i].delay_cs > e.delay_cs);
    if k > 0 {
        assert(s[0].delay_cs <= delay_cs);
        assert(t[0] == s[0]);
    }
    assert forall|i: int| 0 <= i < t.len() implies t[0].delay_cs <= #[trigger] t[i].delay_cs by {
        if k == 0 {
            if i > 0 {
                assert(t[i] == s[i - 1]);
            }
        } else if i < k {
            assert(t[i] == s[i]);
        } else if i == k {
        } else {
            assert(t[i] == s[i - 1]);
        }
    }
}

/// Tasks due at the same time run in the order they were scheduled: a task
/// scheduled when no queued task is due after it goes behind all of them.
pub proof fn lemma_schedule_fifo(s: Seq<WaitlistEntry>, delay_cs: u16, task: Task, t: Seq<WaitlistEntry>)
    requires
        s.len() < WAITLIST_CAPACITY,
        forall|i: int| 0 <= i < s.len() ==> #[trigger] s[i].delay_cs <= delay_cs,
        schedule_effect(s, delay_cs, task, t),
    ensures
        t == s.push(WaitlistEntry { delay_cs, task }),
{
    let e = WaitlistEntry { delay_cs, task };
    let k = choose|k: int|
        0 <= k <= s.len() && t == s.insert(k, e) && (forall|i: int| 0 <= i < k ==> s[i].delay_cs <= e.delay_cs)
            && (forall|i: int| k <= i < s.len() ==> s[i].delay_cs > e.delay_cs);
    if k < s.len() {
        assert(s[k].delay_cs > delay_cs);
    }
    assert(t =~= s.push(e));
}

} // verus!
