use vstd::prelude::*;
use std::collections::BTreeMap;
use crate::system::Fault;

verus! {

/// A task waiting for a cycle: which task, whether real time should catch
/// up with emulated time before it runs, and whether it completed a frame
/// (and so may be paused).
#[derive(Clone, Copy, Debug, PartialEq, Eq, Structural)]
pub struct Sleeper {
    pub task: u64,
    pub catchup: bool,
    pub frame_done: bool,
}

/// What the driver does for a task whose cycle has come: sleep until real
/// time has caught up with `catchup_cycles` cycles since the last catch-up,
/// honour a pause request after a frame, then wake the task.
#[derive(Clone, Copy, Debug, PartialEq, Eq, Structural)]
pub struct Wakeup {
    pub task: u64,
    pub catchup_cycles: Option<u64>,
    pub frame_done: bool,
}

/// The emulated clock: the current cycle, the cycle of the last catch-up
/// with real time, and the tasks waiting for later cycles.
pub struct Clock {
    pub current_cycle: u64,
    pub last_catchup_cycle: u64,
    pub sleepers: BTreeMap<u64, Vec<Sleeper>>,
}

pub struct ClockView {
    pub current_cycle: u64,
    pub last_catchup_cycle: u64,
    pub sleepers: Map<u64, Seq<Sleeper>>,
}

impl View for Clock {
    type V = ClockView;

    open spec fn view(&self) -> ClockView {
        ClockView {
            current_cycle: self.current_cycle,
            last_catchup_cycle: self.last_catchup_cycle,
            sleepers: Map::new(|k: u64| self.sleepers@.contains_key(k), |k: u64| self.sleepers@[k]@),
        }
    }
}

/// The wakeups for the sleepers of cycle `cur` from index `i` on, with the
/// cycle of the last catch-up threaded through.
pub open spec fn wake_from(list: Seq<Sleeper>, i: int, last: u64, cur: u64) -> Result<(u64, Seq<Wakeup>), Fault>
    decreases list.len() - i,
{
    if i < 0 || i >= list.len() {
        Ok((last, Seq::empty()))
    } else {
        let s = list[i];
        if s.catchup && cur < last {
            Err(Fault::Overflow)
        } else {
            let w = Wakeup {
                task: s.task,
                catchup_cycles: if s.catchup { Some((cur - last) as u64) } else { None },
                frame_done: s.frame_done,
            };
            match wake_from(list, i + 1, if s.catchup { cur } else { last }, cur) {
                Err(e) => Err(e),
                Ok((l, ws)) => Ok((l, seq![w] + ws)),
            }
        }
    }
}

/// One cycle: the clock moves on and every task waiting for the new cycle
/// is woken, in the order it registered.
pub open spec fn tick_spec(c: ClockView) -> Result<(ClockView, Seq<Wakeup>), Fault> {
    if c.current_cycle == u64::MAX {
        Err(Fault::Overflow)
    } else {
        let cur = (c.current_cycle + 1) as u64;
        let list = if c.sleepers.contains_key(cur) { c.sleepers[cur] } else { Seq::empty() };
        match wake_from(list, 0, c.last_catchup_cycle, cur) {
            Err(e) => Err(e),
            Ok((last, ws)) => Ok(
                (ClockView { current_cycle: cur, last_catchup_cycle: last, sleepers: c.sleepers.remove(cur) }, ws),
            ),
        }
    }
}

/// The sleepers after `s` registers for cycle `until`, behind the others.
pub open spec fn register_spec(m: Map<u64, Seq<Sleeper>>, until: u64, s: Sleeper) -> Map<u64, Seq<Sleeper>> {
    m.insert(until, if m.contains_key(until) { m[until].push(s) } else { seq![s] })
}

impl Clock {
    /// The clock at the CPU's starting cycle, 3 * 7.
    pub fn new() -> (r: Self)
        ensures
            r@.current_cycle == 21,
            r@.last_catchup_cycle == 0,
            r@.sleepers == Map::<u64, Seq<Sleeper>>::empty(),
    {
        let r = Clock { current_cycle: 3 * 7, last_catchup_cycle: 0, sleepers: BTreeMap::new() };
        assert(r@.sleepers =~= Map::<u64, Seq<Sleeper>>::empty());
        r
    }

    /// Advances one cycle and returns what to do for each task it wakes.
    pub fn tick(&mut self) -> (r: Result<Vec<Wakeup>, Fault>)
        ensures
            match tick_spec(old(self)@) {
                Ok((c, ws)) => r is Ok && r->Ok_0@ == ws && final(self)@ == c,
                Err(e) => r == Err::<Vec<Wakeup>, Fault>(e),
            },
    {
        if self.current_cycle == u64::MAX {
            return Err(Fault::Overflow);
        }
        self.current_cycle = self.current_cycle + 1;
        let cur = self.current_cycle;
        let ghost old_map = self@.sleepers;
        let list = match self.sleepers.remove(&cur) {
            Some(l) => l,
            None => Vec::new(),
        };
        assert(self@.sleepers =~= old_map.remove(cur));
        let ghost l0 = list@;
        assert(l0 == if old(self)@.sleepers.contains_key(cur) { old(self)@.sleepers[cur] } else { Seq::<Sleeper>::empty() });
        let mut out: Vec<Wakeup> = Vec::new();
        let mut i: usize = 0;
        while i < list.len()
            invariant
                0 <= i <= list@.len(),
                list@ == l0,
                self.current_cycle == cur,
                old(self)@.current_cycle < u64::MAX,
                cur == old(self)@.current_cycle + 1,
                old_map == old(self)@.sleepers,
                l0 == if old(self)@.sleepers.contains_key(cur) {
                    old(self)@.sleepers[cur]
                } else {
                    Seq::<Sleeper>::empty()
                },
                self@.sleepers == old_map.remove(cur),
                match wake_from(l0, 0, old(self)@.last_catchup_cycle, cur) {
                    Ok((l, ws)) => match wake_from(l0, i as int, self.last_catchup_cycle, cur) {
                        Ok((l2, ws2)) => l2 == l && ws == out@ + ws2,
                        Err(_) => false,
                    },
                    Err(e) => wake_from(l0, i as int, self.last_catchup_cycle, cur) == Err::<(u64, Seq<Wakeup>), Fault>(e),
                },
            decreases list@.len() - i,
        {
            let s = list[i];
            let catchup_cycles = if s.catchup {
                if cur < self.last_catchup_cycle {
                    assert(wake_from(l0, i as int, self.last_catchup_cycle, cur) == Err::<(u64, Seq<Wakeup>), Fault>(
                        Fault::Overflow,
                    ));
                    return Err(Fault::Overflow);
                }
                let duration_cycles = cur - self.last_catchup_cycle;
                self.last_catchup_cycle = cur;
                Some(duration_cycles)
            } else {
                None
            };
            out.push(Wakeup { task: s.task, catchup_cycles: catchup_cycles, frame_done: s.frame_done });
            i = i + 1;
            proof {
                let w = Wakeup { task: s.task, catchup_cycles: catchup_cycles, frame_done: s.frame_done };
                match wake_from(l0, i as int, self.last_catchup_cycle, cur) {
                    Ok((l2, ws2)) => {
                        assert(out@ + ws2 =~= out@.drop_last() + (seq![w] + ws2));
                    },
                    Err(_) => {},
                }
            }
        }
        proof {
            match wake_from(l0, 0, old(self)@.last_catchup_cycle, cur) {
                Ok((l, ws)) => {
                    assert(out@ + Seq::<Wakeup>::empty() =~= out@);
                },
                Err(_) => {},
            }
        }
        Ok(out)
    }

    /// Registers `s` to be woken at cycle `until`.
    pub fn register(&mut self, until: u64, s: Sleeper)
        ensures
            final(self)@ == (ClockView { sleepers: register_spec(old(self)@.sleepers, until, s), ..old(self)@ }),
    {
        let ghost old_map = self@.sleepers;
        let mut list = match self.sleepers.remove(&until) {
            Some(l) => l,
            None => Vec::new(),
        };
        list.push(s);
        self.sleepers.insert(until, list);
        assert(self@.sleepers =~= register_spec(old_map, until, s));
    }
}

/// A wait for a given cycle.
#[derive(Clone, Copy, Debug, PartialEq, Eq, Structural)]
pub struct CycleDelay {
    pub until: u64,
    pub catchup: bool,
    pub frame_done: bool,
}

impl CycleDelay {
    /// A wait of `until` cycles from now, with or without catch-up.
    pub fn new(clock: &Clock, until: u64, catchup: bool) -> (r: Result<Self, Fault>)
        ensures
            clock.current_cycle + until > u64::MAX ==> r == Err::<CycleDelay, Fault>(Fault::Overflow),
            clock.current_cycle + until <= u64::MAX ==> r == Ok::<CycleDelay, Fault>(
                CycleDelay { until: (clock.current_cycle + until) as u64, catchup: catchup, frame_done: false },
            ),
    {
        let current_cycle = clock.current_cycle;
        match current_cycle.checked_add(until) {
            Some(u) => Ok(CycleDelay { until: u, catchup: catchup, frame_done: false }),
            None => Err(Fault::Overflow),
        }
    }

    /// A wait of one cycle that marks the end of a frame.
    pub fn frame_done(clock: &Clock, frame_done: bool) -> (r: Result<Self, Fault>)
        ensures
            clock.current_cycle == u64::MAX ==> r == Err::<CycleDelay, Fault>(Fault::Overflow),
            clock.current_cycle < u64::MAX ==> r == Ok::<CycleDelay, Fault>(
                CycleDelay { until: (clock.current_cycle + 1) as u64, catchup: false, frame_done: frame_done },
            ),
    {
        let current_cycle = clock.current_cycle;
        match current_cycle.checked_add(1) {
            Some(u) => Ok(CycleDelay { until: u, catchup: false, frame_done: frame_done }),
            None => Err(Fault::Overflow),
        }
    }

    /// Polls the wait for task `task`: ready once the clock has reached the
    /// cycle; otherwise the task is registered for it.
    pub fn poll(&self, clock: &mut Clock, task: u64) -> (r: bool)
        ensures
            r == (old(clock).current_cycle >= self.until),
            r ==> final(clock)@ == old(clock)@,
            !r ==> final(clock)@ == (ClockView {
                sleepers: register_spec(
                    old(clock)@.sleepers,
                    self.until,
                    Sleeper { task: task, catchup: self.catchup, frame_done: self.frame_done },
                ),
                ..old(clock)@
            }),
    {
        if clock.current_cycle >= self.until {
            true
        } else {
            clock.register(self.until, Sleeper { task: task, catchup: self.catchup, frame_done: self.frame_done });
            false
        }
    }
}

/// Waking the sleepers of a cycle never fails while the last catch-up is
/// not after it: each sleeper gets one wakeup, in order, and the last
/// catch-up moves forward but not past the cycle.
pub proof fn lemma_wake_from(list: Seq<Sleeper>, i: int, last: u64, cur: u64)
    requires
        0 <= i <= list.len(),
        last <= cur,
    ensures
        match wake_from(list, i, last, cur) {
            Ok((l, ws)) => {
                &&& last <= l <= cur
                &&& ws.len() == list.len() - i
                &&& forall|j: int|
                    #![trigger ws[j]]
                    0 <= j < ws.len() ==> ws[j].task == list[i + j].task && ws[j].frame_done == list[i + j].frame_done
            },
            Err(_) => false,
        },
    decreases list.len() - i,
{
    if i < list.len() {
        let s = list[i];
        let next_last = if s.catchup { cur } else { last };
        lemma_wake_from(list, i + 1, next_last, cur);
        match wake_from(list, i + 1, next_last, cur) {
            Ok((l, ws)) => {
                let w = Wakeup {
                    task: s.task,
                    catchup_cycles: if s.catchup { Some((cur - last) as u64) } else { None },
                    frame_done: s.frame_done,
                };
                assert(wake_from(list, i, last, cur) == Ok::<(u64, Seq<Wakeup>), Fault>((l, seq![w] + ws)));
                let ws1 = seq![w] + ws;
                assert forall|j: int| #![trigger ws1[j]] 0 <= j < ws1.len() implies ws1[j].task == list[i + j].task
                    && ws1[j].frame_done == list[i + j].frame_done by {
                    if j > 0 {
                        assert(ws1[j] == ws[j - 1]);
                        assert(ws[j - 1].task == list[i + 1 + (j - 1)].task);
                    }
                }
            },
            Err(_) => {},
        }
    }
}

/// While the last catch-up is not after the current cycle, a tick never
/// fails and keeps it so; a task registered for the next cycle is woken by
/// it, after the tasks that registered before it, and a task registered
/// for a later cycle stays registered.
pub proof fn lemma_register_then_tick(c: ClockView, until: u64, s: Sleeper)
    requires
        c.last_catchup_cycle <= c.current_cycle < u64::MAX,
    ensures
        match tick_spec(ClockView { sleepers: register_spec(c.sleepers, until, s), ..c }) {
            Ok((c2, ws)) => {
                &&& c2.current_cycle == c.current_cycle + 1
                &&& c2.last_catchup_cycle <= c2.current_cycle
                &&& until == c.current_cycle + 1 ==> ws.len() > 0 && ws.last().task == s.task
                    && ws.last().frame_done == s.frame_done
                &&& until != c.current_cycle + 1 ==> c2.sleepers.contains_key(until) && c2.sleepers[until].last() == s
            },
            Err(_) => false,
        },
{
    let m = register_spec(c.sleepers, until, s);
    let cur = (c.current_cycle + 1) as u64;
    let list = if m.contains_key(cur) { m[cur] } else { Seq::empty() };
    lemma_wake_from(list, 0, c.last_catchup_cycle, cur);
    match wake_from(list, 0, c.last_catchup_cycle, cur) {
        Ok((l, ws)) => {
            if until == cur {
                assert(ws[ws.len() - 1].task == list[0 + (ws.len() - 1)].task);
            }
        },
        Err(_) => {},
    }
}

} // verus!
