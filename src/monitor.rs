//! The scheduling decisions of one periodic check loop, as a state machine
//! from (loop, status, event) to (loop, status, action). Whoever drives a loop
//! sleeps, runs the check and reports back; each step is taken while holding
//! the status, so that observing it and changing it on a failure are one
//! critical section.
//!
//! A loop is fail-stop: its first failure marks the status unhealthy, appends
//! `"<name>: <failure>"` to the messages and halts the loop for good. Once a
//! loop sees the status unhealthy, in either phase, it halts too. While the
//! phase is deploying a loop that sees the status healthy waits and never runs
//! the check.

use vstd::prelude::*;
use crate::checks::plugin_manager::Check;
use crate::checks::HealthCheck;
use crate::status::{DeploymentPhase, HealthState, Status, StatusView};
use crate::text::concat3;

verus! {

/// Seconds to wait before looking at the phase again while deploying.
pub const PHASE_POLL_SECS: u64 = 1;

/// What the driver of a loop reports.
#[derive(Debug)]
pub enum LoopEvent {
    /// The loop has just started, or a wait or sleep is over.
    Tick,
    /// The check ran and passed.
    Passed,
    /// The check ran and failed with this description.
    Failed(String),
}

/// A `LoopEvent` as a mathematical value.
pub enum EventView {
    Tick,
    Passed,
    Failed(Seq<char>),
}

impl View for LoopEvent {
    type V = EventView;

    open spec fn view(&self) -> EventView {
        match self {
            LoopEvent::Tick => EventView::Tick,
            LoopEvent::Passed => EventView::Passed,
            LoopEvent::Failed(d) => EventView::Failed(d@),
        }
    }
}

/// What the driver of a loop is to do next.
#[derive(Clone, Copy, Debug, PartialEq, Eq, Structural)]
pub enum LoopAction {
    /// Sleep `PHASE_POLL_SECS`, then report a tick.
    Wait,
    /// Run the check, then report whether it passed.
    Run,
    /// Sleep this many seconds, then report a tick.
    Sleep(usize),
    /// End the loop.
    Stop,
}

/// A check loop as a mathematical value.
pub struct LoopView {
    pub name: Seq<char>,
    pub interval: usize,
    pub halted: bool,
}

/// The periodic loop of one check.
pub struct CheckLoop {
    name: String,
    interval: usize,
    halted: bool,
}

impl View for CheckLoop {
    type V = LoopView;

    closed spec fn view(&self) -> LoopView {
        LoopView { name: self.name@, interval: self.interval, halted: self.halted }
    }
}

/// The message that a failing check leaves in the status.
pub open spec fn failure_message(name: Seq<char>, detail: Seq<char>) -> Seq<char> {
    name + ": "@ + detail
}

/// One step of a loop: the loop after it, the status after it, and the
/// action to take.
pub open spec fn loop_step(lp: LoopView, s: StatusView, ev: EventView) -> (LoopView, StatusView, LoopAction) {
    if lp.halted {
        (lp, s, LoopAction::Stop)
    } else {
        match ev {
            EventView::Tick => if s.state == HealthState::Unhealthy {
                (LoopView { halted: true, ..lp }, s, LoopAction::Stop)
            } else if s.phase == DeploymentPhase::Deploying {
                (lp, s, LoopAction::Wait)
            } else {
                (lp, s, LoopAction::Run)
            },
            EventView::Passed => (lp, s, LoopAction::Sleep(lp.interval)),
            EventView::Failed(d) => (
                LoopView { halted: true, ..lp },
                StatusView {
                    state: HealthState::Unhealthy,
                    messages: s.messages.push(failure_message(lp.name, d)),
                    ..s
                },
                LoopAction::Stop,
            ),
        }
    }
}

impl CheckLoop {
    /// A fresh loop for a check.
    pub fn new(check: &Check) -> (r: CheckLoop)
        ensures
            r@ == (LoopView { name: check.check_name(), interval: check.check_interval(), halted: false }),
    {
        CheckLoop { name: String::from_str(check.name()), interval: check.interval(), halted: false }
    }

    /// Whether the loop has halted.
    pub fn is_halted(&self) -> (r: bool)
        ensures
            r == self@.halted,
    {
        self.halted
    }

    /// Takes one step on the status, which the caller holds for the whole
    /// call.
    pub fn step(&mut self, status: &mut Status, event: LoopEvent) -> (r: LoopAction)
        ensures
            (final(self)@, final(status)@, r) == loop_step(old(self)@, old(status)@, event@),
    {
        if self.halted {
            return LoopAction::Stop;
        }
        match event {
            LoopEvent::Tick => {
                if status.state == HealthState::Unhealthy {
                    self.halted = true;
                    LoopAction::Stop
                } else if status.phase == DeploymentPhase::Deploying {
                    LoopAction::Wait
                } else {
                    LoopAction::Run
                }
            },
            LoopEvent::Passed => LoopAction::Sleep(self.interval),
            LoopEvent::Failed(detail) => {
                let message = concat3(self.name.as_str(), ": ", detail.as_str());
                status.state = HealthState::Unhealthy;
                status.add_message(message);
                self.halted = true;
                LoopAction::Stop
            },
        }
    }
}

/// Something that happens to the monitored system: a step of one of its
/// loops, or a change through the status service.
pub enum SystemEvent {
    /// A step of the loop at this index.
    Loop(int, EventView),
    /// The health state set, with a message appended where one is given.
    SetHealth(HealthState, Option<Seq<char>>),
    /// The phase set.
    SetPhase(DeploymentPhase),
    /// A message appended.
    AddMessage(Seq<char>),
}

/// All loops and the shared status.
pub struct SystemView {
    pub loops: Seq<LoopView>,
    pub status: StatusView,
}

/// One event on the system: the system after it, and the action of the loop
/// that stepped (the loop's index with it), if one did.
pub open spec fn system_step(sys: SystemView, ev: SystemEvent) -> (SystemView, Option<(int, LoopAction)>) {
    match ev {
        SystemEvent::Loop(j, e) => if 0 <= j < sys.loops.len() {
            let (l, s, a) = loop_step(sys.loops[j], sys.status, e);
            (SystemView { loops: sys.loops.update(j, l), status: s }, Some((j, a)))
        } else {
            (sys, None)
        },
        SystemEvent::SetHealth(h, m) => (
            SystemView {
                status: StatusView {
                    state: h,
                    messages: match m {
                        Some(t) => sys.status.messages.push(t),
                        None => sys.status.messages,
                    },
                    ..sys.status
                },
                ..sys
            },
            None,
        ),
        SystemEvent::SetPhase(p) => (SystemView { status: StatusView { phase: p, ..sys.status }, ..sys }, None),
        SystemEvent::AddMessage(t) => (
            SystemView { status: StatusView { messages: sys.status.messages.push(t), ..sys.status }, ..sys },
            None,
        ),
    }
}

/// A sequence of events on the system, in order: the system after them, and
/// what each event made a loop do.
pub open spec fn run_system(sys: SystemView, evs: Seq<SystemEvent>) -> (SystemView, Seq<Option<(int, LoopAction)>>)
    decreases evs.len(),
{
    if evs.len() == 0 {
        (sys, Seq::empty())
    } else {
        let (mid, acts) = run_system(sys, evs.drop_last());
        let (next, a) = system_step(mid, evs.last());
        (next, acts.push(a))
    }
}

/// The action that loop `i` took, where it was that loop that stepped.
pub open spec fn action_of(a: Option<(int, LoopAction)>, i: int) -> Option<LoopAction> {
    match a {
        Some((j, x)) => if j == i {
            Some(x)
        } else {
            None
        },
        None => None,
    }
}

/// Whether none of the events sets the health state.
pub open spec fn no_health_set(evs: Seq<SystemEvent>) -> bool {
    forall|k: int| 0 <= k < evs.len() ==> !(#[trigger] evs[k] is SetHealth)
}

/// Unhealthy stays unhealthy and a halted loop stays halted and never runs,
/// as long as nobody sets the health state.
pub proof fn lemma_unhealthy_is_sticky(sys: SystemView, evs: Seq<SystemEvent>, i: int)
    requires
        0 <= i < sys.loops.len(),
        sys.loops[i].halted,
        sys.status.state == HealthState::Unhealthy,
        no_health_set(evs),
    ensures
        ({
            let (end, acts) = run_system(sys, evs);
            &&& end.status.state == HealthState::Unhealthy
            &&& end.loops.len() == sys.loops.len()
            &&& end.loops[i].halted
            &&& acts.len() == evs.len()
            &&& forall|k: int| 0 <= k < acts.len() && #[trigger] action_of(acts[k], i) is Some
                ==> action_of(acts[k], i) == Some(LoopAction::Stop)
        }),
    decreases evs.len(),
{
    if evs.len() > 0 {
        let init = evs.drop_last();
        assert(no_health_set(init)) by {
            assert forall|k: int| 0 <= k < init.len() implies !(#[trigger] init[k] is SetHealth) by {
                assert(init[k] == evs[k]);
            }
        }
        lemma_unhealthy_is_sticky(sys, init, i);
        let (mid, acts) = run_system(sys, init);
        assert(!(evs[evs.len() - 1] is SetHealth));
        let (end, all) = run_system(sys, evs);
        assert(all == acts.push(system_step(mid, evs.last()).1));
        assert forall|k: int| 0 <= k < all.len() && #[trigger] action_of(all[k], i) is Some
            implies action_of(all[k], i) == Some(LoopAction::Stop) by {
            if k < acts.len() {
                assert(all[k] == acts[k]);
            }
        }
    }
}

/// Once a periodic check fails, the status is unhealthy and stays so until
/// the health state is set through the status service, and that check's
/// loop never runs the check again.
pub proof fn lemma_failure_marks_unhealthy_for_good(
    sys: SystemView,
    i: int,
    detail: Seq<char>,
    later: Seq<SystemEvent>,
)
    requires
        0 <= i < sys.loops.len(),
        !sys.loops[i].halted,
        no_health_set(later),
    ensures
        ({
            let evs = seq![SystemEvent::Loop(i, EventView::Failed(detail))] + later;
            let (end, acts) = run_system(sys, evs);
            &&& end.status.state == HealthState::Unhealthy
            &&& end.loops[i].halted
            &&& forall|k: int| 0 <= k < acts.len() ==> #[trigger] action_of(acts[k], i) != Some(LoopAction::Run)
        }),
{
    let first = SystemEvent::Loop(i, EventView::Failed(detail));
    let one = seq![first];
    let (after, a0) = system_step(sys, first);
    assert(one.drop_last() =~= Seq::<SystemEvent>::empty());
    assert(one.last() == first);
    assert(run_system(sys, one.drop_last()) == (sys, Seq::<Option<(int, LoopAction)>>::empty()));
    assert(run_system(sys, one) == (after, Seq::<Option<(int, LoopAction)>>::empty().push(a0)));
    lemma_unhealthy_is_sticky(after, later, i);
    lemma_run_system_split(sys, one, later);
    let (end, acts) = run_system(sys, one + later);
    let (end_b, acts_b) = run_system(after, later);
    assert forall|k: int| 0 <= k < acts.len() implies #[trigger] action_of(acts[k], i) != Some(LoopAction::Run) by {
        if k > 0 {
            assert(acts[k] == acts_b[k - 1]);
        }
    }
}

/// Running two sequences of events one after the other is running their
/// concatenation.
pub proof fn lemma_run_system_split(sys: SystemView, a: Seq<SystemEvent>, b: Seq<SystemEvent>)
    ensures
        ({
            let (mid, acts_a) = run_system(sys, a);
            let (end, acts_b) = run_system(mid, b);
            run_system(sys, a + b) == (end, acts_a + acts_b)
        }),
    decreases b.len(),
{
    if b.len() == 0 {
        assert(a + b =~= a);
        let (mid, acts_a) = run_system(sys, a);
        assert(acts_a + Seq::<Option<(int, LoopAction)>>::empty() =~= acts_a);
    } else {
        let b0 = b.drop_last();
        lemma_run_system_split(sys, a, b0);
        assert((a + b).drop_last() =~= a + b0);
        assert((a + b).last() == b.last());
        let (mid, acts_a) = run_system(sys, a);
        let (m2, acts_b0) = run_system(mid, b0);
        let (end, x) = system_step(m2, b.last());
        assert(acts_a + acts_b0.push(x) =~= (acts_a + acts_b0).push(x));
    }
}

/// Messages are append-only: whatever happens, the messages before are the
/// first messages after, in the same order.
pub proof fn lemma_messages_only_grow(sys: SystemView, evs: Seq<SystemEvent>)
    ensures
        run_system(sys, evs).0.status.messages.len() >= sys.status.messages.len(),
        run_system(sys, evs).0.status.messages.take(sys.status.messages.len() as int) == sys.status.messages,
    decreases evs.len(),
{
    let before = sys.status.messages;
    let k = before.len() as int;
    if evs.len() == 0 {
        assert(before.take(k) =~= before);
    } else {
        lemma_messages_only_grow(sys, evs.drop_last());
        let mid = run_system(sys, evs.drop_last()).0.status.messages;
        let end = run_system(sys, evs).0.status.messages;
        assert(end == mid || exists|t: Seq<char>| end == mid.push(t));
        if end != mid {
            let t = choose|t: Seq<char>| end == mid.push(t);
            assert(end.take(k) =~= mid.take(k));
        }
    }
}

/// A loop that sees the status unhealthy halts for good, in either phase,
/// without running the check and without touching the status.
pub proof fn lemma_unhealthy_halts_loop(lp: LoopView, s: StatusView)
    requires
        s.state == HealthState::Unhealthy,
    ensures
        loop_step(lp, s, EventView::Tick).0.halted,
        loop_step(lp, s, EventView::Tick).1 == s,
        loop_step(lp, s, EventView::Tick).2 == LoopAction::Stop,
{
}

/// While the phase is deploying, a tick never runs the check and leaves the
/// status as it is.
pub proof fn lemma_deploying_holds_checks_back(lp: LoopView, s: StatusView)
    requires
        s.phase == DeploymentPhase::Deploying,
    ensures
        loop_step(lp, s, EventView::Tick).1 == s,
        loop_step(lp, s, EventView::Tick).2 != LoopAction::Run,
{
}

} // verus!
