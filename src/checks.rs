//! The check abstraction. A check probes a list of targets (files, URLs) in
//! their configured order and fails on the first one that is at fault. The
//! probing itself is I/O, done by the caller one target at a time; the
//! decisions are here: which target to probe next, and when the run is over
//! with which outcome.

pub mod file_check;
pub mod plugin_manager;
pub mod url_check;

use vstd::prelude::*;

verus! {

/// The capabilities every check offers.
pub trait HealthCheck {
    /// The check's name, used at the head of its failure messages.
    spec fn check_name(&self) -> Seq<char>;

    /// Seconds between two periodic runs.
    spec fn check_interval(&self) -> usize;

    /// Whether the check is fit for the one-shot diagnostic.
    spec fn check_quick(&self) -> bool;

    /// Whether the check has any work configured.
    spec fn check_enabled(&self) -> bool;

    fn name(&self) -> (r: &str)
        ensures
            r@ == self.check_name(),
    ;

    fn interval(&self) -> (r: usize)
        ensures
            r == self.check_interval(),
    ;

    fn is_quick_check(&self) -> (r: bool)
        ensures
            r == self.check_quick(),
    ;

    fn is_enabled(&self) -> (r: bool)
        ensures
            r == self.check_enabled(),
    ;
}

/// What to do next in a run over a list of targets.
#[derive(Debug)]
pub enum ProbeStep {
    /// Probe the target at this index and report its result.
    Probe(usize),
    /// The run is over, with this outcome.
    Done(Result<(), String>),
}

/// A `ProbeStep` as a mathematical value.
pub enum StepView {
    Probe(nat),
    Pass,
    Fail(Seq<char>),
}

impl View for ProbeStep {
    type V = StepView;

    open spec fn view(&self) -> StepView {
        match self {
            ProbeStep::Probe(i) => StepView::Probe(*i as nat),
            ProbeStep::Done(Ok(())) => StepView::Pass,
            ProbeStep::Done(Err(m)) => StepView::Fail(m@),
        }
    }
}

/// The first fault among the results of the targets probed so far.
pub open spec fn first_fault(faults: Seq<Option<Seq<char>>>) -> Option<Seq<char>>
    decreases faults.len(),
{
    if faults.len() == 0 {
        None
    } else {
        match first_fault(faults.drop_last()) {
            Some(m) => Some(m),
            None => faults.last(),
        }
    }
}

/// The next step of a run over `n` targets, given the fault (or none) of
/// each target probed so far, in order: the first fault ends the run; else
/// the next target is probed; once all are probed without fault, the run
/// passes.
pub open spec fn next_step(faults: Seq<Option<Seq<char>>>, n: nat) -> StepView {
    match first_fault(faults) {
        Some(m) => StepView::Fail(m),
        None => if faults.len() < n {
            StepView::Probe(faults.len())
        } else {
            StepView::Pass
        },
    }
}

/// The view of each optional text.
pub open spec fn fault_views(v: Seq<Option<String>>) -> Seq<Option<Seq<char>>> {
    v.map_values(|o: Option<String>| match o {
        Some(s) => Some(s@),
        None => None,
    })
}

/// Decides the next step of a run over `n` targets from the faults of those
/// probed so far.
pub fn decide(faults: &Vec<Option<String>>, n: usize) -> (r: ProbeStep)
    requires
        faults.len() <= n,
    ensures
        r@ == next_step(fault_views(faults@), n as nat),
{
    let ghost all = fault_views(faults@);
    let count = faults.len();
    let mut i: usize = 0;
    while i < count
        invariant
            i <= count,
            count == all.len() == faults.len(),
            all == fault_views(faults@),
            first_fault(all.take(i as int)) is None,
        decreases count - i,
    {
        proof {
            assert(all.take(i + 1).drop_last() =~= all.take(i as int));
        }
        match &faults[i] {
            Some(m) => {
                proof {
                    lemma_first_fault_kept(all, i as int + 1);
                }
                return ProbeStep::Done(Err(m.clone()));
            },
            None => {},
        }
        i = i + 1;
    }
    proof {
        assert(all.take(count as int) =~= all);
    }
    if count < n {
        ProbeStep::Probe(count)
    } else {
        ProbeStep::Done(Ok(()))
    }
}

/// A fault found among the first `k` results stays the first fault of all of
/// them.
pub proof fn lemma_first_fault_kept(faults: Seq<Option<Seq<char>>>, k: int)
    requires
        0 <= k <= faults.len(),
        first_fault(faults.take(k)) is Some,
    ensures
        first_fault(faults) == first_fault(faults.take(k)),
    decreases faults.len() - k,
{
    if k < faults.len() {
        assert(faults.take(k + 1).drop_last() =~= faults.take(k));
        lemma_first_fault_kept(faults, k + 1);
    } else {
        assert(faults.take(k) =~= faults);
    }
}

/// The first fault is the fault of the first target at fault: where the
/// targets before `i` passed and target `i` did not, the run reports the
/// fault of target `i`.
pub proof fn lemma_first_fault_at(faults: Seq<Option<Seq<char>>>, i: int)
    requires
        0 <= i < faults.len(),
        faults[i] is Some,
        forall|j: int| 0 <= j < i ==> (#[trigger] faults[j]) is None,
    ensures
        first_fault(faults) == faults[i],
    decreases faults.len(),
{
    if i < faults.len() - 1 {
        lemma_first_fault_at(faults.drop_last(), i);
    } else {
        lemma_no_fault(faults.drop_last());
    }
}

/// Results without any fault have no first fault.
pub proof fn lemma_no_fault(faults: Seq<Option<Seq<char>>>)
    requires
        forall|j: int| 0 <= j < faults.len() ==> (#[trigger] faults[j]) is None,
    ensures
        first_fault(faults) is None,
    decreases faults.len(),
{
    if faults.len() > 0 {
        lemma_no_fault(faults.drop_last());
    }
}

/// Where some target is at fault, the results have a first fault.
pub proof fn lemma_first_fault_at_some(faults: Seq<Option<Seq<char>>>, j: int)
    requires
        0 <= j < faults.len(),
        faults[j] is Some,
    ensures
        first_fault(faults) is Some,
    decreases faults.len(),
{
    if j < faults.len() - 1 {
        lemma_first_fault_at_some(faults.drop_last(), j);
    }
}

/// Whether a message names a target: the target's text stands in it.
pub open spec fn names(message: Seq<char>, target: Seq<char>) -> bool {
    exists|pre: Seq<char>, post: Seq<char>| message == pre + target + post
}

/// A run whose targets have all been probed without fault passes.
pub proof fn lemma_all_pass(faults: Seq<Option<Seq<char>>>, n: nat)
    requires
        faults.len() >= n,
        forall|j: int| 0 <= j < faults.len() ==> (#[trigger] faults[j]) is None,
    ensures
        next_step(faults, n) == StepView::Pass,
{
    lemma_no_fault(faults);
}

} // verus!
