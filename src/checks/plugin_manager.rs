//! The fixed set of checks, and the one-shot diagnostic over its quick ones.

use vstd::prelude::*;
use crate::checks::file_check::FileCheck;
use crate::checks::url_check::UrlCheck;
use crate::checks::{
    decide, fault_views, lemma_first_fault_at, lemma_no_fault, next_step, HealthCheck, ProbeStep, StepView,
};
use crate::config::Config;

verus! {

/// One of the checks this monitor knows.
pub enum Check {
    File(FileCheck),
    Url(UrlCheck),
}

impl HealthCheck for Check {
    open spec fn check_name(&self) -> Seq<char> {
        match self {
            Check::File(c) => c.check_name(),
            Check::Url(c) => c.check_name(),
        }
    }

    open spec fn check_interval(&self) -> usize {
        match self {
            Check::File(c) => c.check_interval(),
            Check::Url(c) => c.check_interval(),
        }
    }

    open spec fn check_quick(&self) -> bool {
        match self {
            Check::File(c) => c.check_quick(),
            Check::Url(c) => c.check_quick(),
        }
    }

    open spec fn check_enabled(&self) -> bool {
        match self {
            Check::File(c) => c.check_enabled(),
            Check::Url(c) => c.check_enabled(),
        }
    }

    fn name(&self) -> (r: &str) {
        match self {
            Check::File(c) => c.name(),
            Check::Url(c) => c.name(),
        }
    }

    fn interval(&self) -> (r: usize) {
        match self {
            Check::File(c) => c.interval(),
            Check::Url(c) => c.interval(),
        }
    }

    fn is_quick_check(&self) -> (r: bool) {
        match self {
            Check::File(c) => c.is_quick_check(),
            Check::Url(c) => c.is_quick_check(),
        }
    }

    fn is_enabled(&self) -> (r: bool) {
        match self {
            Check::File(c) => c.is_enabled(),
            Check::Url(c) => c.is_enabled(),
        }
    }
}

/// The checks a configuration sets up: the file check, then the URL check.
pub open spec fn configured_checks(checks: Seq<Check>, config: Config) -> bool {
    &&& checks.len() == 2
    &&& checks[0] matches Check::File(f) && f.configured_by(config)
    &&& checks[1] matches Check::Url(u) && u.configured_by(config)
}

/// Sets up the checks of a configuration, in a fixed order.
pub fn create_plugins(config: &Config) -> (r: Vec<Check>)
    ensures
        configured_checks(r@, *config),
{
    let mut r: Vec<Check> = Vec::new();
    r.push(Check::File(FileCheck::new(config)));
    r.push(Check::Url(UrlCheck::new(config)));
    r
}

/// The indices at which the flags are set, in order.
pub open spec fn set_indices(flags: Seq<bool>) -> Seq<int>
    decreases flags.len(),
{
    if flags.len() == 0 {
        Seq::empty()
    } else if flags.last() {
        set_indices(flags.drop_last()).push(flags.len() - 1)
    } else {
        set_indices(flags.drop_last())
    }
}

proof fn lemma_set_indices_bounded(flags: Seq<bool>)
    ensures
        forall|k: int| 0 <= k < set_indices(flags).len() ==> 0 <= #[trigger] set_indices(flags)[k] < flags.len(),
    decreases flags.len(),
{
    if flags.len() > 0 {
        let init = flags.drop_last();
        lemma_set_indices_bounded(init);
        let s = set_indices(flags);
        assert forall|k: int| 0 <= k < s.len() implies 0 <= #[trigger] s[k] < flags.len() by {
            if k < set_indices(init).len() {
                assert(s[k] == set_indices(init)[k]);
            }
        }
    }
}

/// The indices of a vector of `usize` as integers.
pub open spec fn as_ints(v: Seq<usize>) -> Seq<int> {
    v.map_values(|i: usize| i as int)
}

/// The indices at which the flags are set, in order.
pub fn indices_of(flags: &Vec<bool>) -> (r: Vec<usize>)
    ensures
        as_ints(r@) == set_indices(flags@),
{
    let mut r: Vec<usize> = Vec::new();
    let mut i: usize = 0;
    while i < flags.len()
        invariant
            i <= flags.len(),
            as_ints(r@) == set_indices(flags@.take(i as int)),
        decreases flags.len() - i,
    {
        proof {
            assert(flags@.take(i + 1).drop_last() =~= flags@.take(i as int));
        }
        if flags[i] {
            let ghost prev = r@;
            r.push(i);
            proof {
                assert(as_ints(r@) =~= as_ints(prev).push(i as int));
            }
        }
        i = i + 1;
    }
    proof {
        assert(flags@.take(flags@.len() as int) =~= flags@);
    }
    r
}

/// Whether each check takes part in the one-shot diagnostic: quick and
/// enabled.
pub open spec fn quick_flags(checks: Seq<Check>) -> Seq<bool> {
    checks.map_values(|c: Check| c.check_quick() && c.check_enabled())
}

/// Whether each check is enabled.
pub open spec fn enabled_flags(checks: Seq<Check>) -> Seq<bool> {
    checks.map_values(|c: Check| c.check_enabled())
}

/// The outcome of each run as a fault: none for a pass, the message for a
/// failure.
pub open spec fn run_faults(results: Seq<Result<(), String>>) -> Seq<Option<Seq<char>>> {
    results.map_values(|r: Result<(), String>| match r {
        Ok(()) => None,
        Err(m) => Some(m@),
    })
}

/// What to do next in the one-shot diagnostic.
#[derive(Debug)]
pub enum QuickStep {
    /// Run the check at this index and report its outcome.
    Run(usize),
    /// The diagnostic is over, with this outcome.
    Done(Result<(), String>),
}

/// A `QuickStep` as a mathematical value.
pub enum QuickView {
    Run(int),
    Pass,
    Fail(Seq<char>),
}

impl View for QuickStep {
    type V = QuickView;

    open spec fn view(&self) -> QuickView {
        match self {
            QuickStep::Run(i) => QuickView::Run(*i as int),
            QuickStep::Done(Ok(())) => QuickView::Pass,
            QuickStep::Done(Err(m)) => QuickView::Fail(m@),
        }
    }
}

/// The next step of the one-shot diagnostic over `checks`, given the outcomes
/// of the runs so far: the quick, enabled checks run in order, and the first
/// failure ends the diagnostic with its message.
pub open spec fn quick_next(checks: Seq<Check>, results: Seq<Result<(), String>>) -> QuickView {
    let order = set_indices(quick_flags(checks));
    let faults = run_faults(results);
    let seen = if faults.len() < order.len() { faults } else { faults.take(order.len() as int) };
    match next_step(seen, order.len()) {
        StepView::Probe(k) => QuickView::Run(order[k as int]),
        StepView::Pass => QuickView::Pass,
        StepView::Fail(m) => QuickView::Fail(m),
    }
}

/// Owns the checks, fixed when it is made.
pub struct PluginManager {
    plugins: Vec<Check>,
}

impl PluginManager {
    /// The checks, in registration order.
    pub closed spec fn spec_plugins(&self) -> Seq<Check> {
        self.plugins@
    }

    /// The manager of the checks that a configuration sets up.
    pub fn new(config: &Config) -> (r: PluginManager)
        ensures
            configured_checks(r.spec_plugins(), *config),
    {
        PluginManager { plugins: create_plugins(config) }
    }

    /// The manager of the given checks, in that order.
    pub fn from_checks(checks: Vec<Check>) -> (r: PluginManager)
        ensures
            r.spec_plugins() == checks@,
    {
        PluginManager { plugins: checks }
    }

    /// The checks, in registration order.
    pub fn plugins(&self) -> (r: &Vec<Check>)
        ensures
            r@ == self.spec_plugins(),
    {
        &self.plugins
    }

    /// The indices of the checks that are scheduled periodically: the enabled
    /// ones, in order.
    pub fn scheduled(&self) -> (r: Vec<usize>)
        ensures
            as_ints(r@) == set_indices(enabled_flags(self.spec_plugins())),
    {
        let mut flags: Vec<bool> = Vec::new();
        let mut i: usize = 0;
        while i < self.plugins.len()
            invariant
                i <= self.plugins.len(),
                flags@ =~= enabled_flags(self.plugins@).take(i as int),
            decreases self.plugins.len() - i,
        {
            flags.push(self.plugins[i].is_enabled());
            i = i + 1;
        }
        proof {
            assert(enabled_flags(self.plugins@).take(i as int) =~= enabled_flags(self.plugins@));
        }
        indices_of(&flags)
    }

    /// The next step of the one-shot diagnostic, given the outcome of each
    /// run so far (the `j`-th outcome is that of the `j`-th quick check): run
    /// the next quick, enabled check while all passed; end with the first
    /// failure; pass once all passed.
    pub fn quick_check(&self, results: &Vec<Result<(), String>>) -> (r: QuickStep)
        ensures
            r@ == quick_next(self.spec_plugins(), results@),
    {
        let mut flags: Vec<bool> = Vec::new();
        let mut i: usize = 0;
        while i < self.plugins.len()
            invariant
                i <= self.plugins.len(),
                flags@ =~= quick_flags(self.plugins@).take(i as int),
            decreases self.plugins.len() - i,
        {
            flags.push(self.plugins[i].is_quick_check() && self.plugins[i].is_enabled());
            i = i + 1;
        }
        proof {
            assert(quick_flags(self.plugins@).take(i as int) =~= quick_flags(self.plugins@));
        }
        let order = indices_of(&flags);
        let n = order.len();
        let m = if results.len() < n {
            results.len()
        } else {
            n
        };
        let ghost seen = if run_faults(results@).len() < n {
            run_faults(results@)
        } else {
            run_faults(results@).take(n as int)
        };
        let mut faults: Vec<Option<String>> = Vec::new();
        let mut j: usize = 0;
        while j < m
            invariant
                j <= m,
                m == seen.len(),
                m <= results.len(),
                faults.len() == j,
                seen == (if run_faults(results@).len() < n {
                    run_faults(results@)
                } else {
                    run_faults(results@).take(n as int)
                }),
                fault_views(faults@) =~= seen.take(j as int),
            decreases m - j,
        {
            let f = match &results[j] {
                Ok(()) => None,
                Err(e) => Some(e.clone()),
            };
            let ghost prev = faults@;
            faults.push(f);
            proof {
                assert(fault_views(faults@) =~= fault_views(prev).push(seen[j as int]));
            }
            j = j + 1;
        }
        proof {
            assert(seen.take(m as int) =~= seen);
            lemma_set_indices_bounded(quick_flags(self.plugins@));
        }
        match decide(&faults, n) {
            ProbeStep::Probe(k) => QuickStep::Run(order[k]),
            ProbeStep::Done(r) => QuickStep::Done(r),
        }
    }
}

/// The one-shot diagnostic keeps registration order and stops at the first
/// failure: where the quick checks before the `i`-th passed and the `i`-th
/// failed, the checks run are the first `i + 1` quick ones, in order, and the
/// diagnostic then ends with the `i`-th one's failure, so no later check runs.
pub proof fn lemma_quick_check_fail_fast(checks: Seq<Check>, results: Seq<Result<(), String>>, i: int)
    requires
        0 <= i < set_indices(quick_flags(checks)).len(),
        i < results.len(),
        results[i] is Err,
        forall|j: int| 0 <= j < i ==> (#[trigger] results[j]) is Ok,
    ensures
        forall|k: int|
            0 <= k <= i ==> #[trigger] quick_next(checks, results.take(k)) == QuickView::Run(
                set_indices(quick_flags(checks))[k],
            ),
        quick_next(checks, results.take(i + 1)) matches QuickView::Fail(m) && results[i] matches Err(e) && m
            == e@,
{
    let order = set_indices(quick_flags(checks));
    assert forall|k: int| 0 <= k <= i implies #[trigger] quick_next(checks, results.take(k)) == QuickView::Run(
        order[k],
    ) by {
        let faults = run_faults(results.take(k));
        assert forall|j: int| 0 <= j < faults.len() implies (#[trigger] faults[j]) is None by {
            assert(results.take(k)[j] == results[j]);
        }
        lemma_no_fault(faults);
    }
    let faults = run_faults(results.take(i + 1));
    let seen = if faults.len() < order.len() { faults } else { faults.take(order.len() as int) };
    assert(seen =~= faults);
    assert forall|j: int| 0 <= j < i implies (#[trigger] faults[j]) is None by {
        assert(results.take(i + 1)[j] == results[j]);
    }
    assert(results.take(i + 1)[i] == results[i]);
    lemma_first_fault_at(faults, i);
}

} // verus!
