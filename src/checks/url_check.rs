//! The URL check: every configured URL answers 200 within the timeout.

use vstd::prelude::*;
use crate::checks::{
    decide, fault_views, lemma_all_pass, lemma_first_fault_at, lemma_first_fault_at_some, names, next_step,
    HealthCheck, ProbeStep, StepView,
};
use crate::config::Config;
use crate::text::{concat3, views};

verus! {

/// What requesting one URL found.
#[derive(Debug)]
pub enum UrlProbe {
    /// No response came: the request failed or timed out; the text says why.
    Failed(String),
    /// A response came with this status code, and this text for the status
    /// (such as `503 Service Unavailable`).
    Responded(u16, String),
}

/// The failure message for a URL that could not be requested.
pub open spec fn unreachable_message(url: Seq<char>, reason: Seq<char>) -> Seq<char> {
    "Failed to access "@ + url + ": "@ + reason
}

/// The failure message for a URL that answered with another status than 200.
pub open spec fn status_message(url: Seq<char>, status: Seq<char>) -> Seq<char> {
    "URL "@ + url + " returned status "@ + status
}

/// The fault that a request of a URL shows, if any.
pub open spec fn url_fault(url: Seq<char>, p: UrlProbe) -> Option<Seq<char>> {
    match p {
        UrlProbe::Failed(e) => Some(unreachable_message(url, e@)),
        UrlProbe::Responded(code, text) => if code == 200 {
            None
        } else {
            Some(status_message(url, text@))
        },
    }
}

/// The faults of the requested URLs, each probe matched with the URL at its
/// index.
pub open spec fn url_faults(urls: Seq<Seq<char>>, probes: Seq<UrlProbe>) -> Seq<Option<Seq<char>>> {
    Seq::new(
        if probes.len() < urls.len() { probes.len() } else { urls.len() },
        |i: int| url_fault(urls[i], probes[i]),
    )
}

/// The next step of a URL check over `urls`, given the probes so far.
pub open spec fn url_step(urls: Seq<Seq<char>>, probes: Seq<UrlProbe>) -> StepView {
    next_step(url_faults(urls, probes), urls.len())
}

/// Checks that each configured URL answers a GET with status 200 within the
/// timeout.
pub struct UrlCheck {
    name: &'static str,
    interval: usize,
    timeout: usize,
    is_quick_check: bool,
    urls: Vec<String>,
}

impl UrlCheck {
    /// The URLs to check, in order.
    pub closed spec fn spec_urls(&self) -> Seq<Seq<char>> {
        views(self.urls@)
    }

    /// Seconds that each request may take, connecting included.
    pub closed spec fn spec_timeout(&self) -> usize {
        self.timeout
    }

    /// Whether this is the URL check that a configuration describes.
    pub open spec fn configured_by(&self, config: Config) -> bool {
        &&& self.check_name() == "UrlCheck"@
        &&& self.check_interval() == config.checks.url_check.interval
        &&& !self.check_quick()
        &&& self.check_enabled() == (config.checks.url_check.urls@.len() > 0)
        &&& self.spec_timeout() == config.checks.url_check.timeout
        &&& self.spec_urls() == views(config.checks.url_check.urls@)
    }

    /// A URL check as configured: not quick, with the configured interval,
    /// timeout and URLs; enabled only where there are URLs.
    pub fn new(config: &Config) -> (r: UrlCheck)
        ensures
            r.configured_by(*config),
    {
        UrlCheck {
            name: "UrlCheck",
            interval: config.checks.url_check.interval,
            timeout: config.checks.url_check.timeout,
            is_quick_check: false,
            urls: config.checks.url_check.urls.clone(),
        }
    }

    /// The URLs to check, in order.
    pub fn urls(&self) -> (r: &Vec<String>)
        ensures
            views(r@) == self.spec_urls(),
    {
        &self.urls
    }

    /// Seconds that each request may take, connecting included.
    pub fn timeout(&self) -> (r: usize)
        ensures
            r == self.spec_timeout(),
    {
        self.timeout
    }

    /// The fault that a request of a URL shows, if any.
    pub fn fault(url: &str, probe: &UrlProbe) -> (r: Option<String>)
        ensures
            match r {
                Some(m) => url_fault(url@, *probe) == Some(m@),
                None => url_fault(url@, *probe) is None,
            },
    {
        match probe {
            UrlProbe::Failed(e) => Some(concat3("Failed to access ", url, ": ").concat(e.as_str())),
            UrlProbe::Responded(code, text) => if *code == 200 {
                None
            } else {
                Some(concat3("URL ", url, " returned status ").concat(text.as_str()))
            },
        }
    }

    /// The next step of a run, given the probes of the URLs so far (the
    /// `i`-th probe is that of the `i`-th URL): request the next URL while all
    /// answered 200, fail on the first URL at fault, pass once all answered.
    pub fn next(&self, probes: &Vec<UrlProbe>) -> (r: ProbeStep)
        ensures
            r@ == url_step(self.spec_urls(), probes@),
    {
        let n = self.urls.len();
        let m = if probes.len() < n {
            probes.len()
        } else {
            n
        };
        let mut faults: Vec<Option<String>> = Vec::new();
        let mut i: usize = 0;
        while i < m
            invariant
                i <= m,
                m <= n == self.urls.len(),
                m <= probes.len(),
                m == url_faults(self.spec_urls(), probes@).len(),
                faults.len() == i,
                fault_views(faults@) =~= url_faults(self.spec_urls(), probes@).take(i as int),
            decreases m - i,
        {
            let f = UrlCheck::fault(self.urls[i].as_str(), &probes[i]);
            proof {
                assert(self.spec_urls()[i as int] == self.urls@[i as int]@);
            }
            let ghost prev = faults@;
            faults.push(f);
            proof {
                assert(fault_views(faults@) =~= fault_views(prev).push(
                    url_faults(self.spec_urls(), probes@)[i as int],
                ));
            }
            i = i + 1;
        }
        proof {
            assert(url_faults(self.spec_urls(), probes@).take(m as int) =~= url_faults(
                self.spec_urls(),
                probes@,
            ));
        }
        decide(&faults, n)
    }
}

impl HealthCheck for UrlCheck {
    closed spec fn check_name(&self) -> Seq<char> {
        self.name@
    }

    closed spec fn check_interval(&self) -> usize {
        self.interval
    }

    closed spec fn check_quick(&self) -> bool {
        self.is_quick_check
    }

    open spec fn check_enabled(&self) -> bool {
        self.spec_urls().len() > 0
    }

    fn name(&self) -> (r: &str) {
        self.name
    }

    fn interval(&self) -> (r: usize) {
        self.interval
    }

    fn is_quick_check(&self) -> (r: bool) {
        self.is_quick_check
    }

    fn is_enabled(&self) -> (r: bool) {
        self.urls.len() > 0
    }
}

/// A URL check is enabled exactly when it has URLs; with none it is
/// disabled, and a run of it would pass at once, whatever it is handed.
pub proof fn lemma_no_urls_disabled(c: UrlCheck, probes: Seq<UrlProbe>)
    ensures
        c.check_enabled() == (c.spec_urls().len() > 0),
        c.spec_urls().len() == 0 ==> url_step(c.spec_urls(), probes) == StepView::Pass,
{
    if c.spec_urls().len() == 0 {
        assert(url_faults(c.spec_urls(), probes) =~= Seq::empty());
    }
}

/// A URL check fails on the first URL that does not answer 200 in time, in
/// configured order, with a message that names that URL; the URLs after it
/// are not requested.
pub proof fn lemma_url_check_fails_on_first_fault(urls: Seq<Seq<char>>, probes: Seq<UrlProbe>, i: int)
    requires
        0 <= i < urls.len(),
        i < probes.len(),
        url_fault(urls[i], probes[i]) is Some,
        forall|j: int| 0 <= j < i ==> (#[trigger] url_fault(urls[j], probes[j])) is None,
    ensures
        url_step(urls, probes) matches StepView::Fail(m) && url_fault(urls[i], probes[i]) == Some(m)
            && names(m, urls[i]),
{
    let faults = url_faults(urls, probes);
    assert forall|j: int| 0 <= j < i implies (#[trigger] faults[j]) is None by {
        assert(faults[j] == url_fault(urls[j], probes[j]));
    }
    lemma_first_fault_at(faults, i);
    match probes[i] {
        UrlProbe::Failed(e) => {
            let pre = "Failed to access "@;
            let post = ": "@ + e@;
            assert(unreachable_message(urls[i], e@) =~= pre + urls[i] + post);
        },
        UrlProbe::Responded(code, text) => {
            let pre = "URL "@;
            let post = " returned status "@ + text@;
            assert(status_message(urls[i], text@) =~= pre + urls[i] + post);
        },
    }
}

/// A URL check fails where any requested URL failed or answered another
/// status than 200.
pub proof fn lemma_url_check_fails_on_any_fault(urls: Seq<Seq<char>>, probes: Seq<UrlProbe>, j: int)
    requires
        0 <= j < urls.len(),
        j < probes.len(),
        url_fault(urls[j], probes[j]) is Some,
    ensures
        url_step(urls, probes) is Fail,
{
    let faults = url_faults(urls, probes);
    assert(faults[j] == url_fault(urls[j], probes[j]));
    lemma_first_fault_at_some(faults, j);
}

/// A URL check passes once every URL has answered 200.
pub proof fn lemma_url_check_passes(urls: Seq<Seq<char>>, probes: Seq<UrlProbe>)
    requires
        probes.len() >= urls.len(),
        forall|j: int| 0 <= j < urls.len() ==> (#[trigger] url_fault(urls[j], probes[j])) is None,
    ensures
        url_step(urls, probes) == StepView::Pass,
{
    let faults = url_faults(urls, probes);
    assert forall|j: int| 0 <= j < faults.len() implies (#[trigger] faults[j]) is None by {
        assert(faults[j] == url_fault(urls[j], probes[j]));
    }
    lemma_all_pass(faults, urls.len());
}

} // verus!
