//! The file check: every configured file exists and is not empty.

use vstd::prelude::*;
use crate::checks::{
    decide, fault_views, lemma_all_pass, lemma_first_fault_at, lemma_first_fault_at_some, names, next_step,
    HealthCheck, ProbeStep, StepView,
};
use crate::config::Config;
use crate::text::{concat3, views};

verus! {

/// What probing one file found.
#[derive(Debug)]
pub enum FileProbe {
    /// The file could not be accessed; the text says why.
    Inaccessible(String),
    /// The file exists and has this many bytes.
    Size(u64),
}

/// The failure message for a file that could not be accessed.
pub open spec fn inaccessible_message(file: Seq<char>, reason: Seq<char>) -> Seq<char> {
    "Failed to access "@ + file + ": "@ + reason
}

/// The failure message for an empty file.
pub open spec fn empty_message(file: Seq<char>) -> Seq<char> {
    "File "@ + file + " is empty"@
}

/// The fault that a probe of a file shows, if any.
pub open spec fn file_fault(file: Seq<char>, p: FileProbe) -> Option<Seq<char>> {
    match p {
        FileProbe::Inaccessible(e) => Some(inaccessible_message(file, e@)),
        FileProbe::Size(n) => if n == 0 {
            Some(empty_message(file))
        } else {
            None
        },
    }
}

/// The faults of the probed files, each probe matched with the file at its
/// index.
pub open spec fn file_faults(files: Seq<Seq<char>>, probes: Seq<FileProbe>) -> Seq<Option<Seq<char>>> {
    Seq::new(
        if probes.len() < files.len() { probes.len() } else { files.len() },
        |i: int| file_fault(files[i], probes[i]),
    )
}

/// The next step of a file check over `files`, given the probes so far.
pub open spec fn file_step(files: Seq<Seq<char>>, probes: Seq<FileProbe>) -> StepView {
    next_step(file_faults(files, probes), files.len())
}

/// Checks that each configured file exists and has a non-zero size.
pub struct FileCheck {
    name: &'static str,
    interval: usize,
    is_quick_check: bool,
    files: Vec<String>,
}

impl FileCheck {
    /// The files to check, in order.
    pub closed spec fn spec_files(&self) -> Seq<Seq<char>> {
        views(self.files@)
    }

    /// Whether this is the file check that a configuration describes.
    pub open spec fn configured_by(&self, config: Config) -> bool {
        &&& self.check_name() == "FileCheck"@
        &&& self.check_interval() == config.checks.file_check.interval
        &&& self.check_quick()
        &&& self.check_enabled()
        &&& self.spec_files() == views(config.checks.file_check.files@)
    }

    /// A file check as configured: quick, with the configured interval and
    /// files.
    pub fn new(config: &Config) -> (r: FileCheck)
        ensures
            r.configured_by(*config),
    {
        FileCheck {
            name: "FileCheck",
            interval: config.checks.file_check.interval,
            is_quick_check: true,
            files: config.checks.file_check.files.clone(),
        }
    }

    /// The files to check, in order.
    pub fn files(&self) -> (r: &Vec<String>)
        ensures
            views(r@) == self.spec_files(),
    {
        &self.files
    }

    /// The fault that a probe of a file shows, if any.
    pub fn fault(file: &str, probe: &FileProbe) -> (r: Option<String>)
        ensures
            match r {
                Some(m) => file_fault(file@, *probe) == Some(m@),
                None => file_fault(file@, *probe) is None,
            },
    {
        match probe {
            FileProbe::Inaccessible(e) => Some(
                concat3("Failed to access ", file, ": ").concat(e.as_str()),
            ),
            FileProbe::Size(n) => if *n == 0 {
                Some(concat3("File ", file, " is empty"))
            } else {
                None
            },
        }
    }

    /// The next step of a run, given the probes of the files so far (the
    /// `i`-th probe is that of the `i`-th file): probe the next file while all
    /// passed, fail on the first file at fault, pass once all passed.
    pub fn next(&self, probes: &Vec<FileProbe>) -> (r: ProbeStep)
        ensures
            r@ == file_step(self.spec_files(), probes@),
    {
        let n = self.files.len();
        let m = if probes.len() < n {
            probes.len()
        } else {
            n
        };
        let mut faults: Vec<Option<String>> = Vec::new();
        let mut i: usize = 0;
        while i < m
            invariant
                i <= m,
                m <= n == self.files.len(),
                m <= probes.len(),
                m == file_faults(self.spec_files(), probes@).len(),
                faults.len() == i,
                fault_views(faults@) =~= file_faults(self.spec_files(), probes@).take(i as int),
            decreases m - i,
        {
            let f = FileCheck::fault(self.files[i].as_str(), &probes[i]);
            proof {
                assert(self.spec_files()[i as int] == self.files@[i as int]@);
            }
            let ghost prev = faults@;
            faults.push(f);
            proof {
                assert(fault_views(faults@) =~= fault_views(prev).push(
                    file_faults(self.spec_files(), probes@)[i as int],
                ));
            }
            i = i + 1;
        }
        proof {
            assert(file_faults(self.spec_files(), probes@).take(m as int) =~= file_faults(
                self.spec_files(),
                probes@,
            ));
        }
        decide(&faults, n)
    }
}

impl HealthCheck for FileCheck {
    closed spec fn check_name(&self) -> Seq<char> {
        self.name@
    }

    closed spec fn check_interval(&self) -> usize {
        self.interval
    }

    closed spec fn check_quick(&self) -> bool {
        self.is_quick_check
    }

    open spec fn check_enabled(&self) -> bool {
        true
    }

    fn name(&self) -> (r: &str) {
        self.name
    }

    fn interval(&self) -> (r: usize) {
        self.interval
    }

    fn is_quick_check(&self) -> (r: bool) {
        self.is_quick_check
    }

    fn is_enabled(&self) -> (r: bool) {
        true
    }
}

/// With no files configured, a file check passes at once, whatever it is
/// handed.
pub proof fn lemma_no_files_pass(probes: Seq<FileProbe>)
    ensures
        file_step(Seq::empty(), probes) == StepView::Pass,
{
    assert(file_faults(Seq::empty(), probes) =~= Seq::empty());
}

/// A file check fails on the first file that is missing or empty, in
/// configured order, with a message that names that file; the files after
/// it are not probed.
pub proof fn lemma_file_check_fails_on_first_fault(files: Seq<Seq<char>>, probes: Seq<FileProbe>, i: int)
    requires
        0 <= i < files.len(),
        i < probes.len(),
        file_fault(files[i], probes[i]) is Some,
        forall|j: int| 0 <= j < i ==> (#[trigger] file_fault(files[j], probes[j])) is None,
    ensures
        file_step(files, probes) matches StepView::Fail(m) && file_fault(files[i], probes[i]) == Some(m)
            && names(m, files[i]),
{
    let faults = file_faults(files, probes);
    assert forall|j: int| 0 <= j < i implies (#[trigger] faults[j]) is None by {
        assert(faults[j] == file_fault(files[j], probes[j]));
    }
    lemma_first_fault_at(faults, i);
    match probes[i] {
        FileProbe::Inaccessible(e) => {
            let pre = "Failed to access "@;
            let post = ": "@ + e@;
            assert(inaccessible_message(files[i], e@) =~= pre + files[i] + post);
        },
        FileProbe::Size(n) => {
            let pre = "File "@;
            let post = " is empty"@;
            assert(empty_message(files[i]) =~= pre + files[i] + post);
        },
    }
}

/// A file check fails where any probed file is missing or empty.
pub proof fn lemma_file_check_fails_on_any_fault(files: Seq<Seq<char>>, probes: Seq<FileProbe>, j: int)
    requires
        0 <= j < files.len(),
        j < probes.len(),
        file_fault(files[j], probes[j]) is Some,
    ensures
        file_step(files, probes) is Fail,
{
    let faults = file_faults(files, probes);
    assert(faults[j] == file_fault(files[j], probes[j]));
    lemma_first_fault_at_some(faults, j);
}

/// A file check passes once every file has been found to exist and be
/// non-empty.
pub proof fn lemma_file_check_passes(files: Seq<Seq<char>>, probes: Seq<FileProbe>)
    requires
        probes.len() >= files.len(),
        forall|j: int| 0 <= j < files.len() ==> (#[trigger] file_fault(files[j], probes[j])) is None,
    ensures
        file_step(files, probes) == StepView::Pass,
{
    let faults = file_faults(files, probes);
    assert forall|j: int| 0 <= j < faults.len() implies (#[trigger] faults[j]) is None by {
        assert(faults[j] == file_fault(files[j], probes[j]));
    }
    lemma_all_pass(faults, files.len());
}

} // verus!
