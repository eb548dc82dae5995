//! Finding a candidate executable and deciding what a probe of it proves.
//!
//! The resolver does no I/O of its own. Its caller runs the search command,
//! tests the file system and runs the version probe; the functions here say
//! what to run, what to do next, and what to report.

use vstd::prelude::*;
use vstd::string::*;
use crate::descriptor::{
    missing_message, not_found_message, search_failed_message, unverified_message,
    DescriptorView, ExecutableDescriptor,
};
use crate::profile::Profile;
use crate::text::{decode_lossy, first_line, first_line_of, trim, trimmed, utf8_lossy};

verus! {

/// The command that asks the platform where an executable is.
pub struct SearchPlan {
    /// The locating program of the platform.
    pub program: String,
    /// Its arguments: the name to look for.
    pub args: Vec<String>,
}

/// What running the search command gave.
pub enum Lookup {
    /// The command ran to its end.
    Completed {
        /// Whether it exited with success.
        success: bool,
        /// What it wrote to standard output.
        stdout: Vec<u8>,
    },
    /// The command could not be run.
    Failed {
        /// Why not.
        reason: String,
    },
}

/// What the caller does next.
pub enum Step {
    /// Run the version probe on `path`, then report with [`after_probe`].
    Probe {
        /// The executable to probe.
        path: String,
    },
    /// Run nothing more: this is the answer.
    Report(ExecutableDescriptor),
}

/// The mathematical value of a [`Step`].
pub enum StepView {
    Probe { path: Seq<char> },
    Report(DescriptorView),
}

impl View for Step {
    type V = StepView;

    open spec fn view(&self) -> StepView {
        match self {
            Step::Probe { path } => StepView::Probe { path: path@ },
            Step::Report(d) => StepView::Report(d@),
        }
    }
}

impl SearchPlan {
    /// Whether this plan looks for `executable` with the locating program
    /// of the platform.
    pub open spec fn is_for(&self, executable: Seq<char>, windows: bool) -> bool {
        &&& self.program@ == locator(windows)
        &&& self.args.deep_view() == seq![executable]
    }
}

/// The name of the locating program: `where` on Windows, `which` elsewhere.
pub open spec fn locator(windows: bool) -> Seq<char> {
    if windows {
        "where"@
    } else {
        "which"@
    }
}

/// The candidate path in the output of the search command: its first line,
/// trimmed.
pub open spec fn candidate(output: Seq<char>) -> Seq<char> {
    trim(first_line(output))
}

/// The step after a search for `product` that ran to its end with the
/// given exit status and decoded output: probe the candidate, or report
/// that there is none.
pub open spec fn step_after_search(product: Seq<char>, success: bool, output: Seq<char>)
    -> StepView {
    if success && candidate(output).len() > 0 {
        StepView::Probe { path: candidate(output) }
    } else {
        StepView::Report(DescriptorView::failure(None, not_found_message(product)))
    }
}

/// The step after the search command was tried: a search that could not be
/// run is reported with its reason; one that ran is decided by its exit
/// status and its decoded output.
pub open spec fn step_after_lookup(product: Seq<char>, lookup: Lookup) -> StepView {
    match lookup {
        Lookup::Completed { success, stdout } => step_after_search(
            product,
            success,
            utf8_lossy(stdout@),
        ),
        Lookup::Failed { reason } => StepView::Report(
            DescriptorView::failure(None, search_failed_message(product, reason@)),
        ),
    }
}

/// The step after the file system was asked whether `path` exists: probe
/// what exists, report what does not. The empty path names no file.
pub open spec fn step_after_existence_check(path: Seq<char>, exists: bool) -> StepView {
    if exists && path.len() > 0 {
        StepView::Probe { path }
    } else {
        StepView::Report(DescriptorView::failure(Some(path), missing_message()))
    }
}

/// The report on `path` once the probe has answered with a version or not:
/// only a version shows the file to be `product`.
pub open spec fn report_after_probe(
    product: Seq<char>,
    path: Seq<char>,
    version: Option<Seq<char>>,
) -> DescriptorView {
    match version {
        Some(v) => DescriptorView::verified(path, v),
        None => DescriptorView::failure(Some(path), unverified_message(product)),
    }
}

/// Whether `d` is a report that follows from `step`, given the probe to
/// run where the step asks for one: the report that the step holds, or the
/// report on the probed path after some answer of `probe` for it.
pub open spec fn finishes<P: FnOnce(&str) -> Option<String>>(
    product: Seq<char>,
    step: StepView,
    probe: P,
    d: DescriptorView,
) -> bool {
    match step {
        StepView::Report(report) => d == report,
        StepView::Probe { path } => exists|probed: &str, version: Option<String>|
            {
                &&& probed@ == path
                &&& probe.ensures((probed,), version)
                &&& d == report_after_probe(product, path, version.deep_view())
            },
    }
}

/// The search command for `executable` on this platform.
pub fn search_plan(executable: &str, windows: bool) -> (plan: SearchPlan)
    ensures
        plan.is_for(executable@, windows),
{
    let program = if windows {
        String::from_str("where")
    } else {
        String::from_str("which")
    };
    let mut args: Vec<String> = Vec::new();
    args.push(String::from_str(executable));
    assert(args.deep_view() =~= seq![executable@]);
    SearchPlan { program, args }
}

/// The candidate path in the decoded output of the search command.
pub fn candidate_in(output: &str) -> (path: String)
    ensures
        path@ == candidate(output@),
{
    let line = first_line_of(output);
    trimmed(line.as_str())
}

/// Decides the step after a search for `product` that ran to its end.
pub fn after_search(product: &str, success: bool, output: &str) -> (step: Step)
    ensures
        step@ == step_after_search(product@, success, output@),
        !success || candidate(output@).len() == 0 ==> step@ == StepView::Report(
            DescriptorView::failure(None, not_found_message(product@)),
        ),
{
    if !success {
        return Step::Report(ExecutableDescriptor::not_found(product));
    }
    let path = candidate_in(output);
    if path.as_str().is_empty() {
        Step::Report(ExecutableDescriptor::not_found(product))
    } else {
        Step::Probe { path }
    }
}

/// Decides the step after the search command was tried: a search that could
/// not be run is reported with its reason; one that ran is decided by
/// [`after_search`] on its decoded output.
pub fn after_lookup(product: &str, lookup: Lookup) -> (step: Step)
    ensures
        step@ == step_after_lookup(product@, lookup),
{
    match lookup {
        Lookup::Completed { success, stdout } => {
            let output = decode_lossy(stdout.as_slice());
            after_search(product, success, output.as_str())
        },
        Lookup::Failed { reason } => Step::Report(
            ExecutableDescriptor::search_failed(product, reason.as_str()),
        ),
    }
}

/// Decides the step after the file system was asked whether `path` exists.
/// A path that does not exist is reported at once and never probed.
pub fn after_existence_check(path: String, exists: bool) -> (step: Step)
    ensures
        step@ == step_after_existence_check(path@, exists),
        !exists ==> step@ == StepView::Report(
            DescriptorView::failure(Some(path@), missing_message()),
        ),
{
    if exists && !path.as_str().is_empty() {
        Step::Probe { path }
    } else {
        Step::Report(ExecutableDescriptor::missing(path))
    }
}

/// Reports on `path` once the probe has answered: found with its version,
/// or not found because no version could be had.
pub fn after_probe(product: &str, path: String, version: Option<String>) -> (d:
    ExecutableDescriptor)
    ensures
        d@ == report_after_probe(product@, path@, version.deep_view()),
{
    match version {
        Some(v) => ExecutableDescriptor::verified(path, v),
        None => ExecutableDescriptor::unverified(path, product),
    }
}

/// Runs the probe where `step` asks for one, and reports.
fn finish<P: FnOnce(&str) -> Option<String>>(product: &str, step: Step, probe: P) -> (d:
    ExecutableDescriptor)
    requires
        forall|path: &str| probe.requires((path,)),
    ensures
        finishes(product@, step@, probe, d@),
{
    match step {
        Step::Report(report) => report,
        Step::Probe { path } => {
            let asked = path.as_str();
            let ghost probed = asked;
            let version = probe(asked);
            let ghost answer = version;
            let d = after_probe(product, path, version);
            assert(probed@ == path@ && probe.ensures((probed,), answer) && d@
                == report_after_probe(product@, path@, answer.deep_view()));
            d
        },
    }
}

/// Looks for the executable on the search path and verifies what it finds.
///
/// `locate` runs the search command it is given and `probe` the version
/// probe on a path. The search is always made. Its outcome decides, by
/// [`after_lookup`], whether there is a candidate; only a candidate is
/// probed, and it counts as found only if the probe gives a version.
pub fn find_on_search_path<L, P>(profile: &Profile, windows: bool, locate: L, probe: P) -> (d:
    ExecutableDescriptor) where L: FnOnce(SearchPlan) -> Lookup, P: FnOnce(&str) -> Option<String>
    requires
        forall|plan: SearchPlan| locate.requires((plan,)),
        forall|path: &str| probe.requires((path,)),
    ensures
        exists|plan: SearchPlan, lookup: Lookup|
            {
                &&& plan.is_for(profile.executable@, windows)
                &&& locate.ensures((plan,), lookup)
                &&& finishes(
                    profile.product@,
                    step_after_lookup(profile.product@, lookup),
                    probe,
                    d@,
                )
            },
{
    let plan = search_plan(profile.executable.as_str(), windows);
    let ghost sent = plan;
    let lookup = locate(plan);
    let ghost got = lookup;
    let step = after_lookup(profile.product.as_str(), lookup);
    let d = finish(profile.product.as_str(), step, probe);
    assert(sent.is_for(profile.executable@, windows) && locate.ensures((sent,), got) && finishes(
        profile.product@,
        step_after_lookup(profile.product@, got),
        probe,
        d@,
    ));
    d
}

/// Verifies the executable at `path`.
///
/// `present` tells whether a path exists on the file system and `probe`
/// runs the version probe on a path. A path that does not exist is
/// reported as missing and not probed; one that exists counts as found
/// only if the probe gives a version. The path is reported back either way.
pub fn check_path<E, P>(profile: &Profile, path: String, present: E, probe: P) -> (d:
    ExecutableDescriptor) where E: FnOnce(&str) -> bool, P: FnOnce(&str) -> Option<String>
    requires
        forall|tested: &str| present.requires((tested,)),
        forall|probed: &str| probe.requires((probed,)),
    ensures
        d@.path == Some(path@),
        exists|tested: &str, there: bool|
            {
                &&& tested@ == path@
                &&& present.ensures((tested,), there)
                &&& finishes(
                    profile.product@,
                    step_after_existence_check(path@, there),
                    probe,
                    d@,
                )
            },
{
    let asked = path.as_str();
    let ghost tested = asked;
    let found = present(asked);
    let step = after_existence_check(path, found);
    let d = finish(profile.product.as_str(), step, probe);
    assert(tested@ == path@ && present.ensures((tested,), found) && finishes(
        profile.product@,
        step_after_existence_check(path@, found),
        probe,
        d@,
    ));
    d
}

/// A path that does not exist is reported as missing, with the path and
/// without a version, whatever the probe would answer: it is not asked.
pub proof fn lemma_missing_path_is_not_probed<P: FnOnce(&str) -> Option<String>>(
    product: Seq<char>,
    path: Seq<char>,
    probe: P,
    d: DescriptorView,
)
    requires
        finishes(product, step_after_existence_check(path, false), probe, d),
    ensures
        d == DescriptorView::failure(Some(path), missing_message()),
        !d.found,
{
}

/// A search that ran and gave no candidate, by its exit status or by its
/// output, is reported as not found and without a path, whatever the probe
/// would answer: it is not asked.
pub proof fn lemma_no_candidate_is_not_found<P: FnOnce(&str) -> Option<String>>(
    product: Seq<char>,
    lookup: Lookup,
    probe: P,
    d: DescriptorView,
)
    requires
        lookup matches Lookup::Completed { success, stdout } && (!success || candidate(
            utf8_lossy(stdout@),
        ).len() == 0),
        finishes(product, step_after_lookup(product, lookup), probe, d),
    ensures
        d == DescriptorView::failure(None, not_found_message(product)),
        !d.found,
        d.path is None,
{
}

/// Every report that a search can end with is well formed, and it names an
/// executable as found only where the search succeeded and a probe of its
/// candidate gave a version.
pub proof fn lemma_search_reports<P: FnOnce(&str) -> Option<String>>(
    product: Seq<char>,
    lookup: Lookup,
    probe: P,
    d: DescriptorView,
)
    requires
        finishes(product, step_after_lookup(product, lookup), probe, d),
    ensures
        d.well_formed(),
        d.found ==> (lookup matches Lookup::Completed { success, stdout } && success && d.path
            == Some(candidate(utf8_lossy(stdout@)))),
{
}

/// Every report that a check of `path` can end with is well formed and
/// names `path`, and it names it as found only where the path exists and
/// a probe of it gave a version.
pub proof fn lemma_check_reports<P: FnOnce(&str) -> Option<String>>(
    product: Seq<char>,
    path: Seq<char>,
    there: bool,
    probe: P,
    d: DescriptorView,
)
    requires
        finishes(product, step_after_existence_check(path, there), probe, d),
    ensures
        d.well_formed(),
        d.path == Some(path),
        d.found ==> there && path.len() > 0,
{
}

} // verus!
