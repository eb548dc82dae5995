//! The version probe: a short run of a candidate executable that shows
//! whether it is the expected program, bounded in time.
//!
//! The caller spawns the candidate as the [`ProbePlan`] says and then
//! watches it: each time it looks at the child it hands what it saw to
//! [`decide`] and does what the [`Decision`] says. The probe never blocks
//! on the child; it polls at a fixed interval and gives up at the deadline.

use vstd::prelude::*;
use vstd::string::*;
use crate::text::{decode_lossy, trim, trimmed, utf8_lossy};

verus! {

/// The time a candidate is given to answer, in milliseconds since its spawn.
pub const PROBE_TIMEOUT_MILLIS: u64 = 5000;

/// The pause between two looks at the child, in milliseconds.
pub const POLL_INTERVAL_MILLIS: u64 = 100;

/// Nanoseconds in a millisecond.
pub const NANOS_PER_MILLI: u128 = 1_000_000;

/// What a standard stream of the child is connected to.
#[derive(Debug, Clone, Copy, PartialEq, Eq, Structural)]
pub enum Stream {
    /// Nothing: reads end at once, writes are discarded.
    Null,
    /// A pipe to the caller.
    Piped,
}

/// How to spawn the candidate for a probe.
pub struct ProbePlan {
    /// The candidate executable.
    pub program: String,
    /// Its arguments.
    pub args: Vec<String>,
    /// Its standard input.
    pub stdin: Stream,
    /// Its standard output.
    pub stdout: Stream,
    /// Its standard error.
    pub stderr: Stream,
}

/// What the caller saw of the child.
#[derive(Debug, Clone, Copy, PartialEq, Eq, Structural)]
pub enum Observation {
    /// The child could not be spawned.
    SpawnFailed,
    /// The child has exited.
    Exited {
        /// Whether its exit status is success.
        success: bool,
    },
    /// The child still runs.
    Running {
        /// The time since its spawn, in nanoseconds.
        elapsed_nanos: u128,
    },
    /// The child's state could not be read.
    WaitFailed,
}

/// What the caller does after an observation.
#[derive(Debug, Clone, Copy, PartialEq, Eq, Structural)]
pub enum Decision {
    /// Read the child's output and take the version from it.
    Collect,
    /// End the probe without a version.
    Abandon,
    /// Kill the child, whether or not that works, and end the probe
    /// without a version.
    Kill,
    /// Pause, then look at the child again.
    Sleep {
        /// How long to pause, in milliseconds.
        millis: u64,
    },
}

/// The argument that asks the candidate for its version.
pub open spec fn version_flag() -> Seq<char> {
    "--version"@
}

/// Whether a child that has run for `elapsed_nanos` is past the deadline.
pub open spec fn timed_out(elapsed_nanos: u128) -> bool {
    elapsed_nanos > PROBE_TIMEOUT_MILLIS as u128 * NANOS_PER_MILLI
}

/// The decision after an observation: a child that could not be spawned or
/// read, or that failed, gives no version; one that exited with success is
/// read; one that still runs is left alone for another interval, or killed
/// once it is past the deadline.
pub open spec fn decision(seen: Observation) -> Decision {
    match seen {
        Observation::SpawnFailed => Decision::Abandon,
        Observation::Exited { success } => if success {
            Decision::Collect
        } else {
            Decision::Abandon
        },
        Observation::Running { elapsed_nanos } => if timed_out(elapsed_nanos) {
            Decision::Kill
        } else {
            Decision::Sleep { millis: POLL_INTERVAL_MILLIS }
        },
        Observation::WaitFailed => Decision::Abandon,
    }
}

/// The version in the output of a candidate: the decoded text, trimmed.
pub open spec fn version_of(output: Seq<u8>) -> Seq<char> {
    trim(utf8_lossy(output))
}

/// The decision that ends a probe whose looks at the child gave `seen`, in
/// order: the first that is not a pause. There is none as long as every
/// look led to a pause.
pub open spec fn verdict(seen: Seq<Observation>) -> Option<Decision>
    decreases seen.len(),
{
    if seen.len() == 0 {
        None
    } else if decision(seen[0]) is Sleep {
        verdict(seen.skip(1))
    } else {
        Some(decision(seen[0]))
    }
}

/// What a probe returns whose looks at the child gave `seen` and whose
/// child's output, if asked for, is `output` (none where it cannot be
/// read): a version only where the probe ends by reading the output.
pub open spec fn probe_result(seen: Seq<Observation>, output: Option<Seq<u8>>) -> Option<
    Seq<char>,
> {
    match (verdict(seen), output) {
        (Some(Decision::Collect), Some(bytes)) => Some(version_of(bytes)),
        _ => None,
    }
}

/// Whether the first `k` of `seen` all show a child that runs and is not
/// past the deadline.
pub open spec fn waiting_through(seen: Seq<Observation>, k: int) -> bool {
    forall|i: int|
        0 <= i < k ==> (#[trigger] seen[i] matches Observation::Running { elapsed_nanos }
            && !timed_out(elapsed_nanos))
}

/// Whether each look at a running child comes at least one interval after
/// the look before it, the first being at the spawn or later.
pub open spec fn paced(seen: Seq<Observation>) -> bool {
    forall|i: int|
        0 <= i < seen.len() ==> (#[trigger] seen[i] matches Observation::Running { elapsed_nanos }
            ==> elapsed_nanos >= i * POLL_INTERVAL_MILLIS * NANOS_PER_MILLI)
}

/// The most looks at the child that a paced probe takes.
pub open spec fn max_looks() -> nat {
    (PROBE_TIMEOUT_MILLIS / POLL_INTERVAL_MILLIS + 2) as nat
}

/// The plan for probing the executable at `path`: run it with the version
/// flag alone, give it no input, capture what it writes to standard
/// output and discard what it writes to standard error.
pub fn probe_plan(path: &str) -> (plan: ProbePlan)
    ensures
        plan.program@ == path@,
        plan.args.deep_view() == seq![version_flag()],
        plan.stdin == Stream::Null,
        plan.stdout == Stream::Piped,
        plan.stderr == Stream::Null,
{
    let mut args: Vec<String> = Vec::new();
    args.push(String::from_str("--version"));
    assert(args.deep_view() =~= seq![version_flag()]);
    ProbePlan {
        program: String::from_str(path),
        args,
        stdin: Stream::Null,
        stdout: Stream::Piped,
        stderr: Stream::Null,
    }
}

/// Decides what to do after an observation of the child.
pub fn decide(seen: Observation) -> (d: Decision)
    ensures
        d == decision(seen),
{
    match seen {
        Observation::SpawnFailed => Decision::Abandon,
        Observation::Exited { success } => if success {
            Decision::Collect
        } else {
            Decision::Abandon
        },
        Observation::Running { elapsed_nanos } => {
            let deadline: u128 = PROBE_TIMEOUT_MILLIS as u128 * NANOS_PER_MILLI;
            if elapsed_nanos > deadline {
                Decision::Kill
            } else {
                Decision::Sleep { millis: POLL_INTERVAL_MILLIS }
            }
        },
        Observation::WaitFailed => Decision::Abandon,
    }
}

/// The version in the decoded output of a candidate: the text, trimmed.
pub fn version_in(output: &str) -> (version: String)
    ensures
        version@ == trim(output@),
{
    trimmed(output)
}

/// The version that a probe ends with once the child's output was asked
/// for: none where it could not be read, else the decoded output, trimmed.
pub fn version_from_output(output: Option<Vec<u8>>) -> (version: Option<String>)
    ensures
        version.deep_view() == match output {
            Some(bytes) => Some(version_of(bytes@)),
            None => None,
        },
{
    match output {
        Some(bytes) => {
            let text = decode_lossy(bytes.as_slice());
            Some(version_in(text.as_str()))
        },
        None => None,
    }
}

/// The first look that does not lead to a pause ends the probe.
pub proof fn lemma_verdict_at(seen: Seq<Observation>, k: int)
    requires
        0 <= k < seen.len(),
        forall|i: int| 0 <= i < k ==> decision(#[trigger] seen[i]) is Sleep,
        !(decision(seen[k]) is Sleep),
    ensures
        verdict(seen) == Some(decision(seen[k])),
    decreases k,
{
    if k > 0 {
        let rest = seen.skip(1);
        assert forall|i: int| 0 <= i < k - 1 implies decision(#[trigger] rest[i]) is Sleep by {
            assert(rest[i] == seen[i + 1]);
        }
        lemma_verdict_at(rest, k - 1);
    }
}

/// A child that exits before it is past the deadline decides the probe by
/// its exit status: with success its output is read and the probe returns
/// the trimmed text, or nothing where the output cannot be read; with
/// failure the probe returns nothing.
pub proof fn lemma_exit_decides(
    seen: Seq<Observation>,
    k: int,
    success: bool,
    output: Option<Seq<u8>>,
)
    requires
        0 <= k < seen.len(),
        waiting_through(seen, k),
        seen[k] == (Observation::Exited { success }),
    ensures
        success ==> verdict(seen) == Some(Decision::Collect) && probe_result(seen, output) == (
        match output {
            Some(bytes) => Some(trim(utf8_lossy(bytes))),
            None => None,
        }),
        !success ==> verdict(seen) == Some(Decision::Abandon) && probe_result(seen, output)
            is None,
{
    lemma_verdict_at(seen, k);
}

/// A child that still runs when it is past the deadline is killed, and
/// the probe returns nothing.
pub proof fn lemma_overdue_child_is_killed(
    seen: Seq<Observation>,
    k: int,
    output: Option<Seq<u8>>,
)
    requires
        0 <= k < seen.len(),
        waiting_through(seen, k),
        seen[k] matches Observation::Running { elapsed_nanos } && timed_out(elapsed_nanos),
    ensures
        verdict(seen) == Some(Decision::Kill),
        probe_result(seen, output) is None,
{
    lemma_verdict_at(seen, k);
}

/// A probe whose pauses last at least the interval ends within
/// `max_looks()` looks at the child, whatever the child does.
pub proof fn lemma_paced_probe_ends(seen: Seq<Observation>)
    requires
        paced(seen),
        seen.len() >= max_looks(),
    ensures
        verdict(seen) is Some,
{
    let last = max_looks() - 1;
    if forall|i: int| 0 <= i < last ==> decision(#[trigger] seen[i]) is Sleep {
        assert(seen[last] is Running ==> timed_out(seen[last]->elapsed_nanos));
        lemma_verdict_at(seen, last);
    } else {
        let j = choose|j: int| 0 <= j < last && !(decision(#[trigger] seen[j]) is Sleep);
        lemma_first_ending_look(seen, j);
    }
}

/// Where some look does not lead to a pause, the probe ends.
proof fn lemma_first_ending_look(seen: Seq<Observation>, j: int)
    requires
        0 <= j < seen.len(),
        !(decision(seen[j]) is Sleep),
    ensures
        verdict(seen) is Some,
    decreases j,
{
    if j > 0 && decision(seen[0]) is Sleep {
        assert(seen.skip(1)[j - 1] == seen[j]);
        lemma_first_ending_look(seen.skip(1), j - 1);
    }
}

} // verus!
