//! The supervisor of the helper process: at most one instance at a time.
//!
//! A [`Supervisor`] owns the handle of the running helper, if there is one.
//! It spawns and kills nothing itself: `start` is given the function that
//! launches, `stop` the function that kills, and both decide around that
//! call what the state becomes and what the caller is told. Exclusive
//! access (`&mut self`) is what keeps two transitions apart.

use vstd::prelude::*;
use vstd::string::*;
use crate::profile::Profile;

verus! {

/// What to launch, and what to tell it.
pub struct LaunchPlan {
    /// The name of the companion binary.
    pub program: String,
    /// Environment variables to set for it, as name and value.
    pub env: Vec<(String, String)>,
    /// Its command-line arguments.
    pub args: Vec<String>,
}

/// What the launch of the helper gave.
pub enum LaunchOutcome<H> {
    /// The helper runs.
    Started {
        /// The handle by which it can be killed.
        handle: H,
        /// Its process identifier.
        pid: u32,
    },
    /// The command for the helper could not be made.
    Unavailable {
        /// Why not.
        reason: String,
    },
    /// The operating system did not spawn it.
    SpawnFailed {
        /// Why not.
        reason: String,
    },
}

/// Why a start did not succeed.
#[derive(Debug)]
pub enum StartError {
    /// A helper is running already.
    AlreadyRunning,
    /// The helper could not be launched; the text says why.
    SpawnFailure(String),
}

/// Why a stop did not succeed.
#[derive(Debug)]
pub enum StopError {
    /// The operating system refused to kill the helper; the text says why.
    KillFailure(String),
}

/// The mathematical value of a [`StartError`].
pub enum StartErrorView {
    AlreadyRunning,
    SpawnFailure(Seq<char>),
}

/// The mathematical value of a [`StopError`].
pub enum StopErrorView {
    KillFailure(Seq<char>),
}

impl View for StartError {
    type V = StartErrorView;

    open spec fn view(&self) -> StartErrorView {
        match self {
            StartError::AlreadyRunning => StartErrorView::AlreadyRunning,
            StartError::SpawnFailure(reason) => StartErrorView::SpawnFailure(reason@),
        }
    }
}

impl View for StopError {
    type V = StopErrorView;

    open spec fn view(&self) -> StopErrorView {
        match self {
            StopError::KillFailure(reason) => StopErrorView::KillFailure(reason@),
        }
    }
}

impl StartErrorView {
    /// The text shown for this error, `product` being the name of the
    /// program that the helper serves.
    pub open spec fn message(self, product: Seq<char>) -> Seq<char> {
        match self {
            StartErrorView::AlreadyRunning => already_running_message(product),
            StartErrorView::SpawnFailure(reason) => reason,
        }
    }
}

impl StopErrorView {
    /// The text shown for this error.
    pub open spec fn message(self) -> Seq<char> {
        match self {
            StopErrorView::KillFailure(reason) => reason,
        }
    }
}

impl StartError {
    /// The text shown for this error, `product` being the name of the
    /// program that the helper serves.
    pub fn message(&self, product: &str) -> (text: String)
        ensures
            text@ == self@.message(product@),
    {
        match self {
            StartError::AlreadyRunning => String::from_str(product).concat(
                " server is already running",
            ),
            StartError::SpawnFailure(reason) => reason.clone(),
        }
    }
}

impl StopError {
    /// The text shown for this error.
    pub fn message(&self) -> (text: String)
        ensures
            text@ == self@.message(),
    {
        match self {
            StopError::KillFailure(reason) => reason.clone(),
        }
    }
}

/// The override that is passed on: one that is given and not empty.
pub open spec fn effective_override(executable_override: Option<Seq<char>>) -> Option<Seq<char>> {
    match executable_override {
        Some(path) if path.len() > 0 => Some(path),
        _ => None,
    }
}

/// The environment of the helper: the override under `variable`, or nothing.
pub open spec fn launch_env(variable: Seq<char>, executable_override: Option<Seq<char>>) -> Seq<
    (Seq<char>, Seq<char>),
> {
    match effective_override(executable_override) {
        Some(path) => seq![(variable, path)],
        None => seq![],
    }
}

/// The arguments of the helper: the override behind `flag`, or nothing.
pub open spec fn launch_args(flag: Seq<char>, executable_override: Option<Seq<char>>) -> Seq<
    Seq<char>,
> {
    match effective_override(executable_override) {
        Some(path) => seq![flag, path],
        None => seq![],
    }
}

impl LaunchPlan {
    /// Whether this plan is the one for `executable_override` under
    /// `profile`: always the same binary, told of the override in both
    /// ways or in neither.
    pub open spec fn is_for(&self, profile: &Profile, executable_override: Option<Seq<char>>)
        -> bool {
        &&& self.program@ == profile.helper@
        &&& self.env.deep_view() == launch_env(profile.override_variable@, executable_override)
        &&& self.args.deep_view() == launch_args(profile.override_flag@, executable_override)
    }
}

/// The plan for launching the helper of `profile` with the given override.
pub fn launch_plan(profile: &Profile, executable_override: &Option<String>) -> (plan: LaunchPlan)
    ensures
        plan.is_for(profile, executable_override.deep_view()),
{
    let program = profile.helper.clone();
    let mut env: Vec<(String, String)> = Vec::new();
    let mut args: Vec<String> = Vec::new();
    if let Some(path) = executable_override {
        if !path.as_str().is_empty() {
            env.push((profile.override_variable.clone(), path.clone()));
            args.push(profile.override_flag.clone());
            args.push(path.clone());
        }
    }
    assert(env.deep_view() =~= launch_env(
        profile.override_variable@,
        executable_override.deep_view(),
    ));
    assert(args.deep_view() =~= launch_args(
        profile.override_flag@,
        executable_override.deep_view(),
    ));
    LaunchPlan { program, env, args }
}

/// The text of a failure to make the command, with its reason.
pub open spec fn unavailable_message(reason: Seq<char>) -> Seq<char> {
    "Failed to create sidecar command: "@ + reason
}

/// The text of a failure to spawn, with its reason.
pub open spec fn spawn_failed_message(reason: Seq<char>) -> Seq<char> {
    "Failed to spawn sidecar: "@ + reason
}

/// The text of a failure to kill, with its reason.
pub open spec fn kill_failed_message(reason: Seq<char>) -> Seq<char> {
    "Failed to kill process: "@ + reason
}

/// The text of a start that found the helper of `product` running.
pub open spec fn already_running_message(product: Seq<char>) -> Seq<char> {
    product + " server is already running"@
}

/// What a start tells its caller, from the handle held before it (`before`)
/// and from what the launch gives where one is made: the new process
/// identifier, or why there is none. With a handle held no launch is made
/// and the outcome is not looked at.
pub open spec fn start_reply<H>(before: Option<H>, outcome: LaunchOutcome<H>) -> Result<
    u32,
    StartErrorView,
> {
    if before is Some {
        Err(StartErrorView::AlreadyRunning)
    } else {
        match outcome {
            LaunchOutcome::Started { handle, pid } => Ok(pid),
            LaunchOutcome::Unavailable { reason } => Err(
                StartErrorView::SpawnFailure(unavailable_message(reason@)),
            ),
            LaunchOutcome::SpawnFailed { reason } => Err(
                StartErrorView::SpawnFailure(spawn_failed_message(reason@)),
            ),
        }
    }
}

/// The handle held after a start: the one held before, or else the one
/// that the launch gave, if it gave one.
pub open spec fn start_state<H>(before: Option<H>, outcome: LaunchOutcome<H>) -> Option<H> {
    if before is Some {
        before
    } else {
        match outcome {
            LaunchOutcome::Started { handle, pid } => Some(handle),
            _ => None,
        }
    }
}

/// What a stop tells its caller, from the handle held before it and from
/// what the kill gives where one is made. With no handle held no kill is
/// made and the stop succeeds.
pub open spec fn stop_reply<H>(before: Option<H>, kill: Result<(), String>) -> Result<
    (),
    StopErrorView,
> {
    match (before, kill) {
        (Some(_), Err(reason)) => Err(StopErrorView::KillFailure(kill_failed_message(reason@))),
        _ => Ok(()),
    }
}

/// The view of what a start returned.
pub open spec fn start_result_view(result: Result<u32, StartError>) -> Result<u32, StartErrorView> {
    match result {
        Ok(pid) => Ok(pid),
        Err(e) => Err(e@),
    }
}

/// The view of what a stop returned.
pub open spec fn stop_result_view(result: Result<(), StopError>) -> Result<(), StopErrorView> {
    match result {
        Ok(()) => Ok(()),
        Err(e) => Err(e@),
    }
}

/// The owner of the helper's handle. `H` is the type of that handle.
pub struct Supervisor<H> {
    handle: Option<H>,
}

impl<H> Supervisor<H> {
    /// The handle that is held, if any.
    pub closed spec fn handle(&self) -> Option<H> {
        self.handle
    }

    /// Whether a helper counts as running: whether a handle is held.
    pub open spec fn is_running(&self) -> bool {
        self.handle() is Some
    }

    /// A supervisor with no helper running.
    pub fn new() -> (supervisor: Self)
        ensures
            supervisor.handle() is None,
    {
        Supervisor { handle: None }
    }

    /// Whether a helper counts as running. This is the state as last
    /// recorded; the process itself is not asked.
    pub fn status(&self) -> (running: bool)
        ensures
            running == self.is_running(),
    {
        self.handle.is_some()
    }

    /// Starts the helper unless one is running.
    ///
    /// With a handle held, `launch` is not called: the start is rejected and
    /// nothing changes. Otherwise `launch` is called once, with the plan for
    /// `executable_override` under `profile`, and its outcome decides: a
    /// started helper's handle is kept and its process identifier returned;
    /// a failure is returned and no handle is kept.
    pub fn start<F>(
        &mut self,
        profile: &Profile,
        executable_override: Option<String>,
        launch: F,
    ) -> (result: Result<u32, StartError>) where F: FnOnce(LaunchPlan) -> LaunchOutcome<H>
        requires
            forall|plan: LaunchPlan| launch.requires((plan,)),
        ensures
            old(self).is_running() ==> {
                &&& start_result_view(result) == Err::<u32, _>(StartErrorView::AlreadyRunning)
                &&& final(self).handle() == old(self).handle()
            },
            !old(self).is_running() ==> exists|plan: LaunchPlan, outcome: LaunchOutcome<H>|
                {
                    &&& plan.is_for(profile, executable_override.deep_view())
                    &&& launch.ensures((plan,), outcome)
                    &&& start_result_view(result) == start_reply(old(self).handle(), outcome)
                    &&& final(self).handle() == start_state(old(self).handle(), outcome)
                },
            result is Ok <==> !old(self).is_running() && final(self).is_running(),
    {
        if self.handle.is_some() {
            return Err(StartError::AlreadyRunning);
        }
        let plan = launch_plan(profile, &executable_override);
        let ghost sent = plan;
        let outcome = launch(plan);
        let ghost got = outcome;
        let result = match outcome {
            LaunchOutcome::Started { handle, pid } => {
                self.handle = Some(handle);
                Ok(pid)
            },
            LaunchOutcome::Unavailable { reason } => {
                let text = String::from_str("Failed to create sidecar command: ").concat(
                    reason.as_str(),
                );
                Err(StartError::SpawnFailure(text))
            },
            LaunchOutcome::SpawnFailed { reason } => {
                let text = String::from_str("Failed to spawn sidecar: ").concat(reason.as_str());
                Err(StartError::SpawnFailure(text))
            },
        };
        assert({
            &&& sent.is_for(profile, executable_override.deep_view())
            &&& launch.ensures((sent,), got)
            &&& start_result_view(result) == start_reply(old(self).handle(), got)
            &&& self.handle() == start_state(old(self).handle(), got)
        });
        result
    }

    /// Stops the helper if one is running.
    ///
    /// With no handle held, `kill` is not called and the stop succeeds. With
    /// one, the handle is taken out first and `kill` is called once on it;
    /// if the kill fails the failure is returned, and still no handle is
    /// held afterwards.
    pub fn stop<F>(&mut self, kill: F) -> (result: Result<(), StopError>) where
        F: FnOnce(H) -> Result<(), String>,

        requires
            forall|handle: H| kill.requires((handle,)),
        ensures
            final(self).handle() is None,
            old(self).handle() is None ==> result is Ok,
            old(self).handle() matches Some(handle) ==> exists|killed: Result<(), String>|
                {
                    &&& kill.ensures((handle,), killed)
                    &&& stop_result_view(result) == stop_reply(old(self).handle(), killed)
                },
    {
        match self.handle.take() {
            None => Ok(()),
            Some(handle) => {
                let ghost taken = handle;
                let killed = kill(handle);
                let ghost got = killed;
                let result = match killed {
                    Ok(()) => Ok(()),
                    Err(reason) => {
                        let text = String::from_str("Failed to kill process: ").concat(
                            reason.as_str(),
                        );
                        Err(StopError::KillFailure(text))
                    },
                };
                assert(kill.ensures((taken,), got) && stop_result_view(result) == stop_reply(
                    old(self).handle(),
                    got,
                ));
                result
            },
        }
    }
}

/// One call on a supervisor, with what its outside work gives if it is made.
pub enum Call<H> {
    /// A start whose launch, if made, has this outcome.
    Start(LaunchOutcome<H>),
    /// A stop whose kill, if made, ends so.
    Stop(Result<(), String>),
}

/// The handle held after `call`, when `before` was held before it.
pub open spec fn state_after_call<H>(before: Option<H>, call: Call<H>) -> Option<H> {
    match call {
        Call::Start(outcome) => start_state(before, outcome),
        Call::Stop(_) => None,
    }
}

/// The handle held by a new supervisor after the first `n` of `calls`.
pub open spec fn state_at<H>(calls: Seq<Call<H>>, n: nat) -> Option<H>
    recommends
        n <= calls.len(),
    decreases n,
{
    if n == 0 {
        None
    } else {
        state_after_call(state_at(calls, (n - 1) as nat), calls[n - 1])
    }
}

/// Whether call `i` of `calls` is a start that succeeds.
pub open spec fn start_succeeds<H>(calls: Seq<Call<H>>, i: int) -> bool {
    &&& 0 <= i < calls.len()
    &&& calls[i] matches Call::Start(outcome)
    &&& start_reply(state_at(calls, i as nat), outcome) is Ok
}

/// Whether call `i` of `calls` is a start that is rejected because a helper
/// is running.
pub open spec fn start_rejected<H>(calls: Seq<Call<H>>, i: int) -> bool {
    &&& 0 <= i < calls.len()
    &&& calls[i] matches Call::Start(outcome)
    &&& start_reply(state_at(calls, i as nat), outcome) == Err::<u32, _>(
        StartErrorView::AlreadyRunning,
    )
}

/// Whether call `i` of `calls` is a stop that succeeds.
pub open spec fn stop_succeeds<H>(calls: Seq<Call<H>>, i: int) -> bool {
    &&& 0 <= i < calls.len()
    &&& calls[i] matches Call::Stop(kill)
    &&& stop_reply(state_at(calls, i as nat), kill) is Ok
}

/// Whether no call after call `i` and before call `n` is a stop.
pub open spec fn no_stop_between<H>(calls: Seq<Call<H>>, i: int, n: int) -> bool {
    forall|k: int| i < k < n && k < calls.len() ==> #[trigger] calls[k] is Start
}

/// Whether call `i` is a successful start that no stop follows before call `n`.
pub open spec fn started_and_not_stopped<H>(calls: Seq<Call<H>>, i: int, n: int) -> bool {
    &&& i < n
    &&& start_succeeds(calls, i)
    &&& no_stop_between(calls, i, n)
}

/// A helper counts as running exactly when some start has succeeded and no
/// stop was called since, whatever the calls and their outcomes were.
pub proof fn lemma_running_iff_started_and_not_stopped<H>(calls: Seq<Call<H>>, n: nat)
    requires
        n <= calls.len(),
    ensures
        state_at(calls, n) is Some <==> exists|i: int|
            started_and_not_stopped(calls, i, n as int),
    decreases n,
{
    if n > 0 {
        let m = (n - 1) as nat;
        lemma_running_iff_started_and_not_stopped(calls, m);
        let before = state_at(calls, m);
        match calls[n - 1] {
            Call::Stop(_) => {
                assert forall|i: int| !started_and_not_stopped(calls, i, n as int) by {
                    if i < n - 1 && no_stop_between(calls, i, n as int) {
                        assert(calls[n - 1] is Start);
                    }
                }
            },
            Call::Start(outcome) => {
                if before is Some {
                    let i = choose|i: int| started_and_not_stopped(calls, i, m as int);
                    assert(started_and_not_stopped(calls, i, n as int));
                } else if start_succeeds(calls, n - 1) {
                    assert(started_and_not_stopped(calls, n - 1, n as int));
                } else {
                    assert forall|i: int| !started_and_not_stopped(calls, i, n as int) by {
                        if started_and_not_stopped(calls, i, n as int) {
                            assert(i < m);
                            assert(started_and_not_stopped(calls, i, m as int));
                        }
                    }
                }
            },
        }
    }
}

/// After a successful start, every further start is rejected as long as no
/// stop is called.
pub proof fn lemma_second_start_rejected<H>(calls: Seq<Call<H>>, i: int, j: int)
    requires
        start_succeeds(calls, i),
        i < j < calls.len(),
        no_stop_between(calls, i, j),
        calls[j] is Start,
    ensures
        start_rejected(calls, j),
{
    assert(started_and_not_stopped(calls, i, j));
    lemma_running_iff_started_and_not_stopped(calls, j as nat);
}

/// Between two successful starts there is a stop.
pub proof fn lemma_stop_between_starts<H>(calls: Seq<Call<H>>, i: int, j: int) -> (k: int)
    requires
        start_succeeds(calls, i),
        start_succeeds(calls, j),
        i < j,
    ensures
        i < k < j,
        calls[k] is Stop,
{
    if no_stop_between(calls, i, j) {
        lemma_second_start_rejected(calls, i, j);
    }
    choose|k: int| i < k < j && k < calls.len() && !(#[trigger] calls[k] is Start)
}

/// Between two successful starts there is a successful stop, provided that
/// no stop between them fails. (A stop whose kill fails gives up the handle
/// all the same, so the next start succeeds after it.)
pub proof fn lemma_successful_stop_between_starts<H>(calls: Seq<Call<H>>, i: int, j: int) -> (k:
    int)
    requires
        start_succeeds(calls, i),
        start_succeeds(calls, j),
        i < j,
        forall|m: int| i < m < j && #[trigger] calls[m] is Stop ==> stop_succeeds(calls, m),
    ensures
        i < k < j,
        stop_succeeds(calls, k),
{
    lemma_stop_between_starts(calls, i, j)
}

/// A stop with no helper running succeeds and changes nothing, so a second
/// stop straight after a first always succeeds.
pub proof fn lemma_stop_is_idempotent<H>(
    before: Option<H>,
    first: Result<(), String>,
    second: Result<(), String>,
)
    ensures
        before is None ==> stop_reply(before, first) is Ok && state_after_call(
            before,
            Call::Stop(first),
        ) == before,
        stop_reply(state_after_call(before, Call::Stop(first)), second) is Ok,
        state_after_call(state_after_call(before, Call::Stop(first)), Call::Stop(second))
            == state_after_call(before, Call::Stop(first)),
{
}

} // verus!
