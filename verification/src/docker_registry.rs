//! Building and pushing the images, one target after the other. What
//! became of each target is kept with the target: a build or a push that
//! fails is recorded, and the run goes on with the next target.
//!
//! The run is a state machine: it says what tool to start next, and takes
//! what the tool reported. Starting the tool is its caller's part.

use crate::dto::{BuildInstruction, BuildInstructionView};
use crate::text::{parse_i64, spec_parse_i64, trim_text, trimmed};
use vstd::prelude::*;
use vstd::string::*;

verus! {

/// The tool that builds, inspects and pushes images.
pub const BUILD_TOOL: &'static str = "podman";

/// Where the credentials of the image registry are kept.
pub const CREDENTIALS_ENDPOINT: &'static str = "https://vault.openhabx.com/get/docker-access.json";

/// The credentials of the image registry.
#[allow(non_snake_case)]
#[derive(Debug, PartialEq, Default)]
pub struct DockerCredentials {
    pub Username: String,
    pub Secret: String,
}

/// The credentials as the tool takes them: user name, colon, secret.
pub open spec fn credentials_text(username: Seq<char>, secret: Seq<char>) -> Seq<char> {
    username + ":"@ + secret
}

/// The credentials as the tool takes them.
pub fn get_access_credentials(credentials: &DockerCredentials) -> (text: String)
    ensures
        text@ == credentials_text(credentials.Username@, credentials.Secret@),
{
    let mut text = credentials.Username.clone();
    text.append(":");
    text.append(credentials.Secret.as_str());
    text
}

/// Where a run stands: the tool that is to be started next, and for
/// which target.
#[derive(Debug, Clone, Copy, PartialEq, Eq, Structural)]
pub enum Phase {
    /// The image of this target is to be built.
    Building { target: usize },
    /// The image of this target is to be asked for its size.
    Inspecting { target: usize },
    /// The image of this target, which was built, is to be pushed.
    Pushing { target: usize },
    /// Nothing is left to do.
    Done,
}

/// What the caller reports back after starting a tool.
#[derive(Debug, PartialEq)]
pub enum BuildEvent {
    /// The build or the push ended, well or not.
    Exited { success: bool },
    /// The inspection ended: what it printed, if it could be started.
    Inspected { output: Option<String> },
}

/// What a [`BuildEvent`] holds, as mathematical values.
pub enum BuildEventView {
    Exited { success: bool },
    Inspected { output: Option<Seq<char>> },
}

impl DeepView for BuildEvent {
    type V = BuildEventView;

    open spec fn deep_view(&self) -> BuildEventView {
        match self {
            BuildEvent::Exited { success } => BuildEventView::Exited { success: *success },
            BuildEvent::Inspected { output } => BuildEventView::Inspected {
                output: output.deep_view(),
            },
        }
    }
}

/// What the caller is to do next: start the tool with these arguments,
/// in the manifest's directory, and report how it went.
#[derive(Debug, PartialEq)]
pub enum BuildAction {
    /// Build an image, show what the tool prints as progress, and report `Exited`.
    Build { arguments: Vec<String> },
    /// Ask for the size of an image and report `Inspected`.
    Inspect { arguments: Vec<String> },
    /// Push an image and report `Exited`.
    Push { arguments: Vec<String> },
    /// Nothing: the run is over.
    Finish,
}

/// What a [`BuildAction`] holds, as mathematical values.
pub enum BuildActionView {
    Build { arguments: Seq<Seq<char>> },
    Inspect { arguments: Seq<Seq<char>> },
    Push { arguments: Seq<Seq<char>> },
    Finish,
}

impl DeepView for BuildAction {
    type V = BuildActionView;

    open spec fn deep_view(&self) -> BuildActionView {
        match self {
            BuildAction::Build { arguments } => BuildActionView::Build {
                arguments: arguments.deep_view(),
            },
            BuildAction::Inspect { arguments } => BuildActionView::Inspect {
                arguments: arguments.deep_view(),
            },
            BuildAction::Push { arguments } => BuildActionView::Push {
                arguments: arguments.deep_view(),
            },
            BuildAction::Finish => BuildActionView::Finish,
        }
    }
}

/// A run over the targets, in their order: first every image is built and
/// inspected, then every image that was built is pushed.
#[derive(Debug, PartialEq)]
pub struct BuildRun {
    targets: Vec<BuildInstruction>,
    credentials: String,
    phase: Phase,
}

/// What a [`BuildRun`] holds, as mathematical values.
pub struct BuildRunView {
    pub targets: Seq<BuildInstructionView>,
    pub credentials: Seq<char>,
    pub phase: Phase,
}

impl BuildRunView {
    /// The phase names a target of the run, and a target to push was built.
    pub open spec fn wf(self) -> bool {
        match self.phase {
            Phase::Building { target } => target < self.targets.len(),
            Phase::Inspecting { target } => target < self.targets.len(),
            Phase::Pushing { target } => target < self.targets.len() && self.targets[target as int].build,
            Phase::Done => true,
        }
    }
}

impl DeepView for BuildRun {
    type V = BuildRunView;

    closed spec fn deep_view(&self) -> BuildRunView {
        BuildRunView {
            targets: self.targets.deep_view(),
            credentials: self.credentials@,
            phase: self.phase,
        }
    }
}

/// The first target at or after `from` that was built, or the number of
/// targets where there is none.
pub open spec fn first_built(targets: Seq<BuildInstructionView>, from: int) -> int
    decreases targets.len() - from,
{
    if from < 0 || from >= targets.len() {
        targets.len() as int
    } else if targets[from].build {
        from
    } else {
        first_built(targets, from + 1)
    }
}

/// The phase in which the first built target at or after `from` is
/// pushed, or the end of the run where there is none.
pub open spec fn push_from(targets: Seq<BuildInstructionView>, from: int) -> Phase {
    let next = first_built(targets, from);
    if next < targets.len() {
        Phase::Pushing { target: next as usize }
    } else {
        Phase::Done
    }
}

/// The phase in which a run over `targets` starts.
pub open spec fn start_phase(targets: Seq<BuildInstructionView>) -> Phase {
    if targets.len() > 0 {
        Phase::Building { target: 0 }
    } else {
        Phase::Done
    }
}

/// The size that an inspection printed: a number, with white space around it.
pub open spec fn printed_size(output: Seq<char>) -> Option<i64> {
    spec_parse_i64(trimmed(output))
}

/// The size of an image after an inspection: the number that was printed,
/// or the size as it was where the inspection failed or printed no number.
pub open spec fn size_after(size: int, output: Option<Seq<char>>) -> int {
    match output {
        Some(text) => match printed_size(text) {
            Some(number) => number as int,
            None => size,
        },
        None => size,
    }
}

/// A target after its build ended.
pub open spec fn built(target: BuildInstructionView, success: bool) -> BuildInstructionView {
    BuildInstructionView { build: success, ..target }
}

/// A target after its image was inspected.
pub open spec fn inspected(target: BuildInstructionView, output: Option<Seq<char>>) -> BuildInstructionView {
    BuildInstructionView { image_size: size_after(target.image_size, output), ..target }
}

/// A target after its push ended.
pub open spec fn pushed(target: BuildInstructionView, success: bool) -> BuildInstructionView {
    BuildInstructionView { uploaded: success, ..target }
}

/// The run after `event` was reported. An event that the phase was not
/// waiting for changes nothing.
pub open spec fn step(run: BuildRunView, event: BuildEventView) -> BuildRunView {
    match run.phase {
        Phase::Building { target } => match event {
            BuildEventView::Exited { success } => BuildRunView {
                targets: run.targets.update(target as int, built(run.targets[target as int], success)),
                phase: Phase::Inspecting { target },
                ..run
            },
            _ => run,
        },
        Phase::Inspecting { target } => match event {
            BuildEventView::Inspected { output } => {
                let targets = run.targets.update(
                    target as int,
                    inspected(run.targets[target as int], output),
                );
                BuildRunView {
                    targets,
                    phase: if target + 1 < targets.len() {
                        Phase::Building { target: (target + 1) as usize }
                    } else {
                        push_from(targets, 0)
                    },
                    ..run
                }
            },
            _ => run,
        },
        Phase::Pushing { target } => match event {
            BuildEventView::Exited { success } => {
                let targets = run.targets.update(
                    target as int,
                    pushed(run.targets[target as int], success),
                );
                BuildRunView { targets, phase: push_from(targets, target + 1), ..run }
            },
            _ => run,
        },
        Phase::Done => run,
    }
}

/// The arguments with which the tool builds the image of a target.
pub open spec fn build_arguments(target: BuildInstructionView, credentials: Seq<char>) -> Seq<
    Seq<char>,
> {
    seq!["build"@, "-t"@, target.image_name, "-f"@, target.filename, "--creds="@ + credentials]
}

/// The arguments with which the tool prints the size of the image of a target.
pub open spec fn inspect_arguments(target: BuildInstructionView) -> Seq<Seq<char>> {
    seq!["image"@, "inspect"@, target.image_name, "--format={{.Size}}"@]
}

/// The arguments with which the tool pushes the image of a target.
pub open spec fn push_arguments(target: BuildInstructionView, credentials: Seq<char>) -> Seq<
    Seq<char>,
> {
    seq!["push"@, target.image_name, "--creds="@ + credentials]
}

/// What the caller is to do in a phase.
pub open spec fn action_of(run: BuildRunView) -> BuildActionView {
    match run.phase {
        Phase::Building { target } => BuildActionView::Build {
            arguments: build_arguments(run.targets[target as int], run.credentials),
        },
        Phase::Inspecting { target } => BuildActionView::Inspect {
            arguments: inspect_arguments(run.targets[target as int]),
        },
        Phase::Pushing { target } => BuildActionView::Push {
            arguments: push_arguments(run.targets[target as int], run.credentials),
        },
        Phase::Done => BuildActionView::Finish,
    }
}

/// The search for a built target ends on one, or behind the last target,
/// and passes over nothing that was built.
pub proof fn lemma_first_built(targets: Seq<BuildInstructionView>, from: int)
    requires
        0 <= from <= targets.len(),
    ensures
        from <= first_built(targets, from) <= targets.len(),
        first_built(targets, from) < targets.len() ==> targets[first_built(targets, from)].build,
        forall|k: int| from <= k < first_built(targets, from) ==> !targets[k].build,
    decreases targets.len() - from,
{
    if from < targets.len() && !targets[from].build {
        lemma_first_built(targets, from + 1);
    }
}

/// A run stays well formed, and keeps its targets' number and names.
pub proof fn lemma_step_wf(run: BuildRunView, event: BuildEventView)
    requires
        run.wf(),
        run.targets.len() <= usize::MAX,
    ensures
        step(run, event).wf(),
        step(run, event).targets.len() == run.targets.len(),
        step(run, event).credentials == run.credentials,
{
    let next = step(run, event);
    lemma_first_built(next.targets, 0);
    match run.phase {
        Phase::Pushing { target } => {
            lemma_first_built(next.targets, target + 1);
        },
        _ => {},
    }
}

/// The size of the image, read from what an inspection printed.
pub fn read_size(output: &str) -> (size: Option<i64>)
    ensures
        size == printed_size(output@),
{
    let text = trim_text(output);
    parse_i64(text.as_str())
}

/// The first target at or after `from` that was built.
fn find_built(targets: &Vec<BuildInstruction>, from: usize) -> (next: usize)
    requires
        from <= targets@.len(),
    ensures
        next == first_built(targets.deep_view(), from as int),
        from <= next <= targets@.len(),
        next < targets@.len() ==> targets@[next as int].build,
{
    let n = targets.len();
    let mut i: usize = from;
    while i < n && !targets[i].build
        invariant
            from <= i <= n,
            n == targets@.len(),
            first_built(targets.deep_view(), from as int) == first_built(
                targets.deep_view(),
                i as int,
            ),
        decreases n - i,
    {
        i += 1;
    }
    i
}

/// The phase in which the first built target at or after `from` is pushed.
fn push_phase(targets: &Vec<BuildInstruction>, from: usize) -> (phase: Phase)
    requires
        from <= targets@.len(),
    ensures
        phase == push_from(targets.deep_view(), from as int),
        phase matches Phase::Pushing { target } ==> target < targets@.len()
            && targets@[target as int].build,
        phase is Pushing || phase is Done,
{
    let next = find_built(targets, from);
    if next < targets.len() {
        Phase::Pushing { target: next }
    } else {
        Phase::Done
    }
}

fn text(s: &str) -> (t: String)
    ensures
        t@ == s@,
{
    String::from_str(s)
}

fn credentials_argument(credentials: &str) -> (argument: String)
    ensures
        argument@ == "--creds="@ + credentials@,
{
    let mut argument = String::from_str("--creds=");
    argument.append(credentials);
    argument
}

/// The arguments with which the tool builds the image of a target.
pub fn build_command(target: &BuildInstruction, credentials: &str) -> (arguments: Vec<String>)
    ensures
        arguments.deep_view() == build_arguments(target.deep_view(), credentials@),
{
    let mut arguments: Vec<String> = Vec::new();
    arguments.push(text("build"));
    arguments.push(text("-t"));
    arguments.push(target.image_name.clone());
    arguments.push(text("-f"));
    arguments.push(target.filename.clone());
    arguments.push(credentials_argument(credentials));
    assert(arguments.deep_view() =~= build_arguments(target.deep_view(), credentials@));
    arguments
}

/// The arguments with which the tool prints the size of the image of a target.
pub fn inspect_command(target: &BuildInstruction) -> (arguments: Vec<String>)
    ensures
        arguments.deep_view() == inspect_arguments(target.deep_view()),
{
    let mut arguments: Vec<String> = Vec::new();
    arguments.push(text("image"));
    arguments.push(text("inspect"));
    arguments.push(target.image_name.clone());
    arguments.push(text("--format={{.Size}}"));
    assert(arguments.deep_view() =~= inspect_arguments(target.deep_view()));
    arguments
}

/// The arguments with which the tool pushes the image of a target.
pub fn push_command(target: &BuildInstruction, credentials: &str) -> (arguments: Vec<String>)
    ensures
        arguments.deep_view() == push_arguments(target.deep_view(), credentials@),
{
    let mut arguments: Vec<String> = Vec::new();
    arguments.push(text("push"));
    arguments.push(target.image_name.clone());
    arguments.push(credentials_argument(credentials));
    assert(arguments.deep_view() =~= push_arguments(target.deep_view(), credentials@));
    arguments
}

impl BuildRun {
    #[verifier::type_invariant]
    spec fn well_formed(self) -> bool {
        self.deep_view().wf()
    }

    /// A run that builds, inspects and pushes.
    pub fn new(targets: Vec<BuildInstruction>, credentials: String) -> (run: BuildRun)
        ensures
            run.deep_view() == (BuildRunView {
                targets: targets.deep_view(),
                credentials: credentials@,
                phase: start_phase(targets.deep_view()),
            }),
            run.deep_view().wf(),
    {
        let phase = if targets.len() > 0 {
            Phase::Building { target: 0 }
        } else {
            Phase::Done
        };
        BuildRun { targets, credentials, phase }
    }

    /// A run that only pushes what was built before.
    pub fn pushing(targets: Vec<BuildInstruction>, credentials: String) -> (run: BuildRun)
        ensures
            run.deep_view() == (BuildRunView {
                targets: targets.deep_view(),
                credentials: credentials@,
                phase: push_from(targets.deep_view(), 0),
            }),
            run.deep_view().wf(),
    {
        let phase = push_phase(&targets, 0);
        BuildRun { targets, credentials, phase }
    }

    /// Where the run stands.
    pub fn phase(&self) -> (phase: Phase)
        ensures
            phase == self.deep_view().phase,
            self.deep_view().wf(),
    {
        proof {
            use_type_invariant(self);
        }
        self.phase
    }

    /// The targets, with what became of each so far.
    pub fn targets(&self) -> (targets: &Vec<BuildInstruction>)
        ensures
            targets.deep_view() == self.deep_view().targets,
    {
        &self.targets
    }

    /// Ends the run and hands out the targets, with what became of each.
    pub fn into_targets(self) -> (targets: Vec<BuildInstruction>)
        ensures
            targets.deep_view() == self.deep_view().targets,
    {
        self.targets
    }

    /// What the caller is to do next.
    pub fn next_action(&self) -> (action: BuildAction)
        ensures
            action.deep_view() == action_of(self.deep_view()),
            self.deep_view().wf(),
    {
        proof {
            use_type_invariant(self);
        }
        match self.phase {
            Phase::Building { target } => BuildAction::Build {
                arguments: build_command(&self.targets[target], self.credentials.as_str()),
            },
            Phase::Inspecting { target } => BuildAction::Inspect {
                arguments: inspect_command(&self.targets[target]),
            },
            Phase::Pushing { target } => BuildAction::Push {
                arguments: push_command(&self.targets[target], self.credentials.as_str()),
            },
            Phase::Done => BuildAction::Finish,
        }
    }

    /// Takes what the caller reports.
    pub fn record(&mut self, event: BuildEvent)
        ensures
            final(self).deep_view() == step(old(self).deep_view(), event.deep_view()),
            final(self).deep_view().wf(),
    {
        proof {
            use_type_invariant(&*self);
        }
        match self.phase {
            Phase::Building { target } => match event {
                BuildEvent::Exited { success } => {
                    self.targets[target].build = success;
                    self.phase = Phase::Inspecting { target };
                    assert(self.deep_view().targets =~= step(
                        old(self).deep_view(),
                        event.deep_view(),
                    ).targets);
                },
                _ => {},
            },
            Phase::Inspecting { target } => match event {
                BuildEvent::Inspected { output } => {
                    let count = self.targets.len();
                    match output {
                        Some(printed) => match read_size(printed.as_str()) {
                            Some(size) => {
                                self.targets[target].image_size = size;
                            },
                            None => {},
                        },
                        None => {},
                    }
                    assert(self.deep_view().targets =~= step(
                        old(self).deep_view(),
                        event.deep_view(),
                    ).targets);
                    if target + 1 < count {
                        self.phase = Phase::Building { target: target + 1 };
                    } else {
                        self.phase = push_phase(&self.targets, 0);
                    }
                },
                _ => {},
            },
            Phase::Pushing { target } => match event {
                BuildEvent::Exited { success } => {
                    let count = self.targets.len();
                    assert(target < count);
                    // No phase names the target while its record is changed.
                    self.phase = Phase::Done;
                    self.targets[target].uploaded = success;
                    assert(self.deep_view().targets =~= step(
                        old(self).deep_view(),
                        event.deep_view(),
                    ).targets);
                    self.phase = push_phase(&self.targets, target + 1);
                },
                _ => {},
            },
            Phase::Done => {},
        }
    }
}

/// The target that the phase of a run is about, if it is about one.
pub open spec fn current(run: BuildRunView) -> Option<int> {
    match run.phase {
        Phase::Building { target } => Some(target as int),
        Phase::Inspecting { target } => Some(target as int),
        Phase::Pushing { target } => Some(target as int),
        Phase::Done => None,
    }
}

/// The run after a sequence of events, one after the other.
pub open spec fn run_events(run: BuildRunView, events: Seq<BuildEventView>) -> BuildRunView
    decreases events.len(),
{
    if events.len() == 0 {
        run
    } else {
        run_events(step(run, events[0]), events.skip(1))
    }
}

/// What the tool reported of one target: whether the build succeeded, and
/// what the inspection printed.
pub struct BuildOutcome {
    pub success: bool,
    pub output: Option<Seq<char>>,
}

/// The events of building and inspecting one target after the other.
pub open spec fn build_events(outcomes: Seq<BuildOutcome>) -> Seq<BuildEventView>
    decreases outcomes.len(),
{
    if outcomes.len() == 0 {
        Seq::empty()
    } else {
        seq![
            BuildEventView::Exited { success: outcomes[0].success },
            BuildEventView::Inspected { output: outcomes[0].output },
        ] + build_events(outcomes.skip(1))
    }
}

/// The targets after those from `from` on were built and inspected with
/// these outcomes, each target with its own.
pub open spec fn after_builds(
    targets: Seq<BuildInstructionView>,
    from: int,
    outcomes: Seq<BuildOutcome>,
) -> Seq<BuildInstructionView> {
    Seq::new(
        targets.len(),
        |i: int|
            if from <= i < from + outcomes.len() {
                inspected(built(targets[i], outcomes[i - from].success), outcomes[i - from].output)
            } else {
                targets[i]
            },
    )
}

/// Each target has its own record: an event changes nothing but the
/// target that the phase is about, and of that target neither the build
/// file, nor the architecture, nor the image's name.
pub proof fn lemma_step_touches_current(run: BuildRunView, event: BuildEventView)
    requires
        run.wf(),
    ensures
        step(run, event).targets.len() == run.targets.len(),
        forall|i: int|
            0 <= i < run.targets.len() && current(run) != Some(i) ==> #[trigger] step(
                run,
                event,
            ).targets[i] == run.targets[i],
        forall|i: int|
            0 <= i < run.targets.len() ==> {
                let after = #[trigger] step(run, event).targets[i];
                &&& after.filename == run.targets[i].filename
                &&& after.arch == run.targets[i].arch
                &&& after.image_name == run.targets[i].image_name
            },
{
}

/// An inspection that fails, or prints no number, leaves the size as it was.
pub proof fn lemma_failed_inspection(run: BuildRunView, target: usize, output: Option<Seq<char>>)
    requires
        run.wf(),
        run.phase == (Phase::Inspecting { target }),
        output matches Some(text) ==> printed_size(text) is None,
    ensures
        step(run, BuildEventView::Inspected { output }).targets == run.targets,
{
    assert(step(run, BuildEventView::Inspected { output }).targets =~= run.targets);
}

/// No failure stops the run: whatever the builds and inspections report,
/// every target from the current one on is built and inspected, each gets
/// its own outcome, and the run goes on to push what was built.
pub proof fn lemma_every_target_is_built(run: BuildRunView, outcomes: Seq<BuildOutcome>)
    requires
        run.wf(),
        run.phase is Building,
        run.phase->Building_target + outcomes.len() == run.targets.len(),
        run.targets.len() <= usize::MAX,
    ensures
        run_events(run, build_events(outcomes)).targets == after_builds(
            run.targets,
            run.phase->Building_target as int,
            outcomes,
        ),
        run_events(run, build_events(outcomes)).phase == push_from(
            after_builds(run.targets, run.phase->Building_target as int, outcomes),
            0,
        ),
        run_events(run, build_events(outcomes)).credentials == run.credentials,
    decreases outcomes.len(),
{
    let from = run.phase->Building_target as int;
    if outcomes.len() > 0 {
        let first = BuildEventView::Exited { success: outcomes[0].success };
        let second = BuildEventView::Inspected { output: outcomes[0].output };
        let rest = build_events(outcomes.skip(1));
        let events = build_events(outcomes);
        assert(events == seq![first, second] + rest);
        assert(events[0] == first);
        assert(events.skip(1)[0] == second);
        assert(events.skip(1).skip(1) =~= rest);
        let one = step(run, first);
        let two = step(one, second);
        assert(run_events(run, events) == run_events(one, events.skip(1)));
        assert(run_events(one, events.skip(1)) == run_events(two, rest));
        if outcomes.len() == 1 {
            assert(rest =~= Seq::empty());
            assert(two.targets =~= after_builds(run.targets, from, outcomes));
        } else {
            lemma_step_wf(run, first);
            lemma_step_wf(one, second);
            lemma_every_target_is_built(two, outcomes.skip(1));
            assert(after_builds(two.targets, from + 1, outcomes.skip(1)) =~= after_builds(
                run.targets,
                from,
                outcomes,
            ));
        }
    }
}

/// A target that was not built is never pushed: once the run pushes, such
/// a target stays as it is, `uploaded` and all, whatever is reported, and
/// the run never asks for it to be pushed.
pub proof fn lemma_unbuilt_is_never_pushed(
    run: BuildRunView,
    events: Seq<BuildEventView>,
    target: int,
)
    requires
        run.wf(),
        run.phase is Pushing || run.phase is Done,
        run.targets.len() <= usize::MAX,
        0 <= target < run.targets.len(),
        !run.targets[target].build,
    ensures
        run_events(run, events).targets[target] == run.targets[target],
        current(run_events(run, events)) != Some(target),
        run_events(run, events).phase is Pushing || run_events(run, events).phase is Done,
    decreases events.len(),
{
    if events.len() > 0 {
        let next = step(run, events[0]);
        lemma_step_wf(run, events[0]);
        lemma_unbuilt_is_never_pushed(next, events.skip(1), target);
    }
}

/// Only a target that was built can come out as uploaded: where every
/// target starts out as not uploaded, a run that pushes leaves no target
/// uploaded that was not built.
pub proof fn lemma_uploaded_was_built(run: BuildRunView, events: Seq<BuildEventView>)
    requires
        run.wf(),
        run.phase is Pushing || run.phase is Done,
        run.targets.len() <= usize::MAX,
        forall|i: int| 0 <= i < run.targets.len() ==> !(#[trigger] run.targets[i]).uploaded,
    ensures
        run_events(run, events).targets.len() == run.targets.len(),
        forall|i: int|
            0 <= i < run.targets.len() && (#[trigger] run_events(run, events).targets[i]).uploaded
                ==> run.targets[i].build && run_events(run, events).targets[i].build,
{
    lemma_run_keeps_builds(run, events);
    assert forall|i: int|
        0 <= i < run.targets.len() && (#[trigger] run_events(
            run,
            events,
        ).targets[i]).uploaded implies run.targets[i].build && run_events(
        run,
        events,
    ).targets[i].build by {
        if !run.targets[i].build {
            lemma_unbuilt_is_never_pushed(run, events, i);
        }
    }
}

/// While a run pushes, it keeps the number of its targets and whether
/// each was built.
pub proof fn lemma_run_keeps_builds(run: BuildRunView, events: Seq<BuildEventView>)
    requires
        run.wf(),
        run.phase is Pushing || run.phase is Done,
        run.targets.len() <= usize::MAX,
    ensures
        run_events(run, events).targets.len() == run.targets.len(),
        forall|i: int|
            0 <= i < run.targets.len() ==> (#[trigger] run_events(run, events).targets[i]).build
                == run.targets[i].build,
    decreases events.len(),
{
    if events.len() > 0 {
        let next = step(run, events[0]);
        lemma_step_wf(run, events[0]);
        lemma_run_keeps_builds(next, events.skip(1));
        assert forall|i: int| 0 <= i < run.targets.len() implies (#[trigger] run_events(
            run,
            events,
        ).targets[i]).build == run.targets[i].build by {
            assert(next.targets[i].build == run.targets[i].build);
        }
    }
}

/// A target whose inspection fails keeps the size it had: 0 for a target
/// that nothing was recorded of before.
pub proof fn lemma_size_without_inspection(
    targets: Seq<BuildInstructionView>,
    outcomes: Seq<BuildOutcome>,
    target: int,
)
    requires
        outcomes.len() == targets.len(),
        0 <= target < targets.len(),
        outcomes[target].output matches Some(text) ==> printed_size(text) is None,
    ensures
        after_builds(targets, 0, outcomes)[target].image_size == targets[target].image_size,
        after_builds(targets, 0, outcomes)[target].build == outcomes[target].success,
        after_builds(targets, 0, outcomes)[target].uploaded == targets[target].uploaded,
{
}

} // verus!
