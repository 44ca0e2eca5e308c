//! The course of a build: what is done next, given what has happened.
//!
//! The build is one line of steps with no way back: the environment is
//! resolved, CMake is configured, the targets are built one after the other,
//! the startup objects are put into their archive, and the linker is told
//! where everything is. Whatever fails ends the build for good.

use vstd::prelude::*;
use crate::archive::{archiver_succeeded, check_archiver, ArchiveJob, ArchiveJobView};
use crate::artifacts::{linkage_of, startup_job_of, Artifacts};
use crate::config::Config;
use crate::environment::{triple_of, Environment, Variable};
use crate::error::{BuildError, BuildErrorView};
use crate::paths::{join, join_path};
use crate::targets::Target;

verus! {

/// Where a build stands.
#[derive(Debug, Clone, PartialEq, Eq)]
pub enum State {
    /// Nothing has happened yet.
    Idle,
    /// CMake is being configured.
    Configuring,
    /// `target` is being built. `known_root` is the root of the build as the
    /// first target reported it; there is none while the first target is
    /// built.
    Building { target: Target, known_root: Option<String> },
    /// The startup objects below `root` are being put into their archive.
    Assembling { root: String },
    /// The library is built below `root`, and the linker has been told.
    Finished { root: String },
    /// The build has failed.
    Failed { error: BuildError },
}

/// A state with its texts as plain sequences of characters.
pub enum StateView {
    Idle,
    Configuring,
    Building { target: Target, known_root: Option<Seq<char>> },
    Assembling { root: Seq<char> },
    Finished { root: Seq<char> },
    Failed { error: BuildErrorView },
}

impl View for State {
    type V = StateView;

    open spec fn view(&self) -> StateView {
        match self {
            State::Idle => StateView::Idle,
            State::Configuring => StateView::Configuring,
            State::Building { target, known_root } => StateView::Building {
                target: *target,
                known_root: match known_root {
                    Some(text) => Some(text@),
                    None => None,
                },
            },
            State::Assembling { root } => StateView::Assembling { root: root@ },
            State::Finished { root } => StateView::Finished { root: root@ },
            State::Failed { error } => StateView::Failed { error: error@ },
        }
    }
}

/// Something that has happened outside.
#[derive(Debug, Clone, PartialEq, Eq)]
pub enum Event {
    /// The build was started in this environment.
    Started { environment: Environment },
    /// CMake has been configured.
    Configured,
    /// CMake has built the target it was asked for, and reports the root of
    /// the build.
    TargetBuilt { root: String },
    /// CMake has not built the target it was asked for.
    TargetFailed,
    /// The archiver has ended. `status` is what it exited with; there is
    /// none where a signal ended it.
    ArchiverExited { status: Option<i32> },
}

/// What is to be done outside.
#[derive(Debug, Clone, PartialEq, Eq)]
pub enum Action {
    /// Set the variables in `exports`, and configure CMake for the target
    /// `triple`.
    Configure { exports: Vec<(Variable, String)>, triple: String },
    /// Have CMake build `target`.
    Build { target: Target },
    /// Run the archiver.
    Assemble { job: ArchiveJob },
    /// Print these lines for the enclosing build.
    Emit { lines: Vec<String> },
    /// End the build with this failure.
    Abort { error: BuildError },
    /// Nothing: the event was not awaited, or the build has ended.
    Nothing,
}

/// An action with its texts as plain sequences of characters.
pub enum ActionView {
    Configure { exports: Seq<(Variable, Seq<char>)>, triple: Seq<char> },
    Build { target: Target },
    Assemble { job: ArchiveJobView },
    Emit { lines: Seq<Seq<char>> },
    Abort { error: BuildErrorView },
    Nothing,
}

impl View for Action {
    type V = ActionView;

    open spec fn view(&self) -> ActionView {
        match self {
            Action::Configure { exports, triple } => ActionView::Configure {
                exports: exports@.map_values(|e: (Variable, String)| (e.0, e.1@)),
                triple: triple@,
            },
            Action::Build { target } => ActionView::Build { target: *target },
            Action::Assemble { job } => ActionView::Assemble { job: job@ },
            Action::Emit { lines } => ActionView::Emit {
                lines: lines@.map_values(|line: String| line@),
            },
            Action::Abort { error } => ActionView::Abort { error: error@ },
            Action::Nothing => ActionView::Nothing,
        }
    }
}

/// The configuration that is built from the sources below `base_dir`: the
/// preset with the hardening allocator, the library's sources at `src/libc`
/// and the allocator's at `src/compiler-rt`.
pub fn source_config(base_dir: &str) -> (config: Config)
    ensures
        config.is_preset(
            join_path(base_dir@, "src/libc"@),
            Some(join_path(base_dir@, "src/compiler-rt"@)),
        ),
{
    let libc_path = join(base_dir, "src/libc");
    let compiler_rt_path = join(base_dir, "src/compiler-rt");
    Config::new_with_scudo(libc_path.as_str(), compiler_rt_path.as_str())
}

/// The state after a failure, and the action that ends the build with it.
pub open spec fn failed(error: BuildErrorView) -> (StateView, ActionView) {
    (StateView::Failed { error }, ActionView::Abort { error })
}

/// The state that follows `state` when `event` happens, and what is to be
/// done then.
///
/// An event that the state does not await changes nothing and asks for
/// nothing. That holds of every event once the build has finished or failed.
pub open spec fn step_of(state: StateView, event: Event) -> (StateView, ActionView) {
    match (state, event) {
        (StateView::Idle, Event::Started { environment }) => match environment.target_arch {
            Some(arch) => (
                StateView::Configuring,
                ActionView::Configure {
                    exports: environment.pending_exports(),
                    triple: triple_of(arch@),
                },
            ),
            None => failed(BuildErrorView::MissingEnvironment { variable: Variable::TargetArch }),
        },
        (StateView::Configuring, Event::Configured) => (
            StateView::Building { target: Target::Libc, known_root: None },
            ActionView::Build { target: Target::Libc },
        ),
        (StateView::Building { target, known_root }, Event::TargetBuilt { root: reported }) => {
            let kept = match known_root {
                Some(first) => first,
                None => reported@,
            };
            match target.successor() {
                Some(next) => (
                    StateView::Building { target: next, known_root: Some(kept) },
                    ActionView::Build { target: next },
                ),
                None => (
                    StateView::Assembling { root: kept },
                    ActionView::Assemble { job: startup_job_of(kept) },
                ),
            }
        },
        (StateView::Building { target, known_root }, Event::TargetFailed) => failed(
            BuildErrorView::ExternalBuildFailure { target },
        ),
        (StateView::Assembling { root }, Event::ArchiverExited { status }) => {
            if archiver_succeeded(status) {
                (StateView::Finished { root }, ActionView::Emit { lines: linkage_of(root) })
            } else {
                failed(BuildErrorView::ArchiverFailure { status })
            }
        },
        _ => (state, ActionView::Nothing),
    }
}

impl State {
    /// The state of a build that has not begun.
    pub fn new() -> (state: State)
        ensures
            state@ == StateView::Idle,
    {
        State::Idle
    }

    /// The state that follows this one when `event` happens, and what is to
    /// be done then.
    pub fn step(self, event: Event) -> (next: (State, Action))
        ensures
            (next.0@, next.1@) == step_of(self@, event),
    {
        match (self, event) {
            (State::Idle, Event::Started { environment }) => {
                match environment.triple() {
                    Ok(triple) => {
                        let exports = environment.exports();
                        (State::Configuring, Action::Configure { exports, triple })
                    },
                    Err(error) => {
                        let kept = error.duplicate();
                        (State::Failed { error: kept }, Action::Abort { error })
                    },
                }
            },
            (State::Configuring, Event::Configured) => (
                State::Building { target: Target::Libc, known_root: None },
                Action::Build { target: Target::Libc },
            ),
            (State::Building { target, known_root }, Event::TargetBuilt { root: reported }) => {
                let kept = match known_root {
                    Some(first) => first,
                    None => reported,
                };
                match target.next() {
                    Some(next) => (
                        State::Building { target: next, known_root: Some(kept) },
                        Action::Build { target: next },
                    ),
                    None => {
                        let job = Artifacts::resolve(kept.as_str()).startup_job();
                        (State::Assembling { root: kept }, Action::Assemble { job })
                    },
                }
            },
            (State::Building { target, known_root }, Event::TargetFailed) => (
                State::Failed { error: BuildError::ExternalBuildFailure { target } },
                Action::Abort { error: BuildError::ExternalBuildFailure { target } },
            ),
            (State::Assembling { root }, Event::ArchiverExited { status }) => {
                match check_archiver(status) {
                    Ok(_) => {
                        let lines = Artifacts::resolve(root.as_str()).linkage();
                        (State::Finished { root }, Action::Emit { lines })
                    },
                    Err(error) => {
                        let kept = error.duplicate();
                        (State::Failed { error: kept }, Action::Abort { error })
                    },
                }
            },
            (state, _) => (state, Action::Nothing),
        }
    }
}

/// The state after a run of events that began in `state`, and what was
/// asked for on the way, one action for each event.
pub open spec fn run(state: StateView, events: Seq<Event>) -> (StateView, Seq<ActionView>)
    decreases events.len(),
{
    if events.len() == 0 {
        (state, Seq::empty())
    } else {
        let before = run(state, events.drop_last());
        let last = step_of(before.0, events.last());
        (last.0, before.1.push(last.1))
    }
}

/// What a list of actions asked for, kind by kind.
pub struct Tally {
    /// How often CMake was to be configured.
    pub configured: nat,
    /// The targets that CMake was to build, in the order of the asking.
    pub built: Seq<Target>,
    /// How often the archiver was to be run.
    pub assembled: nat,
    /// How often lines were to be printed for the enclosing build.
    pub emitted: nat,
    /// How often the build was to be ended with a failure.
    pub aborted: nat,
}

/// What a list of actions asked for, kind by kind.
pub open spec fn tally(actions: Seq<ActionView>) -> Tally
    decreases actions.len(),
{
    if actions.len() == 0 {
        Tally { configured: 0, built: Seq::empty(), assembled: 0, emitted: 0, aborted: 0 }
    } else {
        let before = tally(actions.drop_last());
        match actions.last() {
            ActionView::Configure { .. } => Tally { configured: before.configured + 1, ..before },
            ActionView::Build { target } => Tally { built: before.built.push(target), ..before },
            ActionView::Assemble { .. } => Tally { assembled: before.assembled + 1, ..before },
            ActionView::Emit { .. } => Tally { emitted: before.emitted + 1, ..before },
            ActionView::Abort { .. } => Tally { aborted: before.aborted + 1, ..before },
            ActionView::Nothing => before,
        }
    }
}

/// The first targets in the order of building, up to and with `target`.
pub open spec fn targets_through(target: Target) -> Seq<Target> {
    Target::sequence().take(target.place() as int + 1)
}

/// Whether a state is where a build can be after it asked for what `done`
/// holds: every step was asked for once and in its turn, and nothing was
/// asked for after a failure.
pub open spec fn in_step(state: StateView, done: Tally) -> bool {
    match state {
        StateView::Idle => done == (Tally {
            configured: 0,
            built: Seq::empty(),
            assembled: 0,
            emitted: 0,
            aborted: 0,
        }),
        StateView::Configuring => done == (Tally {
            configured: 1,
            built: Seq::empty(),
            assembled: 0,
            emitted: 0,
            aborted: 0,
        }),
        StateView::Building { target, known_root } => {
            &&& done == (Tally {
                configured: 1,
                built: targets_through(target),
                assembled: 0,
                emitted: 0,
                aborted: 0,
            })
            &&& known_root is None <==> target == Target::Libc
        },
        StateView::Assembling { .. } => done == (Tally {
            configured: 1,
            built: Target::sequence(),
            assembled: 1,
            emitted: 0,
            aborted: 0,
        }),
        StateView::Finished { .. } => done == (Tally {
            configured: 1,
            built: Target::sequence(),
            assembled: 1,
            emitted: 1,
            aborted: 0,
        }),
        StateView::Failed { error } => match error {
            BuildErrorView::MissingEnvironment { .. } => done == (Tally {
                configured: 0,
                built: Seq::empty(),
                assembled: 0,
                emitted: 0,
                aborted: 1,
            }),
            BuildErrorView::ExternalBuildFailure { target } => done == (Tally {
                configured: 1,
                built: targets_through(target),
                assembled: 0,
                emitted: 0,
                aborted: 1,
            }),
            BuildErrorView::ArchiverFailure { .. } => done == (Tally {
                configured: 1,
                built: Target::sequence(),
                assembled: 1,
                emitted: 0,
                aborted: 1,
            }),
            BuildErrorView::PlaceholderArtifactDrift { .. } => false,
        },
    }
}

proof fn lemma_step_in_step(state: StateView, done: Seq<ActionView>, event: Event)
    requires
        in_step(state, tally(done)),
    ensures
        in_step(step_of(state, event).0, tally(done.push(step_of(state, event).1))),
{
    let next = step_of(state, event);
    assert(done.push(next.1).drop_last() =~= done);
    assert(done.push(next.1).last() == next.1);
    let sequence = Target::sequence();
    assert(sequence.take(1) =~= Seq::<Target>::empty().push(Target::Libc));
    assert(sequence.take(2) =~= sequence.take(1).push(Target::Libm));
    assert(sequence.take(3) =~= sequence.take(2).push(Target::Crt1));
    assert(sequence.take(4) =~= sequence.take(3).push(Target::Crti));
    assert(sequence.take(5) =~= sequence.take(4).push(Target::Crtn));
    assert(sequence.take(5) =~= sequence);
}

/// Whatever happens, and in whatever order it is reported, a build that
/// began at the beginning keeps to its course: CMake is configured once and
/// before any target is built, the targets are asked for in their order and
/// each once, the archiver is run once and only after the last target was
/// built, the linker is told once and only after the archiver succeeded, and
/// after a failure nothing is asked for.
pub proof fn lemma_course(events: Seq<Event>)
    ensures
        in_step(run(StateView::Idle, events).0, tally(run(StateView::Idle, events).1)),
    decreases events.len(),
{
    if events.len() > 0 {
        lemma_course(events.drop_last());
        let before = run(StateView::Idle, events.drop_last());
        lemma_step_in_step(before.0, before.1, events.last());
    }
}

/// A build that has failed or finished stays as it is and asks for nothing
/// more, whatever is reported to it.
pub proof fn lemma_end_is_final(state: StateView, events: Seq<Event>)
    requires
        state is Failed || state is Finished,
    ensures
        run(state, events).0 == state,
        run(state, events).1.len() == events.len(),
        forall|i: int| 0 <= i < events.len() ==> run(state, events).1[i] == ActionView::Nothing,
    decreases events.len(),
{
    if events.len() > 0 {
        lemma_end_is_final(state, events.drop_last());
    }
}

/// A run of events in two parts: the second part begins in the state in
/// which the first part ended, and the actions follow each other.
pub proof fn lemma_run_split(state: StateView, first: Seq<Event>, second: Seq<Event>)
    ensures
        run(state, first + second).0 == run(run(state, first).0, second).0,
        run(state, first + second).1 == run(state, first).1 + run(run(state, first).0, second).1,
    decreases second.len(),
{
    if second.len() == 0 {
        assert(first + second =~= first);
        assert(run(state, first).1 + Seq::<ActionView>::empty() =~= run(state, first).1);
    } else {
        lemma_run_split(state, first, second.drop_last());
        assert((first + second).drop_last() =~= first + second.drop_last());
        assert((first + second).last() == second.last());
        let middle = run(state, first);
        let before = run(middle.0, second.drop_last());
        let last = step_of(before.0, second.last());
        assert(middle.1 + before.1.push(last.1) =~= (middle.1 + before.1).push(last.1));
    }
}

/// The build in which nothing fails, event by event: it is started where the
/// architecture is set, CMake is configured, each of the five targets is
/// built, and the archiver exits with status zero. The build ends finished,
/// below the root that the first target reported, whatever the later targets
/// reported; and what was asked for is one action of each kind in the order
/// of the steps, the archive and the lines for the linker below that root.
pub proof fn lemma_build_without_failure(environment: Environment, roots: Seq<String>)
    requires
        environment.target_arch is Some,
        roots.len() == 5,
    ensures
        ({
            let events = seq![
                Event::Started { environment },
                Event::Configured,
                Event::TargetBuilt { root: roots[0] },
                Event::TargetBuilt { root: roots[1] },
                Event::TargetBuilt { root: roots[2] },
                Event::TargetBuilt { root: roots[3] },
                Event::TargetBuilt { root: roots[4] },
                Event::ArchiverExited { status: Some(0i32) },
            ];
            let root = roots[0]@;
            run(StateView::Idle, events) == (
                StateView::Finished { root },
                seq![
                    ActionView::Configure {
                        exports: environment.pending_exports(),
                        triple: triple_of(environment.target_arch->Some_0@),
                    },
                    ActionView::Build { target: Target::Libc },
                    ActionView::Build { target: Target::Libm },
                    ActionView::Build { target: Target::Crt1 },
                    ActionView::Build { target: Target::Crti },
                    ActionView::Build { target: Target::Crtn },
                    ActionView::Assemble { job: startup_job_of(root) },
                    ActionView::Emit { lines: linkage_of(root) },
                ],
            )
        }),
{
    let e0 = Event::Started { environment };
    let e1 = Event::Configured;
    let e2 = Event::TargetBuilt { root: roots[0] };
    let e3 = Event::TargetBuilt { root: roots[1] };
    let e4 = Event::TargetBuilt { root: roots[2] };
    let e5 = Event::TargetBuilt { root: roots[3] };
    let e6 = Event::TargetBuilt { root: roots[4] };
    let e7 = Event::ArchiverExited { status: Some(0i32) };
    let root = roots[0]@;
    let a0 = ActionView::Configure {
        exports: environment.pending_exports(),
        triple: triple_of(environment.target_arch->Some_0@),
    };
    let a1 = ActionView::Build { target: Target::Libc };
    let a2 = ActionView::Build { target: Target::Libm };
    let a3 = ActionView::Build { target: Target::Crt1 };
    let a4 = ActionView::Build { target: Target::Crti };
    let a5 = ActionView::Build { target: Target::Crtn };
    let a6 = ActionView::Assemble { job: startup_job_of(root) };
    let a7 = ActionView::Emit { lines: linkage_of(root) };
    let none = Seq::<Event>::empty();
    assert(run(StateView::Idle, none) == (StateView::Idle, Seq::<ActionView>::empty()));
    assert(seq![e0].drop_last() =~= none);
    assert(run(StateView::Idle, seq![e0]).0 == StateView::Configuring);
    assert(run(StateView::Idle, seq![e0]).1 =~= seq![a0]);
    assert(seq![e0, e1].drop_last() =~= seq![e0]);
    assert(run(StateView::Idle, seq![e0, e1]).0 == (StateView::Building {
        target: Target::Libc,
        known_root: None,
    }));
    assert(run(StateView::Idle, seq![e0, e1]).1 =~= seq![a0, a1]);
    assert(seq![e0, e1, e2].drop_last() =~= seq![e0, e1]);
    assert(run(StateView::Idle, seq![e0, e1, e2]).0 == (StateView::Building {
        target: Target::Libm,
        known_root: Some(root),
    }));
    assert(run(StateView::Idle, seq![e0, e1, e2]).1 =~= seq![a0, a1, a2]);
    assert(seq![e0, e1, e2, e3].drop_last() =~= seq![e0, e1, e2]);
    assert(run(StateView::Idle, seq![e0, e1, e2, e3]).0 == (StateView::Building {
        target: Target::Crt1,
        known_root: Some(root),
    }));
    assert(run(StateView::Idle, seq![e0, e1, e2, e3]).1 =~= seq![a0, a1, a2, a3]);
    assert(seq![e0, e1, e2, e3, e4].drop_last() =~= seq![e0, e1, e2, e3]);
    assert(run(StateView::Idle, seq![e0, e1, e2, e3, e4]).0 == (StateView::Building {
        target: Target::Crti,
        known_root: Some(root),
    }));
    assert(run(StateView::Idle, seq![e0, e1, e2, e3, e4]).1 =~= seq![a0, a1, a2, a3, a4]);
    assert(seq![e0, e1, e2, e3, e4, e5].drop_last() =~= seq![e0, e1, e2, e3, e4]);
    assert(run(StateView::Idle, seq![e0, e1, e2, e3, e4, e5]).0 == (StateView::Building {
        target: Target::Crtn,
        known_root: Some(root),
    }));
    assert(run(StateView::Idle, seq![e0, e1, e2, e3, e4, e5]).1 =~= seq![a0, a1, a2, a3, a4, a5]);
    assert(seq![e0, e1, e2, e3, e4, e5, e6].drop_last() =~= seq![e0, e1, e2, e3, e4, e5]);
    assert(run(StateView::Idle, seq![e0, e1, e2, e3, e4, e5, e6]).0 == (StateView::Assembling {
        root,
    }));
    assert(run(StateView::Idle, seq![e0, e1, e2, e3, e4, e5, e6]).1 =~= seq![
        a0,
        a1,
        a2,
        a3,
        a4,
        a5,
        a6,
    ]);
    assert(seq![e0, e1, e2, e3, e4, e5, e6, e7].drop_last() =~= seq![e0, e1, e2, e3, e4, e5, e6]);
    assert(run(StateView::Idle, seq![e0, e1, e2, e3, e4, e5, e6, e7]).1 =~= seq![
        a0,
        a1,
        a2,
        a3,
        a4,
        a5,
        a6,
        a7,
    ]);
}

/// Where CMake does not build a target, no later target is asked for, the
/// archiver is not run and the linker is told nothing, whatever is reported
/// afterwards. So a build that fails on the second of its five targets has
/// asked for the first and the second, and for no other.
pub proof fn lemma_failed_target_stops_the_build(events: Seq<Event>, target: Target)
    requires
        run(StateView::Idle, events).0 == (StateView::Failed {
            error: BuildErrorView::ExternalBuildFailure { target },
        }),
    ensures
        tally(run(StateView::Idle, events).1).built == targets_through(target),
        tally(run(StateView::Idle, events).1).assembled == 0,
        tally(run(StateView::Idle, events).1).emitted == 0,
        tally(run(StateView::Idle, events).1).aborted == 1,
        targets_through(Target::Libm) == seq![Target::Libc, Target::Libm],
{
    lemma_course(events);
    assert(targets_through(Target::Libm) =~= seq![Target::Libc, Target::Libm]);
}

/// The build whose second target fails, event by event: it is started where
/// the architecture is set, CMake is configured, the first target is built,
/// the second is not, and then anything at all is reported. The build ends
/// failed on the second target, having asked for the first two targets and
/// never for the archiver.
pub proof fn lemma_second_target_fails(
    environment: Environment,
    root: String,
    later: Seq<Event>,
)
    requires
        environment.target_arch is Some,
    ensures
        ({
            let events = seq![
                Event::Started { environment },
                Event::Configured,
                Event::TargetBuilt { root },
                Event::TargetFailed,
            ] + later;
            let end = run(StateView::Idle, events);
            &&& end.0 == (StateView::Failed {
                error: BuildErrorView::ExternalBuildFailure { target: Target::Libm },
            })
            &&& tally(end.1).built == seq![Target::Libc, Target::Libm]
            &&& tally(end.1).assembled == 0
            &&& tally(end.1).emitted == 0
        }),
{
    let e0 = Event::Started { environment };
    let e1 = Event::Configured;
    let e2 = Event::TargetBuilt { root };
    let e3 = Event::TargetFailed;
    let first = seq![e0, e1, e2, e3];
    let failed_on_libm = StateView::Failed {
        error: BuildErrorView::ExternalBuildFailure { target: Target::Libm },
    };
    let none = Seq::<Event>::empty();
    assert(run(StateView::Idle, none).0 == StateView::Idle);
    assert(seq![e0].drop_last() =~= none);
    assert(run(StateView::Idle, seq![e0]).0 == StateView::Configuring);
    assert(seq![e0, e1].drop_last() =~= seq![e0]);
    assert(run(StateView::Idle, seq![e0, e1]).0 == (StateView::Building {
        target: Target::Libc,
        known_root: None,
    }));
    assert(seq![e0, e1, e2].drop_last() =~= seq![e0, e1]);
    assert(run(StateView::Idle, seq![e0, e1, e2]).0 == (StateView::Building {
        target: Target::Libm,
        known_root: Some(root@),
    }));
    assert(first.drop_last() =~= seq![e0, e1, e2]);
    assert(run(StateView::Idle, first).0 == failed_on_libm);
    lemma_run_split(StateView::Idle, first, later);
    lemma_end_is_final(failed_on_libm, later);
    lemma_failed_target_stops_the_build(first + later, Target::Libm);
}

} // verus!
