//! The environment cache: resolving an identity to a directory and, on a
//! miss, driving the build pipeline one external operation at a time.
//!
//! The caller performs each [`Action`] and reports back whether it
//! succeeded; the resolver decides what comes next. Whenever a build fails
//! after its directory was created, the last thing asked of the caller is to
//! remove that directory, so a directory that exists is always complete.

use vstd::prelude::*;

verus! {

/// Which file decides the environment's dependencies.
#[derive(Clone, Copy, Debug, PartialEq, Eq, Structural)]
pub enum Source {
    /// The human-edited manifest: its dependency list is written out as an
    /// install manifest first.
    Manifest,
    /// The generated lockfile: it is installed from directly, by absolute path.
    Lockfile,
}

/// An operation that the caller performs for the resolver.
#[derive(Clone, Copy, Debug, PartialEq, Eq, Structural)]
pub enum Action {
    /// Check whether the environment directory exists; report `true` if so.
    CheckCache,
    /// Create the environment directory.
    CreateDir,
    /// Ask the engine to create a runtime of the requested version inside it.
    CreateRuntime,
    /// Write the manifest's dependencies to a temporary install manifest.
    WriteInstallManifest,
    /// Resolve the lockfile's absolute path.
    LocateLockfile,
    /// Ask the engine to install from the install manifest or lockfile.
    Install,
    /// Remove the temporary install manifest (best effort).
    RemoveInstallManifest,
    /// Remove the environment directory recursively (best effort).
    RemoveDir,
    /// Nothing more to do: the outcome is final.
    Stop,
}

/// The step of the pipeline at which a build failed.
#[derive(Clone, Copy, Debug, PartialEq, Eq, Structural)]
pub enum BuildFailure {
    CreateDir,
    CreateRuntime,
    PrepareInstall,
    Install,
}

/// How a resolution ended.
#[derive(Clone, Copy, Debug, PartialEq, Eq, Structural)]
pub enum Outcome {
    /// The directory already existed and is used as it is.
    Hit,
    /// The environment was built.
    Built,
    /// The build failed and its directory was removed.
    Failed(BuildFailure),
}

/// Where the resolver stands.
#[derive(Clone, Copy, Debug, PartialEq, Eq, Structural)]
pub enum Phase {
    Probing,
    Creating,
    MakingRuntime,
    Preparing,
    Installing,
    ClearingTemp { install_failed: bool },
    Removing(BuildFailure),
    Finished(Outcome),
}

/// The next phase and action after `ok` was reported in `phase`.
pub open spec fn transition(source: Source, phase: Phase, ok: bool) -> (Phase, Action) {
    match phase {
        Phase::Probing => if ok {
            (Phase::Finished(Outcome::Hit), Action::Stop)
        } else {
            (Phase::Creating, Action::CreateDir)
        },
        Phase::Creating => if ok {
            (Phase::MakingRuntime, Action::CreateRuntime)
        } else {
            (Phase::Removing(BuildFailure::CreateDir), Action::RemoveDir)
        },
        Phase::MakingRuntime => if !ok {
            (Phase::Removing(BuildFailure::CreateRuntime), Action::RemoveDir)
        } else if source == Source::Manifest {
            (Phase::Preparing, Action::WriteInstallManifest)
        } else {
            (Phase::Preparing, Action::LocateLockfile)
        },
        Phase::Preparing => if ok {
            (Phase::Installing, Action::Install)
        } else {
            (Phase::Removing(BuildFailure::PrepareInstall), Action::RemoveDir)
        },
        Phase::Installing => if source == Source::Manifest {
            (Phase::ClearingTemp { install_failed: !ok }, Action::RemoveInstallManifest)
        } else if ok {
            (Phase::Finished(Outcome::Built), Action::Stop)
        } else {
            (Phase::Removing(BuildFailure::Install), Action::RemoveDir)
        },
        Phase::ClearingTemp { install_failed } => if install_failed {
            (Phase::Removing(BuildFailure::Install), Action::RemoveDir)
        } else {
            (Phase::Finished(Outcome::Built), Action::Stop)
        },
        Phase::Removing(failure) => (Phase::Finished(Outcome::Failed(failure)), Action::Stop),
        Phase::Finished(outcome) => (Phase::Finished(outcome), Action::Stop),
    }
}

/// Resolves one environment identity: a hit, or a build of it.
pub struct Resolver {
    pub source: Source,
    pub phase: Phase,
}

impl Resolver {
    /// A resolver for an environment whose dependencies come from `source`,
    /// with the first action to perform: checking the cache.
    pub fn start(source: Source) -> (r: (Resolver, Action))
        ensures
            r.0.source == source,
            r.0.phase == Phase::Probing,
            r.1 == Action::CheckCache,
    {
        (Resolver { source, phase: Phase::Probing }, Action::CheckCache)
    }

    /// Records whether the last action succeeded (for [`Action::CheckCache`]:
    /// whether the directory exists) and returns the next action.
    pub fn advance(&mut self, ok: bool) -> (a: Action)
        ensures
            final(self).source == old(self).source,
            (final(self).phase, a) == transition(old(self).source, old(self).phase, ok),
    {
        let (phase, action) = match self.phase {
            Phase::Probing => if ok {
                (Phase::Finished(Outcome::Hit), Action::Stop)
            } else {
                (Phase::Creating, Action::CreateDir)
            },
            Phase::Creating => if ok {
                (Phase::MakingRuntime, Action::CreateRuntime)
            } else {
                (Phase::Removing(BuildFailure::CreateDir), Action::RemoveDir)
            },
            Phase::MakingRuntime => if !ok {
                (Phase::Removing(BuildFailure::CreateRuntime), Action::RemoveDir)
            } else if self.source == Source::Manifest {
                (Phase::Preparing, Action::WriteInstallManifest)
            } else {
                (Phase::Preparing, Action::LocateLockfile)
            },
            Phase::Preparing => if ok {
                (Phase::Installing, Action::Install)
            } else {
                (Phase::Removing(BuildFailure::PrepareInstall), Action::RemoveDir)
            },
            Phase::Installing => if self.source == Source::Manifest {
                (Phase::ClearingTemp { install_failed: !ok }, Action::RemoveInstallManifest)
            } else if ok {
                (Phase::Finished(Outcome::Built), Action::Stop)
            } else {
                (Phase::Removing(BuildFailure::Install), Action::RemoveDir)
            },
            Phase::ClearingTemp { install_failed } => if install_failed {
                (Phase::Removing(BuildFailure::Install), Action::RemoveDir)
            } else {
                (Phase::Finished(Outcome::Built), Action::Stop)
            },
            Phase::Removing(failure) => (Phase::Finished(Outcome::Failed(failure)), Action::Stop),
            Phase::Finished(outcome) => (Phase::Finished(outcome), Action::Stop),
        };
        self.phase = phase;
        action
    }

    /// The final outcome, once the resolver has stopped.
    pub fn outcome(&self) -> (r: Option<Outcome>)
        ensures
            r == (match self.phase {
                Phase::Finished(o) => Some(o),
                _ => None,
            }),
    {
        match self.phase {
            Phase::Finished(o) => Some(o),
            _ => None,
        }
    }
}

impl BuildFailure {
    /// A one-line description of the failed step.
    pub fn describe(&self) -> (r: &'static str)
        ensures
            r@ == failure_text(*self),
    {
        match self {
            BuildFailure::CreateDir => "Failed to create environment directory",
            BuildFailure::CreateRuntime => "Failed to create venv",
            BuildFailure::PrepareInstall => "Failed to prepare install manifest",
            BuildFailure::Install => "Failed to install dependencies",
        }
    }
}

pub open spec fn failure_text(f: BuildFailure) -> Seq<char> {
    match f {
        BuildFailure::CreateDir => "Failed to create environment directory"@,
        BuildFailure::CreateRuntime => "Failed to create venv"@,
        BuildFailure::PrepareInstall => "Failed to prepare install manifest"@,
        BuildFailure::Install => "Failed to install dependencies"@,
    }
}

/// The phase reached and every action asked for, when the results of the
/// actions are `events` in order.
pub open spec fn run(source: Source, events: Seq<bool>) -> (Phase, Seq<Action>)
    decreases events.len(),
{
    if events.len() == 0 {
        (Phase::Probing, seq![Action::CheckCache])
    } else {
        let (phase, actions) = run(source, events.drop_last());
        let (next, action) = transition(source, phase, events.last());
        (next, actions.push(action))
    }
}

/// Whether, after `actions`, the environment directory was created by them
/// and not removed again.
pub open spec fn dir_left(actions: Seq<Action>) -> bool
    decreases actions.len(),
{
    if actions.len() == 0 {
        false
    } else if actions.last() == Action::CreateDir {
        true
    } else if actions.last() == Action::RemoveDir {
        false
    } else {
        dir_left(actions.drop_last())
    }
}

/// Whether `actions` touch nothing but the cache check.
pub open spec fn no_build(actions: Seq<Action>) -> bool {
    forall|i: int|
        0 <= i < actions.len() ==> (#[trigger] actions[i] == Action::CheckCache || actions[i]
            == Action::Stop)
}

pub open spec fn phase_consistent(phase: Phase, actions: Seq<Action>) -> bool {
    match phase {
        Phase::Probing => !dir_left(actions) && no_build(actions),
        Phase::Finished(Outcome::Hit) => !dir_left(actions) && no_build(actions),
        Phase::Removing(_) => !dir_left(actions),
        Phase::Finished(Outcome::Failed(_)) => !dir_left(actions),
        Phase::Finished(Outcome::Built) => dir_left(actions),
        _ => dir_left(actions),
    }
}

proof fn lemma_run_consistent(source: Source, events: Seq<bool>)
    ensures
        phase_consistent(run(source, events).0, run(source, events).1),
    decreases events.len(),
{
    if events.len() == 0 {
        let first = seq![Action::CheckCache];
        assert(first.drop_last() =~= Seq::<Action>::empty());
        assert(first.last() == Action::CheckCache);
        assert(!dir_left(Seq::<Action>::empty()));
        assert(!dir_left(first));
        assert(run(source, events) == (Phase::Probing, first));
        assert(no_build(first));
    } else {
        lemma_run_consistent(source, events.drop_last());
        let (phase, actions) = run(source, events.drop_last());
        let (next, action) = transition(source, phase, events.last());
        let all = actions.push(action);
        assert(all.drop_last() == actions);
        if no_build(actions) && (action == Action::Stop || action == Action::CheckCache) {
            assert forall|i: int| 0 <= i < all.len() implies (#[trigger] all[i]
                == Action::CheckCache || all[i] == Action::Stop) by {
                if i < actions.len() {
                    assert(all[i] == actions[i]);
                }
            }
        }
        assert(run(source, events) == (next, all));
        assert(dir_left(all) == (action == Action::CreateDir || (action != Action::RemoveDir
            && dir_left(actions))));
        assert(phase_consistent(next, all));
    }
}

/// After a failed build the environment directory does not exist: every run
/// that ends in failure has, as its last directory operation, removed the
/// directory (or never created it).
pub proof fn lemma_failed_build_leaves_no_dir(source: Source, events: Seq<bool>)
    requires
        run(source, events).0 matches Phase::Finished(Outcome::Failed(_)),
    ensures
        !dir_left(run(source, events).1),
{
    lemma_run_consistent(source, events);
}

/// A finished build leaves its directory in place.
pub proof fn lemma_built_leaves_dir(source: Source, events: Seq<bool>)
    requires
        run(source, events).0 == Phase::Finished(Outcome::Built),
    ensures
        dir_left(run(source, events).1),
{
    lemma_run_consistent(source, events);
}

/// Once a build has succeeded its directory exists, and resolving the same
/// identity again is a hit that asks for no build operation at all.
pub proof fn lemma_resolve_after_build_hits(source: Source, events: Seq<bool>)
    requires
        events.len() > 0,
        events[0],
    ensures
        run(source, events).0 == Phase::Finished(Outcome::Hit),
        no_build(run(source, events).1),
    decreases events.len(),
{
    lemma_run_consistent(source, events);
    if events.len() == 1 {
        assert(events.drop_last().len() == 0);
    } else {
        lemma_resolve_after_build_hits(source, events.drop_last());
    }
}

} // verus!
