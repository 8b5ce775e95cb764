//! The artifact cache: a program is compiled once into an artifact at a
//! path and run from there any number of times.
//!
//! Each path is either unbuilt or built. A build that succeeds makes its
//! path built; running leaves it built; only `forget`, which the host
//! calls when the path was removed from disk, makes it unbuilt again.
//!
//! A build takes the cache exclusively and a run takes it shared, so a
//! build and a run on one cache never overlap: a host that shares a cache
//! between threads puts it behind a lock, and a run that meets a build
//! waits for it. Runs overlap freely.

use vstd::prelude::*;
use crate::error::{ErrorCategory, ErrorKind, ServiceError, ServiceErrorView};
use crate::request::{Artifact, BuildProgramArgs, ExecArtifactArgs};
use crate::text::str_eq;

verus! {

/// How a compilation ended.
#[derive(Clone, Debug, PartialEq, Eq)]
pub enum BuildOutcome {
    /// The artifact is on disk at this resolved path.
    Built(String),
    /// The directory of the artifact cannot be written.
    UnwritableOutput,
    /// The program does not compile; the text says why.
    CompileFailed(String),
}

/// How loading and running an artifact ended.
#[derive(Clone, Debug, PartialEq, Eq)]
pub enum Loaded<T> {
    /// It ran and gave this result.
    Ran(T),
    /// Nothing loadable is at the path.
    Missing,
}

/// The state of a path.
#[derive(Clone, Copy, Debug, PartialEq, Eq, Structural)]
pub enum ArtifactState {
    /// No artifact has been built at the path, or it was removed since.
    Unbuilt,
    /// An artifact has been built at the path and can be run.
    Built,
}

/// The state of `path` when `built` are the built paths.
pub open spec fn spec_state(built: Set<Seq<char>>, path: Seq<char>) -> ArtifactState {
    if built.contains(path) {
        ArtifactState::Built
    } else {
        ArtifactState::Unbuilt
    }
}

/// Something that changes which paths are built.
pub enum ArtifactEvent {
    /// A build put an artifact at the path.
    Built(Seq<char>),
    /// The host reported the path as removed.
    Forgotten(Seq<char>),
}

/// The built paths after an event.
pub open spec fn spec_apply(built: Set<Seq<char>>, event: ArtifactEvent) -> Set<Seq<char>> {
    match event {
        ArtifactEvent::Built(path) => built.insert(path),
        ArtifactEvent::Forgotten(path) => built.remove(path),
    }
}

/// The built paths of a cache that started empty and saw `events`, first
/// event first.
pub open spec fn spec_replay(events: Seq<ArtifactEvent>) -> Set<Seq<char>>
    decreases events.len(),
{
    if events.len() == 0 {
        Set::empty()
    } else {
        spec_apply(spec_replay(events.drop_last()), events.last())
    }
}

/// The failure of a run on a path without artifact.
pub open spec fn spec_missing(path: Seq<char>) -> ServiceErrorView {
    ServiceErrorView { kind: ErrorKind::MissingArtifact, detail: path }
}

/// What a build returns for each way a compilation can end: the artifact
/// at the resolved path, or the failure about the path that was asked
/// for or about what the compiler said.
pub open spec fn spec_build_reply(output: Seq<char>, outcome: BuildOutcome) -> Result<
    Seq<char>,
    ServiceErrorView,
> {
    match outcome {
        BuildOutcome::Built(path) => Ok(path@),
        BuildOutcome::UnwritableOutput => Err(
            ServiceErrorView { kind: ErrorKind::UnwritableOutput, detail: output },
        ),
        BuildOutcome::CompileFailed(why) => Err(
            ServiceErrorView { kind: ErrorKind::CompileFailed, detail: why@ },
        ),
    }
}

/// The built paths after a build that ended in `outcome`.
pub open spec fn spec_build_effect(built: Set<Seq<char>>, outcome: BuildOutcome) -> Set<Seq<char>> {
    match outcome {
        BuildOutcome::Built(path) => spec_apply(built, ArtifactEvent::Built(path@)),
        _ => built,
    }
}

/// The view of what a build returns.
pub open spec fn build_view(reply: Result<Artifact, ServiceError>) -> Result<
    Seq<char>,
    ServiceErrorView,
> {
    match reply {
        Ok(artifact) => Ok(artifact.path@),
        Err(e) => Err(e@),
    }
}

/// What a run returns: the failure for a path without artifact when
/// nothing was loaded (`None`) or nothing loadable was found, else the
/// result of the run as it is.
pub open spec fn spec_exec_reply<T>(path: Seq<char>, loaded: Option<Loaded<T>>) -> Result<
    T,
    ServiceErrorView,
> {
    match loaded {
        Some(Loaded::Ran(result)) => Ok(result),
        Some(Loaded::Missing) => Err(spec_missing(path)),
        None => Err(spec_missing(path)),
    }
}

/// The view of what a run returns.
pub open spec fn exec_view<T>(reply: Result<T, ServiceError>) -> Result<T, ServiceErrorView> {
    match reply {
        Ok(result) => Ok(result),
        Err(e) => Err(e@),
    }
}

/// The paths at which an artifact has been built.
pub struct ArtifactCache {
    built: Vec<String>,
}

impl View for ArtifactCache {
    type V = Set<Seq<char>>;

    /// The built paths.
    closed spec fn view(&self) -> Set<Seq<char>> {
        Set::new(|path: Seq<char>| exists|i: int| 0 <= i < self.built@.len() && self.built@[i]@ == path)
    }
}

impl ArtifactCache {
    /// A cache in which no path is built.
    pub fn new() -> (cache: Self)
        ensures
            cache@ == Set::<Seq<char>>::empty(),
    {
        let cache = ArtifactCache { built: Vec::new() };
        assert(cache@ =~= Set::<Seq<char>>::empty());
        cache
    }

    /// Where `path` is listed.
    fn position(&self, path: &str) -> (found: Option<usize>)
        ensures
            match found {
                Some(i) => i < self.built@.len() && self.built@[i as int]@ == path@,
                None => !self@.contains(path@),
            },
    {
        let mut i: usize = 0;
        while i < self.built.len()
            invariant
                i <= self.built@.len(),
                forall|j: int| 0 <= j < i ==> self.built@[j]@ != path@,
            decreases self.built@.len() - i,
        {
            if str_eq(self.built[i].as_str(), path) {
                return Some(i);
            }
            i += 1;
        }
        None
    }

    /// Whether an artifact has been built at `path`.
    pub fn is_built(&self, path: &str) -> (built: bool)
        ensures
            built == self@.contains(path@),
    {
        self.position(path).is_some()
    }

    /// The state of `path`.
    pub fn state(&self, path: &str) -> (state: ArtifactState)
        ensures
            state == spec_state(self@, path@),
    {
        if self.is_built(path) {
            ArtifactState::Built
        } else {
            ArtifactState::Unbuilt
        }
    }

    /// Builds an artifact.
    ///
    /// `compile` compiles the sources of `args` into a unit at a path
    /// resolved from `args.output`, and this call waits for it. If it
    /// succeeds, the resolved path is built from now on and the artifact
    /// at that path is returned. If it fails, the failure is returned and
    /// the cache is as it was.
    pub fn build_program<C>(&mut self, args: &BuildProgramArgs, compile: C) -> (reply: Result<
        Artifact,
        ServiceError,
    >)
        where
            C: FnOnce(&BuildProgramArgs) -> BuildOutcome,
        requires
            call_requires(compile, (args,)),
        ensures
            exists|outcome: BuildOutcome|
                #![trigger call_ensures(compile, (args,), outcome)]
                call_ensures(compile, (args,), outcome) && build_view(reply) == spec_build_reply(
                    args.output@,
                    outcome,
                ) && final(self)@ == spec_build_effect(old(self)@, outcome),
    {
        let outcome = compile(args);
        let ghost before = self@;
        match outcome {
            BuildOutcome::Built(path) => {
                let ghost seen = BuildOutcome::Built(path);
                if !self.is_built(path.as_str()) {
                    let ghost listed = self.built@;
                    self.built.push(path.clone());
                    assert(self.built@[listed.len() as int]@ == path@);
                    assert forall|p: Seq<char>| before.insert(path@).contains(p) implies self@.contains(
                        p,
                    ) by {
                        if p != path@ {
                            let k = choose|k: int| 0 <= k < listed.len() && listed[k]@ == p;
                            assert(self.built@[k]@ == p);
                        }
                    }
                    assert forall|p: Seq<char>| self@.contains(p) implies before.insert(
                        path@,
                    ).contains(p) by {
                        let k = choose|k: int| 0 <= k < self.built@.len() && self.built@[k]@ == p;
                        if k < listed.len() {
                            assert(listed[k]@ == p);
                        }
                    }
                }
                assert(self@ =~= before.insert(path@));
                assert(call_ensures(compile, (args,), seen));
                Ok(Artifact { path })
            },
            BuildOutcome::UnwritableOutput => {
                assert(call_ensures(compile, (args,), BuildOutcome::UnwritableOutput));
                Err(ServiceError::new(ErrorKind::UnwritableOutput, args.output.as_str()))
            },
            BuildOutcome::CompileFailed(why) => {
                assert(call_ensures(compile, (args,), BuildOutcome::CompileFailed(why)));
                Err(ServiceError { kind: ErrorKind::CompileFailed, detail: why })
            },
        }
    }

    /// Runs an artifact.
    ///
    /// On a path that is not built nothing is loaded and the call fails
    /// with `MissingArtifact` about the path. On a built path `load` loads
    /// the artifact and runs it with the arguments of `args`; its result
    /// is returned as it is. If `load` finds nothing at the path, the call
    /// fails with `MissingArtifact` as well.
    pub fn exec_artifact<T, L>(&self, args: &ExecArtifactArgs, load: L) -> (reply: Result<
        T,
        ServiceError,
    >)
        where
            L: FnOnce(&ExecArtifactArgs) -> Loaded<T>,
        requires
            call_requires(load, (args,)),
        ensures
            !self@.contains(args.path@) ==> exec_view(reply) == spec_exec_reply::<T>(
                args.path@,
                None,
            ),
            self@.contains(args.path@) ==> exists|loaded: Loaded<T>|
                #![trigger call_ensures(load, (args,), loaded)]
                call_ensures(load, (args,), loaded) && exec_view(reply) == spec_exec_reply(
                    args.path@,
                    Some(loaded),
                ),
    {
        if !self.is_built(args.path.as_str()) {
            return Err(ServiceError::new(ErrorKind::MissingArtifact, args.path.as_str()));
        }
        let loaded = load(args);
        match loaded {
            Loaded::Ran(result) => {
                assert(call_ensures(load, (args,), Loaded::Ran(result)));
                Ok(result)
            },
            Loaded::Missing => {
                assert(call_ensures(load, (args,), Loaded::<T>::Missing));
                Err(ServiceError::new(ErrorKind::MissingArtifact, args.path.as_str()))
            },
        }
    }

    /// Takes note that `path` was removed from disk: it is unbuilt from
    /// now on. Says whether it was built.
    pub fn forget(&mut self, path: &str) -> (was_built: bool)
        ensures
            was_built == old(self)@.contains(path@),
            final(self)@ == spec_apply(old(self)@, ArtifactEvent::Forgotten(path@)),
    {
        let ghost before = self@;
        let mut was_built = false;
        let mut i: usize = 0;
        while i < self.built.len()
            invariant
                i <= self.built@.len(),
                forall|j: int| 0 <= j < i ==> self.built@[j]@ != path@,
                forall|p: Seq<char>| p != path@ ==> (self@.contains(p) <==> before.contains(p)),
                was_built ==> before.contains(path@),
                !was_built ==> (self@.contains(path@) <==> before.contains(path@)),
            decreases self.built@.len() - i,
        {
            if str_eq(self.built[i].as_str(), path) {
                let ghost listed = self.built@;
                let ghost mid = self@;
                assert(mid.contains(path@));
                self.built.remove(i);
                assert forall|p: Seq<char>| p != path@ implies (self@.contains(p) <==> mid.contains(
                    p,
                )) by {
                    if self@.contains(p) {
                        let k = choose|k: int| 0 <= k < self.built@.len() && self.built@[k]@ == p;
                        if k < i {
                            assert(listed[k]@ == p);
                        } else {
                            assert(listed[k + 1]@ == p);
                        }
                    }
                    if mid.contains(p) {
                        let k = choose|k: int| 0 <= k < listed.len() && listed[k]@ == p;
                        if k < i {
                            assert(self.built@[k]@ == p);
                        } else {
                            assert(self.built@[k - 1]@ == p);
                        }
                    }
                }
                was_built = true;
            } else {
                i += 1;
            }
        }
        assert(self@ =~= before.remove(path@));
        was_built
    }
}

/// The state machine of a path: a build that is resolved to it makes it
/// built, its removal makes it unbuilt, and nothing that happens to
/// another path changes its state.
pub proof fn lemma_events_change_one_path(
    built: Set<Seq<char>>,
    event: ArtifactEvent,
    path: Seq<char>,
)
    ensures
        spec_state(spec_apply(built, event), path) == match event {
            ArtifactEvent::Built(p) => if p == path {
                ArtifactState::Built
            } else {
                spec_state(built, path)
            },
            ArtifactEvent::Forgotten(p) => if p == path {
                ArtifactState::Unbuilt
            } else {
                spec_state(built, path)
            },
        },
{
}

/// A path that no build has been resolved to is unbuilt, whatever else
/// the cache has seen.
pub proof fn lemma_unbuilt_without_build(events: Seq<ArtifactEvent>, path: Seq<char>)
    requires
        forall|i: int| 0 <= i < events.len() ==> events[i] != ArtifactEvent::Built(path),
    ensures
        !spec_replay(events).contains(path),
    decreases events.len(),
{
    if events.len() > 0 {
        lemma_unbuilt_without_build(events.drop_last(), path);
    }
}

/// A run on a path where nothing was ever built is refused with a failure
/// of the resource family about that path. Nothing is loaded for it, so
/// the reply is a value and never a fault, whatever is on disk.
pub proof fn lemma_run_without_build_is_a_resource_error<T>(
    events: Seq<ArtifactEvent>,
    path: Seq<char>,
)
    requires
        forall|i: int| 0 <= i < events.len() ==> events[i] != ArtifactEvent::Built(path),
    ensures
        !spec_replay(events).contains(path),
        spec_exec_reply::<T>(path, None) matches Err(e) && e.detail == path
            && e.kind.spec_category() == ErrorCategory::Resource,
{
    lemma_unbuilt_without_build(events, path);
}

} // verus!
