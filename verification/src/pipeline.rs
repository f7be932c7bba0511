//! The install pipeline: fetch the build recipe, build, locate the build
//! artifact, install it with elevation.
//!
//! The pipeline is a state machine.  The surrounding binary asks
//! [`Pipeline::next_action`] for the next piece of outside work — an
//! existence check, a clone, a subprocess, a pattern enumeration — performs
//! it, and reports what happened through [`Pipeline::step`].  Every decision
//! — which stage follows which, what a non-zero exit status means, which
//! matched file is installed — is made here and verified against the
//! transition relation [`next_state`].

use vstd::prelude::*;
use crate::aur::Aur;
use crate::errors::AurError;
use crate::errors::Stage;

verus! {

/// Outside work the pipeline asks the surrounding binary to do.
pub enum Action {
    /// Look whether the package's source directory exists.
    CheckSource { dir: String },
    /// Clone the build recipe at `url` into `dest`.
    CloneRepo { url: String, dest: String },
    /// Run the build tool in `dir` with its sync-dependencies-and-build
    /// argument; verbose inherits the terminal, quiet captures the output.
    RunBuild { dir: String, verbose: bool },
    /// Enumerate the files matching `pattern`.
    FindArtifacts { pattern: String },
    /// Run the elevated install tool on `artifact` with its no-confirm flag.
    RunInstall { artifact: String, verbose: bool },
}

/// What the surrounding binary reports back after performing an action.
pub enum Event {
    /// Whether the source directory already exists.
    SourceChecked { exists: bool },
    /// Whether the clone succeeded; `detail` carries the failure message.
    CloneFinished { ok: bool, detail: String },
    /// Whether the build tool exited with status zero.
    BuildFinished { exit_ok: bool, detail: String },
    /// The files the artifact pattern matched, in enumeration order.
    ArtifactsFound { matches: Vec<String> },
    /// Whether the elevated install tool exited with status zero.
    InstallFinished { exit_ok: bool, detail: String },
}

/// Where the pipeline stands.
pub enum PipelineState {
    /// Waiting to hear whether the source directory exists.
    CheckingSource,
    /// Waiting for the clone.
    CloningSource,
    /// Waiting for the build.
    Building,
    /// Waiting for the artifact enumeration.
    LocatingArtifact,
    /// Waiting for the elevated install of `artifact`.
    Installing { artifact: String },
    /// Every stage completed.
    Done,
    /// The pipeline stopped at `stage` and will not move again.
    Failed { stage: Stage, reason: String },
}

/// The pipeline's state, abstractly: paths and messages as character
/// sequences.
pub enum StateModel {
    CheckingSource,
    CloningSource,
    Building,
    LocatingArtifact,
    Installing { artifact: Seq<char> },
    Done,
    Failed { stage: Stage, reason: Seq<char> },
}

impl PipelineState {
    /// The abstract state this state stands for.
    pub open spec fn model(self) -> StateModel {
        match self {
            PipelineState::CheckingSource => StateModel::CheckingSource,
            PipelineState::CloningSource => StateModel::CloningSource,
            PipelineState::Building => StateModel::Building,
            PipelineState::LocatingArtifact => StateModel::LocatingArtifact,
            PipelineState::Installing { artifact } => StateModel::Installing {
                artifact: artifact@,
            },
            PipelineState::Done => StateModel::Done,
            PipelineState::Failed { stage, reason } => StateModel::Failed {
                stage,
                reason: reason@,
            },
        }
    }
}

/// An event, abstractly.
pub enum EventModel {
    SourceChecked { exists: bool },
    CloneFinished { ok: bool, detail: Seq<char> },
    BuildFinished { exit_ok: bool, detail: Seq<char> },
    ArtifactsFound { matches: Seq<Seq<char>> },
    InstallFinished { exit_ok: bool, detail: Seq<char> },
}

impl Event {
    /// The abstract event this event stands for.
    pub open spec fn model(self) -> EventModel {
        match self {
            Event::SourceChecked { exists } => EventModel::SourceChecked { exists },
            Event::CloneFinished { ok, detail } => EventModel::CloneFinished {
                ok,
                detail: detail@,
            },
            Event::BuildFinished { exit_ok, detail } => EventModel::BuildFinished {
                exit_ok,
                detail: detail@,
            },
            Event::ArtifactsFound { matches } => EventModel::ArtifactsFound {
                matches: matches@.map_values(|s: String| s@),
            },
            Event::InstallFinished { exit_ok, detail } => EventModel::InstallFinished {
                exit_ok,
                detail: detail@,
            },
        }
    }
}

/// The artifact a finished build hands to the install stage: the last file
/// the pattern matched in enumeration order, or the empty path when nothing
/// matched.
pub open spec fn selected_artifact(matches: Seq<Seq<char>>) -> Seq<char> {
    if matches.len() == 0 {
        Seq::empty()
    } else {
        matches.last()
    }
}

/// The transition relation of the pipeline: the state after `event` arrives
/// in `state`.  `Done` and `Failed` are terminal, and an event that does not
/// belong to the state leaves the state as it is.
pub open spec fn next_state(state: StateModel, event: EventModel) -> StateModel {
    match state {
        StateModel::CheckingSource => match event {
            EventModel::SourceChecked { exists } => if exists {
                StateModel::Building
            } else {
                StateModel::CloningSource
            },
            _ => state,
        },
        StateModel::CloningSource => match event {
            EventModel::CloneFinished { ok, detail } => if ok {
                StateModel::Building
            } else {
                StateModel::Failed { stage: Stage::Fetching, reason: detail }
            },
            _ => state,
        },
        StateModel::Building => match event {
            EventModel::BuildFinished { exit_ok, detail } => if exit_ok {
                StateModel::LocatingArtifact
            } else {
                StateModel::Failed { stage: Stage::Building, reason: detail }
            },
            _ => state,
        },
        StateModel::LocatingArtifact => match event {
            EventModel::ArtifactsFound { matches } => StateModel::Installing {
                artifact: selected_artifact(matches),
            },
            _ => state,
        },
        StateModel::Installing { .. } => match event {
            EventModel::InstallFinished { exit_ok, detail } => if exit_ok {
                StateModel::Done
            } else {
                StateModel::Failed { stage: Stage::Installing, reason: detail }
            },
            _ => state,
        },
        StateModel::Done => state,
        StateModel::Failed { .. } => state,
    }
}

/// One run of the install pipeline for one package.
pub struct Pipeline {
    pub package_name: String,
    pub verbose: bool,
    /// The package's source directory in the local store.
    pub source_dir: String,
    /// Where the build recipe is cloned from.
    pub clone_url: String,
    /// The pattern the build artifact is found by.
    pub artifact_pattern: String,
    pub state: PipelineState,
}

/// An action, abstractly.
pub enum ActionModel {
    CheckSource { dir: Seq<char> },
    CloneRepo { url: Seq<char>, dest: Seq<char> },
    RunBuild { dir: Seq<char>, verbose: bool },
    FindArtifacts { pattern: Seq<char> },
    RunInstall { artifact: Seq<char>, verbose: bool },
}

impl Action {
    /// The abstract action this action stands for.
    pub open spec fn model(self) -> ActionModel {
        match self {
            Action::CheckSource { dir } => ActionModel::CheckSource { dir: dir@ },
            Action::CloneRepo { url, dest } => ActionModel::CloneRepo { url: url@, dest: dest@ },
            Action::RunBuild { dir, verbose } => ActionModel::RunBuild { dir: dir@, verbose },
            Action::FindArtifacts { pattern } => ActionModel::FindArtifacts { pattern: pattern@ },
            Action::RunInstall { artifact, verbose } => ActionModel::RunInstall {
                artifact: artifact@,
                verbose,
            },
        }
    }
}

/// The outside work each state waits for; none once the pipeline is done or
/// failed.
pub open spec fn next_action_model(p: Pipeline) -> Option<ActionModel> {
    match p.state.model() {
        StateModel::CheckingSource => Some(ActionModel::CheckSource { dir: p.source_dir@ }),
        StateModel::CloningSource => Some(
            ActionModel::CloneRepo { url: p.clone_url@, dest: p.source_dir@ },
        ),
        StateModel::Building => Some(
            ActionModel::RunBuild { dir: p.source_dir@, verbose: p.verbose },
        ),
        StateModel::LocatingArtifact => Some(
            ActionModel::FindArtifacts { pattern: p.artifact_pattern@ },
        ),
        StateModel::Installing { artifact } => Some(
            ActionModel::RunInstall { artifact, verbose: p.verbose },
        ),
        StateModel::Done => None,
        StateModel::Failed { .. } => None,
    }
}

/// The abstraction of a returned action.
pub open spec fn opt_action_model(r: Option<Action>) -> Option<ActionModel> {
    match r {
        Some(a) => Some(a.model()),
        None => None,
    }
}

/// The error reported for a failure at a stage: clone failures stop the
/// fetch, build failures the build, install failures everything after it.
/// (Locating the artifact never fails — an empty enumeration proceeds with
/// an empty path — but the mapping is total.)
pub open spec fn error_fits_stage(stage: Stage, reason: Seq<char>, e: AurError) -> bool {
    match stage {
        Stage::Fetching => e matches AurError::CloneError { detail } && detail@ == reason,
        Stage::Building => e matches AurError::BuildError { detail } && detail@ == reason,
        Stage::LocatingArtifact => e matches AurError::InstallError { detail } && detail@ == reason,
        Stage::Installing => e matches AurError::InstallError { detail } && detail@ == reason,
    }
}

impl Pipeline {
    /// The next piece of outside work, or None once the pipeline has
    /// finished, well or badly.
    pub fn next_action(&self) -> (r: Option<Action>)
        ensures
            opt_action_model(r) == next_action_model(*self),
    {
        match &self.state {
            PipelineState::CheckingSource => Some(
                Action::CheckSource { dir: self.source_dir.clone() },
            ),
            PipelineState::CloningSource => Some(
                Action::CloneRepo { url: self.clone_url.clone(), dest: self.source_dir.clone() },
            ),
            PipelineState::Building => Some(
                Action::RunBuild { dir: self.source_dir.clone(), verbose: self.verbose },
            ),
            PipelineState::LocatingArtifact => Some(
                Action::FindArtifacts { pattern: self.artifact_pattern.clone() },
            ),
            PipelineState::Installing { artifact } => Some(
                Action::RunInstall { artifact: artifact.clone(), verbose: self.verbose },
            ),
            PipelineState::Done => None,
            PipelineState::Failed { .. } => None,
        }
    }

    /// Advance on what the surrounding binary reports.  The new state is the
    /// transition relation applied to the old; everything else about the
    /// pipeline stands still.
    pub fn step(&mut self, event: Event)
        ensures
            final(self).state.model() == next_state(old(self).state.model(), event.model()),
            final(self).package_name@ == old(self).package_name@,
            final(self).verbose == old(self).verbose,
            final(self).source_dir@ == old(self).source_dir@,
            final(self).clone_url@ == old(self).clone_url@,
            final(self).artifact_pattern@ == old(self).artifact_pattern@,
    {
        match &self.state {
            PipelineState::CheckingSource => match event {
                Event::SourceChecked { exists } => {
                    if exists {
                        self.state = PipelineState::Building;
                    } else {
                        self.state = PipelineState::CloningSource;
                    }
                },
                _ => {},
            },
            PipelineState::CloningSource => match event {
                Event::CloneFinished { ok, detail } => {
                    if ok {
                        self.state = PipelineState::Building;
                    } else {
                        self.state = PipelineState::Failed {
                            stage: Stage::Fetching,
                            reason: detail,
                        };
                    }
                },
                _ => {},
            },
            PipelineState::Building => match event {
                Event::BuildFinished { exit_ok, detail } => {
                    if exit_ok {
                        self.state = PipelineState::LocatingArtifact;
                    } else {
                        self.state = PipelineState::Failed {
                            stage: Stage::Building,
                            reason: detail,
                        };
                    }
                },
                _ => {},
            },
            PipelineState::LocatingArtifact => match event {
                Event::ArtifactsFound { matches } => {
                    let artifact = select_artifact(&matches);
                    self.state = PipelineState::Installing { artifact };
                },
                _ => {},
            },
            PipelineState::Installing { .. } => match event {
                Event::InstallFinished { exit_ok, detail } => {
                    if exit_ok {
                        self.state = PipelineState::Done;
                    } else {
                        self.state = PipelineState::Failed {
                            stage: Stage::Installing,
                            reason: detail,
                        };
                    }
                },
                _ => {},
            },
            PipelineState::Done => {},
            PipelineState::Failed { .. } => {},
        }
    }

    /// The error a failed pipeline reports; None while nothing has failed.
    pub fn failure(&self) -> (r: Option<AurError>)
        ensures
            self.state is Failed <==> r is Some,
            self.state matches PipelineState::Failed { stage, reason } ==> (r matches Some(e)
                && error_fits_stage(stage, reason@, e)),
    {
        match &self.state {
            PipelineState::Failed { stage, reason } => {
                let detail = reason.clone();
                match stage {
                    Stage::Fetching => Some(AurError::CloneError { detail }),
                    Stage::Building => Some(AurError::BuildError { detail }),
                    Stage::LocatingArtifact => Some(AurError::InstallError { detail }),
                    Stage::Installing => Some(AurError::InstallError { detail }),
                }
            },
            _ => None,
        }
    }
}

/// The artifact path handed to the install stage: the last file the pattern
/// matched, or the empty path when nothing matched.
pub fn select_artifact(matches: &Vec<String>) -> (r: String)
    ensures
        r@ == selected_artifact(matches@.map_values(|s: String| s@)),
{
    if matches.len() == 0 {
        let r = String::new();
        proof {
            assert(matches@.map_values(|s: String| s@).len() == 0);
        }
        r
    } else {
        let last = &matches[matches.len() - 1];
        let r = String::from_str(last.as_str());
        proof {
            let mapped = matches@.map_values(|s: String| s@);
            assert(mapped.last() == matches@.last()@);
        }
        r
    }
}

impl Aur {
    /// Decide the Fetching stage on its own: an existing source directory
    /// means there is nothing to clone — a no-op, not an error; an absent
    /// one yields the single clone of `<clone_base_url><package_name>.git`
    /// into the package's source directory.
    pub fn clone_package(&self, data_local_dir: &str, package_name: &str, dir_exists: bool) -> (r:
        Option<Action>)
        ensures
            (r is Some) == fetch_clones(dir_exists),
            dir_exists ==> r is None,
            !dir_exists ==> (r matches Some(a) && a matches Action::CloneRepo { url, dest }
                && url@ == self.config.clone_base_url@ + package_name@ + ".git"@
                && dest@ == self.package_path_spec(data_local_dir@, package_name@)),
    {
        if dir_exists {
            None
        } else {
            let mut url = String::from_str(self.config.clone_base_url.as_str());
            url.append(package_name);
            url.append(".git");
            let dest = self.package_path(data_local_dir, package_name);
            proof {
                assert(url@ =~= self.config.clone_base_url@ + package_name@ + ".git"@);
            }
            Some(Action::CloneRepo { url, dest })
        }
    }

    /// Judge the build: exit status zero and nothing else lets the pipeline
    /// go on; any other exit is a `BuildError` carrying the tool's message.
    pub fn makepkg(&self, exit_ok: bool, detail: String) -> (r: Result<(), AurError>)
        ensures
            exit_ok <==> r is Ok,
            !exit_ok ==> (r matches Err(e) && e matches AurError::BuildError { detail: d } && d@
                == detail@),
    {
        if exit_ok {
            Ok(())
        } else {
            Err(AurError::BuildError { detail })
        }
    }

    /// Judge the elevated install: a non-zero exit is an `InstallError`
    /// carrying the tool's message, in verbose and quiet mode alike.
    pub fn pacman_install(&self, exit_ok: bool, detail: String) -> (r: Result<(), AurError>)
        ensures
            exit_ok <==> r is Ok,
            !exit_ok ==> (r matches Err(e) && e matches AurError::InstallError { detail: d } && d@
                == detail@),
    {
        if exit_ok {
            Ok(())
        } else {
            Err(AurError::InstallError { detail })
        }
    }

    /// Begin the install pipeline for a package.  The clone URL, source
    /// directory and artifact pattern are fixed here once, and the pipeline
    /// starts by asking whether the source is already fetched.
    pub fn install_package(&self, data_local_dir: &str, package_name: &str, verbose: bool) -> (p:
        Pipeline)
        ensures
            p.package_name@ == package_name@,
            p.verbose == verbose,
            p.source_dir@ == self.package_path_spec(data_local_dir@, package_name@),
            p.clone_url@ == self.config.clone_base_url@ + package_name@ + ".git"@,
            p.artifact_pattern@ == self.package_path_spec(data_local_dir@, package_name@) + "/"@
                + package_name@ + "-*.pkg.tar.xz"@,
            p.state is CheckingSource,
    {
        let source_dir = self.package_path(data_local_dir, package_name);
        let mut clone_url = String::from_str(self.config.clone_base_url.as_str());
        clone_url.append(package_name);
        clone_url.append(".git");
        let mut artifact_pattern = String::from_str(source_dir.as_str());
        artifact_pattern.append("/");
        artifact_pattern.append(package_name);
        artifact_pattern.append("-*.pkg.tar.xz");
        proof {
            assert(clone_url@ =~= self.config.clone_base_url@ + package_name@ + ".git"@);
            assert(artifact_pattern@ =~= self.package_path_spec(data_local_dir@, package_name@)
                + "/"@ + package_name@ + "-*.pkg.tar.xz"@);
        }
        Pipeline {
            package_name: package_name.to_owned(),
            verbose,
            source_dir,
            clone_url,
            artifact_pattern,
            state: PipelineState::CheckingSource,
        }
    }
}

/// Whether the Fetching stage performs a clone, given whether the package's
/// source directory already exists: the decision `clone_package` makes.
pub open spec fn fetch_clones(dir_exists: bool) -> bool {
    !dir_exists
}

/// The local store's directories after one fetch of a package: a clone is
/// performed only when the package's directory is absent, and a performed
/// clone creates that directory.
pub open spec fn store_after_fetch(dirs: Set<Seq<char>>, dir: Seq<char>) -> Set<Seq<char>> {
    if dirs.contains(dir) {
        dirs
    } else {
        dirs.insert(dir)
    }
}

/// Fetching twice in sequence performs at most one clone, whatever the
/// store held before: after the first fetch the package's directory exists,
/// so the second fetch performs no clone — a no-op, and (by
/// `clone_package`'s contract) not an error.
pub proof fn lemma_fetch_twice_clones_once(dirs: Set<Seq<char>>, dir: Seq<char>)
    ensures
        store_after_fetch(dirs, dir).contains(dir),
        !fetch_clones(store_after_fetch(dirs, dir).contains(dir)),
        store_after_fetch(store_after_fetch(dirs, dir), dir) == store_after_fetch(dirs, dir),
{
}

/// A build that exited with status zero.
pub open spec fn is_successful_build(e: EventModel) -> bool {
    e matches EventModel::BuildFinished { exit_ok, .. } && exit_ok
}

/// The states at or before the build, and the terminal failure: from these,
/// only a successful build leads anywhere further.
pub open spec fn before_artifacts(s: StateModel) -> bool {
    ||| s is CheckingSource
    ||| s is CloningSource
    ||| s is Building
    ||| s is Failed
}

/// The state after a sequence of events.
pub open spec fn run(s: StateModel, events: Seq<EventModel>) -> StateModel
    decreases events.len(),
{
    if events.len() == 0 {
        s
    } else {
        run(next_state(s, events[0]), events.drop_first())
    }
}

/// A build-stage failure prevents the install stage from ever starting:
/// however a run goes on, while no build has exited with status zero the
/// pipeline reaches neither `Installing` nor `Done` — so no install is ever
/// asked for.
pub proof fn lemma_build_gate(s: StateModel, events: Seq<EventModel>)
    requires
        before_artifacts(s),
        forall|i: int| 0 <= i < events.len() ==> !is_successful_build(#[trigger] events[i]),
    ensures
        before_artifacts(run(s, events)),
        !(run(s, events) is Installing),
        !(run(s, events) is Done),
    decreases events.len(),
{
    if events.len() > 0 {
        assert(!is_successful_build(events[0]));
        assert(before_artifacts(next_state(s, events[0])));
        assert(forall|i: int|
            0 <= i < events.drop_first().len() ==> !is_successful_build(
                #[trigger] events.drop_first()[i],
            ));
        lemma_build_gate(next_state(s, events[0]), events.drop_first());
    }
}

/// The same, along the whole run and not only at its end: while no build
/// has exited with status zero, every state the pipeline passes through is
/// still short of the artifact stages.
pub proof fn lemma_build_gate_prefixes(s: StateModel, events: Seq<EventModel>, k: int)
    requires
        before_artifacts(s),
        0 <= k <= events.len(),
        forall|i: int| 0 <= i < events.len() ==> !is_successful_build(#[trigger] events[i]),
    ensures
        before_artifacts(run(s, events.take(k))),
        !(run(s, events.take(k)) is Installing),
        !(run(s, events.take(k)) is Done),
{
    assert(forall|i: int|
        0 <= i < events.take(k).len() ==> !is_successful_build(#[trigger] events.take(k)[i]));
    lemma_build_gate(s, events.take(k));
}

/// `Done` and `Failed` are terminal: no later event moves the pipeline out
/// of them, so a reported failure is never overtaken by further outside
/// work.
pub proof fn lemma_terminal_states(s: StateModel, e: EventModel)
    requires
        s is Done || s is Failed,
    ensures
        next_state(s, e) == s,
{
}

/// A pipeline anywhere short of the artifact stages never asks for an
/// install.
pub proof fn lemma_no_install_before_build(p: Pipeline)
    requires
        before_artifacts(p.state.model()),
    ensures
        !(next_action_model(p) matches Some(a) && a is RunInstall),
{
}

/// When the artifact pattern matched exactly one file, the install stage
/// receives exactly that file's path.
pub proof fn lemma_single_match_installs_it(s: StateModel, matches: Seq<Seq<char>>)
    requires
        s is LocatingArtifact,
        matches.len() == 1,
    ensures
        next_state(s, EventModel::ArtifactsFound { matches }) == (StateModel::Installing {
            artifact: matches[0],
        }),
{
}

} // verus!
