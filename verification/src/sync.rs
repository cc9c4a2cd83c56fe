//! The repository synchronization orchestrator.
//!
//! Synchronizing a checkout needs filesystem inspection, version lookups and
//! external process runs. None of that happens here: the orchestrator is a
//! state machine. [`start`] consumes the caller's [`Args`] and every further
//! decision is made by [`step`], which maps the current [`State`] and an
//! [`Event`] (the outcome of the previous external operation) to the next
//! state and the next [`Action`] the driver must perform. Every transition
//! is pinned down by the contracts, so the safety rules — refuse ambiguous
//! trees, never touch the target after a reference-mirror failure, propagate
//! the force flag unchanged — are theorems, proved at the end of this module.

use vstd::prelude::*;

verus! {

/// Classification of a target checkout: a ChromeOS tree or an Android/ARC tree.
#[derive(Clone, Copy, PartialEq, Eq, Structural, Debug)]
pub enum Kind {
    Cros,
    Arc,
}

/// The caller's request, exactly one sync invocation.
#[derive(Debug)]
pub struct Args {
    /// Target ChromeOS repo dir; mutually exclusive with `arc`.
    pub cros: Option<String>,
    /// Target Android/ARC repo dir; mutually exclusive with `cros`.
    pub arc: Option<String>,
    /// Optional local reference repo used to speed up syncing.
    pub reference: Option<String>,
    /// Version token: a literal version, `tot`, or an ARC branch name.
    pub version: String,
    /// Destructive sync: discard local modifications.
    pub force: bool,
    /// Stream sync output as it occurs.
    pub verbose: bool,
    /// Hidden override of the repo tool location; unused by the orchestrator.
    pub repo: Option<String>,
}

/// Why an orchestration run failed. Every variant is fatal: the state
/// machine never continues past the step that produced it.
#[derive(Debug)]
pub enum SyncError {
    /// Neither or both of the cros/arc targets were specified.
    KindSelection,
    /// The version token could not be resolved to a canonical version.
    VersionResolution { token: String, message: String },
    /// The effective target directory could not be determined.
    TargetResolution { message: String },
    /// The target directory did not exist and could not be created.
    DirCreation { path: String, message: String },
    /// The target is a non-empty directory matching no known layout.
    AmbiguousTree { path: String },
    /// The reference-mirror path could not be resolved.
    ReferenceResolution { message: String },
    /// The reference mirror was requested but its own sync failed.
    ReferenceSync { path: String, output: String },
    /// Kind-specific preparation of the target failed.
    Preparation { path: String, message: String },
    /// The primary sync operation completed abnormally.
    PrimarySync { path: String, output: String },
}

/// Completion of one underlying sync invocation.
#[derive(Debug)]
pub struct SyncOutcome {
    /// Whether the operation completed normally.
    pub success: bool,
    /// The raw completion status reported by the operation.
    pub exit_signal: i32,
    /// Captured standard output, surfaced on failure for diagnosis.
    pub captured_output: String,
}

/// What a read-only inspection of the target path found. The driver gathers
/// these facts; [`classify`] turns them into a [`Detection`].
#[derive(Debug)]
pub struct DirEvidence {
    /// The path exists and is a directory.
    pub is_dir: bool,
    /// The well-known ARC marker file is present at the directory root.
    pub has_arc_marker: bool,
    /// The currently synced ARC version, if the advisory query succeeded.
    pub arc_version: Option<String>,
    /// The currently synced ChromeOS version, if its marker could be read.
    pub cros_version: Option<String>,
    /// The directory has no entries.
    pub is_empty: bool,
}

/// Classification of the target path by the repository type detector.
#[derive(Debug)]
#[allow(inconsistent_fields)]
pub enum Detection {
    /// The path does not exist yet; the orchestrator creates it.
    NotPresent,
    /// An existing directory with no entries.
    EmptyDirectory,
    /// An existing ARC tree. The prior version is advisory: the query for it
    /// fails softly, so it may be absent.
    ExistingArc { prior_version: Option<String> },
    /// An existing ChromeOS tree with its currently synced version.
    ExistingCros { prior_version: String },
    /// A non-empty directory matching no known layout: a fatal condition.
    Ambiguous,
}

/// How a version token is turned into a canonical version string.
#[derive(Debug)]
pub enum VersionRequest {
    /// The token is already canonical and passes through unchanged.
    Literal { version: String },
    /// The token must be resolved against the fixed ChromeOS reference
    /// board (see [`reference_board`]).
    CrosLookup { token: String },
    /// The token must be resolved through the ARC branch-name mapping.
    ArcLookup { token: String },
}

/// Selects the repository kind from the caller's mutually exclusive target
/// options. Exactly one of the two must be given; both or neither is a
/// configuration error, reported before anything else happens.
pub fn select_kind(args: &Args) -> (r: Result<Kind, SyncError>)
    ensures
        r == Ok::<Kind, SyncError>(Kind::Cros) <==> (args.cros is Some && args.arc is None),
        r == Ok::<Kind, SyncError>(Kind::Arc) <==> (args.arc is Some && args.cros is None),
        r is Err <==> ((args.cros is Some) == (args.arc is Some)),
        r matches Err(e) ==> e is KindSelection,
{
    match (&args.cros, &args.arc) {
        (Some(_), None) => Ok(Kind::Cros),
        (None, Some(_)) => Ok(Kind::Arc),
        _ => Err(SyncError::KindSelection),
    }
}

/// How [`version_request`] maps a token: ChromeOS and ARC version
/// namespaces are independent, so the kind decides the mapping. Only the
/// ChromeOS token `tot` is canonical as-is.
pub open spec fn spec_version_request(version: String, kind: Kind) -> VersionRequest {
    if kind == Kind::Arc {
        VersionRequest::ArcLookup { token: version }
    } else if version@ == "tot"@ {
        VersionRequest::Literal { version }
    } else {
        VersionRequest::CrosLookup { token: version }
    }
}

/// Decides how the caller's version token is resolved for the selected
/// repository kind. For ChromeOS, the literal token `tot` passes through
/// unchanged; every other token needs a lookup against the fixed reference
/// board. For ARC, every token goes through the branch-name mapping.
pub fn version_request(version: &String, kind: Kind) -> (r: VersionRequest)
    ensures
        r == spec_version_request(*version, kind),
{
    match kind {
        Kind::Arc => VersionRequest::ArcLookup { token: version.clone() },
        Kind::Cros => {
            let tot: String = "tot".to_owned();
            if *version == tot {
                VersionRequest::Literal { version: version.clone() }
            } else {
                VersionRequest::CrosLookup { token: version.clone() }
            }
        },
    }
}

/// The fixed ChromeOS reference board identifier that non-`tot` version
/// tokens are resolved against.
pub fn reference_board() -> (b: String)
    ensures
        b@ == "eve"@,
{
    "eve".to_owned()
}

/// How [`classify`] reads the gathered evidence, in priority order: absence
/// first, then the ARC marker, then the ChromeOS version marker, then
/// emptiness; anything else is ambiguous and must never be synced into.
pub open spec fn spec_classify(e: DirEvidence) -> Detection {
    if !e.is_dir {
        Detection::NotPresent
    } else if e.has_arc_marker {
        Detection::ExistingArc { prior_version: e.arc_version }
    } else if e.cros_version is Some {
        Detection::ExistingCros { prior_version: e.cros_version->0 }
    } else if e.is_empty {
        Detection::EmptyDirectory
    } else {
        Detection::Ambiguous
    }
}

/// The repository type detector: classifies the target path from read-only
/// inspection evidence.
pub fn classify(e: DirEvidence) -> (d: Detection)
    ensures
        d == spec_classify(e),
{
    if !e.is_dir {
        Detection::NotPresent
    } else if e.has_arc_marker {
        Detection::ExistingArc { prior_version: e.arc_version }
    } else if let Some(v) = e.cros_version {
        Detection::ExistingCros { prior_version: v }
    } else if e.is_empty {
        Detection::EmptyDirectory
    } else {
        Detection::Ambiguous
    }
}

/// The kind the rest of the run must use: an existing tree's detected kind
/// overrides the caller's selection, so an existing checkout is never
/// operated on as the wrong kind. A fresh or empty target keeps the
/// caller's selection.
pub open spec fn spec_effective_kind(selected: Kind, d: Detection) -> Kind {
    match d {
        Detection::ExistingArc { .. } => Kind::Arc,
        Detection::ExistingCros { .. } => Kind::Cros,
        _ => selected,
    }
}

/// Computes the effective kind for the remainder of the run; see
/// [`spec_effective_kind`].
pub fn effective_kind(selected: Kind, d: &Detection) -> (k: Kind)
    ensures
        k == spec_effective_kind(selected, *d),
{
    match d {
        Detection::ExistingArc { .. } => Kind::Arc,
        Detection::ExistingCros { .. } => Kind::Cros,
        _ => selected,
    }
}

/// Progress of one orchestration run. Each non-terminal state awaits the
/// outcome of exactly one external operation; `Done` and `Failed` are
/// terminal and absorbing.
#[derive(Debug)]
pub enum State {
    /// Nothing has happened yet.
    Start,
    /// The kind is selected; a version lookup is in flight.
    KindSelected { kind: Kind },
    /// The canonical version is known; the target path is being resolved.
    VersionResolved { kind: Kind, version: String },
    /// The target path is known; its layout is being inspected.
    Inspecting { kind: Kind, version: String, repo: String },
    /// The target did not exist; it is being created.
    CreatingDir { kind: Kind, version: String, repo: String },
    /// Target exists with a known effective kind; the reference-mirror path
    /// is being resolved.
    PathsPrepared { kind: Kind, version: String, repo: String },
    /// A reference mirror is in use and its own sync is in flight. The
    /// primary target has not been touched.
    SyncingReference { kind: Kind, version: String, repo: String, reference: String },
    /// The mirror (if any) is current; kind-specific preparation of the
    /// target is in flight.
    ReferenceSynced { kind: Kind, version: String, repo: String },
    /// The primary sync operation is in flight.
    SyncingPrimary { repo: String },
    /// The run succeeded.
    Done,
    /// The run failed; no further external operation is requested.
    Failed { error: SyncError },
}

/// Outcome of the external operation the orchestrator was waiting for.
/// `Err` payloads carry the collaborator's error message.
#[derive(Debug)]
#[allow(inconsistent_fields)]
pub enum Event {
    /// The version-lookup service answered.
    VersionLookup { result: Result<String, String> },
    /// The target-path-or-default resolver answered.
    TargetPath { result: Result<String, String> },
    /// Read-only inspection of the target finished.
    Inspected { evidence: DirEvidence },
    /// Recursive creation of the target directory finished.
    DirCreated { result: Result<(), String> },
    /// The reference-mirror path resolver answered; `Ok(None)` means no
    /// reference is in use.
    ReferenceResolved { result: Result<Option<String>, String> },
    /// Kind-specific preparation of the target finished.
    Prepared { result: Result<(), String> },
    /// An underlying sync invocation (mirror or primary) completed.
    SyncDone { outcome: SyncOutcome },
}

/// The next external operation the driver must perform. Exactly one action
/// is emitted per transition; `Halt` means the run is over and the final
/// state carries the result.
#[derive(Debug)]
pub enum Action {
    /// Resolve the token against the fixed reference board
    /// (see [`reference_board`]).
    LookupCrosVersion { token: String },
    /// Resolve the token through the ARC branch-name mapping.
    LookupArcVersion { token: String },
    /// Resolve the effective target directory, defaulting to the current
    /// working directory when no path was given.
    ResolveTargetPath { option: Option<String> },
    /// Gather [`DirEvidence`] about the path, read-only.
    Inspect { path: String },
    /// Create the directory recursively.
    CreateDir { path: String },
    /// Resolve the optional reference-mirror path.
    ResolveReference { option: Option<String> },
    /// Run the underlying sync operation against `path`.
    SyncRepo { path: String, force: bool, verbose: bool },
    /// Write ARC manifest/branch selection metadata for `version`.
    PrepareArc { path: String, version: String },
    /// Write ChromeOS manifest/branch selection metadata for `version`,
    /// wiring in the reference mirror when one is in use.
    PrepareCros { path: String, version: String, reference: Option<String> },
    /// Nothing further: the run is in a terminal state.
    Halt,
}

/// One step of the orchestrator: the state it moved to and the action the
/// driver must perform next.
#[derive(Debug)]
pub struct Transition {
    pub state: State,
    pub action: Action,
}

/// A transition into the absorbing failure state.
pub open spec fn spec_fail(error: SyncError) -> Transition {
    Transition { state: State::Failed { error }, action: Action::Halt }
}

/// The target option that belongs to the selected kind.
pub open spec fn spec_target_option(args: Args, kind: Kind) -> Option<String> {
    if kind == Kind::Cros {
        args.cros
    } else {
        args.arc
    }
}

/// The first transition of a run: kind selection, then the version
/// resolution request. A configuration error fails the run before any
/// external operation is requested.
pub open spec fn spec_start(args: Args) -> Transition {
    if (args.cros is Some) == (args.arc is Some) {
        spec_fail(SyncError::KindSelection)
    } else {
        let kind = if args.cros is Some {
            Kind::Cros
        } else {
            Kind::Arc
        };
        match spec_version_request(args.version, kind) {
            VersionRequest::Literal { version } => Transition {
                state: State::VersionResolved { kind, version },
                action: Action::ResolveTargetPath { option: spec_target_option(args, kind) },
            },
            VersionRequest::CrosLookup { token } => Transition {
                state: State::KindSelected { kind },
                action: Action::LookupCrosVersion { token },
            },
            VersionRequest::ArcLookup { token } => Transition {
                state: State::KindSelected { kind },
                action: Action::LookupArcVersion { token },
            },
        }
    }
}

/// The transition into target preparation, once the reference mirror (if
/// any) is known to be current: the preparation routine is kind-specific,
/// and only the ChromeOS one consumes the reference.
pub open spec fn spec_prepare(kind: Kind, version: String, repo: String, reference: Option<String>) -> Transition {
    Transition {
        state: State::ReferenceSynced { kind, version, repo },
        action: match kind {
            Kind::Arc => Action::PrepareArc { path: repo, version },
            Kind::Cros => Action::PrepareCros { path: repo, version, reference },
        },
    }
}

/// The complete transition relation of the orchestrator: from the current
/// state and the outcome of the awaited operation to the next state and
/// action. Every external failure moves to `Failed` and requests nothing
/// further; terminal states absorb every event; an event that the current
/// state does not await leaves the state unchanged and requests nothing.
pub open spec fn spec_step(args: Args, state: State, event: Event) -> Transition {
    match (state, event) {
        (State::KindSelected { kind }, Event::VersionLookup { result }) => match result {
            Ok(version) => Transition {
                state: State::VersionResolved { kind, version },
                action: Action::ResolveTargetPath { option: spec_target_option(args, kind) },
            },
            Err(message) => spec_fail(SyncError::VersionResolution { token: args.version, message }),
        },
        (State::VersionResolved { kind, version }, Event::TargetPath { result }) => match result {
            Ok(repo) => Transition {
                state: State::Inspecting { kind, version, repo },
                action: Action::Inspect { path: repo },
            },
            Err(message) => spec_fail(SyncError::TargetResolution { message }),
        },
        (State::Inspecting { kind, version, repo }, Event::Inspected { evidence }) => {
            let detection = spec_classify(evidence);
            match detection {
                Detection::NotPresent => Transition {
                    state: State::CreatingDir { kind, version, repo },
                    action: Action::CreateDir { path: repo },
                },
                Detection::Ambiguous => spec_fail(SyncError::AmbiguousTree { path: repo }),
                _ => Transition {
                    state: State::PathsPrepared { kind: spec_effective_kind(kind, detection), version, repo },
                    action: Action::ResolveReference { option: args.reference },
                },
            }
        },
        (State::CreatingDir { kind, version, repo }, Event::DirCreated { result }) => match result {
            Ok(_) => Transition {
                state: State::PathsPrepared { kind, version, repo },
                action: Action::ResolveReference { option: args.reference },
            },
            Err(message) => spec_fail(SyncError::DirCreation { path: repo, message }),
        },
        (State::PathsPrepared { kind, version, repo }, Event::ReferenceResolved { result }) => match result {
            Ok(Some(reference)) => Transition {
                state: State::SyncingReference { kind, version, repo, reference },
                action: Action::SyncRepo { path: reference, force: args.force, verbose: args.verbose },
            },
            Ok(None) => spec_prepare(kind, version, repo, None),
            Err(message) => spec_fail(SyncError::ReferenceResolution { message }),
        },
        (State::SyncingReference { kind, version, repo, reference }, Event::SyncDone { outcome }) => {
            if outcome.success {
                spec_prepare(kind, version, repo, Some(reference))
            } else {
                spec_fail(SyncError::ReferenceSync { path: reference, output: outcome.captured_output })
            }
        },
        (State::ReferenceSynced { kind, version, repo }, Event::Prepared { result }) => match result {
            Ok(_) => Transition {
                state: State::SyncingPrimary { repo },
                action: Action::SyncRepo { path: repo, force: args.force, verbose: args.verbose },
            },
            Err(message) => spec_fail(SyncError::Preparation { path: repo, message }),
        },
        (State::SyncingPrimary { repo }, Event::SyncDone { outcome }) => {
            if outcome.success {
                Transition { state: State::Done, action: Action::Halt }
            } else {
                spec_fail(SyncError::PrimarySync { path: repo, output: outcome.captured_output })
            }
        },
        (s, _) => Transition { state: s, action: Action::Halt },
    }
}

/// A clone of an optional path, equal to the one given.
fn clone_opt_string(o: &Option<String>) -> (r: Option<String>)
    ensures
        r == *o,
{
    match o {
        Some(s) => Some(s.clone()),
        None => None,
    }
}

/// Begins an orchestration run from the caller's arguments; see
/// [`spec_start`]. The returned action is the first external operation the
/// driver must perform, and its outcome feeds [`step`].
pub fn start(args: &Args) -> (t: Transition)
    ensures
        t == spec_start(*args),
{
    match select_kind(args) {
        Err(error) => Transition { state: State::Failed { error }, action: Action::Halt },
        Ok(kind) => match version_request(&args.version, kind) {
            VersionRequest::Literal { version } => Transition {
                state: State::VersionResolved { kind, version },
                action: Action::ResolveTargetPath {
                    option: if kind == Kind::Cros {
                        clone_opt_string(&args.cros)
                    } else {
                        clone_opt_string(&args.arc)
                    },
                },
            },
            VersionRequest::CrosLookup { token } => Transition {
                state: State::KindSelected { kind },
                action: Action::LookupCrosVersion { token },
            },
            VersionRequest::ArcLookup { token } => Transition {
                state: State::KindSelected { kind },
                action: Action::LookupArcVersion { token },
            },
        },
    }
}

/// Performs one orchestrator step; see [`spec_step`] for the full
/// transition relation. `state` is the state the previous transition moved
/// to, `event` the outcome of the action it requested.
pub fn step(args: &Args, state: State, event: Event) -> (t: Transition)
    ensures
        t == spec_step(*args, state, event),
{
    match (state, event) {
        (State::KindSelected { kind }, Event::VersionLookup { result }) => match result {
            Ok(version) => Transition {
                state: State::VersionResolved { kind, version },
                action: Action::ResolveTargetPath {
                    option: if kind == Kind::Cros {
                        clone_opt_string(&args.cros)
                    } else {
                        clone_opt_string(&args.arc)
                    },
                },
            },
            Err(message) => fail(SyncError::VersionResolution { token: args.version.clone(), message }),
        },
        (State::VersionResolved { kind, version }, Event::TargetPath { result }) => match result {
            Ok(repo) => {
                let path = repo.clone();
                Transition {
                    state: State::Inspecting { kind, version, repo },
                    action: Action::Inspect { path },
                }
            },
            Err(message) => fail(SyncError::TargetResolution { message }),
        },
        (State::Inspecting { kind, version, repo }, Event::Inspected { evidence }) => {
            let detection = classify(evidence);
            match detection {
                Detection::NotPresent => {
                    let path = repo.clone();
                    Transition {
                        state: State::CreatingDir { kind, version, repo },
                        action: Action::CreateDir { path },
                    }
                },
                Detection::Ambiguous => fail(SyncError::AmbiguousTree { path: repo }),
                _ => {
                    let kind = effective_kind(kind, &detection);
                    Transition {
                        state: State::PathsPrepared { kind, version, repo },
                        action: Action::ResolveReference { option: clone_opt_string(&args.reference) },
                    }
                },
            }
        },
        (State::CreatingDir { kind, version, repo }, Event::DirCreated { result }) => match result {
            Ok(_) => Transition {
                state: State::PathsPrepared { kind, version, repo },
                action: Action::ResolveReference { option: clone_opt_string(&args.reference) },
            },
            Err(message) => fail(SyncError::DirCreation { path: repo, message }),
        },
        (State::PathsPrepared { kind, version, repo }, Event::ReferenceResolved { result }) => match result {
            Ok(Some(reference)) => {
                let path = reference.clone();
                Transition {
                    state: State::SyncingReference { kind, version, repo, reference },
                    action: Action::SyncRepo { path, force: args.force, verbose: args.verbose },
                }
            },
            Ok(None) => prepare(kind, version, repo, None),
            Err(message) => fail(SyncError::ReferenceResolution { message }),
        },
        (State::SyncingReference { kind, version, repo, reference }, Event::SyncDone { outcome }) => {
            if outcome.success {
                prepare(kind, version, repo, Some(reference))
            } else {
                fail(SyncError::ReferenceSync { path: reference, output: outcome.captured_output })
            }
        },
        (State::ReferenceSynced { kind, version, repo }, Event::Prepared { result }) => match result {
            Ok(_) => {
                let path = repo.clone();
                Transition {
                    state: State::SyncingPrimary { repo },
                    action: Action::SyncRepo { path, force: args.force, verbose: args.verbose },
                }
            },
            Err(message) => fail(SyncError::Preparation { path: repo, message }),
        },
        (State::SyncingPrimary { repo }, Event::SyncDone { outcome }) => {
            if outcome.success {
                Transition { state: State::Done, action: Action::Halt }
            } else {
                fail(SyncError::PrimarySync { path: repo, output: outcome.captured_output })
            }
        },
        (s, _) => Transition { state: s, action: Action::Halt },
    }
}

/// The transitions an orchestration run takes from `s0` under a sequence of
/// external outcomes: each event is fed to the state the previous
/// transition moved to.
pub open spec fn run_steps(args: Args, s0: State, events: Seq<Event>) -> Seq<Transition>
    decreases events.len(),
{
    if events.len() == 0 {
        Seq::empty()
    } else {
        let t = spec_step(args, s0, events[0]);
        seq![t] + run_steps(args, t.state, events.drop_first())
    }
}

/// A whole run: the transitions taken from [`spec_start`]'s state under the
/// given external outcomes.
pub open spec fn spec_run(args: Args, events: Seq<Event>) -> Seq<Transition> {
    run_steps(args, spec_start(args).state, events)
}

/// Failure is absorbing: once a run has failed, every further event leaves
/// it failed with the same error, and no external operation is ever
/// requested again.
pub proof fn lemma_failure_is_absorbing(args: Args, error: SyncError, events: Seq<Event>)
    ensures
        forall|i: int| 0 <= i < events.len() ==> #[trigger] run_steps(
            args,
            State::Failed { error },
            events,
        )[i] == spec_fail(error),
    decreases events.len(),
{
    if events.len() > 0 {
        let s0 = State::Failed { error };
        let rs = run_steps(args, s0, events);
        let t = spec_step(args, s0, events[0]);
        assert(t == spec_fail(error));
        let rest = run_steps(args, t.state, events.drop_first());
        assert(rs == seq![t] + rest);
        lemma_run_steps_len(args, t.state, events.drop_first());
        lemma_failure_is_absorbing(args, error, events.drop_first());
        assert forall|i: int| 0 <= i < events.len() implies rs[i] == spec_fail(error) by {
            if i > 0 {
                assert(rs[i] == (seq![t] + rest)[i]);
                assert((seq![t] + rest)[i] == rest[i - 1]);
                assert(rest[i - 1] == spec_fail(error));
            }
        }
    }
}

/// A run takes exactly one transition per external outcome.
pub proof fn lemma_run_steps_len(args: Args, s0: State, events: Seq<Event>)
    ensures
        run_steps(args, s0, events).len() == events.len(),
    decreases events.len(),
{
    if events.len() > 0 {
        lemma_run_steps_len(args, spec_step(args, s0, events[0]).state, events.drop_first());
    }
}

/// Exactly one of the cros/arc targets must be selected. Both or neither
/// is the configuration error, raised before any external operation: the
/// run starts failed, and however the driver goes on, no action — no
/// filesystem access, no lookup, no sync — is ever requested.
pub proof fn lemma_config_error_before_io(args: Args, events: Seq<Event>)
    requires
        (args.cros is Some) == (args.arc is Some),
    ensures
        spec_start(args) == spec_fail(SyncError::KindSelection),
        forall|i: int| 0 <= i < events.len() ==> #[trigger] spec_run(args, events)[i]
            == spec_fail(SyncError::KindSelection),
{
    lemma_failure_is_absorbing(args, SyncError::KindSelection, events);
}

/// Resolving a version for a ChromeOS target: the literal token `tot`
/// passes through unchanged with no lookup requested; any other token is
/// sent to the reference-board lookup, and a failed lookup fails the whole
/// run with the version-resolution error.
pub proof fn lemma_cros_version_resolution(args: Args, message: String)
    requires
        args.cros is Some,
        args.arc is None,
    ensures
        args.version@ == "tot"@ ==> (spec_start(args).state matches State::VersionResolved {
            kind,
            version,
        } && kind == Kind::Cros && version == args.version),
        args.version@ != "tot"@ ==> (spec_start(args).action matches Action::LookupCrosVersion {
            token,
        } && token == args.version),
        args.version@ != "tot"@ ==> spec_step(
            args,
            spec_start(args).state,
            (Event::VersionLookup { result: Err(message) }),
        ) == spec_fail(SyncError::VersionResolution { token: args.version, message }),
{
}

/// A fresh target — a path that does not exist yet, or an existing empty
/// directory — keeps the caller's originally selected kind for the whole
/// run: detection never overrides an explicit selection in that case.
pub proof fn lemma_fresh_target_keeps_selection(
    args: Args,
    kind: Kind,
    version: String,
    repo: String,
    evidence: DirEvidence,
    created: Result<(), String>,
)
    requires
        evidence.is_dir ==> !evidence.has_arc_marker && evidence.cros_version is None
            && evidence.is_empty,
    ensures
        evidence.is_dir ==> (spec_step(
            args,
            (State::Inspecting { kind, version, repo }),
            (Event::Inspected { evidence }),
        ).state matches State::PathsPrepared { kind: k, .. } && k == kind),
        !evidence.is_dir ==> (spec_step(
            args,
            (State::Inspecting { kind, version, repo }),
            (Event::Inspected { evidence }),
        ).state matches State::CreatingDir { kind: k, .. } && k == kind),
        created is Ok ==> (spec_step(
            args,
            (State::CreatingDir { kind, version, repo }),
            (Event::DirCreated { result: created }),
        ).state matches State::PathsPrepared { kind: k, .. } && k == kind),
{
}

/// An existing tree is never operated on as the wrong kind: whatever the
/// caller selected, a detected ARC tree fixes the effective kind to ARC
/// and a detected ChromeOS tree fixes it to ChromeOS for the remainder of
/// the run.
pub proof fn lemma_detected_kind_overrides(
    args: Args,
    kind: Kind,
    version: String,
    repo: String,
    evidence: DirEvidence,
)
    requires
        evidence.is_dir,
    ensures
        evidence.has_arc_marker ==> (spec_step(
            args,
            (State::Inspecting { kind, version, repo }),
            (Event::Inspected { evidence }),
        ).state matches State::PathsPrepared { kind: k, .. } && k == Kind::Arc),
        !evidence.has_arc_marker && evidence.cros_version is Some ==> (spec_step(
            args,
            (State::Inspecting { kind, version, repo }),
            (Event::Inspected { evidence }),
        ).state matches State::PathsPrepared { kind: k, .. } && k == Kind::Cros),
{
}

/// A non-empty directory that matches neither known checkout layout is a
/// hard failure: the run fails with the ambiguous-tree error naming the
/// path, and no sync or preparation is ever attempted afterwards.
pub proof fn lemma_ambiguous_tree_refused(
    args: Args,
    kind: Kind,
    version: String,
    repo: String,
    evidence: DirEvidence,
    events: Seq<Event>,
)
    requires
        evidence.is_dir,
        !evidence.has_arc_marker,
        evidence.cros_version is None,
        !evidence.is_empty,
    ensures
        spec_step(
            args,
            (State::Inspecting { kind, version, repo }),
            (Event::Inspected { evidence }),
        ) == spec_fail(SyncError::AmbiguousTree { path: repo }),
        forall|i: int| 0 <= i < events.len() ==> (#[trigger] run_steps(
            args,
            (State::Failed { error: SyncError::AmbiguousTree { path: repo } }),
            events,
        )[i]).action is Halt,
{
    lemma_failure_is_absorbing(args, SyncError::AmbiguousTree { path: repo }, events);
}

/// A requested reference mirror whose own sync fails aborts the run before
/// the primary target is touched: the failing step requests nothing, and
/// no later event can make the run prepare or sync the target.
pub proof fn lemma_reference_failure_blocks_primary(
    args: Args,
    kind: Kind,
    version: String,
    repo: String,
    reference: String,
    outcome: SyncOutcome,
    events: Seq<Event>,
)
    requires
        !outcome.success,
    ensures
        spec_step(
            args,
            (State::SyncingReference { kind, version, repo, reference }),
            (Event::SyncDone { outcome }),
        ) == spec_fail(
            SyncError::ReferenceSync { path: reference, output: outcome.captured_output },
        ),
        forall|i: int| 0 <= i < events.len() ==> (#[trigger] run_steps(
            args,
            (State::Failed {
                error: SyncError::ReferenceSync {
                    path: reference,
                    output: outcome.captured_output,
                },
            }),
            events,
        )[i]).action is Halt,
{
    lemma_failure_is_absorbing(
        args,
        SyncError::ReferenceSync { path: reference, output: outcome.captured_output },
        events,
    );
}

/// The caller's force and verbose flags reach every sync invocation — the
/// reference mirror's as much as the primary target's — unchanged. No
/// transition ever invents or drops the destructive mode.
pub proof fn lemma_flags_propagated(args: Args, state: State, event: Event)
    ensures
        spec_start(args).action !is SyncRepo,
        spec_step(args, state, event).action matches Action::SyncRepo { force, verbose, .. }
            ==> force == args.force && verbose == args.verbose,
{
}

/// The same, over a whole run from any state: however the run unfolds, each
/// sync invocation it ever requests carries the caller's flags.
pub proof fn lemma_flags_propagated_in_run(args: Args, s0: State, events: Seq<Event>)
    ensures
        forall|i: int| 0 <= i < events.len() ==> ((#[trigger] run_steps(
            args,
            s0,
            events,
        )[i]).action matches Action::SyncRepo { force, verbose, .. } ==> force == args.force
            && verbose == args.verbose),
    decreases events.len(),
{
    if events.len() > 0 {
        let t = spec_step(args, s0, events[0]);
        let rs = run_steps(args, s0, events);
        let rest = run_steps(args, t.state, events.drop_first());
        assert(rs == seq![t] + rest);
        lemma_flags_propagated(args, s0, events[0]);
        lemma_run_steps_len(args, t.state, events.drop_first());
        lemma_flags_propagated_in_run(args, t.state, events.drop_first());
        assert forall|i: int| 0 <= i < events.len() implies ((#[trigger] rs[i]).action
            matches Action::SyncRepo { force, verbose, .. } ==> force == args.force && verbose
            == args.verbose) by {
            if i == 0 {
                assert(rs[0] == t);
            } else {
                assert(rs[i] == (seq![t] + rest)[i]);
                assert((seq![t] + rest)[i] == rest[i - 1]);
            }
        }
    }
}

/// Orchestration is memoryless: a run is a pure function of the caller's
/// arguments and the outcomes the external operations report, and nothing
/// survives an invocation. Two runs with identical inputs whose external
/// operations answer identically take identical transitions; in
/// particular, when the first ends in `Done`, so does the second. (That an
/// already-synced target answers a re-run with the same successful
/// outcomes is the underlying sync operation's convergence, assumed of the
/// external tool, not proved here.)
pub proof fn lemma_identical_rerun(args1: Args, args2: Args, events1: Seq<Event>, events2: Seq<Event>)
    requires
        args1 == args2,
        events1 == events2,
    ensures
        spec_run(args1, events1) == spec_run(args2, events2),
        events1.len() > 0 && spec_run(args1, events1).last().state is Done ==> spec_run(
            args2,
            events2,
        ).last().state is Done,
{
}

/// Syncing is convergent, not incremental: a run over an existing,
/// correctly-laid-out ChromeOS target — exactly what a previous successful
/// run leaves behind — with no reference mirror in use and every external
/// operation succeeding, ends in `Done`. Together with
/// [`lemma_identical_rerun`] this makes re-running with identical inputs
/// safe: both invocations succeed.
pub proof fn lemma_resync_existing_tree_succeeds(
    args: Args,
    repo: String,
    evidence: DirEvidence,
    outcome: SyncOutcome,
)
    requires
        args.cros is Some,
        args.arc is None,
        args.version@ == "tot"@,
        evidence.is_dir,
        !evidence.has_arc_marker,
        evidence.cros_version is Some,
        outcome.success,
    ensures
        ({
            let events = seq![
                Event::TargetPath { result: Ok(repo) },
                Event::Inspected { evidence },
                Event::ReferenceResolved { result: Ok(None) },
                Event::Prepared { result: Ok(()) },
                Event::SyncDone { outcome },
            ];
            spec_run(args, events).last().state is Done
        }),
{
    let e1 = Event::TargetPath { result: Ok(repo) };
    let e2 = Event::Inspected { evidence };
    let e3 = Event::ReferenceResolved { result: Ok(None) };
    let e4 = Event::Prepared { result: Ok(()) };
    let e5 = Event::SyncDone { outcome };
    let events = seq![e1, e2, e3, e4, e5];
    let t0 = spec_start(args);
    assert(t0.state matches State::VersionResolved { kind, .. } && kind == Kind::Cros);
    let t1 = spec_step(args, t0.state, e1);
    assert(t1.state is Inspecting);
    let t2 = spec_step(args, t1.state, e2);
    assert(spec_classify(evidence) is ExistingCros);
    assert(t2.state matches State::PathsPrepared { kind, .. } && kind == Kind::Cros);
    let t3 = spec_step(args, t2.state, e3);
    assert(t3.state is ReferenceSynced);
    let t4 = spec_step(args, t3.state, e4);
    assert(t4.state is SyncingPrimary);
    let t5 = spec_step(args, t4.state, e5);
    assert(t5.state is Done);
    assert(events.drop_first() =~= seq![e2, e3, e4, e5]);
    assert(seq![e2, e3, e4, e5].drop_first() =~= seq![e3, e4, e5]);
    assert(seq![e3, e4, e5].drop_first() =~= seq![e4, e5]);
    assert(seq![e4, e5].drop_first() =~= seq![e5]);
    assert(seq![e5].drop_first() =~= Seq::<Event>::empty());
    let r5 = run_steps(args, t4.state, seq![e5]);
    assert(r5 == seq![t5] + run_steps(args, t5.state, Seq::<Event>::empty()));
    assert(r5 =~= seq![t5]);
    let r4 = run_steps(args, t3.state, seq![e4, e5]);
    assert(r4 =~= seq![t4] + r5);
    let r3 = run_steps(args, t2.state, seq![e3, e4, e5]);
    assert(r3 =~= seq![t3] + r4);
    let r2 = run_steps(args, t1.state, seq![e2, e3, e4, e5]);
    assert(r2 =~= seq![t2] + r3);
    let r1 = run_steps(args, t0.state, events);
    assert(r1 =~= seq![t1] + r2);
    assert(spec_run(args, events) == r1);
    assert(r1.last() == t5);
}

/// The failure transition; see [`spec_fail`].
fn fail(error: SyncError) -> (t: Transition)
    ensures
        t == spec_fail(error),
{
    Transition { state: State::Failed { error }, action: Action::Halt }
}

/// The transition into kind-specific preparation; see [`spec_prepare`].
fn prepare(kind: Kind, version: String, repo: String, reference: Option<String>) -> (t: Transition)
    ensures
        t == spec_prepare(kind, version, repo, reference),
{
    match kind {
        Kind::Arc => {
            let path = repo.clone();
            let v = version.clone();
            Transition {
                state: State::ReferenceSynced { kind, version, repo },
                action: Action::PrepareArc { path, version: v },
            }
        },
        Kind::Cros => {
            let path = repo.clone();
            let v = version.clone();
            Transition {
                state: State::ReferenceSynced { kind, version, repo },
                action: Action::PrepareCros { path, version: v, reference },
            }
        },
    }
}

} // verus!

