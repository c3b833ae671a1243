//! The injector's state machine.
//!
//! An injection is a fixed sequence of steps. The injector names the next
//! step, the caller carries it out and reports what happened, and the
//! injector names the step after it. The injector never touches the disk or a
//! process itself.

use vstd::prelude::*;
use vstd::string::*;
use crate::error::{ErrorKind, InjectionError};
use crate::overlay::{
    after_build_attempt,
    after_launch_attempt,
    build_verdict,
    launch_verdict,
    BuildOutcome,
    BuildStep,
    BuildVerdict,
    LaunchOutcome,
    LaunchStep,
    LaunchVerdict,
};
use crate::types::ModState;

verus! {

/// Where a batch stands.
#[derive(Debug, Clone, Copy)]
pub enum Phase {
    /// No batch is under way.
    Rest,
    /// What an earlier batch left is being cleaned up.
    Cleaning,
    /// The destination mods directory is being cleared and created.
    Resetting,
    /// The selection with this index is being resolved and staged.
    Staging(usize),
    /// The game configuration is being patched.
    Configuring,
    /// The build command runs, in the attempt with this index.
    Building(u32),
    /// The staging overlay is being promoted to the final overlay.
    Promoting,
    /// The run command is being started, in the attempt with this index.
    Launching(u32),
}

/// What the caller is to do next.
#[derive(Debug)]
pub enum Step {
    /// Terminate every process of the overlay tool and remove the working
    /// overlay directory.
    Cleanup,
    /// Clear and create the destination mods directory.
    ResetMods,
    /// Resolve the archive of the selection with this index, extract it,
    /// assemble the mod, check it and copy it to the mods directory.
    Stage(usize),
    /// Enable mods in the game configuration.
    EnableMods,
    /// Run the build command; the attempt has this index.
    Build(u32),
    /// Promote the staging overlay and write the run configuration.
    Promote,
    /// Start the run command; the attempt has this index.
    Launch(u32),
    /// The overlay runs: the batch succeeded.
    Finished,
    /// The batch failed with this error.
    Failed(InjectionError),
}

/// The mathematical value of a [`Step`].
pub enum StepView {
    Cleanup,
    ResetMods,
    Stage(usize),
    EnableMods,
    Build(u32),
    Promote,
    Launch(u32),
    Finished,
    Failed((ErrorKind, Seq<char>)),
}

impl View for Step {
    type V = StepView;

    open spec fn view(&self) -> StepView {
        match self {
            Step::Cleanup => StepView::Cleanup,
            Step::ResetMods => StepView::ResetMods,
            Step::Stage(i) => StepView::Stage(*i),
            Step::EnableMods => StepView::EnableMods,
            Step::Build(n) => StepView::Build(*n),
            Step::Promote => StepView::Promote,
            Step::Launch(n) => StepView::Launch(*n),
            Step::Finished => StepView::Finished,
            Step::Failed(e) => StepView::Failed(e@),
        }
    }
}

/// What happened to the step that the injector asked for.
#[derive(Debug)]
pub enum Event {
    /// The step was carried out.
    Done,
    /// The step failed with this error.
    Failed(InjectionError),
    /// The build command was run, with this outcome.
    Built(BuildOutcome),
    /// The run command was started, with this outcome.
    Launched(LaunchOutcome),
}

/// The injector of one session.
pub struct SkinInjector {
    state: ModState,
    tool_path: Option<String>,
    phase: Phase,
    selections: usize,
}

/// The mathematical value of a [`SkinInjector`].
pub struct InjectorView {
    pub state: ModState,
    pub tool_path: Option<Seq<char>>,
    pub phase: Phase,
    pub selections: usize,
}

impl View for SkinInjector {
    type V = InjectorView;

    closed spec fn view(&self) -> InjectorView {
        InjectorView {
            state: self.state,
            tool_path: match self.tool_path {
                Some(p) => Some(p@),
                None => None,
            },
            phase: self.phase,
            selections: self.selections,
        }
    }
}

/// What holds of every injector: a batch is under way only while the state
/// is `Idle` (during the cleanup that opens it) or `Busy`, only with a tool,
/// and the selection being staged is one of the batch.
pub open spec fn well_formed(v: InjectorView) -> bool {
    match v.phase {
        Phase::Rest => true,
        Phase::Cleaning => v.state == ModState::Idle && v.tool_path is Some,
        Phase::Staging(i) => v.state == ModState::Busy && v.tool_path is Some && i < v.selections,
        Phase::Building(n) => v.state == ModState::Busy && v.tool_path is Some && n
            < crate::overlay::MAX_BUILD_ATTEMPTS,
        Phase::Launching(n) => v.state == ModState::Busy && v.tool_path is Some && n
            < crate::overlay::MAX_RUN_ATTEMPTS,
        _ => v.state == ModState::Busy && v.tool_path is Some,
    }
}

/// The injector at rest in `Idle`, the batch given up.
pub open spec fn stopped(v: InjectorView) -> InjectorView {
    InjectorView { state: ModState::Idle, phase: Phase::Rest, ..v }
}

/// The injector in `Busy`, in the phase given.
pub open spec fn working(v: InjectorView, phase: Phase) -> InjectorView {
    InjectorView { state: ModState::Busy, phase: phase, ..v }
}

/// The text of the error for an event that does not answer the step asked
/// for.
pub open spec fn out_of_turn() -> Seq<char> {
    "Unexpected event for the current step"@
}

/// The text of the error for a batch asked of an injector that has failed
/// for good.
pub open spec fn beyond_repair() -> Seq<char> {
    "The injector is in a critical error state"@
}

/// The text of the error for a batch without an overlay tool.
pub open spec fn tool_missing() -> Seq<char> {
    "mod-tools.exe not found. Please install CSLOL Manager or copy mod-tools.exe to the application directory."@
}

/// The text of the error for a game directory without the game.
pub open spec fn game_missing() -> Seq<char> {
    "Game\\League of Legends.exe not found"@
}

/// The step after the staging of selection `i`, and the phase that goes with
/// it: the next selection, or the configuration when all are staged.
pub open spec fn after_staging(v: InjectorView, next: usize) -> (InjectorView, StepView) {
    if next < v.selections {
        (working(v, Phase::Staging(next)), StepView::Stage(next))
    } else {
        (working(v, Phase::Configuring), StepView::EnableMods)
    }
}

/// The transition function: the injector after `event`, and the step that it
/// asks for next.
///
/// A failed step ends the batch in `Idle` with the error reported. So does an
/// event that does not answer the step asked for, with an `Aborted` error.
/// With no batch under way, nothing changes.
pub open spec fn next(v: InjectorView, event: Event) -> (InjectorView, StepView) {
    let aborted = StepView::Failed((ErrorKind::Aborted, out_of_turn()));
    match v.phase {
        Phase::Rest => (v, aborted),
        _ => match event {
            Event::Failed(e) => (stopped(v), StepView::Failed(e@)),
            Event::Done => match v.phase {
                Phase::Cleaning => (working(v, Phase::Resetting), StepView::ResetMods),
                Phase::Resetting => after_staging(v, 0),
                Phase::Staging(i) => if i < usize::MAX {
                    after_staging(v, (i + 1) as usize)
                } else {
                    (working(v, Phase::Configuring), StepView::EnableMods)
                },
                Phase::Configuring => (working(v, Phase::Building(0)), StepView::Build(0)),
                Phase::Promoting => (working(v, Phase::Launching(0)), StepView::Launch(0)),
                _ => (stopped(v), aborted),
            },
            Event::Built(outcome) => match v.phase {
                Phase::Building(n) => match build_verdict(n as nat, outcome) {
                    BuildVerdict::Promote => (working(v, Phase::Promoting), StepView::Promote),
                    BuildVerdict::Retry { access_violation } => (
                        working(v, Phase::Building((n + 1) as u32)),
                        StepView::Build((n + 1) as u32),
                    ),
                    BuildVerdict::GiveUp(error) => (stopped(v), StepView::Failed(error)),
                },
                _ => (stopped(v), aborted),
            },
            Event::Launched(outcome) => match v.phase {
                Phase::Launching(n) => match launch_verdict(
                    n as nat,
                    outcome,
                    v.tool_path.unwrap_or(Seq::empty()),
                ) {
                    LaunchVerdict::Running => (
                        InjectorView { state: ModState::Running, phase: Phase::Rest, ..v },
                        StepView::Finished,
                    ),
                    LaunchVerdict::Retry => (
                        working(v, Phase::Launching((n + 1) as u32)),
                        StepView::Launch((n + 1) as u32),
                    ),
                    LaunchVerdict::GiveUp(error) => (stopped(v), StepView::Failed(error)),
                },
                _ => (stopped(v), aborted),
            },
        },
    }
}

/// The injector after a batch of `selections` selections was asked for, and
/// the first step of the batch.
///
/// An injector that has failed for good refuses the batch and stays as it
/// is. Without an overlay tool the batch fails at once with an
/// `OverlayError`, before anything is cleaned, resolved or extracted.
/// Otherwise what was under way is given up and the first step is the
/// cleanup.
pub open spec fn opening(v: InjectorView, selections: usize) -> (InjectorView, StepView) {
    if v.state == ModState::CriticalError {
        (v, StepView::Failed((ErrorKind::Aborted, beyond_repair())))
    } else if v.tool_path is None {
        (stopped(v), StepView::Failed((ErrorKind::Overlay, tool_missing())))
    } else {
        (
            InjectorView {
                state: ModState::Idle,
                phase: Phase::Cleaning,
                selections: selections,
                ..v
            },
            StepView::Cleanup,
        )
    }
}

impl SkinInjector {
    #[verifier::type_invariant]
    spec fn sound(self) -> bool {
        well_formed(self@)
    }

    /// A new injector, not yet initialized. `game_found` says whether the
    /// game's executable is where the installation path says; `tool_path` is
    /// the overlay tool, if one of the candidate locations holds it.
    pub fn new(game_found: bool, tool_path: Option<String>) -> (made: Result<Self, InjectionError>)
        ensures
            game_found ==> made is Ok,
            !game_found ==> made is Err,
            made matches Ok(injector) ==> injector@ == (InjectorView {
                state: ModState::Uninitialized,
                tool_path: match tool_path {
                    Some(p) => Some(p@),
                    None => None,
                },
                phase: Phase::Rest,
                selections: 0,
            }) && well_formed(injector@),
            made matches Err(e) ==> e@ == (ErrorKind::InvalidGamePath, game_missing()),
    {
        if !game_found {
            return Err(
                InjectionError::InvalidGamePath(
                    String::from_str("Game\\League of Legends.exe not found"),
                ),
            );
        }
        Ok(
            SkinInjector {
                state: ModState::Uninitialized,
                tool_path,
                phase: Phase::Rest,
                selections: 0,
            },
        )
    }

    /// The injector's state.
    pub fn state(&self) -> (state: ModState)
        ensures
            state == self@.state,
            well_formed(self@),
    {
        proof {
            use_type_invariant(self);
        }
        self.state
    }

    /// The phase of the batch under way.
    pub fn phase(&self) -> (phase: Phase)
        ensures
            phase == self@.phase,
    {
        self.phase
    }

    /// Takes an injector that is `Uninitialized` to `Idle`, once the caller
    /// has made the scratch directories. `scratch` brings the error if that
    /// failed: it is handed back and the injector stays as it is. An
    /// injector in any other state stays as it is too.
    pub fn initialize(&mut self, scratch: Result<(), InjectionError>) -> (done: Result<
        (),
        InjectionError,
    >)
        ensures
            well_formed(final(self)@),
            old(self)@.state != ModState::Uninitialized ==> done is Ok && final(self)@ == old(
                self,
            )@,
            old(self)@.state == ModState::Uninitialized ==> match scratch {
                Ok(_) => done is Ok && final(self)@ == (InjectorView {
                    state: ModState::Idle,
                    ..old(self)@
                }),
                Err(e) => done matches Err(f) && f@ == e@ && final(self)@ == old(self)@,
            },
    {
        proof {
            use_type_invariant(&*self);
        }
        match self.state {
            ModState::Uninitialized => match scratch {
                Ok(_) => {
                    self.phase = Phase::Rest;
                    self.state = ModState::Idle;
                    Ok(())
                },
                Err(e) => Err(e),
            },
            _ => Ok(()),
        }
    }

    /// Ends whatever is under way and leaves the injector in `Idle`. The
    /// caller terminates the tool's processes and removes the working overlay
    /// directory. It never fails.
    pub fn cleanup(&mut self) -> (done: Result<(), InjectionError>)
        ensures
            done is Ok,
            final(self)@ == stopped(old(self)@),
            well_formed(final(self)@),
    {
        self.phase = Phase::Rest;
        self.state = ModState::Idle;
        Ok(())
    }

    /// Opens a batch of `selections` selections and names its first step, as
    /// [`opening`] says.
    pub fn inject_skins(&mut self, selections: usize) -> (step: Step)
        ensures
            well_formed(final(self)@),
            (final(self)@, step@) == opening(old(self)@, selections),
    {
        proof {
            use_type_invariant(&*self);
        }
        match self.state {
            ModState::CriticalError => {
                return Step::Failed(
                    InjectionError::Aborted(
                        String::from_str("The injector is in a critical error state"),
                    ),
                );
            },
            _ => {},
        }
        self.phase = Phase::Rest;
        self.state = ModState::Idle;
        match &self.tool_path {
            None => {
                Step::Failed(
                    InjectionError::OverlayError(
                        String::from_str(
                            "mod-tools.exe not found. Please install CSLOL Manager or copy mod-tools.exe to the application directory.",
                        ),
                    ),
                )
            },
            Some(_) => {
                self.selections = selections;
                self.phase = Phase::Cleaning;
                Step::Cleanup
            },
        }
    }

    /// Marks the injector as failed for good: whatever was under way is
    /// given up, and no batch is accepted until the next cleanup.
    pub fn fault(&mut self)
        ensures
            final(self)@ == (InjectorView {
                state: ModState::CriticalError,
                phase: Phase::Rest,
                ..old(self)@
            }),
            well_formed(final(self)@),
    {
        self.phase = Phase::Rest;
        self.state = ModState::CriticalError;
    }

    fn stop(&mut self)
        ensures
            final(self)@ == stopped(old(self)@),
    {
        self.phase = Phase::Rest;
        self.state = ModState::Idle;
    }

    fn work(&mut self, phase: Phase)
        requires
            well_formed(working(old(self)@, phase)),
        ensures
            final(self)@ == working(old(self)@, phase),
    {
        self.phase = Phase::Rest;
        self.state = ModState::Busy;
        self.phase = phase;
    }

    fn abort(&mut self) -> (step: Step)
        ensures
            final(self)@ == stopped(old(self)@),
            step@ == StepView::Failed((ErrorKind::Aborted, out_of_turn())),
    {
        self.stop();
        Step::Failed(
            InjectionError::Aborted(String::from_str("Unexpected event for the current step")),
        )
    }

    fn stage_from(&mut self, next: usize) -> (step: Step)
        requires
            old(self)@.tool_path is Some,
        ensures
            (final(self)@, step@) == after_staging(old(self)@, next),
    {
        if next < self.selections {
            self.work(Phase::Staging(next));
            Step::Stage(next)
        } else {
            self.work(Phase::Configuring);
            Step::EnableMods
        }
    }

    /// Takes the report on the step that was asked for and names the next
    /// step, as [`next`] says.
    pub fn advance(&mut self, event: Event) -> (step: Step)
        ensures
            (final(self)@, step@) == next(old(self)@, event),
            well_formed(old(self)@),
            well_formed(final(self)@),
    {
        proof {
            use_type_invariant(&*self);
        }
        match self.phase {
            Phase::Rest => {
                return Step::Failed(
                    InjectionError::Aborted(
                        String::from_str("Unexpected event for the current step"),
                    ),
                );
            },
            _ => {},
        }
        match event {
            Event::Failed(e) => {
                self.stop();
                Step::Failed(e)
            },
            Event::Done => match self.phase {
                Phase::Cleaning => {
                    self.work(Phase::Resetting);
                    Step::ResetMods
                },
                Phase::Resetting => self.stage_from(0),
                Phase::Staging(i) => {
                    if i < usize::MAX {
                        self.stage_from(i + 1)
                    } else {
                        self.work(Phase::Configuring);
                        Step::EnableMods
                    }
                },
                Phase::Configuring => {
                    self.work(Phase::Building(0));
                    Step::Build(0)
                },
                Phase::Promoting => {
                    self.work(Phase::Launching(0));
                    Step::Launch(0)
                },
                _ => self.abort(),
            },
            Event::Built(outcome) => match self.phase {
                Phase::Building(n) => match after_build_attempt(n, &outcome) {
                    BuildStep::Promote => {
                        self.work(Phase::Promoting);
                        Step::Promote
                    },
                    BuildStep::Retry { access_violation } => {
                        self.work(Phase::Building(n + 1));
                        Step::Build(n + 1)
                    },
                    BuildStep::GiveUp(e) => {
                        self.stop();
                        Step::Failed(e)
                    },
                },
                _ => self.abort(),
            },
            Event::Launched(outcome) => match self.phase {
                Phase::Launching(n) => {
                    let verdict = match &self.tool_path {
                        Some(p) => after_launch_attempt(n, &outcome, p.as_str()),
                        None => after_launch_attempt(n, &outcome, ""),
                    };
                    match verdict {
                        LaunchStep::Running => {
                            self.phase = Phase::Rest;
                            self.state = ModState::Running;
                            Step::Finished
                        },
                        LaunchStep::Retry => {
                            self.work(Phase::Launching(n + 1));
                            Step::Launch(n + 1)
                        },
                        LaunchStep::GiveUp(e) => {
                            self.stop();
                            Step::Failed(e)
                        },
                    }
                },
                _ => self.abort(),
            },
        }
    }
}

/// A step that fails ends the batch: the error comes back as it was
/// reported, the injector is in `Idle`, and nothing of the batch is left
/// under way. In particular a selection without an archive fails the whole
/// batch.
pub proof fn failure_ends_batch(v: InjectorView, e: InjectionError)
    requires
        well_formed(v),
        v.phase != Phase::Rest,
    ensures
        next(v, Event::Failed(e)).1 == StepView::Failed(e@),
        next(v, Event::Failed(e)).0.state == ModState::Idle,
        next(v, Event::Failed(e)).0.phase == Phase::Rest,
{
}

/// Every step that fails a batch leaves the injector in `Idle`, never in
/// `Busy`.
pub proof fn failed_batch_is_idle(v: InjectorView, event: Event)
    requires
        well_formed(v),
        v.phase != Phase::Rest,
        next(v, event).1 is Failed,
    ensures
        next(v, event).0.state == ModState::Idle,
        next(v, event).0.phase == Phase::Rest,
{
}

/// Selections are staged strictly in order: staging is asked for selection
/// zero after the reset of the mods directory, and for selection `i + 1`
/// after selection `i`, and for nothing else.
pub proof fn staging_in_order(v: InjectorView, event: Event, i: usize)
    requires
        well_formed(v),
        next(v, event).1 == StepView::Stage(i),
    ensures
        event is Done,
        i < v.selections,
        (v.phase == Phase::Resetting && i == 0) || (i > 0 && v.phase == Phase::Staging(
            (i - 1) as usize,
        )),
{
}

/// The build is first asked for only when the configuration was patched,
/// and the configuration only when every selection is staged.
pub proof fn build_follows_staging(v: InjectorView, event: Event)
    requires
        well_formed(v),
    ensures
        next(v, event).1 == StepView::Build(0) ==> v.phase == Phase::Configuring,
        next(v, event).1 == StepView::EnableMods ==> (v.phase == Phase::Resetting && v.selections
            == 0) || (v.phase matches Phase::Staging(i) && i + 1 == v.selections),
{
}

/// The injector is `Running` after a step only when the run command was
/// started.
pub proof fn running_means_started(v: InjectorView, event: Event)
    requires
        well_formed(v),
        v.state != ModState::Running,
        next(v, event).0.state == ModState::Running,
    ensures
        event matches Event::Launched(outcome) && outcome is Started,
        v.phase is Launching,
        next(v, event).1 == StepView::Finished,
{
}

/// An injector that has failed for good stays so: no report and no batch
/// takes it to another state, and none makes it ask for work.
pub proof fn critical_error_is_terminal(v: InjectorView, event: Event, selections: usize)
    requires
        well_formed(v),
        v.state == ModState::CriticalError,
    ensures
        next(v, event).0 == v,
        next(v, event).1 is Failed,
        opening(v, selections).0 == v,
        opening(v, selections).1 is Failed,
{
}

/// A batch without an overlay tool fails before any step is asked for: the
/// injector is at rest, so that no selection is ever staged.
pub proof fn missing_tool_fails_at_once(v: InjectorView, selections: usize)
    requires
        v.state != ModState::CriticalError,
        v.tool_path is None,
    ensures
        opening(v, selections).1 == StepView::Failed((ErrorKind::Overlay, tool_missing())),
        opening(v, selections).0.state == ModState::Idle,
        opening(v, selections).0.phase == Phase::Rest,
{
}

/// Cleaning up twice is the same as cleaning up once, and leaves `Idle`.
pub proof fn cleanup_idempotent(v: InjectorView)
    ensures
        stopped(stopped(v)) == stopped(v),
        stopped(v).state == ModState::Idle,
{
}

} // verus!
