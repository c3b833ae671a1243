//! The overlay tool's two commands and how often each is tried.
//!
//! The caller starts the processes. After each attempt it reports what
//! happened, and the functions here say whether to go on, to try again or to
//! give up, and with which error.

use vstd::prelude::*;
use vstd::string::*;
use crate::error::{ErrorKind, InjectionError};
use crate::text::{chars_of, contains, occurs, texts};

verus! {

/// How many times the build command is run at most.
pub const MAX_BUILD_ATTEMPTS: u32 = 5;

/// How many times the run command is started at most.
pub const MAX_RUN_ATTEMPTS: u32 = 3;

/// How many times the removal of the overlay directory is tried at most.
pub const MAX_REMOVE_ATTEMPTS: u32 = 3;

/// What one run of the build command gave.
#[derive(Debug)]
pub enum BuildOutcome {
    /// The tool exited with success.
    Succeeded,
    /// The tool ran and exited with a failure.
    Failed { status: String, stderr: String, stdout: String },
    /// The tool could not be started.
    NotStarted { reason: String },
}

/// What to do after one run of the build command.
#[derive(Debug)]
pub enum BuildStep {
    /// The overlay was built: promote the staging directory.
    Promote,
    /// Kill lingering tool processes, wait, and run the command again.
    Retry { access_violation: bool },
    /// Stop: the batch fails with this error.
    GiveUp(InjectionError),
}

/// The mathematical value of a [`BuildStep`].
pub enum BuildVerdict {
    Promote,
    Retry { access_violation: bool },
    GiveUp((ErrorKind, Seq<char>)),
}

impl View for BuildStep {
    type V = BuildVerdict;

    open spec fn view(&self) -> BuildVerdict {
        match self {
            BuildStep::Promote => BuildVerdict::Promote,
            BuildStep::Retry { access_violation } => BuildVerdict::Retry {
                access_violation: *access_violation,
            },
            BuildStep::GiveUp(e) => BuildVerdict::GiveUp(e@),
        }
    }
}

/// The exit status text of an access violation.
pub open spec fn access_violation_mark() -> Seq<char> {
    "0xc0000005"@
}

/// What a failed run printed: its error stream, or its output where the
/// error stream is empty.
pub open spec fn captured_output(stderr: Seq<char>, stdout: Seq<char>) -> Seq<char> {
    if stderr.len() == 0 {
        stdout
    } else {
        stderr
    }
}

/// The text of the error for a build that failed for good.
pub open spec fn build_failure_text(outcome: BuildOutcome) -> Seq<char> {
    match outcome {
        BuildOutcome::Succeeded => Seq::empty(),
        BuildOutcome::Failed { status, stderr, stdout } => "mkoverlay command failed: "@
            + captured_output(stderr@, stdout@) + ". Exit code: "@ + status@,
        BuildOutcome::NotStarted { reason } => "Failed to create overlay: "@ + reason@
            + ". The mod-tools.exe might be missing or incompatible."@,
    }
}

/// Whether an attempt that did not succeed ended in an access violation.
pub open spec fn is_access_violation(outcome: BuildOutcome) -> bool {
    outcome matches BuildOutcome::Failed { status, stderr, stdout } && occurs(
        status@,
        access_violation_mark(),
    )
}

/// The decision after the attempt with index `attempt` (the first has index
/// zero) ended in `outcome`: a success is promoted, and an attempt without
/// success, whether the tool exited with a failure or could not be started,
/// is retried while attempts are left. After the last attempt the build is
/// given up with a `ProcessError` that carries what this attempt gave.
pub open spec fn build_verdict(attempt: nat, outcome: BuildOutcome) -> BuildVerdict {
    if outcome is Succeeded {
        BuildVerdict::Promote
    } else if attempt + 1 < MAX_BUILD_ATTEMPTS {
        BuildVerdict::Retry { access_violation: is_access_violation(outcome) }
    } else {
        BuildVerdict::GiveUp((ErrorKind::Process, build_failure_text(outcome)))
    }
}

/// Decides what follows the build attempt with index `attempt`.
pub fn after_build_attempt(attempt: u32, outcome: &BuildOutcome) -> (step: BuildStep)
    ensures
        step@ == build_verdict(attempt as nat, *outcome),
{
    match outcome {
        BuildOutcome::Succeeded => BuildStep::Promote,
        BuildOutcome::Failed { status, stderr, stdout } => {
            if attempt < MAX_BUILD_ATTEMPTS - 1 {
                let status_chars = chars_of(status.as_str());
                let mark = chars_of("0xc0000005");
                BuildStep::Retry { access_violation: contains(&status_chars, &mark) }
            } else {
                let shown = if stderr.as_str().unicode_len() == 0 {
                    stdout
                } else {
                    stderr
                };
                let text = String::from_str("mkoverlay command failed: ").concat(
                    shown.as_str(),
                ).concat(". Exit code: ").concat(status.as_str());
                BuildStep::GiveUp(InjectionError::ProcessError(text))
            }
        },
        BuildOutcome::NotStarted { reason } => {
            if attempt < MAX_BUILD_ATTEMPTS - 1 {
                BuildStep::Retry { access_violation: false }
            } else {
                let text = String::from_str("Failed to create overlay: ").concat(
                    reason.as_str(),
                ).concat(". The mod-tools.exe might be missing or incompatible.");
                BuildStep::GiveUp(InjectionError::ProcessError(text))
            }
        },
    }
}

/// How many attempts are made when the attempts from index `from` on end as
/// `script` says, one outcome per attempt: the build goes on while the
/// decision is to retry and the script has outcomes left.
pub open spec fn attempts_made(script: Seq<BuildOutcome>, from: nat) -> nat
    decreases script.len() - from,
{
    if from >= script.len() {
        from
    } else if build_verdict(from, script[from as int]) is Retry {
        attempts_made(script, from + 1)
    } else {
        from + 1
    }
}

/// Plays a build against a script of outcomes, without running anything.
/// Returns the number of attempts made and the decision after the last of
/// them; `None` for an empty script.
pub fn run_build(script: &Vec<BuildOutcome>) -> (run: (usize, Option<BuildStep>))
    ensures
        run.0 == attempts_made(script@, 0),
        run.0 <= script.len(),
        run.0 <= MAX_BUILD_ATTEMPTS,
        run.0 == 0 <==> script.len() == 0,
        match run.1 {
            None => run.0 == 0,
            Some(step) => run.0 > 0 && step@ == build_verdict(
                (run.0 - 1) as nat,
                script[run.0 - 1],
            ),
        },
{
    let mut made: usize = 0;
    let mut last: Option<BuildStep> = None;
    while made < script.len()
        invariant
            made <= script.len(),
            made < MAX_BUILD_ATTEMPTS,
            attempts_made(script@, 0) == attempts_made(script@, made as nat),
            match last {
                None => made == 0,
                Some(step) => made > 0 && step@ == build_verdict(
                    (made - 1) as nat,
                    script[made - 1],
                ),
            },
        decreases script.len() - made,
    {
        let step = after_build_attempt(made as u32, &script[made]);
        match step {
            BuildStep::Retry { access_violation } => {
                made += 1;
                last = Some(BuildStep::Retry { access_violation });
            },
            other => {
                return (made + 1, Some(other));
            },
        }
    }
    (made, last)
}

/// No build makes more than five attempts, whatever the outcomes.
pub proof fn build_attempts_bounded(script: Seq<BuildOutcome>, from: nat)
    requires
        from < MAX_BUILD_ATTEMPTS,
    ensures
        attempts_made(script, from) <= MAX_BUILD_ATTEMPTS,
    decreases script.len() - from,
{
    if from < script.len() && build_verdict(from, script[from as int]) is Retry {
        build_attempts_bounded(script, from + 1);
    }
}

/// A build whose first `failures` attempts are without success, with fewer
/// than five of them, and whose next attempt succeeds makes exactly one
/// attempt more and is promoted.
pub proof fn build_recovers(script: Seq<BuildOutcome>, failures: nat)
    requires
        failures < MAX_BUILD_ATTEMPTS,
        failures < script.len(),
        forall|i: int| 0 <= i < failures ==> !((#[trigger] script[i]) is Succeeded),
        script[failures as int] is Succeeded,
    ensures
        attempts_made(script, 0) == failures + 1,
        build_verdict(failures, script[failures as int]) == BuildVerdict::Promote,
{
    build_run_skips_failures(script, failures, 0);
}

/// A build whose first five attempts are without success makes exactly
/// five attempts and then gives up with a `ProcessError` that carries what
/// the fifth gave.
pub proof fn build_gives_up(script: Seq<BuildOutcome>)
    requires
        script.len() >= MAX_BUILD_ATTEMPTS,
        forall|i: int| 0 <= i < MAX_BUILD_ATTEMPTS ==> !((#[trigger] script[i]) is Succeeded),
    ensures
        attempts_made(script, 0) == MAX_BUILD_ATTEMPTS,
        build_verdict(4, script[4]) == BuildVerdict::GiveUp(
            (ErrorKind::Process, build_failure_text(script[4])),
        ),
{
    build_run_skips_failures(script, 4, 0);
    assert(!(script[4] is Succeeded));
}

proof fn build_run_skips_failures(script: Seq<BuildOutcome>, failures: nat, from: nat)
    requires
        from <= failures < MAX_BUILD_ATTEMPTS,
        failures < script.len(),
        forall|i: int| 0 <= i < failures ==> !((#[trigger] script[i]) is Succeeded),
        !(build_verdict(failures, script[failures as int]) is Retry),
    ensures
        attempts_made(script, from) == failures + 1,
    decreases failures - from,
{
    if from < failures {
        assert(!(script[from as int] is Succeeded));
        build_run_skips_failures(script, failures, from + 1);
    }
}

/// Why the run command could not be started.
#[derive(Debug, Clone, Copy, PartialEq, Eq, Structural)]
pub enum LaunchFailure {
    NotFound,
    PermissionDenied,
    Other,
}

/// What one start of the run command gave.
#[derive(Debug)]
pub enum LaunchOutcome {
    /// The process was started; it is not waited for.
    Started,
    /// The process could not be started.
    Failed { cause: LaunchFailure, reason: String },
}

/// What to do after one start of the run command.
#[derive(Debug)]
pub enum LaunchStep {
    /// The overlay runs.
    Running,
    /// Kill lingering tool processes, wait, and start the command again.
    Retry,
    /// Stop: the batch fails with this error.
    GiveUp(InjectionError),
}

/// The mathematical value of a [`LaunchStep`].
pub enum LaunchVerdict {
    Running,
    Retry,
    GiveUp((ErrorKind, Seq<char>)),
}

impl View for LaunchStep {
    type V = LaunchVerdict;

    open spec fn view(&self) -> LaunchVerdict {
        match self {
            LaunchStep::Running => LaunchVerdict::Running,
            LaunchStep::Retry => LaunchVerdict::Retry,
            LaunchStep::GiveUp(e) => LaunchVerdict::GiveUp(e@),
        }
    }
}

/// The text of the error for a start that failed for good.
pub open spec fn launch_failure_text(
    cause: LaunchFailure,
    reason: Seq<char>,
    tool_path: Seq<char>,
) -> Seq<char> {
    match cause {
        LaunchFailure::NotFound => "mod-tools.exe not found or is inaccessible at path: "@
            + tool_path
            + ". Please install CSLOL Manager or copy the correct mod-tools.exe to the application directory."@,
        LaunchFailure::PermissionDenied =>
            "Permission denied when trying to run mod-tools.exe. Try running the application as administrator."@,
        LaunchFailure::Other => "Error running mod-tools.exe: "@ + reason
            + ". Please ensure it's correctly installed and compatible with your system."@,
    }
}

/// The decision after the start with index `attempt` ended in `outcome`.
pub open spec fn launch_verdict(
    attempt: nat,
    outcome: LaunchOutcome,
    tool_path: Seq<char>,
) -> LaunchVerdict {
    match outcome {
        LaunchOutcome::Started => LaunchVerdict::Running,
        LaunchOutcome::Failed { cause, reason } => if attempt + 1 < MAX_RUN_ATTEMPTS {
            LaunchVerdict::Retry
        } else {
            LaunchVerdict::GiveUp(
                (ErrorKind::Overlay, launch_failure_text(cause, reason@, tool_path)),
            )
        },
    }
}

/// Decides what follows the start with index `attempt` of the tool at
/// `tool_path`.
pub fn after_launch_attempt(attempt: u32, outcome: &LaunchOutcome, tool_path: &str) -> (step:
    LaunchStep)
    ensures
        step@ == launch_verdict(attempt as nat, *outcome, tool_path@),
{
    match outcome {
        LaunchOutcome::Started => LaunchStep::Running,
        LaunchOutcome::Failed { cause, reason } => {
            if attempt < MAX_RUN_ATTEMPTS - 1 {
                LaunchStep::Retry
            } else {
                let text = match cause {
                    LaunchFailure::NotFound => String::from_str(
                        "mod-tools.exe not found or is inaccessible at path: ",
                    ).concat(tool_path).concat(
                        ". Please install CSLOL Manager or copy the correct mod-tools.exe to the application directory.",
                    ),
                    LaunchFailure::PermissionDenied => String::from_str(
                        "Permission denied when trying to run mod-tools.exe. Try running the application as administrator.",
                    ),
                    LaunchFailure::Other => String::from_str(
                        "Error running mod-tools.exe: ",
                    ).concat(reason.as_str()).concat(
                        ". Please ensure it's correctly installed and compatible with your system.",
                    ),
                };
                LaunchStep::GiveUp(InjectionError::OverlayError(text))
            }
        },
    }
}

/// What to do after one try to remove the overlay directory.
#[derive(Debug, Clone, Copy, PartialEq, Eq, Structural)]
pub enum RemovalStep {
    /// The directory is gone.
    Removed,
    /// Wait for file locks to clear and try again.
    Retry,
    /// The directory could not be removed in three tries.
    Exhausted,
}

/// The decision after the removal try with index `attempt`.
pub open spec fn removal_verdict(attempt: nat, removed: bool) -> RemovalStep {
    if removed {
        RemovalStep::Removed
    } else if attempt + 1 < MAX_REMOVE_ATTEMPTS {
        RemovalStep::Retry
    } else {
        RemovalStep::Exhausted
    }
}

/// Decides what follows the removal try with index `attempt`.
pub fn after_removal_attempt(attempt: u32, removed: bool) -> (step: RemovalStep)
    ensures
        step == removal_verdict(attempt as nat, removed),
{
    if removed {
        RemovalStep::Removed
    } else if attempt < MAX_REMOVE_ATTEMPTS - 1 {
        RemovalStep::Retry
    } else {
        RemovalStep::Exhausted
    }
}

/// The error of a build that cannot start because the old overlay directory
/// is still there.
pub fn overlay_locked() -> (e: InjectionError)
    ensures
        e@ == (
            ErrorKind::Overlay,
            "Cannot remove existing overlay directory. It may be locked by another process."@,
        ),
{
    InjectionError::OverlayError(
        String::from_str(
            "Cannot remove existing overlay directory. It may be locked by another process.",
        ),
    )
}

/// The text of the error for a tool that was found when the injector was
/// made and is gone when the overlay is to be built.
pub open spec fn tool_gone(tool_path: Seq<char>) -> Seq<char> {
    "mod-tools.exe was found during initialization but is no longer at path: "@ + tool_path
        + ". Please reinstall the application or obtain mod-tools.exe from CSLOL Manager."@
}

/// Checks, before the overlay is built, that the tool is still where it was
/// found. `still_there` is what the caller saw on the disk.
pub fn check_tool(tool_path: &str, still_there: bool) -> (checked: Result<(), InjectionError>)
    ensures
        still_there ==> checked is Ok,
        !still_there ==> (checked matches Err(e) && e@ == (
            ErrorKind::Overlay,
            tool_gone(tool_path@),
        )),
{
    if still_there {
        Ok(())
    } else {
        Err(
            InjectionError::OverlayError(
                String::from_str(
                    "mod-tools.exe was found during initialization but is no longer at path: ",
                ).concat(tool_path).concat(
                    ". Please reinstall the application or obtain mod-tools.exe from CSLOL Manager.",
                ),
            ),
        )
    }
}

/// The names joined by `/`, in order.
pub open spec fn joined_names(names: Seq<String>) -> Seq<char>
    decreases names.len(),
{
    if names.len() == 0 {
        Seq::empty()
    } else if names.len() == 1 {
        names[0]@
    } else {
        joined_names(names.drop_last()) + "/"@ + names.last()@
    }
}

/// Joins the names of the mods by `/`, as the tool expects them. An empty
/// list gives an empty text, which builds an empty overlay.
pub fn join_mod_names(names: &Vec<String>) -> (joined: String)
    ensures
        joined@ == joined_names(names@),
{
    let mut joined = String::new();
    let mut i: usize = 0;
    while i < names.len()
        invariant
            i <= names.len(),
            joined@ == joined_names(names@.subrange(0, i as int)),
        decreases names.len() - i,
    {
        let ghost before = names@.subrange(0, i as int);
        let ghost after = names@.subrange(0, i + 1);
        proof {
            assert(after.drop_last() =~= before);
            assert(after.last() == names@[i as int]);
        }
        if i > 0 {
            joined.append("/");
        } else {
            assert(joined@ =~= Seq::<char>::empty());
            assert(Seq::<char>::empty() + names@[0]@ =~= names@[0]@);
        }
        joined.append(names[i].as_str());
        i += 1;
    }
    assert(names@.subrange(0, names.len() as int) =~= names@);
    joined
}

/// The arguments of the build command.
pub open spec fn mkoverlay_line(
    mods_dir: Seq<char>,
    out_dir: Seq<char>,
    game_path: Seq<char>,
    names: Seq<String>,
) -> Seq<Seq<char>> {
    seq![
        "mkoverlay"@,
        mods_dir,
        out_dir,
        "--game:"@ + game_path,
        "--mods:"@ + joined_names(names),
        "--noTFT"@,
        "--ignoreConflict"@,
    ]
}

/// The arguments of the run command.
pub open spec fn runoverlay_line(
    overlay_dir: Seq<char>,
    config_path: Seq<char>,
    game_path: Seq<char>,
) -> Seq<Seq<char>> {
    seq!["runoverlay"@, overlay_dir, config_path, "--game:"@ + game_path, "--opts:configless"@]
}

/// Builds the arguments of the build command for the mods named.
pub fn mkoverlay_args(mods_dir: &str, out_dir: &str, game_path: &str, names: &Vec<String>) -> (args:
    Vec<String>)
    ensures
        texts(args@) == mkoverlay_line(mods_dir@, out_dir@, game_path@, names@),
{
    let mut args: Vec<String> = Vec::new();
    args.push(String::from_str("mkoverlay"));
    args.push(String::from_str(mods_dir));
    args.push(String::from_str(out_dir));
    args.push(String::from_str("--game:").concat(game_path));
    args.push(String::from_str("--mods:").concat(join_mod_names(names).as_str()));
    args.push(String::from_str("--noTFT"));
    args.push(String::from_str("--ignoreConflict"));
    assert(texts(args@) =~= mkoverlay_line(mods_dir@, out_dir@, game_path@, names@));
    args
}

/// Builds the arguments of the run command.
pub fn runoverlay_args(overlay_dir: &str, config_path: &str, game_path: &str) -> (args: Vec<String>)
    ensures
        texts(args@) == runoverlay_line(overlay_dir@, config_path@, game_path@),
{
    let mut args: Vec<String> = Vec::new();
    args.push(String::from_str("runoverlay"));
    args.push(String::from_str(overlay_dir));
    args.push(String::from_str(config_path));
    args.push(String::from_str("--game:").concat(game_path));
    args.push(String::from_str("--opts:configless"));
    assert(texts(args@) =~= runoverlay_line(overlay_dir@, config_path@, game_path@));
    args
}

/// The configuration that the run command reads.
pub fn overlay_config() -> (text: &'static str)
    ensures
        text@ == "{\"enableMods\":true}"@,
{
    "{\"enableMods\":true}"
}

} // verus!
