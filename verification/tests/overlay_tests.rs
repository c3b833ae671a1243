use skin_injection::error::{ErrorKind, InjectionError};
use skin_injection::overlay::{
    after_build_attempt, after_launch_attempt, after_removal_attempt, check_tool, join_mod_names,
    mkoverlay_args, overlay_config, overlay_locked, run_build, runoverlay_args, BuildOutcome,
    BuildStep, LaunchFailure, LaunchOutcome, LaunchStep, RemovalStep, MAX_BUILD_ATTEMPTS,
    MAX_REMOVE_ATTEMPTS, MAX_RUN_ATTEMPTS,
};

fn failed(status: &str, stderr: &str, stdout: &str) -> BuildOutcome {
    BuildOutcome::Failed {
        status: status.to_string(),
        stderr: stderr.to_string(),
        stdout: stdout.to_string(),
    }
}

fn failures_then(n: usize, last: Option<BuildOutcome>) -> Vec<BuildOutcome> {
    let mut script: Vec<BuildOutcome> =
        (0..n).map(|i| failed("exit code: 1", &format!("failure {}", i), "out")).collect();
    if let Some(outcome) = last {
        script.push(outcome);
    }
    script
}

#[test]
fn retry_limits() {
    assert_eq!(MAX_BUILD_ATTEMPTS, 5);
    assert_eq!(MAX_RUN_ATTEMPTS, 3);
    assert_eq!(MAX_REMOVE_ATTEMPTS, 3);
}

#[test]
fn build_success_is_promoted() {
    for attempt in 0..7 {
        assert!(matches!(
            after_build_attempt(attempt, &BuildOutcome::Succeeded),
            BuildStep::Promote
        ));
    }
}

#[test]
fn build_failure_is_retried_four_times() {
    for attempt in 0..4 {
        assert!(matches!(
            after_build_attempt(attempt, &failed("exit code: 1", "bad", "")),
            BuildStep::Retry { access_violation: false }
        ));
        assert!(matches!(
            after_build_attempt(attempt, &failed("exit code: 0xc0000005", "bad", "")),
            BuildStep::Retry { access_violation: true }
        ));
    }
    for attempt in 4..8 {
        assert!(matches!(
            after_build_attempt(attempt, &failed("exit code: 0xc0000005", "bad", "")),
            BuildStep::GiveUp(InjectionError::ProcessError(_))
        ));
    }
}

#[test]
fn build_failure_text_carries_last_output() {
    match after_build_attempt(4, &failed("exit code: 1", "stderr text", "stdout text")) {
        BuildStep::GiveUp(e) => {
            assert_eq!(e.kind(), ErrorKind::Process);
            assert_eq!(e.detail(), "mkoverlay command failed: stderr text. Exit code: exit code: 1");
        }
        other => panic!("unexpected step {:?}", other),
    }
    match after_build_attempt(4, &failed("exit code: 1", "", "stdout text")) {
        BuildStep::GiveUp(e) => {
            assert_eq!(e.detail(), "mkoverlay command failed: stdout text. Exit code: exit code: 1");
        }
        other => panic!("unexpected step {:?}", other),
    }
}

#[test]
fn build_that_cannot_start_is_retried_too() {
    let outcome = BuildOutcome::NotStarted { reason: "No such file".to_string() };
    for attempt in 0..4 {
        assert!(matches!(
            after_build_attempt(attempt, &outcome),
            BuildStep::Retry { access_violation: false }
        ));
    }
    match after_build_attempt(4, &outcome) {
        BuildStep::GiveUp(e) => {
            assert_eq!(e.kind(), ErrorKind::Process);
            assert_eq!(
                e.detail(),
                "Failed to create overlay: No such file. The mod-tools.exe might be missing or incompatible."
            );
        }
        other => panic!("unexpected step {:?}", other),
    }
}

#[test]
fn build_recovers_after_the_tool_could_not_start() {
    let script = vec![
        BuildOutcome::NotStarted { reason: "busy".to_string() },
        BuildOutcome::Succeeded,
    ];
    let (calls, last) = run_build(&script);
    assert_eq!(calls, 2);
    assert!(matches!(last, Some(BuildStep::Promote)));
    let never: Vec<BuildOutcome> =
        (0..7).map(|_| BuildOutcome::NotStarted { reason: "gone".to_string() }).collect();
    let (calls, last) = run_build(&never);
    assert_eq!(calls, 5);
    assert!(matches!(last, Some(BuildStep::GiveUp(InjectionError::ProcessError(_)))));
}

#[test]
fn retry_bound_recovers_after_fewer_than_five_failures() {
    for n in 0..5 {
        let script = failures_then(n, Some(BuildOutcome::Succeeded));
        let (calls, last) = run_build(&script);
        assert_eq!(calls, n + 1);
        assert!(matches!(last, Some(BuildStep::Promote)));
    }
}

#[test]
fn retry_bound_never_makes_a_sixth_attempt() {
    for n in 5..9 {
        let script = failures_then(n, Some(BuildOutcome::Succeeded));
        let (calls, last) = run_build(&script);
        assert_eq!(calls, 5);
        match last {
            Some(BuildStep::GiveUp(e)) => {
                assert!(matches!(e, InjectionError::ProcessError(_)));
                assert_eq!(
                    e.detail(),
                    "mkoverlay command failed: failure 4. Exit code: exit code: 1"
                );
            }
            other => panic!("unexpected end {:?}", other),
        }
    }
}

#[test]
fn run_build_on_short_scripts() {
    let (calls, last) = run_build(&Vec::new());
    assert_eq!(calls, 0);
    assert!(last.is_none());
    let (calls, last) = run_build(&failures_then(2, None));
    assert_eq!(calls, 2);
    assert!(matches!(last, Some(BuildStep::Retry { access_violation: false })));
    let script = failures_then(1, Some(BuildOutcome::NotStarted { reason: "gone".to_string() }));
    let (calls, last) = run_build(&script);
    assert_eq!(calls, 2);
    assert!(matches!(last, Some(BuildStep::Retry { access_violation: false })));
}

#[test]
fn launch_is_retried_twice() {
    let failure =
        LaunchOutcome::Failed { cause: LaunchFailure::Other, reason: "busy".to_string() };
    assert!(matches!(after_launch_attempt(0, &failure, "tool"), LaunchStep::Retry));
    assert!(matches!(after_launch_attempt(1, &failure, "tool"), LaunchStep::Retry));
    assert!(matches!(after_launch_attempt(2, &failure, "tool"), LaunchStep::GiveUp(_)));
    assert!(matches!(after_launch_attempt(3, &failure, "tool"), LaunchStep::GiveUp(_)));
    assert!(matches!(
        after_launch_attempt(2, &LaunchOutcome::Started, "tool"),
        LaunchStep::Running
    ));
    assert!(matches!(
        after_launch_attempt(0, &LaunchOutcome::Started, "tool"),
        LaunchStep::Running
    ));
}

#[test]
fn launch_failures_are_told_apart() {
    let texts = [
        (
            LaunchFailure::NotFound,
            "mod-tools.exe not found or is inaccessible at path: C:/t/mod-tools.exe. Please install CSLOL Manager or copy the correct mod-tools.exe to the application directory.",
        ),
        (
            LaunchFailure::PermissionDenied,
            "Permission denied when trying to run mod-tools.exe. Try running the application as administrator.",
        ),
        (
            LaunchFailure::Other,
            "Error running mod-tools.exe: busy. Please ensure it's correctly installed and compatible with your system.",
        ),
    ];
    for (cause, text) in texts {
        let outcome = LaunchOutcome::Failed { cause, reason: "busy".to_string() };
        match after_launch_attempt(2, &outcome, "C:/t/mod-tools.exe") {
            LaunchStep::GiveUp(e) => {
                assert!(matches!(e, InjectionError::OverlayError(_)));
                assert_eq!(e.detail(), text);
            }
            other => panic!("unexpected step {:?}", other),
        }
    }
}

#[test]
fn removal_is_tried_three_times() {
    assert_eq!(after_removal_attempt(0, true), RemovalStep::Removed);
    assert_eq!(after_removal_attempt(2, true), RemovalStep::Removed);
    assert_eq!(after_removal_attempt(0, false), RemovalStep::Retry);
    assert_eq!(after_removal_attempt(1, false), RemovalStep::Retry);
    assert_eq!(after_removal_attempt(2, false), RemovalStep::Exhausted);
    assert_eq!(after_removal_attempt(9, false), RemovalStep::Exhausted);
    let e = overlay_locked();
    assert!(matches!(e, InjectionError::OverlayError(_)));
    assert_eq!(
        e.detail(),
        "Cannot remove existing overlay directory. It may be locked by another process."
    );
}

#[test]
fn mod_names_are_joined_by_slash() {
    assert_eq!(join_mod_names(&Vec::new()), "");
    assert_eq!(join_mod_names(&vec!["one".to_string()]), "one");
    assert_eq!(
        join_mod_names(&vec!["one".to_string(), "two".to_string(), "three".to_string()]),
        "one/two/three"
    );
}

#[test]
fn mkoverlay_command_line() {
    let names = vec!["10_SkinName".to_string(), "11_Other".to_string()];
    assert_eq!(
        mkoverlay_args("C:/g/mods", "C:/a/temp_overlay", "C:/g", &names),
        vec![
            "mkoverlay",
            "C:/g/mods",
            "C:/a/temp_overlay",
            "--game:C:/g",
            "--mods:10_SkinName/11_Other",
            "--noTFT",
            "--ignoreConflict",
        ]
    );
    assert_eq!(mkoverlay_args("m", "o", "g", &Vec::new())[4], "--mods:");
}

#[test]
fn runoverlay_command_line() {
    assert_eq!(
        runoverlay_args("C:/a/overlay", "C:/a/config.json", "C:/g"),
        vec!["runoverlay", "C:/a/overlay", "C:/a/config.json", "--game:C:/g", "--opts:configless"]
    );
    assert_eq!(overlay_config(), "{\"enableMods\":true}");
}

#[test]
fn tool_that_vanished_fails_the_build() {
    assert!(check_tool("C:/t/mod-tools.exe", true).is_ok());
    let err = check_tool("C:/t/mod-tools.exe", false).unwrap_err();
    assert!(matches!(err, InjectionError::OverlayError(_)));
    assert_eq!(
        err.detail(),
        "mod-tools.exe was found during initialization but is no longer at path: C:/t/mod-tools.exe. Please reinstall the application or obtain mod-tools.exe from CSLOL Manager."
    );
}
