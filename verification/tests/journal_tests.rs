use skin_injection::journal::{decorate, state_change_message};
use skin_injection::types::ModState;

#[test]
fn state_changes_are_named() {
    assert_eq!(state_change_message(ModState::Uninitialized), "State changed to: Uninitialized");
    assert_eq!(state_change_message(ModState::Idle), "State changed to: Idle");
    assert_eq!(state_change_message(ModState::Busy), "State changed to: Busy");
    assert_eq!(state_change_message(ModState::Running), "State changed to: Running");
    assert_eq!(state_change_message(ModState::CriticalError), "State changed to: CriticalError");
}

#[test]
fn state_changes_are_marked_by_state() {
    assert_eq!(decorate("State changed to: Busy"), "\u{23f3} State changed to: Busy");
    assert_eq!(decorate("State changed to: Idle"), "\u{1f4a4} State changed to: Idle");
    assert_eq!(decorate("State changed to: Running"), "\u{25b6}\u{fe0f} State changed to: Running");
    assert_eq!(
        decorate("State changed to: CriticalError"),
        "\u{2139}\u{fe0f} State changed to: CriticalError"
    );
}

#[test]
fn first_fitting_rule_decides_the_mark() {
    let cases = [
        ("Initializing...", "\u{1f504} "),
        ("Initializing failed", "\u{1f504} "),
        ("Starting skin injection process...", "\u{1f680} "),
        ("Stopping skin injection process...", "\u{1f6d1} "),
        ("Skin injection stopped", "\u{23f9}\u{fe0f} "),
        ("Cleaning up existing mods in game directory", "\u{1f9f9} "),
        ("Processing skin 1/2: champion_id=1", "\u{2699}\u{fe0f} "),
        ("Found fantome file: a.fantome", "\u{1f4c2} "),
        ("Processing fantome file: a.fantome", "\u{1f4e6} "),
        ("Extracting fantome file: a.fantome", "\u{1f4e4} "),
        ("Creating mod overlay...", "\u{1f6e0}\u{fe0f} "),
        ("Mod structure is valid, copying to game directory", "\u{2705} "),
        ("ERROR: Processing failed, mod structure invalid", "\u{2705} "),
        ("Copying mod to game directory: x", "\u{1f4cb} "),
        ("Game.cfg already has EnableMods=1", "\u{2728} "),
        ("Using mod-tools.exe from: x", "\u{1f527} "),
        ("Starting overlay process...", "\u{1f52e} "),
        ("Retrying overlay run (attempt 2/3)", "\u{1f52e} "),
        ("Overlay creation succeeded!", "\u{2705} "),
        ("Memory-mapped extraction completed successfully", "\u{2705} "),
        ("Overlay creation failed: x", "\u{274c} "),
        ("Could not clean temp overlay directory: failed", "\u{274c} "),
        ("an error occurred", "\u{274c} "),
        ("Error", "\u{274c} "),
        ("Updated Game.cfg to enable mods", "\u{2139}\u{fe0f} "),
        ("", "\u{2139}\u{fe0f} "),
    ];
    for (message, mark) in cases {
        assert_eq!(decorate(message), format!("{}{}", mark, message), "{:?}", message);
    }
}
