use skin_injection::types::PatcherMessage;

#[test]
fn patcher_message_texts() {
    assert_eq!(PatcherMessage::WaitStart.to_string(), "Waiting for league match to start");
    assert_eq!(PatcherMessage::Found.to_string(), "Found League");
    assert_eq!(PatcherMessage::WaitInit.to_string(), "Wait initialized");
    assert_eq!(PatcherMessage::Scan.to_string(), "Scanning");
    assert_eq!(PatcherMessage::NeedSave.to_string(), "Saving");
    assert_eq!(PatcherMessage::WaitPatchable.to_string(), "Wait patchable");
    assert_eq!(PatcherMessage::Patch.to_string(), "Patching");
    assert_eq!(PatcherMessage::WaitExit.to_string(), "Waiting for exit");
    assert_eq!(PatcherMessage::Done.to_string(), "League exited");
}
