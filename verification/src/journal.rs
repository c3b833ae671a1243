//! The marks that lead the lines of the injector's journal.

use vstd::prelude::*;
use vstd::string::*;
use crate::text::{chars_of, contains, occurs};
use crate::types::ModState;

verus! {

/// The name of a state, as it is written in the journal.
pub open spec fn state_name(state: ModState) -> Seq<char> {
    match state {
        ModState::Uninitialized => "Uninitialized"@,
        ModState::Idle => "Idle"@,
        ModState::Busy => "Busy"@,
        ModState::Running => "Running"@,
        ModState::CriticalError => "CriticalError"@,
    }
}

/// The journal's message for a change of state.
pub fn state_change_message(state: ModState) -> (message: String)
    ensures
        message@ == "State changed to: "@ + state_name(state),
{
    let name = match state {
        ModState::Uninitialized => "Uninitialized",
        ModState::Idle => "Idle",
        ModState::Busy => "Busy",
        ModState::Running => "Running",
        ModState::CriticalError => "CriticalError",
    };
    String::from_str("State changed to: ").concat(name)
}

/// The mark for a message about a change of state.
pub open spec fn state_mark(message: Seq<char>) -> Seq<char> {
    if occurs(message, "Busy"@) {
        "⏳ "@
    } else if occurs(message, "Idle"@) {
        "💤 "@
    } else if occurs(message, "Running"@) {
        "▶️ "@
    } else {
        "ℹ️ "@
    }
}

/// The mark that leads a message in the journal. The first of the rules
/// that fits the message decides.
pub open spec fn mark_for(message: Seq<char>) -> Seq<char> {
    if occurs(message, "Initializing"@) {
        "🔄 "@
    } else if occurs(message, "State changed to"@) {
        state_mark(message)
    } else if occurs(message, "Starting skin injection"@) {
        "🚀 "@
    } else if occurs(message, "Stopping skin injection"@) {
        "🛑 "@
    } else if occurs(message, "Skin injection stopped"@) {
        "⏹️ "@
    } else if occurs(message, "Cleaning up"@) {
        "🧹 "@
    } else if occurs(message, "Processing skin"@) {
        "⚙️ "@
    } else if occurs(message, "Found fantome file"@) {
        "📂 "@
    } else if occurs(message, "Processing fantome file"@) {
        "📦 "@
    } else if occurs(message, "Extracting fantome file"@) {
        "📤 "@
    } else if occurs(message, "Creating mod"@) {
        "🛠️ "@
    } else if occurs(message, "valid"@) {
        "✅ "@
    } else if occurs(message, "Copying mod"@) {
        "📋 "@
    } else if occurs(message, "already has EnableMods=1"@) {
        "✨ "@
    } else if occurs(message, "Using mod-tools"@) {
        "🔧 "@
    } else if occurs(message, "overlay"@) && !occurs(message, "failed"@) {
        "🔮 "@
    } else if occurs(message, "succeeded"@) || occurs(message, "successfully"@) {
        "✅ "@
    } else if occurs(message, "failed"@) || occurs(message, "error"@) || occurs(
        message,
        "Error"@,
    ) {
        "❌ "@
    } else {
        "ℹ️ "@
    }
}

fn mentions(chars: &Vec<char>, needle: &str) -> (found: bool)
    ensures
        found == occurs(chars@, needle@),
{
    let wanted = chars_of(needle);
    contains(chars, &wanted)
}

fn state_mark_of(chars: &Vec<char>) -> (mark: &'static str)
    ensures
        mark@ == state_mark(chars@),
{
    if mentions(chars, "Busy") {
        "⏳ "
    } else if mentions(chars, "Idle") {
        "💤 "
    } else if mentions(chars, "Running") {
        "▶️ "
    } else {
        "ℹ️ "
    }
}

fn mark_of(message: &str) -> (mark: &'static str)
    ensures
        mark@ == mark_for(message@),
{
    let chars = chars_of(message);
    if mentions(&chars, "Initializing") {
        "🔄 "
    } else if mentions(&chars, "State changed to") {
        state_mark_of(&chars)
    } else if mentions(&chars, "Starting skin injection") {
        "🚀 "
    } else if mentions(&chars, "Stopping skin injection") {
        "🛑 "
    } else if mentions(&chars, "Skin injection stopped") {
        "⏹️ "
    } else if mentions(&chars, "Cleaning up") {
        "🧹 "
    } else if mentions(&chars, "Processing skin") {
        "⚙️ "
    } else if mentions(&chars, "Found fantome file") {
        "📂 "
    } else if mentions(&chars, "Processing fantome file") {
        "📦 "
    } else if mentions(&chars, "Extracting fantome file") {
        "📤 "
    } else if mentions(&chars, "Creating mod") {
        "🛠️ "
    } else if mentions(&chars, "valid") {
        "✅ "
    } else if mentions(&chars, "Copying mod") {
        "📋 "
    } else if mentions(&chars, "already has EnableMods=1") {
        "✨ "
    } else if mentions(&chars, "Using mod-tools") {
        "🔧 "
    } else if mentions(&chars, "overlay") && !mentions(&chars, "failed") {
        "🔮 "
    } else if mentions(&chars, "succeeded") || mentions(&chars, "successfully") {
        "✅ "
    } else if mentions(&chars, "failed") || mentions(&chars, "error") || mentions(&chars, "Error") {
        "❌ "
    } else {
        "ℹ️ "
    }
}

/// The line that the journal holds for a message: its mark, then the
/// message.
pub fn decorate(message: &str) -> (line: String)
    ensures
        line@ == mark_for(message@) + message@,
{
    String::from_str(mark_of(message)).concat(message)
}

} // verus!
