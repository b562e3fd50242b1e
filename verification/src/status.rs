//! Status of the Tailscale integration, which the desktop build only
//! announces.

use vstd::prelude::*;
use vstd::string::StringExecFns;

verus! {

/// What the application reports about its Tailscale connection.
#[derive(Debug, Clone, PartialEq, Eq)]
pub struct TailscaleStatus {
    pub status: String,
    pub message: String,
}

/// The answer to a Tailscale command: a note that names the command and
/// says that nothing was run.
pub open spec fn command_note(command: Seq<char>) -> Seq<char> {
    "Tailscale command '"@ + command + "' would run here (desktop-only feature)"@
}

/// Answers a Tailscale command without running it.
pub fn run_tailscale_command(command: String) -> (answer: Result<String, String>)
    ensures
        answer matches Ok(note) && note@ == command_note(command@),
{
    let mut note = String::from_str("Tailscale command '");
    note.append(command.as_str());
    note.append("' would run here (desktop-only feature)");
    Ok(note)
}

/// Reports the Tailscale connection, which is never up.
pub fn get_tailscale_status() -> (report: Result<TailscaleStatus, String>)
    ensures
        report matches Ok(status) && status.status@ == "disconnected"@ && status.message@
            == "Tailscale integration coming soon for desktop"@,
{
    Ok(
        TailscaleStatus {
            status: String::from_str("disconnected"),
            message: String::from_str("Tailscale integration coming soon for desktop"),
        },
    )
}

} // verus!
