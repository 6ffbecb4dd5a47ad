//! What one run of an external command comes to: its standard output, or
//! an error that names the command and says why it failed.

use vstd::prelude::*;
use vstd::string::*;
use vstd::utf8::*;

verus! {

/// The text that `String::from_utf8_lossy` makes of a byte sequence.
pub uninterp spec fn lossy_utf8(b: Seq<u8>) -> Seq<char>;

/// Relies on `String::from_utf8_lossy`: the text depends on the bytes alone,
/// and bytes that are valid UTF-8 are decoded unchanged.
#[verifier::external_body]
fn lossy_text(b: &Vec<u8>) -> (r: String)
    ensures
        r@ == lossy_utf8(b@),
        valid_utf8(b@) ==> r@ == decode_utf8(b@),
{
    String::from_utf8_lossy(b.as_slice()).into_owned()
}

/// How an attempt to run an external command ended.
pub enum Launch {
    /// The process could not be started; the reason the system gave.
    NotStarted(String),
    /// The process ran and exited.
    Exited { success: bool, stdout: Vec<u8>, stderr: Vec<u8> },
}

/// The error for a command that could not be started.
pub open spec fn launch_failure_message(command: Seq<char>, reason: Seq<char>) -> Seq<char> {
    "Failed to execute "@ + command + "\n"@ + reason
}

/// The error for a command that exited with a failure status.
pub open spec fn exit_failure_message(command: Seq<char>, stderr: Seq<u8>) -> Seq<char> {
    "Failure while running "@ + command + "\n"@ + lossy_utf8(stderr)
}

/// The result of running `command` (its printed form) when it ended as
/// `launch` says: standard output verbatim on success, otherwise an error
/// naming the command with the launch failure or the standard error text.
pub fn run_outcome(command: &String, launch: Launch) -> (r: Result<Vec<u8>, String>)
    ensures
        match launch {
            Launch::NotStarted(reason) => r matches Err(e) && e@ == launch_failure_message(
                command@,
                reason@,
            ),
            Launch::Exited { success, stdout, stderr } => if success {
                r matches Ok(out) && out@ == stdout@
            } else {
                r matches Err(e) && e@ == exit_failure_message(command@, stderr@)
            },
        },
{
    match launch {
        Launch::NotStarted(reason) => {
            let mut msg = String::from_str("Failed to execute ");
            msg.append(command.as_str());
            msg.append("\n");
            msg.append(reason.as_str());
            Err(msg)
        },
        Launch::Exited { success, stdout, stderr } => {
            if success {
                Ok(stdout)
            } else {
                let text = lossy_text(&stderr);
                let mut msg = String::from_str("Failure while running ");
                msg.append(command.as_str());
                msg.append("\n");
                msg.append(text.as_str());
                Err(msg)
            }
        },
    }
}

} // verus!
