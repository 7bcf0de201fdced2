use vstd::prelude::*;
use vstd::string::StringExecFns;
use crate::text::{decode_lossy, lossy_of};

verus! {

/// What the driver observed after trying to run a one-shot command to
/// completion.
pub enum LaunchOutcome {
    /// The process was launched and ran to completion: whether its exit
    /// status indicated success, and what it wrote to its two streams.
    Completed { exit_success: bool, stdout: Vec<u8>, stderr: Vec<u8> },
    /// The process could not even be launched; `message` describes the
    /// launch error.
    LaunchFailed { message: String },
}

/// The failure text reported when `program` cannot be launched.
pub open spec fn launch_failure_text(program: Seq<char>, message: Seq<char>) -> Seq<char> {
    "Failed to execute "@ + program + ": "@ + message
}

/// Turns a one-shot command's outcome into its result: the captured
/// standard output on a successful exit, the captured standard error on a
/// failing one, and a launch-error description when the program could not
/// be started. Both streams are decoded as UTF-8 with lossy replacement;
/// a failure never propagates further than this result.
pub fn one_shot_result(program: &str, outcome: LaunchOutcome) -> (r: Result<String, String>)
    ensures
        (outcome is Completed && outcome->exit_success) ==> (r matches Ok(s) && s@ == lossy_of(
            outcome->stdout@,
        )),
        (outcome is Completed && !outcome->exit_success) ==> (r matches Err(s) && s@ == lossy_of(
            outcome->stderr@,
        )),
        outcome is LaunchFailed ==> (r matches Err(s) && s@ == launch_failure_text(
            program@,
            outcome->message@,
        )),
{
    match outcome {
        LaunchOutcome::Completed { exit_success, stdout, stderr } => {
            if exit_success {
                Ok(decode_lossy(stdout.as_slice()))
            } else {
                Err(decode_lossy(stderr.as_slice()))
            }
        },
        LaunchOutcome::LaunchFailed { message } => {
            let mut s: String = "Failed to execute ".to_owned();
            s.append(program);
            s.append(": ");
            s.append(message.as_str());
            Err(s)
        },
    }
}

} // verus!
