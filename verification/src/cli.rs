//! The `--license-notice` command-line flag.
//!
//! A command gains a flag that, when given, prints the embedded notice and
//! ends the process successfully before the command's own arguments are
//! turned into values. Without the flag, the arguments are parsed as usual.

use vstd::prelude::*;

verus! {

/// The long name of the flag, written `--license-notice` on the command line.
pub const LICENSE_NOTICE_FLAG: &'static str = "license-notice";

/// The help text of the flag.
pub const LICENSE_NOTICE_HELP: &'static str = "Show license notices";

/// What the command does once it knows whether the flag was given.
pub enum NoticeAction {
    /// Write `output` to standard output, as it is, and exit with `exit_code`.
    ShowNotice { output: String, exit_code: i32 },
    /// Parse the arguments into the command's own values.
    ParseArguments,
}

/// Decides what the command does: with the flag, print the notice exactly as
/// given (no line break is added) and exit with status 0; without it, go on
/// parsing the arguments.
pub fn license_notice_action(flag_given: bool, notice: &str) -> (action: NoticeAction)
    ensures
        flag_given ==> (action matches NoticeAction::ShowNotice { output, exit_code }
            && output@ == notice@ && exit_code == 0),
        !flag_given ==> action is ParseArguments,
{
    if flag_given {
        NoticeAction::ShowNotice { output: notice.to_owned(), exit_code: 0 }
    } else {
        NoticeAction::ParseArguments
    }
}

} // verus!
