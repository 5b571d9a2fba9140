use vstd::prelude::*;
use crate::transform::FileError;

verus! {

/// What became of one candidate file.
#[derive(Clone, Debug)]
pub enum FileOutcome {
    /// The file was rewritten.
    Success { path: String },
    /// The file was left alone (or only partly written) because of `error`.
    Failure { path: String, error: FileError },
}

/// A line for the console: to standard error, or to standard output.
#[derive(Clone, Debug)]
pub struct ReportLine {
    pub to_stderr: bool,
    pub text: String,
}

/// The console line for an outcome, as (to standard error, text): a failure
/// is always reported with its message and path; a success only in verbose
/// mode, by its path.
pub open spec fn spec_report(outcome: FileOutcome, verbose: bool) -> Option<(bool, Seq<char>)> {
    match outcome {
        FileOutcome::Failure { path, error } => Some(
            (true, "error "@ + error.message@ + " "@ + path@),
        ),
        FileOutcome::Success { path } => if verbose {
            Some((false, path@))
        } else {
            None
        },
    }
}

/// The line to print for an outcome, if any.
pub fn report(outcome: &FileOutcome, verbose: bool) -> (r: Option<ReportLine>)
    ensures
        match spec_report(*outcome, verbose) {
            Some((to_stderr, text)) => r is Some && r->0.to_stderr == to_stderr && r->0.text@
                == text,
            None => r is None,
        },
{
    match outcome {
        FileOutcome::Failure { path, error } => {
            let mut text = String::from_str("error ");
            text.append(error.message.as_str());
            text.append(" ");
            text.append(path.as_str());
            Some(ReportLine { to_stderr: true, text })
        },
        FileOutcome::Success { path } => {
            if verbose {
                Some(ReportLine { to_stderr: false, text: path.clone() })
            } else {
                None
            }
        },
    }
}

} // verus!
