use vstd::prelude::*;
use vstd::string::*;

use crate::error::S3ExampleError;

verus! {

/// The region used when neither the command line nor the environment names one.
pub const DEFAULT_REGION: &'static str = "us-east-1";

/// A command of the command-line tool that acts on one file.
#[derive(Debug, Clone, Copy, PartialEq, Eq)]
pub enum FileCommand {
    Upload,
    Delete,
}

/// The line that the command-line tool prints once `command` on `file_name`
/// has finished; `failure` is the error's message when it failed.
pub open spec fn outcome_text(command: FileCommand, file_name: Seq<char>, failure: Option<Seq<char>>) -> Seq<char> {
    match failure {
        None => match command {
            FileCommand::Upload => "Uploaded '"@ + file_name + "' successfully."@,
            FileCommand::Delete => "Deleted '"@ + file_name + "' successfully."@,
        },
        Some(e) => match command {
            FileCommand::Upload => "Failed to upload '"@ + file_name + "': "@ + e,
            FileCommand::Delete => "Failed to delete '"@ + file_name + "': "@ + e,
        },
    }
}

/// The line to print once `command` on `file_name` has ended with `outcome`:
/// a success line for standard output, or a failure line for standard error.
pub fn outcome_line(command: FileCommand, file_name: &str, outcome: &Result<(), S3ExampleError>) -> (line: String)
    ensures
        line@ == outcome_text(
            command,
            file_name@,
            match outcome {
                Ok(()) => None,
                Err(e) => Some(e.msg()),
            },
        ),
{
    match outcome {
        Ok(()) => match command {
            FileCommand::Upload => String::from_str("Uploaded '").concat(file_name).concat(
                "' successfully.",
            ),
            FileCommand::Delete => String::from_str("Deleted '").concat(file_name).concat(
                "' successfully.",
            ),
        },
        Err(e) => match command {
            FileCommand::Upload => String::from_str("Failed to upload '").concat(file_name).concat(
                "': ",
            ).concat(e.0.as_str()),
            FileCommand::Delete => String::from_str("Failed to delete '").concat(file_name).concat(
                "': ",
            ).concat(e.0.as_str()),
        },
    }
}

/// The line for a finished command names the command's outcome and the file
/// in quotes; a failure line ends with the error's message.
pub proof fn law_outcome_text(file_name: Seq<char>, e: Seq<char>)
    ensures
        outcome_text(FileCommand::Upload, file_name, None) == "Uploaded '"@ + file_name
            + "' successfully."@,
        outcome_text(FileCommand::Delete, file_name, None) == "Deleted '"@ + file_name
            + "' successfully."@,
        outcome_text(FileCommand::Upload, file_name, Some(e)) == "Failed to upload '"@ + file_name
            + "': "@ + e,
        outcome_text(FileCommand::Delete, file_name, Some(e)) == "Failed to delete '"@ + file_name
            + "': "@ + e,
{
}

} // verus!
