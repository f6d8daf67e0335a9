//! What is shown of a result.

use vstd::prelude::*;
use vstd::string::StringExecFns;
use crate::gpg::GpgError;
use crate::gpg::GpgErrorModel;
use vstd::utf8::decode_utf8;
use vstd::utf8::valid_utf8;
use crate::text::lossy;
use crate::text::lossy_text;
use crate::Error;
use crate::ErrorModel;
use crate::Output;
use crate::OutputModel;

verus! {

/// How a secret is set out: bare on a line of its own, or after its path
/// between two empty lines.
pub open spec fn shown(path: Seq<char>, secret: Seq<char>, raw: bool) -> Seq<char> {
    if raw {
        secret + "\n"@
    } else {
        "\n"@ + path + ": "@ + secret + "\n\n"@
    }
}

/// What is printed of an output: the secret, read leniently as text and set
/// out; of no output, nothing.
pub open spec fn output_text(output: OutputModel) -> Seq<char> {
    match output {
        OutputModel::Get(path, secret, raw) => shown(path, lossy(secret), raw),
        OutputModel::NoOutput => Seq::empty(),
    }
}

/// What is said of a failure of the tool.
pub open spec fn tool_failure_text(cause: GpgErrorModel) -> Seq<char> {
    match cause {
        GpgErrorModel::IOError(e) => "Error: The encryption tool could not be run\n"@,
        GpgErrorModel::OperationFailed(message) => "Error: The encryption tool failed\n"@ + message,
    }
}

/// What is said of an error.
pub open spec fn error_text(error: ErrorModel) -> Seq<char> {
    match error {
        ErrorModel::AlreadyInitialized => "Error: The master key already exists\n"@,
        ErrorModel::CannotInitRepo => "Error: Failed to initialize a new repository\n"@,
        ErrorModel::FileDoesNotExist(path) => "Error: File does not exist or invalid: "@ + path
            + "\n"@,
        ErrorModel::InputsDidntMatch => "\nInputs did not match.\n"@,
        ErrorModel::NoRepo => "Run `sala init' first\n"@,
        ErrorModel::TargetIsDirectory(path) => "Error: Target is a directory: "@ + path + "\n"@,
        ErrorModel::CannotCreateDirectory(path) => "Error: Cannot create directory: "@ + path
            + "\n"@,
        ErrorModel::UnlockFailed => "\nError: Unable to unlock the encryption key\n"@,
        ErrorModel::Usage => "Try `sala --help'\n"@,
        ErrorModel::CannotChangeToDir(path) => "Error: Cannot change to directory: "@ + path
            + "\n"@,
        ErrorModel::ToolFailed(cause) => tool_failure_text(cause),
    }
}

fn labelled(label: &str, path: &String) -> (r: String)
    ensures
        r@ == label@ + path@ + "\n"@,
{
    let mut text = String::from_str(label);
    text.append(path.as_str());
    text.append("\n");
    text
}

impl Output {
    /// The text to print on standard output. A secret that is well-formed
    /// text is shown as that text, character for character.
    pub fn text(&self) -> (r: String)
        ensures
            r@ == output_text(self@),
            self matches Output::Get(path, secret, raw) ==> (valid_utf8(secret@) ==> r@ == shown(
                path@,
                decode_utf8(secret@),
                *raw,
            )),
    {
        match self {
            Output::Get(path, secret, raw) => {
                let shown = lossy_text(secret.as_slice());
                if *raw {
                    let mut text = shown;
                    text.append("\n");
                    text
                } else {
                    let mut text = String::from_str("\n");
                    text.append(path.as_str());
                    text.append(": ");
                    text.append(shown.as_str());
                    text.append("\n\n");
                    text
                }
            },
            Output::NoOutput => String::new(),
        }
    }
}

impl Error {
    /// The text to print on standard error.
    pub fn message(&self) -> (r: String)
        ensures
            r@ == error_text(self@),
    {
        match self {
            Error::AlreadyInitialized => String::from_str("Error: The master key already exists\n"),
            Error::CannotInitRepo => String::from_str(
                "Error: Failed to initialize a new repository\n",
            ),
            Error::FileDoesNotExist(path) => labelled("Error: File does not exist or invalid: ", path),
            Error::InputsDidntMatch => String::from_str("\nInputs did not match.\n"),
            Error::NoRepo => String::from_str("Run `sala init' first\n"),
            Error::TargetIsDirectory(path) => labelled("Error: Target is a directory: ", path),
            Error::CannotCreateDirectory(path) => labelled("Error: Cannot create directory: ", path),
            Error::UnlockFailed => String::from_str("\nError: Unable to unlock the encryption key\n"),
            Error::Usage => String::from_str("Try `sala --help'\n"),
            Error::CannotChangeToDir(path) => labelled("Error: Cannot change to directory: ", path),
            Error::ToolFailed(cause) => match cause {
                GpgError::IOError(_) => String::from_str(
                    "Error: The encryption tool could not be run\n",
                ),
                GpgError::OperationFailed(message) => {
                    let mut text = String::from_str("Error: The encryption tool failed\n");
                    text.append(message.as_str());
                    text
                },
            },
        }
    }
}

} // verus!
