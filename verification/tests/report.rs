use sala::gpg::GpgError;
use sala::{Error, Output};
use std::io;

#[test]
fn output_text_shows_the_secret() {
    assert_eq!(Output::Get("foo/@bar".to_string(), b"baz".to_vec(), false).text(), "\nfoo/@bar: baz\n\n");
    assert_eq!(Output::Get("foo/@bar".to_string(), b"baz".to_vec(), true).text(), "baz\n");
    assert_eq!(Output::Get("p".to_string(), Vec::new(), true).text(), "\n");
    assert_eq!(Output::Get("p".to_string(), "pässwörd".as_bytes().to_vec(), true).text(), "pässwörd\n");
    assert_eq!(Output::NoOutput.text(), "");
}

#[test]
fn output_text_replaces_what_is_no_text() {
    assert_eq!(Output::Get("p".to_string(), vec![b'a', 0xff, b'b'], true).text(), "a\u{fffd}b\n");
    assert_eq!(Output::Get("p".to_string(), vec![0xe2, 0x82], false).text(), "\np: \u{fffd}\n\n");
}

#[test]
fn error_message_says_what_went_wrong() {
    assert_eq!(Error::AlreadyInitialized.message(), "Error: The master key already exists\n");
    assert_eq!(Error::CannotInitRepo.message(), "Error: Failed to initialize a new repository\n");
    assert_eq!(
        Error::FileDoesNotExist("a/b".to_string()).message(),
        "Error: File does not exist or invalid: a/b\n"
    );
    assert_eq!(Error::InputsDidntMatch.message(), "\nInputs did not match.\n");
    assert_eq!(Error::NoRepo.message(), "Run `sala init' first\n");
    assert_eq!(
        Error::TargetIsDirectory("foo".to_string()).message(),
        "Error: Target is a directory: foo\n"
    );
    assert_eq!(
        Error::CannotCreateDirectory("foo/@bar".to_string()).message(),
        "Error: Cannot create directory: foo/@bar\n"
    );
    assert_eq!(Error::UnlockFailed.message(), "\nError: Unable to unlock the encryption key\n");
    assert_eq!(Error::Usage.message(), "Try `sala --help'\n");
    assert_eq!(
        Error::CannotChangeToDir("/nowhere".to_string()).message(),
        "Error: Cannot change to directory: /nowhere\n"
    );
    assert_eq!(
        Error::ToolFailed(GpgError::IOError(io::Error::from_raw_os_error(2))).message(),
        "Error: The encryption tool could not be run\n"
    );
    assert_eq!(
        Error::ToolFailed(GpgError::OperationFailed("gpg: no\n".to_string())).message(),
        "Error: The encryption tool failed\ngpg: no\n"
    );
}
