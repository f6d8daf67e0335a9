use sala::effect::{Exit, Reply, Request, Step, Wiring};
use sala::gpg::{decrypt, encrypt, gpg_encrypt_impl, gpg_err, is_success, GpgError, Invocation, Writer};
use std::io;

type ToolStep = Step<Invocation, Result<Vec<u8>, GpgError>>;
type WriteStep = Step<Writer, Result<(), GpgError>>;

fn failure(code: i32) -> Reply {
    Reply::Failed(io::Error::from_raw_os_error(code))
}

fn ended(code: Option<i32>, stdout: &[u8], stderr: &[u8]) -> Reply {
    Reply::Exit(Exit { code, stdout: stdout.to_vec(), stderr: stderr.to_vec() })
}

// Runs an invocation against the replies, and gives what it asked for and
// how it ended.
fn transcript(tool: Invocation, replies: Vec<Reply>) -> (Vec<String>, Option<Result<Vec<u8>, GpgError>>) {
    let mut asked = Vec::new();
    let mut state = tool;
    for reply in replies {
        asked.push(format!("{:?}", state.request()));
        match state.resume(reply) {
            Step::Pending(next) => state = next,
            Step::Finished(result) => return (asked, Some(result)),
        }
    }
    asked.push(format!("{:?}", state.request()));
    (asked, None)
}

fn written(writer: Writer, replies: Vec<Reply>) -> (Vec<String>, Option<Result<(), GpgError>>) {
    let mut asked = Vec::new();
    let mut state = writer;
    for reply in replies {
        asked.push(format!("{:?}", state.request()));
        match state.resume(reply) {
            Step::Pending(next) => state = next,
            Step::Finished(result) => return (asked, Some(result)),
        }
    }
    asked.push(format!("{:?}", state.request()));
    (asked, None)
}

fn os_error(result: Option<Result<Vec<u8>, GpgError>>) -> Option<i32> {
    match result {
        Some(Err(GpgError::IOError(e))) => e.raw_os_error(),
        other => panic!("no system failure: {:?}", other),
    }
}

const DECRYPT_SPAWN: &str = "Spawn(Launch { program: \"gpg\", args: [\"--batch\", \"--no-tty\", \"--armor\", \"--decrypt\", \"--passphrase-fd\", \"7\", \"--\", \"/r/k\"], dir: None, stdin: Inherit, stdout: Piped, stderr: Piped })";

#[test]
fn decrypt_hands_the_passphrase_over_the_pipe() {
    let (asked, result) = transcript(
        decrypt("/r/k", b"pass phrase"),
        vec![
            Reply::Pipe(7, 8),
            Reply::Done,
            Reply::Done,
            Reply::Done,
            Reply::Done,
            Reply::Done,
            ended(Some(0), b"plain\n", b"gpg: note\n"),
        ],
    );
    assert_eq!(
        asked,
        vec![
            "OpenPipe",
            "SetCloseOnExec(8)",
            DECRYPT_SPAWN,
            "Close(7)",
            "Write(8, [112, 97, 115, 115, 32, 112, 104, 114, 97, 115, 101])",
            "Close(8)",
            "Wait",
        ]
    );
    assert_eq!(result.unwrap().unwrap(), b"plain\n");
}

#[test]
fn decrypt_reports_what_a_failed_tool_wrote() {
    for code in [Some(2), Some(1), Some(-1), None] {
        let (_, result) = transcript(
            decrypt("/r/k", b"k"),
            vec![
                Reply::Pipe(7, 8),
                Reply::Done,
                Reply::Done,
                Reply::Done,
                Reply::Done,
                Reply::Done,
                ended(code, b"half the plain", b"gpg: decryption failed: Bad session key\n"),
            ],
        );
        match result {
            Some(Err(GpgError::OperationFailed(message))) => {
                assert_eq!(message, "gpg: decryption failed: Bad session key\n")
            }
            other => panic!("{:?}", other),
        }
    }
}

#[test]
fn decrypt_without_a_pipe_ends_at_once() {
    let (asked, result) = transcript(decrypt("/r/k", b"k"), vec![failure(24)]);
    assert_eq!(asked, vec!["OpenPipe"]);
    assert_eq!(os_error(result), Some(24));
}

#[test]
fn decrypt_closes_both_ends_where_the_write_end_cannot_be_marked() {
    let (asked, result) =
        transcript(decrypt("/r/k", b"k"), vec![Reply::Pipe(7, 8), failure(9), Reply::Done, Reply::Done]);
    assert_eq!(asked, vec!["OpenPipe", "SetCloseOnExec(8)", "Close(7)", "Close(8)"]);
    assert_eq!(os_error(result), Some(9));
}

#[test]
fn decrypt_closes_both_ends_where_the_tool_cannot_be_started() {
    let (asked, result) = transcript(
        decrypt("/r/k", b"k"),
        vec![Reply::Pipe(7, 8), Reply::Done, failure(2), failure(5), failure(5)],
    );
    assert_eq!(asked, vec!["OpenPipe", "SetCloseOnExec(8)", DECRYPT_SPAWN, "Close(7)", "Close(8)"]);
    assert_eq!(os_error(result), Some(2));
}

#[test]
fn decrypt_closes_the_write_end_where_the_read_end_cannot_be_closed() {
    let (asked, result) = transcript(
        decrypt("/r/k", b"k"),
        vec![Reply::Pipe(7, 8), Reply::Done, Reply::Done, failure(5), Reply::Done],
    );
    assert_eq!(asked, vec!["OpenPipe", "SetCloseOnExec(8)", DECRYPT_SPAWN, "Close(7)", "Close(8)"]);
    assert_eq!(os_error(result), Some(5));
}

#[test]
fn decrypt_closes_the_write_end_where_the_passphrase_cannot_be_written() {
    let (asked, result) = transcript(
        decrypt("/r/k", b"k"),
        vec![Reply::Pipe(7, 8), Reply::Done, Reply::Done, Reply::Done, failure(32), Reply::Done],
    );
    assert_eq!(asked[4], "Write(8, [107])");
    assert_eq!(asked[5], "Close(8)");
    assert_eq!(asked.len(), 6);
    assert_eq!(os_error(result), Some(32));
}

#[test]
fn decrypt_goes_on_where_the_write_end_cannot_be_closed() {
    let (asked, result) = transcript(
        decrypt("/r/k", b"k"),
        vec![
            Reply::Pipe(7, 8),
            Reply::Done,
            Reply::Done,
            Reply::Done,
            Reply::Done,
            failure(5),
            ended(Some(0), b"p", b""),
        ],
    );
    assert_eq!(asked[6], "Wait");
    assert_eq!(result.unwrap().unwrap(), b"p");
}

#[test]
fn decrypt_reports_a_failed_wait() {
    let (_, result) = transcript(
        decrypt("/r/k", b"k"),
        vec![Reply::Pipe(7, 8), Reply::Done, Reply::Done, Reply::Done, Reply::Done, Reply::Done, failure(10)],
    );
    assert_eq!(os_error(result), Some(10));
}

#[test]
fn decrypt_disregards_replies_of_another_kind() {
    let (asked, result) = transcript(
        decrypt("/r/k", b"k"),
        vec![Reply::Done, Reply::Flag(true), Reply::Pipe(7, 8), Reply::Pipe(1, 2), Reply::Line(String::new())],
    );
    assert_eq!(
        asked,
        vec!["OpenPipe", "OpenPipe", "OpenPipe", "SetCloseOnExec(8)", "SetCloseOnExec(8)", "SetCloseOnExec(8)"]
    );
    assert!(result.is_none());
}

#[test]
fn encrypt_impl_feeds_the_data_after_the_passphrase() {
    let (asked, result) = transcript(
        gpg_encrypt_impl("séance", b"key", "AES-256"),
        vec![
            Reply::Pipe(-1, 12),
            Reply::Done,
            Reply::Done,
            Reply::Done,
            Reply::Done,
            Reply::Done,
            Reply::Done,
            ended(Some(0), b"", b""),
        ],
    );
    assert_eq!(
        asked,
        vec![
            "OpenPipe",
            "SetCloseOnExec(12)",
            "Spawn(Launch { program: \"gpg\", args: [\"--batch\", \"--no-tty\", \"--armor\", \"--symmetric\", \"--cipher-algo\", \"AES-256\", \"--passphrase-fd\", \"-1\"], dir: None, stdin: Piped, stdout: File, stderr: Piped })",
            "Close(-1)",
            "Write(12, [107, 101, 121])",
            "Close(12)",
            "Feed([115, 195, 169, 97, 110, 99, 101])",
            "Wait",
        ]
    );
    assert_eq!(result.unwrap().unwrap(), b"");
}

#[test]
fn encrypt_impl_reports_a_failed_feeding() {
    let (asked, result) = transcript(
        gpg_encrypt_impl("d", b"k", "c"),
        vec![Reply::Pipe(3, 4), Reply::Done, Reply::Done, Reply::Done, Reply::Done, Reply::Done, failure(32)],
    );
    assert_eq!(asked.len(), 7);
    assert_eq!(os_error(result), Some(32));
}

#[test]
fn gpg_err_reads_the_message_leniently() {
    match gpg_err(b"gpg: bad\n") {
        GpgError::OperationFailed(message) => assert_eq!(message, "gpg: bad\n"),
        other => panic!("{:?}", other),
    }
    match gpg_err(&[b'x', 0xc3, b'y']) {
        GpgError::OperationFailed(message) => assert_eq!(message, "x\u{fffd}y"),
        other => panic!("{:?}", other),
    }
}

#[test]
fn is_success_wants_code_zero() {
    assert_eq!(is_success(Some(0)), true);
    assert_eq!(is_success(Some(1)), false);
    assert_eq!(is_success(Some(-1)), false);
    assert_eq!(is_success(None), false);
}

fn tool_replies(last: Reply) -> Vec<Reply> {
    vec![Reply::Pipe(3, 4), Reply::Done, Reply::Done, Reply::Done, Reply::Done, Reply::Done, Reply::Done, last]
}

#[test]
fn encrypt_renames_the_temporary_file_after_success() {
    let mut replies = vec![Reply::Done];
    replies.extend(tool_replies(ended(Some(0), b"", b"")));
    replies.push(Reply::Done);
    let (asked, result) = written(encrypt("data", b"key", "/r/foo/@s", "AES-128"), replies);
    assert_eq!(asked[0], "CreateFile(\"/r/foo/@s.tmp\")");
    assert_eq!(asked[1], "OpenPipe");
    assert_eq!(asked[8], "Wait");
    assert_eq!(asked[9], "Rename(\"/r/foo/@s.tmp\", \"/r/foo/@s\")");
    assert_eq!(asked.len(), 10);
    assert!(matches!(result, Some(Ok(()))));
    assert_eq!(asked.iter().filter(|a| a.contains("\"/r/foo/@s\"")).count(), 1);
}

#[test]
fn encrypt_ends_where_the_temporary_file_cannot_be_created() {
    let (asked, result) = written(encrypt("data", b"key", "/r/@s", "AES-128"), vec![failure(13)]);
    assert_eq!(asked, vec!["CreateFile(\"/r/@s.tmp\")"]);
    match result {
        Some(Err(GpgError::IOError(e))) => assert_eq!(e.raw_os_error(), Some(13)),
        other => panic!("{:?}", other),
    }
}

#[test]
fn encrypt_removes_the_temporary_file_after_a_failed_tool() {
    let mut replies = vec![Reply::Done];
    replies.extend(tool_replies(ended(Some(2), b"", b"gpg: no\n")));
    replies.push(failure(2));
    let (asked, result) = written(encrypt("data", b"key", "/r/@s", "AES-128"), replies);
    assert_eq!(asked[9], "RemoveFile(\"/r/@s.tmp\")");
    assert_eq!(asked.len(), 10);
    assert_eq!(asked.iter().any(|a| a.starts_with("Rename")), false);
    match result {
        Some(Err(GpgError::OperationFailed(message))) => assert_eq!(message, "gpg: no\n"),
        other => panic!("{:?}", other),
    }
}

#[test]
fn encrypt_removes_the_temporary_file_where_the_tool_cannot_be_started() {
    let replies = vec![Reply::Done, Reply::Pipe(3, 4), Reply::Done, failure(2), Reply::Done, Reply::Done, Reply::Done];
    let (asked, result) = written(encrypt("data", b"key", "/r/@s", "AES-128"), replies);
    assert_eq!(asked[4], "Close(3)");
    assert_eq!(asked[5], "Close(4)");
    assert_eq!(asked[6], "RemoveFile(\"/r/@s.tmp\")");
    match result {
        Some(Err(GpgError::IOError(e))) => assert_eq!(e.raw_os_error(), Some(2)),
        other => panic!("{:?}", other),
    }
}

#[test]
fn encrypt_removes_the_temporary_file_after_a_failed_renaming() {
    let mut replies = vec![Reply::Done];
    replies.extend(tool_replies(ended(Some(0), b"", b"")));
    replies.push(failure(18));
    replies.push(Reply::Done);
    let (asked, result) = written(encrypt("data", b"key", "/r/@s", "AES-128"), replies);
    assert_eq!(asked[9], "Rename(\"/r/@s.tmp\", \"/r/@s\")");
    assert_eq!(asked[10], "RemoveFile(\"/r/@s.tmp\")");
    match result {
        Some(Err(GpgError::IOError(e))) => assert_eq!(e.raw_os_error(), Some(18)),
        other => panic!("{:?}", other),
    }
}

#[test]
fn the_tool_is_wired_for_its_purpose() {
    let launch = |tool: Invocation| match tool.resume(Reply::Pipe(3, 4)) {
        Step::Pending(armed) => match armed.resume(Reply::Done) {
            Step::Pending(ready) => match ready.request() {
                Request::Spawn(launch) => launch,
                other => panic!("{:?}", other),
            },
            Step::Finished(r) => panic!("{:?}", r),
        },
        Step::Finished(r) => panic!("{:?}", r),
    };
    let reading = launch(decrypt("p", b"k"));
    assert_eq!((reading.stdin, reading.stdout, reading.stderr), (Wiring::Inherit, Wiring::Piped, Wiring::Piped));
    let writing = launch(gpg_encrypt_impl("d", b"k", "c"));
    assert_eq!((writing.stdin, writing.stdout, writing.stderr), (Wiring::Piped, Wiring::File, Wiring::Piped));
}

#[test]
fn step_types_are_nameable() {
    let step: ToolStep = decrypt("p", b"k").resume(Reply::Done);
    assert!(matches!(step, Step::Pending(_)));
    let step: WriteStep = encrypt("d", b"k", "t", "c").resume(Reply::Flag(false));
    assert!(matches!(step, Step::Pending(_)));
}
