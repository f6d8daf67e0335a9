use sala::effect::{Reply, Request, Step};
use sala::prompt::{listing_text, pick, read_password, read_secret, read_secret_or_choice, Entry};
use sala::unlock::unlock_repo;
use sala::Error;
use std::io;

fn pending(step: Step<Entry, Result<String, Error>>) -> Entry {
    match step {
        Step::Pending(entry) => entry,
        Step::Finished(result) => panic!("over: {:?}", result),
    }
}

fn finished(step: Step<Entry, Result<String, Error>>) -> Result<String, Error> {
    match step {
        Step::Pending(entry) => panic!("not over: {:?}", entry),
        Step::Finished(result) => result,
    }
}

fn line(text: &str) -> Reply {
    Reply::Line(text.to_string())
}

#[test]
fn read_password_reads_one_line() {
    let entry = read_password("Pass: ");
    assert!(matches!(entry.request(), Request::StdinIsTty));
    let entry = pending(entry.resume(Reply::Flag(false)));
    match entry.request() {
        Request::PromptPasswordStderr(prompt) => assert_eq!(prompt, "Pass: "),
        other => panic!("{:?}", other),
    }
    assert_eq!(finished(entry.resume(line("s3cret"))).unwrap(), "s3cret");

    let entry = pending(read_password("Pass: ").resume(Reply::Flag(true)));
    match entry.request() {
        Request::ReadPasswordFromTty(prompt) => assert_eq!(prompt, "Pass: "),
        other => panic!("{:?}", other),
    }
    assert_eq!(finished(entry.resume(line("7"))).unwrap(), "7");
}

#[test]
fn read_password_takes_a_failed_reading_as_empty() {
    let entry = pending(read_password("Pass: ").resume(Reply::Flag(false)));
    let read = finished(entry.resume(Reply::Failed(io::Error::from_raw_os_error(5))));
    assert_eq!(read.unwrap(), "");
}

#[test]
fn read_secret_wants_the_same_line_twice() {
    let entry = pending(read_secret("New: ", "Again: ").resume(Reply::Flag(false)));
    let entry = pending(entry.resume(line("abc")));
    assert!(matches!(entry.request(), Request::StdinIsTty));
    let entry = pending(entry.resume(Reply::Flag(true)));
    match entry.request() {
        Request::ReadPasswordFromTty(prompt) => assert_eq!(prompt, "Again: "),
        other => panic!("{:?}", other),
    }
    assert_eq!(finished(entry.resume(line("abc"))).unwrap(), "abc");

    let entry = pending(read_secret("New: ", "Again: ").resume(Reply::Flag(false)));
    let entry = pending(entry.resume(line("abc")));
    let entry = pending(entry.resume(Reply::Flag(false)));
    assert!(matches!(finished(entry.resume(line("abd"))), Err(Error::InputsDidntMatch)));

    let entry = pending(read_secret("New: ", "Again: ").resume(Reply::Flag(false)));
    let entry = pending(entry.resume(line("abc")));
    let entry = pending(entry.resume(Reply::Flag(false)));
    assert!(matches!(finished(entry.resume(line("abc "))), Err(Error::InputsDidntMatch)));
}

#[test]
fn read_secret_takes_a_number_as_a_secret() {
    let entry = pending(read_secret("New: ", "Again: ").resume(Reply::Flag(false)));
    let entry = pending(entry.resume(line("0")));
    let entry = pending(entry.resume(Reply::Flag(false)));
    assert_eq!(finished(entry.resume(line("0"))).unwrap(), "0");
}

#[test]
fn read_secret_or_choice_lists_and_picks() {
    let choices = vec!["alpha".to_string(), "beta".to_string()];
    let entry = read_secret_or_choice("Pick: ", "Again: ", &choices);
    match entry.request() {
        Request::Print(text) => assert_eq!(text, "\n0. alpha\n1. beta\n\n"),
        other => panic!("{:?}", other),
    }
    let entry = pending(entry.resume(Reply::Done));
    let entry = pending(entry.resume(Reply::Flag(false)));
    match entry.request() {
        Request::PromptPasswordStderr(prompt) => assert_eq!(prompt, "Pick: "),
        other => panic!("{:?}", other),
    }
    assert_eq!(finished(entry.resume(line("1"))).unwrap(), "beta");
}

#[test]
fn read_secret_or_choice_takes_another_line_as_a_new_secret() {
    let choices = vec!["alpha".to_string(), "beta".to_string()];
    let entry = pending(read_secret_or_choice("Pick: ", "Again: ", &choices).resume(Reply::Done));
    let entry = pending(entry.resume(Reply::Flag(false)));
    let entry = pending(entry.resume(line("2")));
    let entry = pending(entry.resume(Reply::Flag(false)));
    match entry.request() {
        Request::PromptPasswordStderr(prompt) => assert_eq!(prompt, "Again: "),
        other => panic!("{:?}", other),
    }
    assert_eq!(finished(entry.resume(line("2"))).unwrap(), "2");
}

#[test]
fn listing_text_numbers_from_zero() {
    assert_eq!(listing_text(&vec![]), "\n\n");
    assert_eq!(listing_text(&vec!["x".to_string()]), "\n0. x\n\n");
    let many: Vec<String> = (0..12).map(|i| format!("w{}", i)).collect();
    let text = listing_text(&many);
    assert_eq!(text.starts_with("\n0. w0\n1. w1\n"), true);
    assert_eq!(text.ends_with("10. w10\n11. w11\n\n"), true);
}

#[test]
fn pick_takes_numbers_below_the_count() {
    let choices = Some(vec!["a".to_string(), "b".to_string(), "c".to_string()]);
    assert_eq!(pick("0", &choices), Some("a".to_string()));
    assert_eq!(pick("2", &choices), Some("c".to_string()));
    assert_eq!(pick("+1", &choices), Some("b".to_string()));
    assert_eq!(pick("3", &choices), None);
    assert_eq!(pick("-0", &choices), None);
    assert_eq!(pick("", &choices), None);
    assert_eq!(pick("a", &choices), None);
    assert_eq!(pick("18446744073709551616", &choices), None);
    assert_eq!(pick("0", &None), None);
    assert_eq!(pick("0", &Some(Vec::new())), None);
}

#[test]
fn unlock_repo_asks_for_the_key_file_first() {
    let unlock = unlock_repo("/srv/secrets");
    match unlock.request() {
        Request::IsFile(path) => assert_eq!(path, "/srv/secrets/.sala/key"),
        other => panic!("{:?}", other),
    }
    match unlock.resume(Reply::Flag(false)) {
        Step::Finished(Err(Error::NoRepo)) => {}
        other => panic!("{:?}", other),
    }
    let unlock = match unlock_repo("rel").resume(Reply::Flag(true)) {
        Step::Pending(next) => next,
        other => panic!("{:?}", other),
    };
    assert!(matches!(unlock.request(), Request::StdinIsTty));
    let unlock = match unlock.resume(Reply::Flag(false)) {
        Step::Pending(next) => next,
        other => panic!("{:?}", other),
    };
    let unlock = match unlock.resume(Reply::Line("pä".to_string())) {
        Step::Pending(next) => next,
        other => panic!("{:?}", other),
    };
    assert!(matches!(unlock.request(), Request::OpenPipe));
    let mut state = unlock;
    for reply in [Reply::Pipe(3, 4), Reply::Done, Reply::Done, Reply::Done] {
        state = match state.resume(reply) {
            Step::Pending(next) => next,
            other => panic!("{:?}", other),
        };
    }
    match state.request() {
        Request::Write(fd, bytes) => {
            assert_eq!(fd, 4);
            assert_eq!(bytes, "pä".as_bytes());
        }
        other => panic!("{:?}", other),
    }
}
