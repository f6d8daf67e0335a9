use sala::effect::{Exit, Reply, Request, Step, Wiring};
use sala::hooks::{
    get_hook_dirs, hook_after, hook_args, hook_name, hook_warning, run_hook, run_hook_script, Hook,
    HookRun,
};
use sala::Output;
use std::io;

fn pending(step: Step<HookRun, Vec<String>>) -> HookRun {
    match step {
        Step::Pending(run) => run,
        Step::Finished(warnings) => panic!("over: {:?}", warnings),
    }
}

fn finished(step: Step<HookRun, Vec<String>>) -> Vec<String> {
    match step {
        Step::Pending(run) => panic!("not over: {:?}", run),
        Step::Finished(warnings) => warnings,
    }
}

fn ended(code: Option<i32>) -> Reply {
    Reply::Exit(Exit { code, stdout: Vec::new(), stderr: Vec::new() })
}

#[test]
fn hook_name_is_the_file_name() {
    assert_eq!(hook_name(&Hook::PostGet("secret".to_string())), "post-get");
    assert_eq!(hook_name(&Hook::PostSet), "post-set");
}

#[test]
fn hook_args_are_the_path_and_the_secret() {
    assert_eq!(hook_args(&Hook::PostGet("s3cret".to_string()), "foo/@bar"), vec!["foo/@bar", "s3cret"]);
    assert_eq!(hook_args(&Hook::PostSet, "foo/@bar"), vec!["foo/@bar"]);
}

#[test]
fn hook_warning_names_the_program_and_the_status() {
    assert_eq!(
        hook_warning("/repo/.sala/post-get", Some(1)),
        "Hook \"/repo/.sala/post-get\" failed with status 1"
    );
    assert_eq!(
        hook_warning("/repo/.sala/post-set", Some(-3)),
        "Hook \"/repo/.sala/post-set\" failed with status -3"
    );
    assert_eq!(
        hook_warning("/repo/.sala/post-set", None),
        "Hook \"/repo/.sala/post-set\" failed with status (signaled)"
    );
    assert_eq!(
        hook_warning("odd \"name\"\n", Some(0)),
        "Hook \"odd \\\"name\\\"\\n\" failed with status 0"
    );
}

#[test]
fn run_hook_script_warns_unless_the_code_is_zero() {
    assert_eq!(run_hook_script("/h", Some(0)), None);
    assert_eq!(run_hook_script("/h", Some(2)), Some("Hook \"/h\" failed with status 2".to_string()));
    assert_eq!(
        run_hook_script("/h", None),
        Some("Hook \"/h\" failed with status (signaled)".to_string())
    );
}

#[test]
fn get_hook_dirs_lists_the_repository_first() {
    assert_eq!(get_hook_dirs("/repo", None), vec!["/repo/.sala"]);
    assert_eq!(
        get_hook_dirs("/repo", Some("/home/u/.config".to_string())),
        vec!["/repo/.sala", "/home/u/.config/sala"]
    );
}

#[test]
fn hook_after_follows_the_operation() {
    match hook_after(&Output::Get("p".to_string(), b"hello".to_vec(), false), false) {
        Some(Hook::PostGet(secret)) => assert_eq!(secret, "hello"),
        other => panic!("{:?}", other),
    }
    match hook_after(&Output::Get("p".to_string(), vec![b'a', 0xff, b'b'], true), false) {
        Some(Hook::PostGet(secret)) => assert_eq!(secret, "a\u{fffd}b"),
        other => panic!("{:?}", other),
    }
    assert!(matches!(hook_after(&Output::NoOutput, false), Some(Hook::PostSet)));
    assert!(matches!(hook_after(&Output::NoOutput, true), None));
}

#[test]
fn run_hook_runs_the_program_in_each_directory() {
    let run = run_hook("/repo", "foo/@bar", Hook::PostGet("baz".to_string()));
    assert!(matches!(run.request(), Request::ConfigDir));
    let run = pending(run.resume(Reply::Directory(Some("/cfg".to_string()))));
    match run.request() {
        Request::Spawn(launch) => {
            assert_eq!(launch.program, "/repo/.sala/post-get");
            assert_eq!(launch.args, vec!["foo/@bar", "baz"]);
            assert_eq!(launch.dir, Some("/repo".to_string()));
            assert_eq!(launch.stdin, Wiring::Inherit);
            assert_eq!(launch.stdout, Wiring::Inherit);
            assert_eq!(launch.stderr, Wiring::Inherit);
        }
        other => panic!("{:?}", other),
    }
    let run = pending(run.resume(Reply::Done));
    assert!(matches!(run.request(), Request::Wait));
    let run = pending(run.resume(ended(Some(4))));
    match run.request() {
        Request::Spawn(launch) => assert_eq!(launch.program, "/cfg/sala/post-get"),
        other => panic!("{:?}", other),
    }
    let run = pending(run.resume(Reply::Done));
    let warnings = finished(run.resume(ended(None)));
    assert_eq!(
        warnings,
        vec![
            "Hook \"/repo/.sala/post-get\" failed with status 4",
            "Hook \"/cfg/sala/post-get\" failed with status (signaled)"
        ]
    );
}

#[test]
fn run_hook_passes_over_what_cannot_be_run() {
    let run = run_hook("/repo", "x", Hook::PostSet);
    let run = pending(run.resume(Reply::Directory(None)));
    match run.request() {
        Request::Spawn(launch) => {
            assert_eq!(launch.program, "/repo/.sala/post-set");
            assert_eq!(launch.args, vec!["x"]);
        }
        other => panic!("{:?}", other),
    }
    let warnings = finished(run.resume(Reply::Failed(io::Error::from_raw_os_error(2))));
    assert_eq!(warnings, Vec::<String>::new());

    let run = run_hook("/repo", "x", Hook::PostSet);
    let run = pending(run.resume(Reply::Directory(None)));
    let run = pending(run.resume(Reply::Done));
    let warnings = finished(run.resume(Reply::Failed(io::Error::from_raw_os_error(10))));
    assert_eq!(warnings, Vec::<String>::new());

    let run = run_hook("/repo", "x", Hook::PostSet);
    let run = pending(run.resume(Reply::Directory(None)));
    let run = pending(run.resume(Reply::Done));
    let warnings = finished(run.resume(ended(Some(0))));
    assert_eq!(warnings, Vec::<String>::new());
}
