//! Hooks: programs of the user's that run after a secret was read or written.
//!
//! A hook is looked for in the repository's control directory and in the
//! user's configuration directory. One that is missing or cannot be started
//! is passed over; one that ends badly gives a warning and nothing more.

use vstd::prelude::*;
use vstd::string::StringExecFns;
use crate::effect::Launch;
use crate::effect::LaunchModel;
use crate::effect::Reply;
use crate::effect::ReplyModel;
use crate::effect::Request;
use crate::effect::RequestModel;
use crate::effect::Step;
use crate::effect::Wiring;
use crate::path::join;
use crate::path::joined;
use crate::path::quote;
use crate::path::quoted;
use vstd::utf8::decode_utf8;
use vstd::utf8::valid_utf8;
use crate::text::lossy;
use crate::text::lossy_text;
use crate::text::signed_decimal;
use crate::text::signed_decimal_text;
use crate::Output;
use crate::OutputModel;

verus! {

/// The occasion of a hook.
#[derive(Debug)]
pub enum Hook {
    /// A secret was read; this is its text.
    PostGet(String),
    /// A secret was written.
    PostSet,
}

/// The model of [`Hook`].
pub enum HookModel {
    PostGet(Seq<char>),
    PostSet,
}

impl View for Hook {
    type V = HookModel;

    open spec fn view(&self) -> HookModel {
        match self {
            Hook::PostGet(secret) => HookModel::PostGet(secret@),
            Hook::PostSet => HookModel::PostSet,
        }
    }
}

/// The file name of a hook's program.
pub open spec fn name_of(hook: HookModel) -> Seq<char> {
    match hook {
        HookModel::PostGet(secret) => "post-get"@,
        HookModel::PostSet => "post-set"@,
    }
}

/// The arguments of a hook's program: the secret's path and, after a
/// reading, the secret.
pub open spec fn args_of(hook: HookModel, path: Seq<char>) -> Seq<Seq<char>> {
    match hook {
        HookModel::PostGet(secret) => seq![path, secret],
        HookModel::PostSet => seq![path],
    }
}

/// How an exit status is written in a warning.
pub open spec fn status_text(code: Option<i32>) -> Seq<char> {
    match code {
        Some(code) => signed_decimal(code as int),
        None => "(signaled)"@,
    }
}

/// The warning of a hook that ended badly.
pub open spec fn warning_of(script: Seq<char>, code: Option<i32>) -> Seq<char> {
    "Hook "@ + quoted(script) + " failed with status "@ + status_text(code)
}

/// The hook's program in the directory `dir`, as a child process that works
/// in the repository and shares the parent's streams.
pub open spec fn hook_launch(
    repo: Seq<char>,
    script: Seq<char>,
    hook: HookModel,
    path: Seq<char>,
) -> LaunchModel {
    LaunchModel {
        program: script,
        args: args_of(hook, path),
        dir: Some(repo),
        stdin: Wiring::Inherit,
        stdout: Wiring::Inherit,
        stderr: Wiring::Inherit,
    }
}

/// The directories in which a hook is looked for, in order.
pub open spec fn hook_dirs(repo: Seq<char>, config_dir: Option<Seq<char>>) -> Seq<Seq<char>> {
    match config_dir {
        Some(dir) => seq![joined(repo, ".sala"@), joined(dir, "sala"@)],
        None => seq![joined(repo, ".sala"@)],
    }
}

/// The hook that is due after an operation that ended with `output`: after a
/// reading, with the secret's text; after a writing; none after the
/// initializing of a repository.
pub open spec fn due_after(output: OutputModel, initialized: bool) -> Option<HookModel> {
    match output {
        OutputModel::Get(path, secret, raw) => Some(HookModel::PostGet(lossy(secret))),
        OutputModel::NoOutput => if initialized {
            None
        } else {
            Some(HookModel::PostSet)
        },
    }
}

/// The file name of a hook's program.
pub fn hook_name(hook: &Hook) -> (r: &'static str)
    ensures
        r@ == name_of(hook@),
{
    match hook {
        Hook::PostGet(_) => "post-get",
        Hook::PostSet => "post-set",
    }
}

/// The arguments of a hook's program.
pub fn hook_args(hook: &Hook, path: &str) -> (r: Vec<String>)
    ensures
        r.deep_view() == args_of(hook@, path@),
{
    let mut args: Vec<String> = Vec::new();
    args.push(String::from_str(path));
    match hook {
        Hook::PostGet(secret) => {
            args.push(secret.clone());
        },
        Hook::PostSet => {},
    }
    assert(args.deep_view() =~= args_of(hook@, path@));
    args
}

/// The warning of a hook that ended with `code`, or by a signal.
pub fn hook_warning(hook_path: &str, code: Option<i32>) -> (r: String)
    ensures
        r@ == warning_of(hook_path@, code),
{
    let mut text = String::from_str("Hook ");
    text.append(quote(hook_path).as_str());
    text.append(" failed with status ");
    match code {
        Some(code) => {
            text.append(signed_decimal_text(code).as_str());
        },
        None => {
            text.append("(signaled)");
        },
    }
    text
}

/// The directories in which a hook is looked for.
pub fn get_hook_dirs(repo_path: &str, config_dir: Option<String>) -> (r: Vec<String>)
    ensures
        r.deep_view() == hook_dirs(repo_path@, config_dir.deep_view()),
{
    let mut dirs: Vec<String> = Vec::new();
    dirs.push(join(repo_path, ".sala"));
    match config_dir {
        Some(dir) => {
            dirs.push(join(dir.as_str(), "sala"));
        },
        None => {},
    }
    assert(dirs.deep_view() =~= hook_dirs(repo_path@, config_dir.deep_view()));
    dirs
}

/// The model of a hook that may be absent.
pub open spec fn hook_view(hook: Option<Hook>) -> Option<HookModel> {
    match hook {
        Some(hook) => Some(hook@),
        None => None,
    }
}

/// The hook that is due after an operation that ended with `output`.
/// `initialized` says whether the operation was the initializing of a
/// repository. A secret that is well-formed text reaches the hook as that
/// text.
pub fn hook_after(output: &Output, initialized: bool) -> (r: Option<Hook>)
    ensures
        hook_view(r) == due_after(output@, initialized),
        output matches Output::Get(path, secret, raw) ==> (valid_utf8(secret@) ==> hook_view(r)
            == Some(HookModel::PostGet(decode_utf8(secret@)))),
{
    match output {
        Output::Get(path, secret, raw) => Some(Hook::PostGet(lossy_text(secret.as_slice()))),
        Output::NoOutput => if initialized {
            None
        } else {
            Some(Hook::PostSet)
        },
    }
}

/// How far the running of a hook has come.
#[derive(Debug)]
pub enum HookPhase {
    /// The configuration directory is not known yet.
    Locating,
    /// The program at `script` is not started yet.
    Starting { script: String },
    /// The program at `script` runs.
    Waiting { script: String },
}

/// The model of [`HookPhase`].
pub enum HookPhaseModel {
    Locating,
    Starting { script: Seq<char> },
    Waiting { script: Seq<char> },
}

impl View for HookPhase {
    type V = HookPhaseModel;

    open spec fn view(&self) -> HookPhaseModel {
        match self {
            HookPhase::Locating => HookPhaseModel::Locating,
            HookPhase::Starting { script } => HookPhaseModel::Starting { script: script@ },
            HookPhase::Waiting { script } => HookPhaseModel::Waiting { script: script@ },
        }
    }
}

/// The running of one hook in every directory that may hold it.
#[derive(Debug)]
pub struct HookRun {
    repo: String,
    path: String,
    hook: Hook,
    dirs: Vec<String>,
    next: usize,
    warnings: Vec<String>,
    phase: HookPhase,
}

/// The model of [`HookRun`].
pub struct HookRunModel {
    pub repo: Seq<char>,
    /// The path of the secret.
    pub path: Seq<char>,
    pub hook: HookModel,
    /// The directories to look in.
    pub dirs: Seq<Seq<char>>,
    /// How many of the directories have been taken up.
    pub next: usize,
    /// The warnings so far.
    pub warnings: Seq<Seq<char>>,
    pub phase: HookPhaseModel,
}

impl View for HookRun {
    type V = HookRunModel;

    closed spec fn view(&self) -> HookRunModel {
        HookRunModel {
            repo: self.repo@,
            path: self.path@,
            hook: self.hook@,
            dirs: self.dirs.deep_view(),
            next: self.next,
            warnings: self.warnings.deep_view(),
            phase: self.phase@,
        }
    }
}

/// The running of a hook, at its start.
pub open spec fn running(repo: Seq<char>, path: Seq<char>, hook: HookModel) -> HookRunModel {
    HookRunModel {
        repo,
        path,
        hook,
        dirs: Seq::empty(),
        next: 0,
        warnings: Seq::empty(),
        phase: HookPhaseModel::Locating,
    }
}

/// The request that the running waits on.
pub open spec fn hook_pending(h: HookRunModel) -> RequestModel {
    match h.phase {
        HookPhaseModel::Locating => RequestModel::ConfigDir,
        HookPhaseModel::Starting { script } => RequestModel::Spawn(
            hook_launch(h.repo, script, h.hook, h.path),
        ),
        HookPhaseModel::Waiting { script } => RequestModel::Wait,
    }
}

/// On to the next directory: the hook's program there is to be started, or,
/// with no directory left, the running is over and gives its warnings.
pub open spec fn onward(h: HookRunModel) -> Step<HookRunModel, Seq<Seq<char>>> {
    if h.next < h.dirs.len() {
        Step::Pending(
            HookRunModel {
                repo: h.repo,
                path: h.path,
                hook: h.hook,
                dirs: h.dirs,
                next: (h.next + 1) as usize,
                warnings: h.warnings,
                phase: HookPhaseModel::Starting {
                    script: joined(h.dirs[h.next as int], name_of(h.hook)),
                },
            },
        )
    } else {
        Step::Finished(h.warnings)
    }
}

/// The running with one more warning, where there is one.
pub open spec fn warned(h: HookRunModel, warning: Option<Seq<char>>) -> HookRunModel {
    HookRunModel {
        repo: h.repo,
        path: h.path,
        hook: h.hook,
        dirs: h.dirs,
        next: h.next,
        warnings: match warning {
            Some(text) => h.warnings.push(text),
            None => h.warnings,
        },
        phase: h.phase,
    }
}

/// What the end of a hook's program gives: a warning, unless the program
/// ended by itself with code zero.
pub open spec fn script_verdict(script: Seq<char>, code: Option<i32>) -> Option<Seq<char>> {
    if code == Some(0i32) {
        None
    } else {
        Some(warning_of(script, code))
    }
}

/// The step that a reply brings about. A program that cannot be started or
/// waited for is passed over without a warning. A reply of a kind that the
/// pending request cannot have is disregarded.
pub open spec fn hook_advance(h: HookRunModel, reply: ReplyModel) -> Step<
    HookRunModel,
    Seq<Seq<char>>,
> {
    match h.phase {
        HookPhaseModel::Locating => match reply {
            ReplyModel::Directory(config_dir) => onward(
                HookRunModel {
                    repo: h.repo,
                    path: h.path,
                    hook: h.hook,
                    dirs: hook_dirs(h.repo, config_dir),
                    next: 0,
                    warnings: h.warnings,
                    phase: h.phase,
                },
            ),
            _ => Step::Pending(h),
        },
        HookPhaseModel::Starting { script } => match reply {
            ReplyModel::Done => Step::Pending(
                HookRunModel {
                    repo: h.repo,
                    path: h.path,
                    hook: h.hook,
                    dirs: h.dirs,
                    next: h.next,
                    warnings: h.warnings,
                    phase: HookPhaseModel::Waiting { script },
                },
            ),
            ReplyModel::Failed(e) => onward(h),
            _ => Step::Pending(h),
        },
        HookPhaseModel::Waiting { script } => match reply {
            ReplyModel::Exit(exit) => onward(warned(h, script_verdict(script, exit.code))),
            ReplyModel::Failed(e) => onward(h),
            _ => Step::Pending(h),
        },
    }
}

/// The model of a step of the running.
pub open spec fn hook_step_view(step: Step<HookRun, Vec<String>>) -> Step<
    HookRunModel,
    Seq<Seq<char>>,
> {
    match step {
        Step::Pending(h) => Step::Pending(h@),
        Step::Finished(warnings) => Step::Finished(warnings.deep_view()),
    }
}

/// What the end of a hook's program gives.
pub fn run_hook_script(hook_path: &str, code: Option<i32>) -> (r: Option<String>)
    ensures
        r.deep_view() == script_verdict(hook_path@, code),
{
    match code {
        Some(0) => None,
        _ => Some(hook_warning(hook_path, code)),
    }
}

/// Starts the running of `hook` for the secret at `path` in the repository
/// at `repo_path`. The result is the warnings.
pub fn run_hook(repo_path: &str, path: &str, hook: Hook) -> (r: HookRun)
    ensures
        r@ == running(repo_path@, path@, hook@),
{
    let r = HookRun {
        repo: String::from_str(repo_path),
        path: String::from_str(path),
        hook,
        dirs: Vec::new(),
        next: 0,
        warnings: Vec::new(),
        phase: HookPhase::Locating,
    };
    assert(r.dirs.deep_view() =~= Seq::<Seq<char>>::empty());
    assert(r.warnings.deep_view() =~= Seq::<Seq<char>>::empty());
    r
}

impl HookRun {
    /// The request that the running waits on.
    pub fn request(&self) -> (r: Request)
        ensures
            r@ == hook_pending(self@),
    {
        match &self.phase {
            HookPhase::Locating => Request::ConfigDir,
            HookPhase::Starting { script } => Request::Spawn(
                Launch {
                    program: script.clone(),
                    args: hook_args(&self.hook, self.path.as_str()),
                    dir: Some(self.repo.clone()),
                    stdin: Wiring::Inherit,
                    stdout: Wiring::Inherit,
                    stderr: Wiring::Inherit,
                },
            ),
            HookPhase::Waiting { script } => Request::Wait,
        }
    }

    fn onward(self) -> (r: Step<HookRun, Vec<String>>)
        ensures
            hook_step_view(r) == onward(self@),
    {
        let HookRun { repo, path, hook, dirs, next, warnings, phase } = self;
        assert(dirs.deep_view().len() == dirs.len());
        if next < dirs.len() {
            assert(dirs.deep_view()[next as int] == dirs@[next as int]@);
            let script = join(dirs[next].as_str(), hook_name(&hook));
            Step::Pending(
                HookRun {
                    repo,
                    path,
                    hook,
                    dirs,
                    next: next + 1,
                    warnings,
                    phase: HookPhase::Starting { script },
                },
            )
        } else {
            Step::Finished(warnings)
        }
    }

    /// Takes the reply to the pending request.
    pub fn resume(self, reply: Reply) -> (r: Step<HookRun, Vec<String>>)
        ensures
            hook_step_view(r) == hook_advance(self@, reply@),
    {
        let HookRun { repo, path, hook, dirs, next, warnings, phase } = self;
        match phase {
            HookPhase::Locating => match reply {
                Reply::Directory(config_dir) => {
                    let dirs = get_hook_dirs(repo.as_str(), config_dir);
                    (HookRun {
                        repo,
                        path,
                        hook,
                        dirs,
                        next: 0,
                        warnings,
                        phase: HookPhase::Locating,
                    }).onward()
                },
                _ => Step::Pending(
                    HookRun { repo, path, hook, dirs, next, warnings, phase: HookPhase::Locating },
                ),
            },
            HookPhase::Starting { script } => match reply {
                Reply::Done => Step::Pending(
                    HookRun {
                        repo,
                        path,
                        hook,
                        dirs,
                        next,
                        warnings,
                        phase: HookPhase::Waiting { script },
                    },
                ),
                Reply::Failed(_) => (HookRun {
                    repo,
                    path,
                    hook,
                    dirs,
                    next,
                    warnings,
                    phase: HookPhase::Starting { script },
                }).onward(),
                _ => Step::Pending(
                    HookRun {
                        repo,
                        path,
                        hook,
                        dirs,
                        next,
                        warnings,
                        phase: HookPhase::Starting { script },
                    },
                ),
            },
            HookPhase::Waiting { script } => match reply {
                Reply::Exit(exit) => {
                    let mut warnings = warnings;
                    let ghost before = warnings.deep_view();
                    match run_hook_script(script.as_str(), exit.code) {
                        Some(warning) => {
                            warnings.push(warning);
                            assert(warnings.deep_view() =~= before.push(warning@));
                        },
                        None => {},
                    }
                    (HookRun {
                        repo,
                        path,
                        hook,
                        dirs,
                        next,
                        warnings,
                        phase: HookPhase::Waiting { script },
                    }).onward()
                },
                Reply::Failed(_) => (HookRun {
                    repo,
                    path,
                    hook,
                    dirs,
                    next,
                    warnings,
                    phase: HookPhase::Waiting { script },
                }).onward(),
                _ => Step::Pending(
                    HookRun {
                        repo,
                        path,
                        hook,
                        dirs,
                        next,
                        warnings,
                        phase: HookPhase::Waiting { script },
                    },
                ),
            },
        }
    }
}

} // verus!
