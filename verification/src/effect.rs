//! What an operation asks of the program that drives it, and what that
//! program answers.
//!
//! No operation of this library touches a file, a terminal or a process. Each
//! is a state that names the one request it waits on; the driver carries the
//! request out and hands the reply to the state's `resume`, which gives the
//! next state or the operation's result.

use vstd::prelude::*;

verus! {

/// Declares `std::io::Error`, which a failed request reports and the library
/// hands on unread.
#[verifier::external_type_specification]
#[verifier::external_body]
pub struct ExIoError(std::io::Error);

/// Where one standard stream of a child process leads.
#[derive(Clone, Copy, Debug, PartialEq, Eq, Structural)]
pub enum Wiring {
    /// The stream of the parent.
    Inherit,
    /// Nowhere: reads end at once.
    Null,
    /// A pipe that the driver holds.
    Piped,
    /// The file that the last `CreateFile` request opened.
    File,
}

/// A child process to start.
#[derive(Debug)]
pub struct Launch {
    pub program: String,
    pub args: Vec<String>,
    /// The working directory, where it is not the parent's.
    pub dir: Option<String>,
    pub stdin: Wiring,
    pub stdout: Wiring,
    pub stderr: Wiring,
}

/// The model of [`Launch`].
pub struct LaunchModel {
    pub program: Seq<char>,
    pub args: Seq<Seq<char>>,
    pub dir: Option<Seq<char>>,
    pub stdin: Wiring,
    pub stdout: Wiring,
    pub stderr: Wiring,
}

impl View for Launch {
    type V = LaunchModel;

    open spec fn view(&self) -> LaunchModel {
        LaunchModel {
            program: self.program@,
            args: self.args.deep_view(),
            dir: self.dir.deep_view(),
            stdin: self.stdin,
            stdout: self.stdout,
            stderr: self.stderr,
        }
    }
}

impl Launch {
    /// A copy of the launch.
    pub fn duplicate(&self) -> (r: Launch)
        ensures
            r@ == self@,
    {
        Launch {
            program: self.program.clone(),
            args: self.args.clone(),
            dir: match &self.dir {
                Some(dir) => Some(dir.clone()),
                None => None,
            },
            stdin: self.stdin,
            stdout: self.stdout,
            stderr: self.stderr,
        }
    }
}

/// One thing for the driver to do.
#[derive(Debug)]
pub enum Request {
    /// Does the path lead to anything? Answered by `Flag`.
    Exists(String),
    /// Does the path lead to a regular file? Answered by `Flag`.
    IsFile(String),
    /// Does the path lead to a directory? Answered by `Flag`.
    IsDir(String),
    /// Create the directory and every missing one above it.
    CreateDirAll(String),
    /// Create the file, or empty it, and keep it open for the next child.
    CreateFile(String),
    /// Move the first path onto the second, replacing what is there.
    Rename(String, String),
    /// Delete the file.
    RemoveFile(String),
    /// Read the whole file. Answered by `Contents`.
    ReadFile(String),
    /// The user's home directory. Answered by `Directory`.
    HomeDir,
    /// The user's configuration directory. Answered by `Directory`.
    ConfigDir,
    /// Is standard input a terminal? Answered by `Flag`.
    StdinIsTty,
    /// Show the prompt on the terminal and read a line without echo.
    /// Answered by `Line`.
    ReadPasswordFromTty(String),
    /// Show the prompt on standard error and read a line from standard input.
    /// Answered by `Line`.
    PromptPasswordStderr(String),
    /// Write the text to standard output.
    Print(String),
    /// Open a pipe. Answered by `Pipe`.
    OpenPipe,
    /// Mark the descriptor so that no child process inherits it.
    SetCloseOnExec(i32),
    /// Close the descriptor.
    Close(i32),
    /// Write all the bytes to the descriptor.
    Write(i32, Vec<u8>),
    /// Start the child process.
    Spawn(Launch),
    /// Write all the bytes to the child's standard input.
    Feed(Vec<u8>),
    /// Close the child's standard input, wait for the child to end and
    /// collect what it wrote to its pipes. Answered by `Exit`.
    Wait,
}

/// The model of [`Request`].
pub enum RequestModel {
    Exists(Seq<char>),
    IsFile(Seq<char>),
    IsDir(Seq<char>),
    CreateDirAll(Seq<char>),
    CreateFile(Seq<char>),
    Rename(Seq<char>, Seq<char>),
    RemoveFile(Seq<char>),
    ReadFile(Seq<char>),
    HomeDir,
    ConfigDir,
    StdinIsTty,
    ReadPasswordFromTty(Seq<char>),
    PromptPasswordStderr(Seq<char>),
    Print(Seq<char>),
    OpenPipe,
    SetCloseOnExec(i32),
    Close(i32),
    Write(i32, Seq<u8>),
    Spawn(LaunchModel),
    Feed(Seq<u8>),
    Wait,
}

impl View for Request {
    type V = RequestModel;

    open spec fn view(&self) -> RequestModel {
        match self {
            Request::Exists(p) => RequestModel::Exists(p@),
            Request::IsFile(p) => RequestModel::IsFile(p@),
            Request::IsDir(p) => RequestModel::IsDir(p@),
            Request::CreateDirAll(p) => RequestModel::CreateDirAll(p@),
            Request::CreateFile(p) => RequestModel::CreateFile(p@),
            Request::Rename(from, to) => RequestModel::Rename(from@, to@),
            Request::RemoveFile(p) => RequestModel::RemoveFile(p@),
            Request::ReadFile(p) => RequestModel::ReadFile(p@),
            Request::HomeDir => RequestModel::HomeDir,
            Request::ConfigDir => RequestModel::ConfigDir,
            Request::StdinIsTty => RequestModel::StdinIsTty,
            Request::ReadPasswordFromTty(p) => RequestModel::ReadPasswordFromTty(p@),
            Request::PromptPasswordStderr(p) => RequestModel::PromptPasswordStderr(p@),
            Request::Print(t) => RequestModel::Print(t@),
            Request::OpenPipe => RequestModel::OpenPipe,
            Request::SetCloseOnExec(fd) => RequestModel::SetCloseOnExec(*fd),
            Request::Close(fd) => RequestModel::Close(*fd),
            Request::Write(fd, bytes) => RequestModel::Write(*fd, bytes@),
            Request::Spawn(launch) => RequestModel::Spawn(launch@),
            Request::Feed(bytes) => RequestModel::Feed(bytes@),
            Request::Wait => RequestModel::Wait,
        }
    }
}

/// How a child process ended.
#[derive(Debug)]
pub struct Exit {
    /// The exit code; none where a signal ended the child.
    pub code: Option<i32>,
    /// What the child wrote to its standard output, where that is a pipe.
    pub stdout: Vec<u8>,
    /// What the child wrote to its standard error, where that is a pipe.
    pub stderr: Vec<u8>,
}

/// The model of [`Exit`].
pub struct ExitModel {
    pub code: Option<i32>,
    pub stdout: Seq<u8>,
    pub stderr: Seq<u8>,
}

impl View for Exit {
    type V = ExitModel;

    open spec fn view(&self) -> ExitModel {
        ExitModel { code: self.code, stdout: self.stdout@, stderr: self.stderr@ }
    }
}

impl ExitModel {
    /// The child ended by itself with code zero.
    pub open spec fn success(self) -> bool {
        self.code == Some(0i32)
    }
}

/// What the driver answers.
#[derive(Debug)]
pub enum Reply {
    /// The request was carried out and there is nothing to tell.
    Done,
    /// The answer to a question.
    Flag(bool),
    /// The line that was read, without its line end.
    Line(String),
    /// The bytes of the file.
    Contents(Vec<u8>),
    /// The directory, where the user has one.
    Directory(Option<String>),
    /// The read end and the write end of the new pipe.
    Pipe(i32, i32),
    /// The child has ended.
    Exit(Exit),
    /// The request failed.
    Failed(std::io::Error),
}

/// The model of [`Reply`].
pub enum ReplyModel {
    Done,
    Flag(bool),
    Line(Seq<char>),
    Contents(Seq<u8>),
    Directory(Option<Seq<char>>),
    Pipe(i32, i32),
    Exit(ExitModel),
    Failed(std::io::Error),
}

impl View for Reply {
    type V = ReplyModel;

    open spec fn view(&self) -> ReplyModel {
        match self {
            Reply::Done => ReplyModel::Done,
            Reply::Flag(b) => ReplyModel::Flag(*b),
            Reply::Line(s) => ReplyModel::Line(s@),
            Reply::Contents(bytes) => ReplyModel::Contents(bytes@),
            Reply::Directory(d) => ReplyModel::Directory(d.deep_view()),
            Reply::Pipe(read, write) => ReplyModel::Pipe(*read, *write),
            Reply::Exit(exit) => ReplyModel::Exit(exit@),
            Reply::Failed(e) => ReplyModel::Failed(*e),
        }
    }
}

impl ReplyModel {
    /// The request is over, whether it was carried out or failed.
    pub open spec fn settles(self) -> bool {
        self is Done || self is Failed
    }
}

/// Where an operation stands after a reply.
#[derive(Debug)]
pub enum Step<S, T> {
    /// It waits on the request of this state.
    Pending(S),
    /// It is over, with this result.
    Finished(T),
}

/// The model of a step whose result is a `Result`.
pub open spec fn step_view<S: View, A: View, B: View>(step: Step<S, Result<A, B>>) -> Step<
    S::V,
    Result<A::V, B::V>,
> {
    match step {
        Step::Pending(s) => Step::Pending(s@),
        Step::Finished(Ok(a)) => Step::Finished(Ok(a@)),
        Step::Finished(Err(b)) => Step::Finished(Err(b@)),
    }
}

} // verus!
