//! Running the encryption tool.
//!
//! The tool reads its passphrase from a pipe whose read end it inherits. The
//! passphrase is never part of the command line: an `Invocation` opens the
//! pipe, keeps the write end from any other child, starts the tool, gives up
//! the read end, writes the passphrase and closes the write end. Whatever
//! fails on the way, it closes the ends it still holds before it reports.

use vstd::prelude::*;
use vstd::string::StrSliceExecFns;
use vstd::string::StringExecFns;
use vstd::utf8::encode_utf8;
use crate::effect::Launch;
use crate::effect::LaunchModel;
use crate::effect::Reply;
use crate::effect::ReplyModel;
use crate::effect::Request;
use crate::effect::RequestModel;
use crate::effect::Step;
use crate::effect::Wiring;
use crate::effect::step_view;
use crate::text::lossy;
use crate::text::lossy_text;
use crate::text::signed_decimal;
use crate::text::signed_decimal_text;

verus! {

/// Why a run of the tool gave nothing.
#[derive(Debug)]
pub enum GpgError {
    /// The system refused a step on the way.
    IOError(std::io::Error),
    /// The tool ran and reported failure; this is what it wrote to its
    /// standard error.
    OperationFailed(String),
}

/// The model of [`GpgError`].
pub enum GpgErrorModel {
    IOError(std::io::Error),
    OperationFailed(Seq<char>),
}

impl View for GpgError {
    type V = GpgErrorModel;

    open spec fn view(&self) -> GpgErrorModel {
        match self {
            GpgError::IOError(e) => GpgErrorModel::IOError(*e),
            GpgError::OperationFailed(message) => GpgErrorModel::OperationFailed(message@),
        }
    }
}

/// The failure of a tool that wrote `message` to its standard error.
pub fn gpg_err(message: &[u8]) -> (r: GpgError)
    ensures
        r@ == GpgErrorModel::OperationFailed(lossy(message@)),
{
    GpgError::OperationFailed(lossy_text(message))
}

/// What the tool is run for.
#[derive(Debug)]
pub enum Purpose {
    /// To decrypt the file at `path` to its standard output.
    Decrypt { path: String },
    /// To encrypt `data`, fed to its standard input, under `cipher`.
    Encrypt { data: String, cipher: String },
}

/// The model of [`Purpose`].
pub enum PurposeModel {
    Decrypt { path: Seq<char> },
    Encrypt { data: Seq<char>, cipher: Seq<char> },
}

impl View for Purpose {
    type V = PurposeModel;

    open spec fn view(&self) -> PurposeModel {
        match self {
            Purpose::Decrypt { path } => PurposeModel::Decrypt { path: path@ },
            Purpose::Encrypt { data, cipher } => PurposeModel::Encrypt {
                data: data@,
                cipher: cipher@,
            },
        }
    }
}

/// How far an invocation has come. `read` and `write` are the two ends of the
/// passphrase pipe.
#[derive(Debug)]
pub enum Phase {
    /// No pipe yet.
    Opening,
    /// Both ends are open; the write end can still leak into a child.
    Arming { read: i32, write: i32 },
    /// Both ends are open; the tool is not running yet.
    Spawning { read: i32, write: i32 },
    /// The tool runs and has its copy of the read end; ours is still open.
    Detaching { read: i32, write: i32 },
    /// Only the write end is open, and the passphrase is not written yet.
    Sending { write: i32 },
    /// The passphrase is written; the write end is still open.
    Sealing { write: i32 },
    /// The pipe is gone; the tool waits for its input.
    Feeding,
    /// The pipe is gone; the tool works.
    Waiting,
    /// A step failed while both ends were open.
    Releasing { read: i32, write: i32, cause: std::io::Error },
    /// A step failed while the write end was open.
    Dropping { write: i32, cause: std::io::Error },
}

/// A run of the tool, from the opening of the passphrase pipe to the tool's end.
#[derive(Debug)]
pub struct Invocation {
    purpose: Purpose,
    key: Vec<u8>,
    phase: Phase,
}

/// The model of [`Invocation`].
pub struct InvocationModel {
    pub purpose: PurposeModel,
    pub key: Seq<u8>,
    pub phase: Phase,
}

impl View for Invocation {
    type V = InvocationModel;

    closed spec fn view(&self) -> InvocationModel {
        InvocationModel { purpose: self.purpose@, key: self.key@, phase: self.phase }
    }
}

/// The name under which the tool is started.
pub open spec fn tool_program() -> Seq<char> {
    "gpg"@
}

/// The tool's command line. It holds the number of the pipe's read end and
/// nothing of the passphrase.
pub open spec fn tool_args(purpose: PurposeModel, read: i32) -> Seq<Seq<char>> {
    match purpose {
        PurposeModel::Decrypt { path } => seq![
            "--batch"@,
            "--no-tty"@,
            "--armor"@,
            "--decrypt"@,
            "--passphrase-fd"@,
            signed_decimal(read as int),
            "--"@,
            path,
        ],
        PurposeModel::Encrypt { data, cipher } => seq![
            "--batch"@,
            "--no-tty"@,
            "--armor"@,
            "--symmetric"@,
            "--cipher-algo"@,
            cipher,
            "--passphrase-fd"@,
            signed_decimal(read as int),
        ],
    }
}

/// The tool as a child process. To decrypt, it writes the plaintext to a
/// pipe. To encrypt, it reads the plaintext from a pipe and writes to the file
/// that was created for it. Its diagnostics go to a pipe either way.
pub open spec fn tool_launch(purpose: PurposeModel, read: i32) -> LaunchModel {
    LaunchModel {
        program: tool_program(),
        args: tool_args(purpose, read),
        dir: None,
        stdin: if purpose is Encrypt {
            Wiring::Piped
        } else {
            Wiring::Inherit
        },
        stdout: if purpose is Encrypt {
            Wiring::File
        } else {
            Wiring::Piped
        },
        stderr: Wiring::Piped,
    }
}

/// What the tool is fed on its standard input.
pub open spec fn tool_input(purpose: PurposeModel) -> Seq<u8> {
    match purpose {
        PurposeModel::Decrypt { path } => Seq::empty(),
        PurposeModel::Encrypt { data, cipher } => encode_utf8(data),
    }
}

/// The ends of the passphrase pipe that are open in this process.
pub open spec fn held(phase: Phase) -> Set<i32> {
    match phase {
        Phase::Opening => Set::empty(),
        Phase::Arming { read, write } => set![read, write],
        Phase::Spawning { read, write } => set![read, write],
        Phase::Detaching { read, write } => set![read, write],
        Phase::Sending { write } => set![write],
        Phase::Sealing { write } => set![write],
        Phase::Feeding => Set::empty(),
        Phase::Waiting => Set::empty(),
        Phase::Releasing { read, write, cause } => set![read, write],
        Phase::Dropping { write, cause } => set![write],
    }
}

/// The request that an invocation waits on.
pub open spec fn pending(s: InvocationModel) -> RequestModel {
    match s.phase {
        Phase::Opening => RequestModel::OpenPipe,
        Phase::Arming { read, write } => RequestModel::SetCloseOnExec(write),
        Phase::Spawning { read, write } => RequestModel::Spawn(tool_launch(s.purpose, read)),
        Phase::Detaching { read, write } => RequestModel::Close(read),
        Phase::Sending { write } => RequestModel::Write(write, s.key),
        Phase::Sealing { write } => RequestModel::Close(write),
        Phase::Feeding => RequestModel::Feed(tool_input(s.purpose)),
        Phase::Waiting => RequestModel::Wait,
        Phase::Releasing { read, write, cause } => RequestModel::Close(read),
        Phase::Dropping { write, cause } => RequestModel::Close(write),
    }
}

/// The invocation in another phase.
pub open spec fn in_phase(s: InvocationModel, phase: Phase) -> InvocationModel {
    InvocationModel { purpose: s.purpose, key: s.key, phase }
}

/// What a finished tool gave: its standard output where it ended with code
/// zero, else what it wrote to its standard error.
pub open spec fn verdict(exit: crate::effect::ExitModel) -> Result<Seq<u8>, GpgErrorModel> {
    if exit.success() {
        Ok(exit.stdout)
    } else {
        Err(GpgErrorModel::OperationFailed(lossy(exit.stderr)))
    }
}

/// The step that a reply brings about. A reply of a kind that the pending
/// request cannot have is disregarded: the invocation stays as it is.
///
/// A failure before the pipe is open, or after both ends are closed, ends the
/// invocation at once. A failure in between first closes the ends still held;
/// how those closings end does not matter, and the first failure is the one
/// reported. That the write end could not be closed after the passphrase was
/// written is no failure.
pub open spec fn advance(s: InvocationModel, reply: ReplyModel) -> Step<
    InvocationModel,
    Result<Seq<u8>, GpgErrorModel>,
> {
    match s.phase {
        Phase::Opening => match reply {
            ReplyModel::Pipe(read, write) => Step::Pending(
                in_phase(s, Phase::Arming { read, write }),
            ),
            ReplyModel::Failed(e) => Step::Finished(Err(GpgErrorModel::IOError(e))),
            _ => Step::Pending(s),
        },
        Phase::Arming { read, write } => match reply {
            ReplyModel::Done => Step::Pending(in_phase(s, Phase::Spawning { read, write })),
            ReplyModel::Failed(e) => Step::Pending(
                in_phase(s, Phase::Releasing { read, write, cause: e }),
            ),
            _ => Step::Pending(s),
        },
        Phase::Spawning { read, write } => match reply {
            ReplyModel::Done => Step::Pending(in_phase(s, Phase::Detaching { read, write })),
            ReplyModel::Failed(e) => Step::Pending(
                in_phase(s, Phase::Releasing { read, write, cause: e }),
            ),
            _ => Step::Pending(s),
        },
        Phase::Detaching { read, write } => match reply {
            ReplyModel::Done => Step::Pending(in_phase(s, Phase::Sending { write })),
            ReplyModel::Failed(e) => Step::Pending(in_phase(s, Phase::Dropping { write, cause: e })),
            _ => Step::Pending(s),
        },
        Phase::Sending { write } => match reply {
            ReplyModel::Done => Step::Pending(in_phase(s, Phase::Sealing { write })),
            ReplyModel::Failed(e) => Step::Pending(in_phase(s, Phase::Dropping { write, cause: e })),
            _ => Step::Pending(s),
        },
        Phase::Sealing { write } => if reply.settles() {
            if s.purpose is Encrypt {
                Step::Pending(in_phase(s, Phase::Feeding))
            } else {
                Step::Pending(in_phase(s, Phase::Waiting))
            }
        } else {
            Step::Pending(s)
        },
        Phase::Feeding => match reply {
            ReplyModel::Done => Step::Pending(in_phase(s, Phase::Waiting)),
            ReplyModel::Failed(e) => Step::Finished(Err(GpgErrorModel::IOError(e))),
            _ => Step::Pending(s),
        },
        Phase::Waiting => match reply {
            ReplyModel::Exit(exit) => Step::Finished(verdict(exit)),
            ReplyModel::Failed(e) => Step::Finished(Err(GpgErrorModel::IOError(e))),
            _ => Step::Pending(s),
        },
        Phase::Releasing { read, write, cause } => if reply.settles() {
            Step::Pending(in_phase(s, Phase::Dropping { write, cause }))
        } else {
            Step::Pending(s)
        },
        Phase::Dropping { write, cause } => if reply.settles() {
            Step::Finished(Err(GpgErrorModel::IOError(cause)))
        } else {
            Step::Pending(s)
        },
    }
}

/// A run of the tool that decrypts the file at `path` under `key`, at its start.
pub open spec fn decryption(path: Seq<char>, key: Seq<u8>) -> InvocationModel {
    InvocationModel { purpose: PurposeModel::Decrypt { path }, key, phase: Phase::Opening }
}

/// A run of the tool that encrypts `data` under `key` with `cipher`, at its
/// start.
pub open spec fn encryption(data: Seq<char>, key: Seq<u8>, cipher: Seq<char>) -> InvocationModel {
    InvocationModel { purpose: PurposeModel::Encrypt { data, cipher }, key, phase: Phase::Opening }
}

/// Starts the tool on the file at `path`, to decrypt it under `key`. The
/// result is the plaintext.
pub fn decrypt(path: &str, key: &[u8]) -> (r: Invocation)
    ensures
        r@ == decryption(path@, key@),
{
    Invocation {
        purpose: Purpose::Decrypt { path: String::from_str(path) },
        key: vstd::slice::slice_to_vec(key),
        phase: Phase::Opening,
    }
}

/// Starts the tool on `data`, to encrypt it under `key` with `cipher` into the
/// file that was created for it. The result is what the tool wrote to its
/// standard output beside that file: nothing.
pub fn gpg_encrypt_impl(data: &str, key: &[u8], cipher: &str) -> (r: Invocation)
    ensures
        r@ == encryption(data@, key@, cipher@),
{
    Invocation {
        purpose: Purpose::Encrypt { data: String::from_str(data), cipher: String::from_str(cipher) },
        key: vstd::slice::slice_to_vec(key),
        phase: Phase::Opening,
    }
}

fn launch(purpose: &Purpose, read: i32) -> (r: Launch)
    ensures
        r@ == tool_launch(purpose@, read),
{
    let mut args: Vec<String> = Vec::new();
    args.push(String::from_str("--batch"));
    args.push(String::from_str("--no-tty"));
    args.push(String::from_str("--armor"));
    match purpose {
        Purpose::Decrypt { path } => {
            args.push(String::from_str("--decrypt"));
            args.push(String::from_str("--passphrase-fd"));
            args.push(signed_decimal_text(read));
            args.push(String::from_str("--"));
            args.push(path.clone());
            assert(args.deep_view() =~= tool_args(purpose@, read));
            Launch {
                program: String::from_str("gpg"),
                args,
                dir: None,
                stdin: Wiring::Inherit,
                stdout: Wiring::Piped,
                stderr: Wiring::Piped,
            }
        },
        Purpose::Encrypt { data, cipher } => {
            args.push(String::from_str("--symmetric"));
            args.push(String::from_str("--cipher-algo"));
            args.push(cipher.clone());
            args.push(String::from_str("--passphrase-fd"));
            args.push(signed_decimal_text(read));
            assert(args.deep_view() =~= tool_args(purpose@, read));
            Launch {
                program: String::from_str("gpg"),
                args,
                dir: None,
                stdin: Wiring::Piped,
                stdout: Wiring::File,
                stderr: Wiring::Piped,
            }
        },
    }
}

impl Invocation {
    /// The request that the invocation waits on.
    pub fn request(&self) -> (r: Request)
        ensures
            r@ == pending(self@),
    {
        match &self.phase {
            Phase::Opening => Request::OpenPipe,
            Phase::Arming { read, write } => Request::SetCloseOnExec(*write),
            Phase::Spawning { read, write } => Request::Spawn(launch(&self.purpose, *read)),
            Phase::Detaching { read, write } => Request::Close(*read),
            Phase::Sending { write } => Request::Write(*write, self.key.clone()),
            Phase::Sealing { write } => Request::Close(*write),
            Phase::Feeding => match &self.purpose {
                Purpose::Decrypt { path } => Request::Feed(Vec::new()),
                Purpose::Encrypt { data, cipher } => Request::Feed(data.as_str().as_bytes_vec()),
            },
            Phase::Waiting => Request::Wait,
            Phase::Releasing { read, write, cause } => Request::Close(*read),
            Phase::Dropping { write, cause } => Request::Close(*write),
        }
    }

    /// Takes the reply to the pending request.
    pub fn resume(self, reply: Reply) -> (r: Step<Invocation, Result<Vec<u8>, GpgError>>)
        ensures
            step_view(r) == advance(self@, reply@),
    {
        let Invocation { purpose, key, phase } = self;
        match phase {
            Phase::Opening => match reply {
                Reply::Pipe(read, write) => Step::Pending(
                    Invocation { purpose, key, phase: Phase::Arming { read, write } },
                ),
                Reply::Failed(e) => Step::Finished(Err(GpgError::IOError(e))),
                _ => Step::Pending(Invocation { purpose, key, phase: Phase::Opening }),
            },
            Phase::Arming { read, write } => match reply {
                Reply::Done => Step::Pending(
                    Invocation { purpose, key, phase: Phase::Spawning { read, write } },
                ),
                Reply::Failed(e) => Step::Pending(
                    Invocation { purpose, key, phase: Phase::Releasing { read, write, cause: e } },
                ),
                _ => Step::Pending(Invocation { purpose, key, phase: Phase::Arming { read, write } }),
            },
            Phase::Spawning { read, write } => match reply {
                Reply::Done => Step::Pending(
                    Invocation { purpose, key, phase: Phase::Detaching { read, write } },
                ),
                Reply::Failed(e) => Step::Pending(
                    Invocation { purpose, key, phase: Phase::Releasing { read, write, cause: e } },
                ),
                _ => Step::Pending(
                    Invocation { purpose, key, phase: Phase::Spawning { read, write } },
                ),
            },
            Phase::Detaching { read, write } => match reply {
                Reply::Done => Step::Pending(
                    Invocation { purpose, key, phase: Phase::Sending { write } },
                ),
                Reply::Failed(e) => Step::Pending(
                    Invocation { purpose, key, phase: Phase::Dropping { write, cause: e } },
                ),
                _ => Step::Pending(
                    Invocation { purpose, key, phase: Phase::Detaching { read, write } },
                ),
            },
            Phase::Sending { write } => match reply {
                Reply::Done => Step::Pending(
                    Invocation { purpose, key, phase: Phase::Sealing { write } },
                ),
                Reply::Failed(e) => Step::Pending(
                    Invocation { purpose, key, phase: Phase::Dropping { write, cause: e } },
                ),
                _ => Step::Pending(Invocation { purpose, key, phase: Phase::Sending { write } }),
            },
            Phase::Sealing { write } => match reply {
                Reply::Done | Reply::Failed(_) => {
                    let feeds = match &purpose {
                        Purpose::Encrypt { data, cipher } => true,
                        Purpose::Decrypt { path } => false,
                    };
                    if feeds {
                        Step::Pending(Invocation { purpose, key, phase: Phase::Feeding })
                    } else {
                        Step::Pending(Invocation { purpose, key, phase: Phase::Waiting })
                    }
                },
                _ => Step::Pending(Invocation { purpose, key, phase: Phase::Sealing { write } }),
            },
            Phase::Feeding => match reply {
                Reply::Done => Step::Pending(Invocation { purpose, key, phase: Phase::Waiting }),
                Reply::Failed(e) => Step::Finished(Err(GpgError::IOError(e))),
                _ => Step::Pending(Invocation { purpose, key, phase: Phase::Feeding }),
            },
            Phase::Waiting => match reply {
                Reply::Exit(exit) => {
                    if is_success(exit.code) {
                        Step::Finished(Ok(exit.stdout))
                    } else {
                        Step::Finished(Err(gpg_err(exit.stderr.as_slice())))
                    }
                },
                Reply::Failed(e) => Step::Finished(Err(GpgError::IOError(e))),
                _ => Step::Pending(Invocation { purpose, key, phase: Phase::Waiting }),
            },
            Phase::Releasing { read, write, cause } => match reply {
                Reply::Done | Reply::Failed(_) => Step::Pending(
                    Invocation { purpose, key, phase: Phase::Dropping { write, cause } },
                ),
                _ => Step::Pending(
                    Invocation { purpose, key, phase: Phase::Releasing { read, write, cause } },
                ),
            },
            Phase::Dropping { write, cause } => match reply {
                Reply::Done | Reply::Failed(_) => Step::Finished(Err(GpgError::IOError(cause))),
                _ => Step::Pending(
                    Invocation { purpose, key, phase: Phase::Dropping { write, cause } },
                ),
            },
        }
    }
}

/// Whether a child with this exit code ended well: by itself, with code zero.
pub fn is_success(code: Option<i32>) -> (r: bool)
    ensures
        r == (code == Some(0i32)),
{
    match code {
        Some(c) => c == 0,
        None => false,
    }
}

/// How far a write has come.
#[derive(Debug)]
pub enum WriterPhase {
    /// The temporary file does not exist yet.
    Creating(Invocation),
    /// The tool writes to the temporary file.
    Running(Invocation),
    /// The tool ended well; the temporary file is whole.
    Renaming,
    /// Something failed; the temporary file is in the way.
    Removing(GpgError),
}

/// The model of [`WriterPhase`].
pub enum WriterPhaseModel {
    Creating(InvocationModel),
    Running(InvocationModel),
    Renaming,
    Removing(GpgErrorModel),
}

impl View for WriterPhase {
    type V = WriterPhaseModel;

    open spec fn view(&self) -> WriterPhaseModel {
        match self {
            WriterPhase::Creating(tool) => WriterPhaseModel::Creating(tool@),
            WriterPhase::Running(tool) => WriterPhaseModel::Running(tool@),
            WriterPhase::Renaming => WriterPhaseModel::Renaming,
            WriterPhase::Removing(cause) => WriterPhaseModel::Removing(cause@),
        }
    }
}

/// The writing of one encrypted file. The ciphertext goes to a temporary file
/// beside the target, which takes the target's place only when the tool has
/// ended well.
#[derive(Debug)]
pub struct Writer {
    target: String,
    phase: WriterPhase,
}

/// The model of [`Writer`].
pub struct WriterModel {
    pub target: Seq<char>,
    pub phase: WriterPhaseModel,
}

impl View for Writer {
    type V = WriterModel;

    closed spec fn view(&self) -> WriterModel {
        WriterModel { target: self.target@, phase: self.phase@ }
    }
}

/// The temporary file of a target: the target's path with `.tmp` behind it.
pub open spec fn temporary(target: Seq<char>) -> Seq<char> {
    target + ".tmp"@
}

/// The request that a write waits on.
pub open spec fn writer_pending(w: WriterModel) -> RequestModel {
    match w.phase {
        WriterPhaseModel::Creating(tool) => RequestModel::CreateFile(temporary(w.target)),
        WriterPhaseModel::Running(tool) => pending(tool),
        WriterPhaseModel::Renaming => RequestModel::Rename(temporary(w.target), w.target),
        WriterPhaseModel::Removing(cause) => RequestModel::RemoveFile(temporary(w.target)),
    }
}

/// The step that a reply brings about.
///
/// Where the temporary file cannot be created, the write is over. Once it
/// exists, any failure (of the tool, of a step towards it, or of the renaming)
/// has it removed before the write ends with that failure; how the removal
/// itself ends does not matter.
pub open spec fn writer_advance(w: WriterModel, reply: ReplyModel) -> Step<
    WriterModel,
    Result<(), GpgErrorModel>,
> {
    match w.phase {
        WriterPhaseModel::Creating(tool) => match reply {
            ReplyModel::Done => Step::Pending(
                WriterModel { target: w.target, phase: WriterPhaseModel::Running(tool) },
            ),
            ReplyModel::Failed(e) => Step::Finished(Err(GpgErrorModel::IOError(e))),
            _ => Step::Pending(w),
        },
        WriterPhaseModel::Running(tool) => match advance(tool, reply) {
            Step::Pending(next) => Step::Pending(
                WriterModel { target: w.target, phase: WriterPhaseModel::Running(next) },
            ),
            Step::Finished(Ok(_)) => Step::Pending(
                WriterModel { target: w.target, phase: WriterPhaseModel::Renaming },
            ),
            Step::Finished(Err(cause)) => Step::Pending(
                WriterModel { target: w.target, phase: WriterPhaseModel::Removing(cause) },
            ),
        },
        WriterPhaseModel::Renaming => match reply {
            ReplyModel::Done => Step::Finished(Ok(())),
            ReplyModel::Failed(e) => Step::Pending(
                WriterModel {
                    target: w.target,
                    phase: WriterPhaseModel::Removing(GpgErrorModel::IOError(e)),
                },
            ),
            _ => Step::Pending(w),
        },
        WriterPhaseModel::Removing(cause) => if reply.settles() {
            Step::Finished(Err(cause))
        } else {
            Step::Pending(w)
        },
    }
}

/// A write of `data`, encrypted under `key` with `cipher`, to the file at
/// `target`, at its start.
pub open spec fn writing(
    data: Seq<char>,
    key: Seq<u8>,
    target: Seq<char>,
    cipher: Seq<char>,
) -> WriterModel {
    WriterModel { target, phase: WriterPhaseModel::Creating(encryption(data, key, cipher)) }
}

/// Starts the writing of `data`, encrypted under `key` with `cipher`, to the
/// file at `target`.
pub fn encrypt(data: &str, key: &[u8], target: &str, cipher: &str) -> (r: Writer)
    ensures
        r@ == writing(data@, key@, target@, cipher@),
{
    Writer {
        target: String::from_str(target),
        phase: WriterPhase::Creating(gpg_encrypt_impl(data, key, cipher)),
    }
}

impl Writer {
    fn temporary_path(&self) -> (r: String)
        ensures
            r@ == temporary(self.target@),
    {
        let mut path = self.target.clone();
        path.append(".tmp");
        path
    }

    /// The request that the write waits on.
    pub fn request(&self) -> (r: Request)
        ensures
            r@ == writer_pending(self@),
    {
        match &self.phase {
            WriterPhase::Creating(tool) => Request::CreateFile(self.temporary_path()),
            WriterPhase::Running(tool) => tool.request(),
            WriterPhase::Renaming => Request::Rename(self.temporary_path(), self.target.clone()),
            WriterPhase::Removing(cause) => Request::RemoveFile(self.temporary_path()),
        }
    }

    /// Takes the reply to the pending request.
    pub fn resume(self, reply: Reply) -> (r: Step<Writer, Result<(), GpgError>>)
        ensures
            step_view(r) == writer_advance(self@, reply@),
    {
        let Writer { target, phase } = self;
        match phase {
            WriterPhase::Creating(tool) => match reply {
                Reply::Done => Step::Pending(Writer { target, phase: WriterPhase::Running(tool) }),
                Reply::Failed(e) => Step::Finished(Err(GpgError::IOError(e))),
                _ => Step::Pending(Writer { target, phase: WriterPhase::Creating(tool) }),
            },
            WriterPhase::Running(tool) => match tool.resume(reply) {
                Step::Pending(next) => Step::Pending(
                    Writer { target, phase: WriterPhase::Running(next) },
                ),
                Step::Finished(Ok(_)) => Step::Pending(
                    Writer { target, phase: WriterPhase::Renaming },
                ),
                Step::Finished(Err(cause)) => Step::Pending(
                    Writer { target, phase: WriterPhase::Removing(cause) },
                ),
            },
            WriterPhase::Renaming => match reply {
                Reply::Done => Step::Finished(Ok(())),
                Reply::Failed(e) => Step::Pending(
                    Writer { target, phase: WriterPhase::Removing(GpgError::IOError(e)) },
                ),
                _ => Step::Pending(Writer { target, phase: WriterPhase::Renaming }),
            },
            WriterPhase::Removing(cause) => match reply {
                Reply::Done | Reply::Failed(_) => Step::Finished(Err(cause)),
                _ => Step::Pending(Writer { target, phase: WriterPhase::Removing(cause) }),
            },
        }
    }
}

/// How far a phase is on the way of an invocation.
pub open spec fn progress(phase: Phase) -> nat {
    match phase {
        Phase::Opening => 0,
        Phase::Arming { read, write } => 1,
        Phase::Spawning { read, write } => 2,
        Phase::Detaching { read, write } => 3,
        Phase::Sending { write } => 4,
        Phase::Sealing { write } => 5,
        Phase::Feeding => 6,
        Phase::Waiting => 7,
        Phase::Releasing { read, write, cause } => 8,
        Phase::Dropping { write, cause } => 9,
    }
}

/// Every reply that an invocation does not disregard moves it on, and none
/// moves it back. So each request is carried out once at most: one child is
/// started, which alone inherits the read end, and the passphrase is written
/// once. What the invocation is for and the passphrase stay as they are.
pub proof fn every_reply_moves_on(s: InvocationModel, reply: ReplyModel, next: InvocationModel)
    requires
        advance(s, reply) == Step::<InvocationModel, Result<Seq<u8>, GpgErrorModel>>::Pending(next),
    ensures
        next == s || progress(next.phase) > progress(s.phase),
        next.purpose == s.purpose,
        next.key == s.key,
        pending(next) is Spawn ==> next == s || (s.phase is Arming && reply is Done),
{
}

/// The read end is given up as soon as the child has it: the request that
/// follows the starting of the tool closes the read end.
pub proof fn read_end_closed_after_spawn(s: InvocationModel, read: i32, write: i32)
    requires
        s.phase == (Phase::Spawning { read, write }),
    ensures
        advance(s, ReplyModel::Done) == Step::<
            InvocationModel,
            Result<Seq<u8>, GpgErrorModel>,
        >::Pending(in_phase(s, Phase::Detaching { read, write })),
        pending(in_phase(s, Phase::Detaching { read, write })) == RequestModel::Close(read),
{
}

/// The end of the passphrase pipe that a request closes, where it closes one.
pub open spec fn closes(request: RequestModel) -> Option<i32> {
    match request {
        RequestModel::Close(fd) => Some(fd),
        _ => None,
    }
}

/// The passphrase leaves the process through the pipe only: it is the
/// content of the one write to the pipe's write end, and no other request of
/// an invocation depends on it. The tool's command line in particular is the
/// same whatever the passphrase.
pub proof fn passphrase_only_through_pipe(s: InvocationModel, other: Seq<u8>)
    ensures
        s.phase matches Phase::Sending { write } ==> pending(s) == RequestModel::Write(
            write,
            s.key,
        ),
        !(s.phase is Sending) ==> pending(
            InvocationModel { purpose: s.purpose, key: other, phase: s.phase },
        ) == pending(s),
        s.phase matches Phase::Spawning { read, write } ==> pending(s) == RequestModel::Spawn(
            tool_launch(s.purpose, read),
        ),
{
}

/// What is to be encrypted reaches the tool on its standard input only: it
/// is the content of the one feeding, and no other request of an invocation
/// depends on it. It is on no command line and in no file of its own.
pub proof fn data_only_fed_to_tool(
    s: InvocationModel,
    data: Seq<char>,
    other: Seq<char>,
    cipher: Seq<char>,
)
    requires
        s.purpose == (PurposeModel::Encrypt { data, cipher }),
    ensures
        s.phase is Feeding ==> pending(s) == RequestModel::Feed(encode_utf8(data)),
        !(s.phase is Feeding) ==> pending(
            InvocationModel {
                purpose: PurposeModel::Encrypt { data: other, cipher },
                key: s.key,
                phase: s.phase,
            },
        ) == pending(s),
{
}

/// An end of the pipe comes to be held only when the pipe is opened, and
/// stops being held only when the pending request closes it.
pub proof fn ends_change_by_open_and_close(
    s: InvocationModel,
    reply: ReplyModel,
    next: InvocationModel,
    fd: i32,
)
    requires
        advance(s, reply) == Step::<InvocationModel, Result<Seq<u8>, GpgErrorModel>>::Pending(next),
    ensures
        held(next.phase).contains(fd) && !held(s.phase).contains(fd) ==> s.phase is Opening
            && match reply {
            ReplyModel::Pipe(read, write) => fd == read || fd == write,
            _ => false,
        },
        held(s.phase).contains(fd) && !held(next.phase).contains(fd) ==> closes(pending(s))
            == Some(fd),
{
}

/// When an invocation ends, however it ends, it holds no end of the pipe but
/// the one that its last request closed.
pub proof fn no_end_left_open(s: InvocationModel, reply: ReplyModel, fd: i32)
    requires
        advance(s, reply) is Finished,
        held(s.phase).contains(fd),
    ensures
        closes(pending(s)) == Some(fd),
        held(s.phase) =~= set![fd],
{
}

/// The write end is kept from other children before any child is started:
/// the tool is started only in reply to the marking of the write end.
pub proof fn write_end_armed_before_spawn(
    s: InvocationModel,
    reply: ReplyModel,
    next: InvocationModel,
)
    requires
        advance(s, reply) == Step::<InvocationModel, Result<Seq<u8>, GpgErrorModel>>::Pending(next),
        next.phase is Spawning,
        !(s.phase is Spawning),
    ensures
        reply is Done,
        match s.phase {
            Phase::Arming { read, write } => pending(s) == RequestModel::SetCloseOnExec(write),
            _ => false,
        },
{
}

/// The plaintext that an invocation hands back is what a tool that ended
/// with code zero wrote to its standard output, whole.
pub proof fn output_only_from_success(s: InvocationModel, reply: ReplyModel, bytes: Seq<u8>)
    requires
        advance(s, reply) == Step::<InvocationModel, Result<Seq<u8>, GpgErrorModel>>::Finished(
            Ok(bytes),
        ),
    ensures
        s.phase is Waiting,
        match reply {
            ReplyModel::Exit(exit) => exit.success() && bytes == exit.stdout,
            _ => false,
        },
{
}

/// A tool that did not end with code zero gives a failure that holds what it
/// wrote to its standard error, and nothing of its standard output.
pub proof fn failed_tool_gives_no_output(s: InvocationModel, exit: crate::effect::ExitModel)
    requires
        s.phase is Waiting,
        !exit.success(),
    ensures
        advance(s, ReplyModel::Exit(exit)) == Step::<
            InvocationModel,
            Result<Seq<u8>, GpgErrorModel>,
        >::Finished(Err(GpgErrorModel::OperationFailed(lossy(exit.stderr)))),
{
}

/// The target is touched by one request only: the renaming of the
/// temporary file onto it. Every other request that names a file names the
/// temporary file.
pub proof fn target_touched_by_renaming_only(w: WriterModel)
    ensures
        match writer_pending(w) {
            RequestModel::Rename(from, to) => w.phase is Renaming && from == temporary(w.target)
                && to == w.target,
            RequestModel::CreateFile(path) => path == temporary(w.target),
            RequestModel::RemoveFile(path) => path == temporary(w.target),
            RequestModel::CreateDirAll(path) => false,
            _ => true,
        },
{
}

/// The renaming is asked for only once the tool has ended well.
pub proof fn renaming_only_after_success(w: WriterModel, reply: ReplyModel, next: WriterModel)
    requires
        writer_advance(w, reply) == Step::<WriterModel, Result<(), GpgErrorModel>>::Pending(next),
        next.phase is Renaming,
        !(w.phase is Renaming),
    ensures
        match w.phase {
            WriterPhaseModel::Running(tool) => match advance(tool, reply) {
                Step::Finished(Ok(_)) => true,
                _ => false,
            },
            _ => false,
        },
{
}

/// A write that fails leaves no temporary file: it ends in failure either
/// before the file was created, or in reply to the file's removal. It gives
/// the failure that made it stop, not that of the removal.
pub proof fn failed_write_removes_temporary(
    w: WriterModel,
    reply: ReplyModel,
    failure: GpgErrorModel,
)
    requires
        writer_advance(w, reply) == Step::<WriterModel, Result<(), GpgErrorModel>>::Finished(
            Err(failure),
        ),
    ensures
        match w.phase {
            WriterPhaseModel::Creating(tool) => true,
            WriterPhaseModel::Removing(cause) => cause == failure && writer_pending(w)
                == RequestModel::RemoveFile(temporary(w.target)),
            _ => false,
        },
{
}

/// Every failure after the temporary file exists leads to its removal: that
/// of the tool and of any step towards it.
pub proof fn tool_failure_leads_to_removal(
    w: WriterModel,
    tool: InvocationModel,
    reply: ReplyModel,
    cause: GpgErrorModel,
)
    requires
        w.phase == WriterPhaseModel::Running(tool),
        advance(tool, reply) == Step::<InvocationModel, Result<Seq<u8>, GpgErrorModel>>::Finished(
            Err(cause),
        ),
    ensures
        writer_advance(w, reply) == Step::<WriterModel, Result<(), GpgErrorModel>>::Pending(
            WriterModel { target: w.target, phase: WriterPhaseModel::Removing(cause) },
        ),
{
}

/// A renaming that fails leads to the removal of the temporary file as well.
pub proof fn failed_renaming_leads_to_removal(w: WriterModel, e: std::io::Error)
    requires
        w.phase is Renaming,
    ensures
        writer_advance(w, ReplyModel::Failed(e)) == Step::<
            WriterModel,
            Result<(), GpgErrorModel>,
        >::Pending(
            WriterModel {
                target: w.target,
                phase: WriterPhaseModel::Removing(GpgErrorModel::IOError(e)),
            },
        ),
{
}

/// A write succeeds only in reply to the renaming.
pub proof fn write_succeeds_by_renaming(w: WriterModel, reply: ReplyModel)
    requires
        writer_advance(w, reply) == Step::<WriterModel, Result<(), GpgErrorModel>>::Finished(Ok(())),
    ensures
        w.phase is Renaming,
        reply is Done,
        writer_pending(w) == RequestModel::Rename(temporary(w.target), w.target),
{
}

} // verus!
