//! A world for the operations to run in: a disk, a user and a tool, each as
//! plain as the operations can tell apart. It lives in specifications only,
//! and serves to say what an operation achieves from its first request to its
//! last.
//!
//! The disk is a map from paths to what lies there, and does not know which
//! path lies under which. The user is the lines that will be typed. The tool
//! encrypts by setting the passphrase beside the data, and decrypts where it
//! is handed the same passphrase again. Any other program, such as a
//! generator of suggestions, ends as the world says it does.

use vstd::prelude::*;
use crate::effect::ExitModel;
use crate::effect::LaunchModel;
use crate::effect::ReplyModel;
use crate::effect::RequestModel;
use crate::effect::Step;
use crate::effect::Wiring;
use crate::gpg::tool_program;
use crate::text::signed_decimal;
use vstd::utf8::encode_utf8;
use crate::gpg::advance;
use crate::gpg::encryption;
use crate::gpg::in_phase;
use crate::gpg::temporary;
use crate::gpg::writing;
use crate::gpg::WriterPhaseModel;
use crate::gpg::tool_input;
use crate::gpg::tool_launch;
use crate::gpg::writer_advance;
use crate::gpg::writer_pending;
use crate::gpg::Phase;
use crate::gpg::PurposeModel;
use crate::gpg::WriterModel;
use crate::prompt::entry_advance;
use crate::prompt::entry_in;
use crate::prompt::picked;
use crate::suggest::suggested;
use crate::prompt::secret_entry;
use crate::prompt::EntryPhaseModel;
use crate::suggest::generator;
use crate::config::ConfigModel;
use crate::control_dir;
use crate::first_of_writing;
use crate::initializing;
use crate::text::hex;
use crate::getting;
use crate::new_secret_entry;
use crate::path::joined;
use crate::path::starts;
use crate::rooted;
use crate::setting;
use crate::prompt::entry_pending;
use crate::prompt::EntryModel;
use crate::unlock::unlock_advance;
use crate::unlock::unlock_pending;
use crate::unlock::UnlockModel;
use crate::unlock::UnlockPhaseModel;
use crate::gpg::decryption;
use crate::gpg::pending;
use crate::gpg::GpgErrorModel;
use crate::gpg::InvocationModel;
use crate::unlock::key_file;
use crate::unlock::unlocking;
use crate::at;
use crate::target;
use crate::ErrorModel;
use crate::StageModel;
use crate::OutputModel;
use crate::SessionModel;
use crate::session_advance;
use crate::session_pending;

verus! {

/// What lies at a path.
pub enum Node {
    Directory,
    /// A file of these bytes.
    File(Seq<u8>),
    /// A file that the tool wrote: `data`, encrypted under `key`.
    Sealed { key: Seq<u8>, data: Seq<u8> },
}

/// Whether the tool can be had.
pub enum Tool {
    /// It runs and does its work.
    Working,
    /// It runs and decrypts, but fails where it is to encrypt, and leaves a
    /// part of its output behind.
    Failing,
    /// It cannot be started.
    Missing,
}

/// A child process that was started and not yet waited for.
pub struct ChildModel {
    pub launch: LaunchModel,
    /// What it was fed.
    pub input: Seq<u8>,
    /// The file that its standard output leads to, where it leads to one.
    pub sink: Option<Seq<char>>,
}

pub struct World {
    pub nodes: Map<Seq<char>, Node>,
    /// The lines that the user will type, the next one first.
    pub lines: Seq<Seq<char>>,
    pub tty: bool,
    pub tool: Tool,
    /// The other programs that can be started, each with how it ends and
    /// what it has written by then.
    pub programs: Map<Seq<char>, ExitModel>,
    /// The read end and the write end of the pipe that was opened last.
    pub pipe: Option<(i32, i32)>,
    /// What was written into that pipe.
    pub sent: Seq<u8>,
    /// The file that was created last and that no child has taken yet.
    pub created: Option<Seq<char>>,
    pub child: Option<ChildModel>,
}

/// The ends of every pipe that the world opens.
pub open spec fn pipe_ends() -> (i32, i32) {
    (3i32, 4i32)
}

/// Some failure of the system; which one does not matter.
pub open spec fn some_failure() -> ReplyModel {
    ReplyModel::Failed(arbitrary())
}

/// Whether a regular file lies at the path.
pub open spec fn is_file(w: World, path: Seq<char>) -> bool {
    w.nodes.contains_key(path) && !(w.nodes[path] is Directory)
}

/// Whether a directory lies at the path.
pub open spec fn is_dir(w: World, path: Seq<char>) -> bool {
    w.nodes.contains_key(path) && w.nodes[path] is Directory
}

/// The world with other things on its disk.
pub open spec fn with_nodes(w: World, nodes: Map<Seq<char>, Node>) -> World {
    World {
        nodes,
        lines: w.lines,
        tty: w.tty,
        tool: w.tool,
        programs: w.programs,
        pipe: w.pipe,
        sent: w.sent,
        created: w.created,
        child: w.child,
    }
}

/// The world with other lines to come from its user.
pub open spec fn with_lines(w: World, lines: Seq<Seq<char>>) -> World {
    World {
        nodes: w.nodes,
        lines,
        tty: w.tty,
        tool: w.tool,
        programs: w.programs,
        pipe: w.pipe,
        sent: w.sent,
        created: w.created,
        child: w.child,
    }
}

/// The passphrase that a child reads: what was written into the pipe, where
/// the child's command line names the pipe's read end in the place `at`.
pub open spec fn passphrase_read(w: World, args: Seq<Seq<char>>, at: int) -> Option<Seq<u8>> {
    match w.pipe {
        Some((read, write)) => if args[at - 1] == "--passphrase-fd"@ && args[at] == signed_decimal(
            read as int,
        ) {
            Some(w.sent)
        } else {
            None
        },
        None => None,
    }
}

/// How a tool that failed ends.
pub open spec fn tool_failed() -> ExitModel {
    ExitModel { code: Some(2i32), stdout: Seq::empty(), stderr: "gpg: failed\n"@.map_values(|c: char| c as u8) }
}

/// How a tool that did its work ends, with what it wrote to its output.
pub open spec fn tool_done(stdout: Seq<u8>) -> ExitModel {
    ExitModel { code: Some(0i32), stdout, stderr: Seq::empty() }
}

/// What a failing tool leaves in its output; which bytes does not matter.
pub open spec fn partial_output() -> Seq<u8> {
    arbitrary()
}

/// What the tool does when it is waited for: it decrypts the file that its
/// last argument names, where that file was encrypted under the passphrase
/// it read; or it encrypts what it was fed, under the passphrase it read,
/// into the file that its output leads to, unless it is a failing one, which
/// leaves a part of its output there and fails. Whatever else it is asked,
/// it fails and leaves the disk alone.
pub open spec fn tool_run(w: World, child: ChildModel) -> (Map<Seq<char>, Node>, ExitModel) {
    let args = child.launch.args;
    if args.len() == 8 && args[3] == "--decrypt"@ {
        match (passphrase_read(w, args, 5), w.nodes.contains_key(args[7])) {
            (Some(passphrase), true) => match w.nodes[args[7]] {
                Node::Sealed { key, data } => if key == passphrase {
                    (w.nodes, tool_done(data))
                } else {
                    (w.nodes, tool_failed())
                },
                _ => (w.nodes, tool_failed()),
            },
            _ => (w.nodes, tool_failed()),
        }
    } else if args.len() == 8 && args[3] == "--symmetric"@ {
        match (passphrase_read(w, args, 7), child.sink) {
            (Some(passphrase), Some(sink)) => if w.tool is Working {
                (
                    w.nodes.insert(sink, Node::Sealed { key: passphrase, data: child.input }),
                    tool_done(Seq::empty()),
                )
            } else {
                (w.nodes.insert(sink, Node::File(partial_output())), tool_failed())
            },
            _ => (w.nodes, tool_failed()),
        }
    } else {
        (w.nodes, tool_failed())
    }
}

/// Whether a program can be started: the tool unless it is missing, and
/// every other program that the world has.
pub open spec fn starts_up(w: World, program: Seq<char>) -> bool {
    if program == tool_program() {
        !(w.tool is Missing)
    } else {
        w.programs.contains_key(program)
    }
}

/// How a child ends when it is waited for, and what is on the disk then:
/// the tool does its work; another program ends as the world says, and
/// leaves the disk alone.
pub open spec fn child_run(w: World, child: ChildModel) -> (Map<Seq<char>, Node>, ExitModel) {
    if child.launch.program == tool_program() {
        tool_run(w, child)
    } else if w.programs.contains_key(child.launch.program) {
        (w.nodes, w.programs[child.launch.program])
    } else {
        (w.nodes, tool_failed())
    }
}

/// What the world does on a request, and what it answers.
pub open spec fn respond(w: World, request: RequestModel) -> (World, ReplyModel) {
    match request {
        RequestModel::Exists(path) => (w, ReplyModel::Flag(w.nodes.contains_key(path))),
        RequestModel::IsFile(path) => (w, ReplyModel::Flag(is_file(w, path))),
        RequestModel::IsDir(path) => (w, ReplyModel::Flag(is_dir(w, path))),
        RequestModel::CreateDirAll(path) => if is_file(w, path) {
            (w, some_failure())
        } else {
            (with_nodes(w, w.nodes.insert(path, Node::Directory)), ReplyModel::Done)
        },
        RequestModel::CreateFile(path) => if is_dir(w, path) {
            (w, some_failure())
        } else {
            (
                World {
                    nodes: w.nodes.insert(path, Node::File(Seq::empty())),
                    lines: w.lines,
                    tty: w.tty,
                    tool: w.tool,
                    programs: w.programs,
                    pipe: w.pipe,
                    sent: w.sent,
                    created: Some(path),
                    child: w.child,
                },
                ReplyModel::Done,
            )
        },
        RequestModel::Rename(from, to) => if w.nodes.contains_key(from) {
            (with_nodes(w, w.nodes.remove(from).insert(to, w.nodes[from])), ReplyModel::Done)
        } else {
            (w, some_failure())
        },
        RequestModel::RemoveFile(path) => if is_file(w, path) {
            (with_nodes(w, w.nodes.remove(path)), ReplyModel::Done)
        } else {
            (w, some_failure())
        },
        RequestModel::ReadFile(path) => if w.nodes.contains_key(path) {
            match w.nodes[path] {
                Node::File(bytes) => (w, ReplyModel::Contents(bytes)),
                _ => (w, some_failure()),
            }
        } else {
            (w, some_failure())
        },
        RequestModel::HomeDir => (w, ReplyModel::Directory(None)),
        RequestModel::ConfigDir => (w, ReplyModel::Directory(None)),
        RequestModel::StdinIsTty => (w, ReplyModel::Flag(w.tty)),
        RequestModel::ReadPasswordFromTty(prompt) => typed(w),
        RequestModel::PromptPasswordStderr(prompt) => typed(w),
        RequestModel::Print(text) => (w, ReplyModel::Done),
        RequestModel::OpenPipe => (
            World {
                nodes: w.nodes,
                lines: w.lines,
                tty: w.tty,
                tool: w.tool,
                programs: w.programs,
                pipe: Some(pipe_ends()),
                sent: Seq::empty(),
                created: w.created,
                child: w.child,
            },
            ReplyModel::Pipe(pipe_ends().0, pipe_ends().1),
        ),
        RequestModel::SetCloseOnExec(fd) => (w, ReplyModel::Done),
        RequestModel::Close(fd) => (w, ReplyModel::Done),
        RequestModel::Write(fd, bytes) => match w.pipe {
            Some((read, write)) => if fd == write {
                (
                    World {
                        nodes: w.nodes,
                        lines: w.lines,
                        tty: w.tty,
                        tool: w.tool,
                        programs: w.programs,
                        pipe: w.pipe,
                        sent: bytes,
                        created: w.created,
                        child: w.child,
                    },
                    ReplyModel::Done,
                )
            } else {
                (w, some_failure())
            },
            None => (w, some_failure()),
        },
        RequestModel::Spawn(launch) => if starts_up(w, launch.program) {
            (
                World {
                    nodes: w.nodes,
                    lines: w.lines,
                    tty: w.tty,
                    tool: w.tool,
                    programs: w.programs,
                    pipe: w.pipe,
                    sent: w.sent,
                    created: None,
                    child: Some(
                        ChildModel {
                            launch,
                            input: Seq::empty(),
                            sink: if launch.stdout == Wiring::File {
                                w.created
                            } else {
                                None
                            },
                        },
                    ),
                },
                ReplyModel::Done,
            )
        } else {
            (w, some_failure())
        },
        RequestModel::Feed(bytes) => match w.child {
            Some(child) => (
                World {
                    nodes: w.nodes,
                    lines: w.lines,
                    tty: w.tty,
                    tool: w.tool,
                    programs: w.programs,
                    pipe: w.pipe,
                    sent: w.sent,
                    created: w.created,
                    child: Some(ChildModel { launch: child.launch, input: bytes, sink: child.sink }),
                },
                ReplyModel::Done,
            ),
            None => (w, some_failure()),
        },
        RequestModel::Wait => match w.child {
            Some(child) => {
                let (nodes, exit) = child_run(w, child);
                (
                    World {
                        nodes,
                        lines: w.lines,
                        tty: w.tty,
                        tool: w.tool,
                        programs: w.programs,
                        pipe: w.pipe,
                        sent: w.sent,
                        created: w.created,
                        child: None,
                    },
                    ReplyModel::Exit(exit),
                )
            },
            None => (w, some_failure()),
        },
    }
}

/// The user types the next line; with no line left, an empty one.
pub open spec fn typed(w: World) -> (World, ReplyModel) {
    if w.lines.len() > 0 {
        (with_lines(w, w.lines.drop_first()), ReplyModel::Line(w.lines.first()))
    } else {
        (w, ReplyModel::Line(Seq::empty()))
    }
}

/// A kind of operation: what a state of it waits on, and what a reply makes
/// of a state.
#[verifier::reject_recursive_types(S)]
#[verifier::reject_recursive_types(T)]
pub struct Machine<S, T> {
    pub pending: spec_fn(S) -> RequestModel,
    pub advance: spec_fn(S, ReplyModel) -> Step<S, T>,
}

/// Where an operation and the world stand after `steps` requests, or at the
/// operation's end if that comes first.
pub open spec fn run<S, T>(m: Machine<S, T>, s: S, w: World, steps: nat) -> (Step<S, T>, World)
    decreases steps,
{
    if steps == 0 {
        (Step::Pending(s), w)
    } else {
        let (after, reply) = respond(w, (m.pending)(s));
        match (m.advance)(s, reply) {
            Step::Pending(next) => run(m, next, after, (steps - 1) as nat),
            Step::Finished(r) => (Step::Finished(r), after),
        }
    }
}

/// Running for `a + b` requests is running for `a` and then, if the
/// operation is not over, for `b` more.
pub proof fn run_in_two<S, T>(m: Machine<S, T>, s: S, w: World, a: nat, b: nat)
    ensures
        run(m, s, w, a + b) == match run(m, s, w, a).0 {
            Step::Pending(next) => run(m, next, run(m, s, w, a).1, b),
            Step::Finished(r) => run(m, s, w, a),
        },
    decreases a,
{
    if a == 0 {
    } else {
        let (after, reply) = respond(w, (m.pending)(s));
        match (m.advance)(s, reply) {
            Step::Pending(next) => {
                run_in_two(m, next, after, (a - 1) as nat, b);
                assert(((a - 1) as nat + b) as nat == (a + b - 1) as nat);
            },
            Step::Finished(r) => {},
        }
    }
}

/// An operation that carries another within it runs as the inner one does,
/// for as long as the inner one is not over: where the outer state `wrap(c)`
/// waits on what `c` waits on, and follows `c` from reply to reply.
pub proof fn run_within<C, CT, P, PT>(
    inner: Machine<C, CT>,
    outer: Machine<P, PT>,
    wrap: spec_fn(C) -> P,
    c: C,
    w: World,
    steps: nat,
)
    requires
        forall|c: C| (outer.pending)(#[trigger] wrap(c)) == (inner.pending)(c),
        forall|c: C, reply: ReplyModel|
            (#[trigger] (inner.advance)(c, reply)) is Pending ==> (outer.advance)(wrap(c), reply)
                == Step::<P, PT>::Pending(wrap((inner.advance)(c, reply)->Pending_0)),
        run(inner, c, w, steps).0 is Pending,
    ensures
        run(outer, wrap(c), w, steps) == (
            Step::<P, PT>::Pending(wrap(run(inner, c, w, steps).0->Pending_0)),
            run(inner, c, w, steps).1,
        ),
    decreases steps,
{
    if steps == 0 {
    } else {
        let (after, reply) = respond(w, (inner.pending)(c));
        match (inner.advance)(c, reply) {
            Step::Pending(next) => {
                run_within(inner, outer, wrap, next, after, (steps - 1) as nat);
            },
            Step::Finished(r) => {},
        }
    }
}

/// Sessions for which `drawn` is what the random source gives.
pub open spec fn sessions_with(drawn: Option<Seq<u8>>) -> Machine<
    SessionModel,
    Result<OutputModel, ErrorModel>,
> {
    Machine {
        pending: |s: SessionModel| session_pending(s),
        advance: |s: SessionModel, reply: ReplyModel| session_advance(s, reply, drawn),
    }
}

/// Sessions, in a world without randomness.
pub open spec fn sessions() -> Machine<SessionModel, Result<OutputModel, ErrorModel>> {
    sessions_with(None)
}

/// Runs of the tool.
pub open spec fn tools() -> Machine<InvocationModel, Result<Seq<u8>, GpgErrorModel>> {
    Machine {
        pending: |t: InvocationModel| pending(t),
        advance: |t: InvocationModel, reply: ReplyModel| advance(t, reply),
    }
}

/// Entries of secret text.
pub open spec fn entries() -> Machine<EntryModel, Result<Seq<char>, ErrorModel>> {
    Machine {
        pending: |e: EntryModel| entry_pending(e),
        advance: |e: EntryModel, reply: ReplyModel| entry_advance(e, reply),
    }
}

/// Unlockings.
pub open spec fn unlocks() -> Machine<UnlockModel, Result<Seq<u8>, ErrorModel>> {
    Machine {
        pending: |u: UnlockModel| unlock_pending(u),
        advance: |u: UnlockModel, reply: ReplyModel| unlock_advance(u, reply),
    }
}

/// Writes of encrypted files.
pub open spec fn writers() -> Machine<WriterModel, Result<(), GpgErrorModel>> {
    Machine {
        pending: |x: WriterModel| writer_pending(x),
        advance: |x: WriterModel, reply: ReplyModel| writer_advance(x, reply),
    }
}

/// Where a session and the world stand after `steps` requests, or at the
/// session's end if that comes first.
pub open spec fn drive(s: SessionModel, w: World, steps: nat) -> (
    Step<SessionModel, Result<OutputModel, ErrorModel>>,
    World,
) {
    run(sessions(), s, w, steps)
}

/// A run of the tool at its start.
pub open spec fn tool_start(purpose: PurposeModel, key: Seq<u8>) -> InvocationModel {
    InvocationModel { purpose, key, phase: Phase::Opening }
}

/// The world while a tool that was started in `w` is waited for: the pipe is
/// open and holds the key, and the child has what it was fed.
pub open spec fn tool_awaited(w: World, purpose: PurposeModel, key: Seq<u8>) -> World {
    World {
        nodes: w.nodes,
        lines: w.lines,
        tty: w.tty,
        tool: w.tool,
        programs: w.programs,
        pipe: Some(pipe_ends()),
        sent: key,
        created: None,
        child: Some(
            ChildModel {
                launch: tool_launch(purpose, pipe_ends().0),
                input: tool_input(purpose),
                sink: if purpose is Encrypt {
                    w.created
                } else {
                    None
                },
            },
        ),
    }
}

/// The world after a tool that was started in `w` has ended and left `nodes`
/// on the disk.
pub open spec fn tool_over(w: World, key: Seq<u8>, nodes: Map<Seq<char>, Node>) -> World {
    World {
        nodes,
        lines: w.lines,
        tty: w.tty,
        tool: w.tool,
        programs: w.programs,
        pipe: Some(pipe_ends()),
        sent: key,
        created: None,
        child: None,
    }
}

/// How many requests a run of the tool makes before it waits for the tool.
pub open spec fn tool_steps(purpose: PurposeModel) -> nat {
    if purpose is Encrypt {
        7
    } else {
        6
    }
}

/// Where the tool can be started, a run of it comes to wait for the tool:
/// after six requests, and after one more where the tool is fed.
pub proof fn tool_comes_to_wait(purpose: PurposeModel, key: Seq<u8>, w: World)
    requires
        !(w.tool is Missing),
        w.child is None,
    ensures
        run(tools(), tool_start(purpose, key), w, tool_steps(purpose)) == (
            Step::<InvocationModel, Result<Seq<u8>, GpgErrorModel>>::Pending(
                in_phase(tool_start(purpose, key), Phase::Waiting),
            ),
            tool_awaited(w, purpose, key),
        ),
{
    reveal_with_fuel(run, 8);
}

/// Where the tool cannot be started, a run of it ends with a failure of the
/// system after five requests: the last two close the pipe. The world is as
/// it was, but for the pipe.
pub proof fn missing_tool_fails(purpose: PurposeModel, key: Seq<u8>, w: World)
    requires
        w.tool is Missing,
    ensures
        run(tools(), tool_start(purpose, key), w, 4).0 is Pending,
        run(tools(), tool_start(purpose, key), w, 4).0->Pending_0.phase is Dropping,
        run(tools(), tool_start(purpose, key), w, 4).0->Pending_0.purpose == purpose,
        run(tools(), tool_start(purpose, key), w, 4).0->Pending_0.key == key,
        run(tools(), tool_start(purpose, key), w, 4).1 == (World {
            nodes: w.nodes,
            lines: w.lines,
            tty: w.tty,
            tool: w.tool,
            programs: w.programs,
            pipe: Some(pipe_ends()),
            sent: Seq::empty(),
            created: w.created,
            child: w.child,
        }),
{
    reveal_with_fuel(run, 5);
}

/// What the wait for a tool that decrypts gives: the plaintext of a file
/// that was encrypted under the key the tool was handed, and failure for any
/// other file or key. The disk stays as it was.
pub proof fn awaited_tool_decrypts(path: Seq<char>, key: Seq<u8>, w: World)
    ensures
        respond(tool_awaited(w, PurposeModel::Decrypt { path }, key), RequestModel::Wait) == (
            tool_over(w, key, w.nodes),
            ReplyModel::Exit(
                if w.nodes.contains_key(path) && w.nodes[path] is Sealed && w.nodes[path]->key == key {
                    tool_done(w.nodes[path]->data)
                } else {
                    tool_failed()
                },
            ),
        ),
{
}

/// What the wait for a working tool that encrypts gives: the data, sealed
/// under the key, in the file that was created for the tool.
pub proof fn awaited_tool_encrypts(
    data: Seq<char>,
    cipher: Seq<char>,
    key: Seq<u8>,
    sink: Seq<char>,
    w: World,
)
    requires
        w.tool is Working,
        w.created == Some(sink),
    ensures
        respond(tool_awaited(w, PurposeModel::Encrypt { data, cipher }, key), RequestModel::Wait)
            == (
            tool_over(w, key, w.nodes.insert(sink, Node::Sealed { key, data: encode_utf8(data) })),
            ReplyModel::Exit(tool_done(Seq::empty())),
        ),
{
    reveal_strlit("--decrypt");
    reveal_strlit("--symmetric");
    assert("--decrypt"@.len() != "--symmetric"@.len());
}

/// What the wait for a failing tool that encrypts gives: failure, and a
/// part of the output in the file that was created for the tool.
pub proof fn awaited_tool_fails_to_encrypt(
    data: Seq<char>,
    cipher: Seq<char>,
    key: Seq<u8>,
    sink: Seq<char>,
    w: World,
)
    requires
        w.tool is Failing,
        w.created == Some(sink),
    ensures
        respond(tool_awaited(w, PurposeModel::Encrypt { data, cipher }, key), RequestModel::Wait)
            == (
            tool_over(w, key, w.nodes.insert(sink, Node::File(partial_output()))),
            ReplyModel::Exit(tool_failed()),
        ),
{
    reveal_strlit("--decrypt");
    reveal_strlit("--symmetric");
    assert("--decrypt"@.len() != "--symmetric"@.len());
}

/// The line that the user types next.
pub open spec fn next_line(w: World) -> Seq<char> {
    if w.lines.len() > 0 {
        w.lines.first()
    } else {
        Seq::empty()
    }
}

/// The world after the user has typed the next line.
pub open spec fn line_taken(w: World) -> World {
    typed(w).0
}

/// What an unlocking gives in a world with a tool, where the key
/// file was sealed under `key` and holds `data`: the data, where the
/// passphrase that was typed is the key, and `UnlockFailed` where it is not.
pub open spec fn unlocked(w: World, key_path: Seq<char>) -> Result<Seq<u8>, ErrorModel> {
    if w.nodes[key_path] is Sealed && w.nodes[key_path]->key == encode_utf8(next_line(w)) {
        Ok(w.nodes[key_path]->data)
    } else {
        Err(ErrorModel::UnlockFailed)
    }
}

/// In a world with a tool and a key file, an unlocking takes ten
/// requests and one line from the user. It gives the content of the key file
/// where the line is the passphrase under which the file was sealed, and
/// fails with `UnlockFailed` where it is not. The disk stays as it was.
pub proof fn unlocking_in_world(repo: Seq<char>, w: World)
    requires
        is_file(w, key_file(repo)),
        !(w.tool is Missing),
        w.child is None,
    ensures
        run(unlocks(), unlocking(repo), w, 9) == (
            Step::<UnlockModel, Result<Seq<u8>, ErrorModel>>::Pending(
                UnlockModel {
                    key_path: key_file(repo),
                    phase: UnlockPhaseModel::Decrypting(
                        in_phase(
                            decryption(key_file(repo), encode_utf8(next_line(w))),
                            Phase::Waiting,
                        ),
                    ),
                },
            ),
            tool_awaited(
                line_taken(w),
                PurposeModel::Decrypt { path: key_file(repo) },
                encode_utf8(next_line(w)),
            ),
        ),
        run(unlocks(), unlocking(repo), w, 10) == (
            Step::<UnlockModel, Result<Seq<u8>, ErrorModel>>::Finished(unlocked(w, key_file(repo))),
            tool_over(line_taken(w), encode_utf8(next_line(w)), w.nodes),
        ),
{
    let key_path = key_file(repo);
    let prompt = crate::unlock::passphrase_prompt();
    let u0 = unlocking(repo);
    let asking = |e: EntryModel| UnlockModel { key_path, phase: UnlockPhaseModel::Asking(e) };
    let decrypting = |t: InvocationModel|
        UnlockModel { key_path, phase: UnlockPhaseModel::Decrypting(t) };
    let e0 = crate::prompt::password_entry(prompt);
    let e1 = crate::prompt::entry_in(e0, crate::prompt::EntryPhaseModel::Reading { tty: w.tty });
    let w1 = line_taken(w);
    let key = encode_utf8(next_line(w));
    let purpose = PurposeModel::Decrypt { path: key_path };
    let t0 = decryption(key_path, key);
    let t6 = in_phase(t0, Phase::Waiting);
    let w6 = tool_awaited(w1, purpose, key);
    // The key file is there.
    assert(run(unlocks(), u0, w, 1) == (
        Step::<UnlockModel, Result<Seq<u8>, ErrorModel>>::Pending(asking(e0)),
        w,
    )) by {
        reveal_with_fuel(run, 2);
    }
    // The entry finds out how to read.
    assert(run(unlocks(), asking(e0), w, 1) == (
        Step::<UnlockModel, Result<Seq<u8>, ErrorModel>>::Pending(asking(e1)),
        w,
    )) by {
        reveal_with_fuel(run, 2);
    }
    // The line is read, and the tool is set up with it.
    assert(run(unlocks(), asking(e1), w, 1) == (
        Step::<UnlockModel, Result<Seq<u8>, ErrorModel>>::Pending(decrypting(t0)),
        w1,
    )) by {
        reveal_with_fuel(run, 2);
    }
    // The tool comes to be waited for.
    assert(run(unlocks(), decrypting(t0), w1, 6) == (
        Step::<UnlockModel, Result<Seq<u8>, ErrorModel>>::Pending(decrypting(t6)),
        w6,
    )) by {
        tool_comes_to_wait(purpose, key, w1);
        run_within(tools(), unlocks(), decrypting, t0, w1, 6);
    }
    // The tool ends.
    assert(run(unlocks(), decrypting(t6), w6, 1) == (
        Step::<UnlockModel, Result<Seq<u8>, ErrorModel>>::Finished(unlocked(w, key_path)),
        tool_over(w1, key, w.nodes),
    )) by {
        awaited_tool_decrypts(key_path, key, w1);
        reveal_with_fuel(run, 2);
    }
    run_in_two(unlocks(), u0, w, 1, 1);
    run_in_two(unlocks(), u0, w, 2, 1);
    run_in_two(unlocks(), u0, w, 3, 6);
    run_in_two(unlocks(), u0, w, 9, 1);
}

/// The temporary file differs from its target.
pub proof fn temporary_differs(target: Seq<char>)
    ensures
        temporary(target) != target,
{
    reveal_strlit(".tmp");
    assert(temporary(target).len() == target.len() + 4);
}

/// The disk after a write that went well: the temporary file is gone, and
/// the target holds the data, sealed under the key.
pub open spec fn stored(
    nodes: Map<Seq<char>, Node>,
    target: Seq<char>,
    key: Seq<u8>,
    data: Seq<char>,
) -> Map<Seq<char>, Node> {
    nodes.remove(temporary(target)).insert(target, Node::Sealed { key, data: encode_utf8(data) })
}

/// In a world with a working tool, a write takes ten requests and succeeds.
/// Before the last request, the renaming, the target is as it was; after
/// it, the target holds the data, sealed under the key, and the temporary
/// file is gone.
pub proof fn writing_in_world(
    data: Seq<char>,
    key: Seq<u8>,
    target: Seq<char>,
    cipher: Seq<char>,
    w: World,
)
    requires
        !is_dir(w, temporary(target)),
        w.tool is Working,
        w.child is None,
    ensures
        run(writers(), writing(data, key, target, cipher), w, 9).0 == Step::<
            WriterModel,
            Result<(), GpgErrorModel>,
        >::Pending(WriterModel { target, phase: WriterPhaseModel::Renaming }),
        run(writers(), writing(data, key, target, cipher), w, 9).1 == tool_over(
            w,
            key,
            w.nodes.insert(temporary(target), Node::Sealed { key, data: encode_utf8(data) }),
        ),
        run(writers(), writing(data, key, target, cipher), w, 10) == (
            Step::<WriterModel, Result<(), GpgErrorModel>>::Finished(Ok(())),
            tool_over(w, key, stored(w.nodes, target, key, data)),
        ),
{
    let tmp = temporary(target);
    let purpose = PurposeModel::Encrypt { data, cipher };
    let x0 = writing(data, key, target, cipher);
    let running = |t: InvocationModel| WriterModel { target, phase: WriterPhaseModel::Running(t) };
    let t0 = encryption(data, key, cipher);
    let t7 = in_phase(t0, Phase::Waiting);
    let w1 = World {
        nodes: w.nodes.insert(tmp, Node::File(Seq::empty())),
        lines: w.lines,
        tty: w.tty,
        tool: w.tool,
        programs: w.programs,
        pipe: w.pipe,
        sent: w.sent,
        created: Some(tmp),
        child: w.child,
    };
    let w8 = tool_awaited(w1, purpose, key);
    let sealed = Node::Sealed { key, data: encode_utf8(data) };
    let w9 = tool_over(w, key, w.nodes.insert(tmp, sealed));
    assert(run(writers(), x0, w, 1) == (
        Step::<WriterModel, Result<(), GpgErrorModel>>::Pending(running(t0)),
        w1,
    )) by {
        reveal_with_fuel(run, 2);
    }
    assert(run(writers(), running(t0), w1, 7) == (
        Step::<WriterModel, Result<(), GpgErrorModel>>::Pending(running(t7)),
        w8,
    )) by {
        tool_comes_to_wait(purpose, key, w1);
        run_within(tools(), writers(), running, t0, w1, 7);
    }
    assert(run(writers(), running(t7), w8, 1) == (
        Step::<WriterModel, Result<(), GpgErrorModel>>::Pending(
            WriterModel { target, phase: WriterPhaseModel::Renaming },
        ),
        w9,
    )) by {
        awaited_tool_encrypts(data, cipher, key, tmp, w1);
        assert(w1.nodes.insert(tmp, sealed) =~= w.nodes.insert(tmp, sealed));
        reveal_with_fuel(run, 2);
    }
    assert(run(writers(), WriterModel { target, phase: WriterPhaseModel::Renaming }, w9, 1) == (
        Step::<WriterModel, Result<(), GpgErrorModel>>::Finished(Ok(())),
        tool_over(w, key, stored(w.nodes, target, key, data)),
    )) by {
        temporary_differs(target);
        assert(w9.nodes.remove(tmp).insert(target, w9.nodes[tmp]) =~= stored(
            w.nodes,
            target,
            key,
            data,
        ));
        reveal_with_fuel(run, 2);
    }
    run_in_two(writers(), x0, w, 1, 7);
    run_in_two(writers(), x0, w, 8, 1);
    run_in_two(writers(), x0, w, 9, 1);
}

/// The failure of a tool that ran and ended badly.
pub open spec fn tool_failure() -> GpgErrorModel {
    GpgErrorModel::OperationFailed(crate::text::lossy(tool_failed().stderr))
}

/// In a world whose tool fails to encrypt, a write comes to remove the
/// temporary file after nine requests. Until then the temporary file holds
/// what the tool left behind, and the rest of the disk is as it was.
pub proof fn failing_write_comes_to_remove(
    data: Seq<char>,
    key: Seq<u8>,
    target: Seq<char>,
    cipher: Seq<char>,
    w: World,
)
    requires
        !is_dir(w, temporary(target)),
        w.tool is Failing,
        w.child is None,
    ensures
        run(writers(), writing(data, key, target, cipher), w, 9) == (
            Step::<WriterModel, Result<(), GpgErrorModel>>::Pending(
                WriterModel { target, phase: WriterPhaseModel::Removing(tool_failure()) },
            ),
            tool_over(w, key, w.nodes.insert(temporary(target), Node::File(partial_output()))),
        ),
{
    let tmp = temporary(target);
    let purpose = PurposeModel::Encrypt { data, cipher };
    let x0 = writing(data, key, target, cipher);
    let running = |t: InvocationModel| WriterModel { target, phase: WriterPhaseModel::Running(t) };
    let t0 = encryption(data, key, cipher);
    let w1 = World {
        nodes: w.nodes.insert(tmp, Node::File(Seq::empty())),
        lines: w.lines,
        tty: w.tty,
        tool: w.tool,
        programs: w.programs,
        pipe: w.pipe,
        sent: w.sent,
        created: Some(tmp),
        child: w.child,
    };
    let t7 = in_phase(t0, Phase::Waiting);
    let w8 = tool_awaited(w1, purpose, key);
    let x9 = WriterModel { target, phase: WriterPhaseModel::Removing(tool_failure()) };
    let w9 = tool_over(w, key, w.nodes.insert(tmp, Node::File(partial_output())));
    assert(run(writers(), x0, w, 1) == (
        Step::<WriterModel, Result<(), GpgErrorModel>>::Pending(running(t0)),
        w1,
    )) by {
        reveal_with_fuel(run, 2);
    }
    assert(run(writers(), running(t0), w1, 7) == (
        Step::<WriterModel, Result<(), GpgErrorModel>>::Pending(running(t7)),
        w8,
    )) by {
        tool_comes_to_wait(purpose, key, w1);
        run_within(tools(), writers(), running, t0, w1, 7);
    }
    assert(run(writers(), running(t7), w8, 1) == (
        Step::<WriterModel, Result<(), GpgErrorModel>>::Pending(x9),
        w9,
    )) by {
        awaited_tool_fails_to_encrypt(data, cipher, key, tmp, w1);
        assert(w1.nodes.insert(tmp, Node::File(partial_output())) =~= w.nodes.insert(
            tmp,
            Node::File(partial_output()),
        ));
        reveal_with_fuel(run, 2);
    }
    run_in_two(writers(), x0, w, 1, 7);
    run_in_two(writers(), x0, w, 8, 1);
}

/// In a world whose tool fails to encrypt or is missing, a write fails, and
/// leaves the disk without the temporary file and otherwise as it was,
/// whatever the tool had written: where there was no temporary file before,
/// the disk is as it was.
pub proof fn failed_writing_in_world(
    data: Seq<char>,
    key: Seq<u8>,
    target: Seq<char>,
    cipher: Seq<char>,
    w: World,
)
    requires
        !is_dir(w, temporary(target)),
        !(w.tool is Working),
        w.child is None,
    ensures
        run(writers(), writing(data, key, target, cipher), w, 10).0 matches Step::Finished(Err(_)),
        run(writers(), writing(data, key, target, cipher), w, 10).1.nodes == w.nodes.remove(
            temporary(target),
        ),
        run(writers(), writing(data, key, target, cipher), w, 10).1.lines == w.lines,
        !w.nodes.contains_key(temporary(target)) ==> run(
            writers(),
            writing(data, key, target, cipher),
            w,
            10,
        ).1.nodes == w.nodes,
        w.nodes.contains_key(target) ==> run(
            writers(),
            writing(data, key, target, cipher),
            w,
            10,
        ).1.nodes.contains_key(target) && run(
            writers(),
            writing(data, key, target, cipher),
            w,
            10,
        ).1.nodes[target] == w.nodes[target],
{
    let tmp = temporary(target);
    let purpose = PurposeModel::Encrypt { data, cipher };
    let x0 = writing(data, key, target, cipher);
    let running = |t: InvocationModel| WriterModel { target, phase: WriterPhaseModel::Running(t) };
    let t0 = encryption(data, key, cipher);
    let w1 = World {
        nodes: w.nodes.insert(tmp, Node::File(Seq::empty())),
        lines: w.lines,
        tty: w.tty,
        tool: w.tool,
        programs: w.programs,
        pipe: w.pipe,
        sent: w.sent,
        created: Some(tmp),
        child: w.child,
    };
    temporary_differs(target);
    assert(w1.nodes.remove(tmp) =~= w.nodes.remove(tmp));
    if !w.nodes.contains_key(tmp) {
        assert(w.nodes.remove(tmp) =~= w.nodes);
    }
    assert(run(writers(), x0, w, 1) == (
        Step::<WriterModel, Result<(), GpgErrorModel>>::Pending(running(t0)),
        w1,
    )) by {
        reveal_with_fuel(run, 2);
    }
    if w.tool is Failing {
        let x9 = WriterModel { target, phase: WriterPhaseModel::Removing(tool_failure()) };
        let w9 = tool_over(w, key, w.nodes.insert(tmp, Node::File(partial_output())));
        assert(w9.nodes.remove(tmp) =~= w.nodes.remove(tmp));
        failing_write_comes_to_remove(data, key, target, cipher, w);
        assert(run(writers(), x9, w9, 1) == (
            Step::<WriterModel, Result<(), GpgErrorModel>>::Finished(Err(tool_failure())),
            with_nodes(w9, w9.nodes.remove(tmp)),
        )) by {
            reveal_with_fuel(run, 2);
        }
        run_in_two(writers(), x0, w, 9, 1);
    } else {
        missing_tool_fails(purpose, key, w1);
        let (step4, w5) = run(tools(), t0, w1, 4);
        let t4 = step4->Pending_0;
        let cause = GpgErrorModel::IOError(t4.phase->Dropping_cause);
        let x6 = WriterModel { target, phase: WriterPhaseModel::Removing(cause) };
        assert(run(writers(), running(t0), w1, 4) == (
            Step::<WriterModel, Result<(), GpgErrorModel>>::Pending(running(t4)),
            w5,
        )) by {
            run_within(tools(), writers(), running, t0, w1, 4);
        }
        assert(run(writers(), running(t4), w5, 1) == (
            Step::<WriterModel, Result<(), GpgErrorModel>>::Pending(x6),
            w5,
        )) by {
            reveal_with_fuel(run, 2);
        }
        assert(run(writers(), x6, w5, 1) == (
            Step::<WriterModel, Result<(), GpgErrorModel>>::Finished(Err(cause)),
            with_nodes(w5, w5.nodes.remove(tmp)),
        )) by {
            reveal_with_fuel(run, 2);
        }
        run_in_two(writers(), x0, w, 1, 4);
        run_in_two(writers(), x0, w, 5, 1);
        run_in_two(writers(), x0, w, 6, 1);
        run_in_two(writers(), x0, w, 7, 3);
    }
}

/// What a reading gives in a world with a tool: the content of the
/// target, where the key opened and the target was sealed under it.
pub open spec fn read_out(s: SessionModel, w: World) -> Result<OutputModel, ErrorModel> {
    match unlocked(w, key_file(s.repo)) {
        Ok(key) => if w.nodes[target(s)] is Sealed && w.nodes[target(s)]->key == key {
            Ok(OutputModel::Get(s.path, w.nodes[target(s)]->data, s.raw))
        } else {
            Err(
                ErrorModel::ToolFailed(
                    GpgErrorModel::OperationFailed(crate::text::lossy(tool_failed().stderr)),
                ),
            )
        },
        Err(e) => Err(e),
    }
}

/// In a world with a tool, a reading of a file in a repository that
/// has a key is over after at most eighteen requests and one line from the
/// user. It gives the content of the target where the line is the
/// passphrase of the key and the target was sealed under the key, and fails
/// otherwise: with `UnlockFailed` where the line is not the passphrase.
/// Whatever it gives, the disk is as it was.
pub proof fn reading_in_world(s: SessionModel, w: World)
    requires
        s.stage is Locating,
        is_file(w, target(s)),
        is_file(w, key_file(s.repo)),
        !(w.tool is Missing),
        w.child is None,
    ensures
        drive(s, w, 18).0 == Step::<SessionModel, Result<OutputModel, ErrorModel>>::Finished(
            read_out(s, w),
        ),
        drive(s, w, 18).1.nodes == w.nodes,
        drive(s, w, 18).1.lines == line_taken(w).lines,
        drive(s, w, 18).1.tool == w.tool,
        drive(s, w, 18).1.child is None,
{
    let repo = s.repo;
    let key_path = key_file(repo);
    let unlocking_in = |u: UnlockModel| at(s, StageModel::Unlocking(u));
    let decrypting_in = |t: InvocationModel| at(s, StageModel::Decrypting(t));
    let line = encode_utf8(next_line(w));
    let u0 = unlocking(repo);
    let u9 = UnlockModel {
        key_path,
        phase: UnlockPhaseModel::Decrypting(in_phase(decryption(key_path, line), Phase::Waiting)),
    };
    let w1 = line_taken(w);
    let w10 = tool_awaited(w1, PurposeModel::Decrypt { path: key_path }, line);
    let w11 = tool_over(w1, line, w.nodes);
    unlocking_in_world(repo, w);
    assert(run(sessions(), s, w, 1) == (
        Step::<SessionModel, Result<OutputModel, ErrorModel>>::Pending(unlocking_in(u0)),
        w,
    )) by {
        reveal_with_fuel(run, 2);
    }
    assert(run(sessions(), unlocking_in(u0), w, 9) == (
        Step::<SessionModel, Result<OutputModel, ErrorModel>>::Pending(unlocking_in(u9)),
        w10,
    )) by {
        run_within(unlocks(), sessions(), unlocking_in, u0, w, 9);
    }
    run_in_two(unlocks(), u0, w, 9, 1);
    run_in_two(sessions(), s, w, 1, 9);
    run_in_two(sessions(), s, w, 10, 1);
    run_in_two(sessions(), s, w, 11, 7);
    match unlocked(w, key_path) {
        Ok(key) => {
            let purpose = PurposeModel::Decrypt { path: target(s) };
            let t0 = decryption(target(s), key);
            let t6 = in_phase(t0, Phase::Waiting);
            let w17 = tool_awaited(w11, purpose, key);
            assert(run(sessions(), unlocking_in(u9), w10, 1) == (
                Step::<SessionModel, Result<OutputModel, ErrorModel>>::Pending(decrypting_in(t0)),
                w11,
            )) by {
                reveal_with_fuel(run, 2);
            }
            assert(run(sessions(), decrypting_in(t0), w11, 6) == (
                Step::<SessionModel, Result<OutputModel, ErrorModel>>::Pending(decrypting_in(t6)),
                w17,
            )) by {
                tool_comes_to_wait(purpose, key, w11);
                run_within(tools(), sessions(), decrypting_in, t0, w11, 6);
            }
            assert(run(sessions(), decrypting_in(t6), w17, 1) == (
                Step::<SessionModel, Result<OutputModel, ErrorModel>>::Finished(read_out(s, w)),
                tool_over(w11, key, w.nodes),
            )) by {
                awaited_tool_decrypts(target(s), key, w11);
                reveal_with_fuel(run, 2);
            }
            run_in_two(sessions(), decrypting_in(t0), w11, 6, 1);
        },
        Err(e) => {
            assert(run(sessions(), unlocking_in(u9), w10, 1) == (
                Step::<SessionModel, Result<OutputModel, ErrorModel>>::Finished(read_out(s, w)),
                w11,
            )) by {
                reveal_with_fuel(run, 2);
            }
        },
    }
}

/// A reading with a wrong passphrase fails with `UnlockFailed`, hands back
/// nothing, and leaves the disk as it was.
pub proof fn wrong_passphrase_in_world(s: SessionModel, w: World)
    requires
        s.stage is Locating,
        is_file(w, target(s)),
        is_file(w, key_file(s.repo)),
        !(w.tool is Missing),
        w.child is None,
        !(w.nodes[key_file(s.repo)] is Sealed && w.nodes[key_file(s.repo)]->key == encode_utf8(
            next_line(w),
        )),
    ensures
        drive(s, w, 18).0 == Step::<SessionModel, Result<OutputModel, ErrorModel>>::Finished(
            Err(ErrorModel::UnlockFailed),
        ),
        drive(s, w, 18).1.nodes == w.nodes,
{
    reading_in_world(s, w);
}

/// An operation that carries another within it to its end runs as the inner
/// one does, and ends as `end` makes of the inner one's result: where the
/// outer state `wrap(c)` waits on what `c` waits on, follows `c` from reply to
/// reply, and is over when `c` is.
pub proof fn run_to_end<C, CT, P, PT>(
    inner: Machine<C, CT>,
    outer: Machine<P, PT>,
    wrap: spec_fn(C) -> P,
    end: spec_fn(CT) -> PT,
    c: C,
    w: World,
    steps: nat,
)
    requires
        forall|c: C| (outer.pending)(#[trigger] wrap(c)) == (inner.pending)(c),
        forall|c: C, reply: ReplyModel|
            (#[trigger] (inner.advance)(c, reply)) is Pending ==> (outer.advance)(wrap(c), reply)
                == Step::<P, PT>::Pending(wrap((inner.advance)(c, reply)->Pending_0)),
        forall|c: C, reply: ReplyModel|
            (#[trigger] (inner.advance)(c, reply)) is Finished ==> (outer.advance)(wrap(c), reply)
                == Step::<P, PT>::Finished(end((inner.advance)(c, reply)->Finished_0)),
    ensures
        run(outer, wrap(c), w, steps).1 == run(inner, c, w, steps).1,
        run(outer, wrap(c), w, steps).0 == match run(inner, c, w, steps).0 {
            Step::Pending(next) => Step::<P, PT>::Pending(wrap(next)),
            Step::Finished(r) => Step::<P, PT>::Finished(end(r)),
        },
    decreases steps,
{
    if steps == 0 {
    } else {
        let (after, reply) = respond(w, (inner.pending)(c));
        match (inner.advance)(c, reply) {
            Step::Pending(next) => {
                run_to_end(inner, outer, wrap, end, next, after, (steps - 1) as nat);
            },
            Step::Finished(r) => {},
        }
    }
}

/// Storing. A session that has come to store a secret ends as the write
/// does, whatever its configuration. With a working tool it succeeds after
/// ten requests, and the target holds the secret, sealed under the key. With
/// a tool that fails or cannot be started it fails with the tool's failure;
/// the target is then as it was, whether it existed or not, and no temporary
/// file is left.
pub proof fn storing_in_world(s: SessionModel, data: Seq<char>, key: Seq<u8>, w: World)
    requires
        s.stage == StageModel::Storing(writing(data, key, target(s), s.config.cipher)),
        !is_dir(w, temporary(target(s))),
        w.child is None,
    ensures
        w.tool is Working ==> drive(s, w, 10) == (
            Step::<SessionModel, Result<OutputModel, ErrorModel>>::Finished(
                Ok(OutputModel::NoOutput),
            ),
            tool_over(w, key, stored(w.nodes, target(s), key, data)),
        ),
        !(w.tool is Working) ==> {
            &&& drive(s, w, 10).0 matches Step::Finished(Err(ErrorModel::ToolFailed(_)))
            &&& drive(s, w, 10).1.nodes == w.nodes.remove(temporary(target(s)))
            &&& drive(s, w, 10).1.lines == w.lines
            &&& !drive(s, w, 10).1.nodes.contains_key(temporary(target(s)))
            &&& drive(s, w, 10).1.nodes.contains_key(target(s)) == w.nodes.contains_key(target(s))
            &&& w.nodes.contains_key(target(s)) ==> drive(s, w, 10).1.nodes[target(s)]
                == w.nodes[target(s)]
            &&& !w.nodes.contains_key(temporary(target(s))) ==> drive(s, w, 10).1.nodes == w.nodes
        },
        w.tool is Failing ==> drive(s, w, 10).0 == Step::<
            SessionModel,
            Result<OutputModel, ErrorModel>,
        >::Finished(Err(ErrorModel::ToolFailed(tool_failure()))),
{
    let x0 = writing(data, key, target(s), s.config.cipher);
    let storing_in = |x: WriterModel| at(s, StageModel::Storing(x));
    let end = |r: Result<(), GpgErrorModel>| crate::written(r);
    temporary_differs(target(s));
    run_to_end(writers(), sessions(), storing_in, end, x0, w, 10);
    assert(storing_in(x0) == s);
    if w.tool is Working {
        writing_in_world(data, key, target(s), s.config.cipher, w);
    } else {
        failed_writing_in_world(data, key, target(s), s.config.cipher, w);
        if w.tool is Failing {
            let x9 = WriterModel {
                target: target(s),
                phase: WriterPhaseModel::Removing(tool_failure()),
            };
            let w9 = tool_over(
                w,
                key,
                w.nodes.insert(temporary(target(s)), Node::File(partial_output())),
            );
            failing_write_comes_to_remove(data, key, target(s), s.config.cipher, w);
            assert(run(writers(), x9, w9, 1).0 == Step::<
                WriterModel,
                Result<(), GpgErrorModel>,
            >::Finished(Err(tool_failure()))) by {
                reveal_with_fuel(run, 2);
            }
            run_in_two(writers(), x0, w, 9, 1);
        }
    }
}

/// Whether the generator of the configuration, where it has one, is another
/// program than the tool.
pub open spec fn plain_generator(config: ConfigModel) -> bool {
    match generator(config) {
        Some(launch) => launch.program != tool_program(),
        None => true,
    }
}

/// What the generator of the configuration offers in the world: the words
/// of what it writes, where it can be started and writes any.
pub open spec fn offered(config: ConfigModel, w: World) -> Option<Seq<Seq<char>>> {
    match generator(config) {
        Some(launch) => if launch.program != tool_program() && w.programs.contains_key(
            launch.program,
        ) {
            suggested(w.programs[launch.program].stdout)
        } else {
            None
        },
        None => None,
    }
}

/// How many requests a writing spends on its suggestions: none without a
/// generator, one to find that the generator cannot be started, two to start
/// it and wait for it, and one more to show what it offers.
pub open spec fn suggestion_steps(config: ConfigModel, w: World) -> nat {
    match generator(config) {
        Some(launch) => if starts_up(w, launch.program) {
            if offered(config, w) is Some {
                3
            } else {
                2
            }
        } else {
            1
        },
        None => 0,
    }
}

/// The entry of a new secret comes to read the second line, where the first
/// line picks none of the suggestions: after three requests, and after one
/// more where there are suggestions to show.
pub proof fn entry_comes_to_confirm(path: Seq<char>, choices: Option<Seq<Seq<char>>>, w: World)
    requires
        picked(next_line(w), choices) is None,
    ensures
        run(
            entries(),
            new_secret_entry(path, choices),
            w,
            if choices is Some {
                4
            } else {
                3
            },
        ) == (
            Step::<EntryModel, Result<Seq<char>, ErrorModel>>::Pending(
                entry_in(
                    new_secret_entry(path, choices),
                    EntryPhaseModel::Rereading { first: next_line(w), tty: w.tty },
                ),
            ),
            line_taken(w),
        ),
{
    reveal_with_fuel(run, 5);
}

/// The entry of a secret that is typed twice, after three requests: it has
/// read the first line and is about to read the second.
pub proof fn passphrase_comes_to_confirm(prompt: Seq<char>, confirm: Seq<char>, w: World)
    ensures
        run(entries(), secret_entry(prompt, confirm), w, 3) == (
            Step::<EntryModel, Result<Seq<char>, ErrorModel>>::Pending(
                entry_in(
                    secret_entry(prompt, confirm),
                    EntryPhaseModel::Rereading { first: next_line(w), tty: w.tty },
                ),
            ),
            line_taken(w),
        ),
{
    reveal_with_fuel(run, 4);
}

/// The suggestions of a writing. A session that has unlocked the repository
/// for a writing comes to the entry of the secret: at once without a
/// generator, after one request where the generator cannot be started, and
/// after two where it runs. The entry then offers what the generator wrote.
/// The world is as it was.
pub proof fn suggestions_in_world(s: SessionModel, key: Seq<u8>, w: World)
    requires
        plain_generator(s.config),
        w.child is None,
        w.created is None,
    ensures
        run(
            sessions(),
            at(s, crate::unlocked_for_writing(s, key)),
            w,
            match generator(s.config) {
                Some(launch) => if starts_up(w, launch.program) {
                    2nat
                } else {
                    1nat
                },
                None => 0nat,
            },
        ) == (
            Step::<SessionModel, Result<OutputModel, ErrorModel>>::Pending(
                at(
                    s,
                    StageModel::Entering {
                        key,
                        entry: new_secret_entry(s.path, offered(s.config, w)),
                    },
                ),
            ),
            w,
        ),
{
    reveal_with_fuel(run, 3);
}

/// What a writing gives before it stores anything, in a world with a tool:
/// the failure of the unlocking, or of the entry where the secret was not
/// typed the same twice; else the key.
pub open spec fn entered(s: SessionModel, w: World) -> Result<Seq<u8>, ErrorModel> {
    match unlocked(w, key_file(s.repo)) {
        Ok(key) => if next_line(line_taken(w)) == next_line(line_taken(line_taken(w))) {
            Ok(key)
        } else {
            Err(ErrorModel::InputsDidntMatch)
        },
        Err(e) => Err(e),
    }
}

/// Whether the line that is typed for the secret picks none of the
/// suggestions: it is no number, or there is no suggestion of that number.
pub open spec fn picks_nothing(config: ConfigModel, w: World) -> bool {
    picked(next_line(line_taken(w)), offered(config, w)) is None
}

/// The world after the unlocking and the entry of a writing: three lines
/// are taken, and the disk is as it was.
pub open spec fn world_entered(w: World) -> World {
    line_taken(line_taken(tool_over(line_taken(w), encode_utf8(next_line(w)), w.nodes)))
}

/// In a world with a tool, a writing that has made its directory comes to
/// store the secret after fifteen requests, and those it spends on its
/// suggestions, and three lines from the user: the passphrase, and the
/// secret twice. This is so whether or not a generator is configured, can be
/// started and offers anything, as long as the secret that is typed picks
/// none of the suggestions. Where the passphrase is not that of the key, or
/// the two lines differ, the writing is over by then, and the disk is as it
/// was.
pub proof fn writing_comes_to_store(s: SessionModel, w: World)
    requires
        s.stage is Guarding,
        plain_generator(s.config),
        picks_nothing(s.config, w),
        !is_dir(w, target(s)),
        is_file(w, key_file(s.repo)),
        !(w.tool is Missing),
        w.child is None,
    ensures
        match entered(s, w) {
            Ok(key) => drive(s, w, 15 + suggestion_steps(s.config, w)) == (
                Step::<SessionModel, Result<OutputModel, ErrorModel>>::Pending(
                    at(
                        s,
                        StageModel::Storing(
                            writing(
                                next_line(line_taken(w)),
                                key,
                                target(s),
                                s.config.cipher,
                            ),
                        ),
                    ),
                ),
                world_entered(w),
            ),
            Err(e) => drive(s, w, 15 + suggestion_steps(s.config, w)).0 == Step::<
                SessionModel,
                Result<OutputModel, ErrorModel>,
            >::Finished(Err(e)) && drive(s, w, 15 + suggestion_steps(s.config, w)).1.nodes
                == w.nodes,
        },
{
    let repo = s.repo;
    let extra = suggestion_steps(s.config, w);
    let choices = offered(s.config, w);
    let shown: nat = if choices is Some {
        1
    } else {
        0
    };
    let g = (extra - shown) as nat;
    let key_path = key_file(repo);
    let opening_in = |u: UnlockModel| at(s, StageModel::Opening(u));
    let line = encode_utf8(next_line(w));
    let u0 = unlocking(repo);
    let u9 = UnlockModel {
        key_path,
        phase: UnlockPhaseModel::Decrypting(in_phase(decryption(key_path, line), Phase::Waiting)),
    };
    let w1 = line_taken(w);
    let w10 = tool_awaited(w1, PurposeModel::Decrypt { path: key_path }, line);
    let w11 = tool_over(w1, line, w.nodes);
    unlocking_in_world(repo, w);
    assert(run(sessions(), s, w, 1) == (
        Step::<SessionModel, Result<OutputModel, ErrorModel>>::Pending(opening_in(u0)),
        w,
    )) by {
        reveal_with_fuel(run, 2);
    }
    assert(run(sessions(), opening_in(u0), w, 9) == (
        Step::<SessionModel, Result<OutputModel, ErrorModel>>::Pending(opening_in(u9)),
        w10,
    )) by {
        run_within(unlocks(), sessions(), opening_in, u0, w, 9);
    }
    run_in_two(unlocks(), u0, w, 9, 1);
    run_in_two(sessions(), s, w, 1, 9);
    run_in_two(sessions(), s, w, 10, 1);
    run_in_two(sessions(), s, w, 11, 4 + extra);
    match unlocked(w, key_path) {
        Ok(key) => {
            let e0 = new_secret_entry(s.path, choices);
            let entering_in = |e: EntryModel| at(s, StageModel::Entering { key, entry: e });
            let first = next_line(w11);
            let e3 = entry_in(e0, EntryPhaseModel::Rereading { first, tty: w.tty });
            let w14 = line_taken(w11);
            let w15 = line_taken(w14);
            let s11 = at(s, crate::unlocked_for_writing(s, key));
            assert(run(sessions(), opening_in(u9), w10, 1) == (
                Step::<SessionModel, Result<OutputModel, ErrorModel>>::Pending(s11),
                w11,
            )) by {
                reveal_with_fuel(run, 2);
            }
            assert(offered(s.config, w11) == choices);
            assert(suggestion_steps(s.config, w11) == extra);
            assert(run(sessions(), s11, w11, g) == (
                Step::<SessionModel, Result<OutputModel, ErrorModel>>::Pending(entering_in(e0)),
                w11,
            )) by {
                suggestions_in_world(s, key, w11);
            }
            assert(next_line(w11) == next_line(line_taken(w)));
            assert(next_line(w14) == next_line(line_taken(line_taken(w))));
            assert(run(sessions(), entering_in(e0), w11, 3 + shown) == (
                Step::<SessionModel, Result<OutputModel, ErrorModel>>::Pending(entering_in(e3)),
                w14,
            )) by {
                entry_comes_to_confirm(s.path, choices, w11);
                run_within(entries(), sessions(), entering_in, e0, w11, 3 + shown);
            }
            run_in_two(sessions(), s11, w11, g, 4 + shown);
            run_in_two(sessions(), entering_in(e0), w11, 3 + shown, 1);
            assert(run(sessions(), entering_in(e3), w14, 1) == (
                if first == next_line(w14) {
                    Step::<SessionModel, Result<OutputModel, ErrorModel>>::Pending(
                        at(
                            s,
                            StageModel::Storing(writing(first, key, target(s), s.config.cipher)),
                        ),
                    )
                } else {
                    Step::<SessionModel, Result<OutputModel, ErrorModel>>::Finished(
                        Err(ErrorModel::InputsDidntMatch),
                    )
                },
                w15,
            )) by {
                reveal_with_fuel(run, 2);
            }
            assert((g + (4 + shown)) as nat == (4 + extra) as nat);
            assert((3 + shown + 1) as nat == (4 + shown) as nat);
        },
        Err(e) => {
            assert(run(sessions(), opening_in(u9), w10, 1) == (
                Step::<SessionModel, Result<OutputModel, ErrorModel>>::Finished(Err(e)),
                w11,
            )) by {
                reveal_with_fuel(run, 2);
            }
        },
    }
}

/// In a world with a working tool, a writing that has made its directory is
/// over after at most twenty-eight requests. Where the passphrase is that of
/// the key and the secret was typed the same twice, the target holds the
/// secret, sealed under the key, and no temporary file is left.
pub proof fn writing_session_in_world(s: SessionModel, w: World, key: Seq<u8>)
    requires
        s.stage is Guarding,
        plain_generator(s.config),
        picks_nothing(s.config, w),
        !is_dir(w, target(s)),
        !is_dir(w, temporary(target(s))),
        is_file(w, key_file(s.repo)),
        w.tool is Working,
        w.child is None,
        entered(s, w) == Ok::<Seq<u8>, ErrorModel>(key),
    ensures
        drive(s, w, 25 + suggestion_steps(s.config, w)) == (
            Step::<SessionModel, Result<OutputModel, ErrorModel>>::Finished(
                Ok(OutputModel::NoOutput),
            ),
            tool_over(
                world_entered(w),
                key,
                stored(w.nodes, target(s), key, next_line(line_taken(w))),
            ),
        ),
{
    let g = suggestion_steps(s.config, w);
    let secret = next_line(line_taken(w));
    let s15 = at(s, StageModel::Storing(writing(secret, key, target(s), s.config.cipher)));
    writing_comes_to_store(s, w);
    storing_in_world(s15, secret, key, world_entered(w));
    run_in_two(sessions(), s, w, 15 + g, 10);
    assert((15 + g + 10) as nat == (25 + g) as nat);
}

/// Atomicity. In a world whose tool fails to encrypt, a writing that came
/// as far as the tool ends with the tool's failure. The target is as it was
/// before the writing, whether it existed or not, and no temporary file is
/// left, whatever the tool had written before it failed.
pub proof fn failed_writing_leaves_target(s: SessionModel, w: World, key: Seq<u8>)
    requires
        s.stage is Guarding,
        plain_generator(s.config),
        picks_nothing(s.config, w),
        !is_dir(w, target(s)),
        !is_dir(w, temporary(target(s))),
        is_file(w, key_file(s.repo)),
        w.tool is Failing,
        w.child is None,
        entered(s, w) == Ok::<Seq<u8>, ErrorModel>(key),
    ensures
        drive(s, w, 25 + suggestion_steps(s.config, w)).0 == Step::<
            SessionModel,
            Result<OutputModel, ErrorModel>,
        >::Finished(Err(ErrorModel::ToolFailed(tool_failure()))),
        drive(s, w, 25 + suggestion_steps(s.config, w)).1.nodes == w.nodes.remove(
            temporary(target(s)),
        ),
        !drive(s, w, 25 + suggestion_steps(s.config, w)).1.nodes.contains_key(temporary(target(s))),
        drive(s, w, 25 + suggestion_steps(s.config, w)).1.nodes.contains_key(target(s))
            == w.nodes.contains_key(target(s)),
        w.nodes.contains_key(target(s)) ==> drive(
            s,
            w,
            25 + suggestion_steps(s.config, w),
        ).1.nodes[target(s)] == w.nodes[target(s)],
        !w.nodes.contains_key(temporary(target(s))) ==> drive(
            s,
            w,
            25 + suggestion_steps(s.config, w),
        ).1.nodes == w.nodes,
{
    let g = suggestion_steps(s.config, w);
    let secret = next_line(line_taken(w));
    let s15 = at(s, StageModel::Storing(writing(secret, key, target(s), s.config.cipher)));
    writing_comes_to_store(s, w);
    storing_in_world(s15, secret, key, world_entered(w));
    run_in_two(sessions(), s, w, 15 + g, 10);
    assert((15 + g + 10) as nat == (25 + g) as nat);
}

/// The entry of a new secret ends with the suggestion that the first line
/// picks, after three requests: the suggestions are shown, and one line is
/// read.
pub proof fn entry_picks(path: Seq<char>, choices: Seq<Seq<char>>, choice: Seq<char>, w: World)
    requires
        picked(next_line(w), Some(choices)) == Some(choice),
    ensures
        run(entries(), new_secret_entry(path, Some(choices)), w, 2) == (
            Step::<EntryModel, Result<Seq<char>, ErrorModel>>::Pending(
                entry_in(
                    new_secret_entry(path, Some(choices)),
                    EntryPhaseModel::Reading { tty: w.tty },
                ),
            ),
            w,
        ),
        run(entries(), new_secret_entry(path, Some(choices)), w, 3) == (
            Step::<EntryModel, Result<Seq<char>, ErrorModel>>::Finished(Ok(choice)),
            line_taken(w),
        ),
{
    reveal_with_fuel(run, 4);
}

/// Picking. In a world with a tool, where the generator runs and the line
/// that is typed for the secret is the number of one of its suggestions, a
/// writing that has made its directory comes to store that suggestion after
/// sixteen requests and two lines from the user: the passphrase and the
/// number.
pub proof fn picking_comes_to_store(s: SessionModel, w: World, key: Seq<u8>, choice: Seq<char>)
    requires
        s.stage is Guarding,
        plain_generator(s.config),
        picked(next_line(line_taken(w)), offered(s.config, w)) == Some(choice),
        unlocked(w, key_file(s.repo)) == Ok::<Seq<u8>, ErrorModel>(key),
        !is_dir(w, target(s)),
        is_file(w, key_file(s.repo)),
        !(w.tool is Missing),
        w.child is None,
    ensures
        drive(s, w, 16) == (
            Step::<SessionModel, Result<OutputModel, ErrorModel>>::Pending(
                at(s, StageModel::Storing(writing(choice, key, target(s), s.config.cipher))),
            ),
            line_taken(tool_over(line_taken(w), encode_utf8(next_line(w)), w.nodes)),
        ),
{
    let repo = s.repo;
    let choices = offered(s.config, w)->0;
    let key_path = key_file(repo);
    let opening_in = |u: UnlockModel| at(s, StageModel::Opening(u));
    let entering_in = |e: EntryModel| at(s, StageModel::Entering { key, entry: e });
    let line = encode_utf8(next_line(w));
    let u0 = unlocking(repo);
    let u9 = UnlockModel {
        key_path,
        phase: UnlockPhaseModel::Decrypting(in_phase(decryption(key_path, line), Phase::Waiting)),
    };
    let w1 = line_taken(w);
    let w10 = tool_awaited(w1, PurposeModel::Decrypt { path: key_path }, line);
    let w11 = tool_over(w1, line, w.nodes);
    let s11 = at(s, crate::unlocked_for_writing(s, key));
    let e0 = new_secret_entry(s.path, Some(choices));
    let e2 = entry_in(e0, EntryPhaseModel::Reading { tty: w.tty });
    unlocking_in_world(repo, w);
    assert(run(sessions(), s, w, 1) == (
        Step::<SessionModel, Result<OutputModel, ErrorModel>>::Pending(opening_in(u0)),
        w,
    )) by {
        reveal_with_fuel(run, 2);
    }
    assert(run(sessions(), opening_in(u0), w, 9) == (
        Step::<SessionModel, Result<OutputModel, ErrorModel>>::Pending(opening_in(u9)),
        w10,
    )) by {
        run_within(unlocks(), sessions(), opening_in, u0, w, 9);
    }
    assert(run(sessions(), opening_in(u9), w10, 1) == (
        Step::<SessionModel, Result<OutputModel, ErrorModel>>::Pending(s11),
        w11,
    )) by {
        run_in_two(unlocks(), u0, w, 9, 1);
        reveal_with_fuel(run, 2);
    }
    assert(offered(s.config, w11) == Some(choices));
    assert(run(sessions(), s11, w11, 2) == (
        Step::<SessionModel, Result<OutputModel, ErrorModel>>::Pending(entering_in(e0)),
        w11,
    )) by {
        suggestions_in_world(s, key, w11);
    }
    assert(next_line(w11) == next_line(line_taken(w)));
    assert(run(sessions(), entering_in(e0), w11, 2) == (
        Step::<SessionModel, Result<OutputModel, ErrorModel>>::Pending(entering_in(e2)),
        w11,
    )) by {
        entry_picks(s.path, choices, choice, w11);
        run_within(entries(), sessions(), entering_in, e0, w11, 2);
    }
    assert(run(sessions(), entering_in(e2), w11, 1) == (
        Step::<SessionModel, Result<OutputModel, ErrorModel>>::Pending(
            at(s, StageModel::Storing(writing(choice, key, target(s), s.config.cipher))),
        ),
        line_taken(w11),
    )) by {
        reveal_with_fuel(run, 2);
    }
    run_in_two(sessions(), s, w, 1, 9);
    run_in_two(sessions(), s, w, 10, 1);
    run_in_two(sessions(), s, w, 11, 2);
    run_in_two(sessions(), s, w, 13, 2);
    run_in_two(sessions(), s, w, 15, 1);
}

/// Round trip of a suggestion. In a world that is fit for it, where the
/// generator runs and the user types the passphrase of the key and then the
/// number of a suggestion, `set` stores that suggestion; and where the user
/// then types the passphrase again, `get` of the same path gives the
/// suggestion back, byte for byte. The writing has made its directory.
pub proof fn picked_suggestion_round_trip(
    s: SessionModel,
    raw: bool,
    w: World,
    passphrase: Seq<char>,
    choice: Seq<char>,
)
    requires
        s.stage is Guarding,
        plain_generator(s.config),
        w.tool is Working,
        w.child is None,
        is_file(w, key_file(s.repo)),
        !is_dir(w, target(s)),
        !is_dir(w, temporary(target(s))),
        key_file(s.repo) != target(s),
        w.nodes[key_file(s.repo)] is Sealed,
        w.nodes[key_file(s.repo)]->key == encode_utf8(passphrase),
        w.lines.len() >= 3,
        w.lines[0] == passphrase,
        picked(w.lines[1], offered(s.config, w)) == Some(choice),
        w.lines[2] == passphrase,
    ensures
        drive(s, w, 26).0 == Step::<SessionModel, Result<OutputModel, ErrorModel>>::Finished(
            Ok(OutputModel::NoOutput),
        ),
        drive(getting(s.repo, s.path, raw), drive(s, w, 26).1, 18).0 == Step::<
            SessionModel,
            Result<OutputModel, ErrorModel>,
        >::Finished(Ok(OutputModel::Get(s.path, encode_utf8(choice), raw))),
{
    let key_path = key_file(s.repo);
    let key = w.nodes[key_path]->data;
    let l1 = w.lines.drop_first();
    let l2 = l1.drop_first();
    assert(l1.first() == w.lines[1] && l2.first() == passphrase);
    assert(next_line(w) == passphrase);
    assert(next_line(line_taken(w)) == w.lines[1]);
    temporary_differs(target(s));
    repository_paths_differ(s.repo, target(s));
    picking_comes_to_store(s, w, key, choice);
    let s16 = at(s, StageModel::Storing(writing(choice, key, target(s), s.config.cipher)));
    let w16 = line_taken(tool_over(line_taken(w), encode_utf8(passphrase), w.nodes));
    storing_in_world(s16, choice, key, w16);
    run_in_two(sessions(), s, w, 16, 10);
    let w2 = drive(s, w, 26).1;
    assert(w2 == tool_over(w16, key, stored(w.nodes, target(s), key, choice)));
    assert(w2.lines == l2);
    let x = getting(s.repo, s.path, raw);
    reading_in_world(x, w2);
    assert(read_out(x, w2) == Ok::<OutputModel, ErrorModel>(
        OutputModel::Get(s.path, encode_utf8(choice), raw),
    ));
}

/// The session that a writing is after the making of its directory.
pub open spec fn guarding(repo: Seq<char>, path: Seq<char>, config: ConfigModel) -> SessionModel {
    at(setting(repo, path, config), StageModel::Guarding)
}

/// The disk after a writing has made the directory above its target, where
/// it makes one.
pub open spec fn prepared(repo: Seq<char>, path: Seq<char>, w: World) -> World {
    match first_of_writing(repo, path) {
        StageModel::Preparing { parent, dir } => with_nodes(
            w,
            w.nodes.insert(dir, Node::Directory),
        ),
        _ => w,
    }
}

/// The key file of a repository is the temporary file of no target, and is
/// not the control directory, nor is the control directory the temporary
/// file of the key file: their paths end differently.
pub proof fn repository_paths_differ(repo: Seq<char>, target: Seq<char>)
    ensures
        key_file(repo) != temporary(target),
        control_dir(repo) != key_file(repo),
        control_dir(repo) != temporary(key_file(repo)),
{
    reveal_strlit(".sala/key");
    reveal_strlit(".sala");
    reveal_strlit(".tmp");
    let key = key_file(repo);
    let tmp = temporary(target);
    assert(key.last() == 'y');
    assert(tmp.last() == 'p');
    assert(control_dir(repo).len() + 4 == key.len());
    assert(temporary(key).len() == key.len() + 4);
}

/// Whether a world is one in which a secret can be written to `path` and
/// read again: the tool works, the repository has a key, which is not the
/// target, and the target and its temporary file are no directories. Where
/// the writing makes a directory above the target, nothing lies in that
/// directory's place.
pub open spec fn fit_for(repo: Seq<char>, path: Seq<char>, w: World) -> bool {
    let target = joined(repo, path);
    &&& w.tool is Working
    &&& w.child is None
    &&& is_file(w, key_file(repo))
    &&& !is_dir(w, target)
    &&& !is_dir(w, temporary(target))
    &&& key_file(repo) != target
    &&& match first_of_writing(repo, path) {
        StageModel::Preparing { parent, dir } => !is_file(w, dir),
        _ => true,
    }
}

/// Round trip. In a world that is fit for it, where the user types the
/// passphrase of the key and then a secret twice, `set` stores the secret;
/// and where the user then types the passphrase again, `get` of the same
/// path gives the secret back: the bytes of the text that was typed, none
/// added, none lost. This holds of every path but that of the key file
/// itself, which `set` would overwrite. It holds with and without a
/// generator of suggestions, whether the generator can be started or not
/// and whatever it writes, as long as the secret that is typed picks none of
/// its suggestions and the generator is not the tool itself.
pub proof fn set_then_get_round_trip(
    repo: Seq<char>,
    path: Seq<char>,
    config: ConfigModel,
    raw: bool,
    w: World,
    passphrase: Seq<char>,
    secret: Seq<char>,
)
    requires
        fit_for(repo, path, w),
        rooted(repo, path),
        plain_generator(config),
        picked(secret, offered(config, w)) is None,
        w.nodes[key_file(repo)] is Sealed,
        w.nodes[key_file(repo)]->key == encode_utf8(passphrase),
        w.lines.len() >= 4,
        w.lines[0] == passphrase,
        w.lines[1] == secret,
        w.lines[2] == secret,
        w.lines[3] == passphrase,
    ensures
        drive(setting(repo, path, config), w, 29).0 == Step::<
            SessionModel,
            Result<OutputModel, ErrorModel>,
        >::Finished(Ok(OutputModel::NoOutput)),
        drive(setting(repo, path, config), w, 29).1 == after_set(repo, path, w, secret),
        drive(getting(repo, path, raw), after_set(repo, path, w, secret), 18).0 == Step::<
            SessionModel,
            Result<OutputModel, ErrorModel>,
        >::Finished(Ok(OutputModel::Get(path, encode_utf8(secret), raw))),
{
    let s0 = setting(repo, path, config);
    let s1 = guarding(repo, path, config);
    let w1 = prepared(repo, path, w);
    let g = suggestion_steps(config, w1);
    let key_path = key_file(repo);
    let target = joined(repo, path);
    let tmp = temporary(target);
    let key = w.nodes[key_path]->data;
    temporary_differs(target);
    repository_paths_differ(repo, target);
    // The three lines of the writing, and the one of the reading.
    let l1 = w.lines.drop_first();
    let l2 = l1.drop_first();
    let l3 = l2.drop_first();
    assert(l1.first() == secret && l2.first() == secret && l3.first() == passphrase);
    assert(line_taken(w1).lines == l1);
    assert(line_taken(line_taken(w1)).lines == l2);
    assert(next_line(w1) == passphrase);
    assert(next_line(line_taken(w1)) == secret);
    assert(next_line(line_taken(line_taken(w1))) == secret);
    assert(entered(s1, w1) == Ok::<Seq<u8>, ErrorModel>(key));
    writing_session_in_world(s1, w1, key);
    match first_of_writing(repo, path) {
        StageModel::Preparing { parent, dir } => {
            assert(run(sessions(), s0, w, 1) == (
                Step::<SessionModel, Result<OutputModel, ErrorModel>>::Pending(s1),
                w1,
            )) by {
                reveal_with_fuel(run, 2);
            }
            run_in_two(sessions(), s0, w, 1, 25 + g);
            run_in_two(sessions(), s0, w, 26 + g, (3 - g) as nat);
            assert((26 + g + (3 - g) as nat) as nat == 29);
        },
        _ => {
            assert(s0 == s1);
            run_in_two(sessions(), s0, w, 25 + g, (4 - g) as nat);
            assert((25 + g + (4 - g) as nat) as nat == 29);
        },
    }
    let w2 = drive(s0, w, 29).1;
    assert(w2 == tool_over(world_entered(w1), key, stored(w1.nodes, target, key, secret)));
    assert(w2.lines == l3);
    let x = getting(repo, path, raw);
    reading_in_world(x, w2);
    assert(read_out(x, w2) == Ok::<OutputModel, ErrorModel>(
        OutputModel::Get(path, encode_utf8(secret), raw),
    ));
}

/// The world after a writing that went well: three lines are taken, the
/// directory above the target is there, the target holds the secret, sealed
/// under the content of the key file, and no temporary file is left.
pub open spec fn after_set(repo: Seq<char>, path: Seq<char>, w: World, secret: Seq<char>) -> World {
    let made = prepared(repo, path, w);
    let key = w.nodes[key_file(repo)]->data;
    tool_over(world_entered(made), key, stored(made.nodes, joined(repo, path), key, secret))
}

/// Whether a world is one in which the repository at `repo` can be
/// initialized: the tool works, there is neither key nor control directory,
/// and no directory lies in the place of the key's temporary file.
pub open spec fn fit_for_init(repo: Seq<char>, w: World) -> bool {
    &&& w.tool is Working
    &&& w.child is None
    &&& !w.nodes.contains_key(key_file(repo))
    &&& !w.nodes.contains_key(control_dir(repo))
    &&& !is_dir(w, temporary(key_file(repo)))
}

/// The disk after the initializing of a repository: the control directory
/// is there, and the key file holds the text of the key, sealed under the
/// passphrase.
pub open spec fn initialized(
    nodes: Map<Seq<char>, Node>,
    repo: Seq<char>,
    passphrase: Seq<char>,
    drawn: Seq<u8>,
) -> Map<Seq<char>, Node> {
    stored(
        nodes.insert(control_dir(repo), Node::Directory),
        key_file(repo),
        encode_utf8(passphrase),
        hex(drawn),
    )
}

/// The world after the initializing of a repository: two lines are taken,
/// and the disk holds the repository.
pub open spec fn after_init(
    repo: Seq<char>,
    w: World,
    passphrase: Seq<char>,
    drawn: Seq<u8>,
) -> World {
    tool_over(
        line_taken(line_taken(w)),
        encode_utf8(passphrase),
        initialized(w.nodes, repo, passphrase, drawn),
    )
}

/// Initializing. In a world that is fit for it, where the user types the
/// same passphrase twice and the random source gives `drawn`, `init` is over
/// after twenty requests and has made a repository: the key file holds the
/// hexadecimal text of what was drawn, two digits a byte, sealed under the
/// passphrase, so that an unlocking under the passphrase gives that text as
/// the key.
pub proof fn init_makes_repository(
    repo: Seq<char>,
    config: ConfigModel,
    w: World,
    passphrase: Seq<char>,
    drawn: Seq<u8>,
)
    requires
        fit_for_init(repo, w),
        w.lines.len() >= 2,
        w.lines[0] == passphrase,
        w.lines[1] == passphrase,
    ensures
        run(sessions_with(Some(drawn)), initializing(repo, config), w, 20) == (
            Step::<SessionModel, Result<OutputModel, ErrorModel>>::Finished(
                Ok(OutputModel::NoOutput),
            ),
            after_init(repo, w, passphrase, drawn),
        ),
        initialized(w.nodes, repo, passphrase, drawn)[key_file(repo)] == (Node::Sealed {
            key: encode_utf8(passphrase),
            data: encode_utf8(hex(drawn)),
        }),
        initialized(w.nodes, repo, passphrase, drawn).contains_key(key_file(repo)),
        is_dir(after_init(repo, w, passphrase, drawn), control_dir(repo)),
{
    let m = sessions_with(Some(drawn));
    let s0 = initializing(repo, config);
    let key_path = key_file(repo);
    let w3 = with_nodes(w, w.nodes.insert(control_dir(repo), Node::Directory));
    let e0 = crate::passphrase_entry();
    let choosing_in = |e: EntryModel| at(s0, StageModel::Choosing(e));
    let e3 = entry_in(e0, EntryPhaseModel::Rereading { first: passphrase, tty: w.tty });
    let w7 = line_taken(w3);
    let w8 = line_taken(w7);
    let key = encode_utf8(passphrase);
    let x0 = writing(hex(drawn), key, key_path, config.cipher);
    let sealing_in = |x: WriterModel| at(s0, StageModel::Sealing(x));
    let end = |r: Result<(), GpgErrorModel>| crate::written(r);
    repository_paths_differ(repo, key_path);
    temporary_differs(key_path);
    assert(run(m, s0, w, 4) == (
        Step::<SessionModel, Result<OutputModel, ErrorModel>>::Pending(choosing_in(e0)),
        w3,
    )) by {
        reveal_with_fuel(run, 5);
    }
    assert(run(m, choosing_in(e0), w3, 3) == (
        Step::<SessionModel, Result<OutputModel, ErrorModel>>::Pending(choosing_in(e3)),
        w7,
    )) by {
        passphrase_comes_to_confirm(e0.prompt, e0.confirm->0, w3);
        run_within(entries(), m, choosing_in, e0, w3, 3);
    }
    assert(next_line(w7) == passphrase);
    assert(run(m, choosing_in(e3), w7, 3) == (
        Step::<SessionModel, Result<OutputModel, ErrorModel>>::Pending(sealing_in(x0)),
        w8,
    )) by {
        reveal_with_fuel(run, 4);
    }
    writing_in_world(hex(drawn), key, key_path, config.cipher, w8);
    run_to_end(writers(), m, sealing_in, end, x0, w8, 10);
    run_in_two(m, s0, w, 4, 3);
    run_in_two(m, s0, w, 7, 3);
    run_in_two(m, s0, w, 10, 10);
    assert(w8.lines == line_taken(line_taken(w)).lines);
    assert(tool_over(w8, key, stored(w8.nodes, key_path, key, hex(drawn))) == after_init(
        repo,
        w,
        passphrase,
        drawn,
    ));
}

/// From nothing to a secret read back. In a world that is fit for the
/// initializing of a repository, where the user types a passphrase twice,
/// `init` makes the repository; where the user then types the passphrase and
/// a secret twice, `set` stores the secret; and where the user then types
/// the passphrase once more, `get` gives the secret back, byte for byte.
pub proof fn init_then_set_then_get(
    repo: Seq<char>,
    path: Seq<char>,
    config: ConfigModel,
    raw: bool,
    w: World,
    passphrase: Seq<char>,
    secret: Seq<char>,
    drawn: Seq<u8>,
)
    requires
        fit_for_init(repo, w),
        rooted(repo, path),
        plain_generator(config),
        picked(secret, offered(config, w)) is None,
        joined(repo, path) != key_file(repo),
        joined(repo, path) != control_dir(repo),
        temporary(joined(repo, path)) != control_dir(repo),
        !is_dir(w, joined(repo, path)),
        !is_dir(w, temporary(joined(repo, path))),
        match first_of_writing(repo, path) {
            StageModel::Preparing { parent, dir } => !is_file(w, dir) && dir != key_file(repo),
            _ => true,
        },
        w.lines.len() >= 6,
        w.lines[0] == passphrase,
        w.lines[1] == passphrase,
        w.lines[2] == passphrase,
        w.lines[3] == secret,
        w.lines[4] == secret,
        w.lines[5] == passphrase,
    ensures
        run(sessions_with(Some(drawn)), initializing(repo, config), w, 20) == (
            Step::<SessionModel, Result<OutputModel, ErrorModel>>::Finished(
                Ok(OutputModel::NoOutput),
            ),
            after_init(repo, w, passphrase, drawn),
        ),
        drive(setting(repo, path, config), after_init(repo, w, passphrase, drawn), 29) == (
            Step::<SessionModel, Result<OutputModel, ErrorModel>>::Finished(
                Ok(OutputModel::NoOutput),
            ),
            after_set(repo, path, after_init(repo, w, passphrase, drawn), secret),
        ),
        drive(
            getting(repo, path, raw),
            after_set(repo, path, after_init(repo, w, passphrase, drawn), secret),
            18,
        ).0 == Step::<SessionModel, Result<OutputModel, ErrorModel>>::Finished(
            Ok(OutputModel::Get(path, encode_utf8(secret), raw)),
        ),
{
    let w1 = after_init(repo, w, passphrase, drawn);
    let target = joined(repo, path);
    init_makes_repository(repo, config, w, passphrase, drawn);
    repository_paths_differ(repo, target);
    temporary_differs(key_file(repo));
    temporary_differs(target);
    let l1 = w.lines.drop_first();
    let l2 = l1.drop_first();
    assert(w1.lines == l2);
    assert(l2[0] == passphrase && l2[1] == secret && l2[2] == secret && l2[3] == passphrase);
    assert(fit_for(repo, path, w1));
    set_then_get_round_trip(repo, path, config, raw, w1, passphrase, secret);
}

/// Directory guard. Where the target is a directory, `get` fails with
/// `FileDoesNotExist` and `set` fails with `TargetIsDirectory`; each names
/// the target as it was given, asks nothing of the user, and leaves the
/// world as it was. The directory above the target, which `set` sees to
/// first, is there already, an existing directory being in one.
pub proof fn directory_is_no_secret(
    repo: Seq<char>,
    path: Seq<char>,
    config: ConfigModel,
    raw: bool,
    w: World,
)
    requires
        is_dir(w, joined(repo, path)),
        match first_of_writing(repo, path) {
            StageModel::Preparing { parent, dir } => is_dir(w, dir),
            _ => true,
        },
    ensures
        drive(getting(repo, path, raw), w, 1) == (
            Step::<SessionModel, Result<OutputModel, ErrorModel>>::Finished(
                Err(ErrorModel::FileDoesNotExist(path)),
            ),
            w,
        ),
        drive(setting(repo, path, config), w, 2) == (
            Step::<SessionModel, Result<OutputModel, ErrorModel>>::Finished(
                Err(ErrorModel::TargetIsDirectory(path)),
            ),
            w,
        ),
{
    reveal_with_fuel(run, 3);
    match first_of_writing(repo, path) {
        StageModel::Preparing { parent, dir } => {
            assert(w.nodes.insert(dir, Node::Directory) =~= w.nodes);
            assert(with_nodes(w, w.nodes) == w);
        },
        _ => {},
    }
}

/// Where there is nothing at the target, `get` fails with
/// `FileDoesNotExist` at once and leaves the world as it was.
pub proof fn nothing_to_read(repo: Seq<char>, path: Seq<char>, raw: bool, w: World)
    requires
        !w.nodes.contains_key(joined(repo, path)),
    ensures
        drive(getting(repo, path, raw), w, 1) == (
            Step::<SessionModel, Result<OutputModel, ErrorModel>>::Finished(
                Err(ErrorModel::FileDoesNotExist(path)),
            ),
            w,
        ),
{
    reveal_with_fuel(run, 2);
}

/// Parent creation. Where a file lies in the place of the directory above
/// the target, `set` fails with `CannotCreateDirectory`, which names that
/// directory as the target's own path does, and leaves the world as it was.
/// Where nothing lies there, `set` makes the directory and goes on.
pub proof fn parent_is_made_or_named(
    repo: Seq<char>,
    path: Seq<char>,
    config: ConfigModel,
    parent: Seq<char>,
    dir: Seq<char>,
    w: World,
)
    requires
        first_of_writing(repo, path) == (StageModel::Preparing { parent, dir }),
    ensures
        is_file(w, dir) ==> drive(setting(repo, path, config), w, 1) == (
            Step::<SessionModel, Result<OutputModel, ErrorModel>>::Finished(
                Err(ErrorModel::CannotCreateDirectory(parent)),
            ),
            w,
        ),
        !is_file(w, dir) ==> drive(setting(repo, path, config), w, 1) == (
            Step::<SessionModel, Result<OutputModel, ErrorModel>>::Pending(
                guarding(repo, path, config),
            ),
            with_nodes(w, w.nodes.insert(dir, Node::Directory)),
        ),
{
    reveal_with_fuel(run, 2);
}

/// Parent creation, to the end. In a world that is fit for it, where the
/// directory above the target is missing, a writing that goes well leaves
/// that directory a directory and the target a file in its own place: the
/// two are different paths, the one the start of the other.
pub proof fn parent_holds_the_secret(
    repo: Seq<char>,
    path: Seq<char>,
    config: ConfigModel,
    parent: Seq<char>,
    dir: Seq<char>,
    w: World,
    passphrase: Seq<char>,
    secret: Seq<char>,
)
    requires
        first_of_writing(repo, path) == (StageModel::Preparing { parent, dir }),
        !w.nodes.contains_key(dir),
        fit_for(repo, path, w),
        rooted(repo, path),
        plain_generator(config),
        picked(secret, offered(config, w)) is None,
        w.nodes[key_file(repo)] is Sealed,
        w.nodes[key_file(repo)]->key == encode_utf8(passphrase),
        w.lines.len() >= 4,
        w.lines[0] == passphrase,
        w.lines[1] == secret,
        w.lines[2] == secret,
        w.lines[3] == passphrase,
    ensures
        drive(setting(repo, path, config), w, 29).0 == Step::<
            SessionModel,
            Result<OutputModel, ErrorModel>,
        >::Finished(Ok(OutputModel::NoOutput)),
        is_dir(drive(setting(repo, path, config), w, 29).1, dir),
        is_file(drive(setting(repo, path, config), w, 29).1, joined(repo, path)),
        starts(dir, joined(repo, path)),
{
    set_then_get_round_trip(repo, path, config, false, w, passphrase, secret);
    temporary_differs(joined(repo, path));
    reveal_strlit(".tmp");
}

/// Idempotent lock state. In a world where the repository has a key file or
/// a control directory, `init` fails with `AlreadyInitialized`, whatever the
/// key file holds and whatever the random source would give. It asks nothing
/// of the user and leaves the world as it was.
pub proof fn init_twice_is_refused(
    repo: Seq<char>,
    config: ConfigModel,
    w: World,
    drawn: Option<Seq<u8>>,
)
    requires
        w.nodes.contains_key(key_file(repo)) || w.nodes.contains_key(control_dir(repo)),
    ensures
        run(sessions_with(drawn), initializing(repo, config), w, 2) == (
            Step::<SessionModel, Result<OutputModel, ErrorModel>>::Finished(
                Err(ErrorModel::AlreadyInitialized),
            ),
            w,
        ),
{
    reveal_with_fuel(run, 3);
}

/// A repository that `init` has made is one that `init` refuses: the two
/// theorems above fit together.
pub proof fn initialized_is_refused(
    repo: Seq<char>,
    config: ConfigModel,
    w: World,
    passphrase: Seq<char>,
    drawn: Seq<u8>,
    again: Option<Seq<u8>>,
)
    requires
        fit_for_init(repo, w),
        w.lines.len() >= 2,
        w.lines[0] == passphrase,
        w.lines[1] == passphrase,
    ensures
        run(
            sessions_with(again),
            initializing(repo, config),
            run(sessions_with(Some(drawn)), initializing(repo, config), w, 20).1,
            2,
        ).0 == Step::<SessionModel, Result<OutputModel, ErrorModel>>::Finished(
            Err(ErrorModel::AlreadyInitialized),
        ),
{
    init_makes_repository(repo, config, w, passphrase, drawn);
    init_twice_is_refused(repo, config, after_init(repo, w, passphrase, drawn), again);
}

} // verus!
