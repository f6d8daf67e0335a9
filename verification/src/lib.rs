//! A store of secrets, one per file, each encrypted under a key that is itself
//! encrypted under a master passphrase.
//!
//! The library decides and the program around it acts. An operation on a
//! repository ([`init`], [`get`], [`set`], [`get_or_set`]) is a [`Session`]:
//! a state that names the one request it waits on, such as a question about
//! a path, a line to read, or a step in the running of the encryption tool.
//! The program carries the request out and hands the reply to
//! [`Session::resume`], which gives the next state or the result. The
//! smaller operations that a session is made of work in the same way: the
//! entry of a secret ([`prompt`]), the unlocking of the repository
//! ([`unlock`]), a run of the tool and the writing of an encrypted file
//! ([`gpg`]), the running of hooks ([`hooks`]) and the loading of the
//! configuration ([`config`]).
//!
//! Every type that an operation is made of has a model, in which text and
//! bytes are mathematical sequences; `view` gives it. What an operation asks
//! and how it goes on is a function on models (`session_pending`,
//! `session_advance` and their like), and the executable code is proved to
//! compute it. What holds of the operations is proved of those functions:
//! step by step beside their definitions, and from the first request to the
//! last in [`world`], against a disk, a user and a tool that exist in
//! specifications only.

use vstd::prelude::*;
use vstd::string::StringExecFns;
use vstd::utf8::encode_utf8;
use crate::config::default_config;
use crate::config::defaults;
use crate::config::Config;
use crate::config::ConfigModel;
use crate::effect::step_view;
use crate::effect::Launch;
use crate::effect::LaunchModel;
use crate::effect::Reply;
use crate::effect::ReplyModel;
use crate::effect::Request;
use crate::effect::RequestModel;
use crate::effect::Step;
use crate::gpg::advance;
use crate::gpg::decrypt;
use crate::gpg::decryption;
use crate::gpg::encrypt;
use crate::gpg::pending;
use crate::gpg::writer_advance;
use crate::gpg::writer_pending;
use crate::gpg::writing;
use crate::gpg::GpgError;
use crate::gpg::GpgErrorModel;
use crate::gpg::Invocation;
use crate::gpg::InvocationModel;
use crate::gpg::Writer;
use crate::gpg::WriterModel;
use crate::key::os_random;
use crate::path::join;
use crate::path::joined;
use crate::path::parent;
use crate::path::parent_of;
use crate::path::starts;
use crate::prompt::choice_entry;
use crate::prompt::entry_advance;
use crate::prompt::entry_pending;
use crate::prompt::read_secret;
use crate::prompt::read_secret_or_choice;
use crate::prompt::secret_entry;
use crate::prompt::Entry;
use crate::prompt::EntryModel;
use crate::suggest::generate_suggestions;
use crate::suggest::generator;
use crate::suggest::suggested;
use crate::suggest::suggestions;
use crate::text::decimal;
use crate::text::decimal_text;
use crate::text::hex;
use crate::text::hex_text;
use crate::unlock::key_file;
use crate::unlock::unlock_advance;
use crate::unlock::unlock_pending;
use crate::unlock::unlock_repo;
use crate::unlock::unlocking;
use crate::unlock::Unlock;
use crate::unlock::UnlockModel;

pub mod config;
pub mod document;
pub mod effect;
pub mod gpg;
pub mod hooks;
pub mod key;
pub mod path;
pub mod prompt;
pub mod report;
pub mod suggest;
pub mod text;
pub mod unlock;
pub mod world;

verus! {

/// What a finished operation hands back.
#[derive(Debug)]
pub enum Output {
    /// The secret at a path, and whether it is to be shown bare.
    Get(String, Vec<u8>, bool),
    /// Nothing to show.
    NoOutput,
}

/// The model of [`Output`].
pub enum OutputModel {
    Get(Seq<char>, Seq<u8>, bool),
    NoOutput,
}

impl View for Output {
    type V = OutputModel;

    open spec fn view(&self) -> OutputModel {
        match self {
            Output::Get(path, secret, raw) => OutputModel::Get(path@, secret@, *raw),
            Output::NoOutput => OutputModel::NoOutput,
        }
    }
}

/// Why an operation gave nothing.
#[derive(Debug)]
pub enum Error {
    /// The repository has its control directory already.
    AlreadyInitialized,
    /// The control directory could not be made, or no key could be drawn.
    CannotInitRepo,
    /// There is no regular file at the path.
    FileDoesNotExist(String),
    /// A secret was typed twice and the two lines differ.
    InputsDidntMatch,
    /// The repository has no key.
    NoRepo,
    /// The path leads to a directory.
    TargetIsDirectory(String),
    /// The directory could not be made.
    CannotCreateDirectory(String),
    /// The key did not open under the passphrase.
    UnlockFailed,
    /// The command line names no operation.
    Usage,
    /// The directory could not be entered.
    CannotChangeToDir(String),
    /// The tool failed on a secret, after the key had opened.
    ToolFailed(GpgError),
}

/// The model of [`Error`].
pub enum ErrorModel {
    AlreadyInitialized,
    CannotInitRepo,
    FileDoesNotExist(Seq<char>),
    InputsDidntMatch,
    NoRepo,
    TargetIsDirectory(Seq<char>),
    CannotCreateDirectory(Seq<char>),
    UnlockFailed,
    Usage,
    CannotChangeToDir(Seq<char>),
    ToolFailed(GpgErrorModel),
}

impl View for Error {
    type V = ErrorModel;

    open spec fn view(&self) -> ErrorModel {
        match self {
            Error::AlreadyInitialized => ErrorModel::AlreadyInitialized,
            Error::CannotInitRepo => ErrorModel::CannotInitRepo,
            Error::FileDoesNotExist(path) => ErrorModel::FileDoesNotExist(path@),
            Error::InputsDidntMatch => ErrorModel::InputsDidntMatch,
            Error::NoRepo => ErrorModel::NoRepo,
            Error::TargetIsDirectory(path) => ErrorModel::TargetIsDirectory(path@),
            Error::CannotCreateDirectory(path) => ErrorModel::CannotCreateDirectory(path@),
            Error::UnlockFailed => ErrorModel::UnlockFailed,
            Error::Usage => ErrorModel::Usage,
            Error::CannotChangeToDir(path) => ErrorModel::CannotChangeToDir(path@),
            Error::ToolFailed(cause) => ErrorModel::ToolFailed(cause@),
        }
    }
}

/// How far an operation on a repository has come.
#[derive(Debug)]
pub enum Stage {
    /// Reading or writing: it is not known whether the target exists.
    Probing,
    /// Reading: it is not known whether the target is a file.
    Locating,
    /// Reading: the repository is being unlocked.
    Unlocking(Unlock),
    /// Reading: the secret is being decrypted.
    Decrypting(Invocation),
    /// Writing: the directory `dir` of the target may be missing. `parent`
    /// is that directory as the target's own path names it.
    Preparing { parent: String, dir: String },
    /// Writing: it is not known whether the target is a directory.
    Guarding,
    /// Writing: the repository is being unlocked.
    Opening(Unlock),
    /// Writing: the generator of suggestions is not started yet.
    Generating { key: Vec<u8>, generator: Launch },
    /// Writing: the generator runs.
    Collecting { key: Vec<u8> },
    /// Writing: the new secret is being entered.
    Entering { key: Vec<u8>, entry: Entry },
    /// Writing: the secret is being encrypted to its file.
    Storing(Writer),
    /// Initializing: it is not known whether there is a key.
    CheckingKey,
    /// Initializing: it is not known whether there is a control directory.
    CheckingDir,
    /// Initializing: the control directory is not made yet.
    MakingDir,
    /// Initializing: the introduction is not printed yet.
    Greeting,
    /// Initializing: the master passphrase is being chosen.
    Choosing(Entry),
    /// Initializing: the passphrase is chosen; no key is drawn yet.
    Announcing { passphrase: String },
    /// Initializing: the key is drawn; `text` is what will be stored.
    Reporting { passphrase: String, text: String },
    /// Initializing: the key is being encrypted to its file.
    Sealing(Writer),
}

/// The model of [`Stage`].
pub enum StageModel {
    Probing,
    Locating,
    Unlocking(UnlockModel),
    Decrypting(InvocationModel),
    Preparing { parent: Seq<char>, dir: Seq<char> },
    Guarding,
    Opening(UnlockModel),
    Generating { key: Seq<u8>, generator: LaunchModel },
    Collecting { key: Seq<u8> },
    Entering { key: Seq<u8>, entry: EntryModel },
    Storing(WriterModel),
    CheckingKey,
    CheckingDir,
    MakingDir,
    Greeting,
    Choosing(EntryModel),
    Announcing { passphrase: Seq<char> },
    Reporting { passphrase: Seq<char>, text: Seq<char> },
    Sealing(WriterModel),
}

impl View for Stage {
    type V = StageModel;

    open spec fn view(&self) -> StageModel {
        match self {
            Stage::Probing => StageModel::Probing,
            Stage::Locating => StageModel::Locating,
            Stage::Unlocking(unlock) => StageModel::Unlocking(unlock@),
            Stage::Decrypting(tool) => StageModel::Decrypting(tool@),
            Stage::Preparing { parent, dir } => StageModel::Preparing { parent: parent@, dir: dir@ },
            Stage::Guarding => StageModel::Guarding,
            Stage::Opening(unlock) => StageModel::Opening(unlock@),
            Stage::Generating { key, generator } => StageModel::Generating {
                key: key@,
                generator: generator@,
            },
            Stage::Collecting { key } => StageModel::Collecting { key: key@ },
            Stage::Entering { key, entry } => StageModel::Entering { key: key@, entry: entry@ },
            Stage::Storing(writer) => StageModel::Storing(writer@),
            Stage::CheckingKey => StageModel::CheckingKey,
            Stage::CheckingDir => StageModel::CheckingDir,
            Stage::MakingDir => StageModel::MakingDir,
            Stage::Greeting => StageModel::Greeting,
            Stage::Choosing(entry) => StageModel::Choosing(entry@),
            Stage::Announcing { passphrase } => StageModel::Announcing { passphrase: passphrase@ },
            Stage::Reporting { passphrase, text } => StageModel::Reporting {
                passphrase: passphrase@,
                text: text@,
            },
            Stage::Sealing(writer) => StageModel::Sealing(writer@),
        }
    }
}

/// An operation on a repository: initializing it, reading a secret or
/// writing one.
#[derive(Debug)]
pub struct Session {
    repo: String,
    path: String,
    config: Config,
    raw: bool,
    stage: Stage,
}

/// The model of [`Session`].
pub struct SessionModel {
    /// The root of the repository.
    pub repo: Seq<char>,
    /// The target, relative to the root.
    pub path: Seq<char>,
    pub config: ConfigModel,
    /// Whether a secret that is read is to be shown bare.
    pub raw: bool,
    pub stage: StageModel,
}

impl View for Session {
    type V = SessionModel;

    closed spec fn view(&self) -> SessionModel {
        SessionModel {
            repo: self.repo@,
            path: self.path@,
            config: self.config@,
            raw: self.raw,
            stage: self.stage@,
        }
    }
}

/// The control directory of a repository.
pub open spec fn control_dir(repo: Seq<char>) -> Seq<char> {
    joined(repo, ".sala"@)
}

/// The file of the session's target.
pub open spec fn target(s: SessionModel) -> Seq<char> {
    joined(s.repo, s.path)
}

/// What is printed before a master passphrase is chosen.
pub open spec fn greeting() -> Seq<char> {
    "Please pick a master passphrase. It is used to encrypt a very long\nrandom key, which in turn is used to encrypt all the private data in\nthis directory.\n\nMake sure you remember the master passphrase and that it's strong\nenough for your privacy needs.\n\n"@
}

/// What is printed before a key of `length` bytes is drawn.
pub open spec fn announcement(length: usize) -> Seq<char> {
    "\nGenerating a master key ("@ + decimal((length * 8) as nat) + " bits)..."@
}

/// What is printed once the key is drawn.
pub open spec fn report() -> Seq<char> {
    " done\n"@
}

/// The entry of a new master passphrase.
pub open spec fn passphrase_entry() -> EntryModel {
    secret_entry("Enter a master passphrase: "@, "Confirm: "@)
}

/// The entry of a new secret for `path`: picked from the suggestions, where
/// there are any, or typed twice.
pub open spec fn new_secret_entry(path: Seq<char>, offered: Option<Seq<Seq<char>>>) -> EntryModel {
    match offered {
        Some(choices) => choice_entry(
            "Select a number from the list or type a new secret for "@ + path + ": "@,
            "Confirm: "@,
            choices,
        ),
        None => secret_entry("Type a new secret for "@ + path + ": "@, "Confirm: "@),
    }
}

/// The session in another stage.
pub open spec fn at(s: SessionModel, stage: StageModel) -> SessionModel {
    SessionModel { repo: s.repo, path: s.path, config: s.config, raw: s.raw, stage }
}

/// The initializing of the repository at `repo`, at its start.
pub open spec fn initializing(repo: Seq<char>, config: ConfigModel) -> SessionModel {
    SessionModel { repo, path: Seq::empty(), config, raw: false, stage: StageModel::CheckingKey }
}

/// The reading of the secret at `path`, at its start.
pub open spec fn getting(repo: Seq<char>, path: Seq<char>, raw: bool) -> SessionModel {
    SessionModel { repo, path, config: defaults(), raw, stage: StageModel::Locating }
}

/// The stage in which a writing starts: with the making of the target's
/// directory, where the target's path has one.
pub open spec fn first_of_writing(repo: Seq<char>, path: Seq<char>) -> StageModel {
    match (parent_of(path), parent_of(joined(repo, path))) {
        (Some(parent), Some(dir)) => StageModel::Preparing { parent, dir },
        _ => StageModel::Guarding,
    }
}

/// Whether the directory above the target is the start of the target's
/// path, as the parent of a path is.
pub open spec fn rooted(repo: Seq<char>, path: Seq<char>) -> bool {
    match parent_of(joined(repo, path)) {
        Some(dir) => starts(dir, joined(repo, path)),
        None => true,
    }
}

/// The writing of the secret at `path`, at its start.
pub open spec fn setting(repo: Seq<char>, path: Seq<char>, config: ConfigModel) -> SessionModel {
    SessionModel { repo, path, config, raw: false, stage: first_of_writing(repo, path) }
}

/// The reading of the secret at `path` where there is one, else the writing
/// of one, at its start.
pub open spec fn getting_or_setting(
    repo: Seq<char>,
    path: Seq<char>,
    config: ConfigModel,
    raw: bool,
) -> SessionModel {
    SessionModel { repo, path, config, raw, stage: StageModel::Probing }
}

/// The request that a session waits on.
pub open spec fn session_pending(s: SessionModel) -> RequestModel {
    match s.stage {
        StageModel::Probing => RequestModel::Exists(target(s)),
        StageModel::Locating => RequestModel::IsFile(target(s)),
        StageModel::Unlocking(unlock) => unlock_pending(unlock),
        StageModel::Decrypting(tool) => pending(tool),
        StageModel::Preparing { parent, dir } => RequestModel::CreateDirAll(dir),
        StageModel::Guarding => RequestModel::IsDir(target(s)),
        StageModel::Opening(unlock) => unlock_pending(unlock),
        StageModel::Generating { key, generator } => RequestModel::Spawn(generator),
        StageModel::Collecting { key } => RequestModel::Wait,
        StageModel::Entering { key, entry } => entry_pending(entry),
        StageModel::Storing(writer) => writer_pending(writer),
        StageModel::CheckingKey => RequestModel::Exists(key_file(s.repo)),
        StageModel::CheckingDir => RequestModel::Exists(control_dir(s.repo)),
        StageModel::MakingDir => RequestModel::CreateDirAll(control_dir(s.repo)),
        StageModel::Greeting => RequestModel::Print(greeting()),
        StageModel::Choosing(entry) => entry_pending(entry),
        StageModel::Announcing { passphrase } => RequestModel::Print(
            announcement(s.config.key_length),
        ),
        StageModel::Reporting { passphrase, text } => RequestModel::Print(report()),
        StageModel::Sealing(writer) => writer_pending(writer),
    }
}

/// The stage that follows the unlocking in a writing: the generator, where
/// the configuration has one, else the entry of the secret.
pub open spec fn unlocked_for_writing(s: SessionModel, key: Seq<u8>) -> StageModel {
    match generator(s.config) {
        Some(launch) => StageModel::Generating { key, generator: launch },
        None => StageModel::Entering { key, entry: new_secret_entry(s.path, None) },
    }
}

/// How a write's end ends the session.
pub open spec fn written(r: Result<(), GpgErrorModel>) -> Result<OutputModel, ErrorModel> {
    match r {
        Ok(_) => Ok(OutputModel::NoOutput),
        Err(cause) => Err(ErrorModel::ToolFailed(cause)),
    }
}

/// The step that a reply brings about. `drawn` stands for the random bytes
/// that are drawn where a new key is due; it is looked at in no other place.
/// A reply of a kind that the pending request cannot have is disregarded.
///
/// Reading needs a regular file at the target, then the key; the secret is
/// what the tool decrypts, byte for byte. Writing makes the directories
/// above the target, refuses a directory as target, needs the key, and
/// stores what was entered. Initializing refuses a repository that has a key
/// or a control directory, makes the directory, has a passphrase chosen, and
/// stores a new key under it. A failure of the tool on a secret ends the
/// session with that failure.
pub open spec fn session_advance(
    s: SessionModel,
    reply: ReplyModel,
    drawn: Option<Seq<u8>>,
) -> Step<SessionModel, Result<OutputModel, ErrorModel>> {
    match s.stage {
        StageModel::Probing => match reply {
            ReplyModel::Flag(true) => Step::Pending(getting(s.repo, s.path, s.raw)),
            ReplyModel::Flag(false) => Step::Pending(setting(s.repo, s.path, s.config)),
            _ => Step::Pending(s),
        },
        StageModel::Locating => match reply {
            ReplyModel::Flag(true) => Step::Pending(at(s, StageModel::Unlocking(unlocking(s.repo)))),
            ReplyModel::Flag(false) => Step::Finished(Err(ErrorModel::FileDoesNotExist(s.path))),
            _ => Step::Pending(s),
        },
        StageModel::Unlocking(unlock) => match unlock_advance(unlock, reply) {
            Step::Pending(next) => Step::Pending(at(s, StageModel::Unlocking(next))),
            Step::Finished(Ok(key)) => Step::Pending(
                at(s, StageModel::Decrypting(decryption(target(s), key))),
            ),
            Step::Finished(Err(e)) => Step::Finished(Err(e)),
        },
        StageModel::Decrypting(tool) => match advance(tool, reply) {
            Step::Pending(next) => Step::Pending(at(s, StageModel::Decrypting(next))),
            Step::Finished(Ok(secret)) => Step::Finished(
                Ok(OutputModel::Get(s.path, secret, s.raw)),
            ),
            Step::Finished(Err(cause)) => Step::Finished(Err(ErrorModel::ToolFailed(cause))),
        },
        StageModel::Preparing { parent, dir } => match reply {
            ReplyModel::Done => Step::Pending(at(s, StageModel::Guarding)),
            ReplyModel::Failed(e) => Step::Finished(Err(ErrorModel::CannotCreateDirectory(parent))),
            _ => Step::Pending(s),
        },
        StageModel::Guarding => match reply {
            ReplyModel::Flag(true) => Step::Finished(Err(ErrorModel::TargetIsDirectory(s.path))),
            ReplyModel::Flag(false) => Step::Pending(at(s, StageModel::Opening(unlocking(s.repo)))),
            _ => Step::Pending(s),
        },
        StageModel::Opening(unlock) => match unlock_advance(unlock, reply) {
            Step::Pending(next) => Step::Pending(at(s, StageModel::Opening(next))),
            Step::Finished(Ok(key)) => Step::Pending(at(s, unlocked_for_writing(s, key))),
            Step::Finished(Err(e)) => Step::Finished(Err(e)),
        },
        StageModel::Generating { key, generator } => match reply {
            ReplyModel::Done => Step::Pending(at(s, StageModel::Collecting { key })),
            ReplyModel::Failed(e) => Step::Pending(
                at(s, StageModel::Entering { key, entry: new_secret_entry(s.path, None) }),
            ),
            _ => Step::Pending(s),
        },
        StageModel::Collecting { key } => match reply {
            ReplyModel::Exit(exit) => Step::Pending(
                at(
                    s,
                    StageModel::Entering {
                        key,
                        entry: new_secret_entry(s.path, suggested(exit.stdout)),
                    },
                ),
            ),
            ReplyModel::Failed(e) => Step::Pending(
                at(s, StageModel::Entering { key, entry: new_secret_entry(s.path, None) }),
            ),
            _ => Step::Pending(s),
        },
        StageModel::Entering { key, entry } => match entry_advance(entry, reply) {
            Step::Pending(next) => Step::Pending(at(s, StageModel::Entering { key, entry: next })),
            Step::Finished(Ok(secret)) => Step::Pending(
                at(s, StageModel::Storing(writing(secret, key, target(s), s.config.cipher))),
            ),
            Step::Finished(Err(e)) => Step::Finished(Err(e)),
        },
        StageModel::Storing(writer) => match writer_advance(writer, reply) {
            Step::Pending(next) => Step::Pending(at(s, StageModel::Storing(next))),
            Step::Finished(r) => Step::Finished(written(r)),
        },
        StageModel::CheckingKey => match reply {
            ReplyModel::Flag(true) => Step::Finished(Err(ErrorModel::AlreadyInitialized)),
            ReplyModel::Flag(false) => Step::Pending(at(s, StageModel::CheckingDir)),
            _ => Step::Pending(s),
        },
        StageModel::CheckingDir => match reply {
            ReplyModel::Flag(true) => Step::Finished(Err(ErrorModel::AlreadyInitialized)),
            ReplyModel::Flag(false) => Step::Pending(at(s, StageModel::MakingDir)),
            _ => Step::Pending(s),
        },
        StageModel::MakingDir => match reply {
            ReplyModel::Done => Step::Pending(at(s, StageModel::Greeting)),
            ReplyModel::Failed(e) => Step::Finished(Err(ErrorModel::CannotInitRepo)),
            _ => Step::Pending(s),
        },
        StageModel::Greeting => match reply {
            ReplyModel::Done => Step::Pending(at(s, StageModel::Choosing(passphrase_entry()))),
            _ => Step::Pending(s),
        },
        StageModel::Choosing(entry) => match entry_advance(entry, reply) {
            Step::Pending(next) => Step::Pending(at(s, StageModel::Choosing(next))),
            Step::Finished(Ok(passphrase)) => Step::Pending(
                at(s, StageModel::Announcing { passphrase }),
            ),
            Step::Finished(Err(e)) => Step::Finished(Err(e)),
        },
        StageModel::Announcing { passphrase } => match reply {
            ReplyModel::Done => match drawn {
                Some(bytes) => Step::Pending(
                    at(s, StageModel::Reporting { passphrase, text: hex(bytes) }),
                ),
                None => Step::Finished(Err(ErrorModel::CannotInitRepo)),
            },
            _ => Step::Pending(s),
        },
        StageModel::Reporting { passphrase, text } => match reply {
            ReplyModel::Done => Step::Pending(
                at(
                    s,
                    StageModel::Sealing(
                        writing(text, encode_utf8(passphrase), key_file(s.repo), s.config.cipher),
                    ),
                ),
            ),
            _ => Step::Pending(s),
        },
        StageModel::Sealing(writer) => match writer_advance(writer, reply) {
            Step::Pending(next) => Step::Pending(at(s, StageModel::Sealing(next))),
            Step::Finished(r) => Step::Finished(written(r)),
        },
    }
}

/// The model of bytes that may be absent.
pub open spec fn drawn_view(drawn: Option<Vec<u8>>) -> Option<Seq<u8>> {
    match drawn {
        Some(bytes) => Some(bytes@),
        None => None,
    }
}

/// The model of the end of a run of the tool that hands nothing back.
pub open spec fn write_view(r: Result<(), GpgError>) -> Result<(), GpgErrorModel> {
    match r {
        Ok(_) => Ok(()),
        Err(cause) => Err(cause@),
    }
}

/// The model of a session's result.
pub open spec fn outcome_view(r: Result<Output, Error>) -> Result<OutputModel, ErrorModel> {
    match r {
        Ok(output) => Ok(output@),
        Err(e) => Err(e@),
    }
}

/// Whether the reply has the session draw a key.
pub open spec fn draws(s: SessionModel, reply: ReplyModel) -> bool {
    s.stage is Announcing && reply is Done
}

/// What can be drawn for the session: where randomness is to be had, as many
/// bytes as the configuration asks for.
pub open spec fn drawable(s: SessionModel, drawn: Option<Seq<u8>>) -> bool {
    drawn matches Some(bytes) ==> bytes.len() == s.config.key_length
}

/// Starts the initializing of the repository at `repo_path`.
pub fn init(repo_path: &str, config: Config) -> (r: Session)
    ensures
        r@ == initializing(repo_path@, config@),
{
    Session {
        repo: String::from_str(repo_path),
        path: String::new(),
        config,
        raw: false,
        stage: Stage::CheckingKey,
    }
}

/// Starts the reading of the secret at `path` in the repository at
/// `repo_path`.
pub fn get(repo_path: &str, path: &str, raw: bool) -> (r: Session)
    ensures
        r@ == getting(repo_path@, path@, raw),
{
    Session {
        repo: String::from_str(repo_path),
        path: String::from_str(path),
        config: default_config(),
        raw,
        stage: Stage::Locating,
    }
}

fn first_stage_of_writing(repo: &str, path: &str) -> (r: Stage)
    ensures
        r@ == first_of_writing(repo@, path@),
        rooted(repo@, path@),
{
    let above = parent(join(repo, path).as_str());
    match (parent(path), above) {
        (Some(parent), Some(dir)) => Stage::Preparing { parent, dir },
        _ => Stage::Guarding,
    }
}

/// Starts the writing of the secret at `path` in the repository at
/// `repo_path`. The directory above the target, which the writing sees to
/// first, is the start of the target's path.
pub fn set(repo_path: &str, path: &str, config: Config) -> (r: Session)
    ensures
        r@ == setting(repo_path@, path@, config@),
        rooted(r@.repo, r@.path),
{
    Session {
        repo: String::from_str(repo_path),
        path: String::from_str(path),
        config,
        raw: false,
        stage: first_stage_of_writing(repo_path, path),
    }
}

/// Starts the reading of the secret at `path` where the path leads to
/// anything, and the writing of a secret there where it does not.
pub fn get_or_set(repo_path: &str, path: &str, config: Config, raw: bool) -> (r: Session)
    ensures
        r@ == getting_or_setting(repo_path@, path@, config@, raw),
{
    Session {
        repo: String::from_str(repo_path),
        path: String::from_str(path),
        config,
        raw,
        stage: Stage::Probing,
    }
}

fn greeting_text() -> (r: String)
    ensures
        r@ == greeting(),
{
    String::from_str(
        "Please pick a master passphrase. It is used to encrypt a very long\nrandom key, which in turn is used to encrypt all the private data in\nthis directory.\n\nMake sure you remember the master passphrase and that it's strong\nenough for your privacy needs.\n\n",
    )
}

fn announcement_text(length: usize) -> (r: String)
    ensures
        r@ == announcement(length),
{
    let bits: u128 = length as u128 * 8;
    let mut text = String::from_str("\nGenerating a master key (");
    text.append(decimal_text(bits).as_str());
    text.append(" bits)...");
    text
}

fn new_secret(path: &str, offered: Option<Vec<String>>) -> (r: Entry)
    ensures
        r@ == new_secret_entry(path@, offered.deep_view()),
{
    match offered {
        Some(choices) => {
            let mut prompt = String::from_str(
                "Select a number from the list or type a new secret for ",
            );
            prompt.append(path);
            prompt.append(": ");
            read_secret_or_choice(prompt.as_str(), "Confirm: ", &choices)
        },
        None => {
            let mut prompt = String::from_str("Type a new secret for ");
            prompt.append(path);
            prompt.append(": ");
            read_secret(prompt.as_str(), "Confirm: ")
        },
    }
}

fn finish_write(r: Result<(), GpgError>) -> (out: Result<Output, Error>)
    ensures
        outcome_view(out) == written(write_view(r)),
{
    match r {
        Ok(_) => Ok(Output::NoOutput),
        Err(cause) => Err(Error::ToolFailed(cause)),
    }
}

impl Session {
    /// The request that the session waits on.
    pub fn request(&self) -> (r: Request)
        ensures
            r@ == session_pending(self@),
    {
        match &self.stage {
            Stage::Probing => Request::Exists(join(self.repo.as_str(), self.path.as_str())),
            Stage::Locating => Request::IsFile(join(self.repo.as_str(), self.path.as_str())),
            Stage::Unlocking(unlock) => unlock.request(),
            Stage::Decrypting(tool) => tool.request(),
            Stage::Preparing { parent, dir } => Request::CreateDirAll(dir.clone()),
            Stage::Guarding => Request::IsDir(join(self.repo.as_str(), self.path.as_str())),
            Stage::Opening(unlock) => unlock.request(),
            Stage::Generating { key, generator } => Request::Spawn(generator.duplicate()),
            Stage::Collecting { key } => Request::Wait,
            Stage::Entering { key, entry } => entry.request(),
            Stage::Storing(writer) => writer.request(),
            Stage::CheckingKey => Request::Exists(join(self.repo.as_str(), ".sala/key")),
            Stage::CheckingDir => Request::Exists(join(self.repo.as_str(), ".sala")),
            Stage::MakingDir => Request::CreateDirAll(join(self.repo.as_str(), ".sala")),
            Stage::Greeting => Request::Print(greeting_text()),
            Stage::Choosing(entry) => entry.request(),
            Stage::Announcing { passphrase } => Request::Print(
                announcement_text(self.config.key_length),
            ),
            Stage::Reporting { passphrase, text } => Request::Print(String::from_str(" done\n")),
            Stage::Sealing(writer) => writer.request(),
        }
    }

    /// Takes the reply to the pending request, and draws the new key from the
    /// system's random source where one is due. No key is drawn where the
    /// source has none to give, or where the configured length is more than
    /// a vector can hold.
    pub fn resume(self, reply: Reply) -> (r: Step<Session, Result<Output, Error>>)
        ensures
            exists|drawn: Option<Seq<u8>>|
                drawable(self@, drawn) && step_view(r) == #[trigger] session_advance(
                    self@,
                    reply@,
                    drawn,
                ),
            !draws(self@, reply@) ==> step_view(r) == session_advance(self@, reply@, None),
            draws(self@, reply@) && self@.config.key_length > isize::MAX ==> step_view(r)
                == Step::<SessionModel, Result<OutputModel, ErrorModel>>::Finished(
                Err(ErrorModel::CannotInitRepo),
            ),
    {
        let due = match (&self.stage, &reply) {
            (Stage::Announcing { passphrase }, Reply::Done) => true,
            _ => false,
        };
        let drawn = if due && self.config.key_length <= isize::MAX as usize {
            os_random(self.config.key_length)
        } else {
            None
        };
        let ghost before = self@;
        let ghost answer = reply@;
        let r = self.resume_with(reply, drawn);
        assert(drawable(before, drawn_view(drawn)));
        assert(step_view(r) == session_advance(before, answer, drawn_view(drawn)));
        r
    }

    /// Takes the reply to the pending request, with `drawn` as the random
    /// bytes of the new key where one is due.
    pub fn resume_with(self, reply: Reply, drawn: Option<Vec<u8>>) -> (r: Step<
        Session,
        Result<Output, Error>,
    >)
        ensures
            step_view(r) == session_advance(self@, reply@, drawn_view(drawn)),
    {
        let Session { repo, path, config, raw, stage } = self;
        match stage {
            Stage::Probing => match reply {
                Reply::Flag(true) => Step::Pending(get(repo.as_str(), path.as_str(), raw)),
                Reply::Flag(false) => Step::Pending(set(repo.as_str(), path.as_str(), config)),
                _ => Step::Pending(Session { repo, path, config, raw, stage: Stage::Probing }),
            },
            Stage::Locating => match reply {
                Reply::Flag(true) => {
                    let unlock = unlock_repo(repo.as_str());
                    Step::Pending(Session { repo, path, config, raw, stage: Stage::Unlocking(unlock) })
                },
                Reply::Flag(false) => Step::Finished(Err(Error::FileDoesNotExist(path))),
                _ => Step::Pending(Session { repo, path, config, raw, stage: Stage::Locating }),
            },
            Stage::Unlocking(unlock) => match unlock.resume(reply) {
                Step::Pending(next) => Step::Pending(
                    Session { repo, path, config, raw, stage: Stage::Unlocking(next) },
                ),
                Step::Finished(Ok(key)) => {
                    let tool = decrypt(join(repo.as_str(), path.as_str()).as_str(), key.as_slice());
                    Step::Pending(Session { repo, path, config, raw, stage: Stage::Decrypting(tool) })
                },
                Step::Finished(Err(e)) => Step::Finished(Err(e)),
            },
            Stage::Decrypting(tool) => match tool.resume(reply) {
                Step::Pending(next) => Step::Pending(
                    Session { repo, path, config, raw, stage: Stage::Decrypting(next) },
                ),
                Step::Finished(Ok(secret)) => Step::Finished(Ok(Output::Get(path, secret, raw))),
                Step::Finished(Err(cause)) => Step::Finished(Err(Error::ToolFailed(cause))),
            },
            Stage::Preparing { parent, dir } => match reply {
                Reply::Done => Step::Pending(
                    Session { repo, path, config, raw, stage: Stage::Guarding },
                ),
                Reply::Failed(_) => Step::Finished(Err(Error::CannotCreateDirectory(parent))),
                _ => Step::Pending(
                    Session { repo, path, config, raw, stage: Stage::Preparing { parent, dir } },
                ),
            },
            Stage::Guarding => match reply {
                Reply::Flag(true) => Step::Finished(Err(Error::TargetIsDirectory(path))),
                Reply::Flag(false) => {
                    let unlock = unlock_repo(repo.as_str());
                    Step::Pending(Session { repo, path, config, raw, stage: Stage::Opening(unlock) })
                },
                _ => Step::Pending(Session { repo, path, config, raw, stage: Stage::Guarding }),
            },
            Stage::Opening(unlock) => match unlock.resume(reply) {
                Step::Pending(next) => Step::Pending(
                    Session { repo, path, config, raw, stage: Stage::Opening(next) },
                ),
                Step::Finished(Ok(key)) => {
                    let stage = match generate_suggestions(&config) {
                        Some(generator) => Stage::Generating { key, generator },
                        None => Stage::Entering { key, entry: new_secret(path.as_str(), None) },
                    };
                    Step::Pending(Session { repo, path, config, raw, stage })
                },
                Step::Finished(Err(e)) => Step::Finished(Err(e)),
            },
            Stage::Generating { key, generator } => match reply {
                Reply::Done => Step::Pending(
                    Session { repo, path, config, raw, stage: Stage::Collecting { key } },
                ),
                Reply::Failed(_) => {
                    let entry = new_secret(path.as_str(), None);
                    Step::Pending(
                        Session { repo, path, config, raw, stage: Stage::Entering { key, entry } },
                    )
                },
                _ => Step::Pending(
                    Session { repo, path, config, raw, stage: Stage::Generating { key, generator } },
                ),
            },
            Stage::Collecting { key } => match reply {
                Reply::Exit(exit) => {
                    let entry = new_secret(path.as_str(), suggestions(exit.stdout));
                    Step::Pending(
                        Session { repo, path, config, raw, stage: Stage::Entering { key, entry } },
                    )
                },
                Reply::Failed(_) => {
                    let entry = new_secret(path.as_str(), None);
                    Step::Pending(
                        Session { repo, path, config, raw, stage: Stage::Entering { key, entry } },
                    )
                },
                _ => Step::Pending(
                    Session { repo, path, config, raw, stage: Stage::Collecting { key } },
                ),
            },
            Stage::Entering { key, entry } => match entry.resume(reply) {
                Step::Pending(next) => Step::Pending(
                    Session { repo, path, config, raw, stage: Stage::Entering { key, entry: next } },
                ),
                Step::Finished(Ok(secret)) => {
                    let writer = encrypt(
                        secret.as_str(),
                        key.as_slice(),
                        join(repo.as_str(), path.as_str()).as_str(),
                        config.cipher.as_str(),
                    );
                    Step::Pending(Session { repo, path, config, raw, stage: Stage::Storing(writer) })
                },
                Step::Finished(Err(e)) => Step::Finished(Err(e)),
            },
            Stage::Storing(writer) => match writer.resume(reply) {
                Step::Pending(next) => Step::Pending(
                    Session { repo, path, config, raw, stage: Stage::Storing(next) },
                ),
                Step::Finished(r) => Step::Finished(finish_write(r)),
            },
            Stage::CheckingKey => match reply {
                Reply::Flag(true) => Step::Finished(Err(Error::AlreadyInitialized)),
                Reply::Flag(false) => Step::Pending(
                    Session { repo, path, config, raw, stage: Stage::CheckingDir },
                ),
                _ => Step::Pending(Session { repo, path, config, raw, stage: Stage::CheckingKey }),
            },
            Stage::CheckingDir => match reply {
                Reply::Flag(true) => Step::Finished(Err(Error::AlreadyInitialized)),
                Reply::Flag(false) => Step::Pending(
                    Session { repo, path, config, raw, stage: Stage::MakingDir },
                ),
                _ => Step::Pending(Session { repo, path, config, raw, stage: Stage::CheckingDir }),
            },
            Stage::MakingDir => match reply {
                Reply::Done => Step::Pending(
                    Session { repo, path, config, raw, stage: Stage::Greeting },
                ),
                Reply::Failed(_) => Step::Finished(Err(Error::CannotInitRepo)),
                _ => Step::Pending(Session { repo, path, config, raw, stage: Stage::MakingDir }),
            },
            Stage::Greeting => match reply {
                Reply::Done => {
                    let entry = read_secret("Enter a master passphrase: ", "Confirm: ");
                    Step::Pending(Session { repo, path, config, raw, stage: Stage::Choosing(entry) })
                },
                _ => Step::Pending(Session { repo, path, config, raw, stage: Stage::Greeting }),
            },
            Stage::Choosing(entry) => match entry.resume(reply) {
                Step::Pending(next) => Step::Pending(
                    Session { repo, path, config, raw, stage: Stage::Choosing(next) },
                ),
                Step::Finished(Ok(passphrase)) => Step::Pending(
                    Session { repo, path, config, raw, stage: Stage::Announcing { passphrase } },
                ),
                Step::Finished(Err(e)) => Step::Finished(Err(e)),
            },
            Stage::Announcing { passphrase } => match reply {
                Reply::Done => match drawn {
                    Some(bytes) => {
                        let text = hex_text(bytes.as_slice());
                        Step::Pending(
                            Session {
                                repo,
                                path,
                                config,
                                raw,
                                stage: Stage::Reporting { passphrase, text },
                            },
                        )
                    },
                    None => Step::Finished(Err(Error::CannotInitRepo)),
                },
                _ => Step::Pending(
                    Session { repo, path, config, raw, stage: Stage::Announcing { passphrase } },
                ),
            },
            Stage::Reporting { passphrase, text } => match reply {
                Reply::Done => {
                    let writer = encrypt(
                        text.as_str(),
                        passphrase.as_str().as_bytes(),
                        join(repo.as_str(), ".sala/key").as_str(),
                        config.cipher.as_str(),
                    );
                    Step::Pending(Session { repo, path, config, raw, stage: Stage::Sealing(writer) })
                },
                _ => Step::Pending(
                    Session { repo, path, config, raw, stage: Stage::Reporting { passphrase, text } },
                ),
            },
            Stage::Sealing(writer) => match writer.resume(reply) {
                Step::Pending(next) => Step::Pending(
                    Session { repo, path, config, raw, stage: Stage::Sealing(next) },
                ),
                Step::Finished(r) => Step::Finished(finish_write(r)),
            },
        }
    }
}

/// Where a session stands after a run of replies, each taken in turn until
/// the session is over.
pub open spec fn session_run(
    s: SessionModel,
    replies: Seq<ReplyModel>,
    drawn: Option<Seq<u8>>,
) -> Step<SessionModel, Result<OutputModel, ErrorModel>>
    decreases replies.len(),
{
    if replies.len() == 0 {
        Step::Pending(s)
    } else {
        match session_advance(s, replies.first(), drawn) {
            Step::Pending(next) => session_run(next, replies.drop_first(), drawn),
            Step::Finished(r) => Step::Finished(r),
        }
    }
}

/// Whether a request changes anything on disk or starts a program that
/// could.
pub open spec fn changes(request: RequestModel) -> bool {
    match request {
        RequestModel::CreateDirAll(path) => true,
        RequestModel::CreateFile(path) => true,
        RequestModel::Rename(from, to) => true,
        RequestModel::RemoveFile(path) => true,
        RequestModel::Spawn(launch) => !(launch.program == crate::gpg::tool_program()
            && launch.args.len() == 8 && launch.args[3] == "--decrypt"@),
        RequestModel::Feed(bytes) => true,
        _ => false,
    }
}

/// Initializing a repository that has a key fails with `AlreadyInitialized`.
/// The key file is asked after and never read, so this holds whatever the
/// file contains; and nothing was changed or asked of the user before.
pub proof fn init_refuses_existing_key(
    repo: Seq<char>,
    config: ConfigModel,
    drawn: Option<Seq<u8>>,
)
    ensures
        session_pending(initializing(repo, config)) == RequestModel::Exists(key_file(repo)),
        session_advance(initializing(repo, config), ReplyModel::Flag(true), drawn) == Step::<
            SessionModel,
            Result<OutputModel, ErrorModel>,
        >::Finished(Err(ErrorModel::AlreadyInitialized)),
{
}

/// Initializing a repository that has a control directory but no key fails
/// with `AlreadyInitialized` as well, and again nothing was changed before.
pub proof fn init_refuses_control_directory(
    repo: Seq<char>,
    config: ConfigModel,
    drawn: Option<Seq<u8>>,
)
    ensures
        session_run(initializing(repo, config), seq![ReplyModel::Flag(false)], drawn) == Step::<
            SessionModel,
            Result<OutputModel, ErrorModel>,
        >::Pending(at(initializing(repo, config), StageModel::CheckingDir)),
        session_pending(at(initializing(repo, config), StageModel::CheckingDir))
            == RequestModel::Exists(control_dir(repo)),
        session_run(
            initializing(repo, config),
            seq![ReplyModel::Flag(false), ReplyModel::Flag(true)],
            drawn,
        ) == Step::<SessionModel, Result<OutputModel, ErrorModel>>::Finished(
            Err(ErrorModel::AlreadyInitialized),
        ),
{
    reveal_with_fuel(session_run, 3);
    let one = seq![ReplyModel::Flag(false)];
    let two = seq![ReplyModel::Flag(false), ReplyModel::Flag(true)];
    assert(one.drop_first() =~= Seq::<ReplyModel>::empty());
    assert(two.drop_first() =~= seq![ReplyModel::Flag(true)]);
    assert(two.drop_first().drop_first() =~= Seq::<ReplyModel>::empty());
}

/// Reading where the target is no regular file (a directory, or nothing)
/// fails with `FileDoesNotExist`, which names the target as it was given.
/// The one request before is a question; nothing was changed.
pub proof fn get_refuses_what_is_no_file(
    repo: Seq<char>,
    path: Seq<char>,
    raw: bool,
    drawn: Option<Seq<u8>>,
)
    ensures
        session_pending(getting(repo, path, raw)) == RequestModel::IsFile(joined(repo, path)),
        session_advance(getting(repo, path, raw), ReplyModel::Flag(false), drawn) == Step::<
            SessionModel,
            Result<OutputModel, ErrorModel>,
        >::Finished(Err(ErrorModel::FileDoesNotExist(path))),
{
}

/// Writing where the target is a directory fails with `TargetIsDirectory`,
/// which names the target as it was given. The one request that can come
/// before is the making of the directory above the target.
pub proof fn set_refuses_directory(
    repo: Seq<char>,
    path: Seq<char>,
    config: ConfigModel,
    drawn: Option<Seq<u8>>,
)
    ensures
        match first_of_writing(repo, path) {
            StageModel::Preparing { parent, dir } => {
                &&& Some(dir) == parent_of(joined(repo, path))
                &&& session_pending(setting(repo, path, config)) == RequestModel::CreateDirAll(dir)
                &&& session_run(
                    setting(repo, path, config),
                    seq![ReplyModel::Done, ReplyModel::Flag(true)],
                    drawn,
                ) == Step::<SessionModel, Result<OutputModel, ErrorModel>>::Finished(
                    Err(ErrorModel::TargetIsDirectory(path)),
                )
            },
            _ => {
                &&& session_pending(setting(repo, path, config)) == RequestModel::IsDir(
                    joined(repo, path),
                )
                &&& session_advance(setting(repo, path, config), ReplyModel::Flag(true), drawn)
                    == Step::<SessionModel, Result<OutputModel, ErrorModel>>::Finished(
                    Err(ErrorModel::TargetIsDirectory(path)),
                )
            },
        },
{
    reveal_with_fuel(session_run, 3);
    let two = seq![ReplyModel::Done, ReplyModel::Flag(true)];
    assert(two.drop_first() =~= seq![ReplyModel::Flag(true)]);
    assert(two.drop_first().drop_first() =~= Seq::<ReplyModel>::empty());
}

/// Writing first makes the directory above the target, with every missing
/// one above that. Where this fails, the writing fails with
/// `CannotCreateDirectory`, which names the parent of the target as it was
/// given; where it succeeds, the writing goes on.
pub proof fn set_makes_parent_directories(
    repo: Seq<char>,
    path: Seq<char>,
    config: ConfigModel,
    parent: Seq<char>,
    dir: Seq<char>,
    e: std::io::Error,
    drawn: Option<Seq<u8>>,
)
    requires
        parent_of(path) == Some(parent),
        parent_of(joined(repo, path)) == Some(dir),
    ensures
        session_pending(setting(repo, path, config)) == RequestModel::CreateDirAll(dir),
        session_advance(setting(repo, path, config), ReplyModel::Failed(e), drawn) == Step::<
            SessionModel,
            Result<OutputModel, ErrorModel>,
        >::Finished(Err(ErrorModel::CannotCreateDirectory(parent))),
        session_advance(setting(repo, path, config), ReplyModel::Done, drawn) == Step::<
            SessionModel,
            Result<OutputModel, ErrorModel>,
        >::Pending(at(setting(repo, path, config), StageModel::Guarding)),
{
}

/// A bare path reads where the path leads to anything and writes where it
/// does not: from the answer on, the session is the one that `get` or `set`
/// starts.
pub proof fn bare_path_reads_or_writes(
    repo: Seq<char>,
    path: Seq<char>,
    config: ConfigModel,
    raw: bool,
    drawn: Option<Seq<u8>>,
)
    ensures
        session_pending(getting_or_setting(repo, path, config, raw)) == RequestModel::Exists(
            joined(repo, path),
        ),
        session_advance(getting_or_setting(repo, path, config, raw), ReplyModel::Flag(true), drawn)
            == Step::<SessionModel, Result<OutputModel, ErrorModel>>::Pending(
            getting(repo, path, raw),
        ),
        session_advance(getting_or_setting(repo, path, config, raw), ReplyModel::Flag(false), drawn)
            == Step::<SessionModel, Result<OutputModel, ErrorModel>>::Pending(
            setting(repo, path, config),
        ),
{
}

/// A session hands back a secret only in reply to a tool that ended with
/// code zero on the target, and then hands back what the tool wrote, byte
/// for byte, under the target's path as it was given.
pub proof fn secret_is_what_the_tool_wrote(
    s: SessionModel,
    reply: ReplyModel,
    drawn: Option<Seq<u8>>,
    path: Seq<char>,
    secret: Seq<u8>,
    raw: bool,
)
    requires
        session_advance(s, reply, drawn) == Step::<
            SessionModel,
            Result<OutputModel, ErrorModel>,
        >::Finished(Ok(OutputModel::Get(path, secret, raw))),
    ensures
        path == s.path,
        raw == s.raw,
        match s.stage {
            StageModel::Decrypting(tool) => tool.phase is Waiting,
            _ => false,
        },
        match reply {
            ReplyModel::Exit(exit) => exit.success() && secret == exit.stdout,
            _ => false,
        },
{
}

/// The secret is decrypted only after the repository was unlocked, and
/// under the key that the unlocking gave: a session comes to decrypt the
/// target only in reply to the end of an unlocking that succeeded.
pub proof fn secret_decrypted_under_unlocked_key(
    s: SessionModel,
    reply: ReplyModel,
    drawn: Option<Seq<u8>>,
    next: SessionModel,
)
    requires
        session_advance(s, reply, drawn) == Step::<
            SessionModel,
            Result<OutputModel, ErrorModel>,
        >::Pending(next),
        next.stage is Decrypting,
        !(s.stage is Decrypting),
    ensures
        match s.stage {
            StageModel::Unlocking(unlock) => match unlock_advance(unlock, reply) {
                Step::Finished(Ok(key)) => next.stage == StageModel::Decrypting(
                    decryption(joined(s.repo, s.path), key),
                ),
                _ => false,
            },
            _ => false,
        },
{
}

/// A reading whose unlocking fails ends with the unlocking's failure, and
/// with no output.
pub proof fn failed_unlock_ends_reading(
    s: SessionModel,
    unlock: UnlockModel,
    reply: ReplyModel,
    drawn: Option<Seq<u8>>,
    e: ErrorModel,
)
    requires
        s.stage == StageModel::Unlocking(unlock) || s.stage == StageModel::Opening(unlock),
        unlock_advance(unlock, reply) == Step::<UnlockModel, Result<Seq<u8>, ErrorModel>>::Finished(
            Err(e),
        ),
    ensures
        session_advance(s, reply, drawn) == Step::<
            SessionModel,
            Result<OutputModel, ErrorModel>,
        >::Finished(Err(e)),
{
}

/// What a writing stores is what was entered: the new secret goes to the
/// target's file, encrypted under the unlocked key with the configured
/// cipher.
pub proof fn entered_secret_is_stored(
    s: SessionModel,
    key: Seq<u8>,
    entry: EntryModel,
    reply: ReplyModel,
    drawn: Option<Seq<u8>>,
    secret: Seq<char>,
)
    requires
        s.stage == (StageModel::Entering { key, entry }),
        entry_advance(entry, reply) == Step::<EntryModel, Result<Seq<char>, ErrorModel>>::Finished(
            Ok(secret),
        ),
    ensures
        session_advance(s, reply, drawn) == Step::<
            SessionModel,
            Result<OutputModel, ErrorModel>,
        >::Pending(
            at(s, StageModel::Storing(writing(secret, key, joined(s.repo, s.path), s.config.cipher))),
        ),
{
}

/// Whether the session is one that reads: in a stage that `get` starts in
/// or leads to.
pub open spec fn reads(s: SessionModel) -> bool {
    match s.stage {
        StageModel::Locating => true,
        StageModel::Unlocking(unlock) => match unlock.phase {
            crate::unlock::UnlockPhaseModel::Decrypting(tool) => tool.purpose is Decrypt
                && !(tool.phase is Feeding),
            _ => true,
        },
        StageModel::Decrypting(tool) => tool.purpose is Decrypt && !(tool.phase is Feeding),
        _ => false,
    }
}

/// Reading changes nothing. A session that `get` started stays one that
/// reads, and a session that reads asks for no directory or file to be made,
/// moved or removed, feeds no program, and starts no program but the tool
/// that decrypts.
pub proof fn reading_changes_nothing(
    s: SessionModel,
    reply: ReplyModel,
    drawn: Option<Seq<u8>>,
    repo: Seq<char>,
    path: Seq<char>,
    raw: bool,
)
    ensures
        reads(getting(repo, path, raw)),
        reads(s) ==> !changes(session_pending(s)),
        reads(s) ==> match session_advance(s, reply, drawn) {
            Step::Pending(next) => reads(next),
            Step::Finished(r) => true,
        },
{
    if reads(s) {
        match s.stage {
            StageModel::Unlocking(unlock) => {
                match unlock.phase {
                    crate::unlock::UnlockPhaseModel::Decrypting(tool) => {
                        if tool.phase is Spawning {
                            let launch = crate::gpg::tool_launch(tool.purpose, tool.phase->Spawning_read);
                            assert(launch.args.len() == 8);
                            assert(launch.args[3] == "--decrypt"@);
                        }
                    },
                    _ => {},
                }
            },
            StageModel::Decrypting(tool) => {
                if tool.phase is Spawning {
                    let launch = crate::gpg::tool_launch(tool.purpose, tool.phase->Spawning_read);
                    assert(launch.args.len() == 8);
                    assert(launch.args[3] == "--decrypt"@);
                }
            },
            _ => {},
        }
    }
}

} // verus!
