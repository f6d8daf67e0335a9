//! Unlocking a repository: from the master passphrase to the master key.

use vstd::prelude::*;
use vstd::utf8::encode_utf8;
use crate::effect::Reply;
use crate::effect::ReplyModel;
use crate::effect::Request;
use crate::effect::RequestModel;
use crate::effect::Step;
use crate::effect::step_view;
use crate::gpg::advance;
use crate::gpg::decrypt;
use crate::gpg::decryption;
use crate::gpg::pending;
use crate::gpg::Invocation;
use crate::gpg::InvocationModel;
use crate::path::join;
use crate::path::joined;
use crate::prompt::entry_advance;
use crate::prompt::entry_pending;
use crate::prompt::password_entry;
use crate::prompt::read_password;
use crate::prompt::Entry;
use crate::prompt::EntryModel;
use crate::Error;
use crate::ErrorModel;

verus! {

/// How far an unlocking has come.
#[derive(Debug)]
pub enum UnlockPhase {
    /// It is not known whether the repository has a key.
    Checking,
    /// The key is there; the passphrase is being asked for.
    Asking(Entry),
    /// The key is being decrypted.
    Decrypting(Invocation),
}

/// The model of [`UnlockPhase`].
pub enum UnlockPhaseModel {
    Checking,
    Asking(EntryModel),
    Decrypting(InvocationModel),
}

impl View for UnlockPhase {
    type V = UnlockPhaseModel;

    open spec fn view(&self) -> UnlockPhaseModel {
        match self {
            UnlockPhase::Checking => UnlockPhaseModel::Checking,
            UnlockPhase::Asking(entry) => UnlockPhaseModel::Asking(entry@),
            UnlockPhase::Decrypting(tool) => UnlockPhaseModel::Decrypting(tool@),
        }
    }
}

/// The unlocking of one repository. It asks for the passphrase once and
/// does not try again.
#[derive(Debug)]
pub struct Unlock {
    key_path: String,
    phase: UnlockPhase,
}

/// The model of [`Unlock`].
pub struct UnlockModel {
    pub key_path: Seq<char>,
    pub phase: UnlockPhaseModel,
}

impl View for Unlock {
    type V = UnlockModel;

    closed spec fn view(&self) -> UnlockModel {
        UnlockModel { key_path: self.key_path@, phase: self.phase@ }
    }
}

/// The file that holds a repository's encrypted key.
pub open spec fn key_file(repo: Seq<char>) -> Seq<char> {
    joined(repo, ".sala/key"@)
}

/// What asks for the master passphrase.
pub open spec fn passphrase_prompt() -> Seq<char> {
    "Enter the master passphrase: "@
}

/// An unlocking at its start.
pub open spec fn unlocking(repo: Seq<char>) -> UnlockModel {
    UnlockModel { key_path: key_file(repo), phase: UnlockPhaseModel::Checking }
}

/// The request that an unlocking waits on.
pub open spec fn unlock_pending(u: UnlockModel) -> RequestModel {
    match u.phase {
        UnlockPhaseModel::Checking => RequestModel::IsFile(u.key_path),
        UnlockPhaseModel::Asking(entry) => entry_pending(entry),
        UnlockPhaseModel::Decrypting(tool) => pending(tool),
    }
}

/// The step that a reply brings about.
///
/// Without a key file there is no repository. With one, the passphrase is
/// read once and handed to the tool as the bytes of its text; what the tool
/// decrypts is the key. Whatever goes wrong with the tool, the unlocking has
/// failed, and nothing of what the tool wrote is handed on.
pub open spec fn unlock_advance(u: UnlockModel, reply: ReplyModel) -> Step<
    UnlockModel,
    Result<Seq<u8>, ErrorModel>,
> {
    match u.phase {
        UnlockPhaseModel::Checking => match reply {
            ReplyModel::Flag(true) => Step::Pending(
                UnlockModel {
                    key_path: u.key_path,
                    phase: UnlockPhaseModel::Asking(password_entry(passphrase_prompt())),
                },
            ),
            ReplyModel::Flag(false) => Step::Finished(Err(ErrorModel::NoRepo)),
            _ => Step::Pending(u),
        },
        UnlockPhaseModel::Asking(entry) => match entry_advance(entry, reply) {
            Step::Pending(next) => Step::Pending(
                UnlockModel { key_path: u.key_path, phase: UnlockPhaseModel::Asking(next) },
            ),
            Step::Finished(Ok(passphrase)) => Step::Pending(
                UnlockModel {
                    key_path: u.key_path,
                    phase: UnlockPhaseModel::Decrypting(
                        decryption(u.key_path, encode_utf8(passphrase)),
                    ),
                },
            ),
            Step::Finished(Err(e)) => Step::Finished(Err(e)),
        },
        UnlockPhaseModel::Decrypting(tool) => match advance(tool, reply) {
            Step::Pending(next) => Step::Pending(
                UnlockModel { key_path: u.key_path, phase: UnlockPhaseModel::Decrypting(next) },
            ),
            Step::Finished(Ok(key)) => Step::Finished(Ok(key)),
            Step::Finished(Err(cause)) => Step::Finished(Err(ErrorModel::UnlockFailed)),
        },
    }
}

/// Starts the unlocking of the repository at `repo_path`. The result is the
/// master key.
pub fn unlock_repo(repo_path: &str) -> (r: Unlock)
    ensures
        r@ == unlocking(repo_path@),
{
    Unlock { key_path: join(repo_path, ".sala/key"), phase: UnlockPhase::Checking }
}

impl Unlock {
    /// The request that the unlocking waits on.
    pub fn request(&self) -> (r: Request)
        ensures
            r@ == unlock_pending(self@),
    {
        match &self.phase {
            UnlockPhase::Checking => Request::IsFile(self.key_path.clone()),
            UnlockPhase::Asking(entry) => entry.request(),
            UnlockPhase::Decrypting(tool) => tool.request(),
        }
    }

    /// Takes the reply to the pending request.
    pub fn resume(self, reply: Reply) -> (r: Step<Unlock, Result<Vec<u8>, Error>>)
        ensures
            step_view(r) == unlock_advance(self@, reply@),
    {
        let Unlock { key_path, phase } = self;
        match phase {
            UnlockPhase::Checking => match reply {
                Reply::Flag(true) => Step::Pending(
                    Unlock {
                        key_path,
                        phase: UnlockPhase::Asking(read_password("Enter the master passphrase: ")),
                    },
                ),
                Reply::Flag(false) => Step::Finished(Err(Error::NoRepo)),
                _ => Step::Pending(Unlock { key_path, phase: UnlockPhase::Checking }),
            },
            UnlockPhase::Asking(entry) => match entry.resume(reply) {
                Step::Pending(next) => Step::Pending(
                    Unlock { key_path, phase: UnlockPhase::Asking(next) },
                ),
                Step::Finished(Ok(passphrase)) => {
                    let tool = decrypt(key_path.as_str(), passphrase.as_str().as_bytes());
                    Step::Pending(Unlock { key_path, phase: UnlockPhase::Decrypting(tool) })
                },
                Step::Finished(Err(e)) => Step::Finished(Err(e)),
            },
            UnlockPhase::Decrypting(tool) => match tool.resume(reply) {
                Step::Pending(next) => Step::Pending(
                    Unlock { key_path, phase: UnlockPhase::Decrypting(next) },
                ),
                Step::Finished(Ok(key)) => Step::Finished(Ok(key)),
                Step::Finished(Err(_)) => Step::Finished(Err(Error::UnlockFailed)),
            },
        }
    }
}

/// Without a key file there is no repository, and nothing is asked of the
/// user.
pub proof fn no_key_no_repository(repo: Seq<char>)
    ensures
        unlock_pending(unlocking(repo)) == RequestModel::IsFile(key_file(repo)),
        unlock_advance(unlocking(repo), ReplyModel::Flag(false)) == Step::<
            UnlockModel,
            Result<Seq<u8>, ErrorModel>,
        >::Finished(Err(ErrorModel::NoRepo)),
{
}

/// The key that an unlocking hands back is what a tool that ended with code
/// zero wrote to its standard output, whole.
pub proof fn key_only_from_success(u: UnlockModel, reply: ReplyModel, key: Seq<u8>)
    requires
        unlock_advance(u, reply) == Step::<UnlockModel, Result<Seq<u8>, ErrorModel>>::Finished(
            Ok(key),
        ),
    ensures
        match u.phase {
            UnlockPhaseModel::Decrypting(tool) => tool.phase is Waiting,
            _ => false,
        },
        match reply {
            ReplyModel::Exit(exit) => exit.success() && key == exit.stdout,
            _ => false,
        },
{
}

/// Whatever makes the tool fail on the key, a wrong passphrase among them,
/// the unlocking ends with `UnlockFailed`: at once, without a second try,
/// and without handing on anything that the tool wrote.
pub proof fn tool_failure_fails_unlock(
    u: UnlockModel,
    tool: InvocationModel,
    reply: ReplyModel,
    cause: crate::gpg::GpgErrorModel,
)
    requires
        u.phase == UnlockPhaseModel::Decrypting(tool),
        advance(tool, reply) == Step::<
            InvocationModel,
            Result<Seq<u8>, crate::gpg::GpgErrorModel>,
        >::Finished(Err(cause)),
    ensures
        unlock_advance(u, reply) == Step::<UnlockModel, Result<Seq<u8>, ErrorModel>>::Finished(
            Err(ErrorModel::UnlockFailed),
        ),
{
}

/// The passphrase is handed to the tool as the bytes of its text, for the
/// repository's key file.
pub proof fn passphrase_opens_key_file(
    u: UnlockModel,
    entry: EntryModel,
    reply: ReplyModel,
    passphrase: Seq<char>,
)
    requires
        u.phase == UnlockPhaseModel::Asking(entry),
        entry_advance(entry, reply) == Step::<EntryModel, Result<Seq<char>, ErrorModel>>::Finished(
            Ok(passphrase),
        ),
    ensures
        unlock_advance(u, reply) == Step::<UnlockModel, Result<Seq<u8>, ErrorModel>>::Pending(
            UnlockModel {
                key_path: u.key_path,
                phase: UnlockPhaseModel::Decrypting(decryption(u.key_path, encode_utf8(passphrase))),
            },
        ),
{
}

} // verus!
