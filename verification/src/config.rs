//! The configuration: built-in values, overridden in turn by the file in the
//! user's home directory, the file in the user's configuration directory and
//! the repository's own file.

use vstd::prelude::*;
use vstd::string::StringExecFns;
use crate::effect::Reply;
use crate::effect::ReplyModel;
use crate::effect::Request;
use crate::effect::RequestModel;
use crate::effect::Step;
use crate::effect::step_view;
use crate::document::Setting;
use crate::document::SettingModel;
use crate::document::levels;
use crate::document::most_levels;
use crate::document::read_settings;
use crate::document::too_deep;
use crate::document::toml_settings;
use crate::path::join;
use crate::path::joined;

verus! {

/// The settings in force.
#[derive(Debug)]
pub struct Config {
    /// The cipher that the tool encrypts with.
    pub cipher: String,
    /// The length of a new master key, in bytes.
    pub key_length: usize,
    /// The command line that prints suggestions for a new secret.
    pub password_generator: Option<String>,
}

/// The model of [`Config`].
pub struct ConfigModel {
    pub cipher: Seq<char>,
    pub key_length: usize,
    pub password_generator: Option<Seq<char>>,
}

impl View for Config {
    type V = ConfigModel;

    open spec fn view(&self) -> ConfigModel {
        ConfigModel {
            cipher: self.cipher@,
            key_length: self.key_length,
            password_generator: self.password_generator.deep_view(),
        }
    }
}

/// The settings that one file holds. What the file does not set is absent.
#[derive(Debug)]
pub struct ConfigFromFile {
    pub cipher: Option<String>,
    pub key_length: Option<usize>,
    pub password_generator: Option<String>,
}

/// The model of [`ConfigFromFile`].
pub struct ConfigFromFileModel {
    pub cipher: Option<Seq<char>>,
    pub key_length: Option<usize>,
    pub password_generator: Option<Seq<char>>,
}

impl View for ConfigFromFile {
    type V = ConfigFromFileModel;

    open spec fn view(&self) -> ConfigFromFileModel {
        ConfigFromFileModel {
            cipher: self.cipher.deep_view(),
            key_length: self.key_length,
            password_generator: self.password_generator.deep_view(),
        }
    }
}

/// The built-in settings.
pub open spec fn defaults() -> ConfigModel {
    ConfigModel { cipher: "AES-128"@, key_length: 64, password_generator: None }
}

/// A file that sets nothing.
pub open spec fn nothing_set() -> ConfigFromFileModel {
    ConfigFromFileModel { cipher: None, key_length: None, password_generator: None }
}

/// `base` with each setting replaced that `layer` holds.
pub open spec fn merged(base: ConfigModel, layer: ConfigFromFileModel) -> ConfigModel {
    ConfigModel {
        cipher: match layer.cipher {
            Some(cipher) => cipher,
            None => base.cipher,
        },
        key_length: match layer.key_length {
            Some(key_length) => key_length,
            None => base.key_length,
        },
        password_generator: match layer.password_generator {
            Some(command) => Some(command),
            None => base.password_generator,
        },
    }
}

impl Config {
    /// The settings with those of one file laid over them.
    pub fn merge(self, other: ConfigFromFile) -> (r: Config)
        ensures
            r@ == merged(self@, other@),
    {
        Config {
            cipher: match other.cipher {
                Some(cipher) => cipher,
                None => self.cipher,
            },
            key_length: match other.key_length {
                Some(key_length) => key_length,
                None => self.key_length,
            },
            password_generator: match other.password_generator {
                Some(command) => Some(command),
                None => self.password_generator,
            },
        }
    }
}

/// The built-in settings.
pub fn default_config() -> (r: Config)
    ensures
        r@ == defaults(),
{
    Config { cipher: String::from_str("AES-128"), key_length: 64, password_generator: None }
}

/// A file that sets nothing.
pub fn empty_config() -> (r: ConfigFromFile)
    ensures
        r@ == nothing_set(),
{
    ConfigFromFile { cipher: None, key_length: None, password_generator: None }
}

/// What is wrong with a file.
#[derive(Debug)]
pub enum Fault {
    /// It is not a TOML document; this is what the parser says of it.
    Syntax(String),
    /// It sets a key that the configuration does not have.
    UnknownKey(String),
    /// It gives a key a value that the key cannot take.
    Mistyped(String),
}

/// The model of [`Fault`].
pub enum FaultModel {
    Syntax(Seq<char>),
    UnknownKey(Seq<char>),
    Mistyped(Seq<char>),
}

impl View for Fault {
    type V = FaultModel;

    open spec fn view(&self) -> FaultModel {
        match self {
            Fault::Syntax(message) => FaultModel::Syntax(message@),
            Fault::UnknownKey(key) => FaultModel::UnknownKey(key@),
            Fault::Mistyped(key) => FaultModel::Mistyped(key@),
        }
    }
}

/// A file that could not be read as configuration.
#[derive(Debug)]
pub struct Error {
    pub path: String,
    pub error: Fault,
}

/// The model of [`Error`].
pub struct ErrorModel {
    pub path: Seq<char>,
    pub error: FaultModel,
}

impl View for Error {
    type V = ErrorModel;

    open spec fn view(&self) -> ErrorModel {
        ErrorModel { path: self.path@, error: self.error@ }
    }
}

/// A file's settings with one more key taken in: `cipher` and
/// `password-generator` take text, `key-length` takes a positive integer
/// that a `usize` holds, and there are no other keys.
pub open spec fn absorbed(
    layer: ConfigFromFileModel,
    key: Seq<char>,
    value: SettingModel,
) -> Result<ConfigFromFileModel, FaultModel> {
    if key == "cipher"@ {
        match value {
            SettingModel::Text(text) => Ok(
                ConfigFromFileModel {
                    cipher: Some(text),
                    key_length: layer.key_length,
                    password_generator: layer.password_generator,
                },
            ),
            _ => Err(FaultModel::Mistyped(key)),
        }
    } else if key == "key-length"@ {
        match value {
            SettingModel::Integer(number) => if 0 < number <= usize::MAX {
                Ok(
                    ConfigFromFileModel {
                        cipher: layer.cipher,
                        key_length: Some(number as usize),
                        password_generator: layer.password_generator,
                    },
                )
            } else {
                Err(FaultModel::Mistyped(key))
            },
            _ => Err(FaultModel::Mistyped(key)),
        }
    } else if key == "password-generator"@ {
        match value {
            SettingModel::Text(text) => Ok(
                ConfigFromFileModel {
                    cipher: layer.cipher,
                    key_length: layer.key_length,
                    password_generator: Some(text),
                },
            ),
            _ => Err(FaultModel::Mistyped(key)),
        }
    } else {
        Err(FaultModel::UnknownKey(key))
    }
}

/// The settings that a document's entries make, or the fault of the first
/// entry that has one.
pub open spec fn layer_of(entries: Seq<(Seq<char>, SettingModel)>) -> Result<
    ConfigFromFileModel,
    FaultModel,
>
    decreases entries.len(),
{
    if entries.len() == 0 {
        Ok(nothing_set())
    } else {
        match layer_of(entries.drop_last()) {
            Ok(layer) => absorbed(layer, entries.last().0, entries.last().1),
            Err(fault) => Err(fault),
        }
    }
}

/// What is said of contents that have too many levels.
pub open spec fn too_deep_message() -> Seq<char> {
    "too many brackets, braces and dots"@
}

/// The settings that a file's bytes hold. Contents with more levels than
/// a document is parsed with are no configuration, whatever else they are:
/// none of the settings takes an array or a table, so that a file which sets
/// them and nothing else has no level at all.
pub open spec fn layer(contents: Seq<u8>) -> Result<ConfigFromFileModel, FaultModel> {
    if levels(contents) > most_levels() {
        Err(FaultModel::Syntax(too_deep_message()))
    } else {
        match toml_settings(contents) {
            Ok(entries) => layer_of(entries),
            Err(message) => Err(FaultModel::Syntax(message)),
        }
    }
}

/// The model of a result of reading a file.
pub open spec fn layer_view(r: Result<ConfigFromFile, Fault>) -> Result<
    ConfigFromFileModel,
    FaultModel,
> {
    match r {
        Ok(layer) => Ok(layer@),
        Err(fault) => Err(fault@),
    }
}

fn is_key(key: &String, name: &str) -> (r: bool)
    ensures
        r == (key@ == name@),
{
    *key == String::from_str(name)
}

fn absorb(layer: ConfigFromFile, key: &String, value: &Setting) -> (r: Result<ConfigFromFile, Fault>)
    ensures
        layer_view(r) == absorbed(layer@, key@, value.deep_view()),
{
    if is_key(key, "cipher") {
        match value {
            Setting::Text(text) => Ok(
                ConfigFromFile {
                    cipher: Some(text.clone()),
                    key_length: layer.key_length,
                    password_generator: layer.password_generator,
                },
            ),
            _ => Err(Fault::Mistyped(key.clone())),
        }
    } else if is_key(key, "key-length") {
        match value {
            Setting::Integer(number) => {
                if 0 < *number && *number as u128 <= usize::MAX as u128 {
                    Ok(
                        ConfigFromFile {
                            cipher: layer.cipher,
                            key_length: Some(*number as usize),
                            password_generator: layer.password_generator,
                        },
                    )
                } else {
                    Err(Fault::Mistyped(key.clone()))
                }
            },
            _ => Err(Fault::Mistyped(key.clone())),
        }
    } else if is_key(key, "password-generator") {
        match value {
            Setting::Text(text) => Ok(
                ConfigFromFile {
                    cipher: layer.cipher,
                    key_length: layer.key_length,
                    password_generator: Some(text.clone()),
                },
            ),
            _ => Err(Fault::Mistyped(key.clone())),
        }
    } else {
        Err(Fault::UnknownKey(key.clone()))
    }
}

/// Reads the entries of a document as settings.
pub fn read_layer(entries: &Vec<(String, Setting)>) -> (r: Result<ConfigFromFile, Fault>)
    ensures
        layer_view(r) == layer_of(entries.deep_view()),
{
    let ghost all = entries.deep_view();
    let mut layer = empty_config();
    let mut i: usize = 0;
    assert(all.take(0) =~= Seq::<(Seq<char>, SettingModel)>::empty());
    while i < entries.len()
        invariant
            i <= entries.len(),
            all == entries.deep_view(),
            layer_of(all.take(i as int)) == Ok::<ConfigFromFileModel, FaultModel>(layer@),
        decreases entries.len() - i,
    {
        proof {
            let more = all.take(i + 1);
            assert(more.drop_last() =~= all.take(i as int));
            assert(more.last() == (entries@[i as int].0@, entries@[i as int].1.deep_view()));
        }
        match absorb(layer, &entries[i].0, &entries[i].1) {
            Ok(next) => {
                layer = next;
            },
            Err(fault) => {
                proof {
                    lemma_fault_stays(all, i + 1);
                }
                return Err(fault);
            },
        }
        i = i + 1;
    }
    assert(all.take(entries.len() as int) =~= all);
    Ok(layer)
}

/// Once a prefix of the entries has a fault, the whole has that fault.
proof fn lemma_fault_stays(entries: Seq<(Seq<char>, SettingModel)>, k: int)
    requires
        0 <= k <= entries.len(),
        layer_of(entries.take(k)) is Err,
    ensures
        layer_of(entries) == layer_of(entries.take(k)),
    decreases entries.len() - k,
{
    if k == entries.len() {
        assert(entries.take(k) =~= entries);
    } else {
        let more = entries.take(k + 1);
        assert(more.drop_last() =~= entries.take(k));
        lemma_fault_stays(entries, k + 1);
    }
}

/// Reads the bytes of a file as settings.
pub fn parse_layer(contents: &[u8]) -> (r: Result<ConfigFromFile, Fault>)
    ensures
        layer_view(r) == layer(contents@),
{
    if too_deep(contents) {
        return Err(Fault::Syntax(String::from_str("too many brackets, braces and dots")));
    }
    match read_settings(contents) {
        Ok(entries) => read_layer(&entries),
        Err(message) => Err(Fault::Syntax(message)),
    }
}

/// How far the loading has come. A file's phase holds the file's path.
#[derive(Debug)]
pub enum LoadPhase {
    /// The home directory is not known yet.
    Home,
    /// The file in the home directory is not read yet.
    HomeFile(String),
    /// The configuration directory is not known yet.
    Xdg,
    /// The file in the configuration directory is not read yet.
    XdgFile(String),
    /// The repository's file is not read yet.
    RepoFile,
}

/// The model of [`LoadPhase`].
pub enum LoadPhaseModel {
    Home,
    HomeFile(Seq<char>),
    Xdg,
    XdgFile(Seq<char>),
    RepoFile,
}

impl View for LoadPhase {
    type V = LoadPhaseModel;

    open spec fn view(&self) -> LoadPhaseModel {
        match self {
            LoadPhase::Home => LoadPhaseModel::Home,
            LoadPhase::HomeFile(path) => LoadPhaseModel::HomeFile(path@),
            LoadPhase::Xdg => LoadPhaseModel::Xdg,
            LoadPhase::XdgFile(path) => LoadPhaseModel::XdgFile(path@),
            LoadPhase::RepoFile => LoadPhaseModel::RepoFile,
        }
    }
}

/// The loading of the configuration of one repository.
#[derive(Debug)]
pub struct Load {
    repo: String,
    config: Config,
    phase: LoadPhase,
}

/// The model of [`Load`].
pub struct LoadModel {
    pub repo: Seq<char>,
    /// The settings as the files read so far have left them.
    pub config: ConfigModel,
    pub phase: LoadPhaseModel,
}

impl View for Load {
    type V = LoadModel;

    closed spec fn view(&self) -> LoadModel {
        LoadModel { repo: self.repo@, config: self.config@, phase: self.phase@ }
    }
}

/// The repository's own file.
pub open spec fn repo_file(repo: Seq<char>) -> Seq<char> {
    joined(repo, ".sala/config"@)
}

/// The file in a home directory.
pub open spec fn home_file(home: Seq<char>) -> Seq<char> {
    joined(home, ".sala.toml"@)
}

/// The file in a configuration directory.
pub open spec fn xdg_file(dir: Seq<char>) -> Seq<char> {
    joined(dir, "sala.toml"@)
}

/// The request that the loading waits on.
pub open spec fn load_pending(l: LoadModel) -> RequestModel {
    match l.phase {
        LoadPhaseModel::Home => RequestModel::HomeDir,
        LoadPhaseModel::HomeFile(path) => RequestModel::ReadFile(path),
        LoadPhaseModel::Xdg => RequestModel::ConfigDir,
        LoadPhaseModel::XdgFile(path) => RequestModel::ReadFile(path),
        LoadPhaseModel::RepoFile => RequestModel::ReadFile(repo_file(l.repo)),
    }
}

/// What the reply to the reading of a file adds to the settings: the file's
/// own settings, or nothing where the file could not be read. A file that was
/// read and is no configuration is a fault.
pub open spec fn taken_in(config: ConfigModel, reply: ReplyModel) -> Option<
    Result<ConfigModel, FaultModel>,
> {
    match reply {
        ReplyModel::Contents(contents) => match layer(contents) {
            Ok(found) => Some(Ok(merged(config, found))),
            Err(fault) => Some(Err(fault)),
        },
        ReplyModel::Failed(e) => Some(Ok(config)),
        _ => None,
    }
}

/// The step that a reply brings about. A reply of a kind that the pending
/// request cannot have is disregarded.
pub open spec fn load_advance(l: LoadModel, reply: ReplyModel) -> Step<
    LoadModel,
    Result<ConfigModel, ErrorModel>,
> {
    match l.phase {
        LoadPhaseModel::Home => match reply {
            ReplyModel::Directory(Some(home)) => Step::Pending(
                LoadModel {
                    repo: l.repo,
                    config: l.config,
                    phase: LoadPhaseModel::HomeFile(home_file(home)),
                },
            ),
            ReplyModel::Directory(None) => Step::Pending(
                LoadModel { repo: l.repo, config: l.config, phase: LoadPhaseModel::Xdg },
            ),
            _ => Step::Pending(l),
        },
        LoadPhaseModel::HomeFile(path) => match taken_in(l.config, reply) {
            Some(Ok(config)) => Step::Pending(
                LoadModel { repo: l.repo, config, phase: LoadPhaseModel::Xdg },
            ),
            Some(Err(fault)) => Step::Finished(Err(ErrorModel { path, error: fault })),
            None => Step::Pending(l),
        },
        LoadPhaseModel::Xdg => match reply {
            ReplyModel::Directory(Some(dir)) => Step::Pending(
                LoadModel {
                    repo: l.repo,
                    config: l.config,
                    phase: LoadPhaseModel::XdgFile(xdg_file(dir)),
                },
            ),
            ReplyModel::Directory(None) => Step::Pending(
                LoadModel { repo: l.repo, config: l.config, phase: LoadPhaseModel::RepoFile },
            ),
            _ => Step::Pending(l),
        },
        LoadPhaseModel::XdgFile(path) => match taken_in(l.config, reply) {
            Some(Ok(config)) => Step::Pending(
                LoadModel { repo: l.repo, config, phase: LoadPhaseModel::RepoFile },
            ),
            Some(Err(fault)) => Step::Finished(Err(ErrorModel { path, error: fault })),
            None => Step::Pending(l),
        },
        LoadPhaseModel::RepoFile => match taken_in(l.config, reply) {
            Some(Ok(config)) => Step::Finished(Ok(config)),
            Some(Err(fault)) => Step::Finished(
                Err(ErrorModel { path: repo_file(l.repo), error: fault }),
            ),
            None => Step::Pending(l),
        },
    }
}

/// Starts the loading of the configuration of the repository at `repo_path`.
pub fn load(repo_path: &str) -> (r: Load)
    ensures
        r@ == (LoadModel { repo: repo_path@, config: defaults(), phase: LoadPhaseModel::Home }),
{
    Load { repo: String::from_str(repo_path), config: default_config(), phase: LoadPhase::Home }
}

/// The model of what a reply to the reading of a file adds.
pub open spec fn taken_view(r: Option<Result<Config, Fault>>) -> Option<
    Result<ConfigModel, FaultModel>,
> {
    match r {
        Some(Ok(config)) => Some(Ok(config@)),
        Some(Err(fault)) => Some(Err(fault@)),
        None => None,
    }
}

/// Takes the reply to the reading of a file into the settings. Where the
/// reply is of another kind, the settings come back as they were.
fn take_in(config: Config, reply: Reply) -> (r: Result<Result<Config, Fault>, Config>)
    ensures
        match r {
            Ok(taken) => taken_view(Some(taken)) == taken_in(config@, reply@),
            Err(same) => taken_in(config@, reply@) is None && same@ == config@,
        },
{
    match reply {
        Reply::Contents(contents) => match parse_layer(contents.as_slice()) {
            Ok(found) => Ok(Ok(config.merge(found))),
            Err(fault) => Ok(Err(fault)),
        },
        Reply::Failed(_) => Ok(Ok(config)),
        _ => Err(config),
    }
}

impl Load {
    /// The request that the loading waits on.
    pub fn request(&self) -> (r: Request)
        ensures
            r@ == load_pending(self@),
    {
        match &self.phase {
            LoadPhase::Home => Request::HomeDir,
            LoadPhase::HomeFile(path) => Request::ReadFile(path.clone()),
            LoadPhase::Xdg => Request::ConfigDir,
            LoadPhase::XdgFile(path) => Request::ReadFile(path.clone()),
            LoadPhase::RepoFile => Request::ReadFile(join(self.repo.as_str(), ".sala/config")),
        }
    }

    /// Takes the reply to the pending request.
    pub fn resume(self, reply: Reply) -> (r: Step<Load, Result<Config, Error>>)
        ensures
            step_view(r) == load_advance(self@, reply@),
    {
        let Load { repo, config, phase } = self;
        match phase {
            LoadPhase::Home => match reply {
                Reply::Directory(Some(home)) => Step::Pending(
                    Load {
                        repo,
                        config,
                        phase: LoadPhase::HomeFile(join(home.as_str(), ".sala.toml")),
                    },
                ),
                Reply::Directory(None) => Step::Pending(Load { repo, config, phase: LoadPhase::Xdg }),
                _ => Step::Pending(Load { repo, config, phase: LoadPhase::Home }),
            },
            LoadPhase::HomeFile(path) => match take_in(config, reply) {
                Ok(Ok(config)) => Step::Pending(Load { repo, config, phase: LoadPhase::Xdg }),
                Ok(Err(fault)) => Step::Finished(Err(Error { path, error: fault })),
                Err(config) => Step::Pending(Load { repo, config, phase: LoadPhase::HomeFile(path) }),
            },
            LoadPhase::Xdg => match reply {
                Reply::Directory(Some(dir)) => Step::Pending(
                    Load { repo, config, phase: LoadPhase::XdgFile(join(dir.as_str(), "sala.toml")) },
                ),
                Reply::Directory(None) => Step::Pending(
                    Load { repo, config, phase: LoadPhase::RepoFile },
                ),
                _ => Step::Pending(Load { repo, config, phase: LoadPhase::Xdg }),
            },
            LoadPhase::XdgFile(path) => match take_in(config, reply) {
                Ok(Ok(config)) => Step::Pending(Load { repo, config, phase: LoadPhase::RepoFile }),
                Ok(Err(fault)) => Step::Finished(Err(Error { path, error: fault })),
                Err(config) => Step::Pending(Load { repo, config, phase: LoadPhase::XdgFile(path) }),
            },
            LoadPhase::RepoFile => match take_in(config, reply) {
                Ok(Ok(config)) => Step::Finished(Ok(config)),
                Ok(Err(fault)) => Step::Finished(
                    Err(Error { path: join(repo.as_str(), ".sala/config"), error: fault }),
                ),
                Err(config) => Step::Pending(Load { repo, config, phase: LoadPhase::RepoFile }),
            },
        }
    }
}

/// A file that sets nothing changes nothing.
pub proof fn empty_layer_changes_nothing(base: ConfigModel)
    ensures
        merged(base, nothing_set()) == base,
{
}

/// Of two files laid over the same settings, the later one wins, leaf by
/// leaf: each setting is that of the later file where it sets one, else that
/// of the earlier file where it sets one, else as it was.
pub proof fn later_layer_wins(
    base: ConfigModel,
    earlier: ConfigFromFileModel,
    later: ConfigFromFileModel,
)
    ensures
        merged(merged(base, earlier), later).cipher == match (later.cipher, earlier.cipher) {
            (Some(cipher), _) => cipher,
            (None, Some(cipher)) => cipher,
            (None, None) => base.cipher,
        },
        merged(merged(base, earlier), later).key_length == match (
            later.key_length,
            earlier.key_length,
        ) {
            (Some(length), _) => length,
            (None, Some(length)) => length,
            (None, None) => base.key_length,
        },
        merged(merged(base, earlier), later).password_generator == match (
            later.password_generator,
            earlier.password_generator,
        ) {
            (Some(command), _) => Some(command),
            (None, Some(command)) => Some(command),
            (None, None) => base.password_generator,
        },
{
}

/// A file's settings hold nothing but what the configuration can take: a key
/// length is positive.
pub proof fn key_length_is_positive(entries: Seq<(Seq<char>, SettingModel)>)
    ensures
        match layer_of(entries) {
            Ok(found) => match found.key_length {
                Some(length) => length > 0,
                None => true,
            },
            Err(fault) => true,
        },
    decreases entries.len(),
{
    if entries.len() > 0 {
        key_length_is_positive(entries.drop_last());
    }
}

/// A file that cannot be read counts as one that sets nothing: the loading
/// goes on with the settings as they were. A file that was read and is at
/// fault ends the loading with its path and its fault.
pub proof fn unreadable_is_empty_and_faulty_is_named(
    l: LoadModel,
    path: Seq<char>,
    e: std::io::Error,
    contents: Seq<u8>,
    fault: FaultModel,
)
    requires
        l.phase == LoadPhaseModel::HomeFile(path) || l.phase == LoadPhaseModel::XdgFile(path) || (
        l.phase == LoadPhaseModel::RepoFile && path == repo_file(l.repo)),
        layer(contents) == Err::<ConfigFromFileModel, FaultModel>(fault),
    ensures
        load_pending(l) == RequestModel::ReadFile(path),
        match load_advance(l, ReplyModel::Failed(e)) {
            Step::Pending(next) => next.config == l.config && next.repo == l.repo,
            Step::Finished(r) => r == Ok::<ConfigModel, ErrorModel>(l.config),
        },
        load_advance(l, ReplyModel::Contents(contents)) == Step::<
            LoadModel,
            Result<ConfigModel, ErrorModel>,
        >::Finished(Err(ErrorModel { path, error: fault })),
{
}

} // verus!
