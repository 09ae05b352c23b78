//! The lifecycle of repository operations, as a state machine.
//!
//! Each operation starts a [`Session`] and hands out its first [`Action`].
//! The caller performs each action (on the file system, or by running the
//! repository tool or the manifest-extraction tool in the repository root)
//! and hands the outcome back as an [`Event`], until the session answers
//! [`Action::Finish`]. Every decision lives here: the order of the steps, the
//! error each failure becomes, and the compensation after a failed update.

use vstd::prelude::*;
use crate::aapt::{first_capture, decimal_u32, decimal_text, VERSION_CODE_PATTERN, NAME_PATTERN, get_version_code, get_name, decimal_string};
use crate::app::opt_text;
use crate::config::{extension, icon_path, Config, ConfigFile, ConfigFileView, merged, image_target_ok, invalid_with, file_name, file_name_of};
use crate::error::{Error, InvalidFile};
use crate::paths::{Repository, join, joined};

verus! {

/// What is found at a path.
#[derive(Debug, Clone, Copy, PartialEq, Eq, Structural)]
pub enum EntryKind {
    Missing,
    File,
    Directory,
    /// Something that is neither a regular file nor a directory.
    Other,
}

/// A step that the caller performs for a session.
#[derive(Debug)]
pub enum Action {
    /// Run the repository tool (`fdroid`) in the repository root with this
    /// subcommand and arguments; answer `Done`, or `Failed` where it could not
    /// be started or did not exit successfully.
    RunTool { subcommand: String, args: Vec<String> },
    /// Tell what is at this path; answer `Entry`.
    Inspect(String),
    /// Copy a file, replacing the target; answer `Done` or `Failed`.
    CopyFile { from: String, to: String },
    /// Remove a file; answer `Done` or `Failed`.
    RemoveFile(String),
    /// Remove a directory and everything in it; answer `Done` or `Failed`.
    RemoveDirAll(String),
    /// Create a directory; answer `Done` or `Failed`.
    CreateDir(String),
    /// Run the manifest-extraction tool (`aapt dump badging`) on this
    /// artifact; answer `Output` with its standard output, or `Failed` where
    /// it could not be run.
    ReadApkInfo(String),
    /// Create an empty metadata record at this path; answer `Done` or `Failed`.
    CreateMetadata(String),
    /// Read and decode the configuration file; answer `Loaded` or `Failed`.
    ReadConfig,
    /// Encode and write the configuration file; answer `Done` or `Failed`.
    WriteConfig(ConfigFile),
    /// The operation is over, with this outcome.
    Finish(Result<(), Error>),
}

/// The outcome of an action, handed back to the session.
#[derive(Debug)]
pub enum Event {
    Done,
    Failed(Error),
    Entry(EntryKind),
    Output(String),
    Loaded(ConfigFile),
}

/// Where a session stands: which outcome it waits for.
#[derive(Debug)]
pub enum Stage {
    CheckingRoot,
    CheckingConfig,
    Initializing,
    /// `update -c` runs; `undo` is an artifact to remove should the update fail.
    CleanUpdate { undo: Option<String> },
    /// `update` runs.
    FullUpdate { undo: Option<String> },
    RollingBack,
    RunningTool { command: String },
    CopyingPackage { target: String },
    InspectingPackage { target: String },
    RemovingPackage,
    ClearingRepo,
    RecreatingRepo,
    ClearingMetadata,
    RecreatingMetadata,
    InspectingApk { source: String },
    ReadingApkInfo { source: String },
    ResolvingIntake,
    CreatingIntakeDir,
    CheckingIntake { source: String, target: String, name: String },
    CreatingIntake { source: String, target: String, name: String },
    StagingApk { name: String },
    CheckingMetadata { record: String },
    CreatingMetadata,
    Publishing,
    LoadingConfig { public: Config },
    WritingConfig,
    LoadingIcon { source: String },
    CopyingIcon,
    Finished,
}

/// One operation in progress on a repository.
#[derive(Debug)]
pub struct Session {
    pub repository: Repository,
    pub stage: Stage,
}

/// Whether `e` answers what a session at `stage` waits for.
pub open spec fn fits(stage: Stage, e: Event) -> bool {
    match stage {
        Stage::Finished => false,
        Stage::CheckingRoot | Stage::CheckingConfig | Stage::InspectingPackage { .. }
        | Stage::InspectingApk { .. } | Stage::CheckingIntake { .. } | Stage::CheckingMetadata { .. }
        | Stage::ResolvingIntake => e is Entry,
        Stage::ReadingApkInfo { .. } => e is Output || e is Failed,
        Stage::LoadingConfig { .. } | Stage::LoadingIcon { .. } => e is Loaded || e is Failed,
        _ => e is Done || e is Failed,
    }
}

/// The texts of a list of strings.
pub open spec fn texts(v: Seq<String>) -> Seq<Seq<char>> {
    v.map_values(|s: String| s@)
}

/// `a` runs the repository tool with this subcommand and these arguments.
pub open spec fn runs(a: Action, sub: Seq<char>, args: Seq<Seq<char>>) -> bool {
    a matches Action::RunTool { subcommand, args: v } && subcommand@ == sub && texts(v@) == args
}

pub open spec fn inspects(a: Action, p: Seq<char>) -> bool {
    a matches Action::Inspect(q) && q@ == p
}

pub open spec fn copies(a: Action, from: Seq<char>, to: Seq<char>) -> bool {
    a matches Action::CopyFile { from: f, to: t } && f@ == from && t@ == to
}

pub open spec fn removes_file(a: Action, p: Seq<char>) -> bool {
    a matches Action::RemoveFile(q) && q@ == p
}

pub open spec fn removes_dir(a: Action, p: Seq<char>) -> bool {
    a matches Action::RemoveDirAll(q) && q@ == p
}

pub open spec fn creates_dir(a: Action, p: Seq<char>) -> bool {
    a matches Action::CreateDir(q) && q@ == p
}

/// `a` ends the session successfully.
pub open spec fn succeeds(a: Action) -> bool {
    a matches Action::Finish(Ok(_))
}

/// `a` ends the session with the error `e`.
pub open spec fn fails_with(a: Action, e: Error) -> bool {
    a == Action::Finish(Err(e))
}

/// `a` ends the session with an error that holds the text `t`, of the kind
/// that `kind` picks.
pub open spec fn fails_naming(a: Action, kind: ErrorKind, t: Seq<char>) -> bool {
    match a {
        Action::Finish(Err(Error::Run(c))) => kind is Run && c@ == t,
        Action::Finish(Err(Error::NotAFile(c))) => kind is NotAFile && c@ == t,
        Action::Finish(Err(Error::NotADirectory(c))) => kind is NotADirectory && c@ == t,
        _ => false,
    }
}

/// The kinds of error that carry a path or a command line.
pub enum ErrorKind {
    Run,
    NotAFile,
    NotADirectory,
}

/// `a` ends the session with an invalid-file error for `file` and `reason`.
pub open spec fn fails_invalid(a: Action, file: Seq<char>, reason: Seq<char>) -> bool {
    a matches Action::Finish(r) && invalid_with(r, file, reason)
}

/// `a` and `next` begin the regeneration of the index (`update -c`, then
/// `update`), with `undo` to remove should it fail.
pub open spec fn begins_update(a: Action, next: Stage, undo: Option<Seq<char>>) -> bool {
    &&& runs(a, "update"@, seq!["-c"@])
    &&& next matches Stage::CleanUpdate { undo: u }
    &&& opt_text(u) == undo
}

/// What follows a failed update: removal of the artifact copied in by this
/// operation, or else the update error.
pub open spec fn update_failed(undo: Option<String>, a: Action, next: Stage) -> bool {
    match undo {
        Some(p) => removes_file(a, p@) && next is RollingBack,
        None => fails_with(a, Error::Update),
    }
}

/// The path of the metadata record of an app.
pub open spec fn record_path(root: Seq<char>, name: Seq<char>) -> Seq<char> {
    joined(joined(root, "metadata"@), name + ".yml"@)
}

/// The name of an artifact in the intake directory.
pub open spec fn intake_name(name: Seq<char>, version: u32) -> Seq<char> {
    name + "_"@ + decimal_text(version as nat) + ".apk"@
}

/// What a session of `root` at `stage` does on the event `e`: the action it
/// hands out and the stage it moves to.
pub open spec fn transition(root: Seq<char>, stage: Stage, e: Event, next: Stage, a: Action) -> bool {
    match stage {
        Stage::CheckingRoot => if e == Event::Entry(EntryKind::Directory) {
            inspects(a, joined(root, "config.yml"@)) && next is CheckingConfig
        } else {
            fails_naming(a, ErrorKind::NotADirectory, root)
        },
        Stage::CheckingConfig => if e == Event::Entry(EntryKind::Missing) {
            runs(a, "init"@, seq![]) && next is Initializing
        } else {
            succeeds(a)
        },
        Stage::Initializing => if e is Done {
            begins_update(a, next, None)
        } else {
            fails_with(a, Error::Init)
        },
        Stage::CleanUpdate { undo } => if e is Done {
            runs(a, "update"@, seq![]) && next == Stage::FullUpdate { undo }
        } else {
            update_failed(undo, a, next)
        },
        Stage::FullUpdate { undo } => if e is Done {
            succeeds(a)
        } else {
            update_failed(undo, a, next)
        },
        Stage::RollingBack => fails_with(a, Error::Update),
        Stage::RunningTool { command } => if e is Done {
            succeeds(a)
        } else {
            fails_naming(a, ErrorKind::Run, command@)
        },
        Stage::CopyingPackage { target } => match e {
            Event::Failed(err) => fails_with(a, err),
            _ => begins_update(a, next, Some(target@)),
        },
        Stage::InspectingPackage { target } => match e {
            Event::Entry(EntryKind::File) => removes_file(a, target@) && next is RemovingPackage,
            Event::Entry(EntryKind::Missing) => succeeds(a),
            _ => fails_naming(a, ErrorKind::NotAFile, target@),
        },
        Stage::RemovingPackage | Stage::RecreatingMetadata | Stage::WritingConfig => match e {
            Event::Failed(err) => fails_with(a, err),
            _ => begins_update(a, next, None),
        },
        Stage::ClearingRepo => match e {
            Event::Failed(err) => fails_with(a, err),
            _ => creates_dir(a, joined(root, "repo"@)) && next is RecreatingRepo,
        },
        Stage::RecreatingRepo => match e {
            Event::Failed(err) => fails_with(a, err),
            _ => removes_dir(a, joined(root, "metadata"@)) && next is ClearingMetadata,
        },
        Stage::ClearingMetadata => match e {
            Event::Failed(err) => fails_with(a, err),
            _ => creates_dir(a, joined(root, "metadata"@)) && next is RecreatingMetadata,
        },
        Stage::InspectingApk { source } => if e == Event::Entry(EntryKind::File) {
            (a matches Action::ReadApkInfo(p) && p@ == source@)
                && (next matches Stage::ReadingApkInfo { source: s } && s@ == source@)
        } else {
            fails_naming(a, ErrorKind::NotAFile, source@)
        },
        Stage::ReadingApkInfo { source } => match e {
            Event::Output(text) => apk_info_read(root, source@, text@, a, next),
            _ => a matches Action::Finish(r) && (r matches Err(Error::InvalidFile(f))
                && f.file@ == source@ && f.reason is None),
        },
        Stage::ResolvingIntake => match e {
            Event::Entry(EntryKind::Directory) => succeeds(a),
            Event::Entry(EntryKind::Missing) => creates_dir(a, joined(root, "unsigned"@)) && next is CreatingIntakeDir,
            _ => fails_naming(a, ErrorKind::NotADirectory, joined(root, "unsigned"@)),
        },
        Stage::CreatingIntakeDir => match e {
            Event::Failed(err) => fails_with(a, err),
            _ => succeeds(a),
        },
        Stage::CheckingIntake { source, target, name } => match e {
            Event::Entry(EntryKind::Directory) => copies(a, source@, target@)
                && (next matches Stage::StagingApk { name: n } && n@ == name@),
            Event::Entry(EntryKind::Missing) => creates_dir(a, joined(root, "unsigned"@))
                && next == Stage::CreatingIntake { source, target, name },
            _ => fails_naming(a, ErrorKind::NotADirectory, joined(root, "unsigned"@)),
        },
        Stage::CreatingIntake { source, target, name } => match e {
            Event::Failed(err) => fails_with(a, err),
            _ => copies(a, source@, target@) && (next matches Stage::StagingApk { name: n } && n@ == name@),
        },
        Stage::StagingApk { name } => match e {
            Event::Failed(err) => fails_with(a, err),
            _ => inspects(a, record_path(root, name@))
                && (next matches Stage::CheckingMetadata { record } && record@ == record_path(root, name@)),
        },
        Stage::CheckingMetadata { record } => if e == Event::Entry(EntryKind::File) {
            runs(a, "publish"@, seq![]) && next is Publishing
        } else {
            (a matches Action::CreateMetadata(p) && p@ == record@) && next is CreatingMetadata
        },
        Stage::CreatingMetadata => match e {
            Event::Failed(err) => fails_with(a, err),
            _ => runs(a, "publish"@, seq![]) && next is Publishing,
        },
        Stage::Publishing => if e is Done {
            begins_update(a, next, None)
        } else {
            fails_naming(a, ErrorKind::Run, "fdroid publish"@)
        },
        Stage::LoadingConfig { public } => match e {
            Event::Loaded(file) => (a matches Action::WriteConfig(f) && f@ == merged(file@, public@))
                && next is WritingConfig,
            Event::Failed(err) => fails_with(a, err),
            _ => true,
        },
        Stage::LoadingIcon { source } => match e {
            Event::Loaded(file) => icon_loaded(root, source@, file@, a, next),
            Event::Failed(err) => fails_with(a, err),
            _ => true,
        },
        Stage::CopyingIcon => match e {
            Event::Failed(err) => fails_with(a, err),
            _ => succeeds(a),
        },
        Stage::Finished => true,
    }
}

/// What follows the badging text `text` of the artifact `source`: the version
/// code and the name are read from it, and the artifact goes to the intake
/// directory under both.
pub open spec fn apk_info_read(root: Seq<char>, source: Seq<char>, text: Seq<char>, a: Action, next: Stage) -> bool {
    let version = match first_capture(VERSION_CODE_PATTERN@, text) {
        Some(s) => decimal_u32(s),
        None => None,
    };
    let name = first_capture(NAME_PATTERN@, text);
    match (version, name) {
        (None, _) => fails_invalid(a, source, "Version Code not found!"@),
        (Some(_), None) => fails_invalid(a, source, "Name not found!"@),
        (Some(v), Some(n)) => {
            &&& inspects(a, joined(root, "unsigned"@))
            &&& next matches Stage::CheckingIntake { source: s, target: t, name: m }
            &&& s@ == source
            &&& t@ == joined(joined(root, "unsigned"@), intake_name(n, v))
            &&& m@ == n
        },
    }
}

/// What follows loading the configuration when the icon is to be replaced by
/// the image at `source`.
pub open spec fn icon_loaded(root: Seq<char>, source: Seq<char>, file: ConfigFileView, a: Action, next: Stage) -> bool {
    exists|r: Result<String, Error>| {
        &&& image_target_ok(root, file, source, r)
        &&& match r {
            Ok(dest) => copies(a, source, dest@) && next is CopyingIcon,
            Err(err) => fails_with(a, err),
        }
    }
}

fn tool(subcommand: &str) -> (r: Action)
    ensures
        runs(r, subcommand@, seq![]),
{
    let args: Vec<String> = Vec::new();
    proof {
        assert(texts(args@) =~= seq![]);
    }
    Action::RunTool { subcommand: subcommand.to_owned(), args }
}

fn begin_update(undo: Option<String>) -> (r: (Stage, Action))
    ensures
        begins_update(r.1, r.0, opt_text(undo)),
{
    let mut args: Vec<String> = Vec::new();
    args.push(String::from_str("-c"));
    proof {
        assert(texts(args@) =~= seq!["-c"@]);
    }
    (Stage::CleanUpdate { undo }, Action::RunTool { subcommand: String::from_str("update"), args })
}

fn finish_update_failure(undo: Option<String>) -> (r: (Stage, Action))
    ensures
        update_failed(undo, r.1, r.0),
        r.1 is Finish <==> r.0 is Finished,
{
    match undo {
        Some(p) => (Stage::RollingBack, Action::RemoveFile(p)),
        None => (Stage::Finished, Action::Finish(Err(Error::Update))),
    }
}

fn fail(e: Error) -> (r: (Stage, Action))
    ensures
        fails_with(r.1, e),
        r.0 is Finished,
{
    (Stage::Finished, Action::Finish(Err(e)))
}

impl Session {
    /// Whether the session is over.
    pub fn is_finished(&self) -> (r: bool)
        ensures
            r == (self.stage is Finished),
    {
        match self.stage {
            Stage::Finished => true,
            _ => false,
        }
    }

    /// Whether `e` answers what the session waits for.
    pub fn accepts(&self, e: &Event) -> (r: bool)
        ensures
            r == fits(self.stage, *e),
    {
        match self.stage {
            Stage::Finished => false,
            Stage::CheckingRoot | Stage::CheckingConfig | Stage::InspectingPackage { .. }
            | Stage::InspectingApk { .. } | Stage::CheckingIntake { .. } | Stage::CheckingMetadata { .. }
            | Stage::ResolvingIntake => {
                match e {
                    Event::Entry(_) => true,
                    _ => false,
                }
            },
            Stage::ReadingApkInfo { .. } => match e {
                Event::Output(_) | Event::Failed(_) => true,
                _ => false,
            },
            Stage::LoadingConfig { .. } | Stage::LoadingIcon { .. } => match e {
                Event::Loaded(_) | Event::Failed(_) => true,
                _ => false,
            },
            _ => match e {
                Event::Done | Event::Failed(_) => true,
                _ => false,
            },
        }
    }
}

impl Session {
    /// Hands the outcome of the last action to the session: gives the session
    /// as it stands after it, and the next action.
    pub fn resume(self, e: Event) -> (r: (Session, Action))
        requires
            fits(self.stage, e),
        ensures
            r.0.repository == self.repository,
            transition(self.repository@, self.stage, e, r.0.stage, r.1),
            r.1 is Finish <==> r.0.stage is Finished,
    {
        let Session { repository, stage } = self;
        let ghost root = repository@;
        let (next, action) = match stage {
            Stage::CheckingRoot => match e {
                Event::Entry(EntryKind::Directory) => (Stage::CheckingConfig, Action::Inspect(repository.config_path())),
                _ => fail(Error::NotADirectory(repository.root().to_owned())),
            },
            Stage::CheckingConfig => match e {
                Event::Entry(EntryKind::Missing) => (Stage::Initializing, tool("init")),
                _ => (Stage::Finished, Action::Finish(Ok(()))),
            },
            Stage::Initializing => match e {
                Event::Done => begin_update(None),
                _ => fail(Error::Init),
            },
            Stage::CleanUpdate { undo } => match e {
                Event::Done => (Stage::FullUpdate { undo }, tool("update")),
                _ => finish_update_failure(undo),
            },
            Stage::FullUpdate { undo } => match e {
                Event::Done => (Stage::Finished, Action::Finish(Ok(()))),
                _ => finish_update_failure(undo),
            },
            Stage::RollingBack => fail(Error::Update),
            Stage::RunningTool { command } => match e {
                Event::Done => (Stage::Finished, Action::Finish(Ok(()))),
                _ => fail(Error::Run(command)),
            },
            Stage::CopyingPackage { target } => match e {
                Event::Failed(err) => fail(err),
                _ => begin_update(Some(target)),
            },
            Stage::InspectingPackage { target } => match e {
                Event::Entry(EntryKind::File) => (Stage::RemovingPackage, Action::RemoveFile(target)),
                Event::Entry(EntryKind::Missing) => (Stage::Finished, Action::Finish(Ok(()))),
                _ => fail(Error::NotAFile(target)),
            },
            Stage::RemovingPackage | Stage::RecreatingMetadata | Stage::WritingConfig => match e {
                Event::Failed(err) => fail(err),
                _ => begin_update(None),
            },
            Stage::ClearingRepo => match e {
                Event::Failed(err) => fail(err),
                _ => (Stage::RecreatingRepo, Action::CreateDir(repository.repo_path())),
            },
            Stage::RecreatingRepo => match e {
                Event::Failed(err) => fail(err),
                _ => (Stage::ClearingMetadata, Action::RemoveDirAll(repository.metadata_path())),
            },
            Stage::ClearingMetadata => match e {
                Event::Failed(err) => fail(err),
                _ => (Stage::RecreatingMetadata, Action::CreateDir(repository.metadata_path())),
            },
            Stage::InspectingApk { source } => match e {
                Event::Entry(EntryKind::File) => {
                    let from = source.clone();
                    (Stage::ReadingApkInfo { source }, Action::ReadApkInfo(from))
                },
                _ => fail(Error::NotAFile(source)),
            },
            Stage::ReadingApkInfo { source } => match e {
                Event::Output(text) => read_apk_info(&repository, source, text.as_str()),
                _ => fail(Error::InvalidFile(InvalidFile::without_reason(source))),
            },
            Stage::ResolvingIntake => match e {
                Event::Entry(EntryKind::Directory) => (Stage::Finished, Action::Finish(Ok(()))),
                Event::Entry(EntryKind::Missing) => (Stage::CreatingIntakeDir, Action::CreateDir(repository.unsigned_dir())),
                _ => fail(Error::NotADirectory(repository.unsigned_dir())),
            },
            Stage::CreatingIntakeDir => match e {
                Event::Failed(err) => fail(err),
                _ => (Stage::Finished, Action::Finish(Ok(()))),
            },
            Stage::CheckingIntake { source, target, name } => match e {
                Event::Entry(EntryKind::Directory) => (Stage::StagingApk { name }, Action::CopyFile { from: source, to: target }),
                Event::Entry(EntryKind::Missing) => (
                    Stage::CreatingIntake { source, target, name },
                    Action::CreateDir(repository.unsigned_dir()),
                ),
                _ => fail(Error::NotADirectory(repository.unsigned_dir())),
            },
            Stage::CreatingIntake { source, target, name } => match e {
                Event::Failed(err) => fail(err),
                _ => (Stage::StagingApk { name }, Action::CopyFile { from: source, to: target }),
            },
            Stage::StagingApk { name } => match e {
                Event::Failed(err) => fail(err),
                _ => {
                    let record = join(repository.metadata_path().as_str(), name.concat(".yml").as_str());
                    let asked = record.clone();
                    (Stage::CheckingMetadata { record }, Action::Inspect(asked))
                },
            },
            Stage::CheckingMetadata { record } => match e {
                Event::Entry(EntryKind::File) => (Stage::Publishing, tool("publish")),
                _ => (Stage::CreatingMetadata, Action::CreateMetadata(record)),
            },
            Stage::CreatingMetadata => match e {
                Event::Failed(err) => fail(err),
                _ => (Stage::Publishing, tool("publish")),
            },
            Stage::Publishing => match e {
                Event::Done => begin_update(None),
                _ => fail(Error::Run(String::from_str("fdroid publish"))),
            },
            Stage::LoadingConfig { public } => match e {
                Event::Loaded(file) => (Stage::WritingConfig, Action::WriteConfig(file.merge_with_public(&public))),
                Event::Failed(err) => fail(err),
                _ => fail(Error::Update),
            },
            Stage::LoadingIcon { source } => match e {
                Event::Loaded(file) => {
                    let target = repository.image_target(&file, source.as_str());
                    let ghost chosen = target;
                    let step = match target {
                        Ok(dest) => (Stage::CopyingIcon, Action::CopyFile { from: source, to: dest }),
                        Err(err) => fail(err),
                    };
                    assert(image_target_ok(root, file@, source@, chosen));
                    step
                },
                Event::Failed(err) => fail(err),
                _ => fail(Error::Update),
            },
            Stage::CopyingIcon => match e {
                Event::Failed(err) => fail(err),
                _ => (Stage::Finished, Action::Finish(Ok(()))),
            },
            Stage::Finished => fail(Error::Update),
        };
        (Session { repository, stage: next }, action)
    }
}

fn read_apk_info(repository: &Repository, source: String, text: &str) -> (r: (Stage, Action))
    ensures
        apk_info_read(repository@, source@, text@, r.1, r.0),
        r.1 is Finish <==> r.0 is Finished,
{
    let version = match get_version_code(text) {
        Some(v) => v,
        None => {
            return fail(Error::InvalidFile(InvalidFile::with_reason(source, "Version Code not found!")));
        },
    };
    let name = match get_name(text) {
        Some(n) => n,
        None => {
            return fail(Error::InvalidFile(InvalidFile::with_reason(source, "Name not found!")));
        },
    };
    let unsigned = repository.unsigned_dir();
    let file = name.clone().concat("_").concat(decimal_string(version).as_str()).concat(".apk");
    let target = join(unsigned.as_str(), file.as_str());
    (Stage::CheckingIntake { source, target, name }, Action::Inspect(unsigned))
}

impl Repository {
    /// Opens the repository rooted at `path`, initialising a new one where no
    /// configuration file is there yet. The session checks that the root is
    /// a directory, then whether the configuration file exists.
    pub fn new(path: String) -> (r: (Session, Action))
        ensures
            r.0.repository@ == path@,
            r.0.stage is CheckingRoot,
            inspects(r.1, path@),
    {
        let asked = path.clone();
        (Session { repository: Repository::at_root(path), stage: Stage::CheckingRoot }, Action::Inspect(asked))
    }

    /// Initialises a new repository (`fdroid init`), then regenerates the
    /// index. Any failure of the first step is an initialisation error.
    pub fn initialize(&self) -> (r: (Session, Action))
        ensures
            r.0.repository == *self,
            r.0.stage is Initializing,
            runs(r.1, "init"@, seq![]),
    {
        (Session { repository: self.clone_root(), stage: Stage::Initializing }, tool("init"))
    }

    /// Regenerates the index: `fdroid update -c`, then `fdroid update`; a
    /// failure of either is an update error.
    pub fn update(&self) -> (r: (Session, Action))
        ensures
            r.0.repository == *self,
            begins_update(r.1, r.0.stage, None),
    {
        let (stage, action) = begin_update(None);
        (Session { repository: self.clone_root(), stage }, action)
    }

    /// Makes sure the intake directory (`unsigned_dir`) is there: a
    /// directory already there is left as it is, a missing one is created,
    /// and anything else at that path is an error.
    pub fn unsigned_path(&self) -> (r: (Session, Action))
        ensures
            r.0.repository == *self,
            r.0.stage is ResolvingIntake,
            inspects(r.1, joined(self@, "unsigned"@)),
    {
        (Session { repository: self.clone_root(), stage: Stage::ResolvingIntake }, Action::Inspect(self.unsigned_dir()))
    }

    /// Publishes the staged artifacts (`fdroid publish`), which signs them.
    pub fn publish(&self) -> (r: (Session, Action))
        ensures
            r.0.repository == *self,
            r.0.stage matches Stage::RunningTool { command } && command@ == "fdroid publish"@,
            runs(r.1, "publish"@, seq![]),
    {
        (Session { repository: self.clone_root(), stage: Stage::RunningTool { command: String::from_str("fdroid publish") } }, tool("publish"))
    }

    /// Rewrites the metadata records in their normal form (`fdroid
    /// rewritemeta`), without changing what they say.
    pub fn cleanup(&self) -> (r: (Session, Action))
        ensures
            r.0.repository == *self,
            r.0.stage matches Stage::RunningTool { command } && command@ == "fdroid rewritemeta"@,
            runs(r.1, "rewritemeta"@, seq![]),
    {
        (Session { repository: self.clone_root(), stage: Stage::RunningTool { command: String::from_str("fdroid rewritemeta") } }, tool("rewritemeta"))
    }

    /// Removes every artifact and metadata record: both directories are
    /// removed and made again, then the index is regenerated.
    pub fn clear(&self) -> (r: (Session, Action))
        ensures
            r.0.repository == *self,
            r.0.stage is ClearingRepo,
            removes_dir(r.1, joined(self@, "repo"@)),
    {
        (Session { repository: self.clone_root(), stage: Stage::ClearingRepo }, Action::RemoveDirAll(self.repo_path()))
    }

    /// Adds an artifact directly: it is copied into the artifact directory
    /// under its own file name, then the index is regenerated; should that
    /// fail, the copy is removed again.
    pub fn add_app(&self, file_path: &str) -> (r: (Session, Action))
        ensures
            r.0.repository == *self,
            ({
                match file_name(file_path@) {
                    None => fails_naming(r.1, ErrorKind::NotAFile, file_path@) && r.0.stage is Finished,
                    Some(name) => {
                        &&& copies(r.1, file_path@, joined(joined(self@, "repo"@), name))
                        &&& r.0.stage matches Stage::CopyingPackage { target }
                        &&& target@ == joined(joined(self@, "repo"@), name)
                    },
                }
            }),
    {
        let name = match file_name_of(file_path) {
            Some(name) => name,
            None => {
                let (stage, action) = fail(Error::NotAFile(file_path.to_owned()));
                return (Session { repository: self.clone_root(), stage }, action);
            },
        };
        let target = join(self.repo_path().as_str(), name);
        let to = target.clone();
        (
            Session { repository: self.clone_root(), stage: Stage::CopyingPackage { target } },
            Action::CopyFile { from: file_path.to_owned(), to },
        )
    }

    /// Deletes the artifact `apk_name`, then regenerates the index. An
    /// artifact that is not there is no error, and nothing is done.
    pub fn delete_app(&self, apk_name: &str) -> (r: (Session, Action))
        ensures
            r.0.repository == *self,
            r.0.stage matches Stage::InspectingPackage { target }
                && target@ == joined(joined(self@, "repo"@), apk_name@),
            inspects(r.1, joined(joined(self@, "repo"@), apk_name@)),
    {
        let target = join(self.repo_path().as_str(), apk_name);
        let asked = target.clone();
        (Session { repository: self.clone_root(), stage: Stage::InspectingPackage { target } }, Action::Inspect(asked))
    }

    /// Signs and adds an artifact: reads its version code and name with the
    /// manifest-extraction tool, stages it in the intake directory as
    /// `{name}_{version}.apk`, creates an empty metadata record where none
    /// exists, publishes, then regenerates the index.
    pub fn sign_app(&self, file_path: &str) -> (r: (Session, Action))
        ensures
            r.0.repository == *self,
            r.0.stage matches Stage::InspectingApk { source } && source@ == file_path@,
            inspects(r.1, file_path@),
    {
        (
            Session { repository: self.clone_root(), stage: Stage::InspectingApk { source: file_path.to_owned() } },
            Action::Inspect(file_path.to_owned()),
        )
    }

    /// Replaces the public part of the configuration, keeping the immutable
    /// part, then regenerates the index.
    pub fn set_config(&self, public_config: &Config) -> (r: (Session, Action))
        ensures
            r.0.repository == *self,
            r.0.stage matches Stage::LoadingConfig { public } && public@ == public_config@,
            r.1 is ReadConfig,
    {
        let public = ConfigFile::copy_public(public_config);
        (Session { repository: self.clone_root(), stage: Stage::LoadingConfig { public } }, Action::ReadConfig)
    }

    /// Replaces the repository icon by the image at `new_image_path`, whose
    /// extension must be that of the icon now configured.
    pub fn set_image(&self, new_image_path: &str) -> (r: (Session, Action))
        ensures
            r.0.repository == *self,
            r.0.stage matches Stage::LoadingIcon { source } && source@ == new_image_path@,
            r.1 is ReadConfig,
    {
        (
            Session { repository: self.clone_root(), stage: Stage::LoadingIcon { source: new_image_path.to_owned() } },
            Action::ReadConfig,
        )
    }
}

/// Deleting an artifact that is not there succeeds at once: the session
/// asks only what is at the path, mutates nothing and does not regenerate
/// the index, so the app list stays as it was.
pub proof fn lemma_delete_missing_is_no_op(root: Seq<char>, target: String, next: Stage, a: Action)
    requires
        transition(root, Stage::InspectingPackage { target }, Event::Entry(EntryKind::Missing), next, a),
    ensures
        succeeds(a),
{
}

/// An image whose extension differs from that of the configured icon is
/// refused with an invalid-file error, and nothing is copied over the icon;
/// an image with the same extension is copied over the icon, byte for byte.
pub proof fn lemma_image_extension_checked(root: Seq<char>, source: String, file: ConfigFile, next: Stage, a: Action)
    requires
        transition(root, Stage::LoadingIcon { source }, Event::Loaded(file), next, a),
    ensures
        extension(source@) != extension(icon_path(root, file@)) ==> a matches Action::Finish(Err(Error::InvalidFile(_))),
        extension(source@) is Some && extension(source@) == extension(icon_path(root, file@))
            ==> copies(a, source@, icon_path(root, file@)),
{
    let r = choose|r: Result<String, Error>| {
        &&& image_target_ok(root, file@, source@, r)
        &&& match r {
            Ok(dest) => copies(a, source@, dest@) && next is CopyingIcon,
            Err(err) => fails_with(a, err),
        }
    };
}

/// Replacing the public configuration writes the loaded document with its
/// public part replaced: reading the public part back gives what was written,
/// and the immutable part stays what it was.
pub proof fn lemma_set_config_round_trip(root: Seq<char>, public: Config, file: ConfigFile, next: Stage, a: Action)
    requires
        transition(root, Stage::LoadingConfig { public }, Event::Loaded(file), next, a),
    ensures
        a matches Action::WriteConfig(written) && written@.public == public@
            && written@.immutable == file@.immutable,
{
}

} // verus!
