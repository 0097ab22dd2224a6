//! The messages of the log protocol, and their mathematical models.

use crate::nix_logs::text::text_view;
use vstd::prelude::*;

verus! {

/// The end of an activity.
#[derive(Debug, PartialEq, Eq, Structural, Clone, Copy)]
pub struct StopAction {
    pub id: i64,
}

/// How severe the build tool considers a line; an earlier variant is more severe.
#[derive(Debug, PartialEq, Eq, Structural, PartialOrd, Clone, Copy)]
pub enum Verbosity {
    Error,
    Warn,
    Notice,
    Info,
    Talkative,
    Chatty,
    Debug,
    Vomit,
}

/// The kind of an activity, without what the activity carries.
#[derive(Debug, PartialEq, Eq, Structural, Clone, Copy)]
pub enum ActivityType {
    ActUnknownType,
    ActCopyPathType,
    ActFileTransferType,
    ActRealiseType,
    ActCopyPathsType,
    ActBuildsType,
    ActBuildType,
    ActOptimiseStoreType,
    ActVerifyPathsType,
    ActSubstituteType,
    ActQueryPathInfoType,
    ActPostBuildHookType,
    ActBuildWaitingType,
}

/// The last progress that an activity reported.
#[derive(Debug, PartialEq, Eq, Structural, Clone, Copy)]
pub struct ActivityProgress {
    pub done: i64,
    pub expected: i64,
    pub running: i64,
    pub failed: i64,
}

/// The start of an activity.
#[derive(Debug, PartialEq, Eq, Clone)]
pub struct StartAction {
    pub id: i64,
    pub level: Verbosity,
    pub text: String,
    pub activity: Activity,
}

/// An update to a running activity.
#[derive(Debug, PartialEq, Eq, Clone)]
pub struct ResultAction {
    pub id: i64,
    pub result: ActivityResult,
}

/// A line of text that belongs to no activity.
#[derive(Debug, PartialEq, Eq, Clone)]
pub struct MessageAction {
    pub level: Verbosity,
    pub msg: String,
}

/// One decoded line of the log.
#[derive(Debug, PartialEq, Eq, Clone)]
pub enum JSONMessage {
    Stop(StopAction),
    Start(StartAction),
    Result(ResultAction),
    Message(MessageAction),
}

/// What an update reports.
#[derive(Debug, PartialEq, Eq, Clone)]
pub enum ActivityResult {
    FileLinked(i64, i64),
    BuildLogLine(String),
    UntrustedPath(String),
    CorruptedPath(String),
    SetPhase(String),
    Progress(ActivityProgress),
    SetExpected(ActivityType, i64),
    PostBuildLogLine(String),
}

/// What an activity does. The variants with a store path start with the
/// package name, then the store path; `ActBuild` ends with jobs and cores.
#[derive(Debug, PartialEq, Eq, Clone)]
pub enum Activity {
    ActUnknown,
    ActCopyPath(String, String, String, String),
    ActFileTransfer(String),
    ActRealise,
    ActCopyPaths,
    ActBuilds,
    ActBuild(String, String, String, i16, i16),
    ActOptimiseStore,
    ActVerifyPaths,
    ActSubstitute(String, String, String),
    ActQueryPathInfo(String, String, String),
    ActPostBuildHook(String),
    ActBuildWaiting,
}

/// Why a line gave no message.
#[derive(Debug, PartialEq, Eq, Structural, Clone, Copy)]
pub enum DecodeError {
    /// The line is no JSON document, or lacks a field that its action needs,
    /// or holds one of the wrong type.
    MalformedLine,
    /// The line has no action, or one that is not known.
    UnknownAction,
    /// The line is a result with a type code that is not known.
    UnknownResultCode,
}

/// The model of an [`Activity`].
pub enum ActivityView {
    ActUnknown,
    ActCopyPath(Seq<char>, Seq<char>, Seq<char>, Seq<char>),
    ActFileTransfer(Seq<char>),
    ActRealise,
    ActCopyPaths,
    ActBuilds,
    ActBuild(Seq<char>, Seq<char>, Seq<char>, i16, i16),
    ActOptimiseStore,
    ActVerifyPaths,
    ActSubstitute(Seq<char>, Seq<char>, Seq<char>),
    ActQueryPathInfo(Seq<char>, Seq<char>, Seq<char>),
    ActPostBuildHook(Seq<char>),
    ActBuildWaiting,
}

impl View for Activity {
    type V = ActivityView;

    open spec fn view(&self) -> ActivityView {
        match self {
            Activity::ActUnknown => ActivityView::ActUnknown,
            Activity::ActCopyPath(package, path, from, to) => ActivityView::ActCopyPath(
                package@,
                path@,
                from@,
                to@,
            ),
            Activity::ActFileTransfer(url) => ActivityView::ActFileTransfer(url@),
            Activity::ActRealise => ActivityView::ActRealise,
            Activity::ActCopyPaths => ActivityView::ActCopyPaths,
            Activity::ActBuilds => ActivityView::ActBuilds,
            Activity::ActBuild(package, path, host, jobs, cores) => ActivityView::ActBuild(
                package@,
                path@,
                host@,
                *jobs,
                *cores,
            ),
            Activity::ActOptimiseStore => ActivityView::ActOptimiseStore,
            Activity::ActVerifyPaths => ActivityView::ActVerifyPaths,
            Activity::ActSubstitute(package, path, from) => ActivityView::ActSubstitute(
                package@,
                path@,
                from@,
            ),
            Activity::ActQueryPathInfo(package, path, from) => ActivityView::ActQueryPathInfo(
                package@,
                path@,
                from@,
            ),
            Activity::ActPostBuildHook(path) => ActivityView::ActPostBuildHook(path@),
            Activity::ActBuildWaiting => ActivityView::ActBuildWaiting,
        }
    }
}

impl ActivityView {
    /// The store path that the activity works on, where its kind has one.
    pub open spec fn store_path(self) -> Option<Seq<char>> {
        match self {
            ActivityView::ActCopyPath(_, path, _, _) => Some(path),
            ActivityView::ActBuild(_, path, _, _, _) => Some(path),
            ActivityView::ActSubstitute(_, path, _) => Some(path),
            ActivityView::ActQueryPathInfo(_, path, _) => Some(path),
            ActivityView::ActPostBuildHook(path) => Some(path),
            _ => None,
        }
    }

    /// The package name that the activity carries, where its kind has one.
    pub open spec fn package(self) -> Option<Seq<char>> {
        match self {
            ActivityView::ActCopyPath(package, _, _, _) => Some(package),
            ActivityView::ActBuild(package, _, _, _, _) => Some(package),
            ActivityView::ActSubstitute(package, _, _) => Some(package),
            ActivityView::ActQueryPathInfo(package, _, _) => Some(package),
            _ => None,
        }
    }
}

impl Activity {
    /// The store path that the activity works on, where its kind has one.
    pub fn store_path(&self) -> (out: Option<String>)
        ensures
            text_view(out) == self@.store_path(),
    {
        match self {
            Activity::ActCopyPath(_, path, _, _) => Some(path.clone()),
            Activity::ActBuild(_, path, _, _, _) => Some(path.clone()),
            Activity::ActSubstitute(_, path, _) => Some(path.clone()),
            Activity::ActQueryPathInfo(_, path, _) => Some(path.clone()),
            Activity::ActPostBuildHook(path) => Some(path.clone()),
            _ => None,
        }
    }

    /// The package name that the activity carries, where its kind has one.
    pub fn package_name(&self) -> (out: Option<String>)
        ensures
            text_view(out) == self@.package(),
    {
        match self {
            Activity::ActCopyPath(package, _, _, _) => Some(package.clone()),
            Activity::ActBuild(package, _, _, _, _) => Some(package.clone()),
            Activity::ActSubstitute(package, _, _) => Some(package.clone()),
            Activity::ActQueryPathInfo(package, _, _) => Some(package.clone()),
            _ => None,
        }
    }
}

/// The model of an [`ActivityResult`].
pub enum ActivityResultView {
    FileLinked(i64, i64),
    BuildLogLine(Seq<char>),
    UntrustedPath(Seq<char>),
    CorruptedPath(Seq<char>),
    SetPhase(Seq<char>),
    Progress(ActivityProgress),
    SetExpected(ActivityType, i64),
    PostBuildLogLine(Seq<char>),
}

impl View for ActivityResult {
    type V = ActivityResultView;

    open spec fn view(&self) -> ActivityResultView {
        match self {
            ActivityResult::FileLinked(a, b) => ActivityResultView::FileLinked(*a, *b),
            ActivityResult::BuildLogLine(text) => ActivityResultView::BuildLogLine(text@),
            ActivityResult::UntrustedPath(path) => ActivityResultView::UntrustedPath(path@),
            ActivityResult::CorruptedPath(path) => ActivityResultView::CorruptedPath(path@),
            ActivityResult::SetPhase(name) => ActivityResultView::SetPhase(name@),
            ActivityResult::Progress(progress) => ActivityResultView::Progress(*progress),
            ActivityResult::SetExpected(kind, count) => ActivityResultView::SetExpected(
                *kind,
                *count,
            ),
            ActivityResult::PostBuildLogLine(text) => ActivityResultView::PostBuildLogLine(text@),
        }
    }
}

/// The model of a [`JSONMessage`].
pub enum MessageView {
    Stop { id: i64 },
    Start { id: i64, level: Verbosity, text: Seq<char>, activity: ActivityView },
    Result { id: i64, result: ActivityResultView },
    Message { level: Verbosity, msg: Seq<char> },
}

impl View for JSONMessage {
    type V = MessageView;

    open spec fn view(&self) -> MessageView {
        match self {
            JSONMessage::Stop(stop) => MessageView::Stop { id: stop.id },
            JSONMessage::Start(start) => MessageView::Start {
                id: start.id,
                level: start.level,
                text: start.text@,
                activity: start.activity@,
            },
            JSONMessage::Result(result) => MessageView::Result {
                id: result.id,
                result: result.result@,
            },
            JSONMessage::Message(message) => MessageView::Message {
                level: message.level,
                msg: message.msg@,
            },
        }
    }
}

impl MessageView {
    /// The id of the activity that the message is about; -1 for a message
    /// that belongs to none.
    pub open spec fn activity_id(self) -> i64 {
        match self {
            MessageView::Stop { id } => id,
            MessageView::Start { id, .. } => id,
            MessageView::Result { id, .. } => id,
            MessageView::Message { .. } => -1i64,
        }
    }
}

/// The model of a message that may be missing.
pub open spec fn message_view(message: Option<JSONMessage>) -> Option<MessageView> {
    match message {
        Some(message) => Some(message@),
        None => None,
    }
}

/// The model of what decoding a line gave.
pub open spec fn decoded_view(decoded: Result<JSONMessage, DecodeError>) -> Result<
    MessageView,
    DecodeError,
> {
    match decoded {
        Ok(message) => Ok(message@),
        Err(error) => Err(error),
    }
}

} // verus!
