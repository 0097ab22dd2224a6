//! Applying a message to the state of the run.
//!
//! A message changes the state, or gives a line for the console, or refers
//! to an activity that never started. [`step`] says which, as a function of
//! the state, the message and the time; [`process_log_at`] computes it.

use crate::nix_logs::text::{chars_of, contains, contains_text, text_view, texts_view};
use crate::nix_logs::types::{
    message_view, ActivityResult, ActivityResultView, ActivityView, JSONMessage, MessageView,
    Verbosity,
};
use crate::nix_tracker::clock::now;
use crate::nix_tracker::types::{
    lemma_state_view, ActivityState, ActivityStateView, CommandState, CommandStateView,
};
use std::time::SystemTime;
use vstd::prelude::*;

verus! {

/// How severe the console is to treat a line.
#[derive(Debug, PartialEq, Eq, Structural, Clone, Copy)]
pub enum LogLevel {
    Error,
    Warn,
    Info,
    Debug,
    Trace,
}

/// A line for the console.
#[derive(Debug, PartialEq, Eq, Clone)]
pub struct ConsoleLine {
    pub level: LogLevel,
    /// The package that the line belongs to, where one is known.
    pub package: Option<String>,
    pub text: String,
}

/// The model of a [`ConsoleLine`].
pub struct ConsoleLineView {
    pub level: LogLevel,
    pub package: Option<Seq<char>>,
    pub text: Seq<char>,
}

impl View for ConsoleLine {
    type V = ConsoleLineView;

    open spec fn view(&self) -> ConsoleLineView {
        ConsoleLineView { level: self.level, package: text_view(self.package), text: self.text@ }
    }
}

/// What is left to do once a message has been applied.
#[derive(Debug, PartialEq, Eq, Clone)]
pub enum Outcome {
    /// Nothing.
    Silent,
    /// A line is to be shown.
    Console(ConsoleLine),
    /// The message was for an activity that never started; the state is as
    /// it was.
    Dangling(i64),
}

/// The model of an [`Outcome`].
pub enum OutcomeView {
    Silent,
    Console(ConsoleLineView),
    Dangling(i64),
}

impl View for Outcome {
    type V = OutcomeView;

    open spec fn view(&self) -> OutcomeView {
        match self {
            Outcome::Silent => OutcomeView::Silent,
            Outcome::Console(line) => OutcomeView::Console(line@),
            Outcome::Dangling(id) => OutcomeView::Dangling(*id),
        }
    }
}

/// The text of `text` once `strip_ansi_escapes::strip_str` has taken the
/// escape sequences of a terminal out of it.
pub uninterp spec fn ansi_stripped(text: Seq<char>) -> Seq<char>;

/// Calls `strip_ansi_escapes::strip_str`, which never fails on a string and
/// whose result depends on the text alone.
#[verifier::external_body]
fn strip_ansi(text: &str) -> (out: String)
    ensures
        out@ == ansi_stripped(text@),
{
    strip_ansi_escapes::strip_str(text)
}

/// The word that marks a line as an error.
pub open spec fn error_word() -> Seq<char> {
    seq!['e', 'r', 'r', 'o', 'r']
}

/// The word that marks a line as a warning.
pub open spec fn warning_word() -> Seq<char> {
    seq!['w', 'a', 'r', 'n', 'i', 'n', 'g']
}

/// The level of a line of build output: an error where it holds the word
/// `error`, else a warning where it holds the word `warning`, else plain.
pub open spec fn line_level(text: Seq<char>) -> LogLevel {
    if contains_text(text, error_word()) {
        LogLevel::Error
    } else if contains_text(text, warning_word()) {
        LogLevel::Warn
    } else {
        LogLevel::Info
    }
}

/// The level of the console for a message of the build tool.
pub open spec fn message_level(level: Verbosity) -> LogLevel {
    match level {
        Verbosity::Error => LogLevel::Error,
        Verbosity::Warn => LogLevel::Warn,
        Verbosity::Notice => LogLevel::Warn,
        Verbosity::Info => LogLevel::Info,
        _ => LogLevel::Trace,
    }
}

/// The package name to put before a line for activity `id`: the name that
/// the activity has, unless it has none or an empty one.
pub open spec fn package_at(state: CommandStateView, id: i64) -> Option<Seq<char>> {
    if state.activity.contains_key(id) {
        match state.activity[id].package_name {
            Some(name) => if name.len() > 0 {
                Some(name)
            } else {
                None
            },
            None => None,
        }
    } else {
        None
    }
}

/// The list `paths` with `path` in it: at the end, unless it is there already.
pub open spec fn with_path(paths: Seq<Seq<char>>, path: Seq<char>) -> Seq<Seq<char>> {
    if paths.contains(path) {
        paths
    } else {
        paths.push(path)
    }
}

/// The state once activity `id` has started at `now`. An earlier activity of
/// that id is forgotten.
pub open spec fn started(
    state: CommandStateView,
    id: i64,
    activity: ActivityView,
    now: SystemTime,
) -> CommandStateView {
    CommandStateView {
        activity: state.activity.insert(
            id,
            ActivityStateView {
                activity,
                start: now,
                end: None,
                phase: None,
                progress: None,
                package_name: activity.package(),
            },
        ),
        required_derivations: match activity.store_path() {
            Some(path) => with_path(state.required_derivations, path),
            None => state.required_derivations,
        },
        ..state
    }
}

/// The state once activity `id`, which is in it, has got the record `next`.
pub open spec fn updated(state: CommandStateView, id: i64, next: ActivityStateView) -> CommandStateView {
    CommandStateView { activity: state.activity.insert(id, next), ..state }
}

/// The line for a piece of build output of activity `id`.
pub open spec fn output_line(state: CommandStateView, id: i64, text: Seq<char>) -> ConsoleLineView {
    let shown = ansi_stripped(text);
    ConsoleLineView { level: line_level(shown), package: package_at(state, id), text: shown }
}

/// What the result `result` for activity `id` does to the state, and what
/// is left to do.
pub open spec fn step_result(
    state: CommandStateView,
    id: i64,
    result: ActivityResultView,
) -> (CommandStateView, OutcomeView) {
    match result {
        ActivityResultView::SetPhase(name) => if state.activity.contains_key(id) {
            (
                updated(state, id, ActivityStateView { phase: Some(name), ..state.activity[id] }),
                OutcomeView::Silent,
            )
        } else {
            (state, OutcomeView::Dangling(id))
        },
        ActivityResultView::Progress(progress) => if state.activity.contains_key(id) {
            (
                updated(
                    state,
                    id,
                    ActivityStateView { progress: Some(progress), ..state.activity[id] },
                ),
                OutcomeView::Silent,
            )
        } else {
            (state, OutcomeView::Dangling(id))
        },
        ActivityResultView::BuildLogLine(text) => (
            state,
            OutcomeView::Console(output_line(state, id, text)),
        ),
        ActivityResultView::PostBuildLogLine(text) => (
            state,
            OutcomeView::Console(output_line(state, id, text)),
        ),
        ActivityResultView::UntrustedPath(path) => (
            state,
            OutcomeView::Console(
                ConsoleLineView {
                    level: LogLevel::Warn,
                    package: package_at(state, id),
                    text: path,
                },
            ),
        ),
        ActivityResultView::CorruptedPath(path) => (
            state,
            OutcomeView::Console(
                ConsoleLineView {
                    level: LogLevel::Error,
                    package: package_at(state, id),
                    text: path,
                },
            ),
        ),
        ActivityResultView::FileLinked(..) => (state, OutcomeView::Silent),
        ActivityResultView::SetExpected(..) => (state, OutcomeView::Silent),
    }
}

/// What a message does to the state at `now`, and what is left to do.
///
/// `context` is the id of the activity in whose name a message without an id
/// speaks; it decides nothing but the package name before such a message.
pub open spec fn step(
    state: CommandStateView,
    context: i64,
    message: Option<MessageView>,
    now: SystemTime,
) -> (CommandStateView, OutcomeView) {
    match message {
        None => (state, OutcomeView::Silent),
        Some(MessageView::Start { id, activity, .. }) => (
            started(state, id, activity, now),
            OutcomeView::Silent,
        ),
        Some(MessageView::Stop { id }) => if state.activity.contains_key(id) {
            (
                updated(state, id, ActivityStateView { end: Some(now), ..state.activity[id] }),
                OutcomeView::Silent,
            )
        } else {
            (state, OutcomeView::Dangling(id))
        },
        Some(MessageView::Result { id, result }) => step_result(state, id, result),
        Some(MessageView::Message { level, msg }) => (
            state,
            OutcomeView::Console(
                ConsoleLineView {
                    level: message_level(level),
                    package: package_at(state, context),
                    text: ansi_stripped(msg),
                },
            ),
        ),
    }
}

/// Listing a path keeps a list free of duplicates, and the path is in it.
pub proof fn lemma_with_path(paths: Seq<Seq<char>>, path: Seq<char>)
    ensures
        with_path(paths, path).contains(path),
        paths.no_duplicates() ==> with_path(paths, path).no_duplicates(),
        forall|other: Seq<char>| paths.contains(other) ==> with_path(paths, path).contains(other),
{
    if paths.contains(path) {
    } else {
        let next = paths.push(path);
        assert(next[paths.len() as int] == path);
        assert forall|other: Seq<char>| paths.contains(other) implies next.contains(other) by {
            let i = choose|i: int| 0 <= i < paths.len() && paths[i] == other;
            assert(next[i] == other);
        }
        if paths.no_duplicates() {
            assert forall|i: int, j: int|
                0 <= i < next.len() && 0 <= j < next.len() && i != j implies next[i] != next[j] by {
                if i == paths.len() {
                    assert(paths[j] == next[j]);
                } else if j == paths.len() {
                    assert(paths[i] == next[i]);
                }
            }
        }
    }
}

/// The level of a line of build output from which the escape sequences
/// have been taken.
pub fn level_of_line(shown: &str) -> (out: LogLevel)
    ensures
        out == line_level(shown@),
{
    let text = chars_of(shown);
    let error: Vec<char> = vec!['e', 'r', 'r', 'o', 'r'];
    let warning: Vec<char> = vec!['w', 'a', 'r', 'n', 'i', 'n', 'g'];
    assert(error@ =~= error_word());
    assert(warning@ =~= warning_word());
    if contains(&text, &error) {
        LogLevel::Error
    } else if contains(&text, &warning) {
        LogLevel::Warn
    } else {
        LogLevel::Info
    }
}

/// The level of the console for a message of the build tool.
pub fn level_of_message(level: Verbosity) -> (out: LogLevel)
    ensures
        out == message_level(level),
{
    match level {
        Verbosity::Error => LogLevel::Error,
        Verbosity::Warn => LogLevel::Warn,
        Verbosity::Notice => LogLevel::Warn,
        Verbosity::Info => LogLevel::Info,
        _ => LogLevel::Trace,
    }
}

/// The package name to put before a line for activity `id`.
pub fn package_for(state: &CommandState, id: i64) -> (out: Option<String>)
    ensures
        text_view(out) == package_at(state@, id),
{
    match state.activity.get(&id) {
        Some(entry) => {
            assert(state@.activity[id] == entry@);
            match &entry.package_name {
                Some(name) => if name.as_str().is_empty() {
                    None
                } else {
                    Some(name.clone())
                },
                None => None,
            }
        },
        None => None,
    }
}

/// Lists `path` in `paths`, unless it is there already.
pub fn remember_path(paths: &mut Vec<String>, path: String)
    ensures
        texts_view(final(paths)@) == with_path(texts_view(old(paths)@), path@),
{
    let mut i: usize = 0;
    while i < paths.len()
        invariant
            i <= paths.len(),
            *paths == *old(paths),
            forall|j: int| 0 <= j < i ==> texts_view(paths@)[j] != path@,
        decreases paths.len() - i,
    {
        if paths[i] == path {
            assert(texts_view(paths@)[i as int] == path@);
            return ;
        }
        i += 1;
    }
    paths.push(path);
    assert(texts_view(paths@) =~= texts_view(old(paths)@).push(path@));
}

/// Applies a message to the state, with `now` as the time of the message.
///
/// A start enters its activity under its id, in place of an earlier one, and
/// lists its store path. A stop, a phase and a progress change the record of
/// their activity; where there is none, the state stays as it is and the
/// outcome says so. Output and messages give a line for the console.
pub fn process_log_at(
    id: i64,
    opt_msg: Option<JSONMessage>,
    state: &mut CommandState,
    now: SystemTime,
) -> (out: Outcome)
    ensures
        (final(state)@, out@) == step(old(state)@, id, message_view(opt_msg), now),
        old(state)@.wf() ==> final(state)@.wf(),
        match message_view(opt_msg) {
            Some(MessageView::Start { activity, .. }) => match activity.store_path() {
                Some(path) => final(state)@.required_derivations.contains(path),
                None => true,
            },
            Some(MessageView::Stop { id: stopped }) => !old(state)@.activity.contains_key(stopped)
                ==> final(state)@ == old(state)@,
            _ => true,
        },
        forall|path: Seq<char>|
            old(state)@.required_derivations.contains(path)
                ==> final(state)@.required_derivations.contains(path),
{
    proof {
        lemma_state_view(*state);
    }
    match opt_msg {
        None => Outcome::Silent,
        Some(JSONMessage::Start(start)) => {
            let package_name = start.activity.package_name();
            let store_path = start.activity.store_path();
            proof {
                if let Some(path) = start.activity@.store_path() {
                    lemma_with_path(old(state)@.required_derivations, path);
                }
            }
            let entry = ActivityState {
                activity: start.activity,
                start: now,
                end: None,
                phase: None,
                progress: None,
                package_name,
            };
            state.activity.insert(start.id, entry);
            if let Some(path) = store_path {
                remember_path(&mut state.required_derivations, path);
            }
            proof {
                lemma_state_view(*state);
                assert(state@.activity =~= old(state)@.activity.insert(start.id, entry@));
            }
            Outcome::Silent
        },
        Some(JSONMessage::Stop(stop)) => {
            match state.activity.remove(&stop.id) {
                Some(mut entry) => {
                    entry.end = Some(now);
                    state.activity.insert(stop.id, entry);
                    proof {
                        lemma_state_view(*state);
                        assert(state@.activity =~= old(state)@.activity.insert(stop.id, entry@));
                    }
                    Outcome::Silent
                },
                None => {
                    proof {
                        lemma_state_view(*state);
                        assert(state.activity@ =~= old(state).activity@);
                    }
                    Outcome::Dangling(stop.id)
                },
            }
        },
        Some(JSONMessage::Result(result)) => {
            let target = result.id;
            match result.result {
                ActivityResult::SetPhase(name) => {
                    match state.activity.remove(&target) {
                        Some(mut entry) => {
                            entry.phase = Some(name);
                            state.activity.insert(target, entry);
                            proof {
                                lemma_state_view(*state);
                                assert(state@.activity =~= old(state)@.activity.insert(
                                    target,
                                    entry@,
                                ));
                            }
                            Outcome::Silent
                        },
                        None => {
                            proof {
                                lemma_state_view(*state);
                                assert(state.activity@ =~= old(state).activity@);
                            }
                            Outcome::Dangling(target)
                        },
                    }
                },
                ActivityResult::Progress(progress) => {
                    match state.activity.remove(&target) {
                        Some(mut entry) => {
                            entry.progress = Some(progress);
                            state.activity.insert(target, entry);
                            proof {
                                lemma_state_view(*state);
                                assert(state@.activity =~= old(state)@.activity.insert(
                                    target,
                                    entry@,
                                ));
                            }
                            Outcome::Silent
                        },
                        None => {
                            proof {
                                lemma_state_view(*state);
                                assert(state.activity@ =~= old(state).activity@);
                            }
                            Outcome::Dangling(target)
                        },
                    }
                },
                ActivityResult::BuildLogLine(text) => {
                    let shown = strip_ansi(text.as_str());
                    Outcome::Console(output_for(package_for(state, target), shown))
                },
                ActivityResult::PostBuildLogLine(text) => {
                    let shown = strip_ansi(text.as_str());
                    Outcome::Console(output_for(package_for(state, target), shown))
                },
                ActivityResult::UntrustedPath(path) => Outcome::Console(
                    ConsoleLine {
                        level: LogLevel::Warn,
                        package: package_for(state, target),
                        text: path,
                    },
                ),
                ActivityResult::CorruptedPath(path) => Outcome::Console(
                    ConsoleLine {
                        level: LogLevel::Error,
                        package: package_for(state, target),
                        text: path,
                    },
                ),
                ActivityResult::FileLinked(..) => Outcome::Silent,
                ActivityResult::SetExpected(..) => Outcome::Silent,
            }
        },
        Some(JSONMessage::Message(message)) => {
            let shown = strip_ansi(message.msg.as_str());
            Outcome::Console(
                ConsoleLine {
                    level: level_of_message(message.level),
                    package: package_for(state, id),
                    text: shown,
                },
            )
        },
    }
}

/// The line for a piece of build output, from the package name to put
/// before it and the text without its escape sequences.
pub fn output_for(package: Option<String>, shown: String) -> (out: ConsoleLine)
    ensures
        out@ == (ConsoleLineView {
            level: line_level(shown@),
            package: text_view(package),
            text: shown@,
        }),
{
    let level = level_of_line(shown.as_str());
    ConsoleLine { level, package, text: shown }
}

/// Applies a message to the state, with the time that the clock shows.
///
/// The outcome and the new state are those of [`process_log_at`] for some
/// point in time.
pub fn process_log(id: i64, opt_msg: Option<JSONMessage>, state: &mut CommandState) -> (out:
    Outcome)
    ensures
        exists|now: SystemTime|
            (final(state)@, out@) == step(old(state)@, id, message_view(opt_msg), now),
        old(state)@.wf() ==> final(state)@.wf(),
        match message_view(opt_msg) {
            Some(MessageView::Start { activity, .. }) => match activity.store_path() {
                Some(path) => final(state)@.required_derivations.contains(path),
                None => true,
            },
            Some(MessageView::Stop { id: stopped }) => !old(state)@.activity.contains_key(stopped)
                ==> final(state)@ == old(state)@,
            _ => true,
        },
        forall|path: Seq<char>|
            old(state)@.required_derivations.contains(path)
                ==> final(state)@.required_derivations.contains(path),
{
    let time = now();
    process_log_at(id, opt_msg, state, time)
}

} // verus!
