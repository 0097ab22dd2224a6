//! The state that the messages of one run build up.

use crate::nix_logs::text::{text_view, texts_view};
use crate::nix_logs::types::{Activity, ActivityProgress, ActivityView};
use crate::nix_tracker::clock::now;
use crate::nix_tracker::order::{ids_in_order, lemma_ids_in_order, sorted_ids};
use std::collections::HashMap;
use std::time::SystemTime;
use vstd::prelude::*;

verus! {

/// What is known of one activity.
#[derive(Debug, Clone)]
pub struct ActivityState {
    pub activity: Activity,
    pub start: SystemTime,
    /// Set once the activity has stopped.
    pub end: Option<SystemTime>,
    pub phase: Option<String>,
    pub progress: Option<ActivityProgress>,
    pub package_name: Option<String>,
}

/// The model of an [`ActivityState`].
pub struct ActivityStateView {
    pub activity: ActivityView,
    pub start: SystemTime,
    pub end: Option<SystemTime>,
    pub phase: Option<Seq<char>>,
    pub progress: Option<ActivityProgress>,
    pub package_name: Option<Seq<char>>,
}

impl View for ActivityState {
    type V = ActivityStateView;

    open spec fn view(&self) -> ActivityStateView {
        ActivityStateView {
            activity: self.activity@,
            start: self.start,
            end: self.end,
            phase: text_view(self.phase),
            progress: self.progress,
            package_name: text_view(self.package_name),
        }
    }
}

/// The state of one run: its activities by id, and the store paths that
/// the run has asked for, each once, in the order in which they came.
#[derive(Debug)]
pub struct CommandState {
    pub activity: HashMap<i64, ActivityState>,
    pub required_derivations: Vec<String>,
    pub start: SystemTime,
    /// Set once the log has ended.
    pub end: Option<SystemTime>,
}

/// The model of a [`CommandState`].
pub struct CommandStateView {
    pub activity: Map<i64, ActivityStateView>,
    pub required_derivations: Seq<Seq<char>>,
    pub start: SystemTime,
    pub end: Option<SystemTime>,
}

/// The models of the activities of a map.
pub open spec fn activities_view(activities: Map<i64, ActivityState>) -> Map<
    i64,
    ActivityStateView,
> {
    activities.map_values(|state: ActivityState| state@)
}

impl View for CommandState {
    type V = CommandStateView;

    open spec fn view(&self) -> CommandStateView {
        CommandStateView {
            activity: activities_view(self.activity@),
            required_derivations: texts_view(self.required_derivations@),
            start: self.start,
            end: self.end,
        }
    }
}

impl CommandStateView {
    /// The state of a run that starts at `now`.
    pub open spec fn empty(now: SystemTime) -> CommandStateView {
        CommandStateView {
            activity: Map::empty(),
            required_derivations: Seq::empty(),
            start: now,
            end: None,
        }
    }

    /// No store path is listed twice.
    pub open spec fn wf(self) -> bool {
        self.required_derivations.no_duplicates()
    }
}

impl CommandState {
    /// The state of a run that starts now.
    pub fn new() -> (out: CommandState)
        ensures
            out@ == CommandStateView::empty(out.start),
            out@.wf(),
    {
        CommandState::new_at(now())
    }

    /// The state of a run that starts at `now`.
    pub fn new_at(now: SystemTime) -> (out: CommandState)
        ensures
            out@ == CommandStateView::empty(now),
            out@.wf(),
    {
        let out = CommandState {
            activity: HashMap::new(),
            required_derivations: Vec::new(),
            start: now,
            end: None,
        };
        assert(out@.activity =~= Map::empty());
        assert(out@.required_derivations =~= Seq::empty());
        out
    }
}

/// The time at which an activity counts as ended: its end where it has
/// stopped, and `now` where it is still open.
pub open spec fn end_or(end: Option<SystemTime>, now: SystemTime) -> SystemTime {
    match end {
        Some(end) => end,
        None => now,
    }
}

/// The models of a list of records.
pub open spec fn views_of<T: View>(records: Seq<T>) -> Seq<T::V> {
    records.map_values(|record: T| record@)
}

/// The record of an activity of unknown kind.
#[derive(Debug, PartialEq, Eq, Clone)]
pub struct JSONActUnknown {
    pub start: SystemTime,
    pub end: SystemTime,
}

/// The record of an activity, where it is an activity of unknown kind.
pub open spec fn unknown_record(state: ActivityStateView, now: SystemTime) -> Option<JSONActUnknown> {
    match state.activity {
        ActivityView::ActUnknown => Some(JSONActUnknown { start: state.start, end: end_or(state.end, now) }),
        _ => None,
    }
}

/// For an id, the record of its activity in `activity`, where it is an activity of unknown kind.
pub open spec fn unknown_at(activity: Map<i64, ActivityStateView>, now: SystemTime) -> spec_fn(
    i64,
) -> Option<JSONActUnknown> {
    |id: i64| unknown_record(activity[id], now)
}

/// The record of the copy of a path.
#[derive(Debug, PartialEq, Eq, Clone)]
pub struct JSONActCopyPath {
    pub package_name: String,
    pub store_path: String,
    pub from: String,
    pub to: String,
    pub start: SystemTime,
    pub end: SystemTime,
}

/// The model of a [`JSONActCopyPath`].
pub struct JSONActCopyPathView {
    pub package_name: Seq<char>,
    pub store_path: Seq<char>,
    pub from: Seq<char>,
    pub to: Seq<char>,
    pub start: SystemTime,
    pub end: SystemTime,
}

impl View for JSONActCopyPath {
    type V = JSONActCopyPathView;

    open spec fn view(&self) -> JSONActCopyPathView {
        JSONActCopyPathView {
            package_name: self.package_name@,
            store_path: self.store_path@,
            from: self.from@,
            to: self.to@,
            start: self.start,
            end: self.end,
        }
    }
}

/// The record of an activity, where it is the copy of a path.
pub open spec fn copy_path_record(state: ActivityStateView, now: SystemTime) -> Option<
    JSONActCopyPathView,
> {
    match state.activity {
        ActivityView::ActCopyPath(package_name, store_path, from, to) => Some(
            JSONActCopyPathView {
                package_name,
                store_path,
                from,
                to,
                start: state.start,
                end: end_or(state.end, now),
            },
        ),
        _ => None,
    }
}

/// For an id, the record of its activity in `activity`, where it is the copy of a path.
pub open spec fn copy_path_at(activity: Map<i64, ActivityStateView>, now: SystemTime) -> spec_fn(
    i64,
) -> Option<JSONActCopyPathView> {
    |id: i64| copy_path_record(activity[id], now)
}

/// The record of the transfer of a file.
#[derive(Debug, PartialEq, Eq, Clone)]
pub struct JSONActFileTransfer {
    pub file: String,
    pub start: SystemTime,
    pub end: SystemTime,
}

/// The model of a [`JSONActFileTransfer`].
pub struct JSONActFileTransferView {
    pub file: Seq<char>,
    pub start: SystemTime,
    pub end: SystemTime,
}

impl View for JSONActFileTransfer {
    type V = JSONActFileTransferView;

    open spec fn view(&self) -> JSONActFileTransferView {
        JSONActFileTransferView {
            file: self.file@,
            start: self.start,
            end: self.end,
        }
    }
}

/// The record of an activity, where it is the transfer of a file.
pub open spec fn file_transfer_record(state: ActivityStateView, now: SystemTime) -> Option<
    JSONActFileTransferView,
> {
    match state.activity {
        ActivityView::ActFileTransfer(file) => Some(
            JSONActFileTransferView {
                file,
                start: state.start,
                end: end_or(state.end, now),
            },
        ),
        _ => None,
    }
}

/// For an id, the record of its activity in `activity`, where it is the transfer of a file.
pub open spec fn file_transfer_at(activity: Map<i64, ActivityStateView>, now: SystemTime) -> spec_fn(
    i64,
) -> Option<JSONActFileTransferView> {
    |id: i64| file_transfer_record(activity[id], now)
}

/// The record of a realisation.
#[derive(Debug, PartialEq, Eq, Clone)]
pub struct JSONActRealise {
    pub start: SystemTime,
    pub end: SystemTime,
}

/// The record of an activity, where it is a realisation.
pub open spec fn realise_record(state: ActivityStateView, now: SystemTime) -> Option<JSONActRealise> {
    match state.activity {
        ActivityView::ActRealise => Some(JSONActRealise { start: state.start, end: end_or(state.end, now) }),
        _ => None,
    }
}

/// For an id, the record of its activity in `activity`, where it is a realisation.
pub open spec fn realise_at(activity: Map<i64, ActivityStateView>, now: SystemTime) -> spec_fn(
    i64,
) -> Option<JSONActRealise> {
    |id: i64| realise_record(activity[id], now)
}

/// The record of a copy of several paths.
#[derive(Debug, PartialEq, Eq, Clone)]
pub struct JSONActCopyPaths {
    pub start: SystemTime,
    pub end: SystemTime,
}

/// The record of an activity, where it is a copy of several paths.
pub open spec fn copy_paths_record(state: ActivityStateView, now: SystemTime) -> Option<JSONActCopyPaths> {
    match state.activity {
        ActivityView::ActCopyPaths => Some(JSONActCopyPaths { start: state.start, end: end_or(state.end, now) }),
        _ => None,
    }
}

/// For an id, the record of its activity in `activity`, where it is a copy of several paths.
pub open spec fn copy_paths_at(activity: Map<i64, ActivityStateView>, now: SystemTime) -> spec_fn(
    i64,
) -> Option<JSONActCopyPaths> {
    |id: i64| copy_paths_record(activity[id], now)
}

/// The record of a group of builds.
#[derive(Debug, PartialEq, Eq, Clone)]
pub struct JSONActBuilds {
    pub start: SystemTime,
    pub end: SystemTime,
}

/// The record of an activity, where it is a group of builds.
pub open spec fn builds_record(state: ActivityStateView, now: SystemTime) -> Option<JSONActBuilds> {
    match state.activity {
        ActivityView::ActBuilds => Some(JSONActBuilds { start: state.start, end: end_or(state.end, now) }),
        _ => None,
    }
}

/// For an id, the record of its activity in `activity`, where it is a group of builds.
pub open spec fn builds_at(activity: Map<i64, ActivityStateView>, now: SystemTime) -> spec_fn(
    i64,
) -> Option<JSONActBuilds> {
    |id: i64| builds_record(activity[id], now)
}

/// The record of a build.
#[derive(Debug, PartialEq, Eq, Clone)]
pub struct JSONActBuild {
    pub package_name: String,
    pub store_path: String,
    pub host: String,
    pub start: SystemTime,
    pub end: SystemTime,
}

/// The model of a [`JSONActBuild`].
pub struct JSONActBuildView {
    pub package_name: Seq<char>,
    pub store_path: Seq<char>,
    pub host: Seq<char>,
    pub start: SystemTime,
    pub end: SystemTime,
}

impl View for JSONActBuild {
    type V = JSONActBuildView;

    open spec fn view(&self) -> JSONActBuildView {
        JSONActBuildView {
            package_name: self.package_name@,
            store_path: self.store_path@,
            host: self.host@,
            start: self.start,
            end: self.end,
        }
    }
}

/// The record of an activity, where it is a build.
pub open spec fn build_record(state: ActivityStateView, now: SystemTime) -> Option<
    JSONActBuildView,
> {
    match state.activity {
        ActivityView::ActBuild(package_name, store_path, host, _, _) => Some(
            JSONActBuildView {
                package_name,
                store_path,
                host,
                start: state.start,
                end: end_or(state.end, now),
            },
        ),
        _ => None,
    }
}

/// For an id, the record of its activity in `activity`, where it is a build.
pub open spec fn build_at(activity: Map<i64, ActivityStateView>, now: SystemTime) -> spec_fn(
    i64,
) -> Option<JSONActBuildView> {
    |id: i64| build_record(activity[id], now)
}

/// The record of an optimisation of the store.
#[derive(Debug, PartialEq, Eq, Clone)]
pub struct JSONActOptimiseStore {
    pub start: SystemTime,
    pub end: SystemTime,
}

/// The record of an activity, where it is an optimisation of the store.
pub open spec fn optimise_store_record(state: ActivityStateView, now: SystemTime) -> Option<JSONActOptimiseStore> {
    match state.activity {
        ActivityView::ActOptimiseStore => Some(JSONActOptimiseStore { start: state.start, end: end_or(state.end, now) }),
        _ => None,
    }
}

/// For an id, the record of its activity in `activity`, where it is an optimisation of the store.
pub open spec fn optimise_store_at(activity: Map<i64, ActivityStateView>, now: SystemTime) -> spec_fn(
    i64,
) -> Option<JSONActOptimiseStore> {
    |id: i64| optimise_store_record(activity[id], now)
}

/// The record of a verification of paths.
#[derive(Debug, PartialEq, Eq, Clone)]
pub struct JSONActVerifyPaths {
    pub start: SystemTime,
    pub end: SystemTime,
}

/// The record of an activity, where it is a verification of paths.
pub open spec fn verify_paths_record(state: ActivityStateView, now: SystemTime) -> Option<JSONActVerifyPaths> {
    match state.activity {
        ActivityView::ActVerifyPaths => Some(JSONActVerifyPaths { start: state.start, end: end_or(state.end, now) }),
        _ => None,
    }
}

/// For an id, the record of its activity in `activity`, where it is a verification of paths.
pub open spec fn verify_paths_at(activity: Map<i64, ActivityStateView>, now: SystemTime) -> spec_fn(
    i64,
) -> Option<JSONActVerifyPaths> {
    |id: i64| verify_paths_record(activity[id], now)
}

/// The record of a substitution.
#[derive(Debug, PartialEq, Eq, Clone)]
pub struct JSONActSubstitute {
    pub package_name: String,
    pub store_path: String,
    pub from: String,
    pub start: SystemTime,
    pub end: SystemTime,
}

/// The model of a [`JSONActSubstitute`].
pub struct JSONActSubstituteView {
    pub package_name: Seq<char>,
    pub store_path: Seq<char>,
    pub from: Seq<char>,
    pub start: SystemTime,
    pub end: SystemTime,
}

impl View for JSONActSubstitute {
    type V = JSONActSubstituteView;

    open spec fn view(&self) -> JSONActSubstituteView {
        JSONActSubstituteView {
            package_name: self.package_name@,
            store_path: self.store_path@,
            from: self.from@,
            start: self.start,
            end: self.end,
        }
    }
}

/// The record of an activity, where it is a substitution.
pub open spec fn substitute_record(state: ActivityStateView, now: SystemTime) -> Option<
    JSONActSubstituteView,
> {
    match state.activity {
        ActivityView::ActSubstitute(package_name, store_path, from) => Some(
            JSONActSubstituteView {
                package_name,
                store_path,
                from,
                start: state.start,
                end: end_or(state.end, now),
            },
        ),
        _ => None,
    }
}

/// For an id, the record of its activity in `activity`, where it is a substitution.
pub open spec fn substitute_at(activity: Map<i64, ActivityStateView>, now: SystemTime) -> spec_fn(
    i64,
) -> Option<JSONActSubstituteView> {
    |id: i64| substitute_record(activity[id], now)
}

/// The record of a query for the facts of a path.
#[derive(Debug, PartialEq, Eq, Clone)]
pub struct JSONActQueryPathInfo {
    pub package_name: String,
    pub store_path: String,
    pub from: String,
    pub start: SystemTime,
    pub end: SystemTime,
}

/// The model of a [`JSONActQueryPathInfo`].
pub struct JSONActQueryPathInfoView {
    pub package_name: Seq<char>,
    pub store_path: Seq<char>,
    pub from: Seq<char>,
    pub start: SystemTime,
    pub end: SystemTime,
}

impl View for JSONActQueryPathInfo {
    type V = JSONActQueryPathInfoView;

    open spec fn view(&self) -> JSONActQueryPathInfoView {
        JSONActQueryPathInfoView {
            package_name: self.package_name@,
            store_path: self.store_path@,
            from: self.from@,
            start: self.start,
            end: self.end,
        }
    }
}

/// The record of an activity, where it is a query for the facts of a path.
pub open spec fn query_path_info_record(state: ActivityStateView, now: SystemTime) -> Option<
    JSONActQueryPathInfoView,
> {
    match state.activity {
        ActivityView::ActQueryPathInfo(package_name, store_path, from) => Some(
            JSONActQueryPathInfoView {
                package_name,
                store_path,
                from,
                start: state.start,
                end: end_or(state.end, now),
            },
        ),
        _ => None,
    }
}

/// For an id, the record of its activity in `activity`, where it is a query for the facts of a path.
pub open spec fn query_path_info_at(activity: Map<i64, ActivityStateView>, now: SystemTime) -> spec_fn(
    i64,
) -> Option<JSONActQueryPathInfoView> {
    |id: i64| query_path_info_record(activity[id], now)
}

/// The record of the hook that runs after a build.
#[derive(Debug, PartialEq, Eq, Clone)]
pub struct JSONActPostBuildHook {
    pub store_path: String,
    pub start: SystemTime,
    pub end: SystemTime,
}

/// The model of a [`JSONActPostBuildHook`].
pub struct JSONActPostBuildHookView {
    pub store_path: Seq<char>,
    pub start: SystemTime,
    pub end: SystemTime,
}

impl View for JSONActPostBuildHook {
    type V = JSONActPostBuildHookView;

    open spec fn view(&self) -> JSONActPostBuildHookView {
        JSONActPostBuildHookView {
            store_path: self.store_path@,
            start: self.start,
            end: self.end,
        }
    }
}

/// The record of an activity, where it is the hook that runs after a build.
pub open spec fn post_build_hook_record(state: ActivityStateView, now: SystemTime) -> Option<
    JSONActPostBuildHookView,
> {
    match state.activity {
        ActivityView::ActPostBuildHook(store_path) => Some(
            JSONActPostBuildHookView {
                store_path,
                start: state.start,
                end: end_or(state.end, now),
            },
        ),
        _ => None,
    }
}

/// For an id, the record of its activity in `activity`, where it is the hook that runs after a build.
pub open spec fn post_build_hook_at(activity: Map<i64, ActivityStateView>, now: SystemTime) -> spec_fn(
    i64,
) -> Option<JSONActPostBuildHookView> {
    |id: i64| post_build_hook_record(activity[id], now)
}

/// The record of a build that waits.
#[derive(Debug, PartialEq, Eq, Clone)]
pub struct JSONActBuildWaiting {
    pub start: SystemTime,
    pub end: SystemTime,
}

/// The record of an activity, where it is a build that waits.
pub open spec fn build_waiting_record(state: ActivityStateView, now: SystemTime) -> Option<JSONActBuildWaiting> {
    match state.activity {
        ActivityView::ActBuildWaiting => Some(JSONActBuildWaiting { start: state.start, end: end_or(state.end, now) }),
        _ => None,
    }
}

/// For an id, the record of its activity in `activity`, where it is a build that waits.
pub open spec fn build_waiting_at(activity: Map<i64, ActivityStateView>, now: SystemTime) -> spec_fn(
    i64,
) -> Option<JSONActBuildWaiting> {
    |id: i64| build_waiting_record(activity[id], now)
}

/// The report of a run: the records of its activities, one list for each
/// kind, each list by ascending id.
#[derive(Debug, PartialEq, Eq, Clone)]
pub struct JSONCommandState {
    pub act_unknown: Vec<JSONActUnknown>,
    pub act_copy_path: Vec<JSONActCopyPath>,
    pub act_file_transfer: Vec<JSONActFileTransfer>,
    pub act_realise: Vec<JSONActRealise>,
    pub act_copy_paths: Vec<JSONActCopyPaths>,
    pub act_builds: Vec<JSONActBuilds>,
    pub act_build: Vec<JSONActBuild>,
    pub act_optimise_store: Vec<JSONActOptimiseStore>,
    pub act_verify_paths: Vec<JSONActVerifyPaths>,
    pub act_substitute: Vec<JSONActSubstitute>,
    pub act_query_path_info: Vec<JSONActQueryPathInfo>,
    pub act_post_build_hook: Vec<JSONActPostBuildHook>,
    pub act_build_waiting: Vec<JSONActBuildWaiting>,
    pub start: SystemTime,
    pub end: SystemTime,
    pub required_derivations: Vec<String>,
}

/// The model of a [`JSONCommandState`].
pub struct ReportView {
    pub act_unknown: Seq<JSONActUnknown>,
    pub act_copy_path: Seq<JSONActCopyPathView>,
    pub act_file_transfer: Seq<JSONActFileTransferView>,
    pub act_realise: Seq<JSONActRealise>,
    pub act_copy_paths: Seq<JSONActCopyPaths>,
    pub act_builds: Seq<JSONActBuilds>,
    pub act_build: Seq<JSONActBuildView>,
    pub act_optimise_store: Seq<JSONActOptimiseStore>,
    pub act_verify_paths: Seq<JSONActVerifyPaths>,
    pub act_substitute: Seq<JSONActSubstituteView>,
    pub act_query_path_info: Seq<JSONActQueryPathInfoView>,
    pub act_post_build_hook: Seq<JSONActPostBuildHookView>,
    pub act_build_waiting: Seq<JSONActBuildWaiting>,
    pub start: SystemTime,
    pub end: SystemTime,
    pub required_derivations: Seq<Seq<char>>,
}

impl View for JSONCommandState {
    type V = ReportView;

    open spec fn view(&self) -> ReportView {
        ReportView {
            act_unknown: self.act_unknown@,
            act_copy_path: views_of(self.act_copy_path@),
            act_file_transfer: views_of(self.act_file_transfer@),
            act_realise: self.act_realise@,
            act_copy_paths: self.act_copy_paths@,
            act_builds: self.act_builds@,
            act_build: views_of(self.act_build@),
            act_optimise_store: self.act_optimise_store@,
            act_verify_paths: self.act_verify_paths@,
            act_substitute: views_of(self.act_substitute@),
            act_query_path_info: views_of(self.act_query_path_info@),
            act_post_build_hook: views_of(self.act_post_build_hook@),
            act_build_waiting: self.act_build_waiting@,
            start: self.start,
            end: self.end,
            required_derivations: texts_view(self.required_derivations@),
        }
    }
}

impl ReportView {
    /// The number of records in all lists together.
    pub open spec fn total(self) -> nat {
        self.act_unknown.len() + self.act_copy_path.len() + self.act_file_transfer.len() + self.act_realise.len() + self.act_copy_paths.len() + self.act_builds.len() + self.act_build.len() + self.act_optimise_store.len() + self.act_verify_paths.len() + self.act_substitute.len() + self.act_query_path_info.len() + self.act_post_build_hook.len() + self.act_build_waiting.len()
    }
}

/// The number of lists that an activity has a record for.
pub open spec fn lists_of(state: ActivityStateView, now: SystemTime) -> int {
    (if unknown_record(state, now) is Some { 1int } else { 0int }) + (if copy_path_record(state, now) is Some { 1int } else { 0int }) + (if file_transfer_record(state, now) is Some { 1int } else { 0int }) + (if realise_record(state, now) is Some { 1int } else { 0int }) + (if copy_paths_record(state, now) is Some { 1int } else { 0int }) + (if builds_record(state, now) is Some { 1int } else { 0int }) + (if build_record(state, now) is Some { 1int } else { 0int }) + (if optimise_store_record(state, now) is Some { 1int } else { 0int }) + (if verify_paths_record(state, now) is Some { 1int } else { 0int }) + (if substitute_record(state, now) is Some { 1int } else { 0int }) + (if query_path_info_record(state, now) is Some { 1int } else { 0int }) + (if post_build_hook_record(state, now) is Some { 1int } else { 0int }) + (if build_waiting_record(state, now) is Some { 1int } else { 0int })
}

/// The report of a run whose log has ended, made at `now`.
///
/// Each activity gives one record, in the list of its kind; an activity that
/// has not stopped counts as ended at `now`. Each list goes by ascending id.
pub open spec fn report_of(state: CommandStateView, now: SystemTime) -> ReportView {
    let ids = ids_in_order(state.activity.dom());
    ReportView {
        act_unknown: ids.filter_map(unknown_at(state.activity, now)),
        act_copy_path: ids.filter_map(copy_path_at(state.activity, now)),
        act_file_transfer: ids.filter_map(file_transfer_at(state.activity, now)),
        act_realise: ids.filter_map(realise_at(state.activity, now)),
        act_copy_paths: ids.filter_map(copy_paths_at(state.activity, now)),
        act_builds: ids.filter_map(builds_at(state.activity, now)),
        act_build: ids.filter_map(build_at(state.activity, now)),
        act_optimise_store: ids.filter_map(optimise_store_at(state.activity, now)),
        act_verify_paths: ids.filter_map(verify_paths_at(state.activity, now)),
        act_substitute: ids.filter_map(substitute_at(state.activity, now)),
        act_query_path_info: ids.filter_map(query_path_info_at(state.activity, now)),
        act_post_build_hook: ids.filter_map(post_build_hook_at(state.activity, now)),
        act_build_waiting: ids.filter_map(build_waiting_at(state.activity, now)),
        start: state.start,
        end: state.end->0,
        required_derivations: state.required_derivations,
    }
}


/// The model of a state has the ids of its map, and under each id the model
/// of the record there.
pub proof fn lemma_state_view(state: CommandState)
    ensures
        state@.activity.dom() == state.activity@.dom(),
        forall|id: i64| #[trigger]
            state.activity@.contains_key(id) ==> state@.activity[id] == state.activity@[id]@,
{
}

/// A copy of a list of strings.
fn copy_texts(texts: &Vec<String>) -> (out: Vec<String>)
    ensures
        texts_view(out@) == texts_view(texts@),
{
    let mut out: Vec<String> = Vec::new();
    let mut i: usize = 0;
    while i < texts.len()
        invariant
            i <= texts.len(),
            out@.len() == i,
            forall|j: int| 0 <= j < i ==> out@[j]@ == texts@[j]@,
        decreases texts.len() - i,
    {
        out.push(texts[i].clone());
        i += 1;
    }
    assert(texts_view(out@) =~= texts_view(texts@));
    out
}

impl CommandState {
    /// The report of a run whose log has ended, made at `now`.
    pub fn to_json_at(state: &CommandState, now: SystemTime) -> (out: JSONCommandState)
        requires
            state.end is Some,
        ensures
            out@ == report_of(state@, now),
            out@.total() == state@.activity.dom().len(),
    {
        let ids = sorted_ids(&state.activity);
        let mut act_unknown: Vec<JSONActUnknown> = Vec::new();
        let mut act_copy_path: Vec<JSONActCopyPath> = Vec::new();
        let mut act_file_transfer: Vec<JSONActFileTransfer> = Vec::new();
        let mut act_realise: Vec<JSONActRealise> = Vec::new();
        let mut act_copy_paths: Vec<JSONActCopyPaths> = Vec::new();
        let mut act_builds: Vec<JSONActBuilds> = Vec::new();
        let mut act_build: Vec<JSONActBuild> = Vec::new();
        let mut act_optimise_store: Vec<JSONActOptimiseStore> = Vec::new();
        let mut act_verify_paths: Vec<JSONActVerifyPaths> = Vec::new();
        let mut act_substitute: Vec<JSONActSubstitute> = Vec::new();
        let mut act_query_path_info: Vec<JSONActQueryPathInfo> = Vec::new();
        let mut act_post_build_hook: Vec<JSONActPostBuildHook> = Vec::new();
        let mut act_build_waiting: Vec<JSONActBuildWaiting> = Vec::new();
        proof {
            lemma_state_view(*state);
            assert(act_unknown@ =~= ids@.take(0).filter_map(unknown_at(state@.activity, now)));
            assert(views_of(act_copy_path@) =~= ids@.take(0).filter_map(copy_path_at(state@.activity, now)));
            assert(views_of(act_file_transfer@) =~= ids@.take(0).filter_map(file_transfer_at(state@.activity, now)));
            assert(act_realise@ =~= ids@.take(0).filter_map(realise_at(state@.activity, now)));
            assert(act_copy_paths@ =~= ids@.take(0).filter_map(copy_paths_at(state@.activity, now)));
            assert(act_builds@ =~= ids@.take(0).filter_map(builds_at(state@.activity, now)));
            assert(views_of(act_build@) =~= ids@.take(0).filter_map(build_at(state@.activity, now)));
            assert(act_optimise_store@ =~= ids@.take(0).filter_map(optimise_store_at(state@.activity, now)));
            assert(act_verify_paths@ =~= ids@.take(0).filter_map(verify_paths_at(state@.activity, now)));
            assert(views_of(act_substitute@) =~= ids@.take(0).filter_map(substitute_at(state@.activity, now)));
            assert(views_of(act_query_path_info@) =~= ids@.take(0).filter_map(query_path_info_at(state@.activity, now)));
            assert(views_of(act_post_build_hook@) =~= ids@.take(0).filter_map(post_build_hook_at(state@.activity, now)));
            assert(act_build_waiting@ =~= ids@.take(0).filter_map(build_waiting_at(state@.activity, now)));
        }
        let mut i: usize = 0;
        while i < ids.len()
            invariant
                i <= ids.len(),
                ids@ == ids_in_order(state@.activity.dom()),
                ids@.to_set() == state.activity@.dom(),
                act_unknown@ == ids@.take(i as int).filter_map(unknown_at(state@.activity, now)),
                views_of(act_copy_path@) == ids@.take(i as int).filter_map(copy_path_at(state@.activity, now)),
                views_of(act_file_transfer@) == ids@.take(i as int).filter_map(file_transfer_at(state@.activity, now)),
                act_realise@ == ids@.take(i as int).filter_map(realise_at(state@.activity, now)),
                act_copy_paths@ == ids@.take(i as int).filter_map(copy_paths_at(state@.activity, now)),
                act_builds@ == ids@.take(i as int).filter_map(builds_at(state@.activity, now)),
                views_of(act_build@) == ids@.take(i as int).filter_map(build_at(state@.activity, now)),
                act_optimise_store@ == ids@.take(i as int).filter_map(optimise_store_at(state@.activity, now)),
                act_verify_paths@ == ids@.take(i as int).filter_map(verify_paths_at(state@.activity, now)),
                views_of(act_substitute@) == ids@.take(i as int).filter_map(substitute_at(state@.activity, now)),
                views_of(act_query_path_info@) == ids@.take(i as int).filter_map(query_path_info_at(state@.activity, now)),
                views_of(act_post_build_hook@) == ids@.take(i as int).filter_map(post_build_hook_at(state@.activity, now)),
                act_build_waiting@ == ids@.take(i as int).filter_map(build_waiting_at(state@.activity, now)),
            decreases ids.len() - i,
        {
            let id = ids[i];
            proof {
                lemma_state_view(*state);
                assert(ids@.to_set().contains(ids@[i as int]));
                ids@.lemma_filter_map_take_succ(unknown_at(state@.activity, now), i as int);
                ids@.lemma_filter_map_take_succ(copy_path_at(state@.activity, now), i as int);
                ids@.lemma_filter_map_take_succ(file_transfer_at(state@.activity, now), i as int);
                ids@.lemma_filter_map_take_succ(realise_at(state@.activity, now), i as int);
                ids@.lemma_filter_map_take_succ(copy_paths_at(state@.activity, now), i as int);
                ids@.lemma_filter_map_take_succ(builds_at(state@.activity, now), i as int);
                ids@.lemma_filter_map_take_succ(build_at(state@.activity, now), i as int);
                ids@.lemma_filter_map_take_succ(optimise_store_at(state@.activity, now), i as int);
                ids@.lemma_filter_map_take_succ(verify_paths_at(state@.activity, now), i as int);
                ids@.lemma_filter_map_take_succ(substitute_at(state@.activity, now), i as int);
                ids@.lemma_filter_map_take_succ(query_path_info_at(state@.activity, now), i as int);
                ids@.lemma_filter_map_take_succ(post_build_hook_at(state@.activity, now), i as int);
                ids@.lemma_filter_map_take_succ(build_waiting_at(state@.activity, now), i as int);
            }
            match state.activity.get(&id) {
                Some(entry) => {
                    assert(state@.activity[id] == entry@);
                    let start = entry.start;
                    let end = match entry.end {
                        Some(end) => end,
                        None => now,
                    };
                    match &entry.activity {
                        Activity::ActUnknown => {
                            act_unknown.push(JSONActUnknown { start, end });
                        },
                        Activity::ActCopyPath(package_name, store_path, from, to) => {
                            act_copy_path.push(
                                JSONActCopyPath {
                                    package_name: package_name.clone(),
                                    store_path: store_path.clone(),
                                    from: from.clone(),
                                    to: to.clone(),
                                    start,
                                    end,
                                },
                            );
                        },
                        Activity::ActFileTransfer(file) => {
                            act_file_transfer.push(
                                JSONActFileTransfer {
                                    file: file.clone(),
                                    start,
                                    end,
                                },
                            );
                        },
                        Activity::ActRealise => {
                            act_realise.push(JSONActRealise { start, end });
                        },
                        Activity::ActCopyPaths => {
                            act_copy_paths.push(JSONActCopyPaths { start, end });
                        },
                        Activity::ActBuilds => {
                            act_builds.push(JSONActBuilds { start, end });
                        },
                        Activity::ActBuild(package_name, store_path, host, _, _) => {
                            act_build.push(
                                JSONActBuild {
                                    package_name: package_name.clone(),
                                    store_path: store_path.clone(),
                                    host: host.clone(),
                                    start,
                                    end,
                                },
                            );
                        },
                        Activity::ActOptimiseStore => {
                            act_optimise_store.push(JSONActOptimiseStore { start, end });
                        },
                        Activity::ActVerifyPaths => {
                            act_verify_paths.push(JSONActVerifyPaths { start, end });
                        },
                        Activity::ActSubstitute(package_name, store_path, from) => {
                            act_substitute.push(
                                JSONActSubstitute {
                                    package_name: package_name.clone(),
                                    store_path: store_path.clone(),
                                    from: from.clone(),
                                    start,
                                    end,
                                },
                            );
                        },
                        Activity::ActQueryPathInfo(package_name, store_path, from) => {
                            act_query_path_info.push(
                                JSONActQueryPathInfo {
                                    package_name: package_name.clone(),
                                    store_path: store_path.clone(),
                                    from: from.clone(),
                                    start,
                                    end,
                                },
                            );
                        },
                        Activity::ActPostBuildHook(store_path) => {
                            act_post_build_hook.push(
                                JSONActPostBuildHook {
                                    store_path: store_path.clone(),
                                    start,
                                    end,
                                },
                            );
                        },
                        Activity::ActBuildWaiting => {
                            act_build_waiting.push(JSONActBuildWaiting { start, end });
                        },
                    }
                },
                None => {
                    assert(false);
                },
            }
            i += 1;
        }
        proof {
            assert(ids@.take(ids.len() as int) =~= ids@);
            lemma_state_view(*state);
            lemma_report_total(state@, now);
        }
        JSONCommandState {
            act_unknown,
            act_copy_path,
            act_file_transfer,
            act_realise,
            act_copy_paths,
            act_builds,
            act_build,
            act_optimise_store,
            act_verify_paths,
            act_substitute,
            act_query_path_info,
            act_post_build_hook,
            act_build_waiting,
            start: state.start,
            end: state.end.unwrap(),
            required_derivations: copy_texts(&state.required_derivations),
        }
    }

    /// The report of a run whose log has ended, made now: the report of
    /// [`CommandState::to_json_at`] for some point in time.
    pub fn to_json(state: CommandState) -> (out: JSONCommandState)
        requires
            state.end is Some,
        ensures
            exists|now: SystemTime| out@ == report_of(state@, now),
            out@.total() == state@.activity.dom().len(),
    {
        let time = now();
        CommandState::to_json_at(&state, time)
    }
}

/// Each activity has its record in one list and in no other.
pub proof fn lemma_one_list(state: ActivityStateView, now: SystemTime)
    ensures
        lists_of(state, now) == 1,
{
}

/// The first `k` ids of a list give `k` records in all.
proof fn lemma_prefix_total(
    activity: Map<i64, ActivityStateView>,
    now: SystemTime,
    ids: Seq<i64>,
    k: int,
)
    requires
        0 <= k <= ids.len(),
    ensures
        ids.take(k).filter_map(unknown_at(activity, now)).len() + ids.take(k).filter_map(copy_path_at(activity, now)).len() + ids.take(k).filter_map(file_transfer_at(activity, now)).len() + ids.take(k).filter_map(realise_at(activity, now)).len() + ids.take(k).filter_map(copy_paths_at(activity, now)).len() + ids.take(k).filter_map(builds_at(activity, now)).len() + ids.take(k).filter_map(build_at(activity, now)).len() + ids.take(k).filter_map(optimise_store_at(activity, now)).len() + ids.take(k).filter_map(verify_paths_at(activity, now)).len() + ids.take(k).filter_map(substitute_at(activity, now)).len() + ids.take(k).filter_map(query_path_info_at(activity, now)).len() + ids.take(k).filter_map(post_build_hook_at(activity, now)).len() + ids.take(k).filter_map(build_waiting_at(activity, now)).len() == k,
    decreases k,
{
    if k > 0 {
        lemma_prefix_total(activity, now, ids, k - 1);
        lemma_one_list(activity[ids[k - 1]], now);
        ids.lemma_filter_map_take_succ(unknown_at(activity, now), k - 1);
        ids.lemma_filter_map_take_succ(copy_path_at(activity, now), k - 1);
        ids.lemma_filter_map_take_succ(file_transfer_at(activity, now), k - 1);
        ids.lemma_filter_map_take_succ(realise_at(activity, now), k - 1);
        ids.lemma_filter_map_take_succ(copy_paths_at(activity, now), k - 1);
        ids.lemma_filter_map_take_succ(builds_at(activity, now), k - 1);
        ids.lemma_filter_map_take_succ(build_at(activity, now), k - 1);
        ids.lemma_filter_map_take_succ(optimise_store_at(activity, now), k - 1);
        ids.lemma_filter_map_take_succ(verify_paths_at(activity, now), k - 1);
        ids.lemma_filter_map_take_succ(substitute_at(activity, now), k - 1);
        ids.lemma_filter_map_take_succ(query_path_info_at(activity, now), k - 1);
        ids.lemma_filter_map_take_succ(post_build_hook_at(activity, now), k - 1);
        ids.lemma_filter_map_take_succ(build_waiting_at(activity, now), k - 1);
    }
}

/// A report has as many records as the state has activities: each id that
/// was started gives one record.
pub proof fn lemma_report_total(state: CommandStateView, now: SystemTime)
    requires
        state.activity.dom().finite(),
    ensures
        report_of(state, now).total() == state.activity.dom().len(),
{
    let ids = ids_in_order(state.activity.dom());
    lemma_ids_in_order(state.activity.dom());
    lemma_prefix_total(state.activity, now, ids, ids.len() as int);
    assert(ids.take(ids.len() as int) =~= ids);
}

/// Two states with the same model give the same report at the same time,
/// however their maps are laid out.
pub proof fn lemma_report_repeatable(first: CommandState, second: CommandState, now: SystemTime)
    requires
        first@ == second@,
    ensures
        report_of(first@, now) == report_of(second@, now),
{
}

} // verus!
