use nixv::nix_logs::process_logs::process_log_at;
use nixv::nix_logs::types::{Activity, JSONMessage, StartAction, StopAction, Verbosity};
use nixv::nix_tracker::order::sorted_ids;
use nixv::nix_tracker::types::{
    ActivityState, CommandState, JSONActBuild, JSONActBuildWaiting, JSONActBuilds, JSONActCopyPath,
    JSONActCopyPaths, JSONActFileTransfer, JSONActOptimiseStore, JSONActPostBuildHook,
    JSONActQueryPathInfo, JSONActRealise, JSONActSubstitute, JSONActUnknown, JSONActVerifyPaths,
    JSONCommandState,
};
use std::collections::HashMap;
use std::time::{Duration, SystemTime};

fn at(seconds: u64) -> SystemTime {
    SystemTime::UNIX_EPOCH + Duration::from_secs(seconds)
}

fn start(state: &mut CommandState, id: i64, activity: Activity, now: SystemTime) {
    let message = JSONMessage::Start(StartAction {
        id,
        level: Verbosity::Info,
        text: String::new(),
        activity,
    });
    process_log_at(id, Some(message), state, now);
}

fn stop(state: &mut CommandState, id: i64, now: SystemTime) {
    process_log_at(id, Some(JSONMessage::Stop(StopAction { id })), state, now);
}

fn build(name: &str) -> Activity {
    Activity::ActBuild(
        name.to_string(),
        format!("/nix/store/h-{}.drv", name),
        "localhost".to_string(),
        1,
        1,
    )
}

fn total(report: &JSONCommandState) -> usize {
    report.act_unknown.len()
        + report.act_copy_path.len()
        + report.act_file_transfer.len()
        + report.act_realise.len()
        + report.act_copy_paths.len()
        + report.act_builds.len()
        + report.act_build.len()
        + report.act_optimise_store.len()
        + report.act_verify_paths.len()
        + report.act_substitute.len()
        + report.act_query_path_info.len()
        + report.act_post_build_hook.len()
        + report.act_build_waiting.len()
}

fn one_of_each() -> CommandState {
    let mut state = CommandState::new_at(at(100));
    let activities = vec![
        Activity::ActUnknown,
        Activity::ActCopyPath("cp".to_string(), "/s/h-cp".to_string(), "from".to_string(), "to".to_string()),
        Activity::ActFileTransfer("https://file".to_string()),
        Activity::ActRealise,
        Activity::ActCopyPaths,
        Activity::ActBuilds,
        Activity::ActBuild("b".to_string(), "/s/h-b.drv".to_string(), "host".to_string(), 4, 8),
        Activity::ActOptimiseStore,
        Activity::ActVerifyPaths,
        Activity::ActSubstitute("s".to_string(), "/s/h-s".to_string(), "cache".to_string()),
        Activity::ActQueryPathInfo("q".to_string(), "/s/h-q".to_string(), "cache".to_string()),
        Activity::ActPostBuildHook("/s/h-hook.drv".to_string()),
        Activity::ActBuildWaiting,
    ];
    let mut id: i64 = 0;
    for activity in activities {
        id += 1;
        start(&mut state, id, activity, at(100 + id as u64));
        stop(&mut state, id, at(200 + id as u64));
    }
    state.end = Some(at(300));
    state
}

#[test]
fn report_of_an_empty_run() {
    let mut state = CommandState::new_at(at(1));
    state.end = Some(at(2));
    let report = CommandState::to_json_at(&state, at(3));
    assert_eq!(total(&report), 0);
    assert_eq!(report.start, at(1));
    assert_eq!(report.end, at(2));
    assert!(report.required_derivations.is_empty());
}

#[test]
fn each_kind_has_its_list() {
    let state = one_of_each();
    let report = CommandState::to_json_at(&state, at(999));
    assert_eq!(report.act_unknown, vec![JSONActUnknown { start: at(101), end: at(201) }]);
    assert_eq!(
        report.act_copy_path,
        vec![JSONActCopyPath {
            package_name: "cp".to_string(),
            store_path: "/s/h-cp".to_string(),
            from: "from".to_string(),
            to: "to".to_string(),
            start: at(102),
            end: at(202),
        }]
    );
    assert_eq!(
        report.act_file_transfer,
        vec![JSONActFileTransfer { file: "https://file".to_string(), start: at(103), end: at(203) }]
    );
    assert_eq!(report.act_realise, vec![JSONActRealise { start: at(104), end: at(204) }]);
    assert_eq!(report.act_copy_paths, vec![JSONActCopyPaths { start: at(105), end: at(205) }]);
    assert_eq!(report.act_builds, vec![JSONActBuilds { start: at(106), end: at(206) }]);
    assert_eq!(
        report.act_build,
        vec![JSONActBuild {
            package_name: "b".to_string(),
            store_path: "/s/h-b.drv".to_string(),
            host: "host".to_string(),
            start: at(107),
            end: at(207),
        }]
    );
    assert_eq!(
        report.act_optimise_store,
        vec![JSONActOptimiseStore { start: at(108), end: at(208) }]
    );
    assert_eq!(report.act_verify_paths, vec![JSONActVerifyPaths { start: at(109), end: at(209) }]);
    assert_eq!(
        report.act_substitute,
        vec![JSONActSubstitute {
            package_name: "s".to_string(),
            store_path: "/s/h-s".to_string(),
            from: "cache".to_string(),
            start: at(110),
            end: at(210),
        }]
    );
    assert_eq!(
        report.act_query_path_info,
        vec![JSONActQueryPathInfo {
            package_name: "q".to_string(),
            store_path: "/s/h-q".to_string(),
            from: "cache".to_string(),
            start: at(111),
            end: at(211),
        }]
    );
    assert_eq!(
        report.act_post_build_hook,
        vec![JSONActPostBuildHook {
            store_path: "/s/h-hook.drv".to_string(),
            start: at(112),
            end: at(212),
        }]
    );
    assert_eq!(
        report.act_build_waiting,
        vec![JSONActBuildWaiting { start: at(113), end: at(213) }]
    );
    assert_eq!(report.start, at(100));
    assert_eq!(report.end, at(300));
    assert_eq!(
        report.required_derivations,
        vec!["/s/h-cp", "/s/h-b.drv", "/s/h-s", "/s/h-q", "/s/h-hook.drv"]
    );
    assert_eq!(total(&report), 13);
}

#[test]
fn an_open_activity_ends_now() {
    let mut state = CommandState::new_at(at(1));
    start(&mut state, 1, build("open"), at(2));
    start(&mut state, 2, build("closed"), at(3));
    stop(&mut state, 2, at(4));
    start(&mut state, 3, Activity::ActRealise, at(5));
    state.end = Some(at(6));
    let report = CommandState::to_json_at(&state, at(50));
    assert_eq!(report.act_build.len(), 2);
    assert_eq!(report.act_build[0].package_name, "open");
    assert_eq!(report.act_build[0].start, at(2));
    assert_eq!(report.act_build[0].end, at(50));
    assert_eq!(report.act_build[1].package_name, "closed");
    assert_eq!(report.act_build[1].end, at(4));
    assert_eq!(report.act_realise, vec![JSONActRealise { start: at(5), end: at(50) }]);
    assert_eq!(report.end, at(6));
}

#[test]
fn lists_go_by_ascending_id() {
    let mut state = CommandState::new_at(at(0));
    let ids: [i64; 9] = [50, -3, 7, i64::MAX, 0, i64::MIN, 218725504516505, 1, -1];
    for id in ids {
        start(&mut state, id, build(&format!("p{}", id)), at(1));
    }
    state.end = Some(at(2));
    let report = CommandState::to_json_at(&state, at(3));
    let names: Vec<String> = report.act_build.iter().map(|r| r.package_name.clone()).collect();
    let mut sorted = ids.to_vec();
    sorted.sort();
    let expected: Vec<String> = sorted.iter().map(|id| format!("p{}", id)).collect();
    assert_eq!(names, expected);
    assert_eq!(sorted_ids(&state.activity), sorted);
}

#[test]
fn ids_of_a_map_in_order() {
    let mut map: HashMap<i64, ActivityState> = HashMap::new();
    assert_eq!(sorted_ids(&map), Vec::<i64>::new());
    let entry = ActivityState {
        activity: Activity::ActRealise,
        start: at(0),
        end: None,
        phase: None,
        progress: None,
        package_name: None,
    };
    for id in [5, 3, 9, 1, 4, 1, 5] {
        map.insert(id, entry.clone());
    }
    assert_eq!(sorted_ids(&map), vec![1, 3, 4, 5, 9]);
}

#[test]
fn each_started_id_has_one_record() {
    let mut state = CommandState::new_at(at(0));
    start(&mut state, 1, build("a"), at(1));
    start(&mut state, 2, Activity::ActRealise, at(1));
    start(&mut state, 3, Activity::ActUnknown, at(1));
    // Started twice, with another kind the second time.
    start(&mut state, 1, Activity::ActBuilds, at(2));
    start(&mut state, 4, build("a"), at(2));
    stop(&mut state, 2, at(3));
    // Never started.
    stop(&mut state, 9, at(3));
    state.end = Some(at(4));
    let report = CommandState::to_json_at(&state, at(5));
    assert_eq!(total(&report), 4);
    assert_eq!(report.act_builds.len(), 1);
    assert_eq!(report.act_build.len(), 1);
    assert_eq!(report.act_realise.len(), 1);
    assert_eq!(report.act_unknown.len(), 1);
    assert_eq!(report.required_derivations, vec!["/nix/store/h-a.drv"]);
}

#[test]
fn the_same_state_gives_the_same_report() {
    let mut state = one_of_each();
    start(&mut state, 20, build("open"), at(250));
    start(&mut state, -20, build("other"), at(251));
    let first = CommandState::to_json_at(&state, at(400));
    let second = CommandState::to_json_at(&state, at(400));
    assert_eq!(first, second);
    // A state with the same activities, entered in another order.
    let mut other = CommandState::new_at(at(100));
    let mut ids: Vec<i64> = state.activity.keys().copied().collect();
    ids.sort();
    ids.reverse();
    for id in ids {
        other.activity.insert(id, state.activity[&id].clone());
    }
    other.required_derivations = state.required_derivations.clone();
    other.end = state.end;
    let third = CommandState::to_json_at(&other, at(400));
    assert_eq!(first, third);
    // Another time shows in the open activities only.
    let later = CommandState::to_json_at(&state, at(401));
    assert_ne!(first, later);
    assert_eq!(first.act_realise, later.act_realise);
    assert_eq!(later.act_build.last().unwrap().end, at(401));
}

#[test]
fn report_made_now() {
    let mut state = CommandState::new_at(at(1));
    start(&mut state, 1, build("open"), at(2));
    start(&mut state, 2, Activity::ActBuilds, at(3));
    stop(&mut state, 2, at(4));
    state.end = Some(at(5));
    let before = SystemTime::now();
    let report = CommandState::to_json(state);
    assert_eq!(report.act_build.len(), 1);
    assert!(report.act_build[0].end >= before);
    assert_eq!(report.act_builds, vec![JSONActBuilds { start: at(3), end: at(4) }]);
    assert_eq!(report.start, at(1));
    assert_eq!(report.end, at(5));
}
