use nixv::nix_logs::parser::parse;
use nixv::nix_logs::process_logs::{
    level_of_line, level_of_message, output_for, package_for, process_log, process_log_at,
    remember_path, ConsoleLine, LogLevel, Outcome,
};
use nixv::nix_logs::types::{
    Activity, ActivityProgress, ActivityResult, ActivityType, JSONMessage, MessageAction,
    ResultAction, StartAction, StopAction, Verbosity,
};
use nixv::nix_tracker::types::CommandState;
use std::time::{Duration, SystemTime};

fn at(seconds: u64) -> SystemTime {
    SystemTime::UNIX_EPOCH + Duration::from_secs(seconds)
}

fn start(id: i64, activity: Activity) -> Option<JSONMessage> {
    Some(JSONMessage::Start(StartAction {
        id,
        level: Verbosity::Info,
        text: String::new(),
        activity,
    }))
}

fn stop(id: i64) -> Option<JSONMessage> {
    Some(JSONMessage::Stop(StopAction { id }))
}

fn result(id: i64, result: ActivityResult) -> Option<JSONMessage> {
    Some(JSONMessage::Result(ResultAction { id, result }))
}

fn message(level: Verbosity, msg: &str) -> Option<JSONMessage> {
    Some(JSONMessage::Message(MessageAction { level, msg: msg.to_string() }))
}

fn build(name: &str) -> Activity {
    Activity::ActBuild(
        name.to_string(),
        format!("/nix/store/h-{}.drv", name),
        "localhost".to_string(),
        1,
        1,
    )
}

fn line(level: LogLevel, package: Option<&str>, text: &str) -> Outcome {
    Outcome::Console(ConsoleLine {
        level,
        package: package.map(|p| p.to_string()),
        text: text.to_string(),
    })
}

#[test]
fn new_state_is_empty() {
    let state = CommandState::new_at(at(5));
    assert!(state.activity.is_empty());
    assert!(state.required_derivations.is_empty());
    assert_eq!(state.start, at(5));
    assert_eq!(state.end, None);
    let before = SystemTime::now();
    let state = CommandState::new();
    assert!(state.activity.is_empty());
    assert!(state.required_derivations.is_empty());
    assert!(state.start >= before);
    assert_eq!(state.end, None);
}

#[test]
fn start_enters_the_activity() {
    let mut state = CommandState::new_at(at(0));
    let out = process_log_at(1, start(1, build("foo")), &mut state, at(10));
    assert_eq!(out, Outcome::Silent);
    assert_eq!(state.activity.len(), 1);
    let entry = &state.activity[&1];
    assert_eq!(entry.activity, build("foo"));
    assert_eq!(entry.start, at(10));
    assert_eq!(entry.end, None);
    assert_eq!(entry.phase, None);
    assert_eq!(entry.progress, None);
    assert_eq!(entry.package_name, Some("foo".to_string()));
    assert_eq!(state.start, at(0));
    assert_eq!(state.end, None);
}

#[test]
fn start_lists_the_store_path_of_each_kind_that_has_one() {
    let mut state = CommandState::new_at(at(0));
    let activities = vec![
        Activity::ActCopyPath("a".to_string(), "/p/copy".to_string(), "f".to_string(), "t".to_string()),
        Activity::ActBuild("b".to_string(), "/p/build".to_string(), "h".to_string(), 1, 1),
        Activity::ActSubstitute("c".to_string(), "/p/sub".to_string(), "f".to_string()),
        Activity::ActQueryPathInfo("d".to_string(), "/p/query".to_string(), "f".to_string()),
        Activity::ActPostBuildHook("/p/hook".to_string()),
    ];
    let mut id = 0;
    for activity in activities {
        id += 1;
        process_log_at(id, start(id, activity), &mut state, at(1));
    }
    assert_eq!(
        state.required_derivations,
        vec!["/p/copy", "/p/build", "/p/sub", "/p/query", "/p/hook"]
    );
    assert_eq!(state.activity[&1].package_name, Some("a".to_string()));
    assert_eq!(state.activity[&2].package_name, Some("b".to_string()));
    assert_eq!(state.activity[&3].package_name, Some("c".to_string()));
    assert_eq!(state.activity[&4].package_name, Some("d".to_string()));
    assert_eq!(state.activity[&5].package_name, None);
}

#[test]
fn start_of_a_kind_without_store_path_lists_nothing() {
    let mut state = CommandState::new_at(at(0));
    let activities = vec![
        Activity::ActUnknown,
        Activity::ActFileTransfer("https://x".to_string()),
        Activity::ActRealise,
        Activity::ActCopyPaths,
        Activity::ActBuilds,
        Activity::ActOptimiseStore,
        Activity::ActVerifyPaths,
        Activity::ActBuildWaiting,
    ];
    let mut id = 0;
    for activity in activities {
        id += 1;
        process_log_at(id, start(id, activity.clone()), &mut state, at(1));
        assert_eq!(state.activity[&id].activity, activity);
        assert_eq!(state.activity[&id].package_name, None);
    }
    assert_eq!(state.activity.len(), 8);
    assert!(state.required_derivations.is_empty());
}

#[test]
fn query_of_path_info_stays_a_query() {
    let mut state = CommandState::new_at(at(0));
    let activity =
        Activity::ActQueryPathInfo("d".to_string(), "/p/query".to_string(), "f".to_string());
    process_log_at(4, start(4, activity.clone()), &mut state, at(1));
    assert_eq!(state.activity[&4].activity, activity);
}

#[test]
fn a_store_path_is_listed_once() {
    let mut state = CommandState::new_at(at(0));
    process_log_at(1, start(1, build("foo")), &mut state, at(1));
    process_log_at(2, start(2, build("bar")), &mut state, at(2));
    process_log_at(3, start(3, build("foo")), &mut state, at(3));
    process_log_at(1, start(1, build("bar")), &mut state, at(4));
    assert_eq!(state.required_derivations, vec!["/nix/store/h-foo.drv", "/nix/store/h-bar.drv"]);
    assert_eq!(state.activity.len(), 3);
}

#[test]
fn a_second_start_takes_the_place_of_the_first() {
    let mut state = CommandState::new_at(at(0));
    process_log_at(1, start(1, build("foo")), &mut state, at(1));
    process_log_at(1, result(1, ActivityResult::SetPhase("p".to_string())), &mut state, at(2));
    process_log_at(1, stop(1), &mut state, at(3));
    process_log_at(1, start(1, Activity::ActRealise), &mut state, at(4));
    assert_eq!(state.activity.len(), 1);
    let entry = &state.activity[&1];
    assert_eq!(entry.activity, Activity::ActRealise);
    assert_eq!(entry.start, at(4));
    assert_eq!(entry.end, None);
    assert_eq!(entry.phase, None);
    assert_eq!(entry.package_name, None);
    // What was listed stays listed.
    assert_eq!(state.required_derivations, vec!["/nix/store/h-foo.drv"]);
}

#[test]
fn stop_sets_the_end() {
    let mut state = CommandState::new_at(at(0));
    process_log_at(1, start(1, build("foo")), &mut state, at(1));
    process_log_at(2, start(2, build("bar")), &mut state, at(2));
    let out = process_log_at(1, stop(1), &mut state, at(9));
    assert_eq!(out, Outcome::Silent);
    assert_eq!(state.activity[&1].end, Some(at(9)));
    assert_eq!(state.activity[&1].start, at(1));
    assert_eq!(state.activity[&1].activity, build("foo"));
    assert_eq!(state.activity[&1].package_name, Some("foo".to_string()));
    assert_eq!(state.activity[&2].end, None);
    // A second stop moves the end.
    process_log_at(1, stop(1), &mut state, at(11));
    assert_eq!(state.activity[&1].end, Some(at(11)));
}

#[test]
fn stop_for_an_id_never_seen_changes_nothing() {
    let mut state = CommandState::new_at(at(0));
    let out = process_log_at(7, stop(7), &mut state, at(3));
    assert_eq!(out, Outcome::Dangling(7));
    assert!(state.activity.is_empty());
    process_log_at(1, start(1, build("foo")), &mut state, at(1));
    let out = process_log_at(7, stop(7), &mut state, at(3));
    assert_eq!(out, Outcome::Dangling(7));
    assert_eq!(state.activity.len(), 1);
    assert_eq!(state.activity[&1].end, None);
    assert!(!state.activity.contains_key(&7));
    assert_eq!(state.required_derivations, vec!["/nix/store/h-foo.drv"]);
    assert_eq!(state.end, None);
}

#[test]
fn phase_and_progress_change_the_record() {
    let mut state = CommandState::new_at(at(0));
    process_log_at(1, start(1, build("foo")), &mut state, at(1));
    let out =
        process_log_at(1, result(1, ActivityResult::SetPhase("unpack".to_string())), &mut state, at(2));
    assert_eq!(out, Outcome::Silent);
    assert_eq!(state.activity[&1].phase, Some("unpack".to_string()));
    let first = ActivityProgress { done: 1, expected: 2, running: 3, failed: 4 };
    let out = process_log_at(1, result(1, ActivityResult::Progress(first)), &mut state, at(3));
    assert_eq!(out, Outcome::Silent);
    assert_eq!(state.activity[&1].progress, Some(first));
    assert_eq!(state.activity[&1].phase, Some("unpack".to_string()));
    // The next progress takes the place of the whole of the last.
    let second = ActivityProgress { done: 9, expected: 0, running: 0, failed: 0 };
    process_log_at(1, result(1, ActivityResult::Progress(second)), &mut state, at(4));
    assert_eq!(state.activity[&1].progress, Some(second));
    process_log_at(1, result(1, ActivityResult::SetPhase("build".to_string())), &mut state, at(5));
    assert_eq!(state.activity[&1].phase, Some("build".to_string()));
    assert_eq!(state.activity[&1].start, at(1));
    assert_eq!(state.activity[&1].end, None);
}

#[test]
fn updates_after_the_stop_are_taken() {
    let mut state = CommandState::new_at(at(0));
    process_log_at(1, start(1, build("foo")), &mut state, at(1));
    process_log_at(1, stop(1), &mut state, at(2));
    process_log_at(1, result(1, ActivityResult::SetPhase("late".to_string())), &mut state, at(3));
    assert_eq!(state.activity[&1].phase, Some("late".to_string()));
    assert_eq!(state.activity[&1].end, Some(at(2)));
}

#[test]
fn phase_and_progress_for_an_id_never_seen() {
    let mut state = CommandState::new_at(at(0));
    process_log_at(1, start(1, build("foo")), &mut state, at(1));
    let out = process_log_at(2, result(2, ActivityResult::SetPhase("p".to_string())), &mut state, at(2));
    assert_eq!(out, Outcome::Dangling(2));
    let progress = ActivityProgress { done: 1, expected: 2, running: 3, failed: 4 };
    let out = process_log_at(3, result(3, ActivityResult::Progress(progress)), &mut state, at(2));
    assert_eq!(out, Outcome::Dangling(3));
    assert_eq!(state.activity.len(), 1);
    assert_eq!(state.activity[&1].phase, None);
    assert_eq!(state.activity[&1].progress, None);
}

#[test]
fn file_linked_and_set_expected_do_nothing() {
    let mut state = CommandState::new_at(at(0));
    process_log_at(1, start(1, build("foo")), &mut state, at(1));
    let out = process_log_at(1, result(1, ActivityResult::FileLinked(1, 2)), &mut state, at(2));
    assert_eq!(out, Outcome::Silent);
    let out = process_log_at(
        1,
        result(1, ActivityResult::SetExpected(ActivityType::ActBuildType, 3)),
        &mut state,
        at(2),
    );
    assert_eq!(out, Outcome::Silent);
    let out = process_log_at(9, result(9, ActivityResult::FileLinked(1, 2)), &mut state, at(2));
    assert_eq!(out, Outcome::Silent);
    assert_eq!(state.activity.len(), 1);
    assert_eq!(state.activity[&1].progress, None);
    assert_eq!(state.activity[&1].end, None);
}

#[test]
fn no_message_does_nothing() {
    let mut state = CommandState::new_at(at(0));
    process_log_at(1, start(1, build("foo")), &mut state, at(1));
    let out = process_log_at(1, None, &mut state, at(2));
    assert_eq!(out, Outcome::Silent);
    assert_eq!(state.activity.len(), 1);
    assert_eq!(state.activity[&1].end, None);
}

#[test]
fn build_output_goes_to_the_console_without_escape_sequences() {
    let mut state = CommandState::new_at(at(0));
    process_log_at(1, start(1, build("foo")), &mut state, at(1));
    let out = process_log_at(
        1,
        result(1, ActivityResult::BuildLogLine("\u{1b}[32mfoo\u{1b}[m bar".to_string())),
        &mut state,
        at(2),
    );
    assert_eq!(out, line(LogLevel::Info, Some("foo"), "foo bar"));
    assert_eq!(state.activity.len(), 1);
    assert_eq!(state.activity[&1].phase, None);
}

#[test]
fn build_output_level_goes_by_its_words() {
    let mut state = CommandState::new_at(at(0));
    process_log_at(1, start(1, build("foo")), &mut state, at(1));
    let mut say = |text: &str| {
        process_log_at(1, result(1, ActivityResult::BuildLogLine(text.to_string())), &mut state, at(2))
    };
    assert_eq!(say("gcc: error: no input"), line(LogLevel::Error, Some("foo"), "gcc: error: no input"));
    assert_eq!(say("warning: unused"), line(LogLevel::Warn, Some("foo"), "warning: unused"));
    assert_eq!(
        say("warning: treated as error"),
        line(LogLevel::Error, Some("foo"), "warning: treated as error")
    );
    assert_eq!(say("compiling"), line(LogLevel::Info, Some("foo"), "compiling"));
    assert_eq!(say(""), line(LogLevel::Info, Some("foo"), ""));
    // The word is looked for once the escape sequences are gone.
    assert_eq!(say("er\u{1b}[1mror"), line(LogLevel::Error, Some("foo"), "error"));
}

#[test]
fn build_output_of_an_activity_without_package_or_never_seen() {
    let mut state = CommandState::new_at(at(0));
    process_log_at(1, start(1, Activity::ActBuilds), &mut state, at(1));
    let out =
        process_log_at(1, result(1, ActivityResult::BuildLogLine("x".to_string())), &mut state, at(2));
    assert_eq!(out, line(LogLevel::Info, None, "x"));
    let out =
        process_log_at(5, result(5, ActivityResult::BuildLogLine("y".to_string())), &mut state, at(2));
    assert_eq!(out, line(LogLevel::Info, None, "y"));
    assert_eq!(state.activity.len(), 1);
}

#[test]
fn build_output_goes_by_the_id_of_the_result() {
    let mut state = CommandState::new_at(at(0));
    process_log_at(1, start(1, build("foo")), &mut state, at(1));
    process_log_at(2, start(2, build("bar")), &mut state, at(1));
    let out =
        process_log_at(1, result(2, ActivityResult::BuildLogLine("x".to_string())), &mut state, at(2));
    assert_eq!(out, line(LogLevel::Info, Some("bar"), "x"));
}

#[test]
fn an_empty_package_name_is_not_shown() {
    let mut state = CommandState::new_at(at(0));
    let activity =
        Activity::ActBuild("".to_string(), "/nix/store/h-".to_string(), "h".to_string(), 1, 1);
    process_log_at(1, start(1, activity), &mut state, at(1));
    assert_eq!(state.activity[&1].package_name, Some("".to_string()));
    let out =
        process_log_at(1, result(1, ActivityResult::BuildLogLine("x".to_string())), &mut state, at(2));
    assert_eq!(out, line(LogLevel::Info, None, "x"));
    assert_eq!(package_for(&state, 1), None);
}

#[test]
fn output_of_the_hook_goes_like_build_output() {
    let mut state = CommandState::new_at(at(0));
    process_log_at(1, start(1, build("foo")), &mut state, at(1));
    let out = process_log_at(
        1,
        result(1, ActivityResult::PostBuildLogLine("\u{1b}[31mupload error\u{1b}[0m".to_string())),
        &mut state,
        at(2),
    );
    assert_eq!(out, line(LogLevel::Error, Some("foo"), "upload error"));
}

#[test]
fn untrusted_and_corrupted_paths_have_their_own_level() {
    let mut state = CommandState::new_at(at(0));
    process_log_at(1, start(1, build("foo")), &mut state, at(1));
    let out = process_log_at(
        1,
        result(1, ActivityResult::UntrustedPath("/p/error".to_string())),
        &mut state,
        at(2),
    );
    assert_eq!(out, line(LogLevel::Warn, Some("foo"), "/p/error"));
    let out = process_log_at(
        1,
        result(1, ActivityResult::CorruptedPath("/p/warning".to_string())),
        &mut state,
        at(2),
    );
    assert_eq!(out, line(LogLevel::Error, Some("foo"), "/p/warning"));
    let out = process_log_at(
        4,
        result(4, ActivityResult::CorruptedPath("/q".to_string())),
        &mut state,
        at(2),
    );
    assert_eq!(out, line(LogLevel::Error, None, "/q"));
    assert_eq!(state.activity.len(), 1);
}

#[test]
fn message_goes_to_the_console_at_its_own_level() {
    let mut state = CommandState::new_at(at(0));
    let mut say = |level: Verbosity| process_log_at(-1, message(level, "error in x"), &mut state, at(2));
    assert_eq!(say(Verbosity::Error), line(LogLevel::Error, None, "error in x"));
    assert_eq!(say(Verbosity::Warn), line(LogLevel::Warn, None, "error in x"));
    assert_eq!(say(Verbosity::Notice), line(LogLevel::Warn, None, "error in x"));
    assert_eq!(say(Verbosity::Info), line(LogLevel::Info, None, "error in x"));
    assert_eq!(say(Verbosity::Talkative), line(LogLevel::Trace, None, "error in x"));
    assert_eq!(say(Verbosity::Chatty), line(LogLevel::Trace, None, "error in x"));
    assert_eq!(say(Verbosity::Debug), line(LogLevel::Trace, None, "error in x"));
    assert_eq!(say(Verbosity::Vomit), line(LogLevel::Trace, None, "error in x"));
    assert!(state.activity.is_empty());
}

#[test]
fn message_takes_its_package_from_the_id_it_is_given() {
    let mut state = CommandState::new_at(at(0));
    process_log_at(1, start(1, build("foo")), &mut state, at(1));
    process_log_at(2, start(2, Activity::ActRealise), &mut state, at(1));
    let out = process_log_at(1, message(Verbosity::Info, "\u{1b}[1mhello\u{1b}[0m"), &mut state, at(2));
    assert_eq!(out, line(LogLevel::Info, Some("foo"), "hello"));
    let out = process_log_at(2, message(Verbosity::Info, "hello"), &mut state, at(2));
    assert_eq!(out, line(LogLevel::Info, None, "hello"));
    let out = process_log_at(-1, message(Verbosity::Info, "hello"), &mut state, at(2));
    assert_eq!(out, line(LogLevel::Info, None, "hello"));
    assert_eq!(state.activity.len(), 2);
}

#[test]
fn lines_of_a_build_from_start_to_stop() {
    let mut state = CommandState::new_at(at(0));
    let lines = [
        "{\"action\":\"start\",\"id\":1,\"level\":3,\"type\":105,\"text\":\"\",\"fields\":[\"/nix/store/h-foo.drv\",\"localhost\"]}",
        "{\"action\":\"result\",\"id\":1,\"type\":105,\"fields\":[1,2,3,4]}",
        "{\"action\":\"stop\",\"id\":1}",
    ];
    let mut clock = 0;
    for text in lines {
        clock += 1;
        let (decoded, id) = parse(text.to_string());
        assert!(decoded.is_ok());
        let out = process_log_at(id, decoded.ok(), &mut state, at(clock));
        assert_eq!(out, Outcome::Silent);
    }
    assert_eq!(state.activity.len(), 1);
    let entry = &state.activity[&1];
    assert_eq!(
        entry.progress,
        Some(ActivityProgress { done: 1, expected: 2, running: 3, failed: 4 })
    );
    assert_eq!(entry.start, at(1));
    assert_eq!(entry.end, Some(at(3)));
    assert_eq!(entry.package_name, Some("foo".to_string()));
    assert_eq!(state.required_derivations, vec!["/nix/store/h-foo.drv"]);
}

#[test]
fn lines_that_do_not_decode_leave_the_state_alone() {
    let mut state = CommandState::new_at(at(0));
    for text in ["garbage", "{\"action\":\"nope\"}", "{\"action\":\"result\",\"id\":1,\"type\":1,\"fields\":[]}"] {
        let (decoded, id) = parse(text.to_string());
        assert!(decoded.is_err());
        let out = process_log_at(id, decoded.ok(), &mut state, at(1));
        assert_eq!(out, Outcome::Silent);
    }
    assert!(state.activity.is_empty());
    assert!(state.required_derivations.is_empty());
}

#[test]
fn the_clock_gives_the_times() {
    let before = SystemTime::now();
    let mut state = CommandState::new();
    assert_eq!(process_log(1, start(1, build("foo")), &mut state), Outcome::Silent);
    assert_eq!(process_log(1, stop(1), &mut state), Outcome::Silent);
    assert_eq!(process_log(2, stop(2), &mut state), Outcome::Dangling(2));
    let entry = &state.activity[&1];
    assert!(entry.start >= before);
    assert!(entry.end.unwrap() >= entry.start);
    assert_eq!(state.required_derivations, vec!["/nix/store/h-foo.drv"]);
    assert_eq!(
        process_log(1, result(1, ActivityResult::BuildLogLine("\u{1b}[0mok".to_string())), &mut state),
        line(LogLevel::Info, Some("foo"), "ok")
    );
}

#[test]
fn level_of_a_line() {
    assert_eq!(level_of_line("error"), LogLevel::Error);
    assert_eq!(level_of_line("an error occurred"), LogLevel::Error);
    assert_eq!(level_of_line("terrors"), LogLevel::Error);
    assert_eq!(level_of_line("warning"), LogLevel::Warn);
    assert_eq!(level_of_line("3 warnings"), LogLevel::Warn);
    assert_eq!(level_of_line("error and warning"), LogLevel::Error);
    assert_eq!(level_of_line("warning and error"), LogLevel::Error);
    assert_eq!(level_of_line(""), LogLevel::Info);
    assert_eq!(level_of_line("erro"), LogLevel::Info);
    assert_eq!(level_of_line("rror"), LogLevel::Info);
    assert_eq!(level_of_line("Error"), LogLevel::Info);
    assert_eq!(level_of_line("WARNING"), LogLevel::Info);
    assert_eq!(level_of_line("err or"), LogLevel::Info);
    assert_eq!(level_of_line("warnin"), LogLevel::Info);
    assert_eq!(level_of_line("\u{e9}rror \u{1F600} error"), LogLevel::Error);
}

#[test]
fn level_of_a_message() {
    assert_eq!(level_of_message(Verbosity::Error), LogLevel::Error);
    assert_eq!(level_of_message(Verbosity::Warn), LogLevel::Warn);
    assert_eq!(level_of_message(Verbosity::Notice), LogLevel::Warn);
    assert_eq!(level_of_message(Verbosity::Info), LogLevel::Info);
    assert_eq!(level_of_message(Verbosity::Talkative), LogLevel::Trace);
    assert_eq!(level_of_message(Verbosity::Vomit), LogLevel::Trace);
}

#[test]
fn line_for_build_output() {
    assert_eq!(
        output_for(Some("pkg".to_string()), "a warning".to_string()),
        ConsoleLine { level: LogLevel::Warn, package: Some("pkg".to_string()), text: "a warning".to_string() }
    );
    assert_eq!(
        output_for(None, "fine".to_string()),
        ConsoleLine { level: LogLevel::Info, package: None, text: "fine".to_string() }
    );
}

#[test]
fn remembering_a_path() {
    let mut paths: Vec<String> = Vec::new();
    remember_path(&mut paths, "a".to_string());
    remember_path(&mut paths, "b".to_string());
    remember_path(&mut paths, "a".to_string());
    remember_path(&mut paths, "".to_string());
    remember_path(&mut paths, "b".to_string());
    assert_eq!(paths, vec!["a", "b", ""]);
}
