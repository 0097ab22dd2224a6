//! Decoding a line of the log into a message.
//!
//! [`decoded_line`] says what a line means; [`parse`] computes it. The JSON
//! text is read by `serde_json` ([`JsonValue::from_text`]); what the document
//! means is decided here ([`decode`]).

use crate::nix_logs::json::{items_view, parsed_json, JsonValue, JsonView};
use crate::nix_logs::text::{chars_of, ends_with, matches_at, starts_with, texts_view};
use crate::nix_logs::types::{
    decoded_view, Activity, ActivityProgress, ActivityResult, ActivityResultView, ActivityType,
    ActivityView, DecodeError, JSONMessage, MessageAction, MessageView, ResultAction, StartAction,
    StopAction, Verbosity,
};
use vstd::prelude::*;
use vstd::string::{StrSliceExecFns, StringExecFns};

verus! {

/// What follows the first `-` of a store path; `None` where it has none.
pub open spec fn after_first_dash(path: Seq<char>) -> Option<Seq<char>>
    decreases path.len(),
{
    if path.len() == 0 {
        None
    } else if path[0] == '-' {
        Some(path.drop_first())
    } else {
        after_first_dash(path.drop_first())
    }
}

/// A name without the `.drv` that it may end with.
pub open spec fn without_drv_suffix(name: Seq<char>) -> Seq<char> {
    if ends_with(name, ".drv"@) {
        name.take(name.len() - ".drv"@.len())
    } else {
        name
    }
}

/// A name without its quote characters.
pub open spec fn without_quotes(name: Seq<char>) -> Seq<char>
    decreases name.len(),
{
    if name.len() == 0 {
        name
    } else if name.last() == '"' {
        without_quotes(name.drop_last())
    } else {
        without_quotes(name.drop_last()).push(name.last())
    }
}

/// The package name of a store path: what follows the first `-`, without a
/// `.drv` at its end and then without quote characters. A path without `-`
/// is its own name.
pub open spec fn package_name(path: Seq<char>) -> Seq<char> {
    match after_first_dash(path) {
        Some(name) => without_quotes(without_drv_suffix(name)),
        None => path,
    }
}

/// The verbosity with the code `level`; `Info` where no verbosity has it.
pub open spec fn verbosity_of(level: i64) -> Verbosity {
    if level == 0 {
        Verbosity::Error
    } else if level == 1 {
        Verbosity::Warn
    } else if level == 2 {
        Verbosity::Notice
    } else if level == 3 {
        Verbosity::Info
    } else if level == 4 {
        Verbosity::Talkative
    } else if level == 5 {
        Verbosity::Chatty
    } else if level == 6 {
        Verbosity::Debug
    } else if level == 7 {
        Verbosity::Vomit
    } else {
        Verbosity::Info
    }
}

/// The kind of activity with the code `code`; the unknown kind where no
/// kind has it.
pub open spec fn activity_type_of(code: i64) -> ActivityType {
    if code == 100 {
        ActivityType::ActCopyPathType
    } else if code == 101 {
        ActivityType::ActFileTransferType
    } else if code == 102 {
        ActivityType::ActRealiseType
    } else if code == 103 {
        ActivityType::ActCopyPathsType
    } else if code == 104 {
        ActivityType::ActBuildsType
    } else if code == 105 {
        ActivityType::ActBuildType
    } else if code == 106 {
        ActivityType::ActOptimiseStoreType
    } else if code == 107 {
        ActivityType::ActVerifyPathsType
    } else if code == 108 {
        ActivityType::ActSubstituteType
    } else if code == 109 {
        ActivityType::ActQueryPathInfoType
    } else if code == 110 {
        ActivityType::ActPostBuildHookType
    } else if code == 111 {
        ActivityType::ActBuildWaitingType
    } else {
        ActivityType::ActUnknownType
    }
}

/// The strings of a list of documents, where each of them is a string.
pub open spec fn all_texts(items: Seq<JsonView>) -> Option<Seq<Seq<char>>> {
    if forall|i: int| 0 <= i < items.len() ==> (#[trigger] items[i]).text() is Some {
        Some(Seq::new(items.len(), |i: int| items[i].text()->0))
    } else {
        None
    }
}

/// The integers of a list of documents, where each of them is an integer in
/// the range of `i64`.
pub open spec fn all_integers(items: Seq<JsonView>) -> Option<Seq<i64>> {
    if forall|i: int| 0 <= i < items.len() ==> (#[trigger] items[i]).integer() is Some {
        Some(Seq::new(items.len(), |i: int| items[i].integer()->0))
    } else {
        None
    }
}

/// The fields of a message as strings: `fields` is an array of strings
/// only, and of `least` of them or more.
pub open spec fn text_fields(fields: JsonView, least: int) -> Option<Seq<Seq<char>>> {
    match fields.items() {
        Some(items) => match all_texts(items) {
            Some(texts) => if texts.len() >= least {
                Some(texts)
            } else {
                None
            },
            None => None,
        },
        None => None,
    }
}

/// The fields of a message as integers: `fields` is an array of integers
/// only, and of `least` of them or more.
pub open spec fn integer_fields(fields: JsonView, least: int) -> Option<Seq<i64>> {
    match fields.items() {
        Some(items) => match all_integers(items) {
            Some(numbers) => if numbers.len() >= least {
                Some(numbers)
            } else {
                None
            },
            None => None,
        },
        None => None,
    }
}

/// The first two fields of the start of a build, which may go on with
/// fields of other types: the store path and the host.
pub open spec fn build_fields(fields: JsonView) -> Option<(Seq<char>, Seq<char>)> {
    match fields.items() {
        Some(items) => if items.len() >= 2 && items[0].text() is Some && items[1].text() is Some {
            Some((items[0].text()->0, items[1].text()->0))
        } else {
            None
        },
        None => None,
    }
}

/// The activity that the type code and the fields of a start stand for.
///
/// A code that no kind has gives the unknown activity. Fields that do not
/// fit the kind make the line malformed.
pub open spec fn activity_of(code: i64, fields: JsonView) -> Result<ActivityView, DecodeError> {
    if code == 100 {
        match text_fields(fields, 3) {
            Some(texts) => Ok(
                ActivityView::ActCopyPath(package_name(texts[0]), texts[0], texts[1], texts[2]),
            ),
            None => Err(DecodeError::MalformedLine),
        }
    } else if code == 101 {
        match text_fields(fields, 1) {
            Some(texts) => Ok(ActivityView::ActFileTransfer(texts[0])),
            None => Err(DecodeError::MalformedLine),
        }
    } else if code == 102 {
        Ok(ActivityView::ActRealise)
    } else if code == 103 {
        Ok(ActivityView::ActCopyPaths)
    } else if code == 104 {
        Ok(ActivityView::ActBuilds)
    } else if code == 105 {
        match build_fields(fields) {
            Some((path, host)) => Ok(ActivityView::ActBuild(package_name(path), path, host, 1, 1)),
            None => Err(DecodeError::MalformedLine),
        }
    } else if code == 106 {
        Ok(ActivityView::ActOptimiseStore)
    } else if code == 107 {
        Ok(ActivityView::ActVerifyPaths)
    } else if code == 108 {
        match text_fields(fields, 2) {
            Some(texts) => Ok(
                ActivityView::ActSubstitute(package_name(texts[0]), texts[0], texts[1]),
            ),
            None => Err(DecodeError::MalformedLine),
        }
    } else if code == 109 {
        match text_fields(fields, 2) {
            Some(texts) => Ok(
                ActivityView::ActQueryPathInfo(package_name(texts[0]), texts[0], texts[1]),
            ),
            None => Err(DecodeError::MalformedLine),
        }
    } else if code == 110 {
        match text_fields(fields, 1) {
            Some(texts) => Ok(ActivityView::ActPostBuildHook(texts[0])),
            None => Err(DecodeError::MalformedLine),
        }
    } else if code == 111 {
        Ok(ActivityView::ActBuildWaiting)
    } else {
        Ok(ActivityView::ActUnknown)
    }
}

/// The result with one string for the type code `code`, for the codes that
/// have one.
pub open spec fn text_result(code: i64, text: Seq<char>) -> ActivityResultView {
    if code == 101 {
        ActivityResultView::BuildLogLine(text)
    } else if code == 102 {
        ActivityResultView::UntrustedPath(text)
    } else if code == 103 {
        ActivityResultView::CorruptedPath(text)
    } else if code == 104 {
        ActivityResultView::SetPhase(text)
    } else {
        ActivityResultView::PostBuildLogLine(text)
    }
}

/// The result that the type code and the fields of an update stand for.
///
/// A code that no result has is an error of its own. Fields that do not fit
/// the result make the line malformed.
pub open spec fn result_of(code: i64, fields: JsonView) -> Result<ActivityResultView, DecodeError> {
    if code == 100 {
        match integer_fields(fields, 2) {
            Some(numbers) => Ok(ActivityResultView::FileLinked(numbers[0], numbers[1])),
            None => Err(DecodeError::MalformedLine),
        }
    } else if code == 101 || code == 102 || code == 103 || code == 104 || code == 107 {
        match text_fields(fields, 1) {
            Some(texts) => Ok(text_result(code, texts[0])),
            None => Err(DecodeError::MalformedLine),
        }
    } else if code == 105 {
        match integer_fields(fields, 4) {
            Some(numbers) => Ok(
                ActivityResultView::Progress(
                    ActivityProgress {
                        done: numbers[0],
                        expected: numbers[1],
                        running: numbers[2],
                        failed: numbers[3],
                    },
                ),
            ),
            None => Err(DecodeError::MalformedLine),
        }
    } else if code == 106 {
        match integer_fields(fields, 2) {
            Some(numbers) => Ok(
                ActivityResultView::SetExpected(activity_type_of(numbers[0]), numbers[1]),
            ),
            None => Err(DecodeError::MalformedLine),
        }
    } else {
        Err(DecodeError::UnknownResultCode)
    }
}

/// The integer that the member `name` of a document holds.
pub open spec fn integer_member(document: JsonView, name: Seq<char>) -> Option<i64> {
    match document.member(name) {
        Some(value) => value.integer(),
        None => None,
    }
}

/// The string that the member `name` of a document holds.
pub open spec fn text_member(document: JsonView, name: Seq<char>) -> Option<Seq<char>> {
    match document.member(name) {
        Some(value) => value.text(),
        None => None,
    }
}

/// The message of a document whose action is `start`.
pub open spec fn decoded_start(document: JsonView) -> Result<MessageView, DecodeError> {
    let id = integer_member(document, "id"@);
    let level = integer_member(document, "level"@);
    let text = text_member(document, "text"@);
    let code = integer_member(document, "type"@);
    let fields = match document.member("fields"@) {
        Some(fields) => fields,
        None => JsonView::Array(Seq::empty()),
    };
    if id is Some && level is Some && text is Some && code is Some {
        match activity_of(code->0, fields) {
            Ok(activity) => Ok(
                MessageView::Start {
                    id: id->0,
                    level: verbosity_of(level->0),
                    text: text->0,
                    activity,
                },
            ),
            Err(error) => Err(error),
        }
    } else {
        Err(DecodeError::MalformedLine)
    }
}

/// The message of a document whose action is `stop`.
pub open spec fn decoded_stop(document: JsonView) -> Result<MessageView, DecodeError> {
    match integer_member(document, "id"@) {
        Some(id) => Ok(MessageView::Stop { id }),
        None => Err(DecodeError::MalformedLine),
    }
}

/// The message of a document whose action is `result`.
pub open spec fn decoded_result(document: JsonView) -> Result<MessageView, DecodeError> {
    let id = integer_member(document, "id"@);
    let code = integer_member(document, "type"@);
    let fields = document.member("fields"@);
    if id is Some && code is Some && fields is Some {
        match result_of(code->0, fields->0) {
            Ok(result) => Ok(MessageView::Result { id: id->0, result }),
            Err(error) => Err(error),
        }
    } else {
        Err(DecodeError::MalformedLine)
    }
}

/// The message of a document whose action is `msg`.
pub open spec fn decoded_msg(document: JsonView) -> Result<MessageView, DecodeError> {
    let level = integer_member(document, "level"@);
    let msg = text_member(document, "msg"@);
    if level is Some && msg is Some {
        Ok(MessageView::Message { level: verbosity_of(level->0), msg: msg->0 })
    } else {
        Err(DecodeError::MalformedLine)
    }
}

/// The message that a document stands for.
///
/// The action is the string under `action`; a document without one, or with
/// one that is not known, has an unknown action. A document that lacks a
/// member that its action needs, or holds it with another type, is
/// malformed.
pub open spec fn decoded(document: JsonView) -> Result<MessageView, DecodeError> {
    match text_member(document, "action"@) {
        Some(action) => if action == "start"@ {
            decoded_start(document)
        } else if action == "stop"@ {
            decoded_stop(document)
        } else if action == "result"@ {
            decoded_result(document)
        } else if action == "msg"@ {
            decoded_msg(document)
        } else {
            Err(DecodeError::UnknownAction)
        },
        None => Err(DecodeError::UnknownAction),
    }
}

/// A line without the tag `@nix ` that the build tool may put before it.
pub open spec fn without_producer_tag(line: Seq<char>) -> Seq<char> {
    if starts_with(line, "@nix "@) {
        line.skip("@nix "@.len() as int)
    } else {
        line
    }
}

/// The message that a line of the log stands for: what is left of the line
/// without its tag is read as JSON, and the document decoded.
pub open spec fn decoded_line(line: Seq<char>) -> Result<MessageView, DecodeError> {
    match parsed_json(without_producer_tag(line)) {
        Some(document) => decoded(document),
        None => Err(DecodeError::MalformedLine),
    }
}

/// The id to go on with after a line: that of the activity that its message
/// is about, and -1 where there is none.
pub open spec fn line_id(decoded: Result<MessageView, DecodeError>) -> i64 {
    match decoded {
        Ok(message) => message.activity_id(),
        Err(_) => -1i64,
    }
}

/// Up to its first `-`, a path has the same rest as what follows.
proof fn lemma_after_first_dash(path: Seq<char>, at: int)
    requires
        0 <= at <= path.len(),
        forall|j: int| 0 <= j < at ==> path[j] != '-',
    ensures
        after_first_dash(path) == after_first_dash(path.skip(at)),
        at < path.len() && path[at] == '-' ==> after_first_dash(path) == Some(path.skip(at + 1)),
        at == path.len() ==> after_first_dash(path) is None,
    decreases at,
{
    if at == 0 {
        assert(path.skip(0) =~= path);
        if path.len() > 0 {
            assert(path.drop_first() =~= path.skip(1));
        }
    } else {
        lemma_after_first_dash(path.drop_first(), at - 1);
        assert(path.drop_first().skip(at - 1) =~= path.skip(at));
        if at < path.len() {
            assert(path.drop_first().skip(at) =~= path.skip(at + 1));
        }
    }
}

/// The package name of a store path.
pub fn get_package_from_drv(store_path: String) -> (out: String)
    ensures
        out@ == package_name(store_path@),
{
    let chars = chars_of(store_path.as_str());
    let mut dash: usize = 0;
    while dash < chars.len() && chars[dash] != '-'
        invariant
            dash <= chars.len(),
            forall|j: int| 0 <= j < dash ==> chars@[j] != '-',
        decreases chars.len() - dash,
    {
        dash += 1;
    }
    proof {
        lemma_after_first_dash(chars@, dash as int);
    }
    if dash == chars.len() {
        return store_path;
    }
    let from: usize = dash + 1;
    let suffix = chars_of(".drv");
    let ghost rest = chars@.skip(from as int);
    let mut to: usize = chars.len();
    if suffix.len() <= chars.len() - from && matches_at(&chars, &suffix, chars.len() - suffix.len()) {
        to = chars.len() - suffix.len();
        proof {
            let at = chars.len() - suffix.len();
            assert(rest.subrange(at - from, at - from + suffix.len()) =~= chars@.subrange(
                at,
                at + suffix.len(),
            ));
        }
    } else {
        proof {
            if suffix.len() <= chars.len() - from {
                let at = chars.len() - suffix.len();
                assert(rest.subrange(at - from, at - from + suffix.len()) =~= chars@.subrange(
                    at,
                    at + suffix.len(),
                ));
            }
        }
    }
    let ghost name = without_drv_suffix(rest);
    assert(name =~= chars@.subrange(from as int, to as int));
    let mut out = String::new();
    let mut j: usize = from;
    while j < to
        invariant
            from <= j <= to <= chars.len(),
            chars@ == store_path@,
            name == chars@.subrange(from as int, to as int),
            out@ == without_quotes(name.take(j - from)),
        decreases to - j,
    {
        proof {
            let next = name.take(j - from + 1);
            assert(next.drop_last() =~= name.take(j - from));
            assert(next.last() == chars@[j as int]);
        }
        if chars[j] != '"' {
            out.append(store_path.as_str().substring_char(j, j + 1));
            assert(store_path@.subrange(j as int, j + 1) =~= seq![chars@[j as int]]);
        }
        j += 1;
    }
    assert(name.take(to - from) =~= name);
    out
}

/// The verbosity with the code `lvl`; `Info` where no verbosity has it.
pub fn str_to_verbosity(lvl: i64) -> (out: Verbosity)
    ensures
        out == verbosity_of(lvl),
{
    match lvl {
        0 => Verbosity::Error,
        1 => Verbosity::Warn,
        2 => Verbosity::Notice,
        3 => Verbosity::Info,
        4 => Verbosity::Talkative,
        5 => Verbosity::Chatty,
        6 => Verbosity::Debug,
        7 => Verbosity::Vomit,
        _ => Verbosity::Info,
    }
}

/// The kind of activity with the code `number`; the unknown kind where no
/// kind has it.
pub fn number_to_activity_type(number: i64) -> (out: ActivityType)
    ensures
        out == activity_type_of(number),
{
    match number {
        100 => ActivityType::ActCopyPathType,
        101 => ActivityType::ActFileTransferType,
        102 => ActivityType::ActRealiseType,
        103 => ActivityType::ActCopyPathsType,
        104 => ActivityType::ActBuildsType,
        105 => ActivityType::ActBuildType,
        106 => ActivityType::ActOptimiseStoreType,
        107 => ActivityType::ActVerifyPathsType,
        108 => ActivityType::ActSubstituteType,
        109 => ActivityType::ActQueryPathInfoType,
        110 => ActivityType::ActPostBuildHookType,
        111 => ActivityType::ActBuildWaitingType,
        _ => ActivityType::ActUnknownType,
    }
}

/// The fields of a message as strings.
fn fields_as_texts(fields: &JsonValue, least: usize) -> (out: Option<Vec<String>>)
    ensures
        match out {
            Some(texts) => text_fields(fields@, least as int) == Some(texts_view(texts@)),
            None => text_fields(fields@, least as int) is None,
        },
{
    let items = match fields.as_items() {
        Some(items) => items,
        None => {
            return None;
        },
    };
    let ghost views = items_view(items@);
    let mut texts: Vec<String> = Vec::new();
    let mut i: usize = 0;
    while i < items.len()
        invariant
            i <= items.len(),
            views == items_view(items@),
            fields@.items() == Some(views),
            texts@.len() == i,
            forall|j: int| 0 <= j < i ==> (#[trigger] views[j]).text() == Some(texts@[j]@),
        decreases items.len() - i,
    {
        match items[i].as_text() {
            Some(text) => {
                texts.push(text.clone());
            },
            None => {
                assert(views[i as int].text() is None);
                return None;
            },
        }
        i += 1;
    }
    assert(all_texts(views) is Some);
    assert(all_texts(views)->0 =~= texts_view(texts@));
    if texts.len() >= least {
        Some(texts)
    } else {
        None
    }
}

/// The fields of a message as integers.
fn fields_as_integers(fields: &JsonValue, least: usize) -> (out: Option<Vec<i64>>)
    ensures
        match out {
            Some(numbers) => integer_fields(fields@, least as int) == Some(numbers@),
            None => integer_fields(fields@, least as int) is None,
        },
{
    let items = match fields.as_items() {
        Some(items) => items,
        None => {
            return None;
        },
    };
    let ghost views = items_view(items@);
    let mut numbers: Vec<i64> = Vec::new();
    let mut i: usize = 0;
    while i < items.len()
        invariant
            i <= items.len(),
            views == items_view(items@),
            fields@.items() == Some(views),
            numbers@.len() == i,
            forall|j: int| 0 <= j < i ==> (#[trigger] views[j]).integer() == Some(numbers@[j]),
        decreases items.len() - i,
    {
        match items[i].as_integer() {
            Some(number) => {
                numbers.push(number);
            },
            None => {
                assert(views[i as int].integer() is None);
                return None;
            },
        }
        i += 1;
    }
    assert(all_integers(views) is Some);
    assert(all_integers(views)->0 =~= numbers@);
    if numbers.len() >= least {
        Some(numbers)
    } else {
        None
    }
}

/// The store path and the host of the start of a build.
fn fields_of_build(fields: &JsonValue) -> (out: Option<(String, String)>)
    ensures
        match out {
            Some((path, host)) => build_fields(fields@) == Some((path@, host@)),
            None => build_fields(fields@) is None,
        },
{
    let items = match fields.as_items() {
        Some(items) => items,
        None => {
            return None;
        },
    };
    if items.len() < 2 {
        return None;
    }
    assert(items_view(items@)[0] == items@[0]@);
    assert(items_view(items@)[1] == items@[1]@);
    match (items[0].as_text(), items[1].as_text()) {
        (Some(path), Some(host)) => Some((path.clone(), host.clone())),
        _ => None,
    }
}

/// The activity that the type code and the fields of a start stand for.
pub fn str_to_activity(activity: i64, fields: &JsonValue) -> (out: Result<Activity, DecodeError>)
    ensures
        match out {
            Ok(decoded) => activity_of(activity, fields@) == Ok::<ActivityView, DecodeError>(
                decoded@,
            ),
            Err(error) => activity_of(activity, fields@) == Err::<ActivityView, DecodeError>(
                error,
            ),
        },
{
    match activity {
        100 => match fields_as_texts(fields, 3) {
            Some(texts) => {
                let store_path = texts[0].clone();
                let from = texts[1].clone();
                let to = texts[2].clone();
                let package_name = get_package_from_drv(store_path.clone());
                Ok(Activity::ActCopyPath(package_name, store_path, from, to))
            },
            None => Err(DecodeError::MalformedLine),
        },
        101 => match fields_as_texts(fields, 1) {
            Some(texts) => Ok(Activity::ActFileTransfer(texts[0].clone())),
            None => Err(DecodeError::MalformedLine),
        },
        102 => Ok(Activity::ActRealise),
        103 => Ok(Activity::ActCopyPaths),
        104 => Ok(Activity::ActBuilds),
        105 => match fields_of_build(fields) {
            Some((path, host)) => {
                let package_name = get_package_from_drv(path.clone());
                Ok(Activity::ActBuild(package_name, path, host, 1, 1))
            },
            None => Err(DecodeError::MalformedLine),
        },
        106 => Ok(Activity::ActOptimiseStore),
        107 => Ok(Activity::ActVerifyPaths),
        108 => match fields_as_texts(fields, 2) {
            Some(texts) => {
                let path = texts[0].clone();
                let host = texts[1].clone();
                let package_name = get_package_from_drv(path.clone());
                Ok(Activity::ActSubstitute(package_name, path, host))
            },
            None => Err(DecodeError::MalformedLine),
        },
        109 => match fields_as_texts(fields, 2) {
            Some(texts) => {
                let path = texts[0].clone();
                let host = texts[1].clone();
                let package_name = get_package_from_drv(path.clone());
                Ok(Activity::ActQueryPathInfo(package_name, path, host))
            },
            None => Err(DecodeError::MalformedLine),
        },
        110 => match fields_as_texts(fields, 1) {
            Some(texts) => Ok(Activity::ActPostBuildHook(texts[0].clone())),
            None => Err(DecodeError::MalformedLine),
        },
        111 => Ok(Activity::ActBuildWaiting),
        _ => Ok(Activity::ActUnknown),
    }
}

/// The result that the type code and the fields of an update stand for.
pub fn str_to_activity_result(activity_result: i64, fields: &JsonValue) -> (out: Result<
    ActivityResult,
    DecodeError,
>)
    ensures
        match out {
            Ok(decoded) => result_of(activity_result, fields@) == Ok::<
                ActivityResultView,
                DecodeError,
            >(decoded@),
            Err(error) => result_of(activity_result, fields@) == Err::<
                ActivityResultView,
                DecodeError,
            >(error),
        },
{
    match activity_result {
        100 => match fields_as_integers(fields, 2) {
            Some(numbers) => Ok(ActivityResult::FileLinked(numbers[0], numbers[1])),
            None => Err(DecodeError::MalformedLine),
        },
        101 => match fields_as_texts(fields, 1) {
            Some(texts) => Ok(ActivityResult::BuildLogLine(texts[0].clone())),
            None => Err(DecodeError::MalformedLine),
        },
        102 => match fields_as_texts(fields, 1) {
            Some(texts) => Ok(ActivityResult::UntrustedPath(texts[0].clone())),
            None => Err(DecodeError::MalformedLine),
        },
        103 => match fields_as_texts(fields, 1) {
            Some(texts) => Ok(ActivityResult::CorruptedPath(texts[0].clone())),
            None => Err(DecodeError::MalformedLine),
        },
        104 => match fields_as_texts(fields, 1) {
            Some(texts) => Ok(ActivityResult::SetPhase(texts[0].clone())),
            None => Err(DecodeError::MalformedLine),
        },
        105 => match fields_as_integers(fields, 4) {
            Some(numbers) => Ok(
                ActivityResult::Progress(
                    ActivityProgress {
                        done: numbers[0],
                        expected: numbers[1],
                        running: numbers[2],
                        failed: numbers[3],
                    },
                ),
            ),
            None => Err(DecodeError::MalformedLine),
        },
        106 => match fields_as_integers(fields, 2) {
            Some(numbers) => Ok(
                ActivityResult::SetExpected(number_to_activity_type(numbers[0]), numbers[1]),
            ),
            None => Err(DecodeError::MalformedLine),
        },
        107 => match fields_as_texts(fields, 1) {
            Some(texts) => Ok(ActivityResult::PostBuildLogLine(texts[0].clone())),
            None => Err(DecodeError::MalformedLine),
        },
        _ => Err(DecodeError::UnknownResultCode),
    }
}

/// The integer that the member `name` of a document holds.
fn member_as_integer(document: &JsonValue, name: &str) -> (out: Option<i64>)
    ensures
        out == integer_member(document@, name@),
{
    match document.member(name) {
        Some(value) => value.as_integer(),
        None => None,
    }
}

/// The string that the member `name` of a document holds.
fn member_as_text<'a>(document: &'a JsonValue, name: &str) -> (out: Option<&'a String>)
    ensures
        match out {
            Some(text) => text_member(document@, name@) == Some(text@),
            None => text_member(document@, name@) is None,
        },
{
    match document.member(name) {
        Some(value) => value.as_text(),
        None => None,
    }
}

/// Whether a string is the word `word`.
fn is_word(text: &String, word: &str) -> (out: bool)
    ensures
        out == (text@ == word@),
{
    let word = word.to_owned();
    *text == word
}

/// The message of a document whose action is `start`.
fn decode_start(document: &JsonValue) -> (out: Result<JSONMessage, DecodeError>)
    ensures
        decoded_view(out) == decoded_start(document@),
{
    let id = member_as_integer(document, "id");
    let level = member_as_integer(document, "level");
    let text = member_as_text(document, "text");
    let code = member_as_integer(document, "type");
    match (id, level, text, code) {
        (Some(id), Some(level), Some(text), Some(code)) => {
            let activity = match document.member("fields") {
                Some(fields) => str_to_activity(code, fields),
                None => {
                    let fields = JsonValue::Array(Vec::new());
                    assert(fields@ == JsonView::Array(Seq::empty())) by {
                        assert(fields@->Array_0 =~= Seq::<JsonView>::empty());
                    }
                    str_to_activity(code, &fields)
                },
            };
            match activity {
                Ok(activity) => Ok(
                    JSONMessage::Start(
                        StartAction {
                            id,
                            level: str_to_verbosity(level),
                            text: text.clone(),
                            activity,
                        },
                    ),
                ),
                Err(error) => Err(error),
            }
        },
        _ => Err(DecodeError::MalformedLine),
    }
}

/// The message of a document whose action is `result`.
fn decode_result(document: &JsonValue) -> (out: Result<JSONMessage, DecodeError>)
    ensures
        decoded_view(out) == decoded_result(document@),
{
    let id = member_as_integer(document, "id");
    let code = member_as_integer(document, "type");
    let fields = document.member("fields");
    match (id, code, fields) {
        (Some(id), Some(code), Some(fields)) => match str_to_activity_result(code, fields) {
            Ok(result) => Ok(JSONMessage::Result(ResultAction { id, result })),
            Err(error) => Err(error),
        },
        _ => Err(DecodeError::MalformedLine),
    }
}

/// The message of a document whose action is `msg`.
fn decode_msg(document: &JsonValue) -> (out: Result<JSONMessage, DecodeError>)
    ensures
        decoded_view(out) == decoded_msg(document@),
{
    let level = member_as_integer(document, "level");
    let msg = member_as_text(document, "msg");
    match (level, msg) {
        (Some(level), Some(msg)) => Ok(
            JSONMessage::Message(
                MessageAction { level: str_to_verbosity(level), msg: msg.clone() },
            ),
        ),
        _ => Err(DecodeError::MalformedLine),
    }
}

/// The message that a document stands for.
pub fn decode(document: &JsonValue) -> (out: Result<JSONMessage, DecodeError>)
    ensures
        decoded_view(out) == decoded(document@),
{
    let action = match member_as_text(document, "action") {
        Some(action) => action,
        None => {
            return Err(DecodeError::UnknownAction);
        },
    };
    if is_word(action, "start") {
        decode_start(document)
    } else if is_word(action, "stop") {
        match member_as_integer(document, "id") {
            Some(id) => Ok(JSONMessage::Stop(StopAction { id })),
            None => Err(DecodeError::MalformedLine),
        }
    } else if is_word(action, "result") {
        decode_result(document)
    } else if is_word(action, "msg") {
        decode_msg(document)
    } else {
        Err(DecodeError::UnknownAction)
    }
}

/// A line without the tag that the build tool may put before it.
pub fn strip_producer_tag(line: &str) -> (out: &str)
    ensures
        out@ == without_producer_tag(line@),
{
    let chars = chars_of(line);
    let tag = chars_of("@nix ");
    if matches_at(&chars, &tag, 0) {
        line.substring_char(tag.len(), chars.len())
    } else {
        line
    }
}

/// The id of the activity that a message is about; -1 for a message that
/// belongs to none.
pub fn id_of(message: &JSONMessage) -> (out: i64)
    ensures
        out == message@.activity_id(),
{
    match message {
        JSONMessage::Stop(stop) => stop.id,
        JSONMessage::Start(start) => start.id,
        JSONMessage::Result(result) => result.id,
        JSONMessage::Message(_) => -1,
    }
}

/// Decodes a line of the log. Beside the message or the reason why there is
/// none stands the id of the activity that the message is about, -1 where
/// there is none.
pub fn parse(line: String) -> (out: (Result<JSONMessage, DecodeError>, i64))
    ensures
        decoded_view(out.0) == decoded_line(line@),
        out.1 == line_id(decoded_line(line@)),
{
    match JsonValue::from_text(strip_producer_tag(line.as_str())) {
        Some(document) => {
            let decoded = decode(&document);
            let id = match &decoded {
                Ok(message) => id_of(message),
                Err(_) => -1,
            };
            (decoded, id)
        },
        None => (Err(DecodeError::MalformedLine), -1),
    }
}

} // verus!
