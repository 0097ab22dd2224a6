//! A whole run: the messages of a log applied one after the other.

use crate::nix_logs::process_logs::{lemma_with_path, step};
use crate::nix_logs::types::MessageView;
use crate::nix_tracker::types::{lemma_report_total, report_of, CommandStateView};
use std::time::SystemTime;
use vstd::prelude::*;

verus! {

/// One line of the log as the tracker gets it: what the line decoded to, the
/// id that stands for the messages without one, and the time.
pub struct Event {
    pub context: i64,
    pub message: Option<MessageView>,
    pub now: SystemTime,
}

/// The state after the events of a log, applied in their order.
pub open spec fn run(state: CommandStateView, events: Seq<Event>) -> CommandStateView
    decreases events.len(),
{
    if events.len() == 0 {
        state
    } else {
        let last = events.last();
        step(run(state, events.drop_last()), last.context, last.message, last.now).0
    }
}

/// The ids of the activities that the events start.
pub open spec fn started_ids(events: Seq<Event>) -> Set<i64>
    decreases events.len(),
{
    if events.len() == 0 {
        Set::empty()
    } else {
        match events.last().message {
            Some(MessageView::Start { id, .. }) => started_ids(events.drop_last()).insert(id),
            _ => started_ids(events.drop_last()),
        }
    }
}

/// The store paths of the activities that the events start.
pub open spec fn started_paths(events: Seq<Event>) -> Set<Seq<char>>
    decreases events.len(),
{
    if events.len() == 0 {
        Set::empty()
    } else {
        match events.last().message {
            Some(MessageView::Start { activity, .. }) => match activity.store_path() {
                Some(path) => started_paths(events.drop_last()).insert(path),
                None => started_paths(events.drop_last()),
            },
            _ => started_paths(events.drop_last()),
        }
    }
}

/// A run holds an activity for each id that was in the state or was started,
/// and for no other; it lists each store path that was listed or belongs to
/// a start, and lists none twice where none was listed twice.
pub proof fn lemma_run(state: CommandStateView, events: Seq<Event>)
    ensures
        run(state, events).activity.dom() == state.activity.dom().union(started_ids(events)),
        state.activity.dom().finite() ==> run(state, events).activity.dom().finite(),
        forall|path: Seq<char>|
            state.required_derivations.contains(path) || started_paths(events).contains(path)
                ==> run(state, events).required_derivations.contains(path),
        state.wf() ==> run(state, events).wf(),
        run(state, events).start == state.start,
        run(state, events).end == state.end,
    decreases events.len(),
{
    if events.len() == 0 {
        assert(state.activity.dom().union(started_ids(events)) =~= state.activity.dom());
    } else {
        let rest = events.drop_last();
        let last = events.last();
        let before = run(state, rest);
        let after = run(state, events);
        lemma_run(state, rest);
        match last.message {
            Some(MessageView::Start { id, activity, .. }) => {
                assert(after.activity.dom() =~= before.activity.dom().insert(id));
                assert(after.activity.dom() =~= state.activity.dom().union(started_ids(events)));
                match activity.store_path() {
                    Some(path) => {
                        lemma_with_path(before.required_derivations, path);
                    },
                    None => {},
                }
            },
            Some(MessageView::Stop { id }) => {
                assert(after.activity.dom() =~= before.activity.dom());
            },
            Some(MessageView::Result { id, result }) => {
                assert(after.activity.dom() =~= before.activity.dom());
            },
            Some(MessageView::Message { .. }) => {},
            None => {},
        }
    }
}

/// The report of a run that began with no activity has one record for each
/// id that was started, however often it was started and whatever else the
/// log held.
pub proof fn lemma_report_of_run(state: CommandStateView, events: Seq<Event>, now: SystemTime)
    requires
        state.activity.dom() == Set::<i64>::empty(),
    ensures
        started_ids(events).finite(),
        report_of(run(state, events), now).total() == started_ids(events).len(),
{
    lemma_run(state, events);
    assert(state.activity.dom().union(started_ids(events)) =~= started_ids(events));
    lemma_report_total(run(state, events), now);
}

} // verus!
