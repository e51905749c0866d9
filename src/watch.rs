//! The decisions of the watch loop: which file events reach the upload
//! handler, and which outcomes end the watch.

use crate::errors::{SocialError, WatchError};
use crate::text::{ends_with, has_suffix};
use vstd::prelude::*;

verus! {

/// How long repeated notifications for one path are merged into one event.
pub const DEBOUNCE_MILLIS: u64 = 1000;

/// The directory to watch, and whether its subdirectories are watched too.
#[derive(Debug)]
pub struct WatchTarget {
    pub directory: String,
    pub recursive: bool,
}

#[derive(Debug, PartialEq, Eq, Structural, Clone, Copy)]
pub enum FileEventKind {
    Created,
    Modified,
    Removed,
    Other,
}

/// A debounced notification about one path.
#[derive(Debug)]
pub struct FileEvent {
    pub kind: FileEventKind,
    pub path: String,
}

/// What the watch loop received.
#[derive(Debug)]
pub enum WatchInput {
    Event(FileEvent),
    /// The event channel is closed: no event will come any more.
    ChannelClosed,
}

/// How the upload handler finished with a path.
#[derive(Debug)]
pub enum HandlerOutcome {
    Posted,
    Failed(SocialError),
    /// The handler asks the watch to stop.
    Abort,
}

/// What the watch loop does next.
#[derive(Debug)]
pub enum WatchStep {
    /// Wait for the next event.
    Continue,
    /// Hand this path to the upload handler.
    Handle(String),
    /// Stop watching, with this failure.
    Stop(WatchError),
}

/// The step for one event: the handler gets the path of a created file whose
/// path ends with `suffix`, compared case-sensitively; every other event is
/// passed over.
pub open spec fn event_step(e: FileEvent, suffix: Seq<char>) -> WatchStep {
    if e.kind == FileEventKind::Created && has_suffix(e.path@, suffix) {
        WatchStep::Handle(e.path)
    } else {
        WatchStep::Continue
    }
}

pub open spec fn input_step(input: WatchInput, suffix: Seq<char>) -> WatchStep {
    match input {
        WatchInput::Event(e) => event_step(e, suffix),
        WatchInput::ChannelClosed => WatchStep::Stop(WatchError::Disconnected),
    }
}

/// A failed upload is reported and the watch goes on; only the handler's
/// request ends it.
pub open spec fn handler_step(outcome: HandlerOutcome) -> WatchStep {
    match outcome {
        HandlerOutcome::Abort => WatchStep::Stop(WatchError::Abort),
        _ => WatchStep::Continue,
    }
}

/// Decides what to do with what the watch loop received.
pub fn on_input(input: WatchInput, suffix: &str) -> (r: WatchStep)
    ensures
        r == input_step(input, suffix@),
        input matches WatchInput::Event(e) && !has_suffix(e.path@, suffix@) ==> r is Continue,
{
    match input {
        WatchInput::Event(e) => {
            if e.kind == FileEventKind::Created && ends_with(e.path.as_str(), suffix) {
                WatchStep::Handle(e.path)
            } else {
                WatchStep::Continue
            }
        },
        WatchInput::ChannelClosed => WatchStep::Stop(WatchError::Disconnected),
    }
}

/// Decides whether the watch goes on after the handler finished.
pub fn after_handler(outcome: &HandlerOutcome) -> (r: WatchStep)
    ensures
        r == handler_step(*outcome),
{
    match outcome {
        HandlerOutcome::Abort => WatchStep::Stop(WatchError::Abort),
        _ => WatchStep::Continue,
    }
}

/// The paths that a stream of events hands to the handler, in order.
pub open spec fn handled_paths(events: Seq<FileEvent>, suffix: Seq<char>) -> Seq<String>
    decreases events.len(),
{
    if events.len() == 0 {
        Seq::empty()
    } else {
        let before = handled_paths(events.drop_last(), suffix);
        match event_step(events.last(), suffix) {
            WatchStep::Handle(p) => before.push(p),
            _ => before,
        }
    }
}

/// Whatever the stream of events, every path handed to the handler ends with
/// the configured suffix: a file whose name does not is never uploaded.
pub proof fn lemma_only_matching_paths_handled(events: Seq<FileEvent>, suffix: Seq<char>)
    ensures
        forall|i: int|
            0 <= i < handled_paths(events, suffix).len() ==> has_suffix(
                #[trigger] handled_paths(events, suffix)[i]@,
                suffix,
            ),
    decreases events.len(),
{
    if events.len() > 0 {
        let before = handled_paths(events.drop_last(), suffix);
        lemma_only_matching_paths_handled(events.drop_last(), suffix);
        let all = handled_paths(events, suffix);
        assert forall|i: int| 0 <= i < all.len() implies has_suffix(#[trigger] all[i]@, suffix) by {
            if i < before.len() {
                assert(all[i] == before[i]);
            }
        }
    }
}

} // verus!
