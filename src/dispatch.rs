use vstd::prelude::*;
use crate::estimate::{calculate_time_until_play, time_until_play, QueuedItem, TimeToPlay};
use crate::query::{Mode, QueryType};

verus! {

/// How a single item (keyword search or video link) is queued.
#[derive(PartialEq, Eq, Structural, Clone, Copy, Debug)]
pub enum SinglePlan {
    /// Append at the end.
    Append,
    /// Insert at the given index.
    InsertAt(usize),
    /// Append, rotate it right behind the current item, then skip the current one.
    JumpToFront,
    /// Bulk modes cannot play a single item.
    BulkOfSingle,
}

/// Order in which the extractor lists a playlist's entries.
#[derive(PartialEq, Eq, Structural, Clone, Copy, Debug)]
pub enum PlaylistOrder {
    Natural,
    Reverse,
    Shuffle,
}

/// The kind of list that a bulk run goes through.
#[derive(PartialEq, Eq, Structural, Clone, Copy, Debug)]
pub enum ListKind {
    /// Entries of a playlist link.
    Playlist,
    /// Search terms of a keyword list.
    Keywords,
}

/// What a play command does with a resolved query.
#[derive(PartialEq, Eq, Structural, Clone, Copy, Debug)]
pub enum Plan {
    Single(SinglePlan),
    /// Expand the playlist in the given order, then run the entries in bulk.
    Playlist(PlaylistOrder),
    /// Run the search terms of the keyword list in bulk.
    KeywordList,
}

pub open spec fn single_plan_spec(mode: Mode, queue_was_empty: bool) -> SinglePlan {
    match mode {
        Mode::End => SinglePlan::Append,
        Mode::Next => SinglePlan::InsertAt(1),
        Mode::Jump => if queue_was_empty {
            SinglePlan::Append
        } else {
            SinglePlan::JumpToFront
        },
        _ => SinglePlan::BulkOfSingle,
    }
}

pub open spec fn playlist_order_spec(mode: Mode) -> PlaylistOrder {
    match mode {
        Mode::Reverse => PlaylistOrder::Reverse,
        Mode::Shuffle => PlaylistOrder::Shuffle,
        _ => PlaylistOrder::Natural,
    }
}

/// The plan for a single item in `mode`; `queue_was_empty` is read before
/// any change to the queue.
pub fn single_item_plan(mode: Mode, queue_was_empty: bool) -> (r: SinglePlan)
    ensures
        r == single_plan_spec(mode, queue_was_empty),
{
    match mode {
        Mode::End => SinglePlan::Append,
        Mode::Next => SinglePlan::InsertAt(1),
        Mode::Jump => if queue_was_empty {
            SinglePlan::Append
        } else {
            SinglePlan::JumpToFront
        },
        _ => SinglePlan::BulkOfSingle,
    }
}

/// The extractor order for a playlist in `mode`.
pub fn playlist_order(mode: Mode) -> (r: PlaylistOrder)
    ensures
        r == playlist_order_spec(mode),
{
    match mode {
        Mode::Reverse => PlaylistOrder::Reverse,
        Mode::Shuffle => PlaylistOrder::Shuffle,
        _ => PlaylistOrder::Natural,
    }
}

/// Arguments handed to the extractor to list a playlist's entries flat, as
/// JSON, in `order`.
pub fn playlist_args(order: PlaylistOrder) -> (r: Vec<String>)
    ensures
        r@.len() == if order == PlaylistOrder::Natural {
            2int
        } else {
            3int
        },
        r@[0]@ == "--flat-playlist"@,
        r@[1]@ == "-j"@,
        order == PlaylistOrder::Reverse ==> r@[2]@ == "--playlist-reverse"@,
        order == PlaylistOrder::Shuffle ==> r@[2]@ == "--playlist-random"@,
{
    let mut args: Vec<String> = Vec::new();
    args.push("--flat-playlist".to_owned());
    args.push("-j".to_owned());
    match order {
        PlaylistOrder::Reverse => args.push("--playlist-reverse".to_owned()),
        PlaylistOrder::Shuffle => args.push("--playlist-random".to_owned()),
        PlaylistOrder::Natural => {},
    }
    args
}

pub open spec fn plan_spec(query: QueryType, mode: Mode, queue_was_empty: bool) -> Plan {
    match query {
        QueryType::Keywords(_) | QueryType::VideoLink(_) => Plan::Single(
            single_plan_spec(mode, queue_was_empty),
        ),
        QueryType::PlaylistLink(_) => Plan::Playlist(playlist_order_spec(mode)),
        QueryType::KeywordList(_) => Plan::KeywordList,
    }
}

/// Selects the plan for a resolved query in `mode`.
pub fn plan_for(query: &QueryType, mode: Mode, queue_was_empty: bool) -> (r: Plan)
    ensures
        r == plan_spec(*query, mode, queue_was_empty),
{
    match query {
        QueryType::Keywords(_) | QueryType::VideoLink(_) => Plan::Single(
            single_item_plan(mode, queue_was_empty),
        ),
        QueryType::PlaylistLink(_) => Plan::Playlist(playlist_order(mode)),
        QueryType::KeywordList(_) => Plan::KeywordList,
    }
}

/// A failed entry ends the whole command for keyword lists and in `Next`
/// mode; otherwise it is skipped.
pub open spec fn failure_is_fatal(mode: Mode, kind: ListKind) -> bool {
    kind == ListKind::Keywords || mode == Mode::Next
}

/// Where the next entry of a bulk run goes.
#[derive(PartialEq, Eq, Structural, Clone, Copy, Debug)]
pub enum Placement {
    Append,
    InsertAt(usize),
}

/// What to do once an entry of a bulk run has been tried.
#[derive(PartialEq, Eq, Structural, Clone, Copy, Debug)]
pub enum AfterEntry {
    /// Go on with the next entry.
    Continue,
    /// Skip the current item so that the one just inserted plays, then go on.
    ForceSkip,
    /// Stop the command.
    Abort,
}

/// State of a bulk run over the entries of a list.
pub struct BulkRun {
    pub mode: Mode,
    pub kind: ListKind,
    pub queue_was_empty: bool,
    /// Entries tried so far.
    pub position: usize,
    /// Index at which the next entry is inserted (`Next` and `Jump`).
    pub insert_index: usize,
}

impl BulkRun {
    pub open spec fn wf(&self) -> bool {
        1 <= self.insert_index <= self.position + 1
    }

    /// A run before its first entry.
    pub fn new(mode: Mode, kind: ListKind, queue_was_empty: bool) -> (r: BulkRun)
        ensures
            r.wf(),
            r.mode == mode,
            r.kind == kind,
            r.queue_was_empty == queue_was_empty,
            r.position == 0,
            r.insert_index == 1,
    {
        BulkRun { mode, kind, queue_was_empty, position: 0, insert_index: 1 }
    }

    pub open spec fn placement_spec(&self) -> Placement {
        if self.mode == Mode::Next || self.mode == Mode::Jump {
            Placement::InsertAt(self.insert_index)
        } else {
            Placement::Append
        }
    }

    /// Where the next entry goes: at the running index in `Next` and `Jump`
    /// modes, at the end otherwise.
    pub fn placement(&self) -> (r: Placement)
        ensures
            r == self.placement_spec(),
    {
        if self.mode == Mode::Next || self.mode == Mode::Jump {
            Placement::InsertAt(self.insert_index)
        } else {
            Placement::Append
        }
    }

    /// Records the outcome of the current entry and says what comes next. A
    /// failure aborts when fatal and is skipped otherwise. A success advances
    /// the insertion index, except for the first entry of a `Jump` onto a
    /// queue that had items: that one is made current by a skip instead.
    pub fn record(&mut self, queued: bool) -> (r: AfterEntry)
        requires
            old(self).wf(),
            old(self).position + 1 < usize::MAX,
        ensures
            final(self).wf(),
            final(self).mode == old(self).mode,
            final(self).kind == old(self).kind,
            final(self).queue_was_empty == old(self).queue_was_empty,
            final(self).position == old(self).position + 1,
            !queued ==> final(self).insert_index == old(self).insert_index && r == (if failure_is_fatal(
                old(self).mode,
                old(self).kind,
            ) {
                AfterEntry::Abort
            } else {
                AfterEntry::Continue
            }),
            queued && old(self).mode == Mode::Jump && old(self).position == 0
                && !old(self).queue_was_empty ==> final(self).insert_index == old(
                self,
            ).insert_index && r == AfterEntry::ForceSkip,
            queued && !(old(self).mode == Mode::Jump && old(self).position == 0
                && !old(self).queue_was_empty) ==> final(self).insert_index == old(
                self,
            ).insert_index + 1 && r == AfterEntry::Continue,
    {
        let first = self.position == 0;
        self.position = self.position + 1;
        if !queued {
            if self.kind == ListKind::Keywords || self.mode == Mode::Next {
                return AfterEntry::Abort;
            }
            return AfterEntry::Continue;
        }
        if self.mode == Mode::Jump && first && !self.queue_was_empty {
            AfterEntry::ForceSkip
        } else {
            self.insert_index = self.insert_index + 1;
            AfterEntry::Continue
        }
    }
}

/// The reply once the queue has been changed.
#[derive(PartialEq, Eq, Structural, Clone, Copy, Debug)]
pub enum Reply {
    /// Show the item at this index with the estimated wait.
    Queued(usize, TimeToPlay),
    /// A whole list was queued.
    ListQueued,
    /// The queue holds one item: show it as now playing.
    NowPlaying,
    /// Nothing to show.
    Silent,
}

pub open spec fn reply_spec(queue: Seq<QueuedItem>, is_list: bool, mode: Mode) -> Reply {
    if queue.len() > 1 {
        if is_list {
            Reply::ListQueued
        } else if mode == Mode::Next {
            Reply::Queued(1, time_until_play(queue, mode)->0)
        } else if mode == Mode::End {
            Reply::Queued((queue.len() - 1) as usize, time_until_play(queue, mode)->0)
        } else {
            Reply::Silent
        }
    } else if queue.len() == 1 {
        Reply::NowPlaying
    } else {
        Reply::Silent
    }
}

/// Chooses the reply from the queue after the change: with more than one
/// item, the item inserted next (`Next`) or last (`End`) with its estimated
/// wait, or a list notice; with one item, that item as now playing.
pub fn reply_for(queue: &Vec<QueuedItem>, is_list: bool, mode: Mode) -> (r: Reply)
    ensures
        r == reply_spec(queue@, is_list, mode),
{
    let len = queue.len();
    if len > 1 {
        if is_list {
            Reply::ListQueued
        } else if mode == Mode::Next || mode == Mode::End {
            let wait = match calculate_time_until_play(queue, mode) {
                Some(t) => t,
                None => TimeToPlay::Infinite,
            };
            if mode == Mode::Next {
                Reply::Queued(1, wait)
            } else {
                Reply::Queued(len - 1, wait)
            }
        } else {
            Reply::Silent
        }
    } else if len == 1 {
        Reply::NowPlaying
    } else {
        Reply::Silent
    }
}

} // verus!
