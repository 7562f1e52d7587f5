//! Port discovery: from the notifications of a file watcher to a single outcome.
//!
//! The watcher reports changes in the directory of the port file. After each
//! report the file is read again, and what was seen is handed to a
//! [`PortDiscovery`]. The first notification that settles the matter latches the
//! outcome; whatever comes later is dropped.

use vstd::prelude::*;
use crate::port_file::{is_complete, numeral_u16, read_port_file, reading_of, PortReading};
use crate::text::trim;

verus! {

/// What one notification of the watcher found.
#[derive(Clone, Debug, PartialEq, Eq)]
pub enum Notification {
    /// The watcher itself reported an error.
    WatchFailed,
    /// The port file does not exist yet.
    FileMissing,
    /// The port file exists and could not be read.
    ReadFailed,
    /// The port file was read, with these contents.
    Contents(String),
}

/// A notification with its text as a sequence of characters.
pub enum NotificationView {
    WatchFailed,
    FileMissing,
    ReadFailed,
    Contents(Seq<char>),
}

impl View for Notification {
    type V = NotificationView;

    open spec fn view(&self) -> NotificationView {
        match self {
            Notification::WatchFailed => NotificationView::WatchFailed,
            Notification::FileMissing => NotificationView::FileMissing,
            Notification::ReadFailed => NotificationView::ReadFailed,
            Notification::Contents(text) => NotificationView::Contents(text@),
        }
    }
}

/// Why discovery failed. Each of these ends the startup.
#[derive(Clone, Copy, Debug, PartialEq, Eq, Structural)]
pub enum DiscoveryError {
    /// The directory could not be watched.
    WatchFailed,
    /// The port file could not be read.
    ReadFailed,
    /// The port file holds a finished line that is no 16-bit number.
    MalformedPort,
}

/// The one result of a watch session.
#[derive(Clone, Copy, Debug, PartialEq, Eq, Structural)]
pub enum Outcome {
    /// The server listens on this port.
    Port(u16),
    /// Discovery failed.
    Failed(DiscoveryError),
}

/// What a notification settles on its own: nothing while the file is missing or
/// its line unfinished, else the port or the failure.
pub open spec fn verdict(n: NotificationView) -> Option<Outcome> {
    match n {
        NotificationView::WatchFailed => Some(Outcome::Failed(DiscoveryError::WatchFailed)),
        NotificationView::FileMissing => None,
        NotificationView::ReadFailed => Some(Outcome::Failed(DiscoveryError::ReadFailed)),
        NotificationView::Contents(text) => match reading_of(text) {
            PortReading::Pending => None,
            PortReading::Port(port) => Some(Outcome::Port(port)),
            PortReading::Malformed => Some(Outcome::Failed(DiscoveryError::MalformedPort)),
        },
    }
}

/// One step of a session: the latch after the notification, and what the
/// notification delivers to the waiting caller.
pub open spec fn step(latch: Option<Outcome>, n: NotificationView) -> (
    Option<Outcome>,
    Option<Outcome>,
) {
    if latch is Some {
        (latch, None)
    } else {
        (verdict(n), verdict(n))
    }
}

/// The latch after a session has seen `events`, starting empty.
pub open spec fn latch_after(events: Seq<NotificationView>) -> Option<Outcome>
    decreases events.len(),
{
    if events.len() == 0 {
        None
    } else {
        step(latch_after(events.drop_last()), events.last()).0
    }
}

/// What the `i`-th notification of a session delivers.
pub open spec fn delivered_at(events: Seq<NotificationView>, i: int) -> Option<Outcome>
    recommends
        0 <= i < events.len(),
{
    step(latch_after(events.take(i)), events[i]).1
}

/// Whether a notification shows a write that is still under way, or none.
pub open spec fn is_unfinished(n: NotificationView) -> bool {
    match n {
        NotificationView::FileMissing => true,
        NotificationView::Contents(text) => !is_complete(text),
        _ => false,
    }
}

/// Judges one notification by itself.
pub fn judge(n: &Notification) -> (r: Option<Outcome>)
    ensures
        r == verdict(n@),
{
    match n {
        Notification::WatchFailed => Some(Outcome::Failed(DiscoveryError::WatchFailed)),
        Notification::FileMissing => None,
        Notification::ReadFailed => Some(Outcome::Failed(DiscoveryError::ReadFailed)),
        Notification::Contents(text) => match read_port_file(text.as_str()) {
            PortReading::Pending => None,
            PortReading::Port(port) => Some(Outcome::Port(port)),
            PortReading::Malformed => Some(Outcome::Failed(DiscoveryError::MalformedPort)),
        },
    }
}

/// A watch session with its single-delivery latch.
#[derive(Clone, Copy, Debug, PartialEq, Eq)]
pub struct PortDiscovery {
    latch: Option<Outcome>,
}

impl PortDiscovery {
    /// The outcome that the session has latched, if any.
    pub closed spec fn latch(&self) -> Option<Outcome> {
        self.latch
    }

    /// A session that has seen nothing.
    pub fn new() -> (d: PortDiscovery)
        ensures
            d.latch() is None,
    {
        PortDiscovery { latch: None }
    }

    /// Takes one notification and returns what is to be delivered for it.
    ///
    /// While nothing is latched, the notification is judged; its verdict, if it
    /// has one, is latched and delivered. Afterwards nothing is delivered again.
    pub fn notify(&mut self, n: &Notification) -> (sent: Option<Outcome>)
        ensures
            final(self).latch() == step(old(self).latch(), n@).0,
            sent == step(old(self).latch(), n@).1,
    {
        if self.latch.is_some() {
            return None;
        }
        let sent = judge(n);
        self.latch = sent;
        sent
    }

    /// The latched outcome: what the caller of the session receives.
    pub fn outcome(&self) -> (r: Option<Outcome>)
        ensures
            r == self.latch(),
    {
        self.latch
    }

    /// Whether the watch can be cancelled: an outcome has been obtained.
    pub fn is_settled(&self) -> (r: bool)
        ensures
            r == self.latch() is Some,
    {
        self.latch.is_some()
    }
}

/// Once an outcome is latched it stays, whatever is seen later.
pub proof fn lemma_latch_holds(events: Seq<NotificationView>, i: int, j: int)
    requires
        0 <= i <= j <= events.len(),
        latch_after(events.take(i)) is Some,
    ensures
        latch_after(events.take(j)) == latch_after(events.take(i)),
    decreases j - i,
{
    if i < j {
        lemma_latch_holds(events, i, j - 1);
        assert(events.take(j).drop_last() =~= events.take(j - 1));
    }
}

/// A session delivers at most one outcome: of two notifications, not both
/// deliver one.
pub proof fn lemma_at_most_one_delivery(events: Seq<NotificationView>, i: int, j: int)
    requires
        0 <= i < j < events.len(),
    ensures
        !(delivered_at(events, i) is Some && delivered_at(events, j) is Some),
{
    if delivered_at(events, i) is Some {
        lemma_latch_holds(events, i + 1, j);
    }
}

/// What is delivered is what the session ends with: the caller receives the
/// outcome of the first notification that had a verdict.
pub proof fn lemma_delivery_is_final(events: Seq<NotificationView>, i: int)
    requires
        0 <= i < events.len(),
        delivered_at(events, i) is Some,
    ensures
        latch_after(events) == delivered_at(events, i),
{
    assert(events.take(i + 1).drop_last() =~= events.take(i));
    lemma_latch_holds(events, i + 1, events.len() as int);
    assert(events.take(events.len() as int) =~= events);
}

/// While every notification shows a missing file or an unfinished line, nothing
/// is latched and nothing is delivered: a partial write never triggers delivery.
pub proof fn lemma_unfinished_writes_deliver_nothing(events: Seq<NotificationView>)
    requires
        forall|k: int| 0 <= k < events.len() ==> is_unfinished(#[trigger] events[k]),
    ensures
        latch_after(events) is None,
        forall|k: int| 0 <= k < events.len() ==> delivered_at(events, k) is None,
    decreases events.len(),
{
    if events.len() > 0 {
        lemma_unfinished_writes_deliver_nothing(events.drop_last());
    }
}

/// A port is delivered only for contents that end with a line feed and denote
/// that port.
pub proof fn lemma_port_needs_complete_line(events: Seq<NotificationView>, i: int, port: u16)
    requires
        0 <= i < events.len(),
        delivered_at(events, i) == Some(Outcome::Port(port)),
    ensures
        events[i] matches NotificationView::Contents(text) && is_complete(text) && numeral_u16(
            trim(text),
        ) == Some(port),
{
}

/// A finished line that is no 16-bit number makes the session fail, if it is
/// still open, and no port is ever delivered in that session.
pub proof fn lemma_malformed_line_fails(events: Seq<NotificationView>, i: int, j: int)
    requires
        0 <= i < events.len(),
        0 <= j < events.len(),
        latch_after(events.take(i)) is None,
        events[i] matches NotificationView::Contents(text) && is_complete(text) && numeral_u16(
            trim(text),
        ) is None,
    ensures
        delivered_at(events, i) == Some(Outcome::Failed(DiscoveryError::MalformedPort)),
        latch_after(events) == Some(Outcome::Failed(DiscoveryError::MalformedPort)),
        !(delivered_at(events, j) matches Some(Outcome::Port(_))),
{
    lemma_delivery_is_final(events, i);
    if i < j {
        lemma_at_most_one_delivery(events, i, j);
    } else if j < i {
        lemma_at_most_one_delivery(events, j, i);
    }
}

} // verus!
