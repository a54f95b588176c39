//! Notifications for external listeners, delivered strictly in the order in
//! which they were raised.

use crate::playback_state::{PlaybackData, PlaybackState};
use crate::song::{Song, SongData};
use vstd::prelude::*;

verus! {

/// The ghost image of a [`Notification`].
pub enum NotificationData {
    PlaybackStateChanged(PlaybackData),
    TitleChanged(Seq<char>),
    SegmentCompleted(SongData),
}

/// One message to the listeners outside the player core: the graph's run
/// state changed, the displayed track title changed, or a segment was
/// finalized into a playable file.
#[derive(Debug)]
pub enum Notification {
    PlaybackStateChanged(PlaybackState),
    TitleChanged(String),
    SegmentCompleted(Song),
}

impl View for Notification {
    type V = NotificationData;

    open spec fn view(&self) -> NotificationData {
        match self {
            Notification::PlaybackStateChanged(state) => NotificationData::PlaybackStateChanged(
                state@,
            ),
            Notification::TitleChanged(title) => NotificationData::TitleChanged(title@),
            Notification::SegmentCompleted(song) => NotificationData::SegmentCompleted(song@),
        }
    }
}

/// A first-in, first-out queue of notifications.  Everything the player has
/// to say to the outside travels through one bus, so the order listeners see
/// is exactly the order in which events were raised.
#[derive(Debug)]
pub struct EventBus {
    queue: Vec<Notification>,
}

impl View for EventBus {
    type V = Seq<NotificationData>;

    closed spec fn view(&self) -> Seq<NotificationData> {
        self.queue@.map_values(|n: Notification| n@)
    }
}

impl EventBus {
    /// An empty bus.
    pub fn new() -> (bus: EventBus)
        ensures
            bus@ == Seq::<NotificationData>::empty(),
    {
        let bus = EventBus { queue: Vec::new() };
        proof {
            assert(bus@ =~= Seq::<NotificationData>::empty());
        }
        bus
    }

    /// Appends one notification at the back of the queue; nothing already
    /// queued moves.
    pub fn publish(&mut self, n: Notification)
        ensures
            final(self)@ == old(self)@.push(n@),
    {
        let ghost before = self.queue@;
        self.queue.push(n);
        proof {
            assert(self.queue@.map_values(|m: Notification| m@) =~= before.map_values(
                |m: Notification| m@,
            ).push(self.queue@.last()@));
        }
    }

    /// Takes the oldest queued notification, if any.
    pub fn take_next(&mut self) -> (n: Option<Notification>)
        ensures
            old(self)@.len() == 0 ==> n is None && final(self)@ == old(self)@,
            old(self)@.len() > 0 ==> (n matches Some(first) && first@ == old(self)@[0]
                && final(self)@ == old(self)@.drop_first()),
    {
        if self.queue.len() == 0 {
            None
        } else {
            let ghost before = self.queue@;
            let first = self.queue.remove(0);
            proof {
                assert(self.queue@.map_values(|m: Notification| m@) =~= before.map_values(
                    |m: Notification| m@,
                ).drop_first());
            }
            Some(first)
        }
    }

    /// How many notifications are waiting.
    pub fn len(&self) -> (n: usize)
        ensures
            n == self@.len(),
    {
        self.queue.len()
    }
}

} // verus!
