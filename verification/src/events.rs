//! The event loop: what each trigger event launches.

use vstd::prelude::*;

verus! {

/// Why a spell fired.
#[derive(Debug, PartialEq, Eq)]
pub enum TriggerInfo {
    /// Its clock ticked, at this second of the epoch.
    Timer { timestamp_sec: u64 },
    /// A peer connected or disconnected.
    Peer { peer_id: String, connected: bool },
}

impl Clone for TriggerInfo {
    fn clone(&self) -> (r: Self)
        ensures
            r == *self,
    {
        match self {
            TriggerInfo::Timer { timestamp_sec } => TriggerInfo::Timer {
                timestamp_sec: *timestamp_sec,
            },
            TriggerInfo::Peer { peer_id, connected } => TriggerInfo::Peer {
                peer_id: peer_id.clone(),
                connected: *connected,
            },
        }
    }
}

/// A spell fired.
#[derive(Debug, PartialEq, Eq)]
pub struct TriggerEvent {
    pub spell_id: String,
    pub info: TriggerInfo,
}

impl Clone for TriggerEvent {
    fn clone(&self) -> (r: Self)
        ensures
            r == *self,
    {
        TriggerEvent { spell_id: self.spell_id.clone(), info: self.info.clone() }
    }
}

/// One run of a spell's script, as the script engine is asked for it.
#[derive(Debug, PartialEq, Eq)]
pub struct Launch {
    /// The spell whose script runs. The run is traced under this name.
    pub spell_id: String,
    /// Why the spell fired.
    pub info: TriggerInfo,
    /// How long the particle of the script may live, in milliseconds.
    pub ttl_ms: u64,
}

/// The run that an event launches under a time-to-live of `ttl_ms`.
pub open spec fn launch_of(event: TriggerEvent, ttl_ms: u64) -> Launch {
    Launch { spell_id: event.spell_id, info: event.info, ttl_ms }
}

/// The runs that the events launch, one for each event and in their order.
pub open spec fn launches_of(events: Seq<TriggerEvent>, ttl_ms: u64) -> Seq<Launch> {
    events.map_values(|e: TriggerEvent| launch_of(e, ttl_ms))
}

/// The events in the order that `order` gives: place `i` of the result
/// holds the event at place `order[i]`.
pub open spec fn reordered<T>(items: Seq<T>, order: Seq<int>) -> Seq<T> {
    Seq::new(order.len(), |i: int| items[order[i]])
}

/// The loop that takes the trigger events from their channel.
///
/// The loop is open until the channel is reported closed. While it is
/// open, every event launches one run at once, whatever the number of runs
/// that have not finished. It keeps no account of them: no run is
/// cancelled, and none is waited for.
#[derive(Clone, Copy, Debug, PartialEq, Eq, Structural)]
pub struct EventLoop {
    pub ttl_ms: u64,
    pub closed: bool,
}

impl EventLoop {
    /// The loop after it took what the channel gave, and the run that it
    /// launches for it. An open loop launches the run of an event and
    /// stays open, and closes when the channel is closed; a closed loop
    /// launches nothing.
    pub open spec fn step(self, event: Option<TriggerEvent>) -> (EventLoop, Option<Launch>) {
        match event {
            Some(e) => if self.closed {
                (self, None)
            } else {
                (self, Some(launch_of(e, self.ttl_ms)))
            },
            None => (EventLoop { closed: true, ..self }, None),
        }
    }

    /// The loop after it took all that the channel gave, in order, and the
    /// runs that it launched, in the order of their events.
    pub open spec fn fed(self, given: Seq<Option<TriggerEvent>>) -> (EventLoop, Seq<Launch>)
        decreases given.len(),
    {
        if given.len() == 0 {
            (self, Seq::empty())
        } else {
            let (before, launched) = self.fed(given.drop_last());
            match before.step(given.last()).1 {
                Some(launch) => (before.step(given.last()).0, launched.push(launch)),
                None => (before.step(given.last()).0, launched),
            }
        }
    }

    /// The open loop that launches runs under a time-to-live of `ttl_ms`.
    pub fn new(ttl_ms: u64) -> (r: EventLoop)
        ensures
            r == (EventLoop { ttl_ms, closed: false }),
    {
        EventLoop { ttl_ms, closed: false }
    }

    /// The run that `event` launches.
    pub fn launch(&self, event: TriggerEvent) -> (r: Launch)
        ensures
            r == launch_of(event, self.ttl_ms),
    {
        Launch { spell_id: event.spell_id, info: event.info, ttl_ms: self.ttl_ms }
    }

    /// Takes what the channel gave: an event, or `None` once the channel
    /// is closed.
    ///
    /// An open loop answers an event with the run to launch and stays
    /// open; it answers the closing of the channel with `None` and is
    /// closed from then on. A closed loop answers `None` to everything.
    pub fn on_event(&mut self, event: Option<TriggerEvent>) -> (r: Option<Launch>)
        ensures
            (*final(self), r) == old(self).step(event),
    {
        if self.closed {
            return None;
        }
        match event {
            Some(e) => Some(self.launch(e)),
            None => {
                self.closed = true;
                None
            },
        }
    }

    /// The runs that a batch of events launches: in an open loop one for
    /// each event, in the order of the events; in a closed loop none.
    pub fn dispatch(&self, events: &Vec<TriggerEvent>) -> (r: Vec<Launch>)
        ensures
            r@ == if self.closed {
                Seq::<Launch>::empty()
            } else {
                launches_of(events@, self.ttl_ms)
            },
    {
        let mut out: Vec<Launch> = Vec::new();
        if self.closed {
            return out;
        }
        let mut i: usize = 0;
        while i < events.len()
            invariant
                i <= events.len(),
                out@ == launches_of(events@.take(i as int), self.ttl_ms),
            decreases events.len() - i,
        {
            out.push(self.launch(events[i].clone()));
            i += 1;
        }
        out
    }
}

} // verus!
