use vstd::prelude::*;

use crate::context::{add_outcome, remove_outcome, Context, Slot};
use crate::device::Device;
use crate::error::Error;
use crate::id::Id;

verus! {

/// A USB hotplug event.
#[derive(Copy, Clone, Debug, PartialEq, Eq, Structural, Hash)]
pub enum Event {
    /// A USB device was plugged in.
    Add(Id),
    /// A USB device was removed.
    Remove(Id),
}

/// The kind of a raw event of the device subsystem.
#[derive(Copy, Clone, Debug, PartialEq, Eq, Structural, Hash)]
pub enum EventType {
    Add,
    Remove,
    Change,
    Unknown,
}

/// One raw event read from the monitor socket: its kind, the locator of the
/// device it concerns, and that device as read when the event arrived
/// (`None` when it could not be read, as after a removal).
#[derive(Clone, Debug)]
pub struct RawEvent {
    pub event_type: EventType,
    pub locator: String,
    pub device: Option<Device>,
}

/// What the driver of a monitor observed when it was woken.
#[derive(Debug)]
pub enum Wake {
    /// Registering the socket, or asking it for readiness, failed.
    Failed(std::io::ErrorKind),
    /// The socket is not readable yet.
    NotReadable,
    /// The socket was readable; this is the one event read from it, `None`
    /// when none was there after all.
    Readable(Option<RawEvent>),
    /// The raw feed is closed.
    Ended,
}

/// The outcome of one poll: an event or the end of the stream, or nothing yet.
#[derive(Copy, Clone, Debug, PartialEq, Eq, Structural, Hash)]
pub enum Async {
    Ready(Option<Event>),
    NotReady,
}

/// The table, and the event to report, after reconciling one raw event.
/// Change and unknown events are dropped, as are adds of devices that are
/// not registered and removes of locators that are not connected.
pub open spec fn reconcile(s: Seq<Slot>, ev: RawEvent) -> (Seq<Slot>, Option<Event>) {
    match ev.event_type {
        EventType::Add => {
            let (t, id) = add_outcome(s, ev.device);
            match id {
                Some(i) => (t, Some(Event::Add(i))),
                None => (t, None),
            }
        },
        EventType::Remove => {
            let (t, id) = remove_outcome(s, ev.locator@);
            match id {
                Some(i) => (t, Some(Event::Remove(i))),
                None => (t, None),
            }
        },
        _ => (s, None),
    }
}

/// The table, whether the monitor is closed, and the poll's result, after a
/// poll of a monitor that was `closed` before, on wake-up `wake`.
pub open spec fn poll_outcome(s: Seq<Slot>, closed: bool, wake: Wake) -> (
    Seq<Slot>,
    bool,
    Result<Async, Error>,
) {
    if closed {
        (s, true, Ok(Async::Ready(None)))
    } else {
        match wake {
            Wake::Failed(kind) => (s, true, Err(Error::Io(kind))),
            Wake::NotReadable => (s, false, Ok(Async::NotReady)),
            Wake::Readable(None) => (s, false, Ok(Async::NotReady)),
            Wake::Readable(Some(ev)) => {
                let (t, e) = reconcile(s, ev);
                match e {
                    Some(event) => (t, false, Ok(Async::Ready(Some(event)))),
                    None => (t, false, Ok(Async::NotReady)),
                }
            },
            Wake::Ended => (s, true, Ok(Async::Ready(None))),
        }
    }
}

/// A USB hotplug event monitor: the decisions of the event stream, driven by
/// a loop that waits on the monitor socket and hands each wake-up in.
pub struct HotplugMonitor {
    closed: bool,
}

impl HotplugMonitor {
    /// Whether the stream has ended, by the end of the raw feed or a failure.
    pub closed spec fn is_closed(&self) -> bool {
        self.closed
    }

    /// Whether the stream has ended.
    pub fn closed(&self) -> (r: bool)
        ensures
            r == self.is_closed(),
    {
        self.closed
    }

    /// Handles one wake-up: reconciles a raw event against the context's
    /// table, and reports the event, the end of the stream, nothing yet, or
    /// the failure that ends the stream.
    pub fn poll(&mut self, context: &mut Context, wake: Wake) -> (r: Result<Async, Error>)
        requires
            old(context).wf(),
        ensures
            final(context).wf(),
            (final(context)@, final(self).is_closed(), r) == poll_outcome(
                old(context)@,
                old(self).is_closed(),
                wake,
            ),
    {
        if self.closed {
            return Ok(Async::Ready(None));
        }
        match wake {
            Wake::Failed(kind) => {
                self.closed = true;
                Err(Error::Io(kind))
            },
            Wake::NotReadable => Ok(Async::NotReady),
            Wake::Readable(None) => Ok(Async::NotReady),
            Wake::Readable(Some(ev)) => match context.reconcile(ev) {
                Some(event) => Ok(Async::Ready(Some(event))),
                None => Ok(Async::NotReady),
            },
            Wake::Ended => {
                self.closed = true;
                Ok(Async::Ready(None))
            },
        }
    }
}

impl Context {
    /// Create a USB hotplug monitor over this context.
    pub fn monitor(&self) -> (r: HotplugMonitor)
        ensures
            !r.is_closed(),
    {
        HotplugMonitor { closed: false }
    }

    /// Applies one raw event to the table: an add registers the device, a
    /// remove marks the connected device at its locator as gone, and other
    /// events change nothing. Returns the event to report, if any.
    pub fn reconcile(&mut self, ev: RawEvent) -> (r: Option<Event>)
        requires
            old(self).wf(),
        ensures
            final(self).wf(),
            (final(self)@, r) == reconcile(old(self)@, ev),
    {
        match ev.event_type {
            EventType::Add => match self.add_device(ev.device) {
                Some(id) => Some(Event::Add(id)),
                None => None,
            },
            EventType::Remove => match self.remove_device_by_locator(&ev.locator) {
                Some(id) => Some(Event::Remove(id)),
                None => None,
            },
            EventType::Change => None,
            EventType::Unknown => None,
        }
    }
}

} // verus!
