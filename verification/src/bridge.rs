use vstd::prelude::*;
use crate::channel::EventChannel;
use crate::size::{Size, scale, scaled};

verus! {

/// The consumer-facing face of the bridge: one operation to create it at
/// initialization and one non-blocking poll per frame. The same interface is
/// offered whether or not a browser document exists; the document-backed
/// implementation relays real notifications, the stub never reports any.
pub trait ResizeEventChannel: Sized {
    /// Creates the bridge. Configuration failures abort startup before this
    /// returns; a value of the type is always a working bridge.
    fn init() -> (r: Self);

    /// Drains at most one pending resize notification. Never blocks and never
    /// fails: an empty queue is reported as absence, not as an error.
    fn try_recv_resized_event(&mut self) -> (r: Option<Size>);
}

/// The document-backed bridge: owns the consumer end of the Event Channel and
/// exposes the producer side to the registered resize callback. Pending
/// notifications already carry their physical-pixel size.
pub struct JsResizeEventChannel {
    channel: EventChannel,
}

impl JsResizeEventChannel {
    /// The pending scaled notifications, oldest first.
    pub closed spec fn pending(self) -> Seq<Size> {
        self.channel.pending()
    }

    /// The producer side, run by the registered resize callback on every raw
    /// event the document raises: the reported raw dimensions are scaled to
    /// physical pixels and the result is enqueued. Non-blocking and
    /// unconditional: the unbounded queue accepts every notification.
    pub fn notify_resized_event(&mut self, width: u32, height: u32)
        ensures
            final(self).pending() == old(self).pending().push(scale_of(width, height)),
    {
        let size = scale(width, height);
        self.channel.send(size);
    }
}

/// The size that one raw report becomes in the queue.
pub open spec fn scale_of(width: u32, height: u32) -> Size {
    Size { width: scaled(width as int) as u64, height: scaled(height as int) as u64 }
}

impl ResizeEventChannel for JsResizeEventChannel {
    /// Creates the bridge with an empty queue. Attaching the surface element
    /// and registering the document's observer are the host's configuration
    /// steps around this call.
    fn init() -> (r: Self)
        ensures
            r.pending() == Seq::<Size>::empty(),
    {
        JsResizeEventChannel { channel: EventChannel::new() }
    }

    /// Returns the oldest pending notification and removes it, or reports
    /// absence when no resize has happened since the last poll. Polling an
    /// empty queue leaves the bridge unchanged, so repeated polls stay empty
    /// until the producer runs again.
    fn try_recv_resized_event(&mut self) -> (r: Option<Size>)
        ensures
            old(self).pending().len() == 0 ==> r is None
                && final(self).pending() == old(self).pending(),
            old(self).pending().len() > 0 ==> r == Some(old(self).pending()[0])
                && final(self).pending() == old(self).pending().drop_first(),
    {
        self.channel.try_receive()
    }
}

/// The bridge for targets without a browser document: it holds no state,
/// initialization trivially succeeds, and every poll reports that no event
/// occurred.
pub struct StubResizeEventChannel {}

impl ResizeEventChannel for StubResizeEventChannel {
    fn init() -> (r: Self) {
        StubResizeEventChannel {  }
    }

    /// Every poll, regardless of call count, returns no event.
    fn try_recv_resized_event(&mut self) -> (r: Option<Size>)
        ensures
            r is None,
    {
        None
    }
}

/// The fixed identifier by which the container element that hosts the surface
/// element is looked up in the active document.
pub fn screen_element_id() -> (r: &'static str)
    ensures
        r@ == "screen"@,
{
    "screen"
}

} // verus!
