use vstd::prelude::*;

verus! {

/// An event that the backend posts to its own event loop. `U` is the
/// callback that a user event carries for the loop's thread to run.
pub enum CustomEvent<U> {
    /// Posted ahead of another event so that the loop handles that event on a
    /// fresh call stack rather than inside the call that posted it.
    WakeEventLoopWorkaround,
    /// Asks the event loop to quit.
    Exit,
    /// A callback to run on the event loop's thread.
    UserEvent(U),
}

/// The event type of the backend's event loop.
pub enum SlintUserEvent<U> {
    CustomEvent { event: CustomEvent<U> },
}

/// Why an event could not be handed to the event loop.
#[derive(Clone, Copy, Debug, PartialEq, Eq, Structural)]
pub enum EventLoopError {
    /// The event loop has ended and takes no more events.
    EventLoopTerminated,
}

/// Where events for the event loop go: to the loop's proxy `P` once the loop
/// exists, and until then into a queue that is handed over when it does.
pub enum GlobalEventLoopProxyOrEventQueue<P, U> {
    Proxy(P),
    Queue(Vec<SlintUserEvent<U>>),
}

/// The events that stand for posting `event`: the event itself, after a wake
/// event where the loop may handle posted events on the poster's stack.
pub open spec fn events_for_post<U>(event: SlintUserEvent<U>, wake_first: bool) -> Seq<
    SlintUserEvent<U>,
> {
    if wake_first {
        seq![
            SlintUserEvent::CustomEvent { event: CustomEvent::WakeEventLoopWorkaround },
            event,
        ]
    } else {
        seq![event]
    }
}

impl<P, U> GlobalEventLoopProxyOrEventQueue<P, U> {
    /// No proxy yet: events are queued.
    pub fn new() -> (r: Self)
        ensures
            r matches GlobalEventLoopProxyOrEventQueue::Queue(q) && q@.len() == 0,
    {
        GlobalEventLoopProxyOrEventQueue::Queue(Vec::new())
    }

    /// Installs the event loop's proxy. The events queued so far come back, in
    /// the order they were posted, for the caller to send through it. Where a
    /// proxy is installed already, it stays and nothing comes back.
    pub fn set_proxy(&mut self, proxy: P) -> (r: Vec<SlintUserEvent<U>>)
        ensures
            match *old(self) {
                GlobalEventLoopProxyOrEventQueue::Queue(q) => {
                    &&& r@ == q@
                    &&& *final(self) == GlobalEventLoopProxyOrEventQueue::<P, U>::Proxy(proxy)
                },
                GlobalEventLoopProxyOrEventQueue::Proxy(_) => {
                    &&& r@.len() == 0
                    &&& *final(self) == *old(self)
                },
            },
    {
        match self {
            GlobalEventLoopProxyOrEventQueue::Proxy(_) => Vec::new(),
            GlobalEventLoopProxyOrEventQueue::Queue(_) => {
                let mut previous = GlobalEventLoopProxyOrEventQueue::Proxy(proxy);
                std::mem::swap(self, &mut previous);
                match previous {
                    GlobalEventLoopProxyOrEventQueue::Queue(q) => q,
                    GlobalEventLoopProxyOrEventQueue::Proxy(_) => Vec::new(),
                }
            },
        }
    }
}

/// Posts `event` to the event loop, from any thread, through the global
/// channel. Before the loop exists the events are queued and nothing comes
/// back. Once it does, the events come back, in order, for the caller to send
/// through the proxy. Where `wake_first` holds, a wake event goes ahead of
/// `event`, so that the loop handles `event` on the next wake-up and never on
/// top of the call stack that posted it.
pub fn send_event_via_global_event_loop_proxy<P, U>(
    global: &mut GlobalEventLoopProxyOrEventQueue<P, U>,
    event: SlintUserEvent<U>,
    wake_first: bool,
) -> (r: Vec<SlintUserEvent<U>>)
    ensures
        match *old(global) {
            GlobalEventLoopProxyOrEventQueue::Queue(q) => {
                &&& r@.len() == 0
                &&& *final(global) matches GlobalEventLoopProxyOrEventQueue::Queue(q2) && q2@ == q@
                    + events_for_post(event, wake_first)
            },
            GlobalEventLoopProxyOrEventQueue::Proxy(_) => {
                &&& r@ == events_for_post(event, wake_first)
                &&& *final(global) == *old(global)
            },
        },
{
    let mut events: Vec<SlintUserEvent<U>> = Vec::new();
    if wake_first {
        events.push(SlintUserEvent::CustomEvent { event: CustomEvent::WakeEventLoopWorkaround });
    }
    events.push(event);
    assert(events@ =~= events_for_post(event, wake_first));
    match global {
        GlobalEventLoopProxyOrEventQueue::Proxy(_) => events,
        GlobalEventLoopProxyOrEventQueue::Queue(queue) => {
            queue.append(&mut events);
            Vec::new()
        },
    }
}

/// The event that asks the event loop to quit.
pub fn quit_event<U>() -> (r: SlintUserEvent<U>)
    ensures
        r == (SlintUserEvent::<U>::CustomEvent { event: CustomEvent::Exit }),
{
    SlintUserEvent::CustomEvent { event: CustomEvent::Exit }
}

/// The event that runs `callback` on the event loop's thread.
pub fn user_event<U>(callback: U) -> (r: SlintUserEvent<U>)
    ensures
        r == (SlintUserEvent::CustomEvent { event: CustomEvent::UserEvent(callback) }),
{
    SlintUserEvent::CustomEvent { event: CustomEvent::UserEvent(callback) }
}

/// Whether the event loop exits after a window closed: only where no window
/// is left open and quitting on the last closed window is enabled.
pub fn exit_after_window_closed(open_windows: usize, quit_on_last_window_closed: bool) -> (r:
    bool)
    ensures
        r == (open_windows == 0 && quit_on_last_window_closed),
{
    open_windows == 0 && quit_on_last_window_closed
}

} // verus!
