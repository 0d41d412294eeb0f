use vstd::prelude::*;
use crate::event::TrayIconEvent;

verus! {

/// An unbounded first-in first-out queue of events: both ends of one
/// crossbeam channel, held together so that nothing else can send into it or
/// take from it.
#[verifier::external_body]
pub struct EventChannel {
    tx: crossbeam_channel::Sender<TrayIconEvent>,
    rx: crossbeam_channel::Receiver<TrayIconEvent>,
}

/// The events waiting in the channel, oldest first.
pub uninterp spec fn channel_events(c: EventChannel) -> Seq<TrayIconEvent>;

impl EventChannel {
    /// Relies on `crossbeam_channel::unbounded`: a fresh channel holds nothing.
    #[verifier::external_body]
    fn new() -> (r: EventChannel)
        ensures
            channel_events(r) == Seq::<TrayIconEvent>::empty(),
    {
        let (tx, rx) = crossbeam_channel::unbounded();
        EventChannel { tx, rx }
    }

    /// Relies on `Sender::send`: on an unbounded channel whose receiver is
    /// alive (it is held here) the message is appended at the back.
    #[verifier::external_body]
    fn push(&mut self, e: TrayIconEvent)
        ensures
            channel_events(*final(self)) == channel_events(*old(self)).push(e),
    {
        let _ = self.tx.send(e);
    }

    /// Relies on `Receiver::try_recv`: it takes the oldest message without
    /// blocking, or reports an empty channel (the sender is held here, so the
    /// channel is never disconnected).
    #[verifier::external_body]
    fn try_pop(&mut self) -> (r: Option<TrayIconEvent>)
        ensures
            channel_events(*old(self)).len() == 0 ==> r is None && channel_events(*final(self))
                == channel_events(*old(self)),
            channel_events(*old(self)).len() > 0 ==> r == Some(channel_events(*old(self))[0])
                && channel_events(*final(self)) == channel_events(*old(self)).drop_first(),
    {
        self.rx.try_recv().ok()
    }
}

/// Where events go once the handler slot is filled.
pub enum Routing<F> {
    /// Into the queue, for the application to poll.
    Queue,
    /// Nowhere: `set_event_handler(None)` asked for no delivery at all.
    Discard,
    /// To this handler, called on the sending thread.
    Handler(F),
}

/// Routes tray events either to one registered handler or into a queue that
/// the application polls.
///
/// The handler slot is written once. The first call of `set_event_handler`
/// fills it, and so does the first `send` when nothing was set before (with
/// "use the queue"). Later calls of `set_event_handler` change nothing.
#[verifier::reject_recursive_types(F)]
pub struct EventDispatcher<F> {
    handler: Option<Routing<F>>,
    channel: EventChannel,
}

impl<F: Fn(TrayIconEvent)> EventDispatcher<F> {
    /// The handler slot: `None` while unset, then `Some` of what was put there.
    pub closed spec fn slot(&self) -> Option<Routing<F>> {
        self.handler
    }

    /// The events waiting to be received, oldest first.
    pub closed spec fn queued(&self) -> Seq<TrayIconEvent> {
        channel_events(self.channel)
    }

    /// Whether `send(e)` may be called: a registered handler must accept `e`.
    pub open spec fn can_send(&self, e: TrayIconEvent) -> bool {
        self.slot() matches Some(Routing::Handler(f)) ==> f.requires((e,))
    }

    /// Whether a sent event would be queued: nothing set yet, or the queue chosen.
    pub open spec fn routes_to_queue(&self) -> bool {
        self.slot() is None || self.slot() matches Some(Routing::Queue)
    }

    /// What `set_event_handler(f)` puts in an empty slot.
    pub open spec fn routing_for(f: Option<F>) -> Routing<F> {
        match f {
            Some(g) => Routing::Handler(g),
            None => Routing::Discard,
        }
    }

    /// One call of `set_event_handler(f)` took the dispatcher from `pre` to `post`.
    pub open spec fn handler_set(pre: Self, post: Self, f: Option<F>) -> bool {
        &&& post.slot() == (if pre.slot() is None {
            Some(Self::routing_for(f))
        } else {
            pre.slot()
        })
        &&& post.queued() == pre.queued()
    }

    /// One call of `send(e)` took the dispatcher from `pre` to `post`: the
    /// registered handler was called with `e`, or `e` was dropped as asked,
    /// or `e` was queued.
    pub open spec fn sent(pre: Self, post: Self, e: TrayIconEvent) -> bool {
        match pre.slot() {
            Some(Routing::Handler(f)) => {
                &&& f.ensures((e,), ())
                &&& post.slot() == pre.slot()
                &&& post.queued() == pre.queued()
            },
            Some(Routing::Discard) => {
                &&& post.slot() == pre.slot()
                &&& post.queued() == pre.queued()
            },
            _ => {
                &&& post.slot() == Some(Routing::<F>::Queue)
                &&& post.queued() == pre.queued().push(e)
            },
        }
    }

    /// One call of `try_recv` took the dispatcher from `pre` to `post` and returned `r`.
    pub open spec fn received(pre: Self, post: Self, r: Option<TrayIconEvent>) -> bool {
        &&& post.slot() == pre.slot()
        &&& if pre.queued().len() == 0 {
            r is None && post.queued() == pre.queued()
        } else {
            r == Some(pre.queued()[0]) && post.queued() == pre.queued().drop_first()
        }
    }

    /// A dispatcher with no handler set and nothing queued.
    pub fn new() -> (r: Self)
        ensures
            r.slot() is None,
            r.queued() == Seq::<TrayIconEvent>::empty(),
    {
        EventDispatcher { handler: None, channel: EventChannel::new() }
    }

    /// Sets the handler for new events, if the slot was not filled before;
    /// otherwise does nothing.
    ///
    /// With `Some(f)` in place, events go to `f` and no longer to the queue;
    /// with `None`, they go nowhere.
    pub fn set_event_handler(&mut self, f: Option<F>)
        ensures
            Self::handler_set(*old(self), *final(self), f),
    {
        if self.handler.is_none() {
            self.handler = Some(
                match f {
                    Some(g) => Routing::Handler(g),
                    None => Routing::Discard,
                },
            );
        }
    }

    /// Delivers an event: to the registered handler, called at once on this
    /// thread; nowhere, if `set_event_handler(None)` came first; or else to
    /// the back of the queue.
    pub fn send(&mut self, e: TrayIconEvent)
        requires
            old(self).can_send(e),
        ensures
            Self::sent(*old(self), *final(self), e),
    {
        match &self.handler {
            Some(Routing::Handler(f)) => {
                f(e);
            },
            Some(Routing::Discard) => {},
            _ => {
                self.handler = Some(Routing::Queue);
                self.channel.push(e);
            },
        }
    }

    /// Takes the oldest queued event, or `None` at once when nothing is queued.
    pub fn try_recv(&mut self) -> (r: Option<TrayIconEvent>)
        ensures
            Self::received(*old(self), *final(self), r),
    {
        self.channel.try_pop()
    }
}

/// With no handler registered, an event that is sent into an empty queue is
/// the next one received.
pub proof fn lemma_unrouted_event_is_received<F: Fn(TrayIconEvent)>(
    d0: EventDispatcher<F>,
    d1: EventDispatcher<F>,
    d2: EventDispatcher<F>,
    e: TrayIconEvent,
    r: Option<TrayIconEvent>,
)
    requires
        d0.routes_to_queue(),
        d0.queued().len() == 0,
        EventDispatcher::sent(d0, d1, e),
        EventDispatcher::received(d1, d2, r),
    ensures
        r == Some(e),
{
    assert(d1.queued() =~= seq![e]);
}

/// Once `set_event_handler(Some(f))` is the first thing to fill the slot, a
/// later `send(e)` calls `f` with `e` and leaves the queue as it was.
pub proof fn lemma_handler_takes_events<F: Fn(TrayIconEvent)>(
    d0: EventDispatcher<F>,
    d1: EventDispatcher<F>,
    d2: EventDispatcher<F>,
    f: F,
    e: TrayIconEvent,
)
    requires
        d0.slot() is None,
        EventDispatcher::handler_set(d0, d1, Some(f)),
        EventDispatcher::sent(d1, d2, e),
    ensures
        f.ensures((e,), ()),
        d2.queued() == d0.queued(),
        d2.slot() == Some(Routing::Handler(f)),
{
}

/// The first handler set is the one that stays: after
/// `set_event_handler(Some(f1))` and then `set_event_handler(Some(f2))`, a
/// `send(e)` calls `f1`.
pub proof fn lemma_first_handler_wins<F: Fn(TrayIconEvent)>(
    d0: EventDispatcher<F>,
    d1: EventDispatcher<F>,
    d2: EventDispatcher<F>,
    d3: EventDispatcher<F>,
    f1: F,
    f2: F,
    e: TrayIconEvent,
)
    requires
        d0.slot() is None,
        EventDispatcher::handler_set(d0, d1, Some(f1)),
        EventDispatcher::handler_set(d1, d2, Some(f2)),
        EventDispatcher::sent(d2, d3, e),
    ensures
        d2.slot() == Some(Routing::Handler(f1)),
        f1.ensures((e,), ()),
        d3.queued() == d0.queued(),
{
}

proof fn lemma_sends_append<F: Fn(TrayIconEvent)>(ds: Seq<EventDispatcher<F>>, es: Seq<TrayIconEvent>)
    requires
        ds.len() == es.len() + 1,
        ds[0].routes_to_queue(),
        forall|k: int| 0 <= k < es.len() ==> #[trigger] EventDispatcher::sent(ds[k], ds[k + 1], es[k]),
    ensures
        ds.last().queued() == ds[0].queued() + es,
        ds.last().routes_to_queue(),
    decreases es.len(),
{
    if es.len() == 0 {
        assert(ds[0].queued() + es =~= ds[0].queued());
    } else {
        let n = es.len() - 1;
        lemma_sends_append(ds.subrange(0, n + 1), es.subrange(0, n));
        assert(ds.subrange(0, n + 1).last() == ds[n]);
        assert(EventDispatcher::sent(ds[n], ds[n + 1], es[n]));
        assert(ds[0].queued() + es =~= (ds[0].queued() + es.subrange(0, n)).push(es[n]));
    }
}

proof fn lemma_receives_take_front<F: Fn(TrayIconEvent)>(
    ds: Seq<EventDispatcher<F>>,
    rs: Seq<Option<TrayIconEvent>>,
)
    requires
        ds.len() == rs.len() + 1,
        ds[0].queued().len() >= rs.len(),
        forall|k: int| 0 <= k < rs.len() ==> #[trigger] EventDispatcher::received(ds[k], ds[k + 1], rs[k]),
    ensures
        forall|k: int| 0 <= k < rs.len() ==> rs[k] == Some(ds[0].queued()[k]),
        ds.last().queued() == ds[0].queued().subrange(rs.len() as int, ds[0].queued().len() as int),
    decreases rs.len(),
{
    let q = ds[0].queued();
    if rs.len() == 0 {
        assert(q.subrange(0, q.len() as int) =~= q);
    } else {
        let n = rs.len() - 1;
        lemma_receives_take_front(ds.subrange(0, n + 1), rs.subrange(0, n));
        assert(ds.subrange(0, n + 1).last() == ds[n]);
        assert(EventDispatcher::received(ds[n], ds[n + 1], rs[n]));
        assert(ds[n].queued()[0] == q[n]);
        assert(ds[n].queued().drop_first() =~= q.subrange(n + 1, q.len() as int));
        assert forall|k: int| 0 <= k < rs.len() implies rs[k] == Some(q[k]) by {
            if k < n {
                assert(rs.subrange(0, n)[k] == rs[k]);
            }
        }
    }
}

/// With no handler registered, events sent one after another into an empty
/// queue are received in the order in which they were sent.
pub proof fn lemma_events_received_in_order<F: Fn(TrayIconEvent)>(
    sending: Seq<EventDispatcher<F>>,
    es: Seq<TrayIconEvent>,
    receiving: Seq<EventDispatcher<F>>,
    rs: Seq<Option<TrayIconEvent>>,
)
    requires
        sending[0].routes_to_queue(),
        sending[0].queued().len() == 0,
        sending.len() == es.len() + 1,
        forall|k: int| 0 <= k < es.len() ==> #[trigger] EventDispatcher::sent(sending[k], sending[k + 1], es[k]),
        receiving.len() == rs.len() + 1,
        receiving[0] == sending.last(),
        rs.len() == es.len(),
        forall|k: int| 0 <= k < rs.len() ==> #[trigger] EventDispatcher::received(receiving[k], receiving[k + 1], rs[k]),
    ensures
        forall|k: int| 0 <= k < es.len() ==> rs[k] == Some(es[k]),
        receiving.last().queued().len() == 0,
{
    lemma_sends_append(sending, es);
    assert(sending.last().queued() =~= es);
    lemma_receives_take_front(receiving, rs);
}

} // verus!
