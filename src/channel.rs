use vstd::prelude::*;

verus! {

/// A send found the receiving side gone: the other domain is shutting down.
pub struct ShutdownError;

/// What a receive that does not wait finds.
pub enum Received {
    /// The oldest message still queued.
    Message(String),
    /// Nothing is queued yet, but the sender may still send: the caller waits.
    Pending,
    /// Nothing is queued and the sender is gone: the channel is closed and no
    /// message will ever come.
    Closed,
}

/// The mathematical value of a [`Received`].
pub enum ReceivedView {
    Message(Seq<char>),
    Pending,
    Closed,
}

impl View for Received {
    type V = ReceivedView;

    open spec fn view(&self) -> ReceivedView {
        match self {
            Received::Message(m) => ReceivedView::Message(m@),
            Received::Pending => ReceivedView::Pending,
            Received::Closed => ReceivedView::Closed,
        }
    }
}

/// The state of one direction of traffic: an unbounded first-in first-out queue
/// of text messages, with one sending and one receiving side.
pub struct Channel {
    queue: Vec<String>,
    sender_open: bool,
    receiver_open: bool,
}

/// The mathematical value of a [`Channel`].
pub struct ChannelView {
    pub queue: Seq<Seq<char>>,
    pub sender_open: bool,
    pub receiver_open: bool,
}

impl View for Channel {
    type V = ChannelView;

    closed spec fn view(&self) -> ChannelView {
        ChannelView {
            queue: self.queue@.map_values(|m: String| m@),
            sender_open: self.sender_open,
            receiver_open: self.receiver_open,
        }
    }
}

/// A channel with nothing queued and both sides open.
pub open spec fn fresh_spec() -> ChannelView {
    ChannelView { queue: Seq::empty(), sender_open: true, receiver_open: true }
}

/// Whether a send of `m` on `c` succeeds: only while the receiver is open.
pub open spec fn send_ok(c: ChannelView) -> bool {
    c.receiver_open
}

/// The channel after a send of `m`: queued at the back if the receiver is open,
/// unchanged otherwise.
pub open spec fn send_spec(c: ChannelView, m: Seq<char>) -> ChannelView {
    if c.receiver_open {
        ChannelView { queue: c.queue.push(m), ..c }
    } else {
        c
    }
}

/// What a receive on `c` finds.
pub open spec fn recv_result(c: ChannelView) -> ReceivedView {
    if c.queue.len() > 0 {
        ReceivedView::Message(c.queue[0])
    } else if c.sender_open {
        ReceivedView::Pending
    } else {
        ReceivedView::Closed
    }
}

/// The channel after a receive: the oldest message leaves, if there is one.
pub open spec fn recv_spec(c: ChannelView) -> ChannelView {
    if c.queue.len() > 0 {
        ChannelView { queue: c.queue.drop_first(), ..c }
    } else {
        c
    }
}

/// The channel after its sender is dropped; what is queued can still be received.
pub open spec fn close_sender_spec(c: ChannelView) -> ChannelView {
    ChannelView { sender_open: false, ..c }
}

/// The channel after its receiver is dropped; what was queued is lost.
pub open spec fn close_receiver_spec(c: ChannelView) -> ChannelView {
    ChannelView { queue: Seq::empty(), receiver_open: false, ..c }
}

/// The channel after each of `msgs` is sent in turn.
pub open spec fn after_sends(c: ChannelView, msgs: Seq<Seq<char>>) -> ChannelView
    decreases msgs.len(),
{
    if msgs.len() == 0 {
        c
    } else {
        send_spec(after_sends(c, msgs.drop_last()), msgs.last())
    }
}

/// The messages that `n` receives in a row on `c` deliver, oldest first.
pub open spec fn receive_n(c: ChannelView, n: nat) -> Seq<Seq<char>>
    decreases n,
{
    if n == 0 {
        Seq::empty()
    } else {
        let first = match recv_result(c) {
            ReceivedView::Message(m) => seq![m],
            _ => Seq::empty(),
        };
        first + receive_n(recv_spec(c), (n - 1) as nat)
    }
}

/// With the receiver open, sending `msgs` one after another appends them, in
/// order, behind what was already queued.
pub proof fn lemma_sends_append(c: ChannelView, msgs: Seq<Seq<char>>)
    requires
        c.receiver_open,
    ensures
        after_sends(c, msgs) == (ChannelView { queue: c.queue + msgs, ..c }),
    decreases msgs.len(),
{
    if msgs.len() == 0 {
        assert(c.queue + msgs =~= c.queue);
    } else {
        lemma_sends_append(c, msgs.drop_last());
        assert((c.queue + msgs.drop_last()).push(msgs.last()) =~= c.queue + msgs);
    }
}

/// `n` receives in a row deliver the `n` oldest queued messages, oldest first.
pub proof fn lemma_receives_take_front(c: ChannelView, n: nat)
    requires
        n <= c.queue.len(),
    ensures
        receive_n(c, n) == c.queue.subrange(0, n as int),
    decreases n,
{
    if n == 0 {
        assert(c.queue.subrange(0, 0) =~= Seq::<Seq<char>>::empty());
    } else {
        let d = recv_spec(c);
        lemma_receives_take_front(d, (n - 1) as nat);
        assert(seq![c.queue[0]] + c.queue.drop_first().subrange(0, n - 1) =~= c.queue.subrange(
            0,
            n as int,
        ));
    }
}

/// First in, first out: on a channel with nothing queued and its receiver open,
/// as many receives as there were sends deliver exactly the sent messages, in
/// the order in which they were sent.
pub proof fn lemma_fifo(c: ChannelView, msgs: Seq<Seq<char>>)
    requires
        c.receiver_open,
        c.queue.len() == 0,
    ensures
        receive_n(after_sends(c, msgs), msgs.len()) == msgs,
{
    lemma_sends_append(c, msgs);
    assert(c.queue + msgs =~= msgs);
    lemma_receives_take_front(after_sends(c, msgs), msgs.len());
    assert(msgs.subrange(0, msgs.len() as int) =~= msgs);
}

/// Dropping the sender never leaves a receiver waiting: a receive that would have
/// waited now finds the channel closed, and every later receive delivers a queued
/// message or finds it closed.
pub proof fn lemma_drop_sender_wakes_receiver(c: ChannelView)
    ensures
        recv_result(c) == ReceivedView::Pending ==> recv_result(close_sender_spec(c))
            == ReceivedView::Closed,
        recv_result(close_sender_spec(c)) != ReceivedView::Pending,
        !recv_spec(close_sender_spec(c)).sender_open,
{
}

impl Channel {
    /// A channel with nothing queued and both sides open.
    pub fn new() -> (r: Channel)
        ensures
            r@ == fresh_spec(),
    {
        let r = Channel { queue: Vec::new(), sender_open: true, receiver_open: true };
        assert(r@.queue =~= Seq::<Seq<char>>::empty());
        r
    }

    /// Queues `msg` at the back; fails with [`ShutdownError`] exactly when the
    /// receiving side has been dropped, and then changes nothing.
    pub fn send(&mut self, msg: String) -> (r: Result<(), ShutdownError>)
        ensures
            r is Ok <==> send_ok(old(self)@),
            final(self)@ == send_spec(old(self)@, msg@),
    {
        if !self.receiver_open {
            return Err(ShutdownError);
        }
        let ghost m = msg@;
        self.queue.push(msg);
        assert(self@.queue =~= old(self)@.queue.push(m));
        Ok(())
    }

    /// Takes the oldest queued message; with none queued, says whether the caller
    /// should wait ([`Received::Pending`]) or the channel is closed for good.
    pub fn try_recv(&mut self) -> (r: Received)
        ensures
            r@ == recv_result(old(self)@),
            final(self)@ == recv_spec(old(self)@),
    {
        if self.queue.len() > 0 {
            let m = self.queue.remove(0);
            assert(self@.queue =~= old(self)@.queue.drop_first());
            Received::Message(m)
        } else if self.sender_open {
            Received::Pending
        } else {
            Received::Closed
        }
    }

    /// Drops the sending side.
    pub fn close_sender(&mut self)
        ensures
            final(self)@ == close_sender_spec(old(self)@),
    {
        self.sender_open = false;
    }

    /// Drops the receiving side, and with it whatever was still queued.
    pub fn close_receiver(&mut self)
        ensures
            final(self)@ == close_receiver_spec(old(self)@),
    {
        self.queue = Vec::new();
        self.receiver_open = false;
        assert(self@.queue =~= Seq::<Seq<char>>::empty());
    }

    /// Whether the sending side is still open.
    pub fn is_sender_open(&self) -> (r: bool)
        ensures
            r == self@.sender_open,
    {
        self.sender_open
    }

    /// Whether the receiving side is still open.
    pub fn is_receiver_open(&self) -> (r: bool)
        ensures
            r == self@.receiver_open,
    {
        self.receiver_open
    }

    /// Number of messages queued.
    pub fn pending_len(&self) -> (r: usize)
        ensures
            r == self@.queue.len(),
    {
        self.queue.len()
    }
}

} // verus!
