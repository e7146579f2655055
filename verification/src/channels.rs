//! The queue that hands received events over to the webhook sender.
use vstd::prelude::*;
use std::collections::VecDeque;
use crate::mysql_db::AppTable;
use crate::webserver::dtos::EventTrackerReceive;

verus! {

/// What goes through the channel: an event with the application it is for.
pub type ChannelType = (AppTable, EventTrackerReceive);

/// Why the channel refused an item. A channel that owns both of its ends,
/// as this one does, never refuses one.
pub enum ChannelError {
    /// The other end of the channel is gone.
    Closed,
}

/// A first-in first-out channel of events.
pub struct Channel {
    queue: VecDeque<ChannelType>,
}

impl View for Channel {
    type V = Seq<ChannelType>;

    /// What waits in the channel, oldest first.
    closed spec fn view(&self) -> Seq<ChannelType> {
        self.queue@
    }
}

impl Channel {
    /// An empty channel.
    pub fn new() -> (c: Self)
        ensures
            c@ == Seq::<ChannelType>::empty(),
    {
        Channel { queue: VecDeque::new() }
    }

    /// Puts `data` at the end of the channel.
    pub fn send(&mut self, data: ChannelType) -> (r: Result<(), ChannelError>)
        ensures
            r is Ok,
            final(self)@ == old(self)@.push(data),
    {
        self.queue.push_back(data);
        Ok(())
    }

    /// Whether nothing waits in the channel. A receiver waits while this holds.
    pub fn is_empty(&self) -> (b: bool)
        ensures
            b == (self@.len() == 0),
    {
        self.queue.len() == 0
    }

    /// Takes the oldest item out of the channel. It is called once an item
    /// waits there: a receiver that finds the channel empty waits for a send.
    pub fn recv(&mut self) -> (r: Result<ChannelType, ChannelError>)
        requires
            old(self)@.len() > 0,
        ensures
            r == Ok::<ChannelType, ChannelError>(old(self)@[0]),
            final(self)@ == old(self)@.drop_first(),
    {
        match self.queue.pop_front() {
            Some(d) => Ok(d),
            None => {
                proof {
                    assert(false);
                }
                Err(ChannelError::Closed)
            },
        }
    }
}

/// The contents of a channel after `items` were sent into it, in order.
pub open spec fn after_sends(q: Seq<ChannelType>, items: Seq<ChannelType>) -> Seq<ChannelType>
    decreases items.len(),
{
    if items.len() == 0 {
        q
    } else {
        after_sends(q.push(items[0]), items.drop_first())
    }
}

/// The contents of a channel after `k` items were received from it.
pub open spec fn after_receives(q: Seq<ChannelType>, k: nat) -> Seq<ChannelType>
    decreases k,
{
    if k == 0 {
        q
    } else {
        after_receives(q.drop_first(), (k - 1) as nat)
    }
}

proof fn after_sends_appends(q: Seq<ChannelType>, items: Seq<ChannelType>)
    ensures
        after_sends(q, items) == q + items,
    decreases items.len(),
{
    if items.len() > 0 {
        after_sends_appends(q.push(items[0]), items.drop_first());
        assert(q.push(items[0]) + items.drop_first() =~= q + items);
    }
}

proof fn after_receives_skips(q: Seq<ChannelType>, k: nat)
    requires
        k <= q.len(),
    ensures
        after_receives(q, k) == q.skip(k as int),
    decreases k,
{
    if k > 0 {
        after_receives_skips(q.drop_first(), (k - 1) as nat);
        assert(q.drop_first().skip(k - 1) =~= q.skip(k as int));
    }
}

/// Items leave a channel in the order they were sent: when `items` are sent
/// into an empty channel, the `k`-th receive gives `items[k]`, and after all
/// of them are received the channel is empty again.
pub proof fn channel_is_first_in_first_out(items: Seq<ChannelType>, k: nat)
    requires
        k < items.len(),
    ensures
        after_receives(after_sends(Seq::empty(), items), k).len() > 0,
        after_receives(after_sends(Seq::empty(), items), k)[0] == items[k as int],
        after_receives(after_sends(Seq::empty(), items), items.len()).len() == 0,
{
    after_sends_appends(Seq::empty(), items);
    assert(Seq::<ChannelType>::empty() + items =~= items);
    after_receives_skips(items, k);
    after_receives_skips(items, items.len());
}

} // verus!
