use vstd::prelude::*;

verus! {

/// The state word of a [`Channel`].
#[derive(Debug, Clone, Copy, PartialEq, Eq, Structural)]
pub enum ChannelState {
    Empty,
    Writing,
    Ready,
    Reading,
}

/// `send` or `receive` was called out of the empty, ready, consumed order.
#[derive(Debug, Clone, Copy, PartialEq, Eq, Structural)]
pub struct ProtocolViolation {
    /// The state the channel was in when the call was refused.
    pub found: ChannelState,
}

/// A rendezvous slot that hands one value at a time from a sender to a receiver.
pub struct Channel<T> {
    slot: Option<T>,
    state: ChannelState,
}

/// The sending half produced by [`Channel::split`]; it is consumed by its one send.
pub struct Sender {
    token: (),
}

/// The receiving half produced by [`Channel::split`]; it is consumed by its one receive.
pub struct Receiver {
    token: (),
}

/// A send is accepted exactly in the empty state.
pub open spec fn send_allowed(s: ChannelState) -> bool {
    s == ChannelState::Empty
}

/// A receive is accepted exactly in the ready state.
pub open spec fn receive_allowed(s: ChannelState) -> bool {
    s == ChannelState::Ready
}

/// The state after a step: `Empty -> Writing -> Ready -> Reading -> Empty`.
pub open spec fn next_state(s: ChannelState) -> ChannelState {
    match s {
        ChannelState::Empty => ChannelState::Writing,
        ChannelState::Writing => ChannelState::Ready,
        ChannelState::Ready => ChannelState::Reading,
        ChannelState::Reading => ChannelState::Empty,
    }
}

/// One `send` of `message`: from `before` to `after`, answering `r`.
pub open spec fn send_step<T>(
    before: Channel<T>,
    message: T,
    after: Channel<T>,
    r: Result<(), ProtocolViolation>,
) -> bool {
    if send_allowed(before.state()) {
        r is Ok && after.state() == ChannelState::Ready && after.pending() == Some(message)
    } else {
        r == Err::<(), ProtocolViolation>(ProtocolViolation { found: before.state() }) && after
            == before
    }
}

/// One `receive`: from `before` to `after`, answering `r`.
pub open spec fn receive_step<T>(before: Channel<T>, after: Channel<T>, r: Result<T, ProtocolViolation>) -> bool {
    if receive_allowed(before.state()) {
        before.pending() is Some && r == Ok::<T, ProtocolViolation>(before.pending()->Some_0)
            && after.state() == ChannelState::Empty && after.pending() is None
    } else {
        r == Err::<T, ProtocolViolation>(ProtocolViolation { found: before.state() }) && after
            == before
    }
}

impl<T> Channel<T> {
    /// The state word.
    pub closed spec fn state(&self) -> ChannelState {
        self.state
    }

    /// The value the channel owns: present exactly between a send and its receive.
    pub closed spec fn pending(&self) -> Option<T> {
        self.slot
    }

    /// Between steps the channel is empty with no value, or ready with one.
    pub open spec fn wf(&self) -> bool {
        (self.state() == ChannelState::Empty && self.pending() is None)
            || (self.state() == ChannelState::Ready && self.pending() is Some)
    }

    pub fn new() -> (r: Self)
        ensures
            r.wf(),
            r.state() == ChannelState::Empty,
            r.pending() is None,
    {
        Channel { slot: None, state: ChannelState::Empty }
    }

    /// Hands out the two single-use halves of the channel.
    pub fn split(&mut self) -> (r: (Sender, Receiver))
        ensures
            *final(self) == *old(self),
    {
        (Sender { token: () }, Receiver { token: () })
    }

    /// Whether a value is waiting to be received. Never blocks.
    pub fn is_ready(&self) -> (r: bool)
        ensures
            r == (self.state() == ChannelState::Ready),
    {
        self.state == ChannelState::Ready
    }

    /// Stores `message` and publishes it, or refuses when the channel is not empty.
    pub fn send(&mut self, message: T) -> (r: Result<(), ProtocolViolation>)
        requires
            old(self).wf(),
        ensures
            final(self).wf(),
            send_step(*old(self), message, *final(self), r),
    {
        if self.state != ChannelState::Empty {
            return Err(ProtocolViolation { found: self.state });
        }
        self.state = ChannelState::Writing;
        self.slot = Some(message);
        self.state = ChannelState::Ready;
        Ok(())
    }

    /// Takes the published value out, or refuses when none is ready.
    pub fn receive(&mut self) -> (r: Result<T, ProtocolViolation>)
        requires
            old(self).wf(),
        ensures
            final(self).wf(),
            receive_step(*old(self), *final(self), r),
    {
        if self.state != ChannelState::Ready {
            return Err(ProtocolViolation { found: self.state });
        }
        self.state = ChannelState::Reading;
        let taken = self.slot.take();
        self.state = ChannelState::Empty;
        Ok(taken.unwrap())
    }
}

impl Sender {
    /// Sends through `channel`; the half is consumed whatever the outcome.
    pub fn send<T>(self, channel: &mut Channel<T>, message: T) -> (r: Result<(), ProtocolViolation>)
        requires
            old(channel).wf(),
        ensures
            final(channel).wf(),
            send_step(*old(channel), message, *final(channel), r),
    {
        channel.send(message)
    }
}

impl Receiver {
    /// Receives from `channel`; the half is consumed whatever the outcome.
    pub fn receive<T>(self, channel: &mut Channel<T>) -> (r: Result<T, ProtocolViolation>)
        requires
            old(channel).wf(),
        ensures
            final(channel).wf(),
            receive_step(*old(channel), *final(channel), r),
    {
        channel.receive()
    }

    /// Whether `channel` holds a value to receive. Never blocks.
    pub fn is_ready<T>(&self, channel: &Channel<T>) -> (r: bool)
        ensures
            r == (channel.state() == ChannelState::Ready),
    {
        channel.is_ready()
    }
}

/// A second `send` with no `receive` in between is refused, whether or not
/// the first one went through.
pub proof fn lemma_send_twice_rejected<T>(
    c0: Channel<T>,
    m1: T,
    c1: Channel<T>,
    r1: Result<(), ProtocolViolation>,
    m2: T,
    c2: Channel<T>,
    r2: Result<(), ProtocolViolation>,
)
    requires
        c0.wf(),
        send_step(c0, m1, c1, r1),
        send_step(c1, m2, c2, r2),
    ensures
        r2 is Err,
        c2 == c1,
{
}

/// A `receive` on a channel that holds no value is refused: on a channel
/// nothing was sent to, and on one whose value was already taken.
pub proof fn lemma_receive_needs_value<T>(
    c0: Channel<T>,
    c1: Channel<T>,
    r1: Result<T, ProtocolViolation>,
    c2: Channel<T>,
    r2: Result<T, ProtocolViolation>,
)
    requires
        c0.wf(),
        receive_step(c0, c1, r1),
        receive_step(c1, c2, r2),
    ensures
        c0.pending() is None ==> r1 is Err,
        r2 is Err,
{
}

/// One send and its receive hand over exactly the value sent, and leave the
/// channel empty with no value of its own, so dropping it then drops nothing
/// and the value has exactly one owner: the receiver.
pub proof fn lemma_send_receive_round_trip<T>(
    c0: Channel<T>,
    message: T,
    c1: Channel<T>,
    r1: Result<(), ProtocolViolation>,
    c2: Channel<T>,
    r2: Result<T, ProtocolViolation>,
)
    requires
        c0.wf(),
        c0.pending() is None,
        send_step(c0, message, c1, r1),
        receive_step(c1, c2, r2),
    ensures
        r1 is Ok,
        r2 == Ok::<T, ProtocolViolation>(message),
        c2.state() == ChannelState::Empty,
        c2.pending() is None,
{
}

} // verus!
