use vstd::prelude::*;

verus! {

/// The slot that holds the live transport socket of the one session, or
/// nothing while no session is connected.
///
/// A caller that works on the socket takes it out of the slot and puts it
/// back when done; while it is out, the slot reads as empty to everyone else.
pub struct SessionSlot<S> {
    socket: Option<S>,
}

impl<S> View for SessionSlot<S> {
    type V = Option<S>;

    closed spec fn view(&self) -> Option<S> {
        self.socket
    }
}

impl<S> SessionSlot<S> {
    /// An empty slot: no session connected.
    pub fn new() -> (r: SessionSlot<S>)
        ensures
            r@ is None,
    {
        SessionSlot { socket: None }
    }

    /// Puts the socket of a newly started session in the slot; a session
    /// that was there is replaced and handed back.
    pub fn install(&mut self, socket: S) -> (r: Option<S>)
        ensures
            final(self)@ == Some(socket),
            r == old(self)@,
    {
        let prev = self.socket.take();
        self.socket = Some(socket);
        prev
    }

    /// Discards whatever session the slot holds.
    pub fn reset(&mut self)
        ensures
            final(self)@ is None,
    {
        self.socket = None;
    }

    pub fn is_connected(&self) -> (r: bool)
        ensures
            r == self@ is Some,
    {
        self.socket.is_some()
    }

    /// Takes the socket out for one poll or send; the slot is empty until
    /// `put_back`.
    pub fn take(&mut self) -> (r: Option<S>)
        ensures
            r == old(self)@,
            final(self)@ is None,
    {
        self.socket.take()
    }

    /// Returns a socket taken by `take`.
    pub fn put_back(&mut self, socket: S)
        requires
            old(self)@ is None,
        ensures
            final(self)@ == Some(socket),
    {
        self.socket = Some(socket);
    }
}

} // verus!
