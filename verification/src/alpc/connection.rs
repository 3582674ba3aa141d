//! Client/server connection state of an ALPC port.
use vstd::prelude::*;
use crate::alpc::port::AlpcPortId;

verus! {

/// Lifecycle of a connection.
#[derive(Clone, Copy, Debug, PartialEq, Eq, Structural)]
pub enum AlpcConnectionState {
    Disconnected,
    Listening,
    Connected,
}

/// A connection bound to one port.
#[derive(Debug)]
pub struct AlpcConnection {
    pub port: AlpcPortId,
    pub state: AlpcConnectionState,
}

impl AlpcConnection {
    /// A disconnected connection on `port`.
    pub fn new(port: AlpcPortId) -> (c: Self)
        ensures
            c.port == port,
            c.state == AlpcConnectionState::Disconnected,
    {
        AlpcConnection { port, state: AlpcConnectionState::Disconnected }
    }

    /// Client side: connect directly from the disconnected state.
    pub fn connect(&mut self) -> (r: Result<(), ()>)
        ensures
            final(self).port == old(self).port,
            r is Ok <==> old(self).state == AlpcConnectionState::Disconnected,
            r is Ok ==> final(self).state == AlpcConnectionState::Connected,
            r is Err ==> final(self).state == old(self).state,
    {
        if self.state != AlpcConnectionState::Disconnected {
            return Err(());
        }
        self.state = AlpcConnectionState::Connected;
        Ok(())
    }

    /// Server side: start listening from the disconnected state.
    pub fn listen(&mut self) -> (r: Result<(), ()>)
        ensures
            final(self).port == old(self).port,
            r is Ok <==> old(self).state == AlpcConnectionState::Disconnected,
            r is Ok ==> final(self).state == AlpcConnectionState::Listening,
            r is Err ==> final(self).state == old(self).state,
    {
        if self.state != AlpcConnectionState::Disconnected {
            return Err(());
        }
        self.state = AlpcConnectionState::Listening;
        Ok(())
    }

    /// Server side: move from listening to connected when a client attaches.
    pub fn accept(&mut self) -> (r: Result<(), ()>)
        ensures
            final(self).port == old(self).port,
            r is Ok <==> old(self).state == AlpcConnectionState::Listening,
            r is Ok ==> final(self).state == AlpcConnectionState::Connected,
            r is Err ==> final(self).state == old(self).state,
    {
        if self.state != AlpcConnectionState::Listening {
            return Err(());
        }
        self.state = AlpcConnectionState::Connected;
        Ok(())
    }

    /// Tear down a listening or connected connection.
    pub fn disconnect(&mut self) -> (r: Result<(), ()>)
        ensures
            final(self).port == old(self).port,
            r is Ok <==> old(self).state != AlpcConnectionState::Disconnected,
            final(self).state == AlpcConnectionState::Disconnected,
    {
        match self.state {
            AlpcConnectionState::Connected | AlpcConnectionState::Listening => {
                self.state = AlpcConnectionState::Disconnected;
                Ok(())
            },
            AlpcConnectionState::Disconnected => Err(()),
        }
    }
}

} // verus!
