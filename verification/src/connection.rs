//! The state of a network connection.

use vstd::prelude::*;

verus! {

/// How far a connection can be used.
#[derive(Clone, Copy, Debug, PartialEq, Eq, Structural)]
pub enum ConnectionState {
    /// The connection works.
    Healthy,
    /// Reading or writing failed.
    Degraded,
    /// The connection is closed.
    Closed,
}

/// What is known of a network connection.
pub struct Connection {
    connection_id: String,
    state: ConnectionState,
}

/// What a [`Connection`] holds.
pub struct ConnectionView {
    pub connection_id: Seq<char>,
    pub state: ConnectionState,
}

impl View for Connection {
    type V = ConnectionView;

    closed spec fn view(&self) -> ConnectionView {
        ConnectionView { connection_id: self.connection_id@, state: self.state }
    }
}

impl Connection {
    /// A working connection that is known as `connection_id`.
    pub fn new(connection_id: String) -> (connection: Self)
        ensures
            connection@ == (ConnectionView {
                connection_id: connection_id@,
                state: ConnectionState::Healthy,
            }),
    {
        Connection { connection_id, state: ConnectionState::Healthy }
    }

    /// The name of the connection.
    pub fn connection_id(&self) -> (connection_id: &str)
        ensures
            connection_id@ == self@.connection_id,
    {
        self.connection_id.as_str()
    }

    /// How far the connection can be used.
    pub fn state(&self) -> (state: ConnectionState)
        ensures
            state == self@.state,
    {
        self.state
    }

    /// Whether the connection works.
    pub fn is_healthy(&self) -> (healthy: bool)
        ensures
            healthy == (self@.state == ConnectionState::Healthy),
    {
        self.state == ConnectionState::Healthy
    }

    /// Notes that reading or writing failed. A closed connection stays closed.
    pub fn mark_degraded(&mut self)
        ensures
            final(self)@ == (ConnectionView {
                state: if old(self)@.state == ConnectionState::Closed {
                    ConnectionState::Closed
                } else {
                    ConnectionState::Degraded
                },
                ..old(self)@
            }),
    {
        if self.state != ConnectionState::Closed {
            self.state = ConnectionState::Degraded;
        }
    }

    /// Closes the connection.
    pub fn close(&mut self)
        ensures
            final(self)@ == (ConnectionView { state: ConnectionState::Closed, ..old(self)@ }),
    {
        self.state = ConnectionState::Closed;
    }
}

} // verus!
