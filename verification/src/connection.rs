//! State of the single live data connection.
//!
//! A connection owns one interface variant — a streaming socket with its own
//! connect/close lifecycle, or a file — and one `available` flag meaning
//! "at least one unit of data has been received since this state was made".
//! The transport itself lives outside: the host drains it and reports what
//! happened as a [`PollEvent`]; every state transition is decided here.

use vstd::prelude::*;

verus! {

/// The kind of data source currently attached, if any.
///
/// A socket goes through three phases: connecting (opened but not yet
/// acknowledged), connected (`connecting` and `closed` both false), and
/// closed, which is terminal.  A file has no lifecycle of its own.
#[derive(Clone, Copy, Debug, PartialEq, Eq, Structural)]
pub enum Interface {
    /// A streaming socket.
    Socket {
        /// True until the transport has acknowledged the connection.
        connecting: bool,
        /// True once the socket was shut down; a closed socket never
        /// becomes live again.
        closed: bool,
    },
    /// A file source.
    File,
}

/// What the host observed while draining the transport, handed to
/// [`ConnectionState::poll`] once per frame.
#[derive(Clone, Copy, Debug, PartialEq, Eq, Structural)]
pub enum PollEvent {
    /// Nothing arrived.
    NoData,
    /// The socket transport acknowledged the connection.
    Opened,
    /// At least one unit of data was received and parsed.
    Received,
    /// The transport reported a dead or broken connection.
    Fatal,
}

/// Why a connect attempt was rejected.
#[derive(Clone, Copy, Debug, PartialEq, Eq, Structural)]
pub enum ConnectError {
    /// The locator string does not name a streaming socket endpoint.
    MalformedLocator,
    /// The transport could not be initialized for a well-formed locator.
    TransportInit,
}

/// Why a poll failed: the transport is no longer usable.
#[derive(Clone, Copy, Debug, PartialEq, Eq, Structural)]
pub enum PollError {
    /// The connection was reset, closed remotely, or otherwise broke.
    ConnectionLost,
}

/// The orchestrator's view of the one live connection.
#[derive(Clone, Copy, Debug, PartialEq, Eq, Structural)]
pub struct ConnectionState {
    /// The attached data source; `None` before the first `connect`.
    pub interface: Option<Interface>,
    /// True once data has been received on this instance.  Monotonic: it is
    /// reset only by replacing the instance, never by `poll` or `close`.
    pub available: bool,
}

impl ConnectionState {
    /// The interface is a socket still waiting for acknowledgement.
    pub open spec fn is_connecting(self) -> bool {
        self.interface matches Some(Interface::Socket { connecting: true, .. })
    }

    /// The interface is a socket that has been shut down.
    pub open spec fn is_closed(self) -> bool {
        self.interface matches Some(Interface::Socket { closed: true, .. })
    }

    /// The interface is a socket in some phase.
    pub open spec fn is_socket(self) -> bool {
        self.interface matches Some(Interface::Socket { .. })
    }

    /// The interface is a file.
    pub open spec fn is_file(self) -> bool {
        self.interface matches Some(Interface::File)
    }

    /// Well-formedness: availability never coexists with a connecting
    /// socket, a socket is never both connecting and closed, and
    /// availability implies some interface is attached.
    pub open spec fn wf(self) -> bool {
        &&& self.is_connecting() ==> !self.available
        &&& self.interface matches Some(Interface::Socket { connecting, closed })
            ==> !(connecting && closed)
        &&& self.available ==> self.interface is Some
    }

    /// A fresh state: no interface attached, no data received.
    pub fn new() -> (r: ConnectionState)
        ensures
            r.interface is None,
            !r.available,
            r.wf(),
    {
        ConnectionState { interface: None, available: false }
    }

    /// Attach a socket interface for a well-formed locator.
    ///
    /// `transport_ready` reports whether the host could initialize the
    /// transport for this locator; initialization is outside work, so its
    /// outcome arrives as an argument.  On any error the state is exactly
    /// what it was: there is no partial transition.
    pub fn connect(&mut self, url: &str, transport_ready: bool) -> (r: Result<
        (),
        ConnectError,
    >)
        requires
            old(self).wf(),
        ensures
            final(self).wf(),
            !valid_locator(url@) ==> r == Err::<(), ConnectError>(
                ConnectError::MalformedLocator,
            ) && *final(self) == *old(self),
            valid_locator(url@) && !transport_ready ==> r == Err::<(), ConnectError>(
                ConnectError::TransportInit,
            ) && *final(self) == *old(self),
            valid_locator(url@) && transport_ready ==> r == Ok::<(), ConnectError>(())
                && final(self).interface == Some(
                Interface::Socket { connecting: true, closed: false },
            ) && !final(self).available,
    {
        if !locator_is_valid(url) {
            return Err(ConnectError::MalformedLocator);
        }
        if !transport_ready {
            return Err(ConnectError::TransportInit);
        }
        self.interface = Some(Interface::Socket { connecting: true, closed: false });
        self.available = false;
        Ok(())
    }

    /// The state [`ConnectionState::poll`] leaves behind for a given event.
    ///
    /// Data on a live socket proves the connection: a still-connecting
    /// socket becomes connected in the same step, so availability never
    /// coexists with `connecting`.  A fatal event leaves a socket closed.
    pub open spec fn poll_next(self, event: PollEvent) -> ConnectionState {
        match event {
            PollEvent::NoData => self,
            PollEvent::Opened => if self.is_connecting() && !self.is_closed() {
                ConnectionState {
                    interface: Some(Interface::Socket { connecting: false, closed: false }),
                    available: self.available,
                }
            } else {
                self
            },
            PollEvent::Received => if self.interface matches Some(
                Interface::Socket { closed: false, .. },
            ) {
                ConnectionState {
                    interface: Some(Interface::Socket { connecting: false, closed: false }),
                    available: true,
                }
            } else if self.is_file() {
                ConnectionState { interface: self.interface, available: true }
            } else {
                self
            },
            PollEvent::Fatal => if self.is_socket() {
                ConnectionState {
                    interface: Some(Interface::Socket { connecting: false, closed: true }),
                    available: self.available,
                }
            } else {
                self
            },
        }
    }

    /// Apply one frame's worth of transport news.
    ///
    /// Non-blocking by construction: the drain already happened on the host
    /// side.  `Fatal` is the only failing event; it leaves a socket closed.
    /// `available` is set only when data arrives while the interface can
    /// receive, and once set it is never cleared here.
    pub fn poll(&mut self, event: PollEvent) -> (r: Result<(), PollError>)
        requires
            old(self).wf(),
        ensures
            final(self).wf(),
            *final(self) == old(self).poll_next(event),
            // Success is exactly "the transport did not die".
            r is Ok <==> event != PollEvent::Fatal,
            event == PollEvent::Fatal ==> r == Err::<(), PollError>(
                PollError::ConnectionLost,
            ),
            // Availability is monotonic across every poll.
            old(self).available ==> final(self).available,
            // A closed socket stays closed and never gains availability.
            old(self).is_closed() ==> final(self).is_closed() && final(self).available
                == old(self).available,
    {
        match event {
            PollEvent::NoData => Ok(()),
            PollEvent::Opened => {
                if let Some(Interface::Socket { connecting: true, closed: false }) =
                    self.interface {
                    self.interface = Some(
                        Interface::Socket { connecting: false, closed: false },
                    );
                }
                Ok(())
            },
            PollEvent::Received => {
                match self.interface {
                    Some(Interface::Socket { connecting: _, closed: false }) => {
                        // Data on a live socket proves the connection: a
                        // still-connecting socket becomes connected in the
                        // same step, so availability never coexists with
                        // `connecting`.
                        self.interface = Some(
                            Interface::Socket { connecting: false, closed: false },
                        );
                        self.available = true;
                    },
                    Some(Interface::File) => {
                        self.available = true;
                    },
                    _ => {},
                }
                Ok(())
            },
            PollEvent::Fatal => {
                if let Some(Interface::Socket { .. }) = self.interface {
                    self.interface = Some(
                        Interface::Socket { connecting: false, closed: true },
                    );
                }
                Err(PollError::ConnectionLost)
            },
        }
    }

    /// Shut the socket interface down.
    ///
    /// Best effort on the transport side; here the post-condition holds
    /// regardless: the socket is no longer connecting.  Non-socket
    /// interfaces are untouched, and `available` is never reset.
    pub fn close(&mut self)
        requires
            old(self).wf(),
        ensures
            final(self).wf(),
            old(self).is_socket() ==> final(self).interface == Some(
                Interface::Socket { connecting: false, closed: true },
            ),
            !old(self).is_socket() ==> *final(self) == *old(self),
            final(self).available == old(self).available,
            !final(self).is_connecting(),
    {
        if let Some(Interface::Socket { .. }) = self.interface {
            self.interface = Some(Interface::Socket { connecting: false, closed: true });
        }
    }
}

/// A locator names a streaming socket endpoint: `ws://` or `wss://`
/// followed by at least one character of host.
pub open spec fn valid_locator(s: Seq<char>) -> bool {
    ||| (s.len() > 5 && s[0] == 'w' && s[1] == 's' && s[2] == ':' && s[3] == '/' && s[4]
        == '/')
    ||| (s.len() > 6 && s[0] == 'w' && s[1] == 's' && s[2] == 's' && s[3] == ':' && s[4]
        == '/' && s[5] == '/')
}

/// Decide [`valid_locator`] on a locator string.
pub fn locator_is_valid(url: &str) -> (r: bool)
    ensures
        r == valid_locator(url@),
{
    let len: usize = url.unicode_len();
    if len <= 5 {
        return false;
    }
    if url.get_char(0) != 'w' || url.get_char(1) != 's' {
        return false;
    }
    let third = url.get_char(2);
    if third == ':' {
        return url.get_char(3) == '/' && url.get_char(4) == '/';
    }
    if third == 's' && len > 6 {
        return url.get_char(3) == ':' && url.get_char(4) == '/' && url.get_char(5) == '/';
    }
    false
}

/// Law: while the interface is a socket still connecting, the connection is
/// never available.
pub proof fn lemma_connecting_never_available(c: ConnectionState)
    requires
        c.wf(),
        c.is_connecting(),
    ensures
        !c.available,
{
}

/// Law: availability is monotonic — whatever event a poll brings, an
/// available connection stays available until the instance is replaced.
pub proof fn lemma_available_monotonic(c: ConnectionState, event: PollEvent)
    requires
        c.available,
    ensures
        c.poll_next(event).available,
{
}

/// Law: a closed socket is terminal — no later poll revives it or grants
/// it availability it did not already have.
pub proof fn lemma_closed_is_terminal(c: ConnectionState, event: PollEvent)
    requires
        c.is_closed(),
    ensures
        c.poll_next(event).is_closed(),
        c.poll_next(event).available == c.available,
{
}

/// The state left behind by a whole run of polls, one per event, oldest
/// event first.
pub open spec fn poll_run(c: ConnectionState, events: Seq<PollEvent>) -> ConnectionState
    decreases events.len(),
{
    if events.len() == 0 {
        c
    } else {
        poll_run(c.poll_next(events.first()), events.drop_first())
    }
}

/// Law: over any sequence of polls, availability, once true, stays true
/// for the life of the instance.
pub proof fn lemma_available_monotonic_run(c: ConnectionState, events: Seq<PollEvent>)
    requires
        c.available,
    ensures
        poll_run(c, events).available,
    decreases events.len(),
{
    if events.len() > 0 {
        lemma_available_monotonic(c, events.first());
        lemma_available_monotonic_run(c.poll_next(events.first()), events.drop_first());
    }
}

/// Law: once the socket interface is closed, no sequence of later polls
/// ever makes the instance available if it was not already.
pub proof fn lemma_closed_never_becomes_available(c: ConnectionState, events: Seq<PollEvent>)
    requires
        c.is_closed(),
    ensures
        poll_run(c, events).is_closed(),
        poll_run(c, events).available == c.available,
    decreases events.len(),
{
    if events.len() > 0 {
        lemma_closed_is_terminal(c, events.first());
        lemma_closed_never_becomes_available(c.poll_next(events.first()), events.drop_first());
    }
}

} // verus!
