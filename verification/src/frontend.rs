//! The orchestrator: one connection, a roster of panels, and the derived
//! visibility registry.
//!
//! Each frame the host drains the transport, hands the outcome to [`FrontEnd::ui`],
//! draws what the returned plan says, and reports the panels' updated open
//! flags back through [`FrontEnd::apply_render`].  The registry of open panel
//! names is a derived projection of the panels' own flags: it is rebuilt after
//! every pass and never drifts from them.

use vstd::prelude::*;

use crate::connection::ConnectError;
use crate::connection::ConnectionState;
use crate::connection::Interface;
use crate::connection::PollError;
use crate::connection::PollEvent;
use crate::connection::valid_locator;

verus! {

/// One view panel: a stable identifying name and the panel's own wish to be
/// shown.  What the panel draws is the host's business.
#[derive(Debug)]
pub struct Panel {
    /// Unique, stable name; the join key into the visibility registry.
    pub name: String,
    /// Whether the panel should currently be shown.
    pub desired_open: bool,
}

/// What the host must draw this frame, decided by [`FrontEnd::ui`].
#[derive(Clone, Copy, Debug, PartialEq, Eq, Structural)]
pub enum FramePlan {
    /// Data has arrived: render every open panel.
    Panels,
    /// A socket interface with no data yet: render the socket placeholder.
    SocketUnavailable,
    /// A file interface with no data yet: render the file placeholder.
    FileUnavailable,
    /// No interface is attached: render nothing.
    Blank,
}

/// The names of the open panels, in roster order.
pub open spec fn open_names(ws: Seq<Panel>) -> Seq<Seq<char>>
    decreases ws.len(),
{
    if ws.len() == 0 {
        Seq::empty()
    } else {
        let rest = open_names(ws.drop_last());
        if ws.last().desired_open {
            rest.push(ws.last().name@)
        } else {
            rest
        }
    }
}

/// The abstract value of a list of strings.
pub open spec fn names_view(names: Seq<String>) -> Seq<Seq<char>> {
    names.map_values(|s: String| s@)
}

/// Every panel carries a name of its own.
pub open spec fn distinct_names(ws: Seq<Panel>) -> bool {
    forall|i: int, j: int|
        0 <= i < j < ws.len() ==> ws[i].name@ != ws[j].name@
}

/// The composition root: the one connection, the panel roster, and the
/// visibility registry derived from it.
#[derive(Debug)]
pub struct FrontEnd {
    /// The single live connection, shared by every panel through the
    /// orchestrator.
    pub connector: ConnectionState,
    /// The panel roster, in stable order.
    pub windows: Vec<Panel>,
    /// The visibility registry: names of the currently open panels.  A
    /// derived index, rebuilt from the roster after every pass.
    pub open_windows: Vec<String>,
}

impl FrontEnd {
    /// Well-formedness: the connection is well formed, panel names are
    /// unique, and the registry is exactly the projection of the roster.
    pub open spec fn wf(self) -> bool {
        &&& self.connector.wf()
        &&& distinct_names(self.windows@)
        &&& names_view(self.open_windows@) == open_names(self.windows@)
    }

    /// Build the orchestrator: a fresh connection and the fixed roster of
    /// panels, every panel initially open and registered.
    pub fn new() -> (r: FrontEnd)
        ensures
            r.wf(),
            r.connector.interface is None,
            !r.connector.available,
            r.windows@.len() == 4,
            forall|i: int| 0 <= i < r.windows@.len() ==> r.windows@[i].desired_open,
            r.windows@[0].name@ == "About"@,
            r.windows@[1].name@ == "Message Box"@,
            r.windows@[2].name@ == "Logical Channels"@,
            r.windows@[3].name@ == "Trame Manager"@,
    {
        proof {
            reveal_strlit("About");
            reveal_strlit("Message Box");
            reveal_strlit("Logical Channels");
            reveal_strlit("Trame Manager");
        }
        let mut windows: Vec<Panel> = Vec::new();
        windows.push(Panel { name: "About".to_owned(), desired_open: true });
        windows.push(Panel { name: "Message Box".to_owned(), desired_open: true });
        windows.push(Panel { name: "Logical Channels".to_owned(), desired_open: true });
        windows.push(Panel { name: "Trame Manager".to_owned(), desired_open: true });
        proof {
            assert forall|i: int, j: int|
                0 <= i < j < windows@.len() implies windows@[i].name@
                != windows@[j].name@ by {
                assert(windows@[0].name@.len() == 5);
                assert(windows@[1].name@.len() == 11);
                assert(windows@[2].name@.len() == 16);
                assert(windows@[3].name@.len() == 13);
            }
        }
        let open_windows = rebuild_open_windows(&windows);
        FrontEnd { connector: ConnectionState::new(), windows, open_windows }
    }

    /// Attach a socket interface for `url`.
    ///
    /// `transport_ready` reports whether the host could initialize the
    /// transport; see [`ConnectionState::connect`].  The roster and the
    /// registry are untouched, and on any error so is the connection.
    pub fn connect(&mut self, url: &str, transport_ready: bool) -> (r: Result<
        (),
        ConnectError,
    >)
        requires
            old(self).wf(),
        ensures
            final(self).wf(),
            final(self).windows@ == old(self).windows@,
            final(self).open_windows@ == old(self).open_windows@,
            !valid_locator(url@) ==> r == Err::<(), ConnectError>(
                ConnectError::MalformedLocator,
            ) && final(self).connector == old(self).connector,
            valid_locator(url@) && !transport_ready ==> r == Err::<(), ConnectError>(
                ConnectError::TransportInit,
            ) && final(self).connector == old(self).connector,
            valid_locator(url@) && transport_ready ==> r == Ok::<(), ConnectError>(())
                && final(self).connector.interface == Some(
                Interface::Socket { connecting: true, closed: false },
            ) && !final(self).connector.available,
    {
        self.connector.connect(url, transport_ready)
    }

    /// Drive one frame: apply the transport's news and decide what to draw.
    ///
    /// A fatal event is the one failing path; it is returned to the host
    /// untouched (the host renders an empty frame and decides what to do
    /// next).  Otherwise the plan follows the post-poll state: panels when
    /// data is available, else the placeholder of the interface kind.  The
    /// roster and the registry are not touched here — the host reports the
    /// render pass through [`FrontEnd::apply_render`] afterwards.
    pub fn ui(&mut self, event: PollEvent) -> (r: Result<FramePlan, PollError>)
        requires
            old(self).wf(),
        ensures
            final(self).wf(),
            final(self).windows@ == old(self).windows@,
            final(self).open_windows@ == old(self).open_windows@,
            final(self).connector == old(self).connector.poll_next(event),
            r is Ok <==> event != PollEvent::Fatal,
            event == PollEvent::Fatal ==> r == Err::<FramePlan, PollError>(
                PollError::ConnectionLost,
            ),
            event != PollEvent::Fatal ==> r == Ok::<FramePlan, PollError>(
                plan_for(final(self).connector),
            ),
            old(self).connector.available ==> final(self).connector.available,
    {
        if let Err(e) = self.connector.poll(event) {
            return Err(e);
        }
        if self.connector.available {
            Ok(FramePlan::Panels)
        } else {
            match self.connector.interface {
                Some(Interface::Socket { .. }) => Ok(FramePlan::SocketUnavailable),
                Some(Interface::File) => Ok(FramePlan::FileUnavailable),
                None => Ok(FramePlan::Blank),
            }
        }
    }

    /// Reconcile the registry with a finished render pass.
    ///
    /// `flags[i]` is panel `i`'s open flag as the render pass left it.  A
    /// render may only close a panel, never open one, so the new desired
    /// state is the old one weakened by the reported flag; the registry is
    /// rebuilt from the result.
    pub fn apply_render(&mut self, flags: &Vec<bool>)
        requires
            old(self).wf(),
            flags@.len() == old(self).windows@.len(),
        ensures
            final(self).wf(),
            final(self).connector == old(self).connector,
            final(self).windows@.len() == old(self).windows@.len(),
            forall|i: int|
                0 <= i < flags@.len() ==> (#[trigger] final(self).windows@[i]).name@
                    == old(self).windows@[i].name@,
            forall|i: int|
                0 <= i < flags@.len() ==> (#[trigger] final(self).windows@[i]).desired_open
                    == (old(self).windows@[i].desired_open && flags@[i]),
            names_view(final(self).open_windows@) == open_names(final(self).windows@),
    {
        let mut combined: Vec<bool> = Vec::new();
        let mut i: usize = 0;
        while i < flags.len()
            invariant
                i <= flags@.len(),
                flags@.len() == self.windows@.len(),
                combined@.len() == i,
                forall|j: int|
                    0 <= j < i ==> #[trigger] combined@[j] == (self.windows@[j].desired_open
                        && flags@[j]),
            decreases flags@.len() - i,
        {
            combined.push(self.windows[i].desired_open && flags[i]);
            i = i + 1;
        }
        self.write_flags(&combined);
    }

    /// The menu surface: exposed only while data is available.
    ///
    /// `toggles[i]` is the state of panel `i`'s checkbox as the user left
    /// it.  When the menu was shown the toggles become the panels' desired
    /// state and the registry is rebuilt; when it was not (no data yet),
    /// nothing changes and the host must not have drawn it.
    pub fn menu_bar(&mut self, toggles: &Vec<bool>) -> (shown: bool)
        requires
            old(self).wf(),
            toggles@.len() == old(self).windows@.len(),
        ensures
            final(self).wf(),
            shown == old(self).connector.available,
            final(self).connector == old(self).connector,
            !shown ==> *final(self) == *old(self),
            shown ==> final(self).windows@.len() == old(self).windows@.len(),
            shown ==> forall|i: int|
                0 <= i < toggles@.len() ==> (#[trigger] final(self).windows@[i]).name@
                    == old(self).windows@[i].name@,
            shown ==> forall|i: int|
                0 <= i < toggles@.len() ==> (#[trigger] final(self).windows@[i]).desired_open
                    == toggles@[i],
            shown ==> names_view(final(self).open_windows@) == open_names(
                final(self).windows@,
            ),
    {
        if !self.connector.available {
            return false;
        }
        self.write_flags(toggles);
        true
    }

    /// The close/status surface.
    ///
    /// When the host reports a click on the close control, the socket
    /// interface is shut down — best effort on the transport side, but the
    /// state machine leaves `connecting` behind either way.  The result says
    /// whether to draw the connecting indicator, which is exactly "the
    /// interface is a socket still connecting" after any close took effect.
    pub fn show_url(&mut self, close_clicked: bool) -> (show_connecting: bool)
        requires
            old(self).wf(),
        ensures
            final(self).wf(),
            final(self).windows@ == old(self).windows@,
            final(self).open_windows@ == old(self).open_windows@,
            !close_clicked ==> final(self).connector == old(self).connector,
            close_clicked && old(self).connector.is_socket()
                ==> final(self).connector.interface
                == Some(Interface::Socket { connecting: false, closed: true }),
            close_clicked && !old(self).connector.is_socket() ==> final(self).connector
                == old(self).connector,
            final(self).connector.available == old(self).connector.available,
            show_connecting == final(self).connector.is_connecting(),
            close_clicked ==> !show_connecting,
    {
        if close_clicked {
            self.connector.close();
        }
        match self.connector.interface {
            Some(Interface::Socket { connecting, .. }) => connecting,
            _ => false,
        }
    }

    /// Whether `name` currently stands in the visibility registry.
    pub fn is_window_open(&self, name: &str) -> (r: bool)
        ensures
            r == names_view(self.open_windows@).contains(name@),
    {
        let wanted: String = name.to_owned();
        let mut i: usize = 0;
        while i < self.open_windows.len()
            invariant
                i <= self.open_windows@.len(),
                wanted@ == name@,
                forall|j: int| 0 <= j < i ==> self.open_windows@[j]@ != name@,
            decreases self.open_windows@.len() - i,
        {
            if self.open_windows[i] == wanted {
                proof {
                    assert(names_view(self.open_windows@)[i as int] == name@);
                }
                return true;
            }
            i = i + 1;
        }
        proof {
            assert forall|j: int|
                0 <= j < names_view(self.open_windows@).len() implies names_view(
                self.open_windows@,
            )[j] != name@ by {
                assert(self.open_windows@[j]@ != name@);
            }
        }
        false
    }

    /// Overwrite every panel's desired state and rebuild the registry.
    fn write_flags(&mut self, flags: &Vec<bool>)
        requires
            old(self).wf(),
            flags@.len() == old(self).windows@.len(),
        ensures
            final(self).wf(),
            final(self).connector == old(self).connector,
            final(self).windows@.len() == old(self).windows@.len(),
            forall|i: int|
                0 <= i < flags@.len() ==> (#[trigger] final(self).windows@[i]).name@
                    == old(self).windows@[i].name@,
            forall|i: int|
                0 <= i < flags@.len() ==> (#[trigger] final(self).windows@[i]).desired_open
                    == flags@[i],
            names_view(final(self).open_windows@) == open_names(final(self).windows@),
    {
        let ghost orig = self.windows@;
        let mut i: usize = 0;
        while i < flags.len()
            invariant
                i <= flags@.len(),
                flags@.len() == self.windows@.len(),
                orig.len() == self.windows@.len(),
                self.connector == old(self).connector,
                forall|j: int|
                    0 <= j < i ==> (#[trigger] self.windows@[j]).name@ == orig[j].name@,
                forall|j: int|
                    0 <= j < i ==> (#[trigger] self.windows@[j]).desired_open == flags@[j],
                forall|j: int| i <= j < orig.len() ==> #[trigger] self.windows@[j] == orig[j],
            decreases flags@.len() - i,
        {
            let nm = self.windows[i].name.clone();
            let open_now = flags[i];
            self.windows[i] = Panel { name: nm, desired_open: open_now };
            i = i + 1;
        }
        proof {
            assert forall|a: int, b: int|
                0 <= a < b < self.windows@.len() implies self.windows@[a].name@
                != self.windows@[b].name@ by {
                assert(self.windows@[a].name@ == orig[a].name@);
                assert(self.windows@[b].name@ == orig[b].name@);
            }
        }
        self.open_windows = rebuild_open_windows(&self.windows);
    }
}

/// The frame plan that belongs to a connection state: panels once data is
/// available, else the placeholder of the interface kind, else nothing.
pub open spec fn plan_for(c: ConnectionState) -> FramePlan {
    if c.available {
        FramePlan::Panels
    } else if c.is_socket() {
        FramePlan::SocketUnavailable
    } else if c.is_file() {
        FramePlan::FileUnavailable
    } else {
        FramePlan::Blank
    }
}

/// An open panel's name stands in the registry projection.
proof fn lemma_open_names_member(ws: Seq<Panel>, i: int)
    requires
        0 <= i < ws.len(),
        ws[i].desired_open,
    ensures
        open_names(ws).contains(ws[i].name@),
    decreases ws.len(),
{
    if i == ws.len() - 1 {
        let names = open_names(ws);
        assert(names.last() == ws[i].name@);
        assert(names.contains(ws[i].name@));
    } else {
        lemma_open_names_member(ws.drop_last(), i);
        let rest = open_names(ws.drop_last());
        let k = choose|k: int| 0 <= k < rest.len() && rest[k] == ws[i].name@;
        assert(open_names(ws)[k] == ws[i].name@);
    }
}

/// Every name in the registry projection belongs to some open panel.
proof fn lemma_open_names_source(ws: Seq<Panel>, n: Seq<char>)
    requires
        open_names(ws).contains(n),
    ensures
        exists|j: int| 0 <= j < ws.len() && ws[j].name@ == n && ws[j].desired_open,
    decreases ws.len(),
{
    let names = open_names(ws);
    let rest = open_names(ws.drop_last());
    if ws.last().desired_open && ws.last().name@ == n {
        assert(ws[ws.len() - 1].name@ == n && ws[ws.len() - 1].desired_open);
    } else {
        let k = choose|k: int| 0 <= k < names.len() && names[k] == n;
        if ws.last().desired_open {
            assert(k < rest.len());
            assert(rest[k] == n);
        }
        assert(rest.contains(n));
        lemma_open_names_source(ws.drop_last(), n);
        let j = choose|j: int|
            0 <= j < ws.drop_last().len() && ws.drop_last()[j].name@ == n
                && ws.drop_last()[j].desired_open;
        assert(ws[j].name@ == n && ws[j].desired_open);
    }
}

/// Law: for a well-formed orchestrator the registry never disagrees with
/// the panels — a panel's name stands in the visibility registry exactly
/// when that panel's own `desired_open` flag is set.
pub proof fn lemma_registry_matches_panels(fe: FrontEnd, i: int)
    requires
        fe.wf(),
        0 <= i < fe.windows@.len(),
    ensures
        fe.windows@[i].desired_open <==> names_view(fe.open_windows@).contains(
            fe.windows@[i].name@,
        ),
{
    let ws = fe.windows@;
    if ws[i].desired_open {
        lemma_open_names_member(ws, i);
    }
    if names_view(fe.open_windows@).contains(ws[i].name@) {
        lemma_open_names_source(ws, ws[i].name@);
        let j = choose|j: int|
            0 <= j < ws.len() && ws[j].name@ == ws[i].name@ && ws[j].desired_open;
        assert(j == i);
    }
}

/// Project the registry out of the roster: the names of the open panels,
/// in order.
fn rebuild_open_windows(windows: &Vec<Panel>) -> (r: Vec<String>)
    ensures
        names_view(r@) == open_names(windows@),
{
    let mut r: Vec<String> = Vec::new();
    let mut i: usize = 0;
    proof {
        assert(windows@.take(0) =~= Seq::<Panel>::empty());
        assert(names_view(r@) =~= open_names(windows@.take(0)));
    }
    while i < windows.len()
        invariant
            i <= windows@.len(),
            names_view(r@) == open_names(windows@.take(i as int)),
        decreases windows@.len() - i,
    {
        let ghost prefix = windows@.take(i as int);
        if windows[i].desired_open {
            r.push(windows[i].name.clone());
        }
        i = i + 1;
        proof {
            let stepped = windows@.take(i as int);
            assert(stepped.drop_last() =~= prefix);
            assert(stepped.last() == windows@[i - 1]);
            if windows@[i - 1].desired_open {
                assert(names_view(r@) =~= open_names(prefix).push(windows@[i - 1].name@));
            }
        }
    }
    proof {
        assert(windows@.take(windows@.len() as int) =~= windows@);
    }
    r
}

} // verus!

