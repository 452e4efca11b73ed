//! Orchestration core of an interactive trace viewer.
//!
//! The crate models the state of one live data connection (socket or file),
//! the per-panel visibility registry, and the per-frame poll-and-dispatch
//! decisions of the orchestrator.  Rendering and transport I/O are left to
//! the host; every decision the host acts on is made here, under contract.

mod connection;
mod frontend;

pub use connection::ConnectError;
pub use connection::ConnectionState;
pub use connection::Interface;
pub use connection::PollError;
pub use connection::PollEvent;
pub use connection::lemma_available_monotonic;
pub use connection::lemma_closed_is_terminal;
pub use connection::lemma_available_monotonic_run;
pub use connection::lemma_closed_never_becomes_available;
pub use connection::lemma_connecting_never_available;
pub use connection::locator_is_valid;
pub use connection::poll_run;
pub use connection::valid_locator;
pub use frontend::FramePlan;
pub use frontend::FrontEnd;
pub use frontend::Panel;
pub use frontend::distinct_names;
pub use frontend::lemma_registry_matches_panels;
pub use frontend::names_view;
pub use frontend::open_names;
pub use frontend::plan_for;
