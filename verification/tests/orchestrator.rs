use tramex::ConnectError;
use tramex::ConnectionState;
use tramex::FramePlan;
use tramex::FrontEnd;
use tramex::Interface;
use tramex::PollError;
use tramex::PollEvent;
use tramex::locator_is_valid;

fn all_open_flags(fe: &FrontEnd) -> Vec<bool> {
    fe.windows.iter().map(|p| p.desired_open).collect()
}

#[test]
fn fresh_state_polls_ok_with_no_data() {
    // No prior connect: poll succeeds, nothing is available, no menu.
    let mut fe = FrontEnd::new();
    let r = fe.ui(PollEvent::NoData);
    assert_eq!(r, Ok(FramePlan::Blank));
    assert!(!fe.connector.available);
    let n = fe.windows.len();
    let shown = fe.menu_bar(&vec![true; n]);
    assert!(!shown);
}

#[test]
fn malformed_locator_is_rejected_without_transition() {
    let mut fe = FrontEnd::new();
    let before = fe.connector;
    let r = fe.connect("", true);
    assert_eq!(r, Err(ConnectError::MalformedLocator));
    assert_eq!(fe.connector, before);

    let r = fe.connect("http://host", true);
    assert_eq!(r, Err(ConnectError::MalformedLocator));
    assert_eq!(fe.connector, before);
}

#[test]
fn transport_failure_is_rejected_without_transition() {
    let mut fe = FrontEnd::new();
    let before = fe.connector;
    let r = fe.connect("ws://host", false);
    assert_eq!(r, Err(ConnectError::TransportInit));
    assert_eq!(fe.connector, before);
}

#[test]
fn connect_enters_connecting_socket() {
    let mut fe = FrontEnd::new();
    let r = fe.connect("ws://host", true);
    assert_eq!(r, Ok(()));
    assert_eq!(
        fe.connector.interface,
        Some(Interface::Socket { connecting: true, closed: false })
    );
    assert!(!fe.connector.available);
}

#[test]
fn locator_validation() {
    assert!(locator_is_valid("ws://h"));
    assert!(locator_is_valid("wss://h"));
    assert!(locator_is_valid("ws://host:9001"));
    assert!(!locator_is_valid(""));
    assert!(!locator_is_valid("ws://"));
    assert!(!locator_is_valid("wss://"));
    assert!(!locator_is_valid("http://host"));
    assert!(!locator_is_valid("w"));
}

#[test]
fn available_flips_once_and_stays() {
    // Three successful polls each delivering data: available flips on the
    // first and stays true through the second and third.
    let mut fe = FrontEnd::new();
    fe.connect("ws://host", true).unwrap();
    assert!(!fe.connector.available);

    let r = fe.ui(PollEvent::Received);
    assert_eq!(r, Ok(FramePlan::Panels));
    assert!(fe.connector.available);

    let r = fe.ui(PollEvent::Received);
    assert_eq!(r, Ok(FramePlan::Panels));
    assert!(fe.connector.available);

    let r = fe.ui(PollEvent::Received);
    assert_eq!(r, Ok(FramePlan::Panels));
    assert!(fe.connector.available);
}

#[test]
fn connecting_socket_is_never_available() {
    let mut fe = FrontEnd::new();
    fe.connect("ws://host", true).unwrap();
    assert_eq!(
        fe.connector.interface,
        Some(Interface::Socket { connecting: true, closed: false })
    );
    assert!(!fe.connector.available);
    // A quiet poll keeps the socket connecting and unavailable.
    let r = fe.ui(PollEvent::NoData);
    assert_eq!(r, Ok(FramePlan::SocketUnavailable));
    assert!(!fe.connector.available);
}

#[test]
fn opened_connects_without_availability() {
    let mut fe = FrontEnd::new();
    fe.connect("ws://host", true).unwrap();
    let r = fe.ui(PollEvent::Opened);
    assert_eq!(r, Ok(FramePlan::SocketUnavailable));
    assert_eq!(
        fe.connector.interface,
        Some(Interface::Socket { connecting: false, closed: false })
    );
    assert!(!fe.connector.available);
}

#[test]
fn close_then_poll_never_becomes_available() {
    let mut fe = FrontEnd::new();
    fe.connect("ws://host", true).unwrap();
    let show_connecting = fe.show_url(true);
    assert!(!show_connecting);
    assert_eq!(
        fe.connector.interface,
        Some(Interface::Socket { connecting: false, closed: true })
    );
    // Data arriving after close is ignored: the instance stays unavailable.
    for _ in 0..3 {
        let r = fe.ui(PollEvent::Received);
        assert_eq!(r, Ok(FramePlan::SocketUnavailable));
        assert!(!fe.connector.available);
    }
}

#[test]
fn fatal_poll_reports_dead_connection_and_closes() {
    let mut fe = FrontEnd::new();
    fe.connect("ws://host", true).unwrap();
    let r = fe.ui(PollEvent::Fatal);
    assert_eq!(r, Err(PollError::ConnectionLost));
    assert_eq!(
        fe.connector.interface,
        Some(Interface::Socket { connecting: false, closed: true })
    );
    // The dead socket never produces data again.
    let r = fe.ui(PollEvent::Received);
    assert_eq!(r, Ok(FramePlan::SocketUnavailable));
    assert!(!fe.connector.available);
}

#[test]
fn connecting_indicator_follows_socket_phase() {
    let mut fe = FrontEnd::new();
    assert!(!fe.show_url(false));
    fe.connect("ws://host", true).unwrap();
    assert!(fe.show_url(false));
    fe.ui(PollEvent::Opened).unwrap();
    assert!(!fe.show_url(false));
}

#[test]
fn file_interface_has_its_own_placeholder() {
    let mut fe = FrontEnd::new();
    fe.connector = ConnectionState { interface: Some(Interface::File), available: false };
    let r = fe.ui(PollEvent::NoData);
    assert_eq!(r, Ok(FramePlan::FileUnavailable));
    let r = fe.ui(PollEvent::Received);
    assert_eq!(r, Ok(FramePlan::Panels));
    assert!(fe.connector.available);
}

#[test]
fn fatal_on_file_interface_reports_without_closing_socket_state() {
    let mut fe = FrontEnd::new();
    fe.connector = ConnectionState { interface: Some(Interface::File), available: true };
    let r = fe.ui(PollEvent::Fatal);
    assert_eq!(r, Err(PollError::ConnectionLost));
    // A file has no socket lifecycle: the interface is left as it was.
    assert_eq!(fe.connector.interface, Some(Interface::File));
    assert!(fe.connector.available);
}

#[test]
fn new_roster_is_fully_open_and_registered() {
    let fe = FrontEnd::new();
    let names: Vec<String> = fe.windows.iter().map(|p| p.name.clone()).collect();
    assert_eq!(
        names,
        vec![
            "About".to_string(),
            "Message Box".to_string(),
            "Logical Channels".to_string(),
            "Trame Manager".to_string(),
        ]
    );
    assert!(fe.windows.iter().all(|p| p.desired_open));
    assert_eq!(fe.open_windows, names);
    assert!(fe.is_window_open("About"));
    assert!(fe.is_window_open("Trame Manager"));
    assert!(!fe.is_window_open("No Such Panel"));
}

#[test]
fn menu_toggle_closes_panel_and_registry_follows() {
    // Toggle one panel closed through the menu, then run a render pass: the
    // panel is not rendered and its name is gone from the registry.
    let mut fe = FrontEnd::new();
    fe.connect("ws://host", true).unwrap();
    fe.ui(PollEvent::Received).unwrap();

    let mut toggles = all_open_flags(&fe);
    toggles[1] = false; // close "Message Box"
    let shown = fe.menu_bar(&toggles);
    assert!(shown);
    assert!(!fe.is_window_open("Message Box"));
    assert!(!fe.open_windows.contains(&"Message Box".to_string()));

    // The render pass only touches open panels; a closed one is skipped and
    // its flag stays false.
    let plan = fe.ui(PollEvent::NoData).unwrap();
    assert_eq!(plan, FramePlan::Panels);
    let mut rendered: Vec<String> = Vec::new();
    let flags: Vec<bool> = fe
        .windows
        .iter()
        .map(|p| {
            if p.desired_open {
                rendered.push(p.name.clone());
            }
            p.desired_open
        })
        .collect();
    fe.apply_render(&flags);
    assert!(!rendered.contains(&"Message Box".to_string()));
    assert!(!fe.is_window_open("Message Box"));
    assert_eq!(
        fe.open_windows,
        vec![
            "About".to_string(),
            "Logical Channels".to_string(),
            "Trame Manager".to_string(),
        ]
    );
}

#[test]
fn menu_is_inert_while_unavailable() {
    let mut fe = FrontEnd::new();
    let registry_before = fe.open_windows.clone();
    let mut toggles = all_open_flags(&fe);
    toggles[0] = false;
    let shown = fe.menu_bar(&toggles);
    assert!(!shown);
    assert_eq!(fe.open_windows, registry_before);
    assert!(fe.is_window_open("About"));
}

#[test]
fn render_pass_may_close_but_never_open() {
    let mut fe = FrontEnd::new();
    fe.connect("ws://host", true).unwrap();
    fe.ui(PollEvent::Received).unwrap();

    // A panel closes itself during render.
    let mut flags = all_open_flags(&fe);
    flags[2] = false; // "Logical Channels" requests its own closure
    fe.apply_render(&flags);
    assert!(!fe.is_window_open("Logical Channels"));

    // A later pass reporting true for the closed panel does not reopen it:
    // a closed panel was never rendered, so its flag cannot have been set.
    let flags = vec![true; fe.windows.len()];
    fe.apply_render(&flags);
    assert!(!fe.is_window_open("Logical Channels"));
    assert!(fe.is_window_open("About"));
}

#[test]
fn reconnect_replaces_the_instance() {
    let mut fe = FrontEnd::new();
    fe.connect("ws://host", true).unwrap();
    fe.ui(PollEvent::Received).unwrap();
    assert!(fe.connector.available);
    // A fresh connect makes a fresh state: availability starts over.
    fe.connect("wss://elsewhere", true).unwrap();
    assert!(!fe.connector.available);
    assert_eq!(
        fe.connector.interface,
        Some(Interface::Socket { connecting: true, closed: false })
    );
}
