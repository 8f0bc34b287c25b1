use bollard::{Docker, API_DEFAULT_VERSION};
use daemon_session::commands::require_connection;
use daemon_session::errors::ErrorKind;
use daemon_session::session::SessionSlot;

fn local_handle() -> Docker {
    Docker::connect_with_http("http://127.0.0.1:2375", 5, API_DEFAULT_VERSION).unwrap()
}

#[test]
fn fresh_slot_is_empty() {
    let slot = SessionSlot::new();
    assert!(slot.current().is_none());
    let r = require_connection(&slot);
    assert_eq!(r.unwrap_err().kind, ErrorKind::NoConnection);
}

#[test]
fn bring_up_success_installs_handle() {
    // Bring-up success path: the probe replies "OK", the reply is returned
    // and a subsequent command observes a handle.
    let mut slot = SessionSlot::new();
    let r = slot.finish_bring_up(local_handle(), Ok("OK".to_string()));
    assert_eq!(r.unwrap(), "OK");
    assert!(slot.current().is_some());
    assert!(require_connection(&slot).is_ok());
}

#[test]
fn bring_up_failure_leaves_slot_untouched() {
    // Bring-up failure: a probe timeout surfaces as the timeout kind and
    // the slot stays empty, so the next command reports no connection.
    let mut slot = SessionSlot::new();
    let r = slot.finish_bring_up(local_handle(), Err(bollard::errors::Error::RequestTimeoutError));
    assert_eq!(r.unwrap_err().kind, ErrorKind::DockerRequestTimeout);
    assert!(slot.current().is_none());
    let next = require_connection(&slot);
    assert_eq!(next.unwrap_err().kind, ErrorKind::NoConnection);
}

#[test]
fn bring_up_replaces_occupied_slot() {
    let mut slot = SessionSlot::new();
    slot.finish_bring_up(local_handle(), Ok("OK".to_string())).unwrap();
    slot.finish_bring_up(local_handle(), Ok("OK".to_string())).unwrap();
    assert!(slot.current().is_some());
}

#[test]
fn bring_up_installs_the_probed_handle() {
    // A second successful bring-up replaces the occupant with the handle
    // that was probed, not the one that was there before; the handles are
    // told apart by the address they were built for.
    let old = Docker::connect_with_http("http://10.0.0.1:2375", 5, API_DEFAULT_VERSION).unwrap();
    let new = Docker::connect_with_http("http://10.0.0.2:2375", 5, API_DEFAULT_VERSION).unwrap();
    let mut slot = SessionSlot::new();
    slot.finish_bring_up(old, Ok("OK".to_string())).unwrap();
    slot.finish_bring_up(new, Ok("OK".to_string())).unwrap();
    let shown = format!("{:?}", slot.current().unwrap());
    assert!(shown.contains("10.0.0.2"));
    assert!(!shown.contains("10.0.0.1"));
}

#[test]
fn failed_bring_up_keeps_previous_handle() {
    let mut slot = SessionSlot::new();
    slot.finish_bring_up(local_handle(), Ok("OK".to_string())).unwrap();
    let r = slot.finish_bring_up(local_handle(), Err(bollard::errors::Error::RequestTimeoutError));
    assert!(r.is_err());
    assert!(slot.current().is_some());
}
