use wsl_usb_manager::{Outcome, UsbDevice, UsbipError, Version};

fn bus_device(bus_id: &str, guid: Option<&str>) -> UsbDevice {
    UsbDevice {
        bus_id: Some(bus_id.to_string()),
        client_ip_address: None,
        description: None,
        instance_id: None,
        is_forced: false,
        persisted_guid: guid.map(String::from),
        stub_instance_id: None,
    }
}

#[test]
fn failure_asking_for_administrator_is_retried_elevated() {
    let mut op = bus_device("1-4", None).bind(false).unwrap();
    let first = op.pending().unwrap();
    assert!(!first.elevated);
    let err = op.record(Outcome::Failed("usbipd: error: Access denied; this operation requires administrator privileges.".to_string()));
    assert_eq!(err, None);
    let second = op.pending().unwrap();
    assert!(second.elevated);
    assert_eq!(second.args, first.args);
    assert_eq!(second.parameters(), "bind --busid 1-4");
    assert_eq!(op.record(Outcome::Success), None);
    assert!(op.pending().is_none());
    assert!(op.is_complete());
}

#[test]
fn other_failure_ends_the_operation() {
    let mut op = bus_device("1-4", None).bind(false).unwrap();
    let err = op.record(Outcome::Failed("usbipd: error: There is no device with busid '1-4'.".to_string()));
    assert_eq!(err, Some(UsbipError::Tool("usbipd: error: There is no device with busid '1-4'.".to_string())));
    assert!(op.pending().is_none());
    assert!(!op.is_complete());
}

#[test]
fn marker_is_case_sensitive() {
    let mut op = bus_device("1-4", None).bind(false).unwrap();
    let err = op.record(Outcome::Failed("Administrator rights needed".to_string()));
    assert_eq!(err, Some(UsbipError::Tool("Administrator rights needed".to_string())));
}

#[test]
fn elevation_is_tried_once() {
    let mut op = bus_device("1-4", Some("g")).unbind().unwrap();
    assert_eq!(op.record(Outcome::Failed("needs administrator".to_string())), None);
    assert!(op.pending().unwrap().elevated);
    let err = op.record(Outcome::LaunchFailed("The operation was canceled by the user.".to_string()));
    assert_eq!(err, Some(UsbipError::Launch("The operation was canceled by the user.".to_string())));
    assert!(op.pending().is_none());
}

#[test]
fn launch_failure_mentioning_administrator_is_retried_elevated() {
    let mut op = bus_device("1-4", None).bind(true).unwrap();
    assert_eq!(op.record(Outcome::LaunchFailed("run as administrator".to_string())), None);
    let inv = op.pending().unwrap();
    assert!(inv.elevated);
    assert_eq!(inv.parameters(), "bind --force --busid 1-4");
}

#[test]
fn attach_command_is_not_elevated() {
    let mut op = bus_device("2-1", Some("g")).attach(&Version { major: 4, minor: 4, patch: 0 }).unwrap();
    let err = op.record(Outcome::Failed("requires administrator".to_string()));
    assert_eq!(err, Some(UsbipError::Tool("requires administrator".to_string())));
}

#[test]
fn bind_failure_stops_attach() {
    let mut op = bus_device("2-1", None).attach(&Version { major: 4, minor: 4, patch: 0 }).unwrap();
    let err = op.record(Outcome::Failed("device busy".to_string()));
    assert_eq!(err, Some(UsbipError::Tool("device busy".to_string())));
    assert!(op.pending().is_none());
}

#[test]
fn error_messages() {
    assert_eq!(UsbipError::Tool("boom".to_string()).message(), "boom");
    assert_eq!(UsbipError::Launch("denied".to_string()).message(), "denied");
    assert_eq!(UsbipError::Timeout.message(), "The device was lost while waiting for the operation to complete.");
    assert_eq!(UsbipError::Duplicate.message(), "The device is already in the auto attach list.");
    assert_eq!(UsbipError::Precondition(wsl_usb_manager::Requirement::BusId).message(), "The device does not have a bus ID.");
}
