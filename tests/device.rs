use wsl_usb_manager::{Requirement, UsbDevice, UsbipError, UsbipState, Version};

fn device(
    bus_id: Option<&str>,
    client: Option<&str>,
    guid: Option<&str>,
    instance_id: Option<&str>,
    forced: bool,
) -> UsbDevice {
    UsbDevice {
        bus_id: bus_id.map(String::from),
        client_ip_address: client.map(String::from),
        description: Some("Test device".to_string()),
        instance_id: instance_id.map(String::from),
        is_forced: forced,
        persisted_guid: guid.map(String::from),
        stub_instance_id: None,
    }
}

fn pending_args(op: &wsl_usb_manager::Operation) -> (Vec<String>, bool) {
    let inv = op.pending().expect("an invocation is pending");
    (inv.args, inv.elevated)
}

fn strings(words: &[&str]) -> Vec<String> {
    words.iter().map(|w| w.to_string()).collect()
}

#[test]
fn vid_pid_and_serial_from_instance_id() {
    let d = device(Some("1-2"), None, None, Some("USB\\VID_1234&PID_5678\\ABCDEF"), false);
    assert_eq!(d.vid_pid(), Some("1234:5678".to_string()));
    assert_eq!(d.serial(), Some("ABCDEF".to_string()));
}

#[test]
fn generated_serial_is_not_a_serial() {
    let d = device(Some("1-2"), None, None, Some("USB\\VID_1234&PID_5678\\6&1a2b3c4d&0&1"), false);
    assert_eq!(d.serial(), None);
    assert_eq!(d.vid_pid(), Some("1234:5678".to_string()));
}

#[test]
fn missing_or_short_instance_id() {
    let none = device(Some("1-2"), None, None, None, false);
    assert_eq!(none.vid_pid(), None);
    assert_eq!(none.serial(), None);
    let short = device(Some("1-2"), None, None, Some("USB"), false);
    assert_eq!(short.vid_pid(), None);
    assert_eq!(short.serial(), None);
    let two = device(Some("1-2"), None, None, Some("USB\\VID_AAAA&PID_BBBB"), false);
    assert_eq!(two.vid_pid(), Some("AAAA:BBBB".to_string()));
    assert_eq!(two.serial(), None);
}

#[test]
fn state_of_each_kind_of_record() {
    assert_eq!(device(None, None, Some("g"), None, false).state(), UsbipState::Persisted);
    assert_eq!(device(Some("1-1"), Some("10.0.0.2"), Some("g"), None, true).state(), UsbipState::Attached(true));
    assert_eq!(device(Some("1-1"), None, Some("g"), None, false).state(), UsbipState::Shared(false));
    assert_eq!(device(Some("1-1"), None, Some("g"), None, true).state(), UsbipState::Shared(true));
    assert_eq!(device(Some("1-1"), None, None, None, false).state(), UsbipState::Unshared);
}

#[test]
fn exactly_one_state_for_every_field_combination() {
    for mask in 0..16u32 {
        let bus = if mask & 1 != 0 { Some("1-1") } else { None };
        let client = if mask & 2 != 0 { Some("10.0.0.2") } else { None };
        let guid = if mask & 4 != 0 { Some("g") } else { None };
        let forced = mask & 8 != 0;
        let d = device(bus, client, guid, None, forced);
        let st = d.state();
        let flags = [
            st == UsbipState::Persisted,
            st == UsbipState::Unshared,
            matches!(st, UsbipState::Shared(_)),
            matches!(st, UsbipState::Attached(_)),
        ];
        assert_eq!(flags.iter().filter(|f| **f).count(), 1);
        assert_eq!(st == UsbipState::Persisted, !d.is_connected());
        assert_eq!(matches!(st, UsbipState::Attached(_)), d.is_attached());
        if d.is_bound() || d.is_attached() {
            assert!(d.is_connected());
        }
        if guid.is_some() && d.is_attached() {
            assert!(d.is_bound());
        }
    }
}

#[test]
fn state_labels() {
    assert_eq!(UsbipState::Unshared.to_text(), "Not shared");
    assert_eq!(UsbipState::Persisted.to_text(), "Persisted");
    assert_eq!(UsbipState::Shared(false).to_text(), "Shared");
    assert_eq!(UsbipState::Shared(true).to_text(), "Shared (forced)");
    assert_eq!(UsbipState::Attached(false).to_text(), "Attached");
    assert_eq!(UsbipState::Attached(true).to_text(), "Attached (forced)");
}

#[test]
fn bind_without_bus_id_runs_nothing() {
    let d = device(None, None, Some("g"), None, false);
    assert_eq!(d.bind(false).err(), Some(UsbipError::Precondition(Requirement::BusId)));
    assert_eq!(d.bind(true).err(), Some(UsbipError::Precondition(Requirement::BusId)));
}

#[test]
fn bind_commands() {
    let d = device(Some("1-2"), None, None, None, false);
    let op = d.bind(false).unwrap();
    assert_eq!(pending_args(&op), (strings(&["bind", "--busid", "1-2"]), false));
    let op = d.bind(true).unwrap();
    assert_eq!(pending_args(&op), (strings(&["bind", "--force", "--busid", "1-2"]), false));
}

#[test]
fn unbind_needs_persisted_guid() {
    let d = device(Some("1-2"), None, None, None, false);
    assert_eq!(d.unbind().err(), Some(UsbipError::Precondition(Requirement::Binding)));
    assert_eq!(d.unbind().err().unwrap().message(), "The device is already unbound.");
    let d = device(None, None, Some("{abc}"), None, false);
    let op = d.unbind().unwrap();
    assert_eq!(pending_args(&op), (strings(&["unbind", "--guid", "{abc}"]), false));
}

#[test]
fn attach_binds_first_when_unbound() {
    let d = device(Some("3-1"), None, None, None, false);
    let mut op = d.attach(&Version { major: 4, minor: 0, patch: 0 }).unwrap();
    assert_eq!(pending_args(&op), (strings(&["bind", "--busid", "3-1"]), false));
    assert_eq!(op.record(wsl_usb_manager::Outcome::Success), None);
    assert_eq!(pending_args(&op), (strings(&["attach", "--wsl", "--busid", "3-1"]), false));
    assert_eq!(op.record(wsl_usb_manager::Outcome::Success), None);
    assert!(op.pending().is_none());
    assert!(op.is_complete());
}

#[test]
fn attach_forms_by_version() {
    let d = device(Some("3-1"), None, Some("g"), None, false);
    let op = d.attach(&Version { major: 3, minor: 2, patch: 0 }).unwrap();
    assert_eq!(pending_args(&op), (strings(&["wsl", "attach", "--busid", "3-1"]), false));
    let op = d.attach(&Version { major: 4, minor: 1, patch: 0 }).unwrap();
    assert_eq!(pending_args(&op), (strings(&["attach", "--wsl", "--busid", "3-1"]), false));
    let none = device(None, None, Some("g"), None, false);
    assert_eq!(none.attach(&Version { major: 4, minor: 1, patch: 0 }).err(), Some(UsbipError::Precondition(Requirement::BusId)));
}

#[test]
fn detach_forms_by_version() {
    let d = device(Some("3-1"), Some("10.0.0.2"), Some("g"), None, false);
    let op = d.detach(&Version { major: 3, minor: 0, patch: 0 }).unwrap();
    assert_eq!(pending_args(&op), (strings(&["wsl", "detach", "--busid", "3-1"]), false));
    let op = d.detach(&Version { major: 4, minor: 0, patch: 0 }).unwrap();
    assert_eq!(pending_args(&op), (strings(&["detach", "--busid", "3-1"]), false));
    let none = device(None, None, Some("g"), None, false);
    assert_eq!(none.detach(&Version { major: 4, minor: 0, patch: 0 }).err(), Some(UsbipError::Precondition(Requirement::BusId)));
}
