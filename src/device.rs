use vstd::prelude::*;

use crate::commands::{
    attach_command, bind_command, detach_command, make_attach_command, make_bind_command,
    make_detach_command, make_unbind_command, unbind_command,
};
use crate::error::{Requirement, UsbipError};
use crate::operation::{command_views, Command, CommandView, Operation, OperationView};
use crate::text::{contains_char, replace, replace_all, segments, split};
use crate::version::Version;

verus! {

/// The `VID_xxxx&PID_xxxx` segment of an instance ID, written `xxxx:xxxx`.
pub open spec fn vid_pid_of(instance_id: Seq<char>) -> Option<Seq<char>> {
    let parts = segments(instance_id, '\\');
    if parts.len() > 1 {
        Some(replace_all(replace_all(parts[1], "VID_"@, ""@), "&PID_"@, ":"@))
    } else {
        None
    }
}

/// The serial segment of an instance ID. A segment with an `&` was generated
/// by the system for a device without a serial number and does not survive a
/// reconnection, so it is no serial.
pub open spec fn serial_of(instance_id: Seq<char>) -> Option<Seq<char>> {
    let parts = segments(instance_id, '\\');
    if parts.len() > 2 && !parts[2].contains('&') {
        Some(parts[2])
    } else {
        None
    }
}

/// The view of an optional string.
pub open spec fn opt_view(o: Option<String>) -> Option<Seq<char>> {
    match o {
        Some(s) => Some(s@),
        None => None,
    }
}

/// The state of a device as `usbipd` manages it, derived from a [`UsbDevice`].
#[derive(Debug, Clone, Copy, PartialEq, Eq, Structural)]
pub enum UsbipState {
    /// Connected to the host and not shared.
    Unshared,
    /// Not connected; only the persisted binding remains.
    Persisted,
    /// Shared (bound) and not attached; the flag tells whether binding was forced.
    Shared(bool),
    /// Attached to a guest; the flag tells whether binding was forced.
    Attached(bool),
}

impl UsbipState {
    /// The text shown for the state.
    pub open spec fn label(self) -> Seq<char> {
        match self {
            UsbipState::Unshared => "Not shared"@,
            UsbipState::Persisted => "Persisted"@,
            UsbipState::Shared(forced) => if forced {
                "Shared (forced)"@
            } else {
                "Shared"@
            },
            UsbipState::Attached(forced) => if forced {
                "Attached (forced)"@
            } else {
                "Attached"@
            },
        }
    }

    /// The text shown for the state, with " (forced)" after a forced binding.
    pub fn to_text(&self) -> (r: String)
        ensures
            r@ == self.label(),
    {
        match self {
            UsbipState::Unshared => String::from_str("Not shared"),
            UsbipState::Persisted => String::from_str("Persisted"),
            UsbipState::Shared(forced) => if *forced {
                String::from_str("Shared (forced)")
            } else {
                String::from_str("Shared")
            },
            UsbipState::Attached(forced) => if *forced {
                String::from_str("Attached (forced)")
            } else {
                String::from_str("Attached")
            },
        }
    }
}

/// A USB device as reported by `usbipd state`.
#[derive(Debug)]
pub struct UsbDevice {
    pub bus_id: Option<String>,
    pub client_ip_address: Option<String>,
    pub description: Option<String>,
    pub instance_id: Option<String>,
    pub is_forced: bool,
    pub persisted_guid: Option<String>,
    pub stub_instance_id: Option<String>,
}

impl UsbDevice {
    /// The device is connected to the host.
    pub open spec fn connected(&self) -> bool {
        self.bus_id is Some
    }

    /// The device is shared by `usbipd`.
    pub open spec fn bound(&self) -> bool {
        self.connected() && self.persisted_guid is Some
    }

    /// The device is attached to a client.
    pub open spec fn attached(&self) -> bool {
        self.connected() && self.client_ip_address is Some
    }

    /// The state derived from the record, in order of priority.
    pub open spec fn state_spec(&self) -> UsbipState {
        if !self.connected() {
            UsbipState::Persisted
        } else if self.attached() {
            UsbipState::Attached(self.is_forced)
        } else if self.bound() {
            UsbipState::Shared(self.is_forced)
        } else {
            UsbipState::Unshared
        }
    }

    /// The commands that attach the device: a bind first unless it is bound.
    pub open spec fn attach_plan(&self, bus_id: Seq<char>, legacy: bool) -> Seq<CommandView> {
        if self.bound() {
            seq![attach_command(bus_id, legacy)]
        } else {
            seq![bind_command(bus_id, false), attach_command(bus_id, legacy)]
        }
    }

    /// Returns whether the device is connected to the system.
    pub fn is_connected(&self) -> (r: bool)
        ensures
            r == self.connected(),
    {
        self.bus_id.is_some()
    }

    /// Returns whether the device is shared by usbipd.
    pub fn is_bound(&self) -> (r: bool)
        ensures
            r == self.bound(),
    {
        self.is_connected() && self.persisted_guid.is_some()
    }

    /// Returns whether the device is attached to a usbip client.
    pub fn is_attached(&self) -> (r: bool)
        ensures
            r == self.attached(),
    {
        self.is_connected() && self.client_ip_address.is_some()
    }

    /// Returns the state of the device.
    pub fn state(&self) -> (r: UsbipState)
        ensures
            r == self.state_spec(),
    {
        if self.bus_id.is_none() {
            UsbipState::Persisted
        } else if self.is_attached() {
            UsbipState::Attached(self.is_forced)
        } else if self.is_bound() {
            UsbipState::Shared(self.is_forced)
        } else {
            UsbipState::Unshared
        }
    }

    /// Returns the VID:PID of the device if available.
    pub fn vid_pid(&self) -> (r: Option<String>)
        ensures
            opt_view(r) == (match self.instance_id {
                Some(id) => vid_pid_of(id@),
                None => None,
            }),
    {
        match &self.instance_id {
            None => None,
            Some(id) => {
                let parts = split(id.as_str(), '\\');
                if parts.len() < 2 {
                    None
                } else {
                    proof {
                        reveal_strlit("VID_");
                        reveal_strlit("&PID_");
                    }
                    let without_vid = replace(parts[1].as_str(), "VID_", "");
                    Some(replace(without_vid.as_str(), "&PID_", ":"))
                }
            },
        }
    }

    /// Returns the serial number of the device if available.
    pub fn serial(&self) -> (r: Option<String>)
        ensures
            opt_view(r) == (match self.instance_id {
                Some(id) => serial_of(id@),
                None => None,
            }),
    {
        match &self.instance_id {
            None => None,
            Some(id) => {
                let parts = split(id.as_str(), '\\');
                if parts.len() < 3 || contains_char(parts[2].as_str(), '&') {
                    None
                } else {
                    Some(parts[2].clone())
                }
            },
        }
    }

    /// The operation that binds the device, retried elevated if needed.
    /// Fails without running anything when the device has no bus ID.
    pub fn bind(&self, force: bool) -> (r: Result<Operation, UsbipError>)
        ensures
            match self.bus_id {
                None => r == Err::<Operation, UsbipError>(UsbipError::Precondition(Requirement::BusId)),
                Some(b) => r matches Ok(op) && op@.wf() && op@ == OperationView::fresh(
                    seq![bind_command(b@, force)],
                ),
            },
    {
        match &self.bus_id {
            None => Err(UsbipError::Precondition(Requirement::BusId)),
            Some(b) => {
                let mut commands: Vec<Command> = Vec::new();
                commands.push(make_bind_command(b.as_str(), force));
                proof {
                    assert(command_views(commands@) =~= seq![bind_command(b@, force)]);
                }
                Ok(Operation::new(commands))
            },
        }
    }

    /// The operation that unbinds the device, retried elevated if needed.
    /// Fails without running anything when the device has no persisted GUID.
    pub fn unbind(&self) -> (r: Result<Operation, UsbipError>)
        ensures
            match self.persisted_guid {
                None => r == Err::<Operation, UsbipError>(
                    UsbipError::Precondition(Requirement::Binding),
                ),
                Some(g) => r matches Ok(op) && op@.wf() && op@ == OperationView::fresh(
                    seq![unbind_command(g@)],
                ),
            },
    {
        match &self.persisted_guid {
            None => Err(UsbipError::Precondition(Requirement::Binding)),
            Some(g) => {
                let mut commands: Vec<Command> = Vec::new();
                commands.push(make_unbind_command(g.as_str()));
                proof {
                    assert(command_views(commands@) =~= seq![unbind_command(g@)]);
                }
                Ok(Operation::new(commands))
            },
        }
    }

    /// The operation that attaches the device to the guest, binding it first
    /// if it is not bound. `version` is that of the installed `usbipd`, which
    /// decides the form of the command. Fails without running anything when
    /// the device has no bus ID.
    pub fn attach(&self, version: &Version) -> (r: Result<Operation, UsbipError>)
        ensures
            match self.bus_id {
                None => r == Err::<Operation, UsbipError>(UsbipError::Precondition(Requirement::BusId)),
                Some(b) => r matches Ok(op) && op@.wf() && op@ == OperationView::fresh(
                    self.attach_plan(b@, version.legacy_spec()),
                ),
            },
    {
        match &self.bus_id {
            None => Err(UsbipError::Precondition(Requirement::BusId)),
            Some(b) => {
                let legacy = version.is_legacy();
                let mut commands: Vec<Command> = Vec::new();
                if !self.is_bound() {
                    commands.push(make_bind_command(b.as_str(), false));
                }
                commands.push(make_attach_command(b.as_str(), legacy));
                proof {
                    assert(command_views(commands@) =~= self.attach_plan(b@, legacy));
                }
                Ok(Operation::new(commands))
            },
        }
    }

    /// The operation that detaches the device from the guest. `version` is
    /// that of the installed `usbipd`, which decides the form of the command.
    /// Fails without running anything when the device has no bus ID.
    pub fn detach(&self, version: &Version) -> (r: Result<Operation, UsbipError>)
        ensures
            match self.bus_id {
                None => r == Err::<Operation, UsbipError>(UsbipError::Precondition(Requirement::BusId)),
                Some(b) => r matches Ok(op) && op@.wf() && op@ == OperationView::fresh(
                    seq![detach_command(b@, version.legacy_spec())],
                ),
            },
    {
        match &self.bus_id {
            None => Err(UsbipError::Precondition(Requirement::BusId)),
            Some(b) => {
                let mut commands: Vec<Command> = Vec::new();
                commands.push(make_detach_command(b.as_str(), version.is_legacy()));
                proof {
                    assert(command_views(commands@) =~= seq![
                        detach_command(b@, version.legacy_spec()),
                    ]);
                }
                Ok(Operation::new(commands))
            },
        }
    }
}

/// Exactly one state applies to each record: a device that is not connected
/// is persisted; a connected one is attached while a client holds it, shared
/// while bound and not attached, and unshared otherwise. Attached and bound
/// devices are connected.
pub proof fn lemma_state_partition(d: UsbDevice)
    ensures
        d.state_spec() is Persisted <==> !d.connected(),
        d.state_spec() is Attached <==> d.attached(),
        d.state_spec() is Shared <==> d.bound() && !d.attached(),
        d.state_spec() is Unshared <==> d.connected() && !d.bound() && !d.attached(),
        d.state_spec() matches UsbipState::Attached(f) ==> f == d.is_forced,
        d.state_spec() matches UsbipState::Shared(f) ==> f == d.is_forced,
        d.attached() ==> d.connected(),
        d.bound() ==> d.connected(),
{
}

/// On a record whose client address comes only with a persisted GUID, as
/// `usbipd` reports them, an attached device is bound and a bound device is
/// connected.
pub proof fn lemma_attached_bound_connected(d: UsbDevice)
    requires
        d.client_ip_address is Some ==> d.persisted_guid is Some,
    ensures
        d.attached() ==> d.bound(),
        d.bound() ==> d.connected(),
{
}

} // verus!
