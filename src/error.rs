use vstd::prelude::*;

verus! {

/// The identifying field a command needs from a device record.
#[derive(Debug, Clone, Copy, PartialEq, Eq, Structural)]
pub enum Requirement {
    /// The bus ID, present while the device is connected.
    BusId,
    /// The persisted GUID, present once the device is bound, that an
    /// auto-attach profile is keyed by.
    PersistedGuid,
    /// A binding to undo: unbinding names the device by its persisted GUID.
    Binding,
}

/// Why an operation on a device failed.
#[derive(Debug, PartialEq, Eq)]
pub enum UsbipError {
    /// The device lacks the field the command needs; nothing was run.
    Precondition(Requirement),
    /// `usbipd` ran and failed; holds what it wrote to standard error.
    Tool(String),
    /// A process could not be started or elevated; holds the system's message.
    Launch(String),
    /// The expected state was not observed in time. The device may be lost or
    /// still remounting.
    Timeout,
    /// The profile is already tracked.
    Duplicate,
}

impl UsbipError {
    /// A sentence describing the error, for display.
    pub fn message(&self) -> (r: String)
        ensures
            r@ == match self {
                UsbipError::Precondition(Requirement::BusId) => "The device does not have a bus ID."@,
                UsbipError::Precondition(Requirement::PersistedGuid) =>
                    "The device does not have a persisted GUID, are you sure it's bound?"@,
                UsbipError::Precondition(Requirement::Binding) => "The device is already unbound."@,
                UsbipError::Tool(t) => t@,
                UsbipError::Launch(t) => t@,
                UsbipError::Timeout =>
                    "The device was lost while waiting for the operation to complete."@,
                UsbipError::Duplicate => "The device is already in the auto attach list."@,
            },
    {
        match self {
            UsbipError::Precondition(Requirement::BusId) => String::from_str(
                "The device does not have a bus ID.",
            ),
            UsbipError::Precondition(Requirement::PersistedGuid) => String::from_str(
                "The device does not have a persisted GUID, are you sure it's bound?",
            ),
            UsbipError::Precondition(Requirement::Binding) => String::from_str(
                "The device is already unbound.",
            ),
            UsbipError::Tool(t) => t.clone(),
            UsbipError::Launch(t) => t.clone(),
            UsbipError::Timeout => String::from_str(
                "The device was lost while waiting for the operation to complete.",
            ),
            UsbipError::Duplicate => String::from_str(
                "The device is already in the auto attach list.",
            ),
        }
    }
}

} // verus!
