//! Which device notifications call for a new listing.
use vstd::prelude::*;

verus! {

/// The action code of a device interface arrival in a configuration manager
/// notification.
pub const ACTION_INTERFACE_ARRIVAL: i32 = 0;

/// The action code of a device interface removal in a configuration manager
/// notification.
pub const ACTION_INTERFACE_REMOVAL: i32 = 1;

/// Whether a notification with this action code reports a device arriving or
/// leaving; other actions are ignored.
pub fn is_arrival_or_removal(action: i32) -> (r: bool)
    ensures
        r == (action == ACTION_INTERFACE_ARRIVAL || action == ACTION_INTERFACE_REMOVAL),
{
    action == ACTION_INTERFACE_ARRIVAL || action == ACTION_INTERFACE_REMOVAL
}

} // verus!
