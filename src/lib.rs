//! Device bookkeeping for sharing USB devices with a guest through `usbipd`:
//! the device records the tool reports and the state derived from them, the
//! commands that change that state, the polling that confirms a change, and the
//! supervisor of auto-attach processes.

mod args;
mod commands;
mod device;
mod ellipsis;
mod error;
mod notify;
mod operation;
mod supervisor;
mod text;
mod version;
mod wait;

pub use args::{Args, CliExit};
pub use device::{
    lemma_attached_bound_connected, lemma_state_partition, UsbDevice, UsbipState,
};
pub use ellipsis::{can_ellipsize, ellipsize_middle};
pub use error::{Requirement, UsbipError};
pub use notify::{is_arrival_or_removal, ACTION_INTERFACE_ARRIVAL, ACTION_INTERFACE_REMOVAL};
pub use operation::{Command, Invocation, Operation, Outcome};
pub use supervisor::{
    lemma_add_twice, lemma_remove_untracked, AutoAttachProfile, AutoAttacher, PendingAdd,
};
pub use text::{contains_char, contains_text, join, replace, split};
pub use version::{parse_u32, parse_version, Version, CURRENT_COMMANDS_MAJOR};
pub use wait::{WaitStep, Waiter, POLL_INTERVAL_MS, WAIT_TIMEOUT_MS};
