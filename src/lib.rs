//! Querying the power state of an ATA drive without waking it up.
//!
//! The library holds the query protocol: the command buffer handed to the
//! drive, the single fallback to the retired opcode, and the decoding of the
//! status byte that the drive answers with. The operating-system calls
//! (opening the device node, issuing the control command, closing it) are made
//! by the caller, which reports each outcome to a [`PowerQuery`] and carries out
//! the [`Action`] it answers with.

pub mod power;
pub mod query;

pub use power::{decode_status, state_of_status, Error, PowerState};
pub use query::{
    command_buffer, command_bytes, fits, next, run, Action, Event, Phase, PowerQuery, STATUS_OFFSET, ATA_CHECKPOWERMODE, ATA_CHECKPOWERMODE_RETIRED,
    IOCTL_DRIVE_CMD,
};
