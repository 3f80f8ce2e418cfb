use vstd::prelude::*;

verus! {

/// The power state of an ATA device.
#[derive(Debug, Clone, Copy, PartialEq, Eq, Structural)]
pub enum PowerState {
    /// The drive is in the standby state (PM2, usually spun down).
    Standby,
    /// The drive is in the idle state (PM1).
    Idle,
    /// The drive is in the active or idle state (PM0 or PM1).
    Active,
    /// The drive answered with a status byte that names no known state.
    Unknown,
}

/// Why a query produced no power state.
#[derive(Debug, Clone, Copy, PartialEq, Eq, Structural)]
pub enum Error {
    /// The device file could not be opened (nonexistent or insufficient rights).
    NoAccess,
    /// The file opened, but accepted neither power-mode command.
    InvalidDeviceFile,
}

/// The power state that a CHECK POWER MODE status byte stands for.
pub open spec fn state_of_status(status: u8) -> PowerState {
    if status <= 0x01 {
        PowerState::Standby
    } else if 0x80 <= status <= 0x83 {
        PowerState::Idle
    } else if status == 0xFF {
        PowerState::Active
    } else {
        PowerState::Unknown
    }
}

/// Classifies the status byte of a CHECK POWER MODE answer.
pub fn decode_status(status: u8) -> (r: PowerState)
    ensures
        r == state_of_status(status),
        status <= 0x01 ==> r == PowerState::Standby,
        0x80 <= status <= 0x83 ==> r == PowerState::Idle,
        status == 0xFF ==> r == PowerState::Active,
        !(status <= 0x01 || (0x80 <= status <= 0x83) || status == 0xFF) ==> r
            == PowerState::Unknown,
{
    match status {
        0x00..=0x01 => PowerState::Standby,
        0x80..=0x83 => PowerState::Idle,
        0xFF => PowerState::Active,
        _ => PowerState::Unknown,
    }
}

} // verus!
