use hdd_standby::{
    command_buffer, decode_status, Action, Error, Event, Phase, PowerQuery, PowerState,
    ATA_CHECKPOWERMODE, ATA_CHECKPOWERMODE_RETIRED, IOCTL_DRIVE_CMD, STATUS_OFFSET,
};

/// Drives a query the way a caller does, answering each request from the
/// given reports, and returns the opcodes issued and the result.
fn drive(opened: bool, answers: &[Option<u8>]) -> (Vec<u8>, Result<PowerState, Error>) {
    let mut query = PowerQuery::new();
    let mut issued = Vec::new();
    let mut answers = answers.iter();
    let mut action = query.step(if opened { Event::Opened } else { Event::OpenFailed });
    loop {
        match action {
            Action::Finish(result) => {
                assert!(query.is_finished());
                return (issued, result);
            }
            Action::Issue(opcode) => {
                issued.push(opcode);
                let mut buf = command_buffer(opcode);
                let event = match answers.next().expect("a third command was issued") {
                    Some(status) => {
                        buf[STATUS_OFFSET] = *status;
                        Event::Accepted(buf)
                    }
                    None => Event::Rejected,
                };
                assert!(query.accepts(&event));
                action = query.step(event);
            }
        }
    }
}

#[test]
fn standby_status_bytes() {
    assert_eq!(decode_status(0x00), PowerState::Standby);
    assert_eq!(decode_status(0x01), PowerState::Standby);
}

#[test]
fn idle_status_bytes() {
    for status in 0x80..=0x83u8 {
        assert_eq!(decode_status(status), PowerState::Idle);
    }
}

#[test]
fn active_status_byte() {
    assert_eq!(decode_status(0xFF), PowerState::Active);
}

#[test]
fn unknown_status_bytes() {
    for status in [0x02u8, 0x40, 0x7F, 0x84, 0x90, 0xFE] {
        assert_eq!(decode_status(status), PowerState::Unknown);
    }
}

#[test]
fn every_status_byte_has_one_state() {
    for status in 0..=0xFFu8 {
        let expected = match status {
            0x00 | 0x01 => PowerState::Standby,
            0x80..=0x83 => PowerState::Idle,
            0xFF => PowerState::Active,
            _ => PowerState::Unknown,
        };
        assert_eq!(decode_status(status), expected);
    }
}

#[test]
fn command_buffer_layout() {
    assert_eq!(command_buffer(ATA_CHECKPOWERMODE), [0xE5, 0, 0, 0]);
    assert_eq!(command_buffer(ATA_CHECKPOWERMODE_RETIRED), [0x98, 0, 0, 0]);
    assert_eq!(IOCTL_DRIVE_CMD, 0x031F);
}

#[test]
fn unopened_file_is_no_access() {
    let (issued, result) = drive(false, &[]);
    assert!(issued.is_empty());
    assert_eq!(result, Err(Error::NoAccess));
}

#[test]
fn regular_file_is_invalid_device_file() {
    let (issued, result) = drive(true, &[None, None]);
    assert_eq!(issued, vec![0xE5, 0x98]);
    assert_eq!(result, Err(Error::InvalidDeviceFile));
}

#[test]
fn primary_accepted_active() {
    let (issued, result) = drive(true, &[Some(0xFF)]);
    assert_eq!(issued, vec![0xE5]);
    assert_eq!(result, Ok(PowerState::Active));
}

#[test]
fn fallback_accepted_standby() {
    let (issued, result) = drive(true, &[None, Some(0x00)]);
    assert_eq!(issued, vec![0xE5, 0x98]);
    assert_eq!(result, Ok(PowerState::Standby));
}

#[test]
fn both_rejected_invalid_device_file() {
    let mut query = PowerQuery::new();
    assert_eq!(query.step(Event::Opened), Action::Issue(0xE5));
    assert_eq!(query.step(Event::Rejected), Action::Issue(0x98));
    assert_eq!(query.step(Event::Rejected), Action::Finish(Err(Error::InvalidDeviceFile)));
    assert_eq!(query.phase(), Phase::Finished);
    assert!(!query.accepts(&Event::Rejected));
}

#[test]
fn fallback_issued_once_and_never_a_third() {
    for second in [None, Some(0x00), Some(0x81), Some(0xFF), Some(0x40)] {
        let (issued, _) = drive(true, &[None, second]);
        assert_eq!(issued, vec![ATA_CHECKPOWERMODE, ATA_CHECKPOWERMODE_RETIRED]);
    }
}

#[test]
fn status_read_from_its_offset_only() {
    let mut query = PowerQuery::new();
    query.step(Event::Opened);
    let action = query.step(Event::Accepted([0xFF, 0xFF, 0x82, 0xFF]));
    assert_eq!(action, Action::Finish(Ok(PowerState::Idle)));
}

#[test]
fn repeated_queries_agree() {
    for answers in [vec![Some(0x81)], vec![None, Some(0x01)], vec![None, None]] {
        let first = drive(true, &answers);
        let second = drive(true, &answers);
        assert_eq!(first, second);
    }
}

#[test]
fn events_fit_phases() {
    let mut query = PowerQuery::new();
    assert_eq!(query.phase(), Phase::Opening);
    assert!(query.accepts(&Event::Opened));
    assert!(query.accepts(&Event::OpenFailed));
    assert!(!query.accepts(&Event::Rejected));
    assert!(!query.accepts(&Event::Accepted([0; 4])));
    query.step(Event::Opened);
    assert_eq!(query.phase(), Phase::Primary);
    assert!(!query.accepts(&Event::Opened));
    assert!(query.accepts(&Event::Rejected));
    assert!(query.accepts(&Event::Accepted([0; 4])));
    query.step(Event::Rejected);
    assert_eq!(query.phase(), Phase::Fallback);
    assert!(query.accepts(&Event::Rejected));
    assert!(!query.is_finished());
}
