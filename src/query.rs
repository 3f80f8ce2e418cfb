use crate::power::{decode_status, state_of_status, Error, PowerState};
use vstd::prelude::*;

verus! {

/// Control request that hands an ATA command buffer to the drive.
pub const IOCTL_DRIVE_CMD: u64 = 0x031F;

/// CHECK POWER MODE, as the current ATA command set defines it.
pub const ATA_CHECKPOWERMODE: u8 = 0xE5;

/// The retired CHECK POWER MODE opcode that older drives understand.
pub const ATA_CHECKPOWERMODE_RETIRED: u8 = 0x98;

/// Where the drive's answer puts the status byte in the command buffer.
pub const STATUS_OFFSET: usize = 2;

/// The command buffer for `opcode`: the opcode first, three zero bytes after.
pub open spec fn command_bytes(opcode: u8) -> Seq<u8> {
    seq![opcode, 0u8, 0u8, 0u8]
}

/// Builds the buffer that the control request carries for `opcode`.
pub fn command_buffer(opcode: u8) -> (r: [u8; 4])
    ensures
        r@ == command_bytes(opcode),
{
    let r: [u8; 4] = [opcode, 0, 0, 0];
    assert(r@ =~= command_bytes(opcode));
    r
}

/// How far a query has come.
#[derive(Debug, Clone, Copy, PartialEq, Eq, Structural)]
pub enum Phase {
    /// Waiting to hear whether the device file opened.
    Opening,
    /// The current CHECK POWER MODE command was issued.
    Primary,
    /// The current command was rejected and the retired one was issued.
    Fallback,
    /// The query has its result; the device file is to be released.
    Finished,
}

/// What the caller reports after carrying out the last request.
#[derive(Debug, Clone, Copy, PartialEq, Eq)]
pub enum Event {
    /// The device file could not be opened.
    OpenFailed,
    /// The device file opened, read-only and non-blocking.
    Opened,
    /// The control request failed.
    Rejected,
    /// The control request succeeded; the buffer as the drive left it.
    Accepted([u8; 4]),
}

/// What the query asks the caller to do next.
#[derive(Debug, Clone, Copy, PartialEq, Eq)]
pub enum Action {
    /// Issue the control request with `command_buffer` of this opcode.
    Issue(u8),
    /// Release the device file, if it was opened, and hand back this result.
    Finish(Result<PowerState, Error>),
}

/// Whether `event` is something the caller can report in `phase`.
pub open spec fn fits(phase: Phase, event: Event) -> bool {
    match phase {
        Phase::Opening => event is OpenFailed || event is Opened,
        Phase::Primary | Phase::Fallback => event is Rejected || event is Accepted,
        Phase::Finished => false,
    }
}

/// The phase a query moves to and the action it answers with, given an event
/// that fits its phase.
pub open spec fn next(phase: Phase, event: Event) -> (Phase, Action) {
    match event {
        Event::OpenFailed => (Phase::Finished, Action::Finish(Err(Error::NoAccess))),
        Event::Opened => (Phase::Primary, Action::Issue(ATA_CHECKPOWERMODE)),
        Event::Rejected => if phase is Primary {
            (Phase::Fallback, Action::Issue(ATA_CHECKPOWERMODE_RETIRED))
        } else {
            (Phase::Finished, Action::Finish(Err(Error::InvalidDeviceFile)))
        },
        Event::Accepted(buf) => (
            Phase::Finished,
            Action::Finish(Ok(state_of_status(buf@[STATUS_OFFSET as int]))),
        ),
    }
}

/// The actions a query in `phase` answers with when the caller reports
/// `events` in turn; it stops at the first event that does not fit.
pub open spec fn run(phase: Phase, events: Seq<Event>) -> Seq<Action>
    decreases events.len(),
{
    if events.len() == 0 || !fits(phase, events[0]) {
        seq![]
    } else {
        seq![next(phase, events[0]).1] + run(next(phase, events[0]).0, events.drop_first())
    }
}

/// One power-mode query of one device file.
///
/// The caller opens the device file, reports the outcome with `step`, and
/// keeps carrying out the returned actions and reporting their outcomes until
/// the query answers with `Action::Finish`.
pub struct PowerQuery {
    phase: Phase,
}

impl View for PowerQuery {
    type V = Phase;

    closed spec fn view(&self) -> Phase {
        self.phase
    }
}

impl PowerQuery {
    /// A query that waits to hear whether the device file opened.
    pub fn new() -> (r: PowerQuery)
        ensures
            r@ == Phase::Opening,
    {
        PowerQuery { phase: Phase::Opening }
    }

    /// How far the query has come.
    pub fn phase(&self) -> (r: Phase)
        ensures
            r == self@,
    {
        self.phase
    }

    /// Whether the query has its result.
    pub fn is_finished(&self) -> (r: bool)
        ensures
            r == (self@ == Phase::Finished),
    {
        self.phase == Phase::Finished
    }

    /// Whether the caller can report `event` now.
    pub fn accepts(&self, event: &Event) -> (r: bool)
        ensures
            r == fits(self@, *event),
    {
        match self.phase {
            Phase::Opening => matches!(event, Event::OpenFailed | Event::Opened),
            Phase::Primary | Phase::Fallback => matches!(event, Event::Rejected | Event::Accepted(_)),
            Phase::Finished => false,
        }
    }

    /// Takes the outcome of the last request and answers with the next one.
    pub fn step(&mut self, event: Event) -> (a: Action)
        requires
            fits(old(self)@, event),
        ensures
            (final(self)@, a) == next(old(self)@, event),
    {
        match event {
            Event::OpenFailed => {
                self.phase = Phase::Finished;
                Action::Finish(Err(Error::NoAccess))
            },
            Event::Opened => {
                self.phase = Phase::Primary;
                Action::Issue(ATA_CHECKPOWERMODE)
            },
            Event::Rejected => {
                if self.phase == Phase::Primary {
                    self.phase = Phase::Fallback;
                    Action::Issue(ATA_CHECKPOWERMODE_RETIRED)
                } else {
                    self.phase = Phase::Finished;
                    Action::Finish(Err(Error::InvalidDeviceFile))
                }
            },
            Event::Accepted(buf) => {
                self.phase = Phase::Finished;
                Action::Finish(Ok(decode_status(buf[STATUS_OFFSET])))
            },
        }
    }
}

/// Whether two reports tell the same thing of the drive: the same outcome,
/// and for an answer the same status byte.
pub open spec fn same_report(x: Event, y: Event) -> bool {
    match (x, y) {
        (Event::Accepted(p), Event::Accepted(q)) => p@[STATUS_OFFSET as int]
            == q@[STATUS_OFFSET as int],
        _ => x == y,
    }
}

/// A device file that cannot be opened gives `NoAccess` and nothing else,
/// whatever is reported after.
pub proof fn lemma_unopened_is_no_access(rest: Seq<Event>)
    ensures
        run(Phase::Opening, seq![Event::OpenFailed] + rest) == seq![
            Action::Finish(Err(Error::NoAccess)),
        ],
{
    let events = seq![Event::OpenFailed] + rest;
    assert(events[0] == Event::OpenFailed);
    assert(run(Phase::Finished, events.drop_first()) =~= seq![]);
    assert(run(Phase::Opening, events) =~= seq![Action::Finish(Err(Error::NoAccess))]);
}

/// A file that opens but rejects both commands gives `InvalidDeviceFile`,
/// after the current and then the retired command.
pub proof fn lemma_rejected_twice_is_invalid(rest: Seq<Event>)
    ensures
        run(Phase::Opening, seq![Event::Opened, Event::Rejected, Event::Rejected] + rest)
            == seq![
            Action::Issue(ATA_CHECKPOWERMODE),
            Action::Issue(ATA_CHECKPOWERMODE_RETIRED),
            Action::Finish(Err(Error::InvalidDeviceFile)),
        ],
{
    let e0 = seq![Event::Opened, Event::Rejected, Event::Rejected] + rest;
    let e1 = e0.drop_first();
    let e2 = e1.drop_first();
    let e3 = e2.drop_first();
    assert(e0[0] == Event::Opened);
    assert(e1[0] == Event::Rejected);
    assert(e2[0] == Event::Rejected);
    assert(run(Phase::Finished, e3) =~= seq![]);
    assert(run(Phase::Fallback, e2) =~= seq![Action::Finish(Err(Error::InvalidDeviceFile))]);
    assert(run(Phase::Primary, e1) =~= seq![
        Action::Issue(ATA_CHECKPOWERMODE_RETIRED),
        Action::Finish(Err(Error::InvalidDeviceFile)),
    ]);
    assert(run(Phase::Opening, e0) =~= seq![
        Action::Issue(ATA_CHECKPOWERMODE),
        Action::Issue(ATA_CHECKPOWERMODE_RETIRED),
        Action::Finish(Err(Error::InvalidDeviceFile)),
    ]);
}

/// A query issues at most two commands: the current one first, and the
/// retired one second and only after the current one was rejected. Once the
/// current one is rejected the retired one is issued. `Finish` comes last and
/// only once.
pub proof fn lemma_at_most_two_commands(events: Seq<Event>)
    ensures
        run(Phase::Opening, events).len() <= 3,
        forall|i: int|
            0 <= i < run(Phase::Opening, events).len() && run(Phase::Opening, events)[i] is Issue
                ==> (i == 0 && run(Phase::Opening, events)[i] == Action::Issue(ATA_CHECKPOWERMODE))
                || (i == 1 && run(Phase::Opening, events)[i] == Action::Issue(
                ATA_CHECKPOWERMODE_RETIRED,
            ) && events[1] is Rejected),
        forall|i: int|
            0 <= i < run(Phase::Opening, events).len() && run(Phase::Opening, events)[i] is Finish
                ==> i == run(Phase::Opening, events).len() - 1,
        events.len() >= 2 && events[0] is Opened && events[1] is Rejected ==> run(
            Phase::Opening,
            events,
        ).len() >= 2 && run(Phase::Opening, events)[1] == Action::Issue(
            ATA_CHECKPOWERMODE_RETIRED,
        ),
{
    reveal_with_fuel(run, 5);
    let e1 = events.drop_first();
    let e2 = e1.drop_first();
    let e3 = e2.drop_first();
    assert(run(Phase::Finished, events) =~= seq![]);
    assert(run(Phase::Finished, e1) =~= seq![]);
    assert(run(Phase::Finished, e2) =~= seq![]);
    assert(run(Phase::Finished, e3) =~= seq![]);
}

proof fn lemma_run_same_reports(phase: Phase, a: Seq<Event>, b: Seq<Event>)
    requires
        a.len() == b.len(),
        forall|i: int| 0 <= i < a.len() ==> same_report(a[i], b[i]),
    ensures
        run(phase, a) == run(phase, b),
    decreases a.len(),
{
    if a.len() > 0 {
        assert(fits(phase, a[0]) == fits(phase, b[0]));
        if fits(phase, a[0]) {
            assert(next(phase, a[0]) == next(phase, b[0]));
            let (p, _) = next(phase, a[0]);
            assert forall|i: int| 0 <= i < a.drop_first().len() implies same_report(
                a.drop_first()[i],
                b.drop_first()[i],
            ) by {
                assert(same_report(a[i + 1], b[i + 1]));
            }
            lemma_run_same_reports(p, a.drop_first(), b.drop_first());
        }
    }
}

/// Asking again while the drive reports the same thing gives the same
/// actions and the same result.
pub proof fn lemma_same_reports_same_result(a: Seq<Event>, b: Seq<Event>)
    requires
        a.len() == b.len(),
        forall|i: int| 0 <= i < a.len() ==> same_report(a[i], b[i]),
    ensures
        run(Phase::Opening, a) == run(Phase::Opening, b),
{
    lemma_run_same_reports(Phase::Opening, a, b);
}

} // verus!
