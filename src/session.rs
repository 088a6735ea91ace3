use vstd::prelude::*;
use vstd::string::*;
use crate::acquisition::{AcquisitionBuffer, drained};
use crate::sample::{Sample, samples_table, table_of};
use crate::time::Timestamp;

verus! {

/// Tracks which session is authoritative: the one holding the latest
/// generation token. Every accepted connection gets a new, larger token.
pub struct SessionRegistry {
    generation: u64,
}

impl SessionRegistry {
    pub closed spec fn spec_generation(&self) -> nat {
        self.generation as nat
    }

    /// A registry at generation 0, before any connection.
    pub fn new() -> (r: SessionRegistry)
        ensures
            r.spec_generation() == 0,
    {
        SessionRegistry { generation: 0 }
    }

    pub fn generation(&self) -> (r: u64)
        ensures
            r == self.spec_generation(),
    {
        self.generation
    }

    /// Registers a new connection: the generation goes up by one and the new
    /// value is its token, which demotes every earlier token.
    pub fn accept(&mut self) -> (token: u64)
        requires
            old(self).spec_generation() < u64::MAX,
        ensures
            final(self).spec_generation() == old(self).spec_generation() + 1,
            token == final(self).spec_generation(),
    {
        self.generation = self.generation + 1;
        self.generation
    }

    /// Whether `token` belongs to the authoritative session.
    pub fn is_current(&self, token: u64) -> (r: bool)
        ensures
            r == (token == self.spec_generation()),
    {
        token == self.generation
    }
}

/// An inbound command. `M` is what an acquisition reply carries back to the
/// controller unchanged (the requested time and the external metadata).
pub enum Command<M> {
    Init,
    AcquirePoint { wait_nanos: u64, echo: M },
    /// Any message that is not one of the commands above.
    Unrecognized,
}

#[derive(Clone, Copy, Debug, PartialEq, Eq)]
pub enum ErrorCode {
    UnknownMessageError,
}

/// An outbound reply.
pub enum Reply<M> {
    InitOk { reseted: bool },
    AcquirePointOk { start_time: Timestamp, end_time: Timestamp, echo: M, table: String },
    Error { code: ErrorCode, description: String },
}

/// An acquisition that has armed the buffer and waits out its window.
pub struct PendingAcquisition<M> {
    pub wait_nanos: u64,
    pub start_time: Timestamp,
    pub echo: M,
}

/// What the handler does after taking a command: send a reply now, or wait
/// and then finish an acquisition.
pub enum Step<M> {
    Send(Reply<M>),
    Wait(PendingAcquisition<M>),
}

/// The description sent with an error for an unrecognized message.
pub open spec fn unknown_message_text() -> Seq<char> {
    "this server handles nothing but commands"@
}

/// Whether `r` and `after` are the step and the buffer state that `cmd`
/// leads to from state `st` at time `now`. `Init` and unrecognized messages
/// are answered and leave the buffer alone; `AcquirePoint` arms it and waits.
pub open spec fn command_outcome<M>(
    cmd: Command<M>,
    st: Option<Seq<Sample>>,
    now: Timestamp,
    r: Step<M>,
    after: Option<Seq<Sample>>,
) -> bool {
    match cmd {
        Command::Init => r == Step::<M>::Send(Reply::InitOk { reseted: false }) && after == st,
        Command::AcquirePoint { wait_nanos, echo } => {
            &&& r == Step::Wait(PendingAcquisition { wait_nanos, start_time: now, echo })
            &&& after == Some(Seq::<Sample>::empty())
        },
        Command::Unrecognized => {
            &&& r matches Step::Send(Reply::Error { code, description })
            &&& code == ErrorCode::UnknownMessageError
            &&& description@ == unknown_message_text()
            &&& after == st
        },
    }
}

/// Takes one command at time `now`: `Init` is answered at once, an
/// acquisition arms the buffer and asks to wait, anything else is answered
/// with an `UnknownMessageError`.
pub fn handle_command<M>(cmd: Command<M>, buffer: &mut AcquisitionBuffer, now: Timestamp) -> (r:
    Step<M>)
    ensures
        command_outcome(cmd, old(buffer)@, now, r, final(buffer)@),
{
    match cmd {
        Command::Init => Step::Send(Reply::InitOk { reseted: false }),
        Command::AcquirePoint { wait_nanos, echo } => {
            buffer.arm();
            Step::Wait(PendingAcquisition { wait_nanos, start_time: now, echo })
        },
        Command::Unrecognized => Step::Send(
            Reply::Error {
                code: ErrorCode::UnknownMessageError,
                description: String::from_str("this server handles nothing but commands"),
            },
        ),
    }
}

/// Ends an acquisition at time `now`: drains the buffer and answers with the
/// window's start and end, the echoed values, and the table of the samples
/// collected meanwhile.
pub fn finish_acquisition<M>(
    pending: PendingAcquisition<M>,
    buffer: &mut AcquisitionBuffer,
    now: Timestamp,
) -> (r: Reply<M>)
    ensures
        final(buffer)@ is None,
        r matches Reply::AcquirePointOk { start_time, end_time, echo, table } && start_time
            == pending.start_time && end_time == now && echo == pending.echo && table@ == table_of(
            drained(old(buffer)@),
        ),
{
    let samples = buffer.drain();
    let table = samples_table(&samples);
    Reply::AcquirePointOk { start_time: pending.start_time, end_time: now, echo: pending.echo, table }
}

/// `cmds` taken one after the other, at times `nows`, lead through buffer
/// states `sts` (before the first command, then after each) with steps `rs`.
pub open spec fn handled_in_turn<M>(
    cmds: Seq<Command<M>>,
    nows: Seq<Timestamp>,
    sts: Seq<Option<Seq<Sample>>>,
    rs: Seq<Step<M>>,
) -> bool {
    &&& nows.len() == cmds.len()
    &&& rs.len() == cmds.len()
    &&& sts.len() == cmds.len() + 1
    &&& forall|i: int|
        #![trigger rs[i]]
        0 <= i < cmds.len() ==> command_outcome(cmds[i], sts[i], nows[i], rs[i], sts[i + 1])
}

/// Any run of `Init` commands and unrecognized messages, however long and
/// from whatever buffer state, leaves the buffer as it was; every `Init` is
/// answered with `InitOk { reseted: false }` and every other message with an
/// `UnknownMessageError`.
pub proof fn lemma_answers_leave_buffer<M>(
    cmds: Seq<Command<M>>,
    nows: Seq<Timestamp>,
    sts: Seq<Option<Seq<Sample>>>,
    rs: Seq<Step<M>>,
)
    requires
        handled_in_turn(cmds, nows, sts, rs),
        forall|i: int| 0 <= i < cmds.len() ==> #[trigger] cmds[i] is Init || cmds[i] is Unrecognized,
    ensures
        forall|i: int| 0 <= i < sts.len() ==> #[trigger] sts[i] == sts[0],
        forall|i: int|
            0 <= i < cmds.len() && #[trigger] cmds[i] is Init ==> rs[i] == Step::<M>::Send(
                Reply::InitOk { reseted: false },
            ),
        forall|i: int|
            0 <= i < cmds.len() && #[trigger] cmds[i] is Unrecognized ==> (rs[i] matches Step::Send(
                Reply::Error { code, .. },
            ) && code == ErrorCode::UnknownMessageError),
{
    assert forall|i: int| 0 <= i < sts.len() implies #[trigger] sts[i] == sts[0] by {
        lemma_state_kept(cmds, nows, sts, rs, i);
    }
    assert forall|i: int| 0 <= i < cmds.len() implies command_outcome(
        cmds[i],
        sts[i],
        nows[i],
        #[trigger] rs[i],
        sts[i + 1],
    ) by {}
}

proof fn lemma_state_kept<M>(
    cmds: Seq<Command<M>>,
    nows: Seq<Timestamp>,
    sts: Seq<Option<Seq<Sample>>>,
    rs: Seq<Step<M>>,
    j: int,
)
    requires
        handled_in_turn(cmds, nows, sts, rs),
        forall|i: int| 0 <= i < cmds.len() ==> #[trigger] cmds[i] is Init || cmds[i] is Unrecognized,
        0 <= j < sts.len(),
    ensures
        sts[j] == sts[0],
    decreases j,
{
    if j > 0 {
        lemma_state_kept(cmds, nows, sts, rs, j - 1);
        assert(cmds[j - 1] is Init || cmds[j - 1] is Unrecognized);
        let r = rs[j - 1];
        assert(command_outcome(cmds[j - 1], sts[j - 1], nows[j - 1], r, sts[j - 1 + 1]));
    }
}

} // verus!
