use vstd::prelude::*;
use vstd::utf8::encode_utf8;
use crate::command::{parse_command, command_of, trimmed, Command, CommandView};
use crate::poller::{poll_report, poll_report_of, PollReport, PollReportView, SocketRead};

verus! {

/// What polling the command queue, without blocking, gave.
#[derive(Debug, PartialEq, Eq)]
pub enum QueuePoll {
    /// The next text that the input producer pushed.
    Item(String),
    /// Nothing is pending.
    Empty,
    /// The producer is gone: the queue will never yield again.
    Disconnected,
}

/// What a queue poll is in the model.
pub enum QueuePollView {
    Item(Seq<char>),
    Empty,
    Disconnected,
}

impl View for QueuePoll {
    type V = QueuePollView;

    open spec fn view(&self) -> QueuePollView {
        match self {
            QueuePoll::Item(s) => QueuePollView::Item(s@),
            QueuePoll::Empty => QueuePollView::Empty,
            QueuePoll::Disconnected => QueuePollView::Disconnected,
        }
    }
}

/// The one effect that a dispatcher step asks the caller to carry out.
#[derive(Debug, PartialEq, Eq)]
pub enum Effect {
    /// Leave the main loop and release the connection.
    Stop,
    /// Write these bytes to the socket once.
    Send(Vec<u8>),
    /// Shut the connection down in both directions.
    Shutdown,
    /// Read one line from the console, then hand it to `Client::custom_line`.
    ReadLine,
    /// Report this text as an unrecognized command; touch nothing else.
    Unrecognized(String),
    /// Report that the console line could not be read.
    LineReadFailed,
    /// Do nothing this iteration.
    Idle,
    /// The command queue is disconnected: abort the process.
    Abort,
}

/// What an effect is in the model.
pub enum EffectView {
    Stop,
    Send(Seq<u8>),
    Shutdown,
    ReadLine,
    Unrecognized(Seq<char>),
    LineReadFailed,
    Idle,
    Abort,
}

impl View for Effect {
    type V = EffectView;

    open spec fn view(&self) -> EffectView {
        match self {
            Effect::Stop => EffectView::Stop,
            Effect::Send(b) => EffectView::Send(b@),
            Effect::Shutdown => EffectView::Shutdown,
            Effect::ReadLine => EffectView::ReadLine,
            Effect::Unrecognized(s) => EffectView::Unrecognized(s@),
            Effect::LineReadFailed => EffectView::LineReadFailed,
            Effect::Idle => EffectView::Idle,
            Effect::Abort => EffectView::Abort,
        }
    }
}

/// Where the main loop stands.
#[derive(Debug, Clone, Copy, PartialEq, Eq)]
pub enum Phase {
    /// Each iteration takes one dispatcher step, then one poller step.
    Running,
    /// A send-custom command waits for its console line.
    AwaitingLine,
    /// A quit command was processed: the loop is over.
    Terminated,
    /// The command queue was found disconnected: the process must abort.
    Aborted,
}

/// The greeting that the `H` command writes to the socket.
pub open spec fn greeting() -> Seq<u8> {
    seq![72u8, 101u8, 108u8, 108u8, 111u8, 33u8]
}

/// The effect of a command.
pub open spec fn effect_of_command(c: CommandView) -> EffectView {
    match c {
        CommandView::Quit => EffectView::Stop,
        CommandView::Greet => EffectView::Send(greeting()),
        CommandView::Disconnect => EffectView::Shutdown,
        CommandView::SendCustom => EffectView::ReadLine,
        CommandView::Unrecognized(t) => EffectView::Unrecognized(t),
    }
}

/// The effect of one dispatcher step on what the queue gave.
pub open spec fn effect_of(p: QueuePollView) -> EffectView {
    match p {
        QueuePollView::Item(s) => effect_of_command(command_of(s)),
        QueuePollView::Empty => EffectView::Idle,
        QueuePollView::Disconnected => EffectView::Abort,
    }
}

/// The phase of a running loop after a dispatcher step with effect `e`.
pub open spec fn phase_after(e: EffectView) -> Phase {
    match e {
        EffectView::Stop => Phase::Terminated,
        EffectView::Abort => Phase::Aborted,
        EffectView::ReadLine => Phase::AwaitingLine,
        _ => Phase::Running,
    }
}

/// Whether an effect ends the main loop.
pub open spec fn ends_loop(e: EffectView) -> bool {
    e is Stop || e is Abort
}

/// The effects of the dispatcher steps that a running loop takes on the
/// queue polls `ps`, in order: each poll gives one step, until a step ends
/// the loop.
pub open spec fn dispatch_run(ps: Seq<QueuePollView>) -> Seq<EffectView>
    decreases ps.len(),
{
    if ps.len() == 0 {
        seq![]
    } else if ends_loop(effect_of(ps[0])) {
        seq![effect_of(ps[0])]
    } else {
        seq![effect_of(ps[0])] + dispatch_run(ps.drop_first())
    }
}

/// The main loop's decisions. The caller performs each effect on the
/// connection and the console; the client alone decides.
pub struct Client {
    phase: Phase,
    history: Ghost<Seq<QueuePollView>>,
}

impl Client {
    /// The loop's phase.
    pub closed spec fn phase_spec(&self) -> Phase {
        self.phase
    }

    /// The queue polls that dispatcher steps have applied, in order.
    pub closed spec fn history(&self) -> Seq<QueuePollView> {
        self.history@
    }

    /// The effects of the dispatcher steps taken so far, in order.
    pub open spec fn applied(&self) -> Seq<EffectView> {
        dispatch_run(self.history())
    }

    /// Every poll taken was dispatched, and the phase follows the last one.
    pub open spec fn wf(&self) -> bool {
        let h = self.history();
        &&& self.applied().len() == h.len()
        &&& (self.phase_spec() == Phase::Terminated) == (h.len() > 0 && effect_of(h.last()) is Stop)
        &&& (self.phase_spec() == Phase::Aborted) == (h.len() > 0 && effect_of(h.last()) is Abort)
        &&& self.phase_spec() == Phase::AwaitingLine ==> h.len() > 0 && effect_of(
            h.last(),
        ) is ReadLine
    }

    /// A client whose loop is running and has applied nothing yet.
    pub fn new() -> (c: Client)
        ensures
            c.wf(),
            c.phase_spec() == Phase::Running,
            c.history() == Seq::<QueuePollView>::empty(),
    {
        Client { phase: Phase::Running, history: Ghost(Seq::empty()) }
    }

    /// The loop's phase.
    pub fn phase(&self) -> (p: Phase)
        ensures
            p == self.phase_spec(),
    {
        self.phase
    }

    /// Whether the loop goes on with a dispatcher step.
    pub fn is_running(&self) -> (b: bool)
        ensures
            b == (self.phase_spec() == Phase::Running),
    {
        matches!(self.phase, Phase::Running)
    }

    /// One dispatcher step: applies what the queue gave, if anything.
    pub fn dispatch(&mut self, poll: QueuePoll) -> (e: Effect)
        requires
            old(self).wf(),
            old(self).phase_spec() == Phase::Running,
        ensures
            final(self).wf(),
            e@ == effect_of(poll@),
            final(self).phase_spec() == phase_after(e@),
            final(self).history() == old(self).history().push(poll@),
            final(self).applied() == old(self).applied().push(e@),
    {
        proof {
            lemma_dispatch_run_push(self.history@, poll@);
        }
        self.history = Ghost(self.history@.push(poll@));
        let e = match poll {
            QueuePoll::Empty => Effect::Idle,
            QueuePoll::Disconnected => Effect::Abort,
            QueuePoll::Item(s) => match parse_command(s.as_str()) {
                Command::Quit => Effect::Stop,
                Command::Greet => Effect::Send(greeting_bytes()),
                Command::Disconnect => Effect::Shutdown,
                Command::SendCustom => Effect::ReadLine,
                Command::Unrecognized(t) => Effect::Unrecognized(t),
            },
        };
        self.phase = match e {
            Effect::Stop => Phase::Terminated,
            Effect::Abort => Phase::Aborted,
            Effect::ReadLine => Phase::AwaitingLine,
            _ => Phase::Running,
        };
        e
    }

    /// Finishes a send-custom command with the console line that was read,
    /// or `None` where the read failed: the line's bytes are written once.
    pub fn custom_line(&mut self, line: Option<String>) -> (e: Effect)
        requires
            old(self).wf(),
            old(self).phase_spec() == Phase::AwaitingLine,
        ensures
            final(self).wf(),
            final(self).phase_spec() == Phase::Running,
            final(self).history() == old(self).history(),
            match line {
                Some(l) => e@ == EffectView::Send(encode_utf8(l@)),
                None => e@ == EffectView::LineReadFailed,
            },
    {
        self.phase = Phase::Running;
        match line {
            Some(l) => Effect::Send(l.as_str().as_bytes_vec()),
            None => Effect::LineReadFailed,
        }
    }

    /// One poller step: what to show for a read from the socket. It leaves
    /// the client as it is, whatever the read gave.
    pub fn poll(&self, read: SocketRead, buf: &[u8]) -> (r: PollReport)
        requires
            self.phase_spec() == Phase::Running,
            read matches SocketRead::Bytes(n) ==> n <= buf@.len(),
        ensures
            r@ == poll_report_of(read, buf@),
    {
        poll_report(read, buf)
    }
}

/// Extending a run that has not ended by one poll adds that poll's effect.
proof fn lemma_dispatch_run_push(ps: Seq<QueuePollView>, p: QueuePollView)
    requires
        dispatch_run(ps).len() == ps.len(),
        ps.len() > 0 ==> !ends_loop(effect_of(ps.last())),
    ensures
        dispatch_run(ps.push(p)) == dispatch_run(ps).push(effect_of(p)),
    decreases ps.len(),
{
    if ps.len() == 0 {
        assert(ps.push(p).drop_first() =~= Seq::<QueuePollView>::empty());
        assert(dispatch_run(ps.push(p).drop_first()) == Seq::<EffectView>::empty());
        assert(dispatch_run(ps.push(p)) =~= seq![effect_of(p)]);
    } else {
        let rest = ps.drop_first();
        assert(ps.push(p).drop_first() =~= rest.push(p));
        if ends_loop(effect_of(ps[0])) {
            assert(dispatch_run(ps).len() == 1);
            assert(ps.len() == 1);
            assert(ps.last() == ps[0]);
        } else {
            assert(dispatch_run(ps) == seq![effect_of(ps[0])] + dispatch_run(rest));
            assert(dispatch_run(rest).len() == rest.len());
            if rest.len() > 0 {
                assert(rest.last() == ps.last());
            }
            lemma_dispatch_run_push(rest, p);
            assert(dispatch_run(ps.push(p)) =~= dispatch_run(ps).push(effect_of(p)));
        }
    }
}

/// Commands are applied in the order the queue gave them: the i-th dispatcher
/// step applies the i-th poll, none is skipped, repeated or reordered, and
/// the steps stop early only at a step that ends the loop.
pub proof fn dispatch_run_in_order(ps: Seq<QueuePollView>)
    ensures
        dispatch_run(ps).len() <= ps.len(),
        forall|i: int| 0 <= i < dispatch_run(ps).len() ==> #[trigger] dispatch_run(ps)[i] == effect_of(ps[i]),
        dispatch_run(ps).len() < ps.len() ==> dispatch_run(ps).len() > 0 && ends_loop(
            dispatch_run(ps).last(),
        ),
    decreases ps.len(),
{
    if ps.len() > 0 && !ends_loop(effect_of(ps[0])) {
        let rest = ps.drop_first();
        dispatch_run_in_order(rest);
        let r = dispatch_run(ps);
        assert(r == seq![effect_of(ps[0])] + dispatch_run(rest));
        assert forall|i: int| 0 <= i < r.len() implies #[trigger] r[i] == effect_of(ps[i]) by {
            if i > 0 {
                assert(r[i] == dispatch_run(rest)[i - 1]);
                assert(rest[i - 1] == ps[i]);
            }
        }
        if dispatch_run(rest).len() > 0 {
            assert(r.last() == dispatch_run(rest).last());
        }
    }
}

/// The loop ends at most once: a step that ends it (quit, or a disconnected
/// queue) is the last step of the run, and no step follows it.
pub proof fn loop_ends_once(ps: Seq<QueuePollView>)
    ensures
        forall|i: int|
            0 <= i < dispatch_run(ps).len() && ends_loop(#[trigger] dispatch_run(ps)[i]) ==> i
                == dispatch_run(ps).len() - 1,
    decreases ps.len(),
{
    if ps.len() > 0 && !ends_loop(effect_of(ps[0])) {
        let rest = ps.drop_first();
        loop_ends_once(rest);
        let r = dispatch_run(ps);
        assert(r == seq![effect_of(ps[0])] + dispatch_run(rest));
        assert forall|i: int| 0 <= i < r.len() && ends_loop(#[trigger] r[i]) implies i == r.len()
            - 1 by {
            if i > 0 {
                assert(r[i] == dispatch_run(rest)[i - 1]);
            }
        }
    }
}

/// Once a client has processed a quit command, that was its last dispatcher
/// step and the only one that ended the loop; `dispatch` and `poll` demand a
/// running loop, so no step of either follows.
pub proof fn quit_terminates_once(c: &Client)
    requires
        c.wf(),
        c.phase_spec() == Phase::Terminated,
    ensures
        c.applied().len() > 0,
        c.applied().last() is Stop,
        forall|i: int| 0 <= i < c.applied().len() - 1 ==> !ends_loop(#[trigger] c.applied()[i]),
{
    dispatch_run_in_order(c.history());
    loop_ends_once(c.history());
}

/// Input that names no command changes nothing: the loop keeps running, and
/// the step's one effect is to report the trimmed text.
pub proof fn unrecognized_is_inert(s: Seq<char>)
    requires
        command_of(s) is Unrecognized,
    ensures
        effect_of(QueuePollView::Item(s)) == EffectView::Unrecognized(trimmed(s)),
        phase_after(effect_of(QueuePollView::Item(s))) == Phase::Running,
{
}

/// The greeting's bytes.
pub fn greeting_bytes() -> (b: Vec<u8>)
    ensures
        b@ == greeting(),
{
    let b: Vec<u8> = vec![72u8, 101u8, 108u8, 108u8, 111u8, 33u8];
    assert(b@ =~= greeting());
    b
}

} // verus!
