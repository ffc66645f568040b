//! The state of the realtime connection: at most one live send half.
//!
//! A send half is whatever the caller's WebSocket client writes frames to;
//! this module never looks inside it. A command checks the half out of the
//! state, the caller writes one frame to it, and the command's end decides
//! whether the half goes back. While a half is checked out the state is
//! empty, so a second writer finds nothing to write to and two commands
//! never share a half. The caller keeps the state behind its own lock.

use vstd::prelude::*;
use crate::error::{failure_at, RelayError, RelayErrorView, Stage};

verus! {

/// A frame to write to the send half.
#[derive(Debug, Clone, PartialEq, Eq)]
pub enum Frame {
    Text(String),
    Close,
}

/// Mathematical value of a [`Frame`].
pub enum FrameView {
    Text(Seq<char>),
    Close,
}

impl View for Frame {
    type V = FrameView;

    open spec fn view(&self) -> FrameView {
        match self {
            Frame::Text(text) => FrameView::Text(text@),
            Frame::Close => FrameView::Close,
        }
    }
}

/// A send half checked out of the state, with the frame to write to it.
#[derive(Debug)]
pub struct Transmission<S> {
    pub half: S,
    pub frame: Frame,
}

/// Mathematical value of the outcome of an outside operation: done, or the
/// text of its failure.
pub open spec fn outcome_view<T>(outcome: Result<T, String>) -> Result<T, Seq<char>> {
    match outcome {
        Ok(done) => Ok(done),
        Err(why) => Err(why@),
    }
}

/// Mathematical value of what a checkout returns.
pub open spec fn checkout_view<S>(r: Result<Transmission<S>, RelayError>) -> Result<
    (S, FrameView),
    RelayErrorView,
> {
    match r {
        Ok(t) => Ok((t.half, t.frame@)),
        Err(e) => Err(e@),
    }
}

/// Mathematical value of what a command reports.
pub open spec fn report_view(r: Result<(), RelayError>) -> Result<(), RelayErrorView> {
    match r {
        Ok(_) => Ok(()),
        Err(e) => Err(e@),
    }
}

/// What a write that ended with `outcome` at `stage` reports.
pub open spec fn write_report(stage: Stage, outcome: Result<(), Seq<char>>) -> Result<
    (),
    RelayErrorView,
> {
    match outcome {
        Ok(_) => Ok(()),
        Err(why) => Err(failure_at(stage, why)),
    }
}

/// The end of an attempt to connect, as state and report: a new half takes
/// the place of whatever was held; a failed attempt changes nothing and is
/// a handshake failure.
pub open spec fn connect_ended<S>(slot: Option<S>, outcome: Result<S, Seq<char>>) -> (
    Option<S>,
    Result<(), RelayErrorView>,
) {
    match outcome {
        Ok(half) => (Some(half), Ok(())),
        Err(why) => (slot, Err(failure_at(Stage::Connect, why))),
    }
}

/// The beginning of a send or a close, as state and checkout: the state is
/// left empty, and the caller gets the half with the frame to write, or
/// `NotConnected` where no half was held.
pub open spec fn begun<S>(slot: Option<S>, frame: FrameView) -> (
    Option<S>,
    Result<(S, FrameView), RelayErrorView>,
) {
    match slot {
        Some(half) => (None, Ok((half, frame))),
        None => (None, Err(RelayErrorView::NotConnected)),
    }
}

/// The end of a send, as state and report: the half is held again, whatever
/// the write gave.
pub open spec fn send_ended<S>(half: S, outcome: Result<(), Seq<char>>) -> (
    Option<S>,
    Result<(), RelayErrorView>,
) {
    (Some(half), write_report(Stage::Send, outcome))
}

/// The end of a close, as state and report: the state stays as it is, and
/// the half is given up.
pub open spec fn close_ended<S>(slot: Option<S>, outcome: Result<(), Seq<char>>) -> (
    Option<S>,
    Result<(), RelayErrorView>,
) {
    (slot, write_report(Stage::Close, outcome))
}

/// The state of the realtime connection: empty, or holding one send half.
#[derive(Debug)]
pub struct ConnectionState<S> {
    sender: Option<S>,
}

impl<S> View for ConnectionState<S> {
    type V = Option<S>;

    closed spec fn view(&self) -> Option<S> {
        self.sender
    }
}

impl<S> ConnectionState<S> {
    /// The empty state.
    pub fn new() -> (state: ConnectionState<S>)
        ensures
            state@ is None,
    {
        ConnectionState { sender: None }
    }

    /// Whether a send half is held.
    pub fn is_connected(&self) -> (held: bool)
        ensures
            held == self@ is Some,
    {
        self.sender.is_some()
    }

    /// Ends an attempt to connect. A new send half replaces whatever was
    /// held; a failed attempt leaves the state as it was and is reported as
    /// a handshake failure.
    pub fn finish_connect(&mut self, outcome: Result<S, String>) -> (r: Result<(), RelayError>)
        ensures
            (final(self)@, report_view(r)) == connect_ended(old(self)@, outcome_view(outcome)),
    {
        match outcome {
            Ok(half) => {
                self.sender = Some(half);
                Ok(())
            },
            Err(why) => Err(RelayError::at(Stage::Connect, why.as_str())),
        }
    }

    /// Begins a send: checks the send half out, to write `message` to it as
    /// one text frame. Fails with `NotConnected` where no half is held.
    /// Either way the state is empty afterwards.
    pub fn begin_send(&mut self, message: String) -> (r: Result<Transmission<S>, RelayError>)
        ensures
            (final(self)@, checkout_view(r)) == begun(old(self)@, FrameView::Text(message@)),
    {
        match self.sender.take() {
            Some(half) => Ok(Transmission { half, frame: Frame::Text(message) }),
            None => Err(RelayError::NotConnected),
        }
    }

    /// Ends a send: puts the send half back whatever the outcome of the
    /// write, and reports a failed write as a transport failure.
    pub fn finish_send(&mut self, half: S, outcome: Result<(), String>) -> (r: Result<
        (),
        RelayError,
    >)
        ensures
            (final(self)@, report_view(r)) == send_ended(half, outcome_view(outcome)),
    {
        self.sender = Some(half);
        match outcome {
            Ok(_) => Ok(()),
            Err(why) => Err(RelayError::at(Stage::Send, why.as_str())),
        }
    }

    /// Begins a close: checks the send half out, to write the close frame
    /// to it. Fails with `NotConnected` where no half is held. Either way
    /// the state is empty afterwards.
    pub fn begin_close(&mut self) -> (r: Result<Transmission<S>, RelayError>)
        ensures
            (final(self)@, checkout_view(r)) == begun(old(self)@, FrameView::Close),
    {
        match self.sender.take() {
            Some(half) => Ok(Transmission { half, frame: Frame::Close }),
            None => Err(RelayError::NotConnected),
        }
    }

    /// Ends a close: gives the send half up whatever the outcome of the
    /// write, leaves the state as it is, and reports a failed write as a
    /// transport failure.
    pub fn finish_close(&mut self, half: S, outcome: Result<(), String>) -> (r: Result<
        (),
        RelayError,
    >)
        ensures
            (final(self)@, report_view(r)) == close_ended(old(self)@, outcome_view(outcome)),
    {
        let _ = half;
        match outcome {
            Ok(_) => Ok(()),
            Err(why) => Err(RelayError::at(Stage::Close, why.as_str())),
        }
    }
}

/// One command on the connection, with the outcome of its outside work.
pub enum Command<S> {
    /// An attempt to connect that ended with a send half or a failure.
    Connect(Result<S, Seq<char>>),
    /// A send of a text, whose write ended as given.
    Send(Seq<char>, Result<(), Seq<char>>),
    /// A close, whose write ended as given.
    Close(Result<(), Seq<char>>),
}

/// What one command leaves behind.
pub struct Effect<S> {
    /// The state after the command.
    pub slot: Option<S>,
    /// What the command reports to its caller.
    pub report: Result<(), RelayErrorView>,
    /// The half written to and the frame written, where the command wrote.
    pub written: Option<(S, FrameView)>,
}

/// Runs one command on `slot` from its beginning to its end, with no other
/// command in between.
pub open spec fn run<S>(slot: Option<S>, command: Command<S>) -> Effect<S> {
    match command {
        Command::Connect(outcome) => {
            let (after, report) = connect_ended(slot, outcome);
            Effect { slot: after, report, written: None }
        },
        Command::Send(text, outcome) => {
            let (emptied, checkout) = begun(slot, FrameView::Text(text));
            match checkout {
                Ok((half, frame)) => {
                    let (after, report) = send_ended(half, outcome);
                    Effect { slot: after, report, written: Some((half, frame)) }
                },
                Err(error) => Effect { slot: emptied, report: Err(error), written: None },
            }
        },
        Command::Close(outcome) => {
            let (emptied, checkout) = begun(slot, FrameView::Close);
            match checkout {
                Ok((half, frame)) => {
                    let (after, report) = close_ended(emptied, outcome);
                    Effect { slot: after, report, written: Some((half, frame)) }
                },
                Err(error) => Effect { slot: emptied, report: Err(error), written: None },
            }
        },
    }
}

/// The state after the commands of `commands` ran one after the other.
pub open spec fn run_all<S>(slot: Option<S>, commands: Seq<Command<S>>) -> Option<S>
    decreases commands.len(),
{
    if commands.len() == 0 {
        slot
    } else {
        run(run_all(slot, commands.drop_last()), commands.last()).slot
    }
}

/// Everything the commands of `commands` wrote when they ran one after the
/// other: each half written to with the frame written, in the order of the
/// writes.
pub open spec fn writes<S>(slot: Option<S>, commands: Seq<Command<S>>) -> Seq<(S, FrameView)>
    decreases commands.len(),
{
    if commands.len() == 0 {
        Seq::empty()
    } else {
        let before = writes(slot, commands.drop_last());
        match run(run_all(slot, commands.drop_last()), commands.last()).written {
            Some(written) => before.push(written),
            None => before,
        }
    }
}

/// Whether no command of `commands` is a connect that succeeded.
pub open spec fn never_connected<S>(commands: Seq<Command<S>>) -> bool {
    forall|i: int|
        0 <= i < commands.len() ==> !(#[trigger] commands[i] matches Command::Connect(Ok(_)))
}

/// One more command runs on the state the earlier ones left, and what it
/// writes comes after what they wrote.
pub proof fn lemma_run_one_more<S>(slot: Option<S>, earlier: Seq<Command<S>>, command: Command<S>)
    ensures
        run_all(slot, earlier.push(command)) == run(run_all(slot, earlier), command).slot,
        writes(slot, earlier.push(command)) == match run(run_all(slot, earlier), command).written {
            Some(written) => writes(slot, earlier).push(written),
            None => writes(slot, earlier),
        },
{
    assert(earlier.push(command).drop_last() =~= earlier);
}

/// As long as no connect has succeeded the state is empty and nothing has
/// been written, whatever commands were tried.
pub proof fn lemma_empty_until_connected<S>(commands: Seq<Command<S>>)
    requires
        never_connected(commands),
    ensures
        run_all(None::<S>, commands) is None,
        writes(None::<S>, commands) == Seq::<(S, FrameView)>::empty(),
    decreases commands.len(),
{
    if commands.len() > 0 {
        let earlier = commands.drop_last();
        assert forall|i: int| 0 <= i < earlier.len() implies !(#[trigger] earlier[i] matches Command::Connect(
            Ok(_),
        )) by {
            assert(earlier[i] == commands[i]);
        }
        lemma_empty_until_connected(earlier);
        assert(!(commands[commands.len() - 1] matches Command::Connect(Ok(_))));
    }
}

/// A send before any successful connect fails with `NotConnected` and
/// writes nothing.
pub proof fn lemma_send_before_connect_fails<S>(
    commands: Seq<Command<S>>,
    text: Seq<char>,
    outcome: Result<(), Seq<char>>,
)
    requires
        never_connected(commands),
    ensures
        run(run_all(None::<S>, commands), Command::Send(text, outcome)).report == Err::<
            (),
            RelayErrorView,
        >(RelayErrorView::NotConnected),
        writes(None::<S>, commands.push(Command::Send(text, outcome))) == Seq::<
            (S, FrameView),
        >::empty(),
{
    lemma_empty_until_connected(commands);
    lemma_run_one_more(None::<S>, commands, Command::Send(text, outcome));
}

/// After a successful connect, two sends one after the other write their
/// texts to the connected half in the order of the calls, whatever came
/// before the connect and whether or not the first write succeeded.
pub proof fn lemma_sends_keep_order<S>(
    slot: Option<S>,
    earlier: Seq<Command<S>>,
    half: S,
    first: Seq<char>,
    first_outcome: Result<(), Seq<char>>,
    second: Seq<char>,
    second_outcome: Result<(), Seq<char>>,
)
    ensures
        ({
            let connected = earlier.push(Command::Connect(Ok(half)));
            let sent = connected.push(Command::Send(first, first_outcome)).push(
                Command::Send(second, second_outcome),
            );
            &&& run(run_all(slot, earlier), Command::Connect(Ok(half))).report is Ok
            &&& writes(slot, sent) == writes(slot, connected).push(
                (half, FrameView::Text(first)),
            ).push((half, FrameView::Text(second)))
            &&& run_all(slot, sent) == Some(half)
        }),
{
    let connect = Command::Connect(Ok(half));
    let send_first = Command::Send(first, first_outcome);
    let send_second = Command::Send(second, second_outcome);
    let connected = earlier.push(connect);
    lemma_run_one_more(slot, earlier, connect);
    lemma_run_one_more(slot, connected, send_first);
    lemma_run_one_more(slot, connected.push(send_first), send_second);
}

/// After a successful connect and a close, the close frame has gone to the
/// connected half, the state is empty, and a send fails with `NotConnected`
/// and writes nothing, whether or not the close frame could be written.
pub proof fn lemma_send_after_close_fails<S>(
    slot: Option<S>,
    earlier: Seq<Command<S>>,
    half: S,
    close_outcome: Result<(), Seq<char>>,
    text: Seq<char>,
    outcome: Result<(), Seq<char>>,
)
    ensures
        ({
            let connected = earlier.push(Command::Connect(Ok(half)));
            let closed = connected.push(Command::Close(close_outcome));
            &&& writes(slot, closed) == writes(slot, connected).push((half, FrameView::Close))
            &&& run_all(slot, closed) is None
            &&& run(run_all(slot, closed), Command::Send(text, outcome)).report == Err::<
                (),
                RelayErrorView,
            >(RelayErrorView::NotConnected)
            &&& writes(slot, closed.push(Command::Send(text, outcome))) == writes(slot, closed)
        }),
{
    let connect = Command::Connect(Ok(half));
    let close = Command::Close(close_outcome);
    let connected = earlier.push(connect);
    lemma_run_one_more(slot, earlier, connect);
    lemma_run_one_more(slot, connected, close);
    lemma_run_one_more(slot, connected.push(close), Command::Send(text, outcome));
}

} // verus!
