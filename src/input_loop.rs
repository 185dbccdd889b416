use vstd::prelude::*;

use crate::event::{CliEvent, CliEventView};
use crate::tokenize::{
    input_error_spec, input_error_text, is_exit_keyword, outcome_of_line, shell_split_of, parse_line, LineOutcome, LineOutcomeView,
};

verus! {

/// Where the input loop stands.
#[derive(PartialEq, Eq, Structural, Clone, Copy, Debug)]
pub enum LoopState {
    /// Waiting for a line or for cancellation.
    Running,
    /// Winding down: the input source is flushed and `Exit` is sent.
    Draining,
    /// Done; the loop's task completes.
    Stopped,
}

/// What happened since the loop last decided: something from the line
/// source, the cancellation signal, or the outcome of the last action.
#[derive(Debug, PartialEq, Eq)]
pub enum LoopEvent {
    /// The user entered a line of text.
    Line(String),
    /// The source reported end of input.
    EndOfInput,
    /// The source reported an interrupt.
    Interrupted,
    /// The source failed to read; the text says why.
    ReadError(String),
    /// The cancellation signal fired.
    Cancelled,
    /// The last event sent was taken by the channel.
    Delivered,
    /// The last send failed: the receiver is gone.
    ReceiverGone,
    /// Draining is done: the source was flushed and `Exit` was sent.
    Drained,
}

/// What the loop asks its driver to do next.
#[derive(Debug, PartialEq, Eq)]
pub enum LoopAction {
    /// Wait for the next line or for cancellation, whichever comes first.
    Await,
    /// Write the text on the output sink's error channel, then wait again.
    Report(String),
    /// Send the event on the command channel, racing cancellation.
    Send(CliEvent),
    /// Flush the input source and send `Exit` on the command channel,
    /// ignoring a failure to send.
    Drain,
    /// Stop: the loop is over.
    Finish,
}

/// The mathematical value of a [`LoopEvent`].
pub enum LoopEventView {
    Line(Seq<char>),
    EndOfInput,
    Interrupted,
    ReadError(Seq<char>),
    Cancelled,
    Delivered,
    ReceiverGone,
    Drained,
}

/// The mathematical value of a [`LoopAction`].
pub enum LoopActionView {
    Await,
    Report(Seq<char>),
    Send(CliEventView),
    Drain,
    Finish,
}

impl View for LoopEvent {
    type V = LoopEventView;

    open spec fn view(&self) -> LoopEventView {
        match self {
            LoopEvent::Line(l) => LoopEventView::Line(l@),
            LoopEvent::EndOfInput => LoopEventView::EndOfInput,
            LoopEvent::Interrupted => LoopEventView::Interrupted,
            LoopEvent::ReadError(m) => LoopEventView::ReadError(m@),
            LoopEvent::Cancelled => LoopEventView::Cancelled,
            LoopEvent::Delivered => LoopEventView::Delivered,
            LoopEvent::ReceiverGone => LoopEventView::ReceiverGone,
            LoopEvent::Drained => LoopEventView::Drained,
        }
    }
}

impl View for LoopAction {
    type V = LoopActionView;

    open spec fn view(&self) -> LoopActionView {
        match self {
            LoopAction::Await => LoopActionView::Await,
            LoopAction::Report(m) => LoopActionView::Report(m@),
            LoopAction::Send(e) => LoopActionView::Send(e@),
            LoopAction::Drain => LoopActionView::Drain,
            LoopAction::Finish => LoopActionView::Finish,
        }
    }
}

/// One transition of the input loop: the next state and the action to take.
pub open spec fn next(s: LoopState, e: LoopEventView) -> (LoopState, LoopActionView) {
    match s {
        LoopState::Running => match e {
            LoopEventView::Line(l) => match outcome_of_line(l) {
                LineOutcomeView::Blank => (LoopState::Running, LoopActionView::Await),
                LineOutcomeView::Exit => (LoopState::Draining, LoopActionView::Drain),
                LineOutcomeView::Command(cmd, args) => (
                    LoopState::Running,
                    LoopActionView::Send(CliEventView::Input(cmd, args)),
                ),
                LineOutcomeView::Malformed(m) => (LoopState::Running, LoopActionView::Report(m)),
            },
            LoopEventView::ReadError(m) => (
                LoopState::Running,
                LoopActionView::Report(input_error_spec(m)),
            ),
            LoopEventView::EndOfInput
            | LoopEventView::Interrupted
            | LoopEventView::Cancelled
            | LoopEventView::ReceiverGone => (LoopState::Draining, LoopActionView::Drain),
            LoopEventView::Delivered | LoopEventView::Drained => (
                LoopState::Running,
                LoopActionView::Await,
            ),
        },
        LoopState::Draining => match e {
            LoopEventView::Drained => (LoopState::Stopped, LoopActionView::Finish),
            _ => (LoopState::Draining, LoopActionView::Await),
        },
        LoopState::Stopped => (LoopState::Stopped, LoopActionView::Finish),
    }
}

/// The state reached from `s` after the events `evs`, in order.
pub open spec fn run_state(s: LoopState, evs: Seq<LoopEventView>) -> LoopState
    decreases evs.len(),
{
    if evs.len() == 0 {
        s
    } else {
        run_state(next(s, evs[0]).0, evs.drop_first())
    }
}

/// The actions taken from `s` on the events `evs`, in order.
pub open spec fn run_actions(s: LoopState, evs: Seq<LoopEventView>) -> Seq<LoopActionView>
    decreases evs.len(),
{
    if evs.len() == 0 {
        seq![]
    } else {
        seq![next(s, evs[0]).1] + run_actions(next(s, evs[0]).0, evs.drop_first())
    }
}

/// The events that an action puts on the command channel.
pub open spec fn sent_by(a: LoopActionView) -> Seq<CliEventView> {
    match a {
        LoopActionView::Send(e) => seq![e],
        LoopActionView::Drain => seq![CliEventView::Exit],
        _ => seq![],
    }
}

/// The events that the actions `acts` put on the command channel, in order.
pub open spec fn channel_events(acts: Seq<LoopActionView>) -> Seq<CliEventView>
    decreases acts.len(),
{
    if acts.len() == 0 {
        seq![]
    } else {
        sent_by(acts[0]) + channel_events(acts.drop_first())
    }
}

/// The input loop's decision state.
pub struct InputLoop {
    state: LoopState,
}

impl InputLoop {
    /// The state the loop is in.
    pub closed spec fn spec_state(&self) -> LoopState {
        self.state
    }

    /// A loop that is `Running`.
    pub fn new() -> (r: InputLoop)
        ensures
            r.spec_state() == LoopState::Running,
    {
        InputLoop { state: LoopState::Running }
    }

    /// Where the loop stands.
    pub fn state(&self) -> (r: LoopState)
        ensures
            r == self.spec_state(),
    {
        self.state
    }

    /// Takes one event and says what to do about it.
    pub fn step(&mut self, e: LoopEvent) -> (r: LoopAction)
        ensures
            (final(self).spec_state(), r@) == next(old(self).spec_state(), e@),
    {
        match self.state {
            LoopState::Running => match e {
                LoopEvent::Line(l) => match parse_line(l.as_str()) {
                    LineOutcome::Blank => LoopAction::Await,
                    LineOutcome::Exit => {
                        self.state = LoopState::Draining;
                        LoopAction::Drain
                    },
                    LineOutcome::Command(cmd, args) => LoopAction::Send(CliEvent::Input(cmd, args)),
                    LineOutcome::Malformed(m) => LoopAction::Report(m),
                },
                LoopEvent::ReadError(m) => LoopAction::Report(input_error_text(m.as_str())),
                LoopEvent::EndOfInput
                | LoopEvent::Interrupted
                | LoopEvent::Cancelled
                | LoopEvent::ReceiverGone => {
                    self.state = LoopState::Draining;
                    LoopAction::Drain
                },
                LoopEvent::Delivered | LoopEvent::Drained => LoopAction::Await,
            },
            LoopState::Draining => match e {
                LoopEvent::Drained => {
                    self.state = LoopState::Stopped;
                    LoopAction::Finish
                },
                _ => LoopAction::Await,
            },
            LoopState::Stopped => LoopAction::Finish,
        }
    }
}

proof fn lemma_channel_events_cons(a: LoopActionView, rest: Seq<LoopActionView>)
    ensures
        channel_events(seq![a] + rest) == sent_by(a) + channel_events(rest),
{
    let acts = seq![a] + rest;
    assert(acts[0] == a);
    assert(acts.drop_first() =~= rest);
}

proof fn lemma_run_cons(s: LoopState, e: LoopEventView, rest: Seq<LoopEventView>)
    ensures
        run_state(s, seq![e] + rest) == run_state(next(s, e).0, rest),
        run_actions(s, seq![e] + rest) == seq![next(s, e).1] + run_actions(next(s, e).0, rest),
{
    let evs = seq![e] + rest;
    assert(evs[0] == e);
    assert(evs.drop_first() =~= rest);
}

proof fn lemma_run_state_append(s: LoopState, a: Seq<LoopEventView>, b: Seq<LoopEventView>)
    ensures
        run_state(s, a + b) == run_state(run_state(s, a), b),
    decreases a.len(),
{
    if a.len() == 0 {
        assert(a + b =~= b);
    } else {
        assert((a + b)[0] == a[0]);
        assert((a + b).drop_first() =~= a.drop_first() + b);
        lemma_run_state_append(next(s, a[0]).0, a.drop_first(), b);
    }
}

/// Once the loop has left `Running` it puts nothing more on the command
/// channel, whatever happens.
pub proof fn lemma_quiet_after_running(s: LoopState, evs: Seq<LoopEventView>)
    requires
        s != LoopState::Running,
    ensures
        channel_events(run_actions(s, evs)) == Seq::<CliEventView>::empty(),
        run_state(s, evs) != LoopState::Running,
    decreases evs.len(),
{
    if evs.len() > 0 {
        let (s1, a) = next(s, evs[0]);
        lemma_quiet_after_running(s1, evs.drop_first());
        lemma_channel_events_cons(a, run_actions(s1, evs.drop_first()));
        assert(sent_by(a) =~= Seq::<CliEventView>::empty());
        assert(channel_events(run_actions(s, evs)) =~= Seq::<CliEventView>::empty());
    }
}

/// `Exit` is the last event the loop ever puts on the command channel:
/// whatever the starting state and the events, no event follows an `Exit`.
pub proof fn lemma_exit_is_last(s: LoopState, evs: Seq<LoopEventView>)
    ensures
        forall|i: int|
            0 <= i < channel_events(run_actions(s, evs)).len() && channel_events(
                run_actions(s, evs),
            )[i] == CliEventView::Exit ==> i == channel_events(run_actions(s, evs)).len() - 1,
    decreases evs.len(),
{
    if s != LoopState::Running {
        lemma_quiet_after_running(s, evs);
    } else if evs.len() > 0 {
        let (s1, a) = next(s, evs[0]);
        let rest = run_actions(s1, evs.drop_first());
        lemma_channel_events_cons(a, rest);
        assert(run_actions(s, evs) == seq![a] + rest);
        lemma_exit_is_last(s1, evs.drop_first());
        if s1 != LoopState::Running {
            lemma_quiet_after_running(s1, evs.drop_first());
        }
        let ce = channel_events(run_actions(s, evs));
        let tail = channel_events(rest);
        assert forall|i: int| 0 <= i < ce.len() && ce[i] == CliEventView::Exit implies i == ce.len()
            - 1 by {
            if i >= sent_by(a).len() {
                assert(tail[i - sent_by(a).len()] == ce[i]);
            }
        }
    }
}

/// A line that splits into no words puts nothing on the command channel and
/// leaves a running loop running.
pub proof fn lemma_blank_line_is_ignored(line: Seq<char>)
    requires
        shell_split_of(line) matches Some(words) && words.len() == 0,
    ensures
        next(LoopState::Running, LoopEventView::Line(line)) == (
            LoopState::Running,
            LoopActionView::Await,
        ),
        sent_by(next(LoopState::Running, LoopEventView::Line(line)).1) == Seq::<
            CliEventView,
        >::empty(),
{
}

/// A line whose first word is an exit word makes `Exit` the next and only
/// event on the command channel, whatever follows, and the loop stops once
/// draining is done.
pub proof fn lemma_exit_word_ends_session(line: Seq<char>, later: Seq<LoopEventView>)
    requires
        shell_split_of(line) matches Some(words) && words.len() > 0 && is_exit_keyword(words[0]),
    ensures
        channel_events(run_actions(LoopState::Running, seq![LoopEventView::Line(line)] + later))
            == seq![CliEventView::Exit],
        run_state(LoopState::Running, seq![LoopEventView::Line(line), LoopEventView::Drained])
            == LoopState::Stopped,
{
    let first = LoopEventView::Line(line);
    lemma_run_cons(LoopState::Running, first, later);
    lemma_quiet_after_running(LoopState::Draining, later);
    lemma_channel_events_cons(LoopActionView::Drain, run_actions(LoopState::Draining, later));
    assert(seq![CliEventView::Exit] + Seq::<CliEventView>::empty() =~= seq![CliEventView::Exit]);
    lemma_run_cons(LoopState::Running, first, seq![LoopEventView::Drained]);
    lemma_run_cons(LoopState::Draining, LoopEventView::Drained, Seq::empty());
    assert(seq![first, LoopEventView::Drained] =~= seq![first] + seq![LoopEventView::Drained]);
    assert(seq![LoopEventView::Drained] =~= seq![LoopEventView::Drained] + Seq::<
        LoopEventView,
    >::empty());
}

/// Whether every event of `evs` is a cancellation.
pub open spec fn all_cancelled(evs: Seq<LoopEventView>) -> bool {
    forall|i: int| 0 <= i < evs.len() ==> evs[i] == LoopEventView::Cancelled
}

proof fn lemma_cancels_keep_state(s: LoopState, evs: Seq<LoopEventView>)
    requires
        s != LoopState::Running,
        all_cancelled(evs),
    ensures
        run_state(s, evs) == s,
    decreases evs.len(),
{
    if evs.len() > 0 {
        lemma_cancels_keep_state(next(s, evs[0]).0, evs.drop_first());
    }
}

/// Cancelling a running loop any number of times, before and after it has
/// drained, ends it exactly once: one `Exit` is sent and the loop stops.
pub proof fn lemma_repeated_cancel_stops_once(
    before: Seq<LoopEventView>,
    after: Seq<LoopEventView>,
)
    requires
        before.len() >= 1,
        all_cancelled(before),
        all_cancelled(after),
    ensures
        run_state(LoopState::Running, before + seq![LoopEventView::Drained] + after)
            == LoopState::Stopped,
        channel_events(run_actions(LoopState::Running, before + seq![LoopEventView::Drained] + after))
            == seq![CliEventView::Exit],
{
    let evs = before + seq![LoopEventView::Drained] + after;
    let rest = before.drop_first() + seq![LoopEventView::Drained] + after;
    assert(evs =~= seq![LoopEventView::Cancelled] + rest);
    lemma_run_cons(LoopState::Running, LoopEventView::Cancelled, rest);
    lemma_quiet_after_running(LoopState::Draining, rest);
    lemma_channel_events_cons(LoopActionView::Drain, run_actions(LoopState::Draining, rest));
    assert(seq![CliEventView::Exit] + Seq::<CliEventView>::empty() =~= seq![CliEventView::Exit]);
    lemma_cancels_keep_state(LoopState::Draining, before.drop_first());
    lemma_run_state_append(
        LoopState::Draining,
        before.drop_first(),
        seq![LoopEventView::Drained] + after,
    );
    assert(rest =~= before.drop_first() + (seq![LoopEventView::Drained] + after));
    lemma_run_cons(LoopState::Draining, LoopEventView::Drained, after);
    lemma_cancels_keep_state(LoopState::Stopped, after);
}

} // verus!
