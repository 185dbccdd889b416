use vstd::prelude::*;

verus! {

/// What the input loop hands to the consumer of the command channel.
#[derive(Debug, PartialEq, Eq)]
pub enum CliEvent {
    /// A command name and its arguments, in the order they were typed.
    Input(String, Vec<String>),
    /// The session is over; nothing follows this event on a channel.
    Exit,
}

/// The mathematical value of a [`CliEvent`].
pub enum CliEventView {
    Input(Seq<char>, Seq<Seq<char>>),
    Exit,
}

impl View for CliEvent {
    type V = CliEventView;

    open spec fn view(&self) -> CliEventView {
        match self {
            CliEvent::Input(cmd, args) => CliEventView::Input(cmd@, args.deep_view()),
            CliEvent::Exit => CliEventView::Exit,
        }
    }
}

impl CliEvent {
    /// Whether this is the terminal `Exit` event.
    pub fn is_exit(&self) -> (r: bool)
        ensures
            r == (self@ == CliEventView::Exit),
    {
        match self {
            CliEvent::Input(_, _) => false,
            CliEvent::Exit => true,
        }
    }
}

} // verus!
