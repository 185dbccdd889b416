use vstd::prelude::*;

verus! {

/// What a kill leaves behind and hands out, given what the switch held: the
/// first kill takes the handles, every later one finds nothing.
pub open spec fn kill_result<H>(held: Option<H>) -> (Option<H>, Option<H>) {
    (None, held)
}

/// The write side of the session's one-shot shutdown: it holds the handles
/// needed to signal cancellation and to join the input loop until the first
/// kill takes them. Once signalled it stays signalled.
pub struct KillSwitch<H> {
    handles: Option<H>,
}

impl<H> View for KillSwitch<H> {
    type V = Option<H>;

    closed spec fn view(&self) -> Option<H> {
        self.handles
    }
}

impl<H> KillSwitch<H> {
    /// A switch that has not been thrown, holding `handles`.
    pub fn new(handles: H) -> (r: KillSwitch<H>)
        ensures
            r@ == Some(handles),
    {
        KillSwitch { handles: Some(handles) }
    }

    /// Throws the switch. The first call hands out the handles, so that the
    /// caller signals cancellation and waits for the loop once; any later
    /// call returns `None` and does nothing.
    pub fn kill(&mut self) -> (r: Option<H>)
        ensures
            (final(self)@, r) == kill_result(old(self)@),
    {
        self.handles.take()
    }

    /// Whether the switch has been thrown.
    pub fn is_signalled(&self) -> (r: bool)
        ensures
            r == (self@ is None),
    {
        self.handles.is_none()
    }
}

/// However many times a session is killed, the handles come out at most
/// once: a kill after a kill hands out nothing and leaves the switch thrown.
pub proof fn lemma_kill_is_idempotent<H>(held: Option<H>)
    ensures
        kill_result(kill_result(held).0).1 is None,
        kill_result(kill_result(held).0).0 is None,
{
}

/// An observer that looks after a kill has returned sees the signal, and
/// every later kill keeps it set.
pub proof fn lemma_signal_is_permanent<H>(held: Option<H>, later_kills: nat)
    ensures
        kills_after(kill_result(held).0, later_kills) is None,
    decreases later_kills,
{
    if later_kills > 0 {
        lemma_signal_is_permanent::<H>(None, (later_kills - 1) as nat);
    }
}

/// The switch's content after `n` more kills.
pub open spec fn kills_after<H>(held: Option<H>, n: nat) -> Option<H>
    decreases n,
{
    if n == 0 {
        held
    } else {
        kills_after(kill_result(held).0, (n - 1) as nat)
    }
}

} // verus!
