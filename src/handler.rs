//! The per-connection state machine: absorb the client's banner once, then
//! drip lines until a write fails or shutdown is requested, and release the
//! connection's admission slot exactly once on the way out.
use vstd::prelude::*;

verus! {

/// Where a connection handler stands.
#[derive(PartialEq, Eq, Structural, Clone, Copy, Debug)]
pub enum Phase {
    /// The client's banner has not been read yet.
    Init,
    /// Sending one line per delay period.
    Drip,
    /// The connection is done; its slot is not released yet.
    Closing,
    /// The slot was released; nothing is left to do.
    Terminated,
}

/// What the handler does next.
#[derive(PartialEq, Eq, Structural, Clone, Copy, Debug)]
pub enum HandlerAction {
    /// Read once from the socket and ignore what came.
    ReadBanner,
    /// Generate one line, write it whole, then sleep for the delay.
    SendLine,
    /// Decrement the live count and report the disconnect.
    Release,
    /// Drop the socket and end the handler.
    Exit,
}

/// What came of the action the handler took.
#[derive(PartialEq, Eq, Structural, Clone, Copy, Debug)]
pub enum HandlerEvent {
    /// The banner read returned, whatever it held.
    ReadDone,
    /// The banner read failed.
    ReadFailed,
    /// The whole line was written.
    WriteDone,
    /// The write failed in any way.
    WriteFailed,
    /// The live count was decremented.
    Released,
}

pub open spec fn next_action_spec(phase: Phase, shutdown: bool) -> HandlerAction {
    match phase {
        Phase::Init => HandlerAction::ReadBanner,
        Phase::Drip => if shutdown {
            HandlerAction::Release
        } else {
            HandlerAction::SendLine
        },
        Phase::Closing => HandlerAction::Release,
        Phase::Terminated => HandlerAction::Exit,
    }
}

pub open spec fn advance_spec(phase: Phase, event: HandlerEvent) -> Phase {
    match (phase, event) {
        (Phase::Init, HandlerEvent::ReadDone) => Phase::Drip,
        (Phase::Init, HandlerEvent::ReadFailed) => Phase::Closing,
        (Phase::Drip, HandlerEvent::WriteDone) => Phase::Drip,
        (Phase::Drip, HandlerEvent::WriteFailed) => Phase::Closing,
        (Phase::Drip, HandlerEvent::Released) => Phase::Terminated,
        (Phase::Closing, HandlerEvent::Released) => Phase::Terminated,
        _ => phase,
    }
}

/// The next action in `phase`, given the shutdown flag read at the top of
/// the drip loop. The banner read happens whatever the flag says.
pub fn next_action(phase: Phase, shutdown: bool) -> (r: HandlerAction)
    ensures
        r == next_action_spec(phase, shutdown),
{
    match phase {
        Phase::Init => HandlerAction::ReadBanner,
        Phase::Drip => if shutdown {
            HandlerAction::Release
        } else {
            HandlerAction::SendLine
        },
        Phase::Closing => HandlerAction::Release,
        Phase::Terminated => HandlerAction::Exit,
    }
}

/// The phase after `event`. An event that does not belong to `phase`
/// leaves it unchanged.
pub fn advance(phase: Phase, event: HandlerEvent) -> (r: Phase)
    ensures
        r == advance_spec(phase, event),
{
    match (phase, event) {
        (Phase::Init, HandlerEvent::ReadDone) => Phase::Drip,
        (Phase::Init, HandlerEvent::ReadFailed) => Phase::Closing,
        (Phase::Drip, HandlerEvent::WriteDone) => Phase::Drip,
        (Phase::Drip, HandlerEvent::WriteFailed) => Phase::Closing,
        (Phase::Drip, HandlerEvent::Released) => Phase::Terminated,
        (Phase::Closing, HandlerEvent::Released) => Phase::Terminated,
        _ => phase,
    }
}

/// The event that taking `action` produces, where `ok` says whether its
/// I/O succeeded; `None` for `Exit`, which produces nothing.
pub open spec fn event_of(action: HandlerAction, ok: bool) -> Option<HandlerEvent> {
    match action {
        HandlerAction::ReadBanner => Some(
            if ok {
                HandlerEvent::ReadDone
            } else {
                HandlerEvent::ReadFailed
            },
        ),
        HandlerAction::SendLine => Some(
            if ok {
                HandlerEvent::WriteDone
            } else {
                HandlerEvent::WriteFailed
            },
        ),
        HandlerAction::Release => Some(HandlerEvent::Released),
        HandlerAction::Exit => None,
    }
}

/// One turn of the handler: decide, act, and move on with the outcome.
pub open spec fn turn(phase: Phase, shutdown: bool, ok: bool) -> Phase {
    match event_of(next_action_spec(phase, shutdown), ok) {
        Some(e) => advance_spec(phase, e),
        None => phase,
    }
}

/// The phase after a run of turns; `env[i]` holds the shutdown flag read
/// and the I/O outcome of turn `i`.
pub open spec fn run(phase: Phase, env: Seq<(bool, bool)>) -> Phase
    decreases env.len(),
{
    if env.len() == 0 {
        phase
    } else {
        let p = run(phase, env.drop_last());
        turn(p, env.last().0, env.last().1)
    }
}

/// How many times a run of turns released the slot.
pub open spec fn releases(phase: Phase, env: Seq<(bool, bool)>) -> int
    decreases env.len(),
{
    if env.len() == 0 {
        0
    } else {
        let p = run(phase, env.drop_last());
        releases(phase, env.drop_last()) + if next_action_spec(p, env.last().0)
            == HandlerAction::Release {
            1int
        } else {
            0int
        }
    }
}

/// Whatever the flags and I/O outcomes, a handler started fresh releases
/// its slot at most once, has released it exactly once when it has
/// terminated, and is told to exit only after that.
pub proof fn lemma_release_once(env: Seq<(bool, bool)>)
    ensures
        run(Phase::Init, env) == Phase::Terminated ==> releases(Phase::Init, env) == 1,
        run(Phase::Init, env) != Phase::Terminated ==> releases(Phase::Init, env) == 0,
        forall|s: bool|
            next_action_spec(run(Phase::Init, env), s) == HandlerAction::Exit ==> releases(
                Phase::Init,
                env,
            ) == 1,
    decreases env.len(),
{
    if env.len() > 0 {
        lemma_release_once(env.drop_last());
    }
}

/// Once shutdown is requested, a live handler terminates within two turns:
/// at most one I/O operation (the pending banner read) and then the
/// release. A handler in the drip loop sends nothing more.
pub proof fn lemma_shutdown_drains(phase: Phase, ok1: bool, ok2: bool)
    ensures
        turn(turn(phase, true, ok1), true, ok2) == Phase::Terminated,
        next_action_spec(phase, true) != HandlerAction::SendLine,
        next_action_spec(turn(phase, true, ok1), true) != HandlerAction::SendLine,
        next_action_spec(turn(phase, true, ok1), true) != HandlerAction::ReadBanner,
        phase != Phase::Init ==> turn(phase, true, ok1) == Phase::Terminated,
{
}

} // verus!
