//! The shutdown decision.
//!
//! Three things can end the process: an external termination signal,
//! the cache actor's loop ending, or the HTTP listener's serve loop
//! ending. Whichever completes first wins the race (the race itself is
//! runtime plumbing outside this library); what is decided here is the
//! report for each cause — its logged text, and whether the shutdown
//! counts as clean or as an unexpected subsystem failure.

use vstd::prelude::*;

verus! {

/// Which of the three termination sources completed first.
#[derive(Clone, Copy, Debug, PartialEq, Eq, Structural)]
pub enum ShutdownCause {
    TermSignal,
    ActorEnded,
    ListenerEnded,
}

/// Whether the shutdown is a clean one: only the external termination
/// signal is; an actor or listener that stops on its own is an
/// unexpected subsystem failure.
pub fn is_clean_shutdown(cause: ShutdownCause) -> (clean: bool)
    ensures
        clean <==> cause is TermSignal,
{
    match cause {
        ShutdownCause::TermSignal => true,
        ShutdownCause::ActorEnded => false,
        ShutdownCause::ListenerEnded => false,
    }
}

/// The text logged for each termination cause; the three texts are
/// pairwise distinct, so the logs always show which branch fired.
pub fn shutdown_message(cause: ShutdownCause) -> (m: &'static str)
    ensures
        cause is TermSignal ==> m@ == "Received a SIGTERM signal! exiting."@,
        cause is ActorEnded ==> m@ == "The actor died! exiting."@,
        cause is ListenerEnded ==> m@ == "The server died! exiting."@,
{
    match cause {
        ShutdownCause::TermSignal => "Received a SIGTERM signal! exiting.",
        ShutdownCause::ActorEnded => "The actor died! exiting.",
        ShutdownCause::ListenerEnded => "The server died! exiting.",
    }
}

} // verus!
