//! Server setup: where the static web page lies, and how often the server
//! tries to reach the database before it gives up.

use vstd::prelude::*;

verus! {

#[verifier::external_type_specification]
#[verifier::external_body]
pub struct ExPathBuf(std::path::PathBuf);

/// The directory that the web page is served from.
pub struct StaticFilePath(pub std::path::PathBuf);

/// The number of failed connection attempts after which the server still
/// tries once more; one more failure and it gives up.
pub const MAX_CONNECT_TRIES: u32 = 5;

/// What the start-up loop does next.
#[derive(Debug, Clone, Copy, PartialEq, Eq, Structural)]
pub enum ConnectAction {
    /// Try to open the connection pool (waiting three seconds after a
    /// failure).
    Attempt,
    /// Report that the database cannot be reached and exit.
    GiveUp,
}

/// One turn of the start-up loop, given the attempts made so far: after more
/// than five it gives up; otherwise it counts one more and attempts.
pub open spec fn connect_next(tries: nat) -> (ConnectAction, nat) {
    if tries > MAX_CONNECT_TRIES {
        (ConnectAction::GiveUp, tries)
    } else {
        (ConnectAction::Attempt, tries + 1)
    }
}

/// Computes `connect_next`.
pub fn connect_step(tries: u32) -> (next: (ConnectAction, u32))
    ensures
        next.0 == connect_next(tries as nat).0,
        next.1 as nat == connect_next(tries as nat).1,
{
    if tries > MAX_CONNECT_TRIES {
        (ConnectAction::GiveUp, tries)
    } else {
        (ConnectAction::Attempt, tries + 1)
    }
}

/// The number of attempts the loop makes from `tries` when every attempt
/// fails.
pub open spec fn attempts_until_giving_up(tries: nat) -> nat
    decreases MAX_CONNECT_TRIES + 1 - tries,
{
    if connect_next(tries).0 == ConnectAction::GiveUp {
        0
    } else {
        1 + attempts_until_giving_up(connect_next(tries).1)
    }
}

/// Starting with no attempts, the server makes six attempts before it gives
/// up.
pub proof fn lemma_six_attempts()
    ensures
        attempts_until_giving_up(0) == 6,
{
    reveal_with_fuel(attempts_until_giving_up, 7);
}

} // verus!
