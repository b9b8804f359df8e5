//! One-shot bring-up of the second core: the core and its stack arena are
//! handed out once per boot, and every later request is refused.
use vstd::prelude::*;

verus! {

/// Size of the stack arena of the second core, in bytes: the worst-case
/// combined stack depth of the tasks placed there.
pub const APP_CORE_STACK_BYTES: usize = 8192;

/// Refused launches.
#[derive(Debug, Clone, Copy, PartialEq, Eq, Structural)]
pub enum LaunchError {
    /// The second core already runs, on the only stack arena there is.
    AlreadyStarted,
}

/// The right to start the second core on the stack arena, granted once.
#[derive(Debug, PartialEq, Eq, Structural)]
pub struct CoreGrant {
    /// Bytes of the stack arena that the second core receives.
    pub stack_bytes: usize,
}

/// Tracks whether the second core and its stack arena have been handed out.
pub struct CoreLauncher {
    started: bool,
}

/// What a start request returns on a launcher that has or has not started
/// the second core yet, and whether it has started afterwards.
pub open spec fn start_outcome(started: bool) -> (bool, Result<CoreGrant, LaunchError>) {
    if started {
        (true, Err(LaunchError::AlreadyStarted))
    } else {
        (true, Ok(CoreGrant { stack_bytes: APP_CORE_STACK_BYTES }))
    }
}

impl View for CoreLauncher {
    type V = bool;

    /// The second core has been started.
    closed spec fn view(&self) -> bool {
        self.started
    }
}

impl CoreLauncher {
    /// A launcher at boot: the second core is idle.
    pub fn new() -> (r: CoreLauncher)
        ensures
            !r@,
    {
        CoreLauncher { started: false }
    }

    /// Whether the second core has been started.
    pub fn is_started(&self) -> (r: bool)
        ensures
            r == self@,
    {
        self.started
    }
}

/// Hands out the second core and its stack arena, once; a second request in
/// the same boot is refused instead of reusing the arena.
pub fn start_appcore(launcher: &mut CoreLauncher) -> (r: Result<CoreGrant, LaunchError>)
    ensures
        (final(launcher)@, r) == start_outcome(old(launcher)@),
{
    if launcher.started {
        Err(LaunchError::AlreadyStarted)
    } else {
        launcher.started = true;
        Ok(CoreGrant { stack_bytes: APP_CORE_STACK_BYTES })
    }
}

/// Of two start requests in one boot, the second is always refused.
pub proof fn lemma_second_start_refused(started: bool)
    ensures
        start_outcome(start_outcome(started).0).1 == Err::<CoreGrant, LaunchError>(
            LaunchError::AlreadyStarted,
        ),
{
}

} // verus!
