//! One-shot installation of the process-wide sink pipeline.

use vstd::prelude::*;

verus! {

/// The retention window a successful initialization sweeps with.
pub const DEFAULT_RETENTION_DAYS: u64 = 7;

/// One-shot installation state of the process-wide pipeline.
pub struct InitGuard {
    pub initialized: bool,
}

impl InitGuard {
    /// A fresh, uninitialized guard.
    pub fn new() -> (g: InitGuard)
        ensures
            !g.initialized,
    {
        InitGuard { initialized: false }
    }

    /// The one-shot transition: reports whether this call is the one
    /// that installs the pipeline; afterwards the guard is initialized
    /// for the rest of the process's lifetime.
    pub fn try_init(&mut self) -> (installed: bool)
        ensures
            installed == !old(self).initialized,
            final(self).initialized,
    {
        let first = !self.initialized;
        self.initialized = true;
        first
    }
}

/// Whether the guard is initialized after `n` attempts from a fresh
/// start: any attempt leaves it initialized forever.
pub open spec fn guard_state_after(n: nat) -> bool {
    n > 0
}

/// How many of the first `n` attempts installed the pipeline: an
/// attempt installs exactly when the guard was still uninitialized
/// before it, as `try_init` ensures.
pub open spec fn install_count(n: nat) -> nat
    decreases n,
{
    if n == 0 {
        0
    } else {
        install_count((n - 1) as nat) + (if guard_state_after((n - 1) as nat) {
            0nat
        } else {
            1nat
        })
    }
}

/// Idempotence of initialization: however many times it is attempted,
/// the pipeline is installed exactly once, so a single emitted event
/// never produces duplicate lines from duplicate pipelines.
pub proof fn lemma_init_idempotent(n: nat)
    requires
        n >= 1,
    ensures
        install_count(n) == 1,
    decreases n,
{
    if n > 1 {
        lemma_init_idempotent((n - 1) as nat);
    } else {
        assert(install_count(0) == 0);
    }
}

/// What one initialization attempt does, in the order the operation
/// works: without a log directory it aborts and the application goes on
/// without persistent logging; with one, it installs the pipeline
/// unless an earlier attempt already did, in which case it is a silent
/// no-op.
#[derive(Clone, Copy, PartialEq, Eq, Structural, Debug)]
pub enum InitStep {
    AbortNoDirectory,
    AlreadyInstalled,
    Install,
}

/// Decide an initialization attempt from whether the log directory
/// resolved and whether a pipeline is already installed.
pub fn plan_init(dir_resolved: bool, already_installed: bool) -> (r: InitStep)
    ensures
        !dir_resolved ==> r == InitStep::AbortNoDirectory,
        dir_resolved && already_installed ==> r == InitStep::AlreadyInstalled,
        dir_resolved && !already_installed ==> r == InitStep::Install,
{
    if !dir_resolved {
        InitStep::AbortNoDirectory
    } else if already_installed {
        InitStep::AlreadyInstalled
    } else {
        InitStep::Install
    }
}

} // verus!
