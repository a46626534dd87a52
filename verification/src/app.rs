use vstd::prelude::*;

use crate::store::UserStore;
use crate::users::UserView;

verus! {

/// One check-and-set turn of the guard, as each caller takes it in
/// turn under the mutual-exclusion lock: the pair is (whether this
/// caller runs the action, the flag afterwards). The flag is set
/// whatever it was, and the action runs only for the caller that
/// found it clear.
pub open spec fn spec_guard_step(has_run: bool) -> (bool, bool) {
    (!has_run, true)
}

/// The state a fresh guard is in after `n` callers took their turn.
pub open spec fn guard_state_after(s0: bool, n: nat) -> bool {
    if n == 0 {
        s0
    } else {
        true
    }
}

/// The guard's state evolves by `spec_guard_step`, turn after turn.
pub proof fn lemma_guard_state_coherent(s0: bool, n: nat)
    ensures
        guard_state_after(s0, n + 1) == spec_guard_step(guard_state_after(s0, n)).1,
{
}

/// Law: of any number of callers taking their turns on a fresh
/// guard, exactly one — the first — runs the action; every later
/// turn, whichever caller takes it, runs nothing.
pub proof fn lemma_guard_exactly_once(k: nat)
    requires
        k >= 1,
    ensures
        spec_guard_step(guard_state_after(false, 0)).0 == true,
        spec_guard_step(guard_state_after(false, k)).0 == false,
{
}

/// Run-at-most-once state for a destructive initialisation action.
/// The flag lives behind a process-wide mutual-exclusion lock (the
/// caller's concern); each caller's locked turn is one `try_run`.
pub struct InitGuard {
    ran: bool,
}

impl InitGuard {
    /// Whether some caller has already claimed the action.
    pub closed spec fn has_run(&self) -> bool {
        self.ran
    }

    /// A fresh guard: nobody has run the action yet.
    pub fn new() -> (r: Self)
        ensures
            !r.has_run(),
    {
        InitGuard { ran: false }
    }

    /// One caller's check-and-set turn: the flag is set before the
    /// caller acts, and the caller acts only if the flag was clear.
    pub fn try_run(&mut self) -> (run: bool)
        ensures
            run == spec_guard_step(old(self).has_run()).0,
            final(self).has_run() == spec_guard_step(old(self).has_run()).1,
    {
        let run = !self.ran;
        self.ran = true;
        run
    }
}

/// The application's hook surface: what of it decides anything —
/// the run-at-most-once bulk reset, and the version string — with
/// the framework plumbing around it left to the embedding binary.
pub struct App {
    pub truncate_guard: InitGuard,
}

impl App {
    /// A fresh application: the bulk reset has not run.
    pub fn new() -> (r: Self)
        ensures
            !r.truncate_guard.has_run(),
    {
        App { truncate_guard: InitGuard::new() }
    }

    /// The human-readable version: the package version, then the
    /// build identifier in parentheses, or "dev" when none is known.
    pub fn app_version(version: &str, build_sha: Option<&str>) -> (r: String)
        ensures
            build_sha matches Some(sha) ==> r@ == version@ + " ("@ + sha@ + ")"@,
            build_sha is None ==> r@ == version@ + " ("@ + "dev"@ + ")"@,
    {
        let mut s = String::from_str(version);
        s.append(" (");
        match build_sha {
            Some(sha) => s.append(sha),
            None => s.append("dev"),
        }
        s.append(")");
        s
    }

    /// The administrative bulk reset: drop every record, at most once
    /// for the lifetime of this `App`. The first call truncates the
    /// store and reports that it ran; every later call reports
    /// success without touching anything.
    pub fn truncate(&mut self, store: &mut UserStore) -> (ran: bool)
        ensures
            final(self).truncate_guard.has_run(),
            ran == !old(self).truncate_guard.has_run(),
            ran ==> final(store)@ =~= Seq::<UserView>::empty() && final(store).wf(),
            !ran ==> *final(store) == *old(store),
    {
        if self.truncate_guard.try_run() {
            store.truncate();
            true
        } else {
            false
        }
    }
}

} // verus!
