//! Decision logic of the single-instance callback.
//!
//! The shell registers a callback that an inter-process mechanism invokes
//! whenever a second launch of the application is attempted while an
//! instance is already running.  The surrounding program performs the window
//! lookup and the focus call; the decision of what to do — and the
//! bookkeeping that one focus request is owed per extra launch attempt —
//! is verified here.

use vstd::prelude::*;

verus! {

/// What the running instance does in reaction to an extra launch attempt.
#[derive(Clone, Copy, PartialEq, Eq, Structural, Debug)]
pub enum Reaction {
    /// Bring the window named "main" of the running instance to the
    /// foreground; no second process is started.
    FocusMainWindow,
    /// Terminate the process at once: the shell's invariant that a window
    /// named "main" exists was broken.  Never a recoverable condition.
    Abort,
}

/// The reaction owed to one extra launch attempt, as a function of whether
/// a window named "main" exists in the running instance at that moment.
pub open spec fn second_launch_reaction(main_window_present: bool) -> Reaction {
    if main_window_present {
        Reaction::FocusMainWindow
    } else {
        Reaction::Abort
    }
}

/// Decides the single-instance callback's action.  The caller reports
/// whether the window lookup for "main" succeeded; the decision is to focus
/// that window exactly when it exists, and to abort the process otherwise.
pub fn on_second_launch(main_window_present: bool) -> (r: Reaction)
    ensures
        r == second_launch_reaction(main_window_present),
{
    if main_window_present {
        Reaction::FocusMainWindow
    } else {
        Reaction::Abort
    }
}

/// A missing "main" window when the callback fires is fatal: the decision
/// is to abort, never to continue silently.
pub proof fn lemma_missing_main_window_is_fatal(main_window_present: bool)
    requires
        !main_window_present,
    ensures
        second_launch_reaction(main_window_present) == Reaction::Abort,
{
}

/// Bookkeeping of the running instance: how many extra launch attempts have
/// been handled and how many focus requests were issued for them.  The
/// well-formedness invariant says the two counts agree — every extra launch
/// attempt leads to exactly one focus request on the existing instance, and
/// never to a second independent process.
pub struct InstanceGuard {
    extra_launches: u64,
    focus_requests: u64,
}

impl InstanceGuard {
    /// Extra launch attempts handled so far.
    pub closed spec fn extra_launches(self) -> u64 {
        self.extra_launches
    }

    /// Focus requests issued to the "main" window so far.
    pub closed spec fn focus_requests(self) -> u64 {
        self.focus_requests
    }

    /// Exactly one focus request has been issued per handled attempt.
    pub open spec fn wf(self) -> bool {
        self.focus_requests() == self.extra_launches()
    }

    /// A fresh instance: no extra launch attempt seen yet.
    pub fn new() -> (g: InstanceGuard)
        ensures
            g.wf(),
            g.extra_launches() == 0,
    {
        InstanceGuard { extra_launches: 0, focus_requests: 0 }
    }

    /// Handles one extra launch attempt.  When the "main" window is present,
    /// exactly one focus request is issued for this attempt and the
    /// invariant is preserved; when it is absent, the reaction is to abort,
    /// and the guard records nothing, since the process terminates.
    pub fn handle_second_launch(&mut self, main_window_present: bool) -> (r: Reaction)
        requires
            old(self).wf(),
            old(self).extra_launches() < u64::MAX,
        ensures
            r == second_launch_reaction(main_window_present),
            main_window_present ==> final(self).wf(),
            main_window_present ==> final(self).extra_launches() == old(self).extra_launches() + 1,
            main_window_present ==> final(self).focus_requests() == old(self).focus_requests() + 1,
            !main_window_present ==> *final(self) == *old(self),
    {
        if main_window_present {
            self.extra_launches = self.extra_launches + 1;
            self.focus_requests = self.focus_requests + 1;
            Reaction::FocusMainWindow
        } else {
            Reaction::Abort
        }
    }

    /// Extra launch attempts handled so far, for the surrounding program.
    pub fn extra_launch_count(&self) -> (n: u64)
        ensures
            n == self.extra_launches(),
    {
        self.extra_launches
    }
}

} // verus!
