//! The suppression filter: which pointer-button notifications the rest of the
//! system gets to see while the filter is installed, and the life of the
//! worker that owns the filter.

use vstd::prelude::*;

verus! {

/// Notification of the trigger button going down.
pub const TRIGGER_DOWN: usize = 0x207;

/// Notification of the trigger button coming up.
pub const TRIGGER_UP: usize = 0x208;

/// The bits of an event's flags that mark it as injected by software.
pub const INJECTED_MASK: u32 = 3;

/// A low-level pointer notification as the filter receives it.
#[derive(Clone, Copy, Debug, PartialEq, Eq, Structural)]
pub struct HookEvent {
    pub code: i32,
    pub message: usize,
    pub x: i32,
    pub y: i32,
    pub mouse_data: u32,
    pub flags: u32,
    pub time: u32,
    /// The auxiliary tag of the event.
    pub extra_info: usize,
}

/// The rule by which an event of the trigger button is let through.
#[derive(Clone, Copy, Debug, PartialEq, Eq, Structural)]
pub struct PassRule {
    /// The value that the auxiliary tag of a passing event holds.
    pub marker: usize,
    /// Whether a passing event must also be flagged as injected.
    pub injected_only: bool,
}

/// What the filter does with an event.
#[derive(Clone, Copy, Debug, PartialEq, Eq, Structural)]
pub enum Verdict {
    /// The event ends here; nothing else in the system sees it.
    Swallow,
    /// The event goes on to the next receiver, as it came in.
    Forward(HookEvent),
}

/// Whether `message` announces the trigger button going down or coming up.
pub open spec fn is_trigger(message: usize) -> bool {
    message == TRIGGER_DOWN || message == TRIGGER_UP
}

impl PassRule {
    /// Whether `event` carries the marker in the sense of this rule.
    pub open spec fn passes(self, event: HookEvent) -> bool {
        &&& event.extra_info == self.marker
        &&& self.injected_only ==> event.flags & INJECTED_MASK != 0
    }

    /// The rule that looks at the auxiliary tag alone.
    pub fn tagged(marker: usize) -> (rule: PassRule)
        ensures
            rule == (PassRule { marker, injected_only: false }),
    {
        PassRule { marker, injected_only: false }
    }

    /// The rule that asks for the tag on an injected event: a click that
    /// comes from the device never passes, whatever its tag.
    pub fn injected(marker: usize) -> (rule: PassRule)
        ensures
            rule == (PassRule { marker, injected_only: true }),
    {
        PassRule { marker, injected_only: true }
    }

    /// Whether `event` carries the marker in the sense of this rule.
    pub fn admits(&self, event: &HookEvent) -> (pass: bool)
        ensures
            pass == self.passes(*event),
    {
        event.extra_info == self.marker && (!self.injected_only || event.flags & INJECTED_MASK
            != 0)
    }
}

/// The verdict on `event` under `rule`: a trigger-button event that does not
/// pass the rule is swallowed, and every other event is forwarded unchanged.
pub open spec fn verdict_of(event: HookEvent, rule: PassRule) -> Verdict {
    if is_trigger(event.message) && !rule.passes(event) {
        Verdict::Swallow
    } else {
        Verdict::Forward(event)
    }
}

/// Decides what happens to one event while the filter is installed.
///
/// A trigger-button event whose tag is not the marker is never forwarded,
/// and a forwarded event is the received one, field for field.
pub fn decide(event: HookEvent, rule: PassRule) -> (verdict: Verdict)
    ensures
        verdict == verdict_of(event, rule),
        is_trigger(event.message) && event.extra_info != rule.marker ==> verdict
            == Verdict::Swallow,
        verdict matches Verdict::Forward(forwarded) ==> forwarded == event,
        !is_trigger(event.message) ==> verdict == Verdict::Forward(event),
{
    if (event.message == TRIGGER_DOWN || event.message == TRIGGER_UP) && !rule.admits(&event) {
        Verdict::Swallow
    } else {
        Verdict::Forward(event)
    }
}

/// Where the worker that owns the filter stands.
#[derive(Clone, Copy, Debug, PartialEq, Eq, Structural)]
pub enum FilterPhase {
    /// The worker runs and has not tried to install the filter yet.
    Idle,
    /// The filter is installed and the worker serves its message loop.
    Installed,
    /// The worker is done; the filter is not installed.
    Stopped,
}

/// What the worker has to do next, in the order given.
#[derive(Clone, Copy, Debug, PartialEq, Eq, Structural)]
pub enum FilterCommand {
    /// Tell the capture loop that suppression is active.
    NotifyReady,
    /// Take the filter out, on the thread that put it in.
    Uninstall,
    /// Tell the capture loop to stop: the worker is about to exit.
    NotifyExit,
}

/// The worker that installs the filter, keeps it alive and takes it out.
#[derive(Clone, Copy, Debug, PartialEq, Eq, Structural)]
pub struct FilterWorker {
    pub phase: FilterPhase,
}

impl FilterWorker {
    /// The worker after the outcome of the installation is known.
    pub open spec fn after_install(self, ok: bool) -> (FilterWorker, Seq<FilterCommand>) {
        if self.phase != FilterPhase::Idle {
            (self, Seq::empty())
        } else if ok {
            (FilterWorker { phase: FilterPhase::Installed }, seq![FilterCommand::NotifyReady])
        } else {
            (FilterWorker { phase: FilterPhase::Stopped }, seq![FilterCommand::NotifyExit])
        }
    }

    /// The worker after its message loop has seen the control signal to stop.
    pub open spec fn after_quit(self) -> (FilterWorker, Seq<FilterCommand>) {
        match self.phase {
            FilterPhase::Idle => (
                FilterWorker { phase: FilterPhase::Stopped },
                seq![FilterCommand::NotifyExit],
            ),
            FilterPhase::Installed => (
                FilterWorker { phase: FilterPhase::Stopped },
                seq![FilterCommand::Uninstall, FilterCommand::NotifyExit],
            ),
            FilterPhase::Stopped => (self, Seq::empty()),
        }
    }

    /// A worker that has just been started.
    pub fn new() -> (worker: FilterWorker)
        ensures
            worker.phase == FilterPhase::Idle,
    {
        FilterWorker { phase: FilterPhase::Idle }
    }

    /// Whether events currently run through the filter.
    pub fn is_installed(&self) -> (installed: bool)
        ensures
            installed == (self.phase == FilterPhase::Installed),
    {
        self.phase == FilterPhase::Installed
    }

    /// The verdict on `event` as the system sees it: the filter decides
    /// while it is installed, and has no say while it is not.
    pub open spec fn screened(self, event: HookEvent, rule: PassRule) -> Verdict {
        if self.phase == FilterPhase::Installed {
            verdict_of(event, rule)
        } else {
            Verdict::Forward(event)
        }
    }

    /// Screens one event. While the filter is installed, a trigger-button
    /// event whose tag is not the marker is never forwarded; whatever is
    /// forwarded, at any time, is the received event.
    pub fn screen(&self, event: HookEvent, rule: PassRule) -> (verdict: Verdict)
        ensures
            verdict == self.screened(event, rule),
            self.phase == FilterPhase::Installed && is_trigger(event.message) && event.extra_info
                != rule.marker ==> verdict == Verdict::Swallow,
            verdict matches Verdict::Forward(forwarded) ==> forwarded == event,
    {
        if self.is_installed() {
            decide(event, rule)
        } else {
            Verdict::Forward(event)
        }
    }

    /// Records whether the installation succeeded. On success the worker
    /// reports readiness; on failure it stops at once and says so.
    pub fn install_result(&mut self, ok: bool) -> (commands: Vec<FilterCommand>)
        ensures
            (*final(self), commands@) == old(self).after_install(ok),
    {
        let mut commands: Vec<FilterCommand> = Vec::new();
        if self.phase == FilterPhase::Idle {
            if ok {
                self.phase = FilterPhase::Installed;
                commands.push(FilterCommand::NotifyReady);
            } else {
                self.phase = FilterPhase::Stopped;
                commands.push(FilterCommand::NotifyExit);
            }
        }
        commands
    }

    /// Records the control signal to stop. An installed filter is taken out
    /// before the worker announces its exit.
    pub fn quit(&mut self) -> (commands: Vec<FilterCommand>)
        ensures
            (*final(self), commands@) == old(self).after_quit(),
            final(self).phase == FilterPhase::Stopped,
            old(self).phase == FilterPhase::Installed <==> commands@.contains(
                FilterCommand::Uninstall,
            ),
    {
        let mut commands: Vec<FilterCommand> = Vec::new();
        match self.phase {
            FilterPhase::Idle => {
                self.phase = FilterPhase::Stopped;
                commands.push(FilterCommand::NotifyExit);
            },
            FilterPhase::Installed => {
                self.phase = FilterPhase::Stopped;
                commands.push(FilterCommand::Uninstall);
                commands.push(FilterCommand::NotifyExit);
            },
            FilterPhase::Stopped => {},
        }
        proof {
            let listed = commands@;
            if old(self).phase == FilterPhase::Installed {
                assert(listed[0] == FilterCommand::Uninstall);
            }
        }
        commands
    }
}

} // verus!
