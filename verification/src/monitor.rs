//! The monitor loop's state machine: startup sweep over the process
//! snapshot, live watching, and cooperative shutdown.
//!
//! The loop itself suspends on outside events (the next live process, the
//! shutdown signal), so the surrounding program drives this machine: it
//! performs the waiting and hands each event in, and the machine decides
//! every transition and every rule application.

use vstd::prelude::*;

use crate::enforce::spec_ruleset_calls;
use crate::enforce::spec_ruleset_outcomes;
use crate::enforce::OsCall;
use crate::enforce::RecordingEnforcer;
use crate::enforce::RuleOutcome;
use crate::rules::ProcessInfo;
use crate::rules::ProcessRule;
use crate::rules::ProcessRuleSet;

verus! {

/// Where the monitor stands in its run.
#[derive(Debug, Clone, Copy, PartialEq, Eq, Structural)]
pub enum MonitorPhase {
    /// The rule set is in hand; the live subscription is being established.
    Initializing,
    /// Applying the rules to the snapshot of already-running processes.
    Sweeping,
    /// Awaiting the next live process or the shutdown signal.
    Watching,
    /// Releasing the event source; no further rule applications occur.
    ShuttingDown,
    /// Final: the run ended, cleanly or with a fatal error.
    Terminated,
}

/// Why the monitor left the watching phase.
#[derive(Debug, Clone, Copy, PartialEq, Eq, Structural)]
pub enum StopReason {
    /// The external shutdown signal fired: a clean stop.
    RequestedShutdown,
    /// The live feed itself broke: a fatal error to report upward.
    FeedFailed,
}

/// A fatal monitor error, reported upward when the run cannot go on.
#[derive(Debug, Clone, Copy, PartialEq, Eq, Structural)]
pub enum MonitorError {
    /// The live subscription could not be established; the run ends before
    /// any sweeping.
    SubscriptionFailed,
    /// The live feed broke while watching.
    FeedFailed,
}

/// What the watching phase can wake up to: exactly one of these resolves
/// per suspension cycle.
#[derive(Debug, Clone)]
pub enum WatchEvent {
    /// The live feed yielded a newly started process.
    Live(ProcessInfo),
    /// The external shutdown signal fired.
    Shutdown,
    /// The live feed surfaced a fatal error.
    FeedError,
}

/// The requests that one snapshot entry contributes during the sweep.
pub open spec fn spec_snapshot_entry_calls(
    rules: Seq<ProcessRule>,
    p: ProcessInfo,
    core_count: u32,
    denied: Seq<u32>,
) -> Seq<OsCall> {
    spec_ruleset_calls(rules, p, core_count, denied)
}

/// The diagnostics that one snapshot entry contributes during the sweep.
pub open spec fn spec_snapshot_entry_outcomes(
    rules: Seq<ProcessRule>,
    p: ProcessInfo,
    core_count: u32,
    denied: Seq<u32>,
) -> Seq<RuleOutcome> {
    spec_ruleset_outcomes(rules, p, core_count, denied)
}

/// The requests that one live-feed process triggers while watching.
pub open spec fn spec_live_event_calls(
    rules: Seq<ProcessRule>,
    p: ProcessInfo,
    core_count: u32,
    denied: Seq<u32>,
) -> Seq<OsCall> {
    spec_ruleset_calls(rules, p, core_count, denied)
}

/// The diagnostics that one live-feed process triggers while watching.
pub open spec fn spec_live_event_outcomes(
    rules: Seq<ProcessRule>,
    p: ProcessInfo,
    core_count: u32,
    denied: Seq<u32>,
) -> Seq<RuleOutcome> {
    spec_ruleset_outcomes(rules, p, core_count, denied)
}

/// A snapshot-sourced and a live-sourced process are evaluated through the
/// identical rule application: for the same rule set, process and host,
/// the two sources issue the same requests and report the same
/// diagnostics.
pub proof fn lemma_sources_evaluated_identically(
    rules: Seq<ProcessRule>,
    p: ProcessInfo,
    core_count: u32,
    denied: Seq<u32>,
)
    ensures
        spec_snapshot_entry_calls(rules, p, core_count, denied) == spec_live_event_calls(
            rules,
            p,
            core_count,
            denied,
        ),
        spec_snapshot_entry_outcomes(rules, p, core_count, denied) == spec_live_event_outcomes(
            rules,
            p,
            core_count,
            denied,
        ),
{
}

/// The requests of a whole sweep: each snapshot entry's requests, in
/// snapshot order.
pub open spec fn spec_sweep_calls(
    rules: Seq<ProcessRule>,
    snapshot: Seq<ProcessInfo>,
    core_count: u32,
    denied: Seq<u32>,
) -> Seq<OsCall>
    decreases snapshot.len(),
{
    if snapshot.len() == 0 {
        Seq::empty()
    } else {
        spec_sweep_calls(rules, snapshot.drop_last(), core_count, denied)
            + spec_snapshot_entry_calls(rules, snapshot.last(), core_count, denied)
    }
}

/// The monitor loop's state: the rule set it owns for the run, the phase it
/// stands in, and — once it is shutting down — why it stopped.
///
/// The rule set is immutable for the lifetime of a run: no method of the
/// monitor changes it.
#[derive(Debug, Clone)]
pub struct Monitor {
    pub rule_set: ProcessRuleSet,
    pub phase: MonitorPhase,
    pub stop: Option<StopReason>,
}

impl Monitor {
    /// Takes ownership of the externally supplied rule set and stands ready
    /// to establish the live subscription.
    pub fn new(rule_set: ProcessRuleSet) -> (m: Monitor)
        ensures
            m.rule_set == rule_set,
            m.phase == MonitorPhase::Initializing,
            m.stop is None,
    {
        Monitor { rule_set, phase: MonitorPhase::Initializing, stop: None }
    }

    /// Records whether the live subscription could be established. Success
    /// moves on to the sweep; failure is fatal: the run terminates at once,
    /// reporting the error upward, without ever sweeping.
    pub fn on_subscription(&mut self, established: bool) -> (r: Result<(), MonitorError>)
        requires
            old(self).phase == MonitorPhase::Initializing,
        ensures
            final(self).rule_set == old(self).rule_set,
            final(self).stop == old(self).stop,
            established ==> final(self).phase == MonitorPhase::Sweeping && r == Ok::<
                (),
                MonitorError,
            >(()),
            !established ==> final(self).phase == MonitorPhase::Terminated && r == Err::<
                (),
                MonitorError,
            >(MonitorError::SubscriptionFailed),
    {
        if established {
            self.phase = MonitorPhase::Sweeping;
            Ok(())
        } else {
            self.phase = MonitorPhase::Terminated;
            Err(MonitorError::SubscriptionFailed)
        }
    }

    /// Applies the rule set to every entry of the snapshot, in order, and
    /// reports the per-entry diagnostics. Completion is unconditional:
    /// however many individual applications failed, the monitor proceeds
    /// to watching.
    pub fn sweep(
        &mut self,
        snapshot: &Vec<ProcessInfo>,
        enforcer: &mut RecordingEnforcer,
    ) -> (diagnostics: Vec<Vec<RuleOutcome>>)
        requires
            old(self).phase == MonitorPhase::Sweeping,
            old(enforcer).wf(),
        ensures
            final(self).rule_set == old(self).rule_set,
            final(self).stop == old(self).stop,
            final(self).phase == MonitorPhase::Watching,
            RecordingEnforcer::same_host(*old(enforcer), *final(enforcer)),
            final(enforcer).wf(),
            final(enforcer).calls@ == old(enforcer).calls@ + spec_sweep_calls(
                old(self).rule_set.rules@,
                snapshot@,
                old(enforcer).core_count,
                old(enforcer).denied@,
            ),
            diagnostics@.len() == snapshot@.len(),
            forall|i: int|
                0 <= i < snapshot@.len() ==> diagnostics@[i]@ == spec_snapshot_entry_outcomes(
                    old(self).rule_set.rules@,
                    snapshot@[i],
                    old(enforcer).core_count,
                    old(enforcer).denied@,
                ),
    {
        let ghost core_count = enforcer.core_count;
        let ghost denied = enforcer.denied@;
        let mut diagnostics: Vec<Vec<RuleOutcome>> = Vec::new();
        let mut k: usize = 0;
        while k < snapshot.len()
            invariant
                k <= snapshot@.len(),
                old(enforcer).wf(),
                enforcer.wf(),
                RecordingEnforcer::same_host(*old(enforcer), *enforcer),
                core_count == old(enforcer).core_count,
                denied == old(enforcer).denied@,
                self == old(self),
                diagnostics@.len() == k,
                forall|i: int|
                    0 <= i < k ==> diagnostics@[i]@ == spec_snapshot_entry_outcomes(
                        self.rule_set.rules@,
                        snapshot@[i],
                        core_count,
                        denied,
                    ),
                enforcer.calls@ == old(enforcer).calls@ + spec_sweep_calls(
                    self.rule_set.rules@,
                    snapshot@.take(k as int),
                    core_count,
                    denied,
                ),
            decreases snapshot@.len() - k,
        {
            let entry_outcomes = self.rule_set.apply(&snapshot[k], enforcer);
            diagnostics.push(entry_outcomes);
            k = k + 1;
            proof {
                assert(snapshot@.take(k as int).drop_last() =~= snapshot@.take(k as int - 1));
                assert(snapshot@.take(k as int).last() == snapshot@[k as int - 1]);
                assert(enforcer.calls@ =~= old(enforcer).calls@ + spec_sweep_calls(
                    self.rule_set.rules@, snapshot@.take(k as int), core_count, denied));
            }
        }
        proof {
            assert(snapshot@.take(snapshot@.len() as int) =~= snapshot@);
        }
        self.phase = MonitorPhase::Watching;
        diagnostics
    }

    /// Handles the one event that resolved this suspension cycle. A live
    /// process is evaluated exactly as a snapshot entry would be; the
    /// shutdown signal, and a fatal feed error, end the watching at once,
    /// with no rule applied to any event not yet delivered.
    pub fn on_event(
        &mut self,
        event: WatchEvent,
        enforcer: &mut RecordingEnforcer,
    ) -> (diagnostics: Vec<RuleOutcome>)
        requires
            old(self).phase == MonitorPhase::Watching,
            old(enforcer).wf(),
        ensures
            final(self).rule_set == old(self).rule_set,
            RecordingEnforcer::same_host(*old(enforcer), *final(enforcer)),
            final(enforcer).wf(),
            match event {
                WatchEvent::Live(p) => {
                    &&& final(self).phase == MonitorPhase::Watching
                    &&& final(self).stop == old(self).stop
                    &&& final(enforcer).calls@ == old(enforcer).calls@ + spec_live_event_calls(
                        old(self).rule_set.rules@,
                        p,
                        old(enforcer).core_count,
                        old(enforcer).denied@,
                    )
                    &&& diagnostics@ == spec_live_event_outcomes(
                        old(self).rule_set.rules@,
                        p,
                        old(enforcer).core_count,
                        old(enforcer).denied@,
                    )
                },
                WatchEvent::Shutdown => {
                    &&& final(self).phase == MonitorPhase::ShuttingDown
                    &&& final(self).stop == Some(StopReason::RequestedShutdown)
                    &&& *final(enforcer) == *old(enforcer)
                    &&& diagnostics@.len() == 0
                },
                WatchEvent::FeedError => {
                    &&& final(self).phase == MonitorPhase::ShuttingDown
                    &&& final(self).stop == Some(StopReason::FeedFailed)
                    &&& *final(enforcer) == *old(enforcer)
                    &&& diagnostics@.len() == 0
                },
            },
    {
        match event {
            WatchEvent::Live(process) => self.rule_set.apply(&process, enforcer),
            WatchEvent::Shutdown => {
                self.phase = MonitorPhase::ShuttingDown;
                self.stop = Some(StopReason::RequestedShutdown);
                Vec::new()
            },
            WatchEvent::FeedError => {
                self.phase = MonitorPhase::ShuttingDown;
                self.stop = Some(StopReason::FeedFailed);
                Vec::new()
            },
        }
    }

    /// Ends the run once the event source is released: a requested shutdown
    /// yields clean success, a broken feed yields the fatal error to report
    /// upward. No rule application happens here, even for live processes
    /// already in flight when the shutdown won the race.
    pub fn finish(&mut self) -> (r: Result<(), MonitorError>)
        requires
            old(self).phase == MonitorPhase::ShuttingDown,
            old(self).stop is Some,
        ensures
            final(self).rule_set == old(self).rule_set,
            final(self).stop == old(self).stop,
            final(self).phase == MonitorPhase::Terminated,
            old(self).stop == Some(StopReason::RequestedShutdown) ==> r == Ok::<
                (),
                MonitorError,
            >(()),
            old(self).stop == Some(StopReason::FeedFailed) ==> r == Err::<(), MonitorError>(
                MonitorError::FeedFailed,
            ),
    {
        self.phase = MonitorPhase::Terminated;
        match self.stop {
            Some(StopReason::RequestedShutdown) => Ok(()),
            Some(StopReason::FeedFailed) => Err(MonitorError::FeedFailed),
            None => Err(MonitorError::FeedFailed),
        }
    }
}

} // verus!
