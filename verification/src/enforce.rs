//! The policy enforcer: builds affinity masks, validates core indices
//! against the host's core count, and applies a rule's priority and
//! affinity policy to one process.
//!
//! Enforcement is modeled against a recording enforcer that holds the host
//! environment (core count, processes whose handles cannot be acquired) and
//! the ordered list of OS requests issued so far. The production host issues
//! the same requests against the OS; the recorder makes the behavior
//! deterministic and observable.

use vstd::prelude::*;

use crate::rules::spec_priority_class;
use crate::rules::spec_rule_matches;
use crate::rules::ProcessInfo;
use crate::rules::ProcessPriority;
use crate::rules::ProcessRule;
use crate::rules::ProcessRuleSet;

verus! {

/// The width of an OS affinity mask, in bits: one machine word. Hosts with
/// more cores than this are outside the model.
pub const MASK_BITS: u32 = 64;

/// One OS scheduling request, as the enforcer issues it.
#[derive(Debug, Clone, Copy, PartialEq, Eq, Structural)]
pub enum OsCall {
    SetAffinity { process_id: u32, mask: u64 },
    SetPriority { process_id: u32, class: u32 },
}

/// Why enforcing one rule on one process failed. Failures are per-rule and
/// never fatal to the caller.
#[derive(Debug, Clone, Copy, PartialEq, Eq, Structural)]
pub enum EnforceError {
    /// The process no longer exists, or access to it was denied when
    /// acquiring its handle.
    ProcessUnavailable,
    /// The rule's affinity set holds a core index at or above the host's
    /// core count.
    CoreIndexOutOfRange,
}

/// What applying one rule to one process came to; one such diagnostic is
/// produced per rule in the set.
#[derive(Debug, Clone, Copy, PartialEq, Eq, Structural)]
pub enum RuleOutcome {
    /// The rule's pattern did not match the process name; the enforcer was
    /// not invoked.
    NotMatched,
    /// The pattern matched and every requested change was issued.
    Applied,
    /// The pattern matched but enforcement failed; later rules are
    /// unaffected.
    Failed(EnforceError),
}

/// The affinity bit mask for a set of core indices: the OR of `1 << index`
/// over the set.
pub open spec fn mask_of(cores: Seq<usize>) -> u64
    decreases cores.len(),
{
    if cores.len() == 0 {
        0u64
    } else {
        mask_of(cores.drop_last()) | (1u64 << (cores.last() as u64))
    }
}

/// Whether every index in the set names a core the host has.
pub open spec fn cores_in_range(cores: Seq<usize>, core_count: u32) -> bool {
    forall|i: int| 0 <= i < cores.len() ==> (cores[i] as int) < core_count as int
}

/// Builds the affinity bit mask for a set of core indices.
pub fn affinity_mask(cores: &Vec<usize>) -> (r: u64)
    requires
        forall|i: int| 0 <= i < cores@.len() ==> (cores@[i] as int) < MASK_BITS as int,
    ensures
        r == mask_of(cores@),
{
    let mut mask: u64 = 0;
    let mut k: usize = 0;
    while k < cores.len()
        invariant
            k <= cores@.len(),
            forall|i: int| 0 <= i < cores@.len() ==> (cores@[i] as int) < MASK_BITS as int,
            mask == mask_of(cores@.take(k as int)),
        decreases cores@.len() - k,
    {
        let core: usize = cores[k];
        mask = mask | (1u64 << (core as u64));
        k = k + 1;
        proof {
            assert(cores@.take(k as int).drop_last() =~= cores@.take(k as int - 1));
            assert(cores@.take(k as int).last() == cores@[k as int - 1]);
        }
    }
    proof {
        assert(cores@.take(cores@.len() as int) =~= cores@);
    }
    mask
}

/// The result of asking the enforcer for an affinity change: an empty set
/// asks for nothing and always succeeds, an out-of-range index is an input
/// error, and otherwise the request is issued against the process handle.
pub open spec fn spec_affinity_result(
    core_count: u32,
    denied: Seq<u32>,
    pid: u32,
    cores: Seq<usize>,
) -> Result<(), EnforceError> {
    if cores.len() == 0 {
        Ok(())
    } else if !cores_in_range(cores, core_count) {
        Err(EnforceError::CoreIndexOutOfRange)
    } else if denied.contains(pid) {
        Err(EnforceError::ProcessUnavailable)
    } else {
        Ok(())
    }
}

/// The OS requests an affinity change issues: one masked request on
/// success, and none at all when the set is empty or the change fails.
pub open spec fn spec_affinity_calls(
    core_count: u32,
    denied: Seq<u32>,
    pid: u32,
    cores: Seq<usize>,
) -> Seq<OsCall> {
    if cores.len() > 0 && cores_in_range(cores, core_count) && !denied.contains(pid) {
        seq![OsCall::SetAffinity { process_id: pid, mask: mask_of(cores) }]
    } else {
        Seq::empty()
    }
}

/// The result of asking the enforcer for a priority change.
pub open spec fn spec_priority_result(denied: Seq<u32>, pid: u32) -> Result<(), EnforceError> {
    if denied.contains(pid) {
        Err(EnforceError::ProcessUnavailable)
    } else {
        Ok(())
    }
}

/// The OS requests a priority change issues.
pub open spec fn spec_priority_calls(
    denied: Seq<u32>,
    pid: u32,
    level: ProcessPriority,
) -> Seq<OsCall> {
    if denied.contains(pid) {
        Seq::empty()
    } else {
        seq![OsCall::SetPriority { process_id: pid, class: spec_priority_class(level) }]
    }
}

/// The policy enforcer over a recorded host: `core_count` is the host's
/// core count, `denied` the processes whose handles cannot be acquired,
/// and `calls` the ordered OS requests issued so far.
#[derive(Debug, Clone)]
pub struct RecordingEnforcer {
    pub core_count: u32,
    pub denied: Vec<u32>,
    pub calls: Vec<OsCall>,
}

impl RecordingEnforcer {
    /// The host description fits the model: the core count fits in one
    /// affinity mask word.
    pub open spec fn wf(self) -> bool {
        self.core_count <= MASK_BITS
    }

    /// The host environment (core count and unavailable processes) is the
    /// same in both states; only the call record may differ.
    pub open spec fn same_host(pre: Self, post: Self) -> bool {
        post.core_count == pre.core_count && post.denied@ == pre.denied@
    }

    pub fn new(core_count: u32, denied: Vec<u32>) -> (r: Self)
        requires
            core_count <= MASK_BITS,
        ensures
            r.core_count == core_count,
            r.denied@ == denied@,
            r.calls@ == Seq::<OsCall>::empty(),
            r.wf(),
    {
        RecordingEnforcer { core_count, denied, calls: Vec::new() }
    }

    /// Requests that the process run only on the given cores. An empty set
    /// issues no request and leaves the process untouched, which is distinct
    /// from issuing a zero mask; a set with an index at or above the core
    /// count is an input error and issues no request either.
    pub fn set_affinity(&mut self, pid: u32, cores: &Vec<usize>) -> (r: Result<(), EnforceError>)
        requires
            old(self).wf(),
        ensures
            Self::same_host(*old(self), *final(self)),
            final(self).wf(),
            r == spec_affinity_result(old(self).core_count, old(self).denied@, pid, cores@),
            final(self).calls@ == old(self).calls@ + spec_affinity_calls(
                old(self).core_count,
                old(self).denied@,
                pid,
                cores@,
            ),
    {
        if cores.len() == 0 {
            assert(self.calls@ =~= old(self).calls@ + spec_affinity_calls(
                old(self).core_count, old(self).denied@, pid, cores@));
            return Ok(());
        }
        if !cores_all_in_range(cores, self.core_count) {
            assert(self.calls@ =~= old(self).calls@ + spec_affinity_calls(
                old(self).core_count, old(self).denied@, pid, cores@));
            return Err(EnforceError::CoreIndexOutOfRange);
        }
        if contains_pid(&self.denied, pid) {
            assert(self.calls@ =~= old(self).calls@ + spec_affinity_calls(
                old(self).core_count, old(self).denied@, pid, cores@));
            return Err(EnforceError::ProcessUnavailable);
        }
        let mask = affinity_mask(cores);
        self.calls.push(OsCall::SetAffinity { process_id: pid, mask });
        assert(self.calls@ =~= old(self).calls@ + spec_affinity_calls(
            old(self).core_count, old(self).denied@, pid, cores@));
        Ok(())
    }

    /// Requests the OS priority class for the given level on the process.
    pub fn set_priority(&mut self, pid: u32, level: ProcessPriority) -> (r: Result<
        (),
        EnforceError,
    >)
        requires
            old(self).wf(),
        ensures
            Self::same_host(*old(self), *final(self)),
            final(self).wf(),
            r == spec_priority_result(old(self).denied@, pid),
            final(self).calls@ == old(self).calls@ + spec_priority_calls(
                old(self).denied@,
                pid,
                level,
            ),
    {
        if contains_pid(&self.denied, pid) {
            assert(self.calls@ =~= old(self).calls@ + spec_priority_calls(
                old(self).denied@, pid, level));
            return Err(EnforceError::ProcessUnavailable);
        }
        let class = level.priority_class();
        self.calls.push(OsCall::SetPriority { process_id: pid, class });
        assert(self.calls@ =~= old(self).calls@ + spec_priority_calls(
            old(self).denied@, pid, level));
        Ok(())
    }
}

/// The result of applying one rule to one process: a rule that does not
/// match succeeds without touching anything; a matching rule requests the
/// affinity change first and, only if that succeeded, the priority change.
pub open spec fn spec_rule_result(
    rule: ProcessRule,
    p: ProcessInfo,
    core_count: u32,
    denied: Seq<u32>,
) -> Result<(), EnforceError> {
    if !spec_rule_matches(rule, p.process_name@) {
        Ok(())
    } else {
        let affinity = match rule.core_affinity {
            Some(cores) => spec_affinity_result(core_count, denied, p.process_id, cores@),
            None => Ok(()),
        };
        if affinity is Err {
            affinity
        } else {
            match rule.priority {
                Some(_) => spec_priority_result(denied, p.process_id),
                None => Ok(()),
            }
        }
    }
}

/// The OS requests that applying one rule to one process issues, in order.
pub open spec fn spec_rule_calls(
    rule: ProcessRule,
    p: ProcessInfo,
    core_count: u32,
    denied: Seq<u32>,
) -> Seq<OsCall> {
    if !spec_rule_matches(rule, p.process_name@) {
        Seq::empty()
    } else {
        let affinity_calls = match rule.core_affinity {
            Some(cores) => spec_affinity_calls(core_count, denied, p.process_id, cores@),
            None => Seq::empty(),
        };
        let affinity = match rule.core_affinity {
            Some(cores) => spec_affinity_result(core_count, denied, p.process_id, cores@),
            None => Ok(()),
        };
        if affinity is Err {
            affinity_calls
        } else {
            affinity_calls + match rule.priority {
                Some(level) => spec_priority_calls(denied, p.process_id, level),
                None => Seq::empty(),
            }
        }
    }
}

/// The per-rule diagnostic that applying one rule produces.
pub open spec fn spec_rule_outcome(
    rule: ProcessRule,
    p: ProcessInfo,
    core_count: u32,
    denied: Seq<u32>,
) -> RuleOutcome {
    if !spec_rule_matches(rule, p.process_name@) {
        RuleOutcome::NotMatched
    } else {
        match spec_rule_result(rule, p, core_count, denied) {
            Ok(_) => RuleOutcome::Applied,
            Err(e) => RuleOutcome::Failed(e),
        }
    }
}

/// The OS requests that applying every rule of a set, in list order,
/// issues.
pub open spec fn spec_ruleset_calls(
    rules: Seq<ProcessRule>,
    p: ProcessInfo,
    core_count: u32,
    denied: Seq<u32>,
) -> Seq<OsCall>
    decreases rules.len(),
{
    if rules.len() == 0 {
        Seq::empty()
    } else {
        spec_ruleset_calls(rules.drop_last(), p, core_count, denied) + spec_rule_calls(
            rules.last(),
            p,
            core_count,
            denied,
        )
    }
}

/// One diagnostic per rule of the set, in list order; what the entry for a
/// rule says depends on that rule alone.
pub open spec fn spec_ruleset_outcomes(
    rules: Seq<ProcessRule>,
    p: ProcessInfo,
    core_count: u32,
    denied: Seq<u32>,
) -> Seq<RuleOutcome> {
    Seq::new(rules.len(), |i: int| spec_rule_outcome(rules[i], p, core_count, denied))
}

impl ProcessRule {
    /// Applies this rule to one observed process: if the pattern matches
    /// the process name, requests the rule's affinity change and then, only
    /// if that succeeded, the rule's priority change.
    pub fn apply(&self, process: &ProcessInfo, enforcer: &mut RecordingEnforcer) -> (r: Result<
        (),
        EnforceError,
    >)
        requires
            old(enforcer).wf(),
        ensures
            RecordingEnforcer::same_host(*old(enforcer), *final(enforcer)),
            final(enforcer).wf(),
            r == spec_rule_result(*self, *process, old(enforcer).core_count, old(enforcer).denied@),
            final(enforcer).calls@ == old(enforcer).calls@ + spec_rule_calls(
                *self,
                *process,
                old(enforcer).core_count,
                old(enforcer).denied@,
            ),
    {
        let ghost core_count = enforcer.core_count;
        let ghost denied = enforcer.denied@;
        if !self.is_match(process.process_name.as_str()) {
            assert(old(enforcer).calls@ + spec_rule_calls(*self, *process, core_count, denied)
                =~= old(enforcer).calls@);
            return Ok(());
        }
        let pid = process.process_id;
        if let Some(cores) = &self.core_affinity {
            let affinity = enforcer.set_affinity(pid, cores);
            if affinity.is_err() {
                return affinity;
            }
        }
        if let Some(level) = &self.priority {
            let r = enforcer.set_priority(pid, *level);
            proof {
                assert(enforcer.calls@ =~= old(enforcer).calls@ + spec_rule_calls(
                    *self, *process, core_count, denied));
            }
            return r;
        }
        proof {
            assert(enforcer.calls@ =~= old(enforcer).calls@ + spec_rule_calls(
                *self, *process, core_count, denied));
        }
        Ok(())
    }
}

impl ProcessRuleSet {
    /// Applies every rule of the set to one observed process, in list
    /// order, and reports one diagnostic per rule. A failure for one rule
    /// is recorded in its diagnostic and never prevents the evaluation of
    /// the later rules: the method itself reports no hard error.
    pub fn apply(&self, process: &ProcessInfo, enforcer: &mut RecordingEnforcer) -> (outcomes:
        Vec<RuleOutcome>)
        requires
            old(enforcer).wf(),
        ensures
            RecordingEnforcer::same_host(*old(enforcer), *final(enforcer)),
            final(enforcer).wf(),
            outcomes@ == spec_ruleset_outcomes(
                self.rules@,
                *process,
                old(enforcer).core_count,
                old(enforcer).denied@,
            ),
            final(enforcer).calls@ == old(enforcer).calls@ + spec_ruleset_calls(
                self.rules@,
                *process,
                old(enforcer).core_count,
                old(enforcer).denied@,
            ),
    {
        let ghost core_count = enforcer.core_count;
        let ghost denied = enforcer.denied@;
        let mut outcomes: Vec<RuleOutcome> = Vec::new();
        let mut k: usize = 0;
        while k < self.rules.len()
            invariant
                k <= self.rules@.len(),
                old(enforcer).wf(),
                enforcer.wf(),
                RecordingEnforcer::same_host(*old(enforcer), *enforcer),
                core_count == old(enforcer).core_count,
                denied == old(enforcer).denied@,
                outcomes@.len() == k,
                forall|i: int|
                    0 <= i < k ==> outcomes@[i] == spec_rule_outcome(
                        self.rules@[i],
                        *process,
                        core_count,
                        denied,
                    ),
                enforcer.calls@ == old(enforcer).calls@ + spec_ruleset_calls(
                    self.rules@.take(k as int),
                    *process,
                    core_count,
                    denied,
                ),
            decreases self.rules@.len() - k,
        {
            let rule = &self.rules[k];
            let matched = rule.is_match(process.process_name.as_str());
            let r = rule.apply(process, enforcer);
            let outcome = if !matched {
                RuleOutcome::NotMatched
            } else {
                match r {
                    Ok(_) => RuleOutcome::Applied,
                    Err(e) => RuleOutcome::Failed(e),
                }
            };
            outcomes.push(outcome);
            k = k + 1;
            proof {
                assert(self.rules@.take(k as int).drop_last() =~= self.rules@.take(k as int - 1));
                assert(self.rules@.take(k as int).last() == self.rules@[k as int - 1]);
                assert(enforcer.calls@ =~= old(enforcer).calls@ + spec_ruleset_calls(
                    self.rules@.take(k as int), *process, core_count, denied));
            }
        }
        proof {
            assert(self.rules@.take(self.rules@.len() as int) =~= self.rules@);
            assert(outcomes@ =~= spec_ruleset_outcomes(self.rules@, *process, core_count, denied));
        }
        outcomes
    }
}

/// The capability of applying a policy to one observed process against the
/// enforcer. Whatever implements it leaves the host environment itself
/// untouched: only the call record may grow.
pub trait RuleApplier<RuleInfo> {
    fn apply(&self, process: &RuleInfo, enforcer: &mut RecordingEnforcer) -> (r: Result<
        (),
        EnforceError,
    >)
        requires
            old(enforcer).wf(),
        ensures
            RecordingEnforcer::same_host(*old(enforcer), *final(enforcer)),
            final(enforcer).wf(),
    ;
}

impl RuleApplier<ProcessInfo> for ProcessRule {
    /// Applying a single rule reports that rule's own result.
    fn apply(&self, process: &ProcessInfo, enforcer: &mut RecordingEnforcer) -> (r: Result<
        (),
        EnforceError,
    >) {
        ProcessRule::apply(self, process, enforcer)
    }
}

impl RuleApplier<ProcessInfo> for ProcessRuleSet {
    /// Applying a whole set absorbs per-rule failures: best-effort
    /// enforcement never reports a hard error to its caller.
    fn apply(&self, process: &ProcessInfo, enforcer: &mut RecordingEnforcer) -> (r: Result<
        (),
        EnforceError,
    >) {
        let _ = ProcessRuleSet::apply(self, process, enforcer);
        Ok(())
    }
}

/// The requests of a concatenation of rule lists are the requests of the
/// first list followed by those of the second.
pub proof fn lemma_ruleset_calls_concat(
    a: Seq<ProcessRule>,
    b: Seq<ProcessRule>,
    p: ProcessInfo,
    core_count: u32,
    denied: Seq<u32>,
)
    ensures
        spec_ruleset_calls(a + b, p, core_count, denied) == spec_ruleset_calls(
            a,
            p,
            core_count,
            denied,
        ) + spec_ruleset_calls(b, p, core_count, denied),
    decreases b.len(),
{
    if b.len() == 0 {
        assert(a + b =~= a);
        assert(spec_ruleset_calls(a, p, core_count, denied) + spec_ruleset_calls(
            b, p, core_count, denied) =~= spec_ruleset_calls(a, p, core_count, denied));
    } else {
        lemma_ruleset_calls_concat(a, b.drop_last(), p, core_count, denied);
        assert((a + b).drop_last() =~= a + b.drop_last());
        assert((a + b).last() == b.last());
        assert(spec_ruleset_calls(a, p, core_count, denied) + (spec_ruleset_calls(
            b.drop_last(), p, core_count, denied) + spec_rule_calls(b.last(), p, core_count, denied))
            =~= (spec_ruleset_calls(a, p, core_count, denied) + spec_ruleset_calls(
            b.drop_last(), p, core_count, denied)) + spec_rule_calls(b.last(), p, core_count, denied));
    }
}

/// The requests of a one-rule list are that rule's requests.
pub proof fn lemma_ruleset_calls_singleton(
    rule: ProcessRule,
    p: ProcessInfo,
    core_count: u32,
    denied: Seq<u32>,
)
    ensures
        spec_ruleset_calls(seq![rule], p, core_count, denied) == spec_rule_calls(
            rule,
            p,
            core_count,
            denied,
        ),
{
    let m = seq![rule];
    assert(m.drop_last() =~= Seq::<ProcessRule>::empty());
    assert(spec_ruleset_calls(Seq::<ProcessRule>::empty(), p, core_count, denied)
        == Seq::<OsCall>::empty());
    assert(m.last() == rule);
    assert(spec_ruleset_calls(m, p, core_count, denied) == spec_ruleset_calls(
        m.drop_last(), p, core_count, denied) + spec_rule_calls(rule, p, core_count, denied));
    assert(Seq::<OsCall>::empty() + spec_rule_calls(rule, p, core_count, denied) =~= spec_rule_calls(
        rule, p, core_count, denied));
}

/// Applying a rule set invokes the enforcer once per rule, each rule's
/// diagnostic and requests depending on that rule alone, and the requests
/// standing in list order: what stands before rule `i`'s requests comes
/// from the rules before it, and what stands after from the rules after
/// it, regardless of how any of them fared.
pub proof fn lemma_apply_order_and_independence(
    rules: Seq<ProcessRule>,
    p: ProcessInfo,
    core_count: u32,
    denied: Seq<u32>,
    i: int,
)
    requires
        0 <= i < rules.len(),
    ensures
        spec_ruleset_outcomes(rules, p, core_count, denied).len() == rules.len(),
        spec_ruleset_outcomes(rules, p, core_count, denied)[i] == spec_rule_outcome(
            rules[i],
            p,
            core_count,
            denied,
        ),
        (spec_ruleset_outcomes(rules, p, core_count, denied)[i] is NotMatched) <==> !spec_rule_matches(
            rules[i],
            p.process_name@,
        ),
        spec_ruleset_calls(rules, p, core_count, denied) == spec_ruleset_calls(
            rules.subrange(0, i),
            p,
            core_count,
            denied,
        ) + spec_rule_calls(rules[i], p, core_count, denied) + spec_ruleset_calls(
            rules.subrange(i + 1, rules.len() as int),
            p,
            core_count,
            denied,
        ),
{
    let a = rules.subrange(0, i);
    let m = seq![rules[i]];
    let b = rules.subrange(i + 1, rules.len() as int);
    assert(rules =~= (a + m) + b);
    lemma_ruleset_calls_concat(a + m, b, p, core_count, denied);
    lemma_ruleset_calls_concat(a, m, p, core_count, denied);
    lemma_ruleset_calls_singleton(rules[i], p, core_count, denied);
}

/// A rule whose affinity set names a core the host does not have fails for
/// that rule alone: its diagnostic is the input error, it issues no OS
/// request, and the set's requests are exactly those of the set without
/// it — every other rule, and every other process, is unaffected.
pub proof fn lemma_out_of_range_core_isolated(
    rules: Seq<ProcessRule>,
    p: ProcessInfo,
    core_count: u32,
    denied: Seq<u32>,
    i: int,
)
    requires
        0 <= i < rules.len(),
        spec_rule_matches(rules[i], p.process_name@),
        rules[i].core_affinity is Some,
        rules[i].core_affinity->0@.len() > 0,
        !cores_in_range(rules[i].core_affinity->0@, core_count),
    ensures
        spec_ruleset_outcomes(rules, p, core_count, denied)[i] == RuleOutcome::Failed(
            EnforceError::CoreIndexOutOfRange,
        ),
        spec_rule_calls(rules[i], p, core_count, denied) == Seq::<OsCall>::empty(),
        spec_ruleset_calls(rules, p, core_count, denied) == spec_ruleset_calls(
            rules.remove(i),
            p,
            core_count,
            denied,
        ),
{
    lemma_apply_order_and_independence(rules, p, core_count, denied, i);
    let a = rules.subrange(0, i);
    let b = rules.subrange(i + 1, rules.len() as int);
    assert(spec_rule_calls(rules[i], p, core_count, denied) =~= Seq::<OsCall>::empty());
    lemma_ruleset_calls_concat(a, b, p, core_count, denied);
    assert(rules.remove(i) =~= a + b);
    assert(spec_ruleset_calls(a, p, core_count, denied) + spec_rule_calls(
        rules[i], p, core_count, denied) =~= spec_ruleset_calls(a, p, core_count, denied));
}

/// An absent or empty core-affinity set issues no affinity request at all:
/// the process's affinity is left untouched, which is distinct from
/// requesting a zero mask.
pub proof fn lemma_empty_affinity_no_affinity_call(
    rule: ProcessRule,
    p: ProcessInfo,
    core_count: u32,
    denied: Seq<u32>,
)
    requires
        rule.core_affinity is None || rule.core_affinity->0@.len() == 0,
    ensures
        forall|k: int|
            0 <= k < spec_rule_calls(rule, p, core_count, denied).len() ==> !(spec_rule_calls(
                rule,
                p,
                core_count,
                denied,
            )[k] is SetAffinity),
{
}

/// Whether a request is a priority change for the given process.
pub open spec fn spec_is_priority_call_for(call: OsCall, pid: u32) -> bool {
    match call {
        OsCall::SetPriority { process_id, .. } => process_id == pid,
        _ => false,
    }
}

/// The priority class a request record leaves the process at: the class of
/// the last priority change requested for it, if any was.
pub open spec fn spec_last_priority(calls: Seq<OsCall>, pid: u32) -> Option<u32>
    decreases calls.len(),
{
    if calls.len() == 0 {
        None
    } else {
        match calls.last() {
            OsCall::SetPriority { process_id, class } => if process_id == pid {
                Some(class)
            } else {
                spec_last_priority(calls.drop_last(), pid)
            },
            _ => spec_last_priority(calls.drop_last(), pid),
        }
    }
}

/// Whether applying a rule reaches its priority request: the rule matches,
/// asks for a priority, the process handle can be acquired, and the rule's
/// affinity change (if any) succeeded first.
pub open spec fn spec_writes_priority(
    rule: ProcessRule,
    p: ProcessInfo,
    core_count: u32,
    denied: Seq<u32>,
) -> bool {
    &&& spec_rule_matches(rule, p.process_name@)
    &&& rule.priority is Some
    &&& !denied.contains(p.process_id)
    &&& match rule.core_affinity {
        Some(cores) => spec_affinity_result(core_count, denied, p.process_id, cores@) is Ok,
        None => true,
    }
}

/// Appending requests that change no priority for the process leaves its
/// last priority unchanged.
proof fn lemma_last_priority_append_none(a: Seq<OsCall>, b: Seq<OsCall>, pid: u32)
    requires
        forall|i: int| 0 <= i < b.len() ==> !spec_is_priority_call_for(b[i], pid),
    ensures
        spec_last_priority(a + b, pid) == spec_last_priority(a, pid),
    decreases b.len(),
{
    if b.len() == 0 {
        assert(a + b =~= a);
    } else {
        assert(!spec_is_priority_call_for(b.last(), pid));
        assert((a + b).drop_last() =~= a + b.drop_last());
        assert((a + b).last() == b.last());
        lemma_last_priority_append_none(a, b.drop_last(), pid);
    }
}

/// Appending requests that end in a priority change for the process makes
/// that change its last priority.
proof fn lemma_last_priority_append_writer(a: Seq<OsCall>, b: Seq<OsCall>, pid: u32, class: u32)
    requires
        b.len() > 0,
        b.last() == (OsCall::SetPriority { process_id: pid, class }),
    ensures
        spec_last_priority(a + b, pid) == Some(class),
{
    assert((a + b).last() == b.last());
}

/// A rule that does not reach its priority request contributes no priority
/// change for the process.
proof fn lemma_non_writer_calls(rule: ProcessRule, p: ProcessInfo, core_count: u32, denied: Seq<u32>)
    requires
        !spec_writes_priority(rule, p, core_count, denied),
    ensures
        forall|i: int|
            0 <= i < spec_rule_calls(rule, p, core_count, denied).len()
                ==> !spec_is_priority_call_for(
                spec_rule_calls(rule, p, core_count, denied)[i],
                p.process_id,
            ),
{
    let calls = spec_rule_calls(rule, p, core_count, denied);
    assert forall|i: int| 0 <= i < calls.len() implies !spec_is_priority_call_for(
        calls[i],
        p.process_id,
    ) by {
        if spec_rule_matches(rule, p.process_name@) {
            match rule.core_affinity {
                Some(cores) => {
                    assert(spec_affinity_calls(core_count, denied, p.process_id, cores@).len()
                        <= 1);
                },
                None => {},
            }
        }
    }
}

/// A rule that reaches its priority request ends its contribution with it.
proof fn lemma_writer_calls(rule: ProcessRule, p: ProcessInfo, core_count: u32, denied: Seq<u32>)
    requires
        spec_writes_priority(rule, p, core_count, denied),
    ensures
        spec_rule_calls(rule, p, core_count, denied).len() > 0,
        spec_rule_calls(rule, p, core_count, denied).last() == (OsCall::SetPriority {
            process_id: p.process_id,
            class: spec_priority_class(rule.priority->0),
        }),
{
}

/// Last writer wins: when rule `j` is the last rule of the set that
/// reaches a priority request for the process, the priority the whole
/// application leaves the process at is rule `j`'s — whatever the earlier
/// rules requested.
pub proof fn lemma_last_writer_wins(
    rules: Seq<ProcessRule>,
    p: ProcessInfo,
    core_count: u32,
    denied: Seq<u32>,
    j: int,
)
    requires
        0 <= j < rules.len(),
        spec_writes_priority(rules[j], p, core_count, denied),
        forall|k: int|
            j < k < rules.len() ==> !spec_writes_priority(rules[k], p, core_count, denied),
    ensures
        spec_last_priority(spec_ruleset_calls(rules, p, core_count, denied), p.process_id)
            == Some(spec_priority_class(rules[j].priority->0)),
    decreases rules.len(),
{
    let pid = p.process_id;
    let prefix = spec_ruleset_calls(rules.drop_last(), p, core_count, denied);
    let last_calls = spec_rule_calls(rules.last(), p, core_count, denied);
    if j == rules.len() - 1 {
        lemma_writer_calls(rules[j], p, core_count, denied);
        lemma_last_priority_append_writer(
            prefix,
            last_calls,
            pid,
            spec_priority_class(rules[j].priority->0),
        );
    } else {
        assert(!spec_writes_priority(rules.last(), p, core_count, denied));
        lemma_non_writer_calls(rules.last(), p, core_count, denied);
        lemma_last_priority_append_none(prefix, last_calls, pid);
        assert(rules.drop_last()[j] == rules[j]);
        assert forall|k: int|
            j < k < rules.drop_last().len() implies !spec_writes_priority(
            rules.drop_last()[k],
            p,
            core_count,
            denied,
        ) by {
            assert(rules.drop_last()[k] == rules[k]);
        }
        lemma_last_writer_wins(rules.drop_last(), p, core_count, denied, j);
    }
}

/// Whether every index in the vector is below the host's core count.
fn cores_all_in_range(cores: &Vec<usize>, core_count: u32) -> (r: bool)
    ensures
        r == cores_in_range(cores@, core_count),
{
    let mut k: usize = 0;
    while k < cores.len()
        invariant
            k <= cores@.len(),
            forall|i: int| 0 <= i < k ==> (cores@[i] as int) < core_count as int,
        decreases cores@.len() - k,
    {
        if !(cores[k] < core_count as usize) {
            return false;
        }
        k = k + 1;
    }
    true
}

/// Whether the process identifier occurs in the vector.
fn contains_pid(pids: &Vec<u32>, pid: u32) -> (r: bool)
    ensures
        r == pids@.contains(pid),
{
    let mut k: usize = 0;
    while k < pids.len()
        invariant
            k <= pids@.len(),
            forall|i: int| 0 <= i < k ==> pids@[i] != pid,
        decreases pids@.len() - k,
    {
        if pids[k] == pid {
            return true;
        }
        k = k + 1;
    }
    false
}

} // verus!
