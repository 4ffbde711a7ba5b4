//! The rule model: priority levels, pattern-to-policy rules, ordered rule
//! sets, and the per-observation process description.

use vstd::prelude::*;

use crate::pattern::pattern_compiles;
use crate::pattern::pattern_is_match;
use crate::pattern::pattern_is_valid;
use crate::pattern::pattern_matches;

verus! {

/// A process priority level, ordered by OS scheduling weight.
///
/// The enumeration is closed: exactly these six levels exist, and absence of
/// a priority policy is expressed by an `Option` at the rule level, never by
/// an extra variant here.
#[derive(Debug, Clone, Copy, PartialEq, Eq, Structural)]
pub enum ProcessPriority {
    Realtime,
    High,
    AboveNormal,
    Normal,
    BelowNormal,
    Low,
}

/// The OS priority-class code that a level maps to.
///
/// The mapping is total: every level has a class, and no two levels share
/// one (see `lemma_priority_class_injective`).
pub open spec fn spec_priority_class(p: ProcessPriority) -> u32 {
    match p {
        ProcessPriority::Realtime => 0x100u32,
        ProcessPriority::High => 0x80u32,
        ProcessPriority::AboveNormal => 0x8000u32,
        ProcessPriority::Normal => 0x20u32,
        ProcessPriority::BelowNormal => 0x4000u32,
        ProcessPriority::Low => 0x40u32,
    }
}

/// The canonical lowercase name of a level, as the rule file writes it.
pub open spec fn spec_priority_name(p: ProcessPriority) -> Seq<char> {
    match p {
        ProcessPriority::Realtime => "realtime"@,
        ProcessPriority::High => "high"@,
        ProcessPriority::AboveNormal => "abovenormal"@,
        ProcessPriority::Normal => "normal"@,
        ProcessPriority::BelowNormal => "belownormal"@,
        ProcessPriority::Low => "low"@,
    }
}

/// The level named by a canonical lowercase name; anything else parses to
/// nothing, it never defaults.
pub open spec fn spec_parse_priority(s: Seq<char>) -> Option<ProcessPriority> {
    if s == "realtime"@ {
        Some(ProcessPriority::Realtime)
    } else if s == "high"@ {
        Some(ProcessPriority::High)
    } else if s == "abovenormal"@ {
        Some(ProcessPriority::AboveNormal)
    } else if s == "normal"@ {
        Some(ProcessPriority::Normal)
    } else if s == "belownormal"@ {
        Some(ProcessPriority::BelowNormal)
    } else if s == "low"@ {
        Some(ProcessPriority::Low)
    } else {
        None
    }
}

/// The display label of a level, as the rule editor's selection shows it.
pub open spec fn spec_priority_label(p: ProcessPriority) -> Seq<char> {
    match p {
        ProcessPriority::Realtime => "Realtime"@,
        ProcessPriority::High => "High"@,
        ProcessPriority::AboveNormal => "AboveNormal"@,
        ProcessPriority::Normal => "Normal"@,
        ProcessPriority::BelowNormal => "BelowNormal"@,
        ProcessPriority::Low => "Low"@,
    }
}

/// The level a display label stands for; anything else, including the
/// editor's no-priority choice, stands for no level.
pub open spec fn spec_priority_from_label(s: Seq<char>) -> Option<ProcessPriority> {
    if s == "Realtime"@ {
        Some(ProcessPriority::Realtime)
    } else if s == "High"@ {
        Some(ProcessPriority::High)
    } else if s == "AboveNormal"@ {
        Some(ProcessPriority::AboveNormal)
    } else if s == "Normal"@ {
        Some(ProcessPriority::Normal)
    } else if s == "BelowNormal"@ {
        Some(ProcessPriority::BelowNormal)
    } else if s == "Low"@ {
        Some(ProcessPriority::Low)
    } else {
        None
    }
}

/// String equality over the character sequences of two string slices.
fn str_eq(a: &str, b: &str) -> (r: bool)
    ensures
        r == (a@ == b@),
{
    let sa: String = a.to_owned();
    let sb: String = b.to_owned();
    sa == sb
}

impl ProcessPriority {
    /// The OS priority-class code for this level.
    pub fn priority_class(&self) -> (r: u32)
        ensures
            r == spec_priority_class(*self),
    {
        match self {
            ProcessPriority::Realtime => 0x100u32,
            ProcessPriority::High => 0x80u32,
            ProcessPriority::AboveNormal => 0x8000u32,
            ProcessPriority::Normal => 0x20u32,
            ProcessPriority::BelowNormal => 0x4000u32,
            ProcessPriority::Low => 0x40u32,
        }
    }

    /// Parses a canonical lowercase priority name; an unrecognized name
    /// yields `None`, never a default level.
    pub fn parse(name: &str) -> (r: Option<ProcessPriority>)
        ensures
            r == spec_parse_priority(name@),
    {
        if str_eq(name, "realtime") {
            Some(ProcessPriority::Realtime)
        } else if str_eq(name, "high") {
            Some(ProcessPriority::High)
        } else if str_eq(name, "abovenormal") {
            Some(ProcessPriority::AboveNormal)
        } else if str_eq(name, "normal") {
            Some(ProcessPriority::Normal)
        } else if str_eq(name, "belownormal") {
            Some(ProcessPriority::BelowNormal)
        } else if str_eq(name, "low") {
            Some(ProcessPriority::Low)
        } else {
            None
        }
    }

    /// The canonical lowercase name of this level.
    pub fn name(&self) -> (r: String)
        ensures
            r@ == spec_priority_name(*self),
    {
        match self {
            ProcessPriority::Realtime => "realtime".to_owned(),
            ProcessPriority::High => "high".to_owned(),
            ProcessPriority::AboveNormal => "abovenormal".to_owned(),
            ProcessPriority::Normal => "normal".to_owned(),
            ProcessPriority::BelowNormal => "belownormal".to_owned(),
            ProcessPriority::Low => "low".to_owned(),
        }
    }

    /// The display label of this level, for the rule editor's selection.
    pub fn label(&self) -> (r: String)
        ensures
            r@ == spec_priority_label(*self),
    {
        match self {
            ProcessPriority::Realtime => "Realtime".to_owned(),
            ProcessPriority::High => "High".to_owned(),
            ProcessPriority::AboveNormal => "AboveNormal".to_owned(),
            ProcessPriority::Normal => "Normal".to_owned(),
            ProcessPriority::BelowNormal => "BelowNormal".to_owned(),
            ProcessPriority::Low => "Low".to_owned(),
        }
    }

    /// The level the rule editor's selected label stands for; an
    /// unrecognized label, including the no-priority choice, stands for no
    /// level.
    pub fn from_label(label: &str) -> (r: Option<ProcessPriority>)
        ensures
            r == spec_priority_from_label(label@),
    {
        if str_eq(label, "Realtime") {
            Some(ProcessPriority::Realtime)
        } else if str_eq(label, "High") {
            Some(ProcessPriority::High)
        } else if str_eq(label, "AboveNormal") {
            Some(ProcessPriority::AboveNormal)
        } else if str_eq(label, "Normal") {
            Some(ProcessPriority::Normal)
        } else if str_eq(label, "BelowNormal") {
            Some(ProcessPriority::BelowNormal)
        } else if str_eq(label, "Low") {
            Some(ProcessPriority::Low)
        } else {
            None
        }
    }

    /// Every level, in descending order of scheduling weight, as the rule
    /// editor lists them.
    pub fn all() -> (r: Vec<ProcessPriority>)
        ensures
            r@ == seq![
                ProcessPriority::Realtime,
                ProcessPriority::High,
                ProcessPriority::AboveNormal,
                ProcessPriority::Normal,
                ProcessPriority::BelowNormal,
                ProcessPriority::Low,
            ],
    {
        let mut levels: Vec<ProcessPriority> = Vec::new();
        levels.push(ProcessPriority::Realtime);
        levels.push(ProcessPriority::High);
        levels.push(ProcessPriority::AboveNormal);
        levels.push(ProcessPriority::Normal);
        levels.push(ProcessPriority::BelowNormal);
        levels.push(ProcessPriority::Low);
        proof {
            assert(levels@ =~= seq![
                ProcessPriority::Realtime,
                ProcessPriority::High,
                ProcessPriority::AboveNormal,
                ProcessPriority::Normal,
                ProcessPriority::BelowNormal,
                ProcessPriority::Low,
            ]);
        }
        levels
    }
}

/// No two levels map to the same OS priority-class code.
pub proof fn lemma_priority_class_injective(a: ProcessPriority, b: ProcessPriority)
    ensures
        spec_priority_class(a) == spec_priority_class(b) ==> a == b,
{
}

/// A name parses to a level exactly when it is one of the six canonical
/// lowercase names: parsing is exhaustive over the six levels and admits
/// nothing else.
pub proof fn lemma_parse_priority_exact(s: Seq<char>)
    ensures
        (spec_parse_priority(s) is Some) <==> (s == "realtime"@ || s == "high"@
            || s == "abovenormal"@ || s == "normal"@ || s == "belownormal"@ || s == "low"@),
{
}

/// Writing a level's canonical name and parsing it back returns the same
/// level: the name-to-level mapping is total and unambiguous.
pub proof fn lemma_priority_name_round_trip(p: ProcessPriority)
    ensures
        spec_parse_priority(spec_priority_name(p)) == Some(p),
{
    reveal_strlit("realtime");
    reveal_strlit("high");
    reveal_strlit("abovenormal");
    reveal_strlit("normal");
    reveal_strlit("belownormal");
    reveal_strlit("low");
    assert("realtime"@.len() == 8);
    assert("high"@.len() == 4);
    assert("abovenormal"@.len() == 11);
    assert("normal"@.len() == 6);
    assert("belownormal"@.len() == 11);
    assert("low"@.len() == 3);
    assert("abovenormal"@[0] == 'a');
    assert("belownormal"@[0] == 'b');
    assert("abovenormal"@ != "belownormal"@);
}

/// A level's display label and parsing it back agree: the label-to-level
/// mapping is total and unambiguous.
pub proof fn lemma_priority_label_round_trip(p: ProcessPriority)
    ensures
        spec_priority_from_label(spec_priority_label(p)) == Some(p),
{
    reveal_strlit("Realtime");
    reveal_strlit("High");
    reveal_strlit("AboveNormal");
    reveal_strlit("Normal");
    reveal_strlit("BelowNormal");
    reveal_strlit("Low");
    assert("Realtime"@.len() == 8);
    assert("High"@.len() == 4);
    assert("AboveNormal"@.len() == 11);
    assert("Normal"@.len() == 6);
    assert("BelowNormal"@.len() == 11);
    assert("Low"@.len() == 3);
    assert("AboveNormal"@[0] == 'A');
    assert("BelowNormal"@[0] == 'B');
    assert("AboveNormal"@ != "BelowNormal"@);
}

/// One pattern-to-policy mapping: processes whose name the pattern matches
/// anywhere get the optional priority level and the optional core-affinity
/// set applied.
#[derive(Debug, Clone)]
pub struct ProcessRule {
    pub pattern: String,
    pub priority: Option<ProcessPriority>,
    pub core_affinity: Option<Vec<usize>>,
}

/// Whether a rule selects a process of the given name: its pattern compiles
/// and matches somewhere in the name.
pub open spec fn spec_rule_matches(rule: ProcessRule, name: Seq<char>) -> bool {
    pattern_compiles(rule.pattern@) && pattern_matches(rule.pattern@, name)
}

impl ProcessRule {
    /// Whether this rule's pattern compiles; a rule set is loadable only
    /// when every pattern does.
    pub fn pattern_ok(&self) -> (r: bool)
        ensures
            r == pattern_compiles(self.pattern@),
    {
        pattern_is_valid(self.pattern.as_str())
    }

    /// Whether this rule selects a process of the given name.
    pub fn is_match(&self, process_name: &str) -> (r: bool)
        ensures
            r == spec_rule_matches(*self, process_name@),
    {
        pattern_is_match(self.pattern.as_str(), process_name)
    }
}

impl Default for ProcessRule {
    /// A freshly added rule: a pattern that matches every name, no priority
    /// and no affinity policy.
    fn default() -> (r: Self)
        ensures
            r.pattern@ == "\\w*"@,
            r.priority is None,
            r.core_affinity is None,
    {
        ProcessRule { pattern: "\\w*".to_owned(), priority: None, core_affinity: None }
    }
}

/// An ordered sequence of rules; the order is semantically significant:
/// all matching rules are applied in list order, so a later rule's policy
/// overwrites an earlier one's for the same attribute.
#[derive(Debug, Clone)]
pub struct ProcessRuleSet {
    pub rules: Vec<ProcessRule>,
}

impl Default for ProcessRuleSet {
    /// The empty rule set: enforcement proceeds as a no-op.
    fn default() -> (r: Self)
        ensures
            r.rules@.len() == 0,
    {
        ProcessRuleSet { rules: Vec::new() }
    }
}

impl ProcessRuleSet {
    /// Appends a rule at the end of the list.
    pub fn push_rule(&mut self, rule: ProcessRule)
        ensures
            final(self).rules@ == old(self).rules@.push(rule),
    {
        self.rules.push(rule);
    }

    /// Replaces the rule at `index`, keeping every other rule in place.
    pub fn replace_rule(&mut self, index: usize, rule: ProcessRule)
        requires
            index < old(self).rules@.len(),
        ensures
            final(self).rules@ == old(self).rules@.update(index as int, rule),
    {
        self.rules.set(index, rule);
    }

    /// Checks that every pattern in the set compiles: an unparseable pattern
    /// is a load-time error, reported as the index of the first offender,
    /// never silently ignored.
    pub fn validate(&self) -> (r: Result<(), usize>)
        ensures
            (r is Ok) <==> (forall|i: int|
                0 <= i < self.rules@.len() ==> pattern_compiles(self.rules@[i].pattern@)),
            r matches Err(i) ==> i < self.rules@.len()
                && !pattern_compiles(self.rules@[i as int].pattern@)
                && (forall|j: int| 0 <= j < i ==> pattern_compiles(self.rules@[j].pattern@)),
    {
        let mut k: usize = 0;
        while k < self.rules.len()
            invariant
                k <= self.rules@.len(),
                forall|j: int| 0 <= j < k ==> pattern_compiles(self.rules@[j].pattern@),
            decreases self.rules@.len() - k,
        {
            if !self.rules[k].pattern_ok() {
                return Err(k);
            }
            k += 1;
        }
        Ok(())
    }

    /// Removes the rule at `index`, shifting the later rules forward.
    pub fn remove_rule(&mut self, index: usize)
        requires
            index < old(self).rules@.len(),
        ensures
            final(self).rules@ == old(self).rules@.remove(index as int),
    {
        let _ = self.rules.remove(index);
    }
}

/// One observation of a running process: the OS-assigned identifier and the
/// process name. The value has no identity beyond a single
/// match-and-apply cycle.
#[derive(Debug, Clone)]
pub struct ProcessInfo {
    pub process_id: u32,
    pub process_name: String,
}

impl ProcessInfo {
    pub fn new(process_id: u32, process_name: String) -> (r: Self)
        ensures
            r.process_id == process_id,
            r.process_name == process_name,
    {
        ProcessInfo { process_id, process_name }
    }
}

} // verus!
