//! The rule editor's core-selection logic: which cores a rule's affinity
//! set marks, and how toggling one core's checkbox turns into a new
//! affinity set.

use vstd::prelude::*;

verus! {

/// A rule's affinity selection as the editor shows it: the optional set of
/// selected core indices, and whether the view allows changes.
#[derive(Debug, Clone)]
pub struct ProcessAffinity {
    pub affinity: Option<Vec<usize>>,
    pub allow_change: bool,
}

/// Whether core `i` is marked by an affinity set: an absent set leaves the
/// process on every core, so every core counts as marked.
pub open spec fn spec_marked(affinity: Option<Vec<usize>>, i: int) -> bool {
    match affinity {
        None => true,
        Some(v) => exists|j: int| 0 <= j < v@.len() && v@[j] as int == i,
    }
}

/// The per-core selection flags after toggling core `idx` to `checked`.
pub open spec fn spec_toggled_flags(
    affinity: Option<Vec<usize>>,
    core_count: int,
    idx: int,
    checked: bool,
) -> Seq<bool> {
    Seq::new(core_count as nat, |i: int| if i == idx { checked } else { spec_marked(affinity, i) })
}

/// The indices of the set flags, in ascending order.
pub open spec fn spec_selected(flags: Seq<bool>) -> Seq<usize>
    decreases flags.len(),
{
    if flags.len() == 0 {
        Seq::empty()
    } else {
        spec_selected(flags.drop_last()) + if flags.last() {
            seq![(flags.len() - 1) as usize]
        } else {
            Seq::empty()
        }
    }
}

/// The affinity set that a toggle produces: deselecting the last core
/// falls back to core zero alone, selecting every core means no
/// restriction at all, and anything in between is the selected indices.
pub open spec fn spec_new_affinity(
    affinity: Option<Vec<usize>>,
    core_count: int,
    idx: int,
    checked: bool,
) -> Option<Seq<usize>> {
    let selected = spec_selected(spec_toggled_flags(affinity, core_count, idx, checked));
    if selected.len() == 0 {
        Some(seq![0usize])
    } else if selected.len() == core_count {
        None
    } else {
        Some(selected)
    }
}

/// The core `i` is flagged in the editor's initial view: every core for an
/// absent set, core zero alone for a present but empty set, and the marked
/// cores otherwise.
pub open spec fn spec_initial_flag(affinity: Option<Vec<usize>>, i: int) -> bool {
    match affinity {
        None => true,
        Some(v) => if v@.len() == 0 {
            i == 0
        } else {
            spec_marked(affinity, i)
        },
    }
}

/// One selection flag per core, set for exactly the marked cores.
fn affinity_flags(affinity: &Option<Vec<usize>>, core_count: usize) -> (flags: Vec<bool>)
    requires
        (*affinity) matches Some(v) ==> forall|j: int|
            0 <= j < v@.len() ==> (v@[j] as int) < core_count as int,
    ensures
        flags@.len() == core_count,
        forall|i: int| 0 <= i < core_count ==> flags@[i] == spec_marked(*affinity, i),
{
    let is_none = affinity.is_none();
    let mut flags: Vec<bool> = Vec::new();
    let mut i: usize = 0;
    while i < core_count
        invariant
            i <= core_count,
            flags@.len() == i,
            is_none == ((*affinity) is None),
            forall|t: int| 0 <= t < i ==> flags@[t] == is_none,
        decreases core_count - i,
    {
        flags.push(is_none);
        i = i + 1;
    }
    if let Some(v) = affinity {
        let mut j: usize = 0;
        while j < v.len()
            invariant
                j <= v@.len(),
                flags@.len() == core_count,
                (*affinity) == Some(*v),
                forall|u: int| 0 <= u < v@.len() ==> (v@[u] as int) < core_count as int,
                forall|t: int|
                    0 <= t < core_count ==> flags@[t] == exists|u: int|
                        0 <= u < j && v@[u] as int == t,
            decreases v@.len() - j,
        {
            let core: usize = v[j];
            flags.set(core, true);
            j = j + 1;
            proof {
                assert forall|t: int| 0 <= t < core_count implies flags@[t] == exists|u: int|
                    0 <= u < j && v@[u] as int == t by {
                    if t == v@[j - 1] as int {
                        assert(v@[j - 1] as int == t);
                    }
                }
            }
        }
    }
    flags
}

impl ProcessAffinity {
    /// The affinity set after the user toggles core `idx` to `checked` in
    /// a host of `core_count` cores: the selection flags are recomputed
    /// from the current set, the one flag is flipped, and the flagged
    /// indices become the new set — with the empty selection falling back
    /// to core zero, and the full selection meaning no restriction.
    pub fn compute_new_affinity_vector(&self, idx: usize, checked: bool, core_count: usize) -> (r:
        Option<Vec<usize>>)
        requires
            idx < core_count,
            self.affinity matches Some(v) ==> forall|j: int|
                0 <= j < v@.len() ==> (v@[j] as int) < core_count as int,
        ensures
            (r is Some) <==> (spec_new_affinity(
                self.affinity,
                core_count as int,
                idx as int,
                checked,
            ) is Some),
            r matches Some(rv) ==> rv@ == spec_new_affinity(
                self.affinity,
                core_count as int,
                idx as int,
                checked,
            )->0,
    {
        let mut flags = affinity_flags(&self.affinity, core_count);
        flags.set(idx, checked);
        proof {
            assert(flags@ =~= spec_toggled_flags(
                self.affinity, core_count as int, idx as int, checked));
        }
        let mut selected: Vec<usize> = Vec::new();
        let mut t: usize = 0;
        while t < core_count
            invariant
                t <= core_count,
                flags@.len() == core_count,
                flags@ == spec_toggled_flags(self.affinity, core_count as int, idx as int, checked),
                selected@ == spec_selected(flags@.take(t as int)),
            decreases core_count - t,
        {
            if flags[t] {
                selected.push(t);
            }
            t = t + 1;
            proof {
                assert(flags@.take(t as int).drop_last() =~= flags@.take(t as int - 1));
                assert(flags@.take(t as int).last() == flags@[t as int - 1]);
                assert(selected@ =~= spec_selected(flags@.take(t as int)));
            }
        }
        proof {
            assert(flags@.take(core_count as int) =~= flags@);
        }
        if selected.len() == 0 {
            let mut fallback: Vec<usize> = Vec::new();
            fallback.push(0);
            proof {
                assert(fallback@ =~= seq![0usize]);
            }
            Some(fallback)
        } else if selected.len() == core_count {
            None
        } else {
            Some(selected)
        }
    }
}

/// The editor's initial per-core selection flags for a rule: every core
/// flagged when no affinity set exists, core zero alone for an empty set,
/// and the set's cores otherwise.
pub fn process_affinity(props: &ProcessAffinity, core_count: usize) -> (flags: Vec<bool>)
    requires
        core_count >= 1,
        props.affinity matches Some(v) ==> forall|j: int|
            0 <= j < v@.len() ==> (v@[j] as int) < core_count as int,
    ensures
        flags@.len() == core_count,
        forall|i: int| 0 <= i < core_count ==> flags@[i] == spec_initial_flag(props.affinity, i),
{
    let mut flags = affinity_flags(&props.affinity, core_count);
    if let Some(v) = &props.affinity {
        if v.len() == 0 {
            flags.set(0, true);
        }
    }
    proof {
        assert forall|i: int|
            0 <= i < core_count implies flags@[i] == spec_initial_flag(props.affinity, i) by {
            match props.affinity {
                None => {
                    assert(spec_marked(props.affinity, i));
                },
                Some(v) => {
                    if v@.len() == 0 {
                        if i != 0 {
                            assert(!spec_marked(props.affinity, i));
                        }
                    } else {
                        assert(spec_initial_flag(props.affinity, i) == spec_marked(
                            props.affinity, i));
                    }
                },
            }
        }
    }
    flags
}

/// Relies on sys_info::cpu_num: the host's logical processor count, as the
/// host reports it; the answer depends on the machine the call runs on.
#[verifier::external_body]
fn cpu_num_raw() -> (r: Option<u32>) {
    sys_info::cpu_num().ok()
}

/// The host's core count, when the host reports a usable one: a report of
/// zero cores counts as no report at all, so callers can rely on at least
/// one core existing.
pub fn detected_core_count() -> (r: Option<u32>)
    ensures
        r matches Some(n) ==> n >= 1,
{
    match cpu_num_raw() {
        Some(n) => if n >= 1 {
            Some(n)
        } else {
            None
        },
        None => None,
    }
}

} // verus!
