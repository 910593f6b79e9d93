//! The up-front check that the external executables can be invoked.
//!
//! The caller probes every required executable and classifies what came of
//! it. The verdict on the probes is given here: all present, some missing
//! (all of them named, not just the first), or a probe that failed for
//! another reason than a missing executable, which is a different and graver
//! error.

use vstd::prelude::*;
use vstd::string::*;

verus! {

/// What came of invoking one executable.
#[derive(Clone, Copy, Debug, PartialEq, Eq, Structural)]
pub enum ProbeOutcome {
    /// The executable ran.
    Present,
    /// The operating system found no such executable.
    Absent,
    /// The invocation failed for any other reason.
    Indeterminate,
}

/// One probed executable.
#[derive(Clone, Debug, PartialEq, Eq)]
pub struct Probe {
    pub name: String,
    pub outcome: ProbeOutcome,
}

/// Why the dependency check failed.
#[derive(Clone, Debug, PartialEq, Eq)]
pub enum DependencyError {
    /// These executables were not found; every absent one is named, in the
    /// order of the probes.
    Missing { names: Vec<String> },
    /// Probing this executable failed for a reason other than its absence.
    Indeterminate { name: String },
}

/// The names of the absent executables among `probes`, in order.
pub open spec fn absent_names(probes: Seq<Probe>) -> Seq<Seq<char>>
    decreases probes.len(),
{
    if probes.len() == 0 {
        Seq::empty()
    } else if probes.last().outcome == ProbeOutcome::Absent {
        absent_names(probes.drop_last()).push(probes.last().name@)
    } else {
        absent_names(probes.drop_last())
    }
}

/// Whether no probe among the first `upto` is indeterminate.
pub open spec fn determinate_before(probes: Seq<Probe>, upto: int) -> bool {
    forall|j: int| 0 <= j < upto && j < probes.len() ==> (#[trigger] probes[j]).outcome
        != ProbeOutcome::Indeterminate
}

/// Whether probe `i` is the first indeterminate one.
pub open spec fn first_indeterminate(probes: Seq<Probe>, i: int) -> bool {
    &&& 0 <= i < probes.len()
    &&& probes[i].outcome == ProbeOutcome::Indeterminate
    &&& determinate_before(probes, i)
}

/// Whether some probe among `probes` found the executable `name` absent.
pub open spec fn found_absent(probes: Seq<Probe>, name: Seq<char>) -> bool {
    exists|i: int|
        0 <= i < probes.len() && (#[trigger] probes[i]).outcome == ProbeOutcome::Absent
            && probes[i].name@ == name
}

/// The names reported as missing are those of the absent executables and no
/// others: every absent probe is named, and every name belongs to an absent
/// probe.
pub proof fn lemma_absent_names_are_exact(probes: Seq<Probe>)
    ensures
        forall|i: int|
            0 <= i < probes.len() && (#[trigger] probes[i]).outcome == ProbeOutcome::Absent
                ==> absent_names(probes).contains(probes[i].name@),
        forall|k: int|
            0 <= k < absent_names(probes).len() ==> found_absent(
                probes,
                #[trigger] absent_names(probes)[k],
            ),
        absent_names(probes).len() <= probes.len(),
    decreases probes.len(),
{
    if probes.len() > 0 {
        let earlier = probes.drop_last();
        lemma_absent_names_are_exact(earlier);
        let names = absent_names(probes);
        let before = absent_names(earlier);
        assert forall|i: int|
            0 <= i < probes.len() && (#[trigger] probes[i]).outcome
                == ProbeOutcome::Absent implies names.contains(probes[i].name@) by {
            if i < earlier.len() {
                assert(earlier[i] == probes[i]);
                let k = choose|k: int| 0 <= k < before.len() && before[k] == earlier[i].name@;
                assert(names[k] == before[k]);
            } else {
                assert(names[names.len() - 1] == probes[i].name@);
            }
        }
        assert forall|k: int| 0 <= k < names.len() implies found_absent(
            probes,
            #[trigger] names[k],
        ) by {
            if k < before.len() {
                assert(names[k] == before[k]);
                assert(found_absent(earlier, before[k]));
                let i = choose|i: int|
                    0 <= i < earlier.len() && (#[trigger] earlier[i]).outcome
                        == ProbeOutcome::Absent && earlier[i].name@ == before[k];
                assert(probes[i] == earlier[i]);
            } else {
                let i = probes.len() - 1;
                assert(probes[i].outcome == ProbeOutcome::Absent && probes[i].name@ == names[k]);
            }
        }
    }
}

/// The line that reports one probe on the diagnostic stream.
pub open spec fn presence_text(name: Seq<char>, outcome: ProbeOutcome) -> Seq<char> {
    "Checking for "@ + name + " in PATH: "@ + (if outcome == ProbeOutcome::Present {
        "✅"@
    } else {
        "❌"@
    })
}

/// Renders the line that reports one probe.
pub fn presence_line(probe: &Probe) -> (line: String)
    ensures
        line@ == presence_text(probe.name@, probe.outcome),
{
    let mut line = String::from_str("Checking for ");
    line.append(probe.name.as_str());
    line.append(" in PATH: ");
    match probe.outcome {
        ProbeOutcome::Present => line.append("✅"),
        _ => line.append("❌"),
    }
    line
}

/// Judges the probes of all required executables.
///
/// The check succeeds exactly if every executable is present. The first
/// indeterminate probe, if there is one, decides the failure; otherwise the
/// failure names every absent executable.
pub fn check_all_deps(probes: &Vec<Probe>) -> (verdict: Result<(), DependencyError>)
    ensures
        match verdict {
            Ok(()) => forall|i: int|
                0 <= i < probes.len() ==> (#[trigger] probes[i]).outcome == ProbeOutcome::Present,
            Err(DependencyError::Indeterminate { name }) => exists|i: int|
                first_indeterminate(probes@, i) && name@ == (#[trigger] probes[i]).name@,
            Err(DependencyError::Missing { names }) => {
                &&& determinate_before(probes@, probes.len() as int)
                &&& names.deep_view() == absent_names(probes@)
                &&& names.len() > 0
            },
        },
{
    let mut names: Vec<String> = Vec::new();
    let mut i: usize = 0;
    while i < probes.len()
        invariant
            i <= probes.len(),
            determinate_before(probes@, i as int),
            names.deep_view() == absent_names(probes@.take(i as int)),
            names.len() == 0 ==> forall|j: int|
                0 <= j < i ==> (#[trigger] probes[j]).outcome == ProbeOutcome::Present,
        decreases probes.len() - i,
    {
        let ghost seen = probes@.take(i as int);
        let ghost next = probes@.take(i + 1);
        proof {
            assert(next.drop_last() =~= seen);
            assert(next.last() == probes[i as int]);
        }
        match probes[i].outcome {
            ProbeOutcome::Present => {},
            ProbeOutcome::Absent => {
                let ghost before = names.deep_view();
                names.push(probes[i].name.clone());
                assert(names.deep_view() =~= before.push(probes[i as int].name@));
            },
            ProbeOutcome::Indeterminate => {
                assert(first_indeterminate(probes@, i as int));
                return Err(DependencyError::Indeterminate { name: probes[i].name.clone() });
            },
        }
        i += 1;
    }
    assert(probes@.take(probes.len() as int) =~= probes@);
    if names.len() == 0 {
        Ok(())
    } else {
        Err(DependencyError::Missing { names })
    }
}

} // verus!
