//! What the logging side needs from the engine: when a tick is worth a log
//! line, and process ids as text.
use vstd::prelude::*;
use crate::state::{change_groups_view, changes_view, pid_groups_view, ProcessState};
use crate::text::{decimal, joined, push_decimal, push_str};

verus! {

/// The decimal forms of `pids`, joined with ", ".
pub open spec fn pids_text(pids: Seq<u32>) -> Seq<char> {
    joined(pids.map_values(|p: u32| decimal(p as nat)), ", "@)
}

/// Process ids in decimal, separated by ", ".
pub fn format_pids(pids: &[u32]) -> (r: String)
    ensures
        r@ == pids_text(pids@),
{
    let mut r = String::new();
    let mut k: usize = 0;
    while k < pids.len()
        invariant
            k <= pids@.len(),
            r@ == pids_text(pids@.take(k as int)),
        decreases pids@.len() - k,
    {
        proof {
            assert(pids@.take(k as int + 1).map_values(|p: u32| decimal(p as nat)).drop_last()
                =~= pids@.take(k as int).map_values(|p: u32| decimal(p as nat)));
        }
        if k > 0 {
            push_str(&mut r, ", ");
        }
        push_decimal(&mut r, pids[k] as u64);
        k = k + 1;
    }
    proof {
        assert(pids@.take(pids@.len() as int) =~= pids@);
    }
    r
}

fn same_pids(a: &Vec<u32>, b: &Vec<u32>) -> (r: bool)
    ensures
        r == (a@ == b@),
{
    if a.len() != b.len() {
        return false;
    }
    let mut i: usize = 0;
    while i < a.len()
        invariant
            i <= a@.len() == b@.len(),
            forall|j: int| 0 <= j < i ==> a@[j] == b@[j],
        decreases a@.len() - i,
    {
        if a[i] != b[i] {
            return false;
        }
        i = i + 1;
    }
    proof {
        assert(a@ =~= b@);
    }
    true
}

fn same_changes(a: &Vec<(u32, String)>, b: &Vec<(u32, String)>) -> (r: bool)
    ensures
        r == (changes_view(a@) == changes_view(b@)),
{
    if a.len() != b.len() {
        return false;
    }
    let mut i: usize = 0;
    while i < a.len()
        invariant
            i <= a@.len() == b@.len(),
            forall|j: int| 0 <= j < i ==> changes_view(a@)[j] == changes_view(b@)[j],
        decreases a@.len() - i,
    {
        if a[i].0 != b[i].0 || a[i].1 != b[i].1 {
            proof {
                assert(changes_view(a@)[i as int] != changes_view(b@)[i as int]);
            }
            return false;
        }
        i = i + 1;
    }
    proof {
        assert(changes_view(a@) =~= changes_view(b@));
    }
    true
}

fn same_pid_groups(a: &Vec<(String, Vec<u32>)>, b: &Vec<(String, Vec<u32>)>) -> (r: bool)
    ensures
        r == (pid_groups_view(a@) == pid_groups_view(b@)),
{
    if a.len() != b.len() {
        return false;
    }
    let mut i: usize = 0;
    while i < a.len()
        invariant
            i <= a@.len() == b@.len(),
            forall|j: int| 0 <= j < i ==> pid_groups_view(a@)[j] == pid_groups_view(b@)[j],
        decreases a@.len() - i,
    {
        if a[i].0 != b[i].0 || !same_pids(&a[i].1, &b[i].1) {
            proof {
                assert(pid_groups_view(a@)[i as int] != pid_groups_view(b@)[i as int]);
            }
            return false;
        }
        i = i + 1;
    }
    proof {
        assert(pid_groups_view(a@) =~= pid_groups_view(b@));
    }
    true
}

fn same_change_groups(
    a: &Vec<(String, Vec<(u32, String)>)>,
    b: &Vec<(String, Vec<(u32, String)>)>,
) -> (r: bool)
    ensures
        r == (change_groups_view(a@) == change_groups_view(b@)),
{
    if a.len() != b.len() {
        return false;
    }
    let mut i: usize = 0;
    while i < a.len()
        invariant
            i <= a@.len() == b@.len(),
            forall|j: int| 0 <= j < i ==> change_groups_view(a@)[j] == change_groups_view(b@)[j],
        decreases a@.len() - i,
    {
        if a[i].0 != b[i].0 || !same_changes(&a[i].1, &b[i].1) {
            proof {
                assert(change_groups_view(a@)[i as int] != change_groups_view(b@)[i as int]);
            }
            return false;
        }
        i = i + 1;
    }
    proof {
        assert(change_groups_view(a@) =~= change_groups_view(b@));
    }
    true
}

/// Whether a tick's state is worth a log line: only when it differs from
/// the state of the tick before, so that a state that persists is logged
/// once.
pub fn should_log(current: &ProcessState, last: &ProcessState) -> (r: bool)
    ensures
        r == (current@ != last@),
{
    let same = match current {
        ProcessState::NotFound => match last {
            ProcessState::NotFound => true,
            _ => false,
        },
        ProcessState::Found(a) => match last {
            ProcessState::Found(b) => *a == *b,
            _ => false,
        },
        ProcessState::FoundAndMonitoring(a) => match last {
            ProcessState::FoundAndMonitoring(b) => *a == *b,
            _ => false,
        },
        ProcessState::SettingsApplied(a, s) => match last {
            ProcessState::SettingsApplied(b, t) => *a == *b && *s == *t,
            _ => false,
        },
        ProcessState::MultipleFound(a) => match last {
            ProcessState::MultipleFound(b) => same_pids(a, b),
            _ => false,
        },
        ProcessState::MultipleMonitoring(a) => match last {
            ProcessState::MultipleMonitoring(b) => same_pids(a, b),
            _ => false,
        },
        ProcessState::MultipleSettingsApplied(a) => match last {
            ProcessState::MultipleSettingsApplied(b) => same_changes(a, b),
            _ => false,
        },
        ProcessState::MultiProcessFound(a) => match last {
            ProcessState::MultiProcessFound(b) => same_pid_groups(a, b),
            _ => false,
        },
        ProcessState::MultiProcessMonitoring(a) => match last {
            ProcessState::MultiProcessMonitoring(b) => same_pid_groups(a, b),
            _ => false,
        },
        ProcessState::MultiProcessSettingsApplied(a) => match last {
            ProcessState::MultiProcessSettingsApplied(b) => same_change_groups(a, b),
            _ => false,
        },
        ProcessState::Error(s) => match last {
            ProcessState::Error(t) => *s == *t,
            _ => false,
        },
    };
    !same
}

} // verus!
