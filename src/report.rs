//! Folding the outcomes of a tick into the one state it reports.
use vstd::prelude::*;
use crate::discovery::DiscoveryError;
use crate::state::{change_groups_view, changes_view, pid_groups_view, ProcessState, StateView};
use crate::text::{decimal, join, joined, push_decimal, push_str, views};
use crate::tick::{PidOutcome, Tick};

verus! {

/// The processes of target `t` that were seen for the first time.
pub open spec fn found_pids(outs: Seq<PidOutcome>, t: usize) -> Seq<u32>
    decreases outs.len(),
{
    if outs.len() == 0 {
        Seq::empty()
    } else {
        let o = outs.last();
        let r = found_pids(outs.drop_last(), t);
        if o.target == t && o.is_new {
            r.push(o.pid)
        } else {
            r
        }
    }
}

/// The processes of target `t` that were reconciled without any change.
pub open spec fn monitored_pids(outs: Seq<PidOutcome>, t: usize) -> Seq<u32>
    decreases outs.len(),
{
    if outs.len() == 0 {
        Seq::empty()
    } else {
        let o = outs.last();
        let r = monitored_pids(outs.drop_last(), t);
        if o.target == t && o.result is Ok && o.result->Ok_0.is_none() {
            r.push(o.pid)
        } else {
            r
        }
    }
}

/// The processes of target `t` that had settings (re)applied, with the
/// description of the changes.
pub open spec fn applied_changes(outs: Seq<PidOutcome>, t: usize) -> Seq<(u32, Seq<char>)>
    decreases outs.len(),
{
    if outs.len() == 0 {
        Seq::empty()
    } else {
        let o = outs.last();
        let r = applied_changes(outs.drop_last(), t);
        if o.target == t && o.result is Ok && !o.result->Ok_0.is_none() {
            r.push((o.pid, o.result->Ok_0.text()))
        } else {
            r
        }
    }
}

/// The name of target `t`, empty if there is none.
pub open spec fn name_at(names: Seq<String>, t: usize) -> Seq<char> {
    if t < names.len() {
        names[t as int]@
    } else {
        Seq::empty()
    }
}

/// The line that reports a failed reconciliation.
pub open spec fn failure_line(o: PidOutcome, names: Seq<String>, multi: bool) -> Seq<char> {
    let tail = "PID "@ + decimal(o.pid as nat) + ": "@ + o.result->Err_0.text();
    if multi {
        name_at(names, o.target) + " "@ + tail
    } else {
        tail
    }
}

/// The lines that report the failed reconciliations, in order.
pub open spec fn failure_lines(outs: Seq<PidOutcome>, names: Seq<String>, multi: bool) -> Seq<
    Seq<char>,
>
    decreases outs.len(),
{
    if outs.len() == 0 {
        Seq::empty()
    } else {
        let o = outs.last();
        let r = failure_lines(outs.drop_last(), names, multi);
        if o.result is Err {
            r.push(failure_line(o, names, multi))
        } else {
            r
        }
    }
}

/// The lines that report the failed discoveries, in order.
pub open spec fn discovery_lines(errs: Seq<(usize, DiscoveryError)>, names: Seq<String>) -> Seq<
    Seq<char>,
> {
    errs.map_values(|e: (usize, DiscoveryError)| name_at(names, e.0) + ": "@ + e.1.text())
}

/// For each of the first `n` targets with new processes, its name and those.
pub open spec fn found_groups(outs: Seq<PidOutcome>, names: Seq<String>, n: nat) -> Seq<
    (Seq<char>, Seq<u32>),
>
    decreases n,
{
    if n == 0 {
        Seq::empty()
    } else {
        let t = (n - 1) as usize;
        let r = found_groups(outs, names, (n - 1) as nat);
        if found_pids(outs, t).len() > 0 {
            r.push((name_at(names, t), found_pids(outs, t)))
        } else {
            r
        }
    }
}

/// For each of the first `n` targets with no new process but with changes,
/// its name and those changes.
pub open spec fn applied_groups(outs: Seq<PidOutcome>, names: Seq<String>, n: nat) -> Seq<
    (Seq<char>, Seq<(u32, Seq<char>)>),
>
    decreases n,
{
    if n == 0 {
        Seq::empty()
    } else {
        let t = (n - 1) as usize;
        let r = applied_groups(outs, names, (n - 1) as nat);
        if found_pids(outs, t).len() == 0 && applied_changes(outs, t).len() > 0 {
            r.push((name_at(names, t), applied_changes(outs, t)))
        } else {
            r
        }
    }
}

/// For each of the first `n` targets whose processes all only needed
/// monitoring, its name and those processes.
pub open spec fn monitored_groups(outs: Seq<PidOutcome>, names: Seq<String>, n: nat) -> Seq<
    (Seq<char>, Seq<u32>),
>
    decreases n,
{
    if n == 0 {
        Seq::empty()
    } else {
        let t = (n - 1) as usize;
        let r = monitored_groups(outs, names, (n - 1) as nat);
        if found_pids(outs, t).len() == 0 && applied_changes(outs, t).len() == 0
            && monitored_pids(outs, t).len() > 0 {
            r.push((name_at(names, t), monitored_pids(outs, t)))
        } else {
            r
        }
    }
}

/// The state a single-target tick reports.
pub open spec fn single_state(t: Tick) -> StateView {
    let outs = t.outcomes@;
    if t.enumeration_failed is Some {
        StateView::Error("Process enumeration failed: "@ + t.enumeration_failed->Some_0.text())
    } else if t.work@.len() == 0 {
        StateView::NotFound
    } else if t.work@.len() == 1 && outs.len() == 1 {
        let o = outs[0];
        match o.result {
            Err(e) => StateView::Error(
                "Failed to monitor PID "@ + decimal(o.pid as nat) + ": "@ + e.text(),
            ),
            Ok(c) => if o.is_new {
                StateView::Found(o.pid)
            } else if !c.is_none() {
                StateView::SettingsApplied(o.pid, c.text())
            } else {
                StateView::FoundAndMonitoring(o.pid)
            },
        }
    } else {
        let errs = failure_lines(outs, t.names@, false);
        if errs.len() > 0 {
            StateView::Error("Errors: "@ + joined(errs, "; "@))
        } else if found_pids(outs, 0).len() > 0 {
            StateView::MultipleFound(found_pids(outs, 0))
        } else if applied_changes(outs, 0).len() > 0 {
            StateView::MultipleSettingsApplied(applied_changes(outs, 0))
        } else {
            StateView::MultipleMonitoring(monitored_pids(outs, 0))
        }
    }
}

/// The state a multi-target tick reports.
pub open spec fn multi_state(t: Tick) -> StateView {
    let outs = t.outcomes@;
    let names = t.names@;
    let errs = discovery_lines(t.discovery_errors@, names) + failure_lines(outs, names, true);
    let n = names.len();
    if errs.len() > 0 {
        StateView::Error("Errors: "@ + joined(errs, "; "@))
    } else if found_groups(outs, names, n).len() > 0 {
        StateView::MultiProcessFound(found_groups(outs, names, n))
    } else if applied_groups(outs, names, n).len() > 0 {
        StateView::MultiProcessSettingsApplied(applied_groups(outs, names, n))
    } else if monitored_groups(outs, names, n).len() > 0 {
        StateView::MultiProcessMonitoring(monitored_groups(outs, names, n))
    } else {
        StateView::NotFound
    }
}

impl Tick {
    /// The state the tick reports, from the outcomes recorded so far.
    pub open spec fn reported(self) -> StateView {
        if self.multi {
            multi_state(self)
        } else {
            single_state(self)
        }
    }
}

fn collect_found(outs: &Vec<PidOutcome>, t: usize) -> (r: Vec<u32>)
    ensures
        r@ == found_pids(outs@, t),
{
    let mut r: Vec<u32> = Vec::new();
    let mut j: usize = 0;
    while j < outs.len()
        invariant
            j <= outs@.len(),
            r@ == found_pids(outs@.take(j as int), t),
        decreases outs@.len() - j,
    {
        proof {
            assert(outs@.take(j as int + 1).drop_last() =~= outs@.take(j as int));
        }
        let o = outs[j];
        if o.target == t && o.is_new {
            r.push(o.pid);
        }
        j = j + 1;
    }
    proof {
        assert(outs@.take(outs@.len() as int) =~= outs@);
    }
    r
}

fn collect_monitored(outs: &Vec<PidOutcome>, t: usize) -> (r: Vec<u32>)
    ensures
        r@ == monitored_pids(outs@, t),
{
    let mut r: Vec<u32> = Vec::new();
    let mut j: usize = 0;
    while j < outs.len()
        invariant
            j <= outs@.len(),
            r@ == monitored_pids(outs@.take(j as int), t),
        decreases outs@.len() - j,
    {
        proof {
            assert(outs@.take(j as int + 1).drop_last() =~= outs@.take(j as int));
        }
        let o = outs[j];
        if o.target == t {
            match o.result {
                Ok(c) => {
                    if c.is_empty() {
                        r.push(o.pid);
                    }
                },
                Err(_) => {},
            }
        }
        j = j + 1;
    }
    proof {
        assert(outs@.take(outs@.len() as int) =~= outs@);
    }
    r
}

fn collect_applied(outs: &Vec<PidOutcome>, t: usize) -> (r: Vec<(u32, String)>)
    ensures
        changes_view(r@) == applied_changes(outs@, t),
{
    let mut r: Vec<(u32, String)> = Vec::new();
    let mut j: usize = 0;
    while j < outs.len()
        invariant
            j <= outs@.len(),
            changes_view(r@) == applied_changes(outs@.take(j as int), t),
        decreases outs@.len() - j,
    {
        proof {
            assert(outs@.take(j as int + 1).drop_last() =~= outs@.take(j as int));
        }
        let o = outs[j];
        if o.target == t {
            match o.result {
                Ok(c) => {
                    if !c.is_empty() {
                        let d = c.describe();
                        let ghost before = r@;
                        r.push((o.pid, d));
                        proof {
                            assert(changes_view(r@) =~= changes_view(before).push((o.pid, d@)));
                        }
                    }
                },
                Err(_) => {},
            }
        }
        j = j + 1;
    }
    proof {
        assert(outs@.take(outs@.len() as int) =~= outs@);
    }
    r
}

/// Appends the name of target `t`, if there is one.
fn push_name(s: &mut String, names: &Vec<String>, t: usize)
    ensures
        final(s)@ == old(s)@ + name_at(names@, t),
{
    if t < names.len() {
        push_str(s, names[t].as_str());
    } else {
        proof {
            assert(old(s)@ + Seq::<char>::empty() =~= old(s)@);
        }
    }
}

fn push_failure_lines(lines: &mut Vec<String>, outs: &Vec<PidOutcome>, names: &Vec<String>, multi: bool)
    ensures
        views(final(lines)@) == views(old(lines)@) + failure_lines(outs@, names@, multi),
{
    let ghost start = views(lines@);
    let mut j: usize = 0;
    while j < outs.len()
        invariant
            j <= outs@.len(),
            views(lines@) == start + failure_lines(outs@.take(j as int), names@, multi),
        decreases outs@.len() - j,
    {
        proof {
            assert(outs@.take(j as int + 1).drop_last() =~= outs@.take(j as int));
        }
        let o = outs[j];
        match o.result {
            Ok(_) => {},
            Err(e) => {
                let mut line = String::new();
                if multi {
                    push_name(&mut line, names, o.target);
                    push_str(&mut line, " ");
                }
                push_str(&mut line, "PID ");
                push_decimal(&mut line, o.pid as u64);
                push_str(&mut line, ": ");
                let m = e.message();
                push_str(&mut line, m.as_str());
                proof {
                    let tail = "PID "@ + decimal(o.pid as nat) + ": "@ + e.text();
                    if multi {
                        assert(line@ =~= name_at(names@, o.target) + " "@ + tail);
                    } else {
                        assert(line@ =~= tail);
                    }
                }
                let ghost before = lines@;
                lines.push(line);
                proof {
                    assert(views(lines@) =~= views(before).push(line@));
                }
            },
        }
        j = j + 1;
    }
    proof {
        assert(outs@.take(outs@.len() as int) =~= outs@);
    }
}

fn push_discovery_lines(
    lines: &mut Vec<String>,
    errs: &Vec<(usize, DiscoveryError)>,
    names: &Vec<String>,
)
    ensures
        views(final(lines)@) == views(old(lines)@) + discovery_lines(errs@, names@),
{
    let ghost start = views(lines@);
    let mut j: usize = 0;
    while j < errs.len()
        invariant
            j <= errs@.len(),
            views(lines@) == start + discovery_lines(errs@.take(j as int), names@),
        decreases errs@.len() - j,
    {
        let (t, e) = errs[j];
        let mut line = String::new();
        push_name(&mut line, names, t);
        push_str(&mut line, ": ");
        let m = e.message();
        push_str(&mut line, m.as_str());
        let ghost before = lines@;
        lines.push(line);
        proof {
            assert(views(lines@) =~= views(before).push(line@));
            assert(discovery_lines(errs@.take(j as int + 1), names@) =~= discovery_lines(
                errs@.take(j as int),
                names@,
            ).push(name_at(names@, t) + ": "@ + e.text()));
        }
        j = j + 1;
    }
    proof {
        assert(errs@.take(errs@.len() as int) =~= errs@);
    }
}

/// "Errors: " followed by the lines joined with "; ".
fn errors_message(lines: &Vec<String>) -> (r: String)
    ensures
        r@ == "Errors: "@ + joined(views(lines@), "; "@),
{
    let mut r = String::new();
    push_str(&mut r, "Errors: ");
    let j = join(lines, "; ");
    push_str(&mut r, j.as_str());
    r
}

impl Tick {
    fn single_report(&self) -> (r: ProcessState)
        requires
            !self.multi,
        ensures
            r@ == single_state(*self),
    {
        if let Some(e) = self.enumeration_failed {
            let mut m = String::new();
            push_str(&mut m, "Process enumeration failed: ");
            let t = e.message();
            push_str(&mut m, t.as_str());
            return ProcessState::Error(m);
        }
        if self.work.len() == 0 {
            return ProcessState::NotFound;
        }
        if self.work.len() == 1 && self.outcomes.len() == 1 {
            let o = self.outcomes[0];
            return match o.result {
                Err(e) => {
                    let mut m = String::new();
                    push_str(&mut m, "Failed to monitor PID ");
                    push_decimal(&mut m, o.pid as u64);
                    push_str(&mut m, ": ");
                    let t = e.message();
                    push_str(&mut m, t.as_str());
                    ProcessState::Error(m)
                },
                Ok(c) => {
                    if o.is_new {
                        ProcessState::Found(o.pid)
                    } else if !c.is_empty() {
                        ProcessState::SettingsApplied(o.pid, c.describe())
                    } else {
                        ProcessState::FoundAndMonitoring(o.pid)
                    }
                },
            };
        }
        let mut lines: Vec<String> = Vec::new();
        push_failure_lines(&mut lines, &self.outcomes, &self.names, false);
        proof {
            assert(views(Seq::<String>::empty()) + failure_lines(self.outcomes@, self.names@, false)
                =~= failure_lines(self.outcomes@, self.names@, false));
        }
        if lines.len() > 0 {
            return ProcessState::Error(errors_message(&lines));
        }
        let found = collect_found(&self.outcomes, 0);
        if found.len() > 0 {
            return ProcessState::MultipleFound(found);
        }
        let applied = collect_applied(&self.outcomes, 0);
        if applied.len() > 0 {
            return ProcessState::MultipleSettingsApplied(applied);
        }
        ProcessState::MultipleMonitoring(collect_monitored(&self.outcomes, 0))
    }

    fn multi_report(&self) -> (r: ProcessState)
        requires
            self.multi,
        ensures
            r@ == multi_state(*self),
    {
        let outs = &self.outcomes;
        let names = &self.names;
        let mut lines: Vec<String> = Vec::new();
        push_discovery_lines(&mut lines, &self.discovery_errors, names);
        push_failure_lines(&mut lines, outs, names, true);
        proof {
            assert(views(Seq::<String>::empty()) + discovery_lines(self.discovery_errors@, names@)
                + failure_lines(outs@, names@, true) =~= discovery_lines(
                self.discovery_errors@,
                names@,
            ) + failure_lines(outs@, names@, true));
        }
        if lines.len() > 0 {
            return ProcessState::Error(errors_message(&lines));
        }
        let mut found_g: Vec<(String, Vec<u32>)> = Vec::new();
        let mut applied_g: Vec<(String, Vec<(u32, String)>)> = Vec::new();
        let mut monitored_g: Vec<(String, Vec<u32>)> = Vec::new();
        let mut t: usize = 0;
        while t < names.len()
            invariant
                t <= names@.len(),
                pid_groups_view(found_g@) == found_groups(outs@, names@, t as nat),
                change_groups_view(applied_g@) == applied_groups(outs@, names@, t as nat),
                pid_groups_view(monitored_g@) == monitored_groups(outs@, names@, t as nat),
            decreases names@.len() - t,
        {
            let found = collect_found(outs, t);
            let applied = collect_applied(outs, t);
            let monitored = collect_monitored(outs, t);
            let name = names[t].clone();
            let ghost fg = found_g@;
            let ghost ag = applied_g@;
            let ghost mg = monitored_g@;
            if found.len() > 0 {
                found_g.push((name, found));
                proof {
                    assert(pid_groups_view(found_g@) =~= pid_groups_view(fg).push((name@, found@)));
                }
            } else if applied.len() > 0 {
                applied_g.push((name, applied));
                proof {
                    assert(change_groups_view(applied_g@) =~= change_groups_view(ag).push(
                        (name@, changes_view(applied@)),
                    ));
                }
            } else if monitored.len() > 0 {
                monitored_g.push((name, monitored));
                proof {
                    assert(pid_groups_view(monitored_g@) =~= pid_groups_view(mg).push(
                        (name@, monitored@),
                    ));
                }
            }
            t = t + 1;
        }
        if found_g.len() > 0 {
            ProcessState::MultiProcessFound(found_g)
        } else if applied_g.len() > 0 {
            ProcessState::MultiProcessSettingsApplied(applied_g)
        } else if monitored_g.len() > 0 {
            ProcessState::MultiProcessMonitoring(monitored_g)
        } else {
            ProcessState::NotFound
        }
    }

    /// The state the tick reports, from the outcomes recorded so far; once
    /// the tick is complete, the state of the tick.
    pub fn state(&self) -> (r: ProcessState)
        ensures
            r@ == self.reported(),
    {
        if self.multi {
            self.multi_report()
        } else {
            self.single_report()
        }
    }
}

} // verus!
