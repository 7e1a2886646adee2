//! The configured targets: which processes to manage and with what settings.
use vstd::prelude::*;
use crate::codec::{calculate_affinity_mask, is_mask_of};
use crate::text::push_str;

verus! {

/// The fewest cores a selection is sized for.
pub const MIN_CORES: u32 = 8;

/// The priority class of new configurations (above normal).
pub const DEFAULT_PRIORITY_CLASS: u32 = 0x8000;

/// One configured target.
#[derive(Debug)]
pub struct ProcessConfig {
    pub name: String,
    pub core_selections: Vec<bool>,
    pub priority_class: u32,
    pub enabled: bool,
}

/// The whole configuration: a legacy single target and the target list.
#[derive(Debug)]
pub struct Config {
    pub target_process: String,
    pub core_selections: Vec<bool>,
    pub priority_class: u32,
    pub processes: Vec<ProcessConfig>,
}

/// The number of cores a selection is sized for on a system with
/// `cpu_count` logical processors.
pub open spec fn core_count(cpu_count: u32) -> nat {
    if cpu_count < MIN_CORES {
        MIN_CORES as nat
    } else {
        cpu_count as nat
    }
}

/// The default selection: cores 4 and 5.
pub open spec fn default_selection(n: nat) -> Seq<bool> {
    Seq::new(n, |i: int| i == 4 || i == 5)
}

/// `sel` cut or padded with unselected cores to `n` cores.
pub open spec fn resized(sel: Seq<bool>, n: nat) -> Seq<bool> {
    Seq::new(n, |i: int| i < sel.len() && sel[i])
}

/// A selection of `n` cores, from `sel` cut or padded with unselected cores.
pub fn resize_selection(sel: &Vec<bool>, n: usize) -> (r: Vec<bool>)
    ensures
        r@ == resized(sel@, n as nat),
{
    let mut r: Vec<bool> = Vec::new();
    let mut i: usize = 0;
    while i < n
        invariant
            i <= n,
            r@ == resized(sel@, i as nat),
        decreases n - i,
    {
        let v = i < sel.len() && sel[i];
        proof {
            assert(resized(sel@, i as nat + 1) =~= resized(sel@, i as nat).push(v));
        }
        r.push(v);
        i = i + 1;
    }
    r
}

/// The default selection for a system with `cpu_count` logical processors.
pub fn default_core_selections(cpu_count: u32) -> (r: Vec<bool>)
    ensures
        r@ == default_selection(core_count(cpu_count)),
{
    let n: usize = if cpu_count < MIN_CORES {
        MIN_CORES as usize
    } else {
        cpu_count as usize
    };
    let mut r: Vec<bool> = Vec::new();
    let mut i: usize = 0;
    while i < n
        invariant
            i <= n,
            n == core_count(cpu_count),
            r@ == default_selection(i as nat),
        decreases n - i,
    {
        proof {
            assert(default_selection(i as nat + 1) =~= default_selection(i as nat).push(
                i == 4 || i == 5,
            ));
        }
        r.push(i == 4 || i == 5);
        i = i + 1;
    }
    r
}

/// The targets of `ps` that are enabled, in order.
pub open spec fn enabled_of(ps: Seq<ProcessConfig>) -> Seq<ProcessConfig>
    decreases ps.len(),
{
    if ps.len() == 0 {
        Seq::empty()
    } else if ps.last().enabled {
        enabled_of(ps.drop_last()).push(ps.last())
    } else {
        enabled_of(ps.drop_last())
    }
}

/// Whether some target of `ps` is named `name`.
pub open spec fn has_name(ps: Seq<ProcessConfig>, name: Seq<char>) -> bool {
    exists|i: int| 0 <= i < ps.len() && (#[trigger] ps[i]).name@ == name
}

/// `ps` without its targets named `name`.
pub open spec fn without_name(ps: Seq<ProcessConfig>, name: Seq<char>) -> Seq<ProcessConfig>
    decreases ps.len(),
{
    if ps.len() == 0 {
        ps
    } else if ps[0].name@ == name {
        without_name(ps.drop_first(), name)
    } else {
        seq![ps[0]] + without_name(ps.drop_first(), name)
    }
}

/// The message for a name that is already configured.
pub open spec fn exists_text(name: Seq<char>) -> Seq<char> {
    "Process '"@ + name + "' already exists"@
}

/// The message for a name that is not configured.
pub open spec fn missing_text(name: Seq<char>) -> Seq<char> {
    "Process '"@ + name + "' not found"@
}

fn quoted_message(name: &str, tail: &str) -> (r: String)
    ensures
        r@ == "Process '"@ + name@ + tail@,
{
    let mut r = String::new();
    push_str(&mut r, "Process '");
    push_str(&mut r, name);
    push_str(&mut r, tail);
    r
}

impl Config {
    /// The configuration used when none is stored, for a system with
    /// `cpu_count` logical processors.
    pub fn with_cpu_count(cpu_count: u32) -> (c: Config)
        ensures
            c.target_process@ == "icad.exe"@,
            c.core_selections@ == default_selection(core_count(cpu_count)),
            c.priority_class == DEFAULT_PRIORITY_CLASS,
            c.processes@.len() == 1,
            c.processes@[0].name@ == "icad.exe"@,
            c.processes@[0].core_selections@ == default_selection(core_count(cpu_count)),
            c.processes@[0].priority_class == DEFAULT_PRIORITY_CLASS,
            c.processes@[0].enabled,
    {
        let selection = default_core_selections(cpu_count);
        let copy = resize_selection(&selection, selection.len());
        proof {
            assert(copy@ =~= selection@);
        }
        let mut processes: Vec<ProcessConfig> = Vec::new();
        processes.push(
            ProcessConfig {
                name: String::from_str("icad.exe"),
                core_selections: copy,
                priority_class: DEFAULT_PRIORITY_CLASS,
                enabled: true,
            },
        );
        Config {
            target_process: String::from_str("icad.exe"),
            core_selections: selection,
            priority_class: DEFAULT_PRIORITY_CLASS,
            processes,
        }
    }

    /// Sizes every selection for a system with `cpu_count` logical
    /// processors and, when the target list is empty but a legacy target is
    /// named, moves the legacy target into the list, enabled.
    pub fn normalize(&mut self, cpu_count: u32)
        ensures
            final(self).target_process == old(self).target_process,
            final(self).priority_class == old(self).priority_class,
            final(self).core_selections@ == resized(
                old(self).core_selections@,
                core_count(cpu_count),
            ),
            ({
                let migrate = old(self).processes@.len() == 0 && old(self).target_process@.len()
                    > 0;
                &&& final(self).processes@.len() == if migrate {
                    1
                } else {
                    old(self).processes@.len()
                }
                &&& migrate ==> {
                    let p = final(self).processes@[0];
                    &&& p.name@ == old(self).target_process@
                    &&& p.core_selections@ == resized(
                        old(self).core_selections@,
                        core_count(cpu_count),
                    )
                    &&& p.priority_class == old(self).priority_class
                    &&& p.enabled
                }
                &&& !migrate ==> forall|i: int|
                    0 <= i < old(self).processes@.len() ==> {
                        let p = #[trigger] final(self).processes@[i];
                        let q = old(self).processes@[i];
                        &&& p.name@ == q.name@
                        &&& p.core_selections@ == resized(
                            q.core_selections@,
                            core_count(cpu_count),
                        )
                        &&& p.priority_class == q.priority_class
                        &&& p.enabled == q.enabled
                    }
            }),
    {
        let n: usize = if cpu_count < MIN_CORES {
            MIN_CORES as usize
        } else {
            cpu_count as usize
        };
        let resized_legacy = resize_selection(&self.core_selections, n);
        self.core_selections = resized_legacy;
        if self.processes.len() == 0 && !self.target_process.as_str().is_empty() {
            let copy = resize_selection(&self.core_selections, n);
            proof {
                assert(copy@ =~= self.core_selections@);
            }
            self.processes.push(
                ProcessConfig {
                    name: self.target_process.clone(),
                    core_selections: copy,
                    priority_class: self.priority_class,
                    enabled: true,
                },
            );
            return;
        }
        let mut sized: Vec<ProcessConfig> = Vec::new();
        let mut i: usize = 0;
        while i < self.processes.len()
            invariant
                i <= self.processes@.len(),
                self.processes@ == old(self).processes@,
                n == core_count(cpu_count),
                sized@.len() == i,
                forall|j: int|
                    0 <= j < i ==> {
                        let p = #[trigger] sized@[j];
                        let q = old(self).processes@[j];
                        &&& p.name@ == q.name@
                        &&& p.core_selections@ == resized(q.core_selections@, n as nat)
                        &&& p.priority_class == q.priority_class
                        &&& p.enabled == q.enabled
                    },
            decreases self.processes@.len() - i,
        {
            let q = &self.processes[i];
            sized.push(
                ProcessConfig {
                    name: q.name.clone(),
                    core_selections: resize_selection(&q.core_selections, n),
                    priority_class: q.priority_class,
                    enabled: q.enabled,
                },
            );
            i = i + 1;
        }
        self.processes = sized;
    }

    /// The index of the first target named `name`, if any.
    fn position_of(&self, name: &String) -> (r: Option<usize>)
        ensures
            match r {
                Some(i) => i < self.processes@.len() && self.processes@[i as int].name@ == name@,
                None => !has_name(self.processes@, name@),
            },
    {
        let mut i: usize = 0;
        while i < self.processes.len()
            invariant
                i <= self.processes@.len(),
                forall|j: int| 0 <= j < i ==> (#[trigger] self.processes@[j]).name@ != name@,
            decreases self.processes@.len() - i,
        {
            if self.processes[i].name == *name {
                return Some(i);
            }
            i = i + 1;
        }
        None
    }

    /// Adds an enabled target, unless one with the same name exists.
    pub fn add_process_config(
        &mut self,
        name: String,
        core_selections: Vec<bool>,
        priority_class: u32,
    ) -> (r: Result<(), String>)
        ensures
            has_name(old(self).processes@, name@) ==> {
                &&& r is Err
                &&& r->Err_0@ == exists_text(name@)
                &&& final(self).processes@ == old(self).processes@
            },
            !has_name(old(self).processes@, name@) ==> {
                &&& r is Ok
                &&& final(self).processes@ == old(self).processes@.push(
                    ProcessConfig { name, core_selections, priority_class, enabled: true },
                )
            },
            final(self).target_process == old(self).target_process,
            final(self).core_selections == old(self).core_selections,
            final(self).priority_class == old(self).priority_class,
    {
        match self.position_of(&name) {
            Some(_) => Err(quoted_message(name.as_str(), "' already exists")),
            None => {
                self.processes.push(
                    ProcessConfig { name, core_selections, priority_class, enabled: true },
                );
                Ok(())
            },
        }
    }

    /// Removes every target named `name`; fails if there is none.
    pub fn remove_process_config(&mut self, name: &str) -> (r: Result<(), String>)
        ensures
            has_name(old(self).processes@, name@) ==> {
                &&& r is Ok
                &&& final(self).processes@ == without_name(old(self).processes@, name@)
            },
            !has_name(old(self).processes@, name@) ==> {
                &&& r is Err
                &&& r->Err_0@ == missing_text(name@)
                &&& final(self).processes@ == old(self).processes@
            },
            final(self).target_process == old(self).target_process,
            final(self).core_selections == old(self).core_selections,
            final(self).priority_class == old(self).priority_class,
    {
        let key = String::from_str(name);
        if self.position_of(&key).is_none() {
            return Err(quoted_message(name, "' not found"));
        }
        let ghost start = self.processes@;
        let mut i: usize = self.processes.len();
        while i > 0
            invariant
                i <= start.len(),
                key@ == name@,
                self.processes@ == start.take(i as int) + without_name(start.skip(i as int), name@),
                self.target_process == old(self).target_process,
                self.core_selections == old(self).core_selections,
                self.priority_class == old(self).priority_class,
            decreases i,
        {
            let k = i - 1;
            proof {
                assert(start.skip(k as int).drop_first() =~= start.skip(i as int));
                assert(start.skip(k as int)[0] == start[k as int]);
                assert(self.processes@[k as int] == start[k as int]);
            }
            if self.processes[k].name == key {
                let ghost before = self.processes@;
                self.processes.remove(k);
                proof {
                    assert(self.processes@ =~= start.take(k as int) + without_name(
                        start.skip(k as int),
                        name@,
                    ));
                }
            } else {
                proof {
                    assert(start.take(i as int) =~= start.take(k as int).push(start[k as int]));
                    assert(self.processes@ =~= start.take(k as int) + without_name(
                        start.skip(k as int),
                        name@,
                    ));
                }
            }
            i = k;
        }
        proof {
            assert(start.skip(0) =~= start);
            assert(start.take(0) =~= Seq::<ProcessConfig>::empty());
            assert(self.processes@ =~= without_name(start, name@));
        }
        Ok(())
    }

    /// Replaces the selection, priority class and enabled flag of the first
    /// target named `name`; fails if there is none.
    pub fn update_process_config(
        &mut self,
        name: &str,
        core_selections: Vec<bool>,
        priority_class: u32,
        enabled: bool,
    ) -> (r: Result<(), String>)
        ensures
            !has_name(old(self).processes@, name@) ==> {
                &&& r is Err
                &&& r->Err_0@ == missing_text(name@)
                &&& final(self).processes@ == old(self).processes@
            },
            has_name(old(self).processes@, name@) ==> r is Ok && exists|i: int|
                0 <= i < old(self).processes@.len() && old(self).processes@[i].name@ == name@
                    && (forall|j: int|
                    0 <= j < i ==> (#[trigger] old(self).processes@[j]).name@ != name@)
                    && final(self).processes@ == old(self).processes@.update(
                    i,
                    ProcessConfig {
                        name: old(self).processes@[i].name,
                        core_selections,
                        priority_class,
                        enabled,
                    },
                ),
            final(self).target_process == old(self).target_process,
            final(self).core_selections == old(self).core_selections,
            final(self).priority_class == old(self).priority_class,
    {
        let key = String::from_str(name);
        let mut i: usize = 0;
        while i < self.processes.len()
            invariant
                i <= self.processes@.len(),
                key@ == name@,
                self.processes@ == old(self).processes@,
                self.target_process == old(self).target_process,
                self.core_selections == old(self).core_selections,
                self.priority_class == old(self).priority_class,
                forall|j: int| 0 <= j < i ==> (#[trigger] self.processes@[j]).name@ != name@,
            decreases self.processes@.len() - i,
        {
            if self.processes[i].name == key {
                let kept = self.processes[i].name.clone();
                self.processes.set(
                    i,
                    ProcessConfig { name: kept, core_selections, priority_class, enabled },
                );
                return Ok(());
            }
            i = i + 1;
        }
        Err(quoted_message(name, "' not found"))
    }

    /// Whether any target is enabled, so that the target list rather than
    /// the legacy single target is served.
    pub fn use_multi_process(&self) -> (r: bool)
        ensures
            r == (enabled_of(self.processes@).len() > 0),
    {
        let mut i: usize = 0;
        let mut any = false;
        while i < self.processes.len()
            invariant
                i <= self.processes@.len(),
                any == (enabled_of(self.processes@.take(i as int)).len() > 0),
            decreases self.processes@.len() - i,
        {
            proof {
                assert(self.processes@.take(i as int + 1).drop_last() =~= self.processes@.take(
                    i as int,
                ));
            }
            if self.processes[i].enabled {
                any = true;
            }
            i = i + 1;
        }
        proof {
            assert(self.processes@.take(self.processes@.len() as int) =~= self.processes@);
        }
        any
    }

    /// The enabled targets as (name, affinity mask, priority class), in
    /// order. Each enabled selection must fit in an affinity mask.
    pub fn enabled_targets(&self) -> (r: Vec<(String, u64, u32)>)
        requires
            forall|i: int|
                0 <= i < self.processes@.len() && (#[trigger] self.processes@[i]).enabled
                    ==> self.processes@[i].core_selections@.len() <= 64,
        ensures
            r@.len() == enabled_of(self.processes@).len(),
            forall|k: int|
                0 <= k < r@.len() ==> {
                    let p = #[trigger] enabled_of(self.processes@)[k];
                    &&& r@[k].0@ == p.name@
                    &&& is_mask_of(r@[k].1, p.core_selections@)
                    &&& r@[k].2 == p.priority_class
                },
    {
        let mut r: Vec<(String, u64, u32)> = Vec::new();
        let mut i: usize = 0;
        while i < self.processes.len()
            invariant
                i <= self.processes@.len(),
                forall|j: int|
                    0 <= j < self.processes@.len() && (#[trigger] self.processes@[j]).enabled
                        ==> self.processes@[j].core_selections@.len() <= 64,
                r@.len() == enabled_of(self.processes@.take(i as int)).len(),
                forall|k: int|
                    0 <= k < r@.len() ==> {
                        let p = #[trigger] enabled_of(self.processes@.take(i as int))[k];
                        &&& r@[k].0@ == p.name@
                        &&& is_mask_of(r@[k].1, p.core_selections@)
                        &&& r@[k].2 == p.priority_class
                    },
            decreases self.processes@.len() - i,
        {
            proof {
                assert(self.processes@.take(i as int + 1).drop_last() =~= self.processes@.take(
                    i as int,
                ));
            }
            let p = &self.processes[i];
            if p.enabled {
                let mask = calculate_affinity_mask(p.core_selections.as_slice());
                r.push((p.name.clone(), mask, p.priority_class));
            }
            i = i + 1;
        }
        proof {
            assert(self.processes@.take(self.processes@.len() as int) =~= self.processes@);
        }
        r
    }
}

} // verus!
