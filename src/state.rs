//! The observable state that one tick reports.
use vstd::prelude::*;

verus! {

/// The outcome of one tick, in precedence order error > found > applied >
/// monitoring > not found. Single-target ticks report a bare process id when
/// exactly one process matched, a list when several did; multi-target ticks
/// report one entry per target name, in configuration order.
#[derive(Clone, Debug, PartialEq, Eq)]
pub enum ProcessState {
    NotFound,
    Found(u32),
    FoundAndMonitoring(u32),
    SettingsApplied(u32, String),
    MultipleFound(Vec<u32>),
    MultipleMonitoring(Vec<u32>),
    MultipleSettingsApplied(Vec<(u32, String)>),
    MultiProcessFound(Vec<(String, Vec<u32>)>),
    MultiProcessMonitoring(Vec<(String, Vec<u32>)>),
    MultiProcessSettingsApplied(Vec<(String, Vec<(u32, String)>)>),
    Error(String),
}

/// The mathematical value of a [`ProcessState`].
pub enum StateView {
    NotFound,
    Found(u32),
    FoundAndMonitoring(u32),
    SettingsApplied(u32, Seq<char>),
    MultipleFound(Seq<u32>),
    MultipleMonitoring(Seq<u32>),
    MultipleSettingsApplied(Seq<(u32, Seq<char>)>),
    MultiProcessFound(Seq<(Seq<char>, Seq<u32>)>),
    MultiProcessMonitoring(Seq<(Seq<char>, Seq<u32>)>),
    MultiProcessSettingsApplied(Seq<(Seq<char>, Seq<(u32, Seq<char>)>)>),
    Error(Seq<char>),
}

/// The view of a list of (process id, change description) pairs.
pub open spec fn changes_view(v: Seq<(u32, String)>) -> Seq<(u32, Seq<char>)> {
    v.map_values(|p: (u32, String)| (p.0, p.1@))
}

/// The view of a list of (target name, process ids) pairs.
pub open spec fn pid_groups_view(v: Seq<(String, Vec<u32>)>) -> Seq<(Seq<char>, Seq<u32>)> {
    v.map_values(|p: (String, Vec<u32>)| (p.0@, p.1@))
}

/// The view of a list of (target name, changes) pairs.
pub open spec fn change_groups_view(v: Seq<(String, Vec<(u32, String)>)>) -> Seq<
    (Seq<char>, Seq<(u32, Seq<char>)>),
> {
    v.map_values(|p: (String, Vec<(u32, String)>)| (p.0@, changes_view(p.1@)))
}

impl View for ProcessState {
    type V = StateView;

    open spec fn view(&self) -> StateView {
        match self {
            ProcessState::NotFound => StateView::NotFound,
            ProcessState::Found(p) => StateView::Found(*p),
            ProcessState::FoundAndMonitoring(p) => StateView::FoundAndMonitoring(*p),
            ProcessState::SettingsApplied(p, s) => StateView::SettingsApplied(*p, s@),
            ProcessState::MultipleFound(v) => StateView::MultipleFound(v@),
            ProcessState::MultipleMonitoring(v) => StateView::MultipleMonitoring(v@),
            ProcessState::MultipleSettingsApplied(v) => StateView::MultipleSettingsApplied(
                changes_view(v@),
            ),
            ProcessState::MultiProcessFound(v) => StateView::MultiProcessFound(pid_groups_view(v@)),
            ProcessState::MultiProcessMonitoring(v) => StateView::MultiProcessMonitoring(
                pid_groups_view(v@),
            ),
            ProcessState::MultiProcessSettingsApplied(v) => StateView::MultiProcessSettingsApplied(
                change_groups_view(v@),
            ),
            ProcessState::Error(s) => StateView::Error(s@),
        }
    }
}

} // verus!
