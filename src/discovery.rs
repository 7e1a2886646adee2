//! Finding running processes by executable name in a process snapshot.
use vstd::prelude::*;

verus! {

/// Why enumerating the running processes failed.
#[derive(Clone, Copy, Debug, PartialEq, Eq)]
pub enum DiscoveryError {
    /// The snapshot could not be created.
    SnapshotFailed,
    /// The snapshot's first entry could not be read.
    FirstEntryFailed,
}

impl DiscoveryError {
    /// The message that reports this error.
    pub open spec fn text(self) -> Seq<char> {
        match self {
            DiscoveryError::SnapshotFailed => "Failed to create process snapshot"@,
            DiscoveryError::FirstEntryFailed => "Failed to get first process"@,
        }
    }

    /// Writes the message that reports this error.
    pub fn message(&self) -> (r: String)
        ensures
            r@ == self.text(),
    {
        match self {
            DiscoveryError::SnapshotFailed => String::from_str("Failed to create process snapshot"),
            DiscoveryError::FirstEntryFailed => String::from_str("Failed to get first process"),
        }
    }
}

/// One entry of a process snapshot: a process id and its executable's file
/// name.
#[derive(Clone, Debug, PartialEq, Eq)]
pub struct SnapshotEntry {
    pub pid: u32,
    pub exe_name: String,
}

/// What `str::to_lowercase` makes of a text.
pub uninterp spec fn lower_of(s: Seq<char>) -> Seq<char>;

/// What `String::from_utf8_lossy` makes of a byte string.
pub uninterp spec fn lossy_text(bytes: Seq<u8>) -> Seq<char>;

/// Relies on str::to_lowercase: the result depends on the characters alone.
#[verifier::external_body]
fn lowercase(s: &str) -> (r: String)
    ensures
        r@ == lower_of(s@),
{
    s.to_lowercase()
}

/// Relies on String::from_utf8_lossy: the text depends on the bytes alone.
#[verifier::external_body]
fn decode_lossy(bytes: &[u8]) -> (r: String)
    ensures
        r@ == lossy_text(bytes@),
{
    String::from_utf8_lossy(bytes).into_owned()
}

/// The length of a NUL-terminated name held in `raw`: up to the first zero
/// byte, or all of `raw` if it has none.
pub open spec fn name_len(raw: Seq<u8>) -> nat
    decreases raw.len(),
{
    if raw.len() == 0 {
        0
    } else {
        let k = name_len(raw.drop_last());
        if k < raw.len() - 1 {
            k
        } else if raw.last() == 0 {
            (raw.len() - 1) as nat
        } else {
            raw.len()
        }
    }
}

/// The bytes of the NUL-terminated name held in `raw`.
pub fn name_bytes(raw: &[u8]) -> (bytes: Vec<u8>)
    ensures
        bytes@ == raw@.take(name_len(raw@) as int),
{
    let mut bytes: Vec<u8> = Vec::new();
    let mut j: usize = 0;
    let mut ended = false;
    while j < raw.len()
        invariant
            j <= raw@.len(),
            ended ==> name_len(raw@.take(j as int)) < j,
            !ended ==> name_len(raw@.take(j as int)) == j,
            bytes@ == raw@.take(name_len(raw@.take(j as int)) as int),
        decreases raw@.len() - j,
    {
        proof {
            assert(raw@.take(j as int + 1).drop_last() =~= raw@.take(j as int));
        }
        if !ended {
            if raw[j] == 0 {
                ended = true;
            } else {
                bytes.push(raw[j]);
                proof {
                    assert(bytes@ =~= raw@.take(j as int + 1));
                }
            }
        }
        j = j + 1;
    }
    proof {
        assert(raw@.take(raw@.len() as int) =~= raw@);
    }
    bytes
}

/// The executable name held in a snapshot entry's fixed-size, NUL-terminated
/// buffer, decoded leniently.
pub fn exe_name_from_raw(raw: &[u8]) -> (name: String)
    ensures
        name@ == lossy_text(raw@.take(name_len(raw@) as int)),
{
    let bytes = name_bytes(raw);
    decode_lossy(bytes.as_slice())
}

/// The process ids of the (process id, name) pairs whose name is `name`, in
/// order.
pub open spec fn pids_named(entries: Seq<(u32, Seq<char>)>, name: Seq<char>) -> Seq<u32>
    decreases entries.len(),
{
    if entries.len() == 0 {
        Seq::empty()
    } else {
        let r = pids_named(entries.drop_last(), name);
        if entries.last().1 == name {
            r.push(entries.last().0)
        } else {
            r
        }
    }
}

/// The view of a list of (process id, name) pairs.
pub open spec fn named_view(entries: Seq<(u32, String)>) -> Seq<(u32, Seq<char>)> {
    entries.map_values(|e: (u32, String)| (e.0, e.1@))
}

/// A snapshot with every executable name case-folded.
pub open spec fn folded_names(entries: Seq<SnapshotEntry>) -> Seq<(u32, Seq<char>)> {
    entries.map_values(|e: SnapshotEntry| (e.pid, lower_of(e.exe_name@)))
}

/// The processes of the snapshot whose executable name matches `target`,
/// ignoring case, in snapshot order.
pub open spec fn matching_pids(entries: Seq<SnapshotEntry>, target: Seq<char>) -> Seq<u32> {
    pids_named(folded_names(entries), lower_of(target))
}

/// The process ids of the pairs whose name is exactly `name`, in order.
pub fn select_pids_named(entries: &[(u32, String)], name: &str) -> (pids: Vec<u32>)
    ensures
        pids@ == pids_named(named_view(entries@), name@),
{
    let key = String::from_str(name);
    let mut pids: Vec<u32> = Vec::new();
    let mut j: usize = 0;
    while j < entries.len()
        invariant
            j <= entries@.len(),
            key@ == name@,
            pids@ == pids_named(named_view(entries@.take(j as int)), name@),
        decreases entries@.len() - j,
    {
        proof {
            assert(named_view(entries@.take(j as int + 1)).drop_last() =~= named_view(
                entries@.take(j as int),
            ));
        }
        if entries[j].1 == key {
            pids.push(entries[j].0);
        }
        j = j + 1;
    }
    proof {
        assert(entries@.take(entries@.len() as int) =~= entries@);
    }
    pids
}

/// All processes of the snapshot whose executable name matches
/// `process_name`, ignoring case, in snapshot order.
pub fn find_all_processes_by_name(entries: &[SnapshotEntry], process_name: &str) -> (pids: Vec<
    u32,
>)
    ensures
        pids@ == matching_pids(entries@, process_name@),
{
    let mut folded: Vec<(u32, String)> = Vec::new();
    let mut j: usize = 0;
    while j < entries.len()
        invariant
            j <= entries@.len(),
            named_view(folded@) == folded_names(entries@.take(j as int)),
        decreases entries@.len() - j,
    {
        let name = lowercase(entries[j].exe_name.as_str());
        let ghost before = folded@;
        folded.push((entries[j].pid, name));
        proof {
            assert(named_view(folded@) =~= named_view(before).push((entries@[j as int].pid, name@)));
            assert(folded_names(entries@.take(j as int + 1)) =~= folded_names(
                entries@.take(j as int),
            ).push((entries@[j as int].pid, lower_of(entries@[j as int].exe_name@))));
        }
        j = j + 1;
    }
    proof {
        assert(entries@.take(entries@.len() as int) =~= entries@);
    }
    let target = lowercase(process_name);
    select_pids_named(folded.as_slice(), target.as_str())
}

/// The first process of the snapshot whose executable name matches
/// `process_name`, ignoring case.
pub fn find_process_by_name(entries: &[SnapshotEntry], process_name: &str) -> (pid: Option<u32>)
    ensures
        pid == (if matching_pids(entries@, process_name@).len() > 0 {
            Some(matching_pids(entries@, process_name@)[0])
        } else {
            None
        }),
{
    let all = find_all_processes_by_name(entries, process_name);
    if all.len() > 0 {
        Some(all[0])
    } else {
        None
    }
}

/// The executable name of the first entry for `pid`, if any.
pub open spec fn name_of_pid(entries: Seq<SnapshotEntry>, pid: u32) -> Option<Seq<char>>
    decreases entries.len(),
{
    if entries.len() == 0 {
        None
    } else {
        match name_of_pid(entries.drop_last(), pid) {
            Some(n) => Some(n),
            None => if entries.last().pid == pid {
                Some(entries.last().exe_name@)
            } else {
                None
            },
        }
    }
}

/// The executable name of process `pid` in the snapshot, or the message
/// that it is not there.
pub fn get_process_name_by_pid(entries: &[SnapshotEntry], target_pid: u32) -> (r: Result<
    String,
    String,
>)
    ensures
        match name_of_pid(entries@, target_pid) {
            Some(n) => r is Ok && r->Ok_0@ == n,
            None => r is Err && r->Err_0@ == "Process with PID "@ + crate::text::decimal(
                target_pid as nat,
            ) + " not found"@,
        },
{
    let mut found: Option<String> = None;
    let mut j: usize = 0;
    while j < entries.len()
        invariant
            j <= entries@.len(),
            match name_of_pid(entries@.take(j as int), target_pid) {
                Some(n) => found is Some && found->Some_0@ == n,
                None => found is None,
            },
        decreases entries@.len() - j,
    {
        proof {
            assert(entries@.take(j as int + 1).drop_last() =~= entries@.take(j as int));
        }
        if found.is_none() && entries[j].pid == target_pid {
            found = Some(entries[j].exe_name.clone());
        }
        j = j + 1;
    }
    proof {
        assert(entries@.take(entries@.len() as int) =~= entries@);
    }
    match found {
        Some(n) => Ok(n),
        None => {
            let mut m = String::new();
            crate::text::push_str(&mut m, "Process with PID ");
            crate::text::push_decimal(&mut m, target_pid as u64);
            crate::text::push_str(&mut m, " not found");
            Err(m)
        },
    }
}

} // verus!
