//! Which trace entries the log command shows, and how the status screen
//! names a setting.
use vstd::prelude::*;

verus! {

/// The place where the last `count` of `len` entries begin.
pub open spec fn recent_start(len: nat, count: nat) -> nat {
    if len > count {
        (len - count) as nat
    } else {
        0
    }
}

/// The window of recent entries holds `min(len, count)` entries and ends
/// with the last one.
pub proof fn lemma_recent_window(len: nat, count: nat)
    ensures
        len - recent_start(len, count) == if len <= count { len } else { count },
        recent_start(len, count) <= len,
{
}

/// Keeps the last `count` entries, oldest first (all of them when there are
/// fewer).
pub fn recent_entries<T>(entries: Vec<T>, count: usize) -> (res: Vec<T>)
    ensures
        res@ == entries@.subrange(recent_start(entries@.len(), count as nat) as int, entries@.len() as int),
        res@.len() == if entries@.len() <= count { entries@.len() } else { count as nat },
        res@ == entries@.subrange(entries@.len() - res@.len(), entries@.len() as int),
{
    let mut entries = entries;
    let len = entries.len();
    let start = if len > count {
        len - count
    } else {
        0
    };
    entries.split_off(start)
}

/// How the status screen names a setting that is on or off.
pub fn on_off(enabled: bool) -> (res: &'static str)
    ensures
        enabled ==> res@ == "on"@,
        !enabled ==> res@ == "off"@,
{
    if enabled {
        "on"
    } else {
        "off"
    }
}

} // verus!
