//! Where the audit trace is kept: one directory under the home directory,
//! shared by both hooks and read by the log, dashboard and rollback commands,
//! whatever project the agent works in.
use vstd::prelude::*;

use crate::types::TraceEntry;

verus! {

/// The trace directory under a home directory, joined as a path: the
/// relative `.railyard/traces` is appended after one `/`.
pub open spec fn spec_global_trace_dir(home: Seq<char>) -> Seq<char> {
    if home.len() == 0 {
        ".railyard/traces"@
    } else if home.last() == '/' {
        home + ".railyard/traces"@
    } else {
        home + "/.railyard/traces"@
    }
}

/// The directory that holds every trace, under the given home directory.
pub fn global_trace_dir(home: &str) -> (res: String)
    ensures
        res@ == spec_global_trace_dir(home@),
{
    let n = home.unicode_len();
    if n == 0 {
        ".railyard/traces".to_owned()
    } else if home.get_char(n - 1) == '/' {
        let mut dir = home.to_owned();
        dir.append(".railyard/traces");
        dir
    } else {
        let mut dir = home.to_owned();
        dir.append("/.railyard/traces");
        dir
    }
}

/// A trace entry and the directory it is written to.
pub struct TraceRecord {
    pub directory: String,
    pub entry: TraceEntry,
}

} // verus!
