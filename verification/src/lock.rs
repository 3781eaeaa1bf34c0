//! The decisions of the companion tool's PID lockfile: what to report when a
//! lock is already held, when a freshly written lock counts as acquired, and
//! when a guard may remove the file.

use vstd::prelude::*;

use crate::strutil::dec_repr;
use crate::strutil::u64_to_string;

verus! {

/// The message reported when the lockfile already exists: it names the
/// holder's PID when the file holds one, and says so when it does not.
pub fn lock_held_message(read_pid: Option<u64>) -> (r: String)
    ensures
        read_pid matches Some(p) ==> r@ == "lock is hold by pid "@ + dec_repr(p as nat),
        read_pid is None ==> r@ == "lock is hold by other process"@,
{
    match read_pid {
        Some(p) => {
            let mut out = "lock is hold by pid ".to_owned();
            let digits = u64_to_string(p);
            out.append(digits.as_str());
            out
        },
        None => "lock is hold by other process".to_owned(),
    }
}

/// Decides whether a freshly written lock counts as acquired: the PID read
/// back must be our own; otherwise the error names both.
pub fn lock_acquired(our_pid: u64, reread_pid: u64) -> (r: Result<(), String>)
    ensures
        r is Ok <==> our_pid == reread_pid,
        r matches Err(m) ==> m@ == "cannot lock, expect pid "@ + dec_repr(our_pid as nat)
            + ", recheck with pid "@ + dec_repr(reread_pid as nat),
{
    if our_pid == reread_pid {
        Ok(())
    } else {
        let mut out = "cannot lock, expect pid ".to_owned();
        let ours = u64_to_string(our_pid);
        out.append(ours.as_str());
        out.append(", recheck with pid ");
        let theirs = u64_to_string(reread_pid);
        out.append(theirs.as_str());
        Err(out)
    }
}

/// Whether a guard may remove the lockfile on exit: only when the file still
/// holds this process's PID.
pub fn may_release(read_pid: Option<u64>, our_pid: u64) -> (r: bool)
    ensures
        r == (read_pid matches Some(p) && p == our_pid),
{
    match read_pid {
        Some(p) => p == our_pid,
        None => false,
    }
}

} // verus!
