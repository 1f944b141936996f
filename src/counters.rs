//! The text that reports three request counters: one shared behind a lock,
//! one kept per worker, and one shared as an atomic.
use vstd::prelude::*;
use crate::decimal::{decimal, decimal_of};

verus! {

/// Label before the lock-guarded shared counter.
pub const GLOBAL_MUTEX_LABEL: &'static str = "global mutex counter: ";

/// Label before the per-worker counter.
pub const LOCAL_LABEL: &'static str = ", local counter: ";

/// Label before the atomic shared counter.
pub const GLOBAL_ATOMIC_LABEL: &'static str = ", global atomic counter: ";

/// The report for the three counter values.
pub open spec fn report_of(global_mutex: nat, local: nat, global_atomic: nat) -> Seq<char> {
    GLOBAL_MUTEX_LABEL@ + decimal_of(global_mutex) + LOCAL_LABEL@ + decimal_of(local)
        + GLOBAL_ATOMIC_LABEL@ + decimal_of(global_atomic)
}

/// Writes the three counters, each in base ten after its label.
pub fn counter_report(global_mutex: usize, local: u32, global_atomic: usize) -> (r: String)
    ensures
        r@ == report_of(global_mutex as nat, local as nat, global_atomic as nat),
{
    let mut r = String::from_str(GLOBAL_MUTEX_LABEL);
    let g = decimal(global_mutex as u64);
    r.append(g.as_str());
    r.append(LOCAL_LABEL);
    let l = decimal(local as u64);
    r.append(l.as_str());
    r.append(GLOBAL_ATOMIC_LABEL);
    let a = decimal(global_atomic as u64);
    r.append(a.as_str());
    r
}

} // verus!
